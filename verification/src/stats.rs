//! Statistics over the vehicles that have left the field.

use vstd::prelude::*;
use crate::cars::Car;
use crate::units::SECOND;

verus! {

/// What is known of a vehicle when it leaves the field.
#[derive(Clone, Copy, Debug, PartialEq, Eq, Structural)]
pub struct ExitReport {
    pub time_active: u64,
    pub distance_traveled: u64,
    pub close_call: bool,
}

/// The report on a vehicle.
pub open spec fn report_of(car: Car) -> ExitReport {
    ExitReport {
        time_active: car.time_active,
        distance_traveled: car.distance_traveled,
        close_call: car.close_call,
    }
}

/// What a run has seen of the vehicles that left.
#[derive(Clone, Copy, Debug, PartialEq, Eq, Structural)]
pub struct Statistics {
    /// Number of vehicles that left; stops counting at `u64::MAX`.
    pub passed: u64,
    /// Number of those that were marked with a close call; stops counting
    /// at `u64::MAX`.
    pub marked: u64,
    /// Highest and lowest average speed among them, if any has left.
    pub fastest: Option<u128>,
    pub slowest: Option<u128>,
}

/// The average speed that a report stands for, in thousandths of a unit
/// per second; zero for a vehicle that spent no time on the field.
pub open spec fn average_of(report: ExitReport) -> int {
    if report.time_active == 0 {
        0
    } else {
        report.distance_traveled * SECOND / (report.time_active as int)
    }
}

/// `n + 1`, held at `u64::MAX`.
pub open spec fn counted(n: u64) -> u64 {
    if n == u64::MAX {
        n
    } else {
        (n + 1) as u64
    }
}

/// The statistics `s` with `report` taken in.
pub open spec fn recorded(s: Statistics, report: ExitReport) -> Statistics {
    let speed = average_of(report) as u128;
    Statistics {
        passed: counted(s.passed),
        marked: if report.close_call {
            counted(s.marked)
        } else {
            s.marked
        },
        fastest: match s.fastest {
            Some(f) if f >= speed => Some(f),
            _ => Some(speed),
        },
        slowest: match s.slowest {
            Some(l) if l <= speed => Some(l),
            _ => Some(speed),
        },
    }
}

/// The statistics `s` with every report of `reports` taken in, in their
/// order.
pub open spec fn tallied(s: Statistics, reports: Seq<ExitReport>) -> Statistics
    decreases reports.len(),
{
    if reports.len() == 0 {
        s
    } else {
        recorded(tallied(s, reports.drop_last()), reports.last())
    }
}

impl ExitReport {
    /// The average speed over the vehicle's time on the field, in
    /// thousandths of a unit per second; zero for a vehicle that spent no
    /// time there.
    pub fn average_speed(&self) -> (speed: u128)
        ensures
            speed == average_of(*self),
    {
        if self.time_active == 0 {
            0
        } else {
            assert(self.distance_traveled * SECOND <= u64::MAX * SECOND) by (nonlinear_arith)
                requires
                    self.distance_traveled <= u64::MAX,
                    SECOND >= 0,
            ;
            (self.distance_traveled as u128) * (SECOND as u128) / (self.time_active as u128)
        }
    }
}

impl Statistics {
    /// The statistics of a run in which no vehicle has left yet.
    pub fn new() -> (s: Statistics)
        ensures
            s == (Statistics { passed: 0, marked: 0, fastest: None, slowest: None }),
    {
        Statistics { passed: 0, marked: 0, fastest: None, slowest: None }
    }

    /// Takes in the report on one vehicle.
    pub fn record(&mut self, report: &ExitReport)
        ensures
            *final(self) == recorded(*old(self), *report),
    {
        let speed: u128 = report.average_speed();
        if self.passed < u64::MAX {
            self.passed = self.passed + 1;
        }
        if report.close_call && self.marked < u64::MAX {
            self.marked = self.marked + 1;
        }
        self.fastest = match self.fastest {
            Some(f) if f >= speed => Some(f),
            _ => Some(speed),
        };
        self.slowest = match self.slowest {
            Some(l) if l <= speed => Some(l),
            _ => Some(speed),
        };
    }

    /// Takes in the reports of a tick.
    pub fn record_all(&mut self, reports: &Vec<ExitReport>)
        ensures
            *final(self) == tallied(*old(self), reports@),
    {
        let mut k: usize = 0;
        while k < reports.len()
            invariant
                k <= reports.len(),
                *self == tallied(*old(self), reports@.take(k as int)),
            decreases reports.len() - k,
        {
            proof {
                assert(reports@.take(k + 1).drop_last() =~= reports@.take(k as int));
                assert(reports@.take(k + 1).last() == reports@[k as int]);
            }
            self.record(&reports[k]);
            k = k + 1;
        }
        assert(reports@.take(k as int) =~= reports@);
    }

    /// The number of close calls. A close call marks both vehicles of the
    /// pair, so it is half the number of marked vehicles.
    pub fn close_calls(&self) -> (calls: u64)
        ensures
            calls == self.marked / 2,
    {
        self.marked / 2
    }
}

/// The marks never outnumber the vehicles, and the fastest average is not
/// below the slowest.
pub proof fn lemma_statistics_are_consistent(s: Statistics, report: ExitReport)
    requires
        s.marked <= s.passed,
        s.fastest matches Some(f) ==> s.slowest matches Some(l) && l <= f,
    ensures
        recorded(s, report).marked <= recorded(s, report).passed,
        recorded(s, report).fastest matches Some(f) && recorded(s, report).slowest matches Some(l)
            && l <= f,
{
}

} // verus!
