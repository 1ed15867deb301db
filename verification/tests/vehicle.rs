use road_intersection::cars::{ramp, steer, turn_heading, Car, Origin, Phase, Route, TurnState};
use road_intersection::geometry::{Direction, Field, Point};
use road_intersection::paint::Color;
use road_intersection::units::{
    CRUISE_SPEED, HEADING_EAST, HEADING_NORTH, HEADING_SOUTH, HEADING_WEST, MAX_TICK, TAU,
};

const FRAME: u64 = 16_667;

fn field() -> Field {
    Field::new(1_100_000, 800_000).unwrap()
}

fn grey() -> Color {
    Color::opaque(128, 128, 128)
}

fn direction_of(heading: i64) -> Direction {
    let angle = heading as f64 / 1_000_000.0;
    let x = (angle.cos() * 1_000_000.0).round() as i64;
    let y = (angle.sin() * 1_000_000.0).round() as i64;
    Direction::new(x, y).unwrap()
}

fn tick(car: &mut Car, dt: u64) {
    let heading = car.next_heading(dt, &field());
    car.update(dt, &field(), direction_of(heading));
    assert_eq!(car.rotation, heading);
}

fn squared_distance(a: Point, b: Point) -> i128 {
    a.distance_squared(&b)
}

#[test]
fn every_lane_has_its_own_spawn_point() {
    let f = field();
    let south = [
        (Route::Left, 565_000),
        (Route::Straight, 595_000),
        (Route::Right, 625_000),
    ];
    for (route, x) in south {
        let car = Car::with_color(Origin::South, route, &f, grey());
        assert_eq!(car.cord, Point { x, y: 850_000 });
        assert_eq!(car.rotation, HEADING_NORTH);
    }
    let north = [
        (Route::Left, 535_000),
        (Route::Straight, 505_000),
        (Route::Right, 475_000),
    ];
    for (route, x) in north {
        let car = Car::with_color(Origin::North, route, &f, grey());
        assert_eq!(car.cord, Point { x, y: -50_000 });
        assert_eq!(car.rotation, HEADING_SOUTH);
    }
    let east = [
        (Route::Left, 385_000),
        (Route::Straight, 355_000),
        (Route::Right, 325_000),
    ];
    for (route, y) in east {
        let car = Car::with_color(Origin::East, route, &f, grey());
        assert_eq!(car.cord, Point { x: 1_150_000, y });
        assert_eq!(car.rotation, HEADING_WEST);
    }
    let west = [
        (Route::Left, 415_000),
        (Route::Straight, 445_000),
        (Route::Right, 475_000),
    ];
    for (route, y) in west {
        let car = Car::with_color(Origin::West, route, &f, grey());
        assert_eq!(car.cord, Point { x: -50_000, y });
        assert_eq!(car.rotation, HEADING_EAST);
    }
}

#[test]
fn a_new_vehicle_cruises_towards_the_junction() {
    let car = Car::with_color(Origin::South, Route::Straight, &field(), grey());
    assert_eq!(car.origin, Origin::South);
    assert_eq!(car.route, Route::Straight);
    assert_eq!(car.color, grey());
    assert_eq!(car.target_speed, 120_000);
    assert_eq!(car.current_speed, 120_000);
    assert_eq!(car.max_speed, 120_000);
    assert_eq!(CRUISE_SPEED, 120_000);
    assert_eq!(car.distance_traveled, 0);
    assert_eq!(car.time_active, 0);
    assert_eq!(car.phase, Phase::Approaching);
    assert_eq!(car.turn, TurnState::NotTurning);
    assert!(!car.close_call);
}

#[test]
fn a_new_vehicle_has_a_vivid_colour() {
    let mut varied = false;
    let mut k = 0;
    while k < 32 {
        let car = Car::new(Origin::West, Route::Left, &field());
        let expected = Car::with_color(Origin::West, Route::Left, &field(), car.color);
        assert_eq!(car, expected);
        for channel in [car.color.r, car.color.g, car.color.b] {
            assert!(channel >= 50);
            assert!(channel < 255);
            if channel != 50 {
                varied = true;
            }
        }
        assert_eq!(car.color.a, 255);
        k += 1;
    }
    assert!(varied);
}

#[test]
fn speed_rises_slowly_and_falls_fast() {
    assert_eq!(ramp(0, 120_000, 100_000), 20_000);
    assert_eq!(ramp(120_000, 0, 100_000), 60_000);
    assert_eq!(ramp(0, 120_000, FRAME), 3_333);
    assert_eq!(ramp(120_000, 0, FRAME), 110_000);
    assert_eq!(ramp(30_000, 60_000, 50_000), 40_000);
    assert_eq!(ramp(60_000, 30_000, 50_000), 30_000);
}

#[test]
fn speed_never_passes_its_target() {
    assert_eq!(ramp(100_000, 120_000, 1_000_000), 120_000);
    assert_eq!(ramp(50_000, 0, 1_000_000), 0);
    assert_eq!(ramp(0, 120_000, MAX_TICK), 120_000);
    assert_eq!(ramp(120_000, 0, MAX_TICK), 0);
    assert_eq!(ramp(70_000, 70_000, FRAME), 70_000);
    assert_eq!(ramp(70_000, 70_000, 0), 70_000);
    assert_eq!(ramp(0, 120_000, 0), 0);
    assert_eq!(ramp(0, 120_000, 4), 0);
    assert_eq!(ramp(0, 120_000, 5), 1);
    assert_eq!(ramp(1_000_000_000, 0, MAX_TICK), 964_000_000);
    assert_eq!(ramp(0, 1_000_000_000, MAX_TICK), 12_000_000);
}

#[test]
fn headings_wrap_round_the_circle() {
    assert_eq!(turn_heading(0, 0, true), 0);
    assert_eq!(turn_heading(0, 0, false), 0);
    assert_eq!(turn_heading(4_712_389, 800_000, true), 5_512_389);
    assert_eq!(turn_heading(4_712_389, 800_000, false), 3_912_389);
    assert_eq!(turn_heading(6_000_000, 283_185, true), 0);
    assert_eq!(turn_heading(6_000_000, 283_184, true), 6_283_184);
    assert_eq!(turn_heading(100_000, 100_001, false), 6_283_184);
    assert_eq!(turn_heading(100_000, 100_000, false), 0);
    assert_eq!(turn_heading(0, TAU, true), 0);
    assert_eq!(turn_heading(0, TAU, false), 0);
    assert_eq!(turn_heading(1, 10 * TAU + 5, true), 6);
    assert_eq!(turn_heading(1, 10 * TAU + 5, false), TAU - 4);
    // The largest step: i64::MAX - TAU is 3_764_512 past a whole number of turns.
    assert_eq!(turn_heading(TAU - 1, i64::MAX - TAU, true), 3_764_511);
    assert_eq!(turn_heading(0, i64::MAX - TAU, false), TAU - 3_764_512);
}

#[test]
fn a_vehicle_on_its_lane_moves_along_its_heading() {
    let mut car = Car::with_color(Origin::South, Route::Straight, &field(), grey());
    car.update(FRAME, &field(), Direction::north());
    // 120_000 * 16_667 / 1_000_000 = 2_000, rounded down.
    assert_eq!(car.cord, Point { x: 595_000, y: 848_000 });
    assert_eq!(car.rotation, HEADING_NORTH);
    assert_eq!(car.current_speed, 120_000);
    assert_eq!(car.distance_traveled, 2_000);
    assert_eq!(car.time_active, FRAME);
    assert_eq!(car.phase, Phase::Approaching);
    assert_eq!(car.turn, TurnState::NotTurning);

    let mut car = Car::with_color(Origin::West, Route::Left, &field(), grey());
    car.update(1_000_000, &field(), Direction::east());
    assert_eq!(car.cord, Point { x: 70_000, y: 415_000 });
    assert_eq!(car.distance_traveled, 120_000);
    assert_eq!(car.time_active, 1_000_000);
}

#[test]
fn the_step_uses_the_speed_after_the_ramp() {
    let mut car = Car::with_color(Origin::North, Route::Straight, &field(), grey());
    car.target_speed = 0;
    car.update(100_000, &field(), Direction::south());
    // Down to 60_000, then 60_000 * 0.1 s = 6_000.
    assert_eq!(car.current_speed, 60_000);
    assert_eq!(car.cord, Point { x: 505_000, y: -44_000 });
    assert_eq!(car.distance_traveled, 6_000);
    car.update(100_000, &field(), Direction::south());
    assert_eq!(car.current_speed, 0);
    assert_eq!(car.cord, Point { x: 505_000, y: -44_000 });
    car.target_speed = 120_000;
    car.update(100_000, &field(), Direction::south());
    assert_eq!(car.current_speed, 20_000);
    assert_eq!(car.cord, Point { x: 505_000, y: -42_000 });
    assert_eq!(car.distance_traveled, 8_000);
    assert_eq!(car.time_active, 300_000);
}

#[test]
fn a_vehicle_at_rest_stays_where_it_is() {
    let mut car = Car::with_color(Origin::East, Route::Straight, &field(), grey());
    car.current_speed = 0;
    car.target_speed = 0;
    let before = car.cord;
    let mut k = 0;
    while k < 100 {
        car.update(FRAME, &field(), Direction::west());
        assert_eq!(car.cord, before);
        assert_eq!(car.current_speed, 0);
        k += 1;
    }
    assert_eq!(car.distance_traveled, 0);
    assert_eq!(car.time_active, 100 * FRAME);
}

#[test]
fn a_tick_of_no_time_changes_nothing_but_the_phase() {
    let mut car = Car::with_color(Origin::South, Route::Straight, &field(), grey());
    let before = car;
    car.update(0, &field(), Direction::north());
    assert_eq!(car, before);
}

#[test]
fn speed_stays_between_zero_and_the_maximum() {
    let mut car = Car::with_color(Origin::South, Route::Left, &field(), grey());
    let targets = [0, 120_000, 30_000, 60_000, 0, 0, 120_000, 1, 119_999];
    let mut k: usize = 0;
    while k < 600 && car.phase != Phase::Exited {
        car.target_speed = targets[(k / 7) % targets.len()];
        let dt = FRAME + (k as u64 % 5) * 10_000;
        tick(&mut car, dt);
        assert!(car.current_speed >= 0);
        assert!(car.current_speed <= car.max_speed);
        assert_eq!(car.max_speed, 120_000);
        k += 1;
    }
}

#[test]
fn a_straight_route_never_gets_an_arc() {
    let mut car = Car::with_color(Origin::South, Route::Straight, &field(), grey());
    let mut seen_inside = false;
    let mut k = 0;
    while car.phase != Phase::Exited {
        tick(&mut car, FRAME);
        assert_eq!(car.turn, TurnState::NotTurning);
        assert_eq!(car.rotation, HEADING_NORTH);
        assert_eq!(car.cord.x, 595_000);
        if car.phase == Phase::InIntersection {
            seen_inside = true;
        }
        k += 1;
        assert!(k < 2_000);
    }
    assert!(seen_inside);
    assert!(car.cord.y <= -60_000);
    // 910_000 from spawn to the margin at 2_000 a tick.
    assert_eq!(k, 455);
    assert_eq!(car.distance_traveled, 910_000);
    assert_eq!(car.time_active, 455 * FRAME);
}

#[test]
fn the_arc_is_planned_on_entry_and_then_kept() {
    let mut car = Car::with_color(Origin::South, Route::Right, &field(), grey());
    car.cord = Point { x: 625_000, y: 489_000 };
    tick(&mut car, 100_000);
    assert_eq!(car.phase, Phase::InIntersection);
    let arc = TurnState::Turning {
        center: Point { x: 640_000, y: 490_000 },
        radius: 15_000,
        clockwise: true,
    };
    assert_eq!(car.turn, arc);
    // 120_000 * 100_000 / 15_000 = 800_000 microradians further round.
    assert_eq!(car.rotation, 5_512_389);
    assert_eq!(car.distance_traveled, 12_000);
    let mut k = 0;
    while car.phase != Phase::Exited {
        tick(&mut car, FRAME);
        assert_eq!(car.turn, arc);
        k += 1;
        assert!(k < 2_000);
    }
}

#[test]
fn each_turn_bends_round_its_corner() {
    let f = field();
    let cases = [
        (Origin::South, Route::Right, 640_000, 490_000, 15_000, true),
        (Origin::South, Route::Left, 460_000, 490_000, 105_000, false),
        (Origin::North, Route::Right, 460_000, 310_000, 15_000, true),
        (Origin::North, Route::Left, 640_000, 310_000, 105_000, false),
        (Origin::East, Route::Right, 640_000, 310_000, 15_000, true),
        (Origin::East, Route::Left, 640_000, 490_000, 105_000, false),
        (Origin::West, Route::Right, 460_000, 490_000, 15_000, true),
        (Origin::West, Route::Left, 460_000, 310_000, 105_000, false),
    ];
    for (origin, route, x, y, radius, clockwise) in cases {
        let mut car = Car::with_color(origin, route, &f, grey());
        let mut k = 0;
        while car.phase == Phase::Approaching {
            assert_eq!(car.turn, TurnState::NotTurning);
            tick(&mut car, FRAME);
            k += 1;
            assert!(k < 2_000);
        }
        assert_eq!(car.phase, Phase::InIntersection);
        assert_eq!(car.turn, TurnState::Turning { center: Point { x, y }, radius, clockwise });
    }
}

#[test]
fn the_arc_starts_where_the_lane_enters_the_box() {
    let f = field();
    let entries = [
        (Origin::South, Route::Right, 625_000, 490_000),
        (Origin::South, Route::Left, 565_000, 490_000),
        (Origin::North, Route::Right, 475_000, 310_000),
        (Origin::North, Route::Left, 535_000, 310_000),
        (Origin::East, Route::Right, 640_000, 325_000),
        (Origin::East, Route::Left, 640_000, 385_000),
        (Origin::West, Route::Right, 460_000, 475_000),
        (Origin::West, Route::Left, 460_000, 415_000),
    ];
    for (origin, route, x, y) in entries {
        let mut car = Car::with_color(origin, route, &f, grey());
        let spawn = car.cord;
        assert!(spawn.x == x || spawn.y == y);
        let mut k = 0;
        while car.phase == Phase::Approaching {
            tick(&mut car, FRAME);
            k += 1;
            assert!(k < 2_000);
        }
        if let TurnState::Turning { center, radius, .. } = car.turn {
            let r = radius as i128;
            assert_eq!(squared_distance(Point { x, y }, center), r * r);
        } else {
            panic!("a turning route has an arc");
        }
    }
}

#[test]
fn a_turning_vehicle_keeps_to_its_arc() {
    let f = field();
    for origin in [Origin::North, Origin::South, Origin::East, Origin::West] {
        for route in [Route::Left, Route::Right] {
            let mut car = Car::with_color(origin, route, &f, grey());
            let mut on_arc_ticks = 0;
            let mut k: usize = 0;
            while car.phase != Phase::Exited {
                let was_inside = f.inside_box(&car.cord);
                car.target_speed = if k % 40 < 20 { 120_000 } else { 45_000 };
                tick(&mut car, FRAME + (k as u64 % 3) * 5_000);
                if was_inside {
                    if let TurnState::Turning { center, radius, .. } = car.turn {
                        let d = squared_distance(car.cord, center);
                        let low = (radius - 3) as i128;
                        let high = (radius + 3) as i128;
                        assert!(d >= low * low);
                        assert!(d <= high * high);
                        on_arc_ticks += 1;
                    } else {
                        panic!("inside the box a turning vehicle has an arc");
                    }
                }
                k += 1;
                assert!(k < 5_000);
            }
            assert!(on_arc_ticks > 0);
        }
    }
}

#[test]
fn a_right_turn_from_the_south_leaves_to_the_east() {
    let mut car = Car::with_color(Origin::South, Route::Right, &field(), grey());
    let mut k = 0;
    while car.phase != Phase::Exited {
        tick(&mut car, 2_000);
        k += 1;
        assert!(k < 5_000);
    }
    assert!(car.cord.x >= 1_160_000);
    assert!(car.cord.y > 400_000);
    assert!(car.cord.y < 490_000);
}

#[test]
fn a_left_turn_from_the_south_leaves_to_the_west() {
    let mut car = Car::with_color(Origin::South, Route::Left, &field(), grey());
    let mut k = 0;
    while car.phase != Phase::Exited {
        tick(&mut car, FRAME);
        k += 1;
        assert!(k < 5_000);
    }
    assert!(car.cord.x <= -60_000);
    assert!(car.cord.y < 400_000);
    assert!(car.cord.y > 310_000);
}

#[test]
fn phases_only_advance() {
    let f = field();
    for origin in [Origin::North, Origin::South, Origin::East, Origin::West] {
        for route in [Route::Left, Route::Straight, Route::Right] {
            let mut car = Car::with_color(origin, route, &f, grey());
            let mut rank = 0;
            let mut k = 0;
            while k < 3_000 {
                tick(&mut car, FRAME);
                let now = match car.phase {
                    Phase::Approaching => 0,
                    Phase::InIntersection => 1,
                    Phase::Exited => 2,
                };
                assert!(now >= rank);
                rank = now;
                k += 1;
            }
            assert_eq!(rank, 2);
        }
    }
}

#[test]
fn a_vehicle_that_has_left_is_no_longer_moved() {
    let mut car = Car::with_color(Origin::West, Route::Straight, &field(), grey());
    while car.phase != Phase::Exited {
        tick(&mut car, FRAME);
    }
    let gone = car;
    car.target_speed = 0;
    let told = car;
    car.update(MAX_TICK, &field(), Direction::east());
    assert_eq!(car, told);
    assert_eq!(car.cord, gone.cord);
    assert_eq!(car.time_active, gone.time_active);
    assert_eq!(car.next_heading(FRAME, &field()), gone.rotation);
}

#[test]
fn the_longest_tick_at_the_highest_speed_is_in_reach() {
    let mut car = Car::with_color(Origin::West, Route::Straight, &field(), grey());
    car.max_speed = 1_000_000_000;
    car.target_speed = 1_000_000_000;
    car.current_speed = 1_000_000_000;
    car.update(MAX_TICK, &field(), Direction::east());
    assert_eq!(car.cord, Point { x: 60_000_000_000 - 50_000, y: 445_000 });
    assert_eq!(car.phase, Phase::Exited);
    assert_eq!(car.distance_traveled, 60_000_000_000);
    assert_eq!(car.time_active, MAX_TICK);
}

#[test]
fn the_counters_stop_at_their_ceiling() {
    let mut car = Car::with_color(Origin::West, Route::Straight, &field(), grey());
    car.time_active = u64::MAX - 10;
    car.distance_traveled = u64::MAX - 1_999;
    car.update(FRAME, &field(), Direction::east());
    assert_eq!(car.time_active, u64::MAX);
    assert_eq!(car.distance_traveled, u64::MAX);
    let mut car = Car::with_color(Origin::West, Route::Straight, &field(), grey());
    car.time_active = u64::MAX - FRAME;
    car.distance_traveled = u64::MAX - 2_000;
    car.update(FRAME, &field(), Direction::east());
    assert_eq!(car.time_active, u64::MAX);
    assert_eq!(car.distance_traveled, u64::MAX);
    let mut car = Car::with_color(Origin::West, Route::Straight, &field(), grey());
    car.time_active = u64::MAX - FRAME - 1;
    car.distance_traveled = u64::MAX - 2_001;
    car.update(FRAME, &field(), Direction::east());
    assert_eq!(car.time_active, u64::MAX - 1);
    assert_eq!(car.distance_traveled, u64::MAX - 1);
}

#[test]
fn the_course_along_an_axis_is_exact() {
    let slanted = Direction::new(600_000, -800_000).unwrap();
    assert_eq!(steer(HEADING_EAST, slanted), Direction::east());
    assert_eq!(steer(HEADING_SOUTH, slanted), Direction::south());
    assert_eq!(steer(HEADING_WEST, slanted), Direction::west());
    assert_eq!(steer(HEADING_NORTH, slanted), Direction::north());
    assert_eq!(steer(1, slanted), slanted);
    assert_eq!(steer(HEADING_NORTH - 1, slanted), slanted);
    assert_eq!(steer(HEADING_NORTH + 1, slanted), slanted);
    assert_eq!(steer(TAU - 1, slanted), slanted);
}

#[test]
fn a_vehicle_that_has_not_turned_keeps_to_its_lane_whatever_it_is_handed() {
    let slanted = Direction::new(600_000, -800_000).unwrap();
    let f = field();
    for route in [Route::Left, Route::Straight, Route::Right] {
        let mut car = Car::with_color(Origin::North, route, &f, grey());
        let x = car.cord.x;
        let mut y = car.cord.y;
        while car.phase == Phase::Approaching && !f.inside_box(&car.cord) {
            car.update(FRAME, &f, slanted);
            y += 2_000;
            assert_eq!(car.cord, Point { x, y });
            assert_eq!(car.rotation, HEADING_SOUTH);
        }
        assert_eq!(y, 312_000);
    }
}

#[test]
fn off_the_axes_the_vehicle_follows_the_direction_it_is_handed() {
    let mut car = Car::with_color(Origin::South, Route::Right, &field(), grey());
    car.phase = Phase::InIntersection;
    car.turn = TurnState::Turning {
        center: Point { x: 640_000, y: 490_000 },
        radius: 15_000,
        clockwise: true,
    };
    car.cord = Point { x: 700_000, y: 470_000 };
    car.rotation = 100_000;
    car.update(1_000_000, &field(), Direction::new(995_004, 99_833).unwrap());
    assert_eq!(car.rotation, 100_000);
    // 120_000 along (0.995004, 0.099833), each share rounded down.
    assert_eq!(car.cord, Point { x: 700_000 + 119_400, y: 470_000 + 11_979 });
}

#[test]
fn the_states_of_the_engine_are_valid() {
    let f = field();
    for origin in [Origin::North, Origin::South, Origin::East, Origin::West] {
        for route in [Route::Left, Route::Straight, Route::Right] {
            let mut car = Car::with_color(origin, route, &f, grey());
            assert!(car.is_valid(&f));
            let mut k = 0;
            while k < 1_500 {
                tick(&mut car, FRAME);
                assert!(car.is_valid(&f));
                k += 1;
            }
            assert_eq!(car.phase, Phase::Exited);
        }
    }
}

#[test]
fn states_that_the_engine_cannot_reach_are_not_valid() {
    let f = field();
    let car = Car::with_color(Origin::South, Route::Right, &f, grey());
    let arc = TurnState::Turning {
        center: Point { x: 640_000, y: 490_000 },
        radius: 15_000,
        clockwise: true,
    };

    let mut c = car;
    c.current_speed = 120_001;
    assert!(!c.is_valid(&f));
    let mut c = car;
    c.current_speed = -1;
    assert!(!c.is_valid(&f));
    let mut c = car;
    c.target_speed = 120_001;
    assert!(!c.is_valid(&f));
    let mut c = car;
    c.target_speed = -1;
    assert!(!c.is_valid(&f));
    let mut c = car;
    c.max_speed = 1_000_000_001;
    assert!(!c.is_valid(&f));
    let mut c = car;
    c.max_speed = 1_000_000_000;
    assert!(c.is_valid(&f));
    let mut c = car;
    c.max_speed = 0;
    assert!(!c.is_valid(&f));

    let mut c = car;
    c.rotation = HEADING_NORTH + 1;
    assert!(!c.is_valid(&f));
    let mut c = car;
    c.rotation = TAU;
    assert!(!c.is_valid(&f));
    let mut c = car;
    c.rotation = -1;
    assert!(!c.is_valid(&f));

    let mut c = car;
    c.cord.y = 860_000;
    assert!(!c.is_valid(&f));
    c.phase = Phase::Exited;
    assert!(c.is_valid(&f));
    c.cord.y = 100_000_000_001;
    assert!(!c.is_valid(&f));

    let mut c = car;
    c.turn = arc;
    assert!(!c.is_valid(&f));
    c.phase = Phase::InIntersection;
    assert!(c.is_valid(&f));
    c.rotation = 5_000_000;
    assert!(c.is_valid(&f));
    c.turn = TurnState::NotTurning;
    assert!(!c.is_valid(&f));
    c.phase = Phase::Exited;
    assert!(c.is_valid(&f));
    c.turn = TurnState::Turning {
        center: Point { x: 640_000, y: 490_000 },
        radius: 15_001,
        clockwise: true,
    };
    assert!(!c.is_valid(&f));
    c.turn = TurnState::Turning {
        center: Point { x: 640_000, y: 490_000 },
        radius: 15_000,
        clockwise: false,
    };
    assert!(!c.is_valid(&f));
    c.turn = arc;
    assert!(c.is_valid(&f));

    let mut straight = Car::with_color(Origin::South, Route::Straight, &f, grey());
    straight.phase = Phase::InIntersection;
    assert!(straight.is_valid(&f));
    straight.rotation = 5_000_000;
    assert!(!straight.is_valid(&f));
    straight.rotation = HEADING_NORTH;
    straight.turn = arc;
    assert!(!straight.is_valid(&f));
}
