//! Spawn requests, and how the host's dice become requests.

use vstd::prelude::*;
use crate::cars::{Origin, Route};
use crate::chance::draw_between;

verus! {

/// A request to spawn a vehicle from `origin` on `route`.
#[derive(Clone, Copy, Debug, PartialEq, Eq, Structural)]
pub struct SpawnRequest {
    pub origin: Origin,
    pub route: Route,
}

/// The route that a draw stands for: zero for a right turn, one for
/// straight on, anything else for a left turn.
pub open spec fn route_of_draw(k: int) -> Route {
    if k == 0 {
        Route::Right
    } else if k == 1 {
        Route::Straight
    } else {
        Route::Left
    }
}

/// The origin that a draw stands for. Draws come in threes: the first
/// three for vehicles that travel up the screen, then right, then down,
/// then left.
pub open spec fn origin_of_draw(k: int) -> Origin {
    if k < 3 {
        Origin::South
    } else if k < 6 {
        Origin::West
    } else if k < 9 {
        Origin::North
    } else {
        Origin::East
    }
}

/// The request that a draw stands for: its origin by the three that the
/// draw falls in, its route by the place of the draw in the three.
pub open spec fn request_of_draw(k: int) -> SpawnRequest {
    SpawnRequest { origin: origin_of_draw(k), route: route_of_draw(k % 3) }
}

/// The route that the draw `k` stands for.
pub fn route_from_draw(k: u8) -> (route: Route)
    ensures
        route == route_of_draw(k as int),
{
    match k {
        0 => Route::Right,
        1 => Route::Straight,
        _ => Route::Left,
    }
}

/// The request that the draw `k` stands for.
pub fn request_from_draw(k: u8) -> (request: SpawnRequest)
    ensures
        request == request_of_draw(k as int),
{
    let origin: Origin = if k < 3 {
        Origin::South
    } else if k < 6 {
        Origin::West
    } else if k < 9 {
        Origin::North
    } else {
        Origin::East
    };
    SpawnRequest { origin, route: route_from_draw(k % 3) }
}

impl SpawnRequest {
    /// Reads a request from two codes: origins are numbered from zero in
    /// the order north, south, east, west, routes in the order right,
    /// straight, left. Codes beyond these are rejected.
    pub fn decode(origin: u8, route: u8) -> (request: Option<SpawnRequest>)
        ensures
            request.is_some() <==> origin < 4 && route < 3,
            request matches Some(r) ==> {
                &&& r.route == route_of_draw(route as int)
                &&& r.origin == match origin {
                    0 => Origin::North,
                    1 => Origin::South,
                    2 => Origin::East,
                    _ => Origin::West,
                }
            },
    {
        if origin >= 4 || route >= 3 {
            return None;
        }
        let from: Origin = match origin {
            0 => Origin::North,
            1 => Origin::South,
            2 => Origin::East,
            _ => Origin::West,
        };
        Some(SpawnRequest { origin: from, route: route_from_draw(route) })
    }

    /// A request from `origin` on a route chosen at random. Which route is
    /// not determined; it is the route of one of the draws zero, one, two.
    pub fn random_from(origin: Origin) -> (request: SpawnRequest)
        ensures
            request.origin == origin,
            exists|k: int| 0 <= k < 3 && request.route == #[trigger] route_of_draw(k),
    {
        let k: u8 = draw_between(0, 3);
        SpawnRequest { origin, route: route_from_draw(k) }
    }

    /// A request from an origin and on a route chosen at random. Neither is
    /// determined; the request is that of one of the draws below twelve.
    pub fn random() -> (request: SpawnRequest)
        ensures
            exists|k: int| 0 <= k < 12 && request == #[trigger] request_of_draw(k),
    {
        let k: u8 = draw_between(0, 12);
        request_from_draw(k)
    }
}

} // verus!
