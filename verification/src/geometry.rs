//! Probe geometry: the three short collision casts the controller asks
//! the physics world to make each tick, recomputed from the player's
//! current position and never persisted.

use vstd::prelude::*;

verus! {

/// Side length of the player's square collider, in world units.
pub const PLAYER_SIZE: i32 = 60;

/// Reach of the downward ground probe, in world units.
pub const GROUND_PROBE_RANGE: i32 = 4;

/// Reach of each lateral wall probe, in world units.
pub const WALL_PROBE_RANGE: i32 = 10;

/// Collision-group bit for static floor geometry.
pub const FLOOR_GROUP: u32 = 1;

/// Collision-group bit for static wall geometry, distinct from the floor
/// bit so a ground probe cannot report a wall hit or the reverse.
pub const WALL_GROUP: u32 = 2;

/// An integer 2D vector in world units.
#[derive(Clone, Copy, PartialEq, Eq, Debug)]
pub struct Vec2i {
    pub x: i32,
    pub y: i32,
}

/// A membership/filter bitmask pair naming which static geometry layer a
/// probe may hit.
#[derive(Clone, Copy, PartialEq, Eq, Debug)]
pub struct CollisionFilter {
    pub memberships: u32,
    pub filter: u32,
}

/// The filter a ground probe casts with.
pub open spec fn floor_filter() -> CollisionFilter {
    CollisionFilter { memberships: FLOOR_GROUP, filter: FLOOR_GROUP }
}

/// The filter a wall probe casts with.
pub open spec fn wall_filter() -> CollisionFilter {
    CollisionFilter { memberships: WALL_GROUP, filter: WALL_GROUP }
}

/// One ray or swept-shape cast: origin, direction, reach, whether the
/// cast treats geometry as solid, and the layer filter.
#[derive(Clone, Copy, PartialEq, Eq, Debug)]
pub struct Probe {
    pub origin: Vec2i,
    pub direction: Vec2i,
    pub max_dist: i32,
    pub solid: bool,
    pub filter: CollisionFilter,
}

/// The short downward probe from the player's bottom edge.
pub fn ground_probe(pos: Vec2i) -> (p: Probe)
    requires
        pos.y - PLAYER_SIZE / 2 >= i32::MIN,
    ensures
        p.origin.x == pos.x,
        p.origin.y == pos.y - PLAYER_SIZE / 2,
        p.direction.x == 0 && p.direction.y == -1,
        p.max_dist == GROUND_PROBE_RANGE,
        !p.solid,
        p.filter == floor_filter(),
{
    Probe {
        origin: Vec2i { x: pos.x, y: pos.y - PLAYER_SIZE / 2 },
        direction: Vec2i { x: 0, y: -1 },
        max_dist: GROUND_PROBE_RANGE,
        solid: false,
        filter: CollisionFilter { memberships: FLOOR_GROUP, filter: FLOOR_GROUP },
    }
}

/// The lateral probe from the player's left edge.
pub fn left_wall_probe(pos: Vec2i) -> (p: Probe)
    requires
        pos.x - PLAYER_SIZE / 2 >= i32::MIN,
    ensures
        p.origin.x == pos.x - PLAYER_SIZE / 2,
        p.origin.y == pos.y,
        p.direction.x == -1 && p.direction.y == 0,
        p.max_dist == WALL_PROBE_RANGE,
        !p.solid,
        p.filter == wall_filter(),
{
    Probe {
        origin: Vec2i { x: pos.x - PLAYER_SIZE / 2, y: pos.y },
        direction: Vec2i { x: -1, y: 0 },
        max_dist: WALL_PROBE_RANGE,
        solid: false,
        filter: CollisionFilter { memberships: WALL_GROUP, filter: WALL_GROUP },
    }
}

/// The lateral probe from the player's right edge.
pub fn right_wall_probe(pos: Vec2i) -> (p: Probe)
    requires
        pos.x + PLAYER_SIZE / 2 <= i32::MAX,
    ensures
        p.origin.x == pos.x + PLAYER_SIZE / 2,
        p.origin.y == pos.y,
        p.direction.x == 1 && p.direction.y == 0,
        p.max_dist == WALL_PROBE_RANGE,
        !p.solid,
        p.filter == wall_filter(),
{
    Probe {
        origin: Vec2i { x: pos.x + PLAYER_SIZE / 2, y: pos.y },
        direction: Vec2i { x: 1, y: 0 },
        max_dist: WALL_PROBE_RANGE,
        solid: false,
        filter: CollisionFilter { memberships: WALL_GROUP, filter: WALL_GROUP },
    }
}

/// Where a probe ends: its origin displaced by its direction scaled to
/// its reach. Used to draw the probe in the debug overlay.
pub fn probe_endpoint(p: &Probe) -> (e: Vec2i)
    requires
        i32::MIN <= p.direction.x * p.max_dist <= i32::MAX,
        i32::MIN <= p.direction.y * p.max_dist <= i32::MAX,
        i32::MIN <= p.origin.x + p.direction.x * p.max_dist <= i32::MAX,
        i32::MIN <= p.origin.y + p.direction.y * p.max_dist <= i32::MAX,
    ensures
        e.x == p.origin.x + p.direction.x * p.max_dist,
        e.y == p.origin.y + p.direction.y * p.max_dist,
{
    Vec2i {
        x: p.origin.x + p.direction.x * p.max_dist,
        y: p.origin.y + p.direction.y * p.max_dist,
    }
}

} // verus!
