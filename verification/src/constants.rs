//! Tunables of the simulation, all in fixed-point milli-units
//! (1000 per world unit) unless noted otherwise.

use vstd::prelude::*;

verus! {

/// Sub-units per world unit.
pub const MILLI: i64 = 1000;

/// Radius of the snake's head.
pub const SNAKE_HEAD_RADIUS: i64 = 32_000;

/// Radius of a food item (also used for the coin bag's pickup test).
pub const FOOD_RADIUS: i64 = 16_000;

/// Default logical game-field width.
pub const FIELD_WIDTH_DEFAULT: i64 = 1_920_000;

/// Default logical game-field height.
pub const FIELD_HEIGHT_DEFAULT: i64 = 1_080_000;

/// Trailing gap kept between a tail node and its leader.
pub const TAIL_NODE_GAP: i64 = 50_000;

/// Catch-up factor of a tail node chasing its leader, per second.
pub const TAIL_CATCHUP_SPEED: i64 = 7;

/// Health restored by one food item.
pub const FOOD_HEALTH: i64 = 30_000;

/// Health ceiling at the start of a session.
pub const MAX_HEALTH_DEFAULT: i64 = 100_000;

/// Health drained per second while the game runs.
pub const HUNGER_RATE_DEFAULT: i64 = 2_000;

/// Drag multiplies speed by DRAG_NUM / DRAG_DEN once per tick.
pub const DRAG_NUM: i64 = 98;
/// See DRAG_NUM.
pub const DRAG_DEN: i64 = 100;

/// Below this speed, drag snaps the velocity to zero (one world unit).
pub const SPEED_SNAP: i64 = 1_000;

/// Speed ceiling applied by drag.
pub const MAX_SPEED: i64 = 1_000_000;

/// Velocity gained per tick per held direction key.
pub const ACCEL_DIGITAL: i64 = 10_000;

/// Velocity gained per second at full analog stick deflection.
pub const ACCEL_ANALOG: i64 = 500_000;

/// Milli-coins leaking out of a coin bag each tick.
pub const COIN_LEAK_PER_TICK: i64 = 10;

/// Chance per tick (out of 1000) that a coin bag spawns while none exists.
pub const COIN_SPAWN_CHANCE_PERMILLE: u64 = 20;

/// Least coin-bag value at spawn, in milli-coins.
pub const COIN_VALUE_MIN: i64 = 8_000;

/// Greatest coin-bag value at spawn (exclusive), in milli-coins.
pub const COIN_VALUE_MAX: i64 = 12_000;

/// Margin kept between the field edge and a spawned coin bag.
pub const COIN_BOUNDARY: i64 = 128_000;

/// Speed of wandering food.
pub const FOOD_MOVE_SPEED: i64 = 200_000;

/// Tail length from which self-collision is checked at all.
pub const MIN_TAIL_FOR_SELF_COLLISION: usize = 4;

/// Bound on every coordinate and velocity component the core works with;
/// keeps all fixed-point products inside i64.
pub const COORD_LIMIT: i64 = 1_000_000_000;

/// Longest frame the core accepts, in milliseconds. Keeping it below
/// 1000 / TAIL_CATCHUP_SPEED means a tail node never overshoots its
/// leader within one tick.
pub const DT_MAX: i64 = 100;

/// Most tail nodes the core will ever hold.
pub const TAIL_LIMIT: usize = 10_000_000;

/// Tail growth only anchors on a node inside this box, so a new node
/// always stays within COORD_LIMIT.
pub const TAIL_SPAWN_BOX: i64 = 900_000_000;

/// Bound the core keeps on any velocity component handed to locomotion.
pub const VEL_LIMIT: i64 = 100_000_000;

} // verus!
