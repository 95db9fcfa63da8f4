//! The consumption economy and the health model: food and coin-bag
//! entities, their spawning, the coin bag's per-tick leak, pickup by the
//! head, and hunger decay with its game-over trigger.

use vstd::prelude::*;
use crate::constants::{
    COIN_BOUNDARY, COIN_LEAK_PER_TICK, COIN_VALUE_MAX, COIN_VALUE_MIN, COORD_LIMIT, DT_MAX,
    FOOD_HEALTH, FOOD_MOVE_SPEED, FOOD_RADIUS, SNAKE_HEAD_RADIUS,
};
use crate::events::Events;
use crate::game::{Game, GameFieldSize, HungerRate};
use crate::isqrt::isqrt;
use crate::locomotion::{clamped, Snake, Velocity};
use crate::rng::{random_chance, random_coord_in};
use crate::tail::{grown_ok, grow_tail, tail_wf, SnakeTailNode};
use crate::vec2::{dist_sq, dist_sq64, in_box, muldiv, muldiv64, Vec2};

verus! {

/// The single food item: a position and a wandering velocity.
#[derive(Clone, Copy, PartialEq, Eq, Structural, Debug)]
pub struct Food {
    pub pos: Vec2,
    pub velocity: Velocity,
}

/// The at-most-one coin bag: a position and its decaying value in
/// milli-coins.
#[derive(Clone, Copy, PartialEq, Eq, Structural, Debug)]
pub struct CoinBag {
    pub pos: Vec2,
    pub value: i64,
}

impl Food {
    /// Position in the coordinate box, wandering speed within range.
    pub open spec fn wf(self) -> bool {
        &&& in_box(self.pos, COORD_LIMIT as int)
        &&& in_box(self.velocity.0, FOOD_MOVE_SPEED as int)
    }
}

impl CoinBag {
    /// A live bag's value is positive (it self-destroys at zero) and no
    /// more than the largest spawn value.
    pub open spec fn wf(self) -> bool {
        &&& in_box(self.pos, COORD_LIMIT as int)
        &&& 0 < self.value < COIN_VALUE_MAX
    }
}

/// Squared distance below which the head picks an item up.
pub open spec fn pickup_radius_sq() -> int {
    (SNAKE_HEAD_RADIUS + FOOD_RADIUS) * (SNAKE_HEAD_RADIUS + FOOD_RADIUS)
}

/// score + 1, stopping at the type's ceiling.
pub open spec fn sat_inc(n: int) -> int {
    if n < usize::MAX {
        n + 1
    } else {
        n
    }
}

/// a + b, stopping at the type's ceiling.
pub open spec fn sat_add(a: int, b: int) -> int {
    if a + b <= i64::MAX {
        a + b
    } else {
        i64::MAX as int
    }
}

/// Hunger decay: health falls with frame time; reaching zero or less
/// emits exactly one game-over event.
pub fn update_health(
    snake: &mut Snake,
    hunger_rate: &HungerRate,
    dt_ms: i64,
    events: &mut Events,
)
    requires
        0 <= dt_ms <= DT_MAX,
        0 <= hunger_rate.0 <= 1_000_000,
        -1_000_000_000 <= old(snake).health <= 1_000_000_000,
        old(events).wf(),
    ensures
        final(snake).health == old(snake).health - muldiv(
            hunger_rate.0 as int,
            dt_ms as int,
            1000,
        ),
        final(events).game_over == old(events).game_over + (if final(snake).health <= 0 {
            1int
        } else {
            0int
        }),
        *final(events) == (Events { game_over: final(events).game_over, ..*old(events) }),
        final(snake).health >= old(snake).health - 100_000,
{
    proof {
        crate::vec2::lemma_muldiv_upper(hunger_rate.0 as int, dt_ms as int, 1000, 1_000_000);
        vstd::arithmetic::div_mod::lemma_div_is_ordered(
            1_000_000 * dt_ms,
            100_000_000,
            1000,
        );
        crate::vec2::lemma_muldiv_abs(hunger_rate.0 as int, dt_ms as int, 1000);
        assert(crate::vec2::iabs(hunger_rate.0 as int) * (dt_ms as int) <= 100_000_000)
            by (nonlinear_arith)
            requires
                0 <= hunger_rate.0 <= 1_000_000,
                0 <= dt_ms <= 100,
        {};
    }
    let decay = muldiv64(hunger_rate.0, dt_ms as u64, 1000);
    snake.health = snake.health - decay;
    if snake.health <= 0 {
        events.game_over = events.game_over + 1;
    }
}

/// Write the health bar's fill level: the health normalized to
/// thousandths of the full bar (health over the 100-unit scale).
pub fn update_health_material(snake: &Snake, material_health_permille: &mut i64)
    requires
        -1_000_000_000 <= snake.health <= 1_000_000_000,
    ensures
        *final(material_health_permille) == muldiv(snake.health as int, 10, 1000),
{
    proof {
        crate::vec2::lemma_muldiv_upper(snake.health as int, 10, 1000, 1_000_000_000);
    }
    *material_health_permille = muldiv64(snake.health, 10, 1000);
}

/// Replenishment in its arithmetic form: for any health the session can
/// reach while running, eating takes it to the smaller of the ceiling
/// and health plus the food bonus.
pub proof fn lemma_food_replenishes_to_min(health: int, max_health: int)
    requires
        0 <= health,
        0 <= max_health,
    ensures
        clamped(health + FOOD_HEALTH, 0, max_health) == if health + FOOD_HEALTH <= max_health {
            health + FOOD_HEALTH
        } else {
            max_health
        },
{
}

/// The coin bag leaks a fixed amount each tick and self-destroys the
/// tick its value first reaches zero or less; nothing can be collected
/// from it afterwards.
pub fn coinbag_leak(coin_bag: &mut Option<CoinBag>)
    requires
        (match *old(coin_bag) {
            Option::Some(bag) => bag.wf(),
            Option::None => true,
        }),
    ensures
        match *old(coin_bag) {
            Option::Some(bag) => if bag.value - COIN_LEAK_PER_TICK <= 0 {
                *final(coin_bag) == Option::<CoinBag>::None
            } else {
                *final(coin_bag) == Option::Some(
                    CoinBag { pos: bag.pos, value: (bag.value - COIN_LEAK_PER_TICK) as i64 },
                )
            },
            Option::None => *final(coin_bag) == Option::<CoinBag>::None,
        },
{
    match coin_bag {
        Option::Some(bag) => {
            if bag.value - COIN_LEAK_PER_TICK <= 0 {
                *coin_bag = Option::None;
            } else {
                let nb = CoinBag { pos: bag.pos, value: bag.value - COIN_LEAK_PER_TICK };
                *coin_bag = Option::Some(nb);
            }
        },
        Option::None => {},
    }
}

/// Spawn a coin bag at a uniformly random spot inside the field minus
/// the coin margin, worth a random value of whole hundredths between
/// the spawn minimum and maximum.
pub fn spawn_coins(field: &GameFieldSize) -> (bag: CoinBag)
    requires
        field.wf(),
    ensures
        bag.wf(),
        -(field.x / 2 - COIN_BOUNDARY) <= bag.pos.x < field.x / 2 - COIN_BOUNDARY,
        -(field.y / 2 - COIN_BOUNDARY) <= bag.pos.y < field.y / 2 - COIN_BOUNDARY,
        COIN_VALUE_MIN <= bag.value < COIN_VALUE_MAX,
        bag.value % 10 == 0,
{
    let half_x: i64 = ((field.x as u64) / 2) as i64;
    let half_y: i64 = ((field.y as u64) / 2) as i64;
    let cx = half_x - COIN_BOUNDARY;
    let cy = half_y - COIN_BOUNDARY;
    proof {
        vstd::arithmetic::div_mod::lemma_div_is_ordered(256_002int, field.x as int, 2);
        vstd::arithmetic::div_mod::lemma_div_is_ordered(256_002int, field.y as int, 2);
        vstd::arithmetic::div_mod::lemma_div_is_ordered(field.x as int, COORD_LIMIT as int, 2);
        vstd::arithmetic::div_mod::lemma_div_is_ordered(field.y as int, COORD_LIMIT as int, 2);
    }
    let px = random_coord_in(-cx, cx);
    let py = random_coord_in(-cy, cy);
    let centi = random_coord_in(COIN_VALUE_MIN / 10, COIN_VALUE_MAX / 10);
    CoinBag { pos: Vec2 { x: px, y: py }, value: centi * 10 }
}

/// Spawn the food item at a uniformly random spot inside the field
/// minus the food radius, at rest.
pub fn spawn_food(field: &GameFieldSize) -> (food: Food)
    requires
        field.wf(),
    ensures
        food.wf(),
        -(field.x / 2 - FOOD_RADIUS) <= food.pos.x < field.x / 2 - FOOD_RADIUS,
        -(field.y / 2 - FOOD_RADIUS) <= food.pos.y < field.y / 2 - FOOD_RADIUS,
        food.velocity.0.x == 0,
        food.velocity.0.y == 0,
{
    let half_x: i64 = ((field.x as u64) / 2) as i64;
    let half_y: i64 = ((field.y as u64) / 2) as i64;
    let fx = half_x - FOOD_RADIUS;
    let fy = half_y - FOOD_RADIUS;
    proof {
        vstd::arithmetic::div_mod::lemma_div_is_ordered(256_002int, field.x as int, 2);
        vstd::arithmetic::div_mod::lemma_div_is_ordered(256_002int, field.y as int, 2);
        vstd::arithmetic::div_mod::lemma_div_is_ordered(field.x as int, COORD_LIMIT as int, 2);
        vstd::arithmetic::div_mod::lemma_div_is_ordered(field.y as int, COORD_LIMIT as int, 2);
    }
    let px = random_coord_in(-fx, fx);
    let py = random_coord_in(-fy, fy);
    Food { pos: Vec2 { x: px, y: py }, velocity: Velocity(Vec2 { x: 0, y: 0 }) }
}

/// Food wandering: the closer the head, the likelier a random change of
/// direction; the food stops dead against the field walls and otherwise
/// drifts with its velocity.
pub fn move_food(food: &mut Food, head_pos: &Vec2, dt_ms: i64, field: &GameFieldSize)
    requires
        0 <= dt_ms <= DT_MAX,
        field.wf(),
        old(food).wf(),
        in_box(*head_pos, COORD_LIMIT as int),
        -(field.x / 2 - FOOD_RADIUS) <= old(food).pos.x <= field.x / 2 - FOOD_RADIUS,
        -(field.y / 2 - FOOD_RADIUS) <= old(food).pos.y <= field.y / 2 - FOOD_RADIUS,
    ensures
        final(food).wf(),
        // The velocity the tick settled on is either a stop at the wall
        // or keeps the next unscaled step inside the field.
        (final(food).velocity.0.x == 0 && final(food).velocity.0.y == 0) || {
            let nx = old(food).pos.x + final(food).velocity.0.x;
            let ny = old(food).pos.y + final(food).velocity.0.y;
            &&& -(field.x / 2 - FOOD_RADIUS) <= nx <= field.x / 2 - FOOD_RADIUS
            &&& -(field.y / 2 - FOOD_RADIUS) <= ny <= field.y / 2 - FOOD_RADIUS
        },
        // Position integrates the settled velocity over frame time.
        final(food).pos.x == old(food).pos.x + muldiv(
            final(food).velocity.0.x as int,
            dt_ms as int,
            1000,
        ),
        final(food).pos.y == old(food).pos.y + muldiv(
            final(food).velocity.0.y as int,
            dt_ms as int,
            1000,
        ),
        // The food never leaves the field.
        -(field.x / 2 - FOOD_RADIUS) <= final(food).pos.x <= field.x / 2 - FOOD_RADIUS,
        -(field.y / 2 - FOOD_RADIUS) <= final(food).pos.y <= field.y / 2 - FOOD_RADIUS,
{
    let d2 = dist_sq64(&food.pos, head_pos);
    let dist = isqrt(d2 as u64);
    let per_mille: u64 = if dist == 0 {
        1000
    } else {
        let p = 10_000_000u64 / dist;
        if p > 1000 {
            1000
        } else {
            p
        }
    };
    if random_chance(per_mille) {
        let vx = random_coord_in(-FOOD_MOVE_SPEED, FOOD_MOVE_SPEED);
        let vy = random_coord_in(-FOOD_MOVE_SPEED, FOOD_MOVE_SPEED);
        food.velocity = Velocity(Vec2 { x: vx, y: vy });
    }
    let half_x: i64 = ((field.x as u64) / 2) as i64;
    let half_y: i64 = ((field.y as u64) / 2) as i64;
    let fx = half_x - FOOD_RADIUS;
    let fy = half_y - FOOD_RADIUS;
    proof {
        vstd::arithmetic::div_mod::lemma_div_is_ordered(256_002int, field.x as int, 2);
        vstd::arithmetic::div_mod::lemma_div_is_ordered(256_002int, field.y as int, 2);
        vstd::arithmetic::div_mod::lemma_div_is_ordered(field.x as int, COORD_LIMIT as int, 2);
        vstd::arithmetic::div_mod::lemma_div_is_ordered(field.y as int, COORD_LIMIT as int, 2);
    }
    let nx = food.pos.x + food.velocity.0.x;
    let ny = food.pos.y + food.velocity.0.y;
    if nx < -fx || nx > fx || ny < -fy || ny > fy {
        food.velocity = Velocity(Vec2 { x: 0, y: 0 });
    }
    proof {
        crate::tail::lemma_step_between(
            food.pos.x as int,
            (food.pos.x + food.velocity.0.x) as int,
            dt_ms as int,
            1000,
        );
        crate::tail::lemma_step_between(
            food.pos.y as int,
            (food.pos.y + food.velocity.0.y) as int,
            dt_ms as int,
            1000,
        );
        assert(crate::vec2::iabs(food.velocity.0.x as int) * (dt_ms as int) <= 20_000_000
            && crate::vec2::iabs(food.velocity.0.y as int) * (dt_ms as int) <= 20_000_000)
            by (nonlinear_arith)
            requires
                -200_000 <= food.velocity.0.x <= 200_000,
                -200_000 <= food.velocity.0.y <= 200_000,
                0 <= dt_ms <= 100,
        {};
    }
    let mvx = muldiv64(food.velocity.0.x, dt_ms as u64, 1000);
    let mvy = muldiv64(food.velocity.0.y, dt_ms as u64, 1000);
    food.pos = Vec2 { x: food.pos.x + mvx, y: food.pos.y + mvy };
}

/// Pickup of food and coins by the head, each independently guarded by
/// the entity's presence. Eaten food adds one to the score, replenishes
/// health up to the ceiling and grows the tail by one node; a collected
/// bag adds its current, already-decayed value to the currency.
pub fn consume_items(
    head_pos: &Vec2,
    snake: &mut Snake,
    max_health: i64,
    food: &mut Option<Food>,
    coin_bag: &mut Option<CoinBag>,
    game: &mut Game,
    tail: &mut Vec<SnakeTailNode>,
)
    requires
        in_box(*head_pos, COORD_LIMIT as int),
        0 <= max_health <= 1_000_000_000,
        -1_000_000_000 <= old(snake).health <= 1_000_000_000,
        (match *old(food) {
            Option::Some(f) => f.wf(),
            Option::None => true,
        }),
        (match *old(coin_bag) {
            Option::Some(b) => b.wf(),
            Option::None => true,
        }),
        old(game).wf(),
        tail_wf(old(tail)@),
    ensures
        ({
            let ate = (*old(food) matches Option::Some(f)) && dist_sq(
                old(food)->Some_0.pos,
                *head_pos,
            ) < pickup_radius_sq();
            &&& *final(food) == if ate {
                Option::<Food>::None
            } else {
                *old(food)
            }
            &&& final(game).score == if ate {
                sat_inc(old(game).score as int)
            } else {
                old(game).score as int
            }
            &&& final(snake).health == if ate {
                clamped(old(snake).health + FOOD_HEALTH, 0, max_health as int)
            } else {
                old(snake).health as int
            }
            &&& if ate {
                grown_ok(old(tail)@, final(tail)@, *head_pos)
            } else {
                final(tail)@ == old(tail)@
            }
        }),
        ({
            let collected = (*old(coin_bag) matches Option::Some(b)) && dist_sq(
                old(coin_bag)->Some_0.pos,
                *head_pos,
            ) < pickup_radius_sq();
            &&& *final(coin_bag) == if collected {
                Option::<CoinBag>::None
            } else {
                *old(coin_bag)
            }
            &&& final(game).coins == if collected {
                sat_add(old(game).coins as int, old(coin_bag)->Some_0.value as int)
            } else {
                old(game).coins as int
            }
        }),
        final(game).game_over == old(game).game_over,
        final(game).wf(),
        tail_wf(final(tail)@),
{
    let mut ate = false;
    match food {
        Option::Some(f) => {
            let d2 = dist_sq64(&f.pos, head_pos);
            if d2 < (SNAKE_HEAD_RADIUS + FOOD_RADIUS) * (SNAKE_HEAD_RADIUS + FOOD_RADIUS) {
                ate = true;
            }
        },
        Option::None => {},
    }
    if ate {
        *food = Option::None;
        if game.score < usize::MAX {
            game.score = game.score + 1;
        }
        let replenished = snake.health + FOOD_HEALTH;
        snake.health = if replenished < 0 {
            0
        } else if replenished > max_health {
            max_health
        } else {
            replenished
        };
        grow_tail(tail, head_pos);
    }
    let mut collected = false;
    let mut value: i64 = 0;
    match coin_bag {
        Option::Some(b) => {
            let d2 = dist_sq64(&b.pos, head_pos);
            if d2 < (SNAKE_HEAD_RADIUS + FOOD_RADIUS) * (SNAKE_HEAD_RADIUS + FOOD_RADIUS) {
                collected = true;
                value = b.value;
            }
        },
        Option::None => {},
    }
    if collected {
        *coin_bag = Option::None;
        if game.coins <= i64::MAX - value {
            game.coins = game.coins + value;
        } else {
            game.coins = i64::MAX;
        }
    }
}

} // verus!
