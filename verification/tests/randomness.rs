use snake_core::constants::{
    COIN_BOUNDARY, COIN_VALUE_MAX, COIN_VALUE_MIN, FOOD_RADIUS, TAIL_NODE_GAP,
};
use snake_core::economy::{spawn_coins, spawn_food};
use snake_core::game::GameFieldSize;
use snake_core::rng::{random_chance, random_coord_in, random_gap_offset};

#[test]
fn a_degenerate_range_pins_the_draw() {
    // A one-wide range leaves the generator no choice: if the wrapper
    // handed an argument back unchanged this would fail for hi.
    for _ in 0..32 {
        assert_eq!(random_coord_in(5, 6), 5);
        assert_eq!(random_coord_in(-6, -5), -6);
    }
}

#[test]
fn chance_extremes_are_deterministic() {
    for _ in 0..32 {
        assert!(!random_chance(0));
        assert!(random_chance(1000));
    }
}

#[test]
fn coin_bags_spawn_inside_the_margin_with_cent_values() {
    let field = GameFieldSize::default_size();
    let cx = field.x / 2 - COIN_BOUNDARY;
    let cy = field.y / 2 - COIN_BOUNDARY;
    for _ in 0..64 {
        let bag = spawn_coins(&field);
        assert!(-cx <= bag.pos.x && bag.pos.x < cx);
        assert!(-cy <= bag.pos.y && bag.pos.y < cy);
        assert!(COIN_VALUE_MIN <= bag.value && bag.value < COIN_VALUE_MAX);
        assert_eq!(bag.value % 10, 0);
    }
}

#[test]
fn food_spawns_inside_the_field_at_rest() {
    let field = GameFieldSize::default_size();
    let fx = field.x / 2 - FOOD_RADIUS;
    let fy = field.y / 2 - FOOD_RADIUS;
    for _ in 0..64 {
        let food = spawn_food(&field);
        assert!(-fx <= food.pos.x && food.pos.x < fx);
        assert!(-fy <= food.pos.y && food.pos.y < fy);
        assert_eq!((food.velocity.0.x, food.velocity.0.y), (0, 0));
    }
}

#[test]
fn random_growth_offsets_have_exactly_the_gap_length() {
    for _ in 0..64 {
        let off = random_gap_offset();
        assert_eq!(
            off.x * off.x + off.y * off.y,
            TAIL_NODE_GAP * TAIL_NODE_GAP
        );
    }
}
