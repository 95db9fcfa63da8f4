use snake_core::constants::{MAX_HEALTH_DEFAULT, SNAKE_HEAD_RADIUS};
use snake_core::events::Events;
use snake_core::game::PauseState;
use snake_core::input::{ButtonInteraction, InputFrame};
use snake_core::tail::SnakeTailNode;
use snake_core::vec2::Vec2;
use snake_core::world::{restart, tick, World};

fn six_nodes() -> Vec<SnakeTailNode> {
    (0..6)
        .map(|i| SnakeTailNode {
            pos: Vec2 { x: i as i64 * 50_000, y: 0 },
            ignore_collision: i == 0,
            creation_index: i,
        })
        .collect()
}

#[test]
fn restart_resets_the_session() {
    // score=42, coins=17.5, tail length 6, health 10, game over: after a
    // restart everything returns to the session defaults, the head is
    // strictly inside the field, and the game-over panel is hidden.
    let mut w = World::start();
    w.game.score = 42;
    w.game.coins = 17_500;
    w.snake.health = 10_000;
    w.game.game_over = true;
    w.game_over_panel_visible = true;
    w.tail = six_nodes();
    let mut events = Events::empty();
    events.restart = 1;
    restart(
        &mut w.game,
        &mut w.tail,
        &mut w.game_over_panel_visible,
        &mut w.head_pos,
        &mut w.head_vel,
        &mut w.snake,
        &mut w.food,
        &mut w.coin_bag,
        &w.field,
        &mut events,
    );
    assert_eq!(w.game.score, 0);
    assert_eq!(w.game.coins, 0);
    assert_eq!(w.tail.len(), 0);
    assert_eq!(w.snake.health, MAX_HEALTH_DEFAULT);
    assert!(!w.game.game_over);
    assert!(!w.game_over_panel_visible);
    assert_eq!((w.head_vel.0.x, w.head_vel.0.y), (0, 0));
    let bx = w.field.x / 2 - SNAKE_HEAD_RADIUS;
    let by = w.field.y / 2 - SNAKE_HEAD_RADIUS;
    assert!(-bx < w.head_pos.x && w.head_pos.x < bx);
    assert!(-by < w.head_pos.y && w.head_pos.y < by);
    assert!(w.food.is_none());
    assert!(w.coin_bag.is_none());
}

#[test]
fn restart_scenario_through_a_full_tick() {
    let mut w = World::start();
    w.game.score = 42;
    w.game.coins = 17_500;
    w.snake.health = 10_000;
    w.game.game_over = true;
    w.game_over_panel_visible = true;
    w.tail = six_nodes();
    let mut input = InputFrame::idle();
    input.restart_button = Some(ButtonInteraction::Pressed);
    let saved = tick(&mut w, &input, 16, 17).unwrap();
    // The beaten high score is reported for persisting before the reset.
    assert_eq!(saved, Some(42));
    assert_eq!(w.game.score, 0);
    assert_eq!(w.game.coins, 0);
    assert_eq!(w.tail.len(), 0);
    assert_eq!(w.snake.health, MAX_HEALTH_DEFAULT);
    assert!(!w.game.game_over);
    assert!(!w.game_over_panel_visible);
}

#[test]
fn high_score_is_only_reported_when_beaten() {
    let mut w = World::start();
    w.game.score = 42;
    w.game.game_over = true;
    let input = InputFrame::idle();
    assert_eq!(tick(&mut w, &input, 16, 42).unwrap(), None);
    assert_eq!(tick(&mut w, &input, 16, 41).unwrap(), Some(42));
}

#[test]
fn corner_exit_ends_the_game_and_freezes_the_simulation() {
    let mut w = World::start();
    let bx = w.field.x / 2 - SNAKE_HEAD_RADIUS;
    let by = w.field.y / 2 - SNAKE_HEAD_RADIUS;
    // Head at the field corner, pushed further outward for one tick.
    w.head_pos = Vec2 { x: bx, y: by };
    let mut input = InputFrame::idle();
    input.right_held = true;
    input.up_held = true;
    tick(&mut w, &input, 100, 0).unwrap();
    // The exit ends the game; the head is clamped back to the boundary.
    assert!(w.game.game_over);
    assert!(w.game_over_panel_visible);
    assert_eq!((w.head_pos.x, w.head_pos.y), (bx, by));
    // From now on, non-menu components stop mutating the simulation.
    let head = (w.head_pos.x, w.head_pos.y);
    let vel = (w.head_vel.0.x, w.head_vel.0.y);
    let health = w.snake.health;
    let score = w.game.score;
    let coins = w.game.coins;
    let tail_len = w.tail.len();
    let food_there = w.food.is_some();
    for _ in 0..3 {
        tick(&mut w, &input, 100, 0).unwrap();
        assert!(w.game.game_over);
        assert_eq!((w.head_pos.x, w.head_pos.y), head);
        assert_eq!((w.head_vel.0.x, w.head_vel.0.y), vel);
        assert_eq!(w.snake.health, health);
        assert_eq!(w.game.score, score);
        assert_eq!(w.game.coins, coins);
        assert_eq!(w.tail.len(), tail_len);
        assert_eq!(w.food.is_some(), food_there);
    }
}

#[test]
fn game_over_menu_confirm_restarts_from_the_highlight() {
    let mut w = World::start();
    w.game.score = 7;
    w.game.game_over = true;
    w.game_over_panel_visible = true;
    // The cursor starts on Restart; confirm restarts.
    let mut input = InputFrame::idle();
    input.confirm_pressed = true;
    tick(&mut w, &input, 16, 100).unwrap();
    assert!(!w.game.game_over);
    assert_eq!(w.game.score, 0);
}

#[test]
fn a_running_tick_moves_the_head_deterministically() {
    let mut w = World::start();
    let mut input = InputFrame::idle();
    input.right_held = true;
    tick(&mut w, &input, 16, 0).unwrap();
    // One held key: velocity 10_000, position 10_000 * 16 / 1000 = 160.
    assert_eq!((w.head_pos.x, w.head_pos.y), (160, 0));
    // Drag then scaled the velocity by 98/100.
    assert_eq!((w.head_vel.0.x, w.head_vel.0.y), (9_800, 0));
    assert!(!w.game.game_over);
}

#[test]
fn running_game_spawns_food_and_keeps_the_pause_state() {
    let mut w = World::start();
    assert!(w.food.is_none());
    let input = InputFrame::idle();
    tick(&mut w, &input, 16, 0).unwrap();
    // A running tick respawns the absent food inside the field.
    assert!(w.food.is_some());
    assert_eq!(w.pause, PauseState::Unpaused);
    assert!(!w.game.game_over);
}
