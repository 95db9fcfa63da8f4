use snake_core::constants::{DRAG_DEN, DRAG_NUM, MAX_SPEED, SNAKE_HEAD_RADIUS};
use snake_core::events::Events;
use snake_core::game::{DebugSettings, GameFieldSize, SnakeSpeed};
use snake_core::input::InputFrame;
use snake_core::isqrt::{isqrt, isqrt_ceil};
use snake_core::locomotion::{drag, player_input, Velocity};
use snake_core::vec2::{dist_sq64, len_sq64, muldiv64, Vec2};

fn run_input(
    pos: (i64, i64),
    vel: (i64, i64),
    input: &InputFrame,
    dt: i64,
) -> ((i64, i64), (i64, i64), Events) {
    let mut head_pos = Vec2 { x: pos.0, y: pos.1 };
    let mut head_vel = Velocity(Vec2 { x: vel.0, y: vel.1 });
    let speed = SnakeSpeed::default_speed();
    let field = GameFieldSize::default_size();
    let mut debug = DebugSettings { output_shown: false };
    let mut events = Events::empty();
    player_input(
        &mut head_pos,
        &mut head_vel,
        &speed,
        input,
        dt,
        &field,
        &mut debug,
        &mut events,
    );
    (
        (head_pos.x, head_pos.y),
        (head_vel.0.x, head_vel.0.y),
        events,
    )
}

#[test]
fn position_integrates_velocity_exactly() {
    // With a velocity, no held keys and no clamp, one tick moves the
    // head by velocity * dt / 1000 exactly.
    let input = InputFrame::idle();
    let (pos, vel, events) = run_input((0, 0), (100_000, -40_000), &input, 16);
    assert_eq!(vel, (100_000, -40_000));
    assert_eq!(pos, (1_600, -640));
    assert_eq!(events.game_over, 0);
}

#[test]
fn digital_input_accelerates_unscaled_by_time() {
    let mut input = InputFrame::idle();
    input.right_held = true;
    let (_, vel, _) = run_input((0, 0), (0, 0), &input, 16);
    // One held key adds the digital acceleration directly.
    assert_eq!(vel, (10_000, 0));
    // A diagonal is normalized to 707/1000 per axis.
    let mut diag = InputFrame::idle();
    diag.right_held = true;
    diag.up_held = true;
    let (_, vel2, _) = run_input((0, 0), (0, 0), &diag, 16);
    assert_eq!(vel2, (7_070, 7_070));
}

#[test]
fn analog_input_accelerates_scaled_by_time() {
    let mut input = InputFrame::idle();
    input.analog = Some(Vec2 { x: 1000, y: -500 });
    let (_, vel, _) = run_input((0, 0), (0, 0), &input, 16);
    // Full deflection: 1000 * (16 * 500_000) / 1_000_000 = 8_000.
    assert_eq!(vel, (8_000, -4_000));
}

#[test]
fn head_is_always_contained_after_a_tick() {
    // Field 1920x1080: half extents minus the head radius.
    let bx = 1_920_000 / 2 - SNAKE_HEAD_RADIUS;
    let by = 1_080_000 / 2 - SNAKE_HEAD_RADIUS;
    let input = InputFrame::idle();
    let (pos, _, _) = run_input((bx, by), (10_000_000, 10_000_000), &input, 100);
    assert_eq!(pos, (bx, by));
    let (pos2, _, _) = run_input((-bx, -by), (-10_000_000, -10_000_000), &input, 100);
    assert_eq!(pos2, (-bx, -by));
}

#[test]
fn boundary_exit_emits_exactly_one_game_over_event() {
    let bx = 1_920_000 / 2 - SNAKE_HEAD_RADIUS;
    let input = InputFrame::idle();
    // Barely out.
    let (_, _, events) = run_input((bx - 1, 0), (100_000, 0), &input, 16);
    assert_eq!(events.game_over, 1);
    // Far out on both axes at once: still exactly one event.
    let (_, _, events2) = run_input((bx - 1, 0), (90_000_000, 90_000_000), &input, 100);
    assert_eq!(events2.game_over, 1);
    // Still inside: none.
    let (_, _, events3) = run_input((0, 0), (100_000, 0), &input, 16);
    assert_eq!(events3.game_over, 0);
}

#[test]
fn drag_scales_snaps_and_clamps() {
    // Plain scaling by 98/100.
    let mut v = Velocity(Vec2 { x: 100_000, y: 0 });
    drag(&mut v);
    assert_eq!((v.0.x, v.0.y), (100_000 * DRAG_NUM / DRAG_DEN, 0));
    // Below one world unit of speed, the velocity snaps to zero.
    let mut s = Velocity(Vec2 { x: 900, y: 300 });
    drag(&mut s);
    assert_eq!((s.0.x, s.0.y), (0, 0));
    // Above the ceiling, the speed is capped at MAX_SPEED.
    let mut c = Velocity(Vec2 { x: 2_000_000, y: 0 });
    drag(&mut c);
    assert_eq!((c.0.x, c.0.y), (MAX_SPEED, 0));
}

#[test]
fn drag_converges_to_exactly_zero() {
    let mut v = Velocity(Vec2 { x: 987_654, y: -321_000 });
    let mut ticks = 0u32;
    while (v.0.x, v.0.y) != (0, 0) {
        drag(&mut v);
        ticks += 1;
        assert!(ticks < 2_000, "drag did not converge");
    }
    assert_eq!((v.0.x, v.0.y), (0, 0));
    // And zero is a fixed point.
    drag(&mut v);
    assert_eq!((v.0.x, v.0.y), (0, 0));
}

#[test]
fn integer_square_root_brackets() {
    assert_eq!(isqrt(0), 0);
    assert_eq!(isqrt(15), 3);
    assert_eq!(isqrt(16), 4);
    assert_eq!(isqrt(2_499_999_999), 49_999);
    assert_eq!(isqrt(2_500_000_000), 50_000);
    assert_eq!(isqrt(u64::MAX), 4_294_967_295);
    assert_eq!(isqrt_ceil(16), 4);
    assert_eq!(isqrt_ceil(17), 5);
    assert_eq!(isqrt_ceil(1), 1);
}

#[test]
fn scaled_multiply_truncates_toward_zero() {
    assert_eq!(muldiv64(-7, 98, 100), -6);
    assert_eq!(muldiv64(7, 98, 100), 6);
    assert_eq!(muldiv64(0, 98, 100), 0);
    assert_eq!(muldiv64(-1000, 16, 1000), -16);
}

#[test]
fn squared_lengths_and_distances() {
    let a = Vec2 { x: 3, y: 4 };
    let b = Vec2 { x: 0, y: 0 };
    assert_eq!(len_sq64(&a), 25);
    assert_eq!(dist_sq64(&a, &b), 25);
    assert_eq!(dist_sq64(&b, &a), 25);
}
