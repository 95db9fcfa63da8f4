//! Head locomotion: velocity gained from digital and analog input, the
//! per-tick drag step with its snap-to-zero and speed ceiling, position
//! integration, and boundary containment with game-over on exit.

use vstd::prelude::*;
use crate::constants::{
    COORD_LIMIT, DRAG_DEN, DRAG_NUM, DT_MAX, MAX_SPEED, SNAKE_HEAD_RADIUS, SPEED_SNAP, VEL_LIMIT,
};
use crate::events::Events;
use crate::game::{DebugSettings, GameFieldSize, SnakeSpeed};
use crate::input::InputFrame;
use crate::isqrt::{isqrt_ceil, lemma_sqrt_ceil, sqrt_ceil};
use crate::vec2::{
    clamp64, iabs, in_box, len_sq, len_sq64, lemma_muldiv_abs, lemma_muldiv_shrinks,
    lemma_muldiv_upper, muldiv, muldiv64, Vec2,
};

verus! {

/// The player-controlled head; carries the session's health.
#[derive(Clone, Copy, PartialEq, Eq, Structural, Debug)]
pub struct Snake {
    pub health: i64,
}

/// A velocity attached to a moving entity, in milli-units per second.
#[derive(Clone, Copy, PartialEq, Eq, Structural, Debug)]
pub struct Velocity(pub Vec2);

/// One drag tick on a single component: multiply by DRAG_NUM / DRAG_DEN,
/// truncated toward zero.
pub open spec fn drag_scaled(v: int) -> int {
    muldiv(v, DRAG_NUM as int, DRAG_DEN as int)
}

/// One full drag tick on a velocity: scale both components, snap to zero
/// below the snap speed, and cap the speed at MAX_SPEED.
pub open spec fn drag_step(x: int, y: int) -> (int, int) {
    let sx = drag_scaled(x);
    let sy = drag_scaled(y);
    let l2 = sx * sx + sy * sy;
    if l2 < SPEED_SNAP * SPEED_SNAP {
        (0, 0)
    } else if l2 <= MAX_SPEED * MAX_SPEED {
        (sx, sy)
    } else {
        let d = sqrt_ceil(l2);
        (muldiv(sx, MAX_SPEED as int, d), muldiv(sy, MAX_SPEED as int, d))
    }
}

/// Scaling both components by m/d cannot push the squared length past
/// m*m when the length was at most d.
proof fn lemma_clamp_len(sx: int, sy: int, d: int, m: int)
    requires
        d >= 1,
        m >= 0,
        sx * sx + sy * sy <= d * d,
    ensures
        muldiv(sx, m, d) * muldiv(sx, m, d) + muldiv(sy, m, d) * muldiv(sy, m, d) <= m * m,
{
    lemma_muldiv_abs(sx, m, d);
    lemma_muldiv_abs(sy, m, d);
    let ax = iabs(sx);
    let ay = iabs(sy);
    let px = (ax * m) / d;
    let py = (ay * m) / d;
    assert(ax * m >= 0 && ay * m >= 0) by (nonlinear_arith)
        requires
            ax >= 0,
            ay >= 0,
            m >= 0,
    {};
    vstd::arithmetic::div_mod::lemma_div_pos_is_pos(ax * m, d);
    vstd::arithmetic::div_mod::lemma_div_pos_is_pos(ay * m, d);
    vstd::arithmetic::div_mod::lemma_fundamental_div_mod(ax * m, d);
    vstd::arithmetic::div_mod::lemma_fundamental_div_mod(ay * m, d);
    assert(px * px * (d * d) <= (ax * ax) * (m * m)) by (nonlinear_arith)
        requires
            px >= 0,
            d >= 1,
            ax >= 0,
            m >= 0,
            px * d <= ax * m,
    {};
    assert(py * py * (d * d) <= (ay * ay) * (m * m)) by (nonlinear_arith)
        requires
            py >= 0,
            d >= 1,
            ay >= 0,
            m >= 0,
            py * d <= ay * m,
    {};
    assert(ax * ax == sx * sx && ay * ay == sy * sy) by (nonlinear_arith)
        requires
            ax == iabs(sx),
            ay == iabs(sy),
            ax == if sx >= 0 { sx } else { -sx },
            ay == if sy >= 0 { sy } else { -sy },
    {};
    assert((px * px + py * py) * (d * d) <= (m * m) * (d * d)) by (nonlinear_arith)
        requires
            px * px * (d * d) <= (ax * ax) * (m * m),
            py * py * (d * d) <= (ay * ay) * (m * m),
            ax * ax + ay * ay <= d * d,
            m >= 0,
    {};
    assert(px * px + py * py <= m * m) by (nonlinear_arith)
        requires
            (px * px + py * py) * (d * d) <= (m * m) * (d * d),
            d >= 1,
    {};
    assert(muldiv(sx, m, d) * muldiv(sx, m, d) == px * px
        && muldiv(sy, m, d) * muldiv(sy, m, d) == py * py) by (nonlinear_arith)
        requires
            iabs(muldiv(sx, m, d)) == px,
            iabs(muldiv(sy, m, d)) == py,
            iabs(muldiv(sx, m, d)) == if muldiv(sx, m, d) >= 0 { muldiv(sx, m, d) } else {
                -muldiv(sx, m, d)
            },
            iabs(muldiv(sy, m, d)) == if muldiv(sy, m, d) >= 0 { muldiv(sy, m, d) } else {
                -muldiv(sy, m, d)
            },
    {};
}

/// A drag tick never grows a component, and shrinks every nonzero one.
pub proof fn lemma_drag_step_decreases(x: int, y: int)
    ensures
        iabs(drag_step(x, y).0) <= if iabs(x) == 0 { 0int } else { iabs(x) - 1 },
        iabs(drag_step(x, y).1) <= if iabs(y) == 0 { 0int } else { iabs(y) - 1 },
{
    let sx = drag_scaled(x);
    let sy = drag_scaled(y);
    let l2 = sx * sx + sy * sy;
    lemma_muldiv_shrinks(x, DRAG_NUM as int, DRAG_DEN as int);
    lemma_muldiv_shrinks(y, DRAG_NUM as int, DRAG_DEN as int);
    if l2 < SPEED_SNAP * SPEED_SNAP {
    } else if l2 <= MAX_SPEED * MAX_SPEED {
    } else {
        assert(l2 >= 1) by (nonlinear_arith)
            requires
                l2 == sx * sx + sy * sy,
                l2 > MAX_SPEED * MAX_SPEED,
        {};
        lemma_sqrt_ceil(l2);
        let d = sqrt_ceil(l2);
        assert(d > MAX_SPEED) by (nonlinear_arith)
            requires
                d >= 1,
                l2 <= d * d,
                l2 > MAX_SPEED * MAX_SPEED,
                MAX_SPEED >= 0,
        {};
        lemma_muldiv_shrinks(sx, MAX_SPEED as int, d);
        lemma_muldiv_shrinks(sy, MAX_SPEED as int, d);
    }
}

/// Drag applied n times over, in specification form.
pub open spec fn drag_iter(x: int, y: int, n: nat) -> (int, int)
    decreases n,
{
    if n == 0 {
        (x, y)
    } else {
        let s = drag_step(x, y);
        drag_iter(s.0, s.1, (n - 1) as nat)
    }
}

/// Drag is idempotent toward zero: with no new input, a velocity reaches
/// exactly zero within as many ticks as its largest component's magnitude.
pub proof fn lemma_drag_converges(x: int, y: int, n: nat)
    requires
        n >= iabs(x),
        n >= iabs(y),
    ensures
        drag_iter(x, y, n) == (0int, 0int),
    decreases n,
{
    if x == 0 && y == 0 {
        if n > 0 {
            lemma_drag_step_decreases(0, 0);
            assert(drag_step(0, 0) == (0int, 0int));
            lemma_drag_converges(0, 0, (n - 1) as nat);
        } else {
        }
    } else {
        let s = drag_step(x, y);
        lemma_drag_step_decreases(x, y);
        lemma_drag_converges(s.0, s.1, (n - 1) as nat);
    }
}

/// One drag tick, applied to any velocity: multiply the velocity by
/// DRAG_NUM/DRAG_DEN, snap it to zero when slower than SPEED_SNAP, and
/// cap its speed at MAX_SPEED.
pub fn drag(velocity: &mut Velocity)
    requires
        in_box(old(velocity).0, COORD_LIMIT as int),
    ensures
        (final(velocity).0.x as int, final(velocity).0.y as int) == drag_step(
            old(velocity).0.x as int,
            old(velocity).0.y as int,
        ),
        len_sq(final(velocity).0) <= MAX_SPEED * MAX_SPEED,
        in_box(final(velocity).0, MAX_SPEED as int),
{
    let x = velocity.0.x;
    let y = velocity.0.y;
    proof {
        lemma_muldiv_shrinks(x as int, DRAG_NUM as int, DRAG_DEN as int);
        lemma_muldiv_shrinks(y as int, DRAG_NUM as int, DRAG_DEN as int);
    }
    let sx = muldiv64(x, DRAG_NUM as u64, DRAG_DEN as u64);
    let sy = muldiv64(y, DRAG_NUM as u64, DRAG_DEN as u64);
    let scaled = Vec2 { x: sx, y: sy };
    let l2 = len_sq64(&scaled);
    if l2 < SPEED_SNAP * SPEED_SNAP {
        velocity.0 = Vec2 { x: 0, y: 0 };
    } else if l2 <= MAX_SPEED * MAX_SPEED {
        proof {
            assert(iabs(sx as int) <= MAX_SPEED && iabs(sy as int) <= MAX_SPEED)
                by (nonlinear_arith)
                requires
                    sx * sx + sy * sy <= MAX_SPEED * MAX_SPEED,
                    MAX_SPEED >= 0,
            {};
        }
        velocity.0 = scaled;
    } else {
        proof {
            lemma_sqrt_ceil(l2 as int);
        }
        let d = isqrt_ceil(l2 as u64);
        proof {
            assert((sx as int) * (sx as int) <= (d as int) * (d as int)
                && (sy as int) * (sy as int) <= (d as int) * (d as int)) by (nonlinear_arith)
                requires
                    sx * sx + sy * sy <= d * d,
            {};
            lemma_clamp_len(sx as int, sy as int, d as int, MAX_SPEED as int);
            assert(MAX_SPEED < d) by (nonlinear_arith)
                requires
                    d >= 1,
                    l2 <= d * d,
                    l2 > MAX_SPEED * MAX_SPEED,
                    MAX_SPEED >= 0,
            {};
            lemma_muldiv_shrinks(sx as int, MAX_SPEED as int, d as int);
            lemma_muldiv_shrinks(sy as int, MAX_SPEED as int, d as int);
            assert(iabs(muldiv(sx as int, MAX_SPEED as int, d as int)) <= MAX_SPEED
                && iabs(muldiv(sy as int, MAX_SPEED as int, d as int)) <= MAX_SPEED)
                by (nonlinear_arith)
                requires
                    muldiv(sx as int, MAX_SPEED as int, d as int) * muldiv(
                        sx as int,
                        MAX_SPEED as int,
                        d as int,
                    ) + muldiv(sy as int, MAX_SPEED as int, d as int) * muldiv(
                        sy as int,
                        MAX_SPEED as int,
                        d as int,
                    ) <= MAX_SPEED * MAX_SPEED,
                    MAX_SPEED >= 0,
            {};
        }
        let cx = muldiv64(sx, MAX_SPEED as u64, d);
        let cy = muldiv64(sy, MAX_SPEED as u64, d);
        velocity.0 = Vec2 { x: cx, y: cy };
    }
}

/// Direction contributed by one axis's held keys.
pub open spec fn digital_axis(pos_held: bool, neg_held: bool) -> int {
    (if pos_held { 1int } else { 0int }) - (if neg_held { 1int } else { 0int })
}

/// Velocity gained this tick from held direction keys on the x axis: the
/// held direction, normalized to one unit (707/1000 per axis on a
/// diagonal), times the digital acceleration. Deliberately not scaled by
/// frame time, unlike analog input.
pub open spec fn digital_delta_x(input: InputFrame, discrete: int) -> int {
    let dx = digital_axis(input.right_held, input.left_held);
    let dy = digital_axis(input.up_held, input.down_held);
    if dx != 0 && dy != 0 {
        muldiv(707 * dx, discrete, 1000)
    } else {
        muldiv(1000 * dx, discrete, 1000)
    }
}

/// As digital_delta_x, on the y axis.
pub open spec fn digital_delta_y(input: InputFrame, discrete: int) -> int {
    let dx = digital_axis(input.right_held, input.left_held);
    let dy = digital_axis(input.up_held, input.down_held);
    if dx != 0 && dy != 0 {
        muldiv(707 * dy, discrete, 1000)
    } else {
        muldiv(1000 * dy, discrete, 1000)
    }
}

/// Velocity gained this tick from the analog stick on the x axis:
/// deflection times the analog acceleration, scaled by frame time.
pub open spec fn analog_delta_x(input: InputFrame, analog: int, dt: int) -> int {
    match input.analog {
        Option::Some(s) => muldiv(s.x as int, dt * analog, 1_000_000),
        Option::None => 0,
    }
}

/// As analog_delta_x, on the y axis.
pub open spec fn analog_delta_y(input: InputFrame, analog: int, dt: int) -> int {
    match input.analog {
        Option::Some(s) => muldiv(s.y as int, dt * analog, 1_000_000),
        Option::None => 0,
    }
}

/// The head's x velocity after one tick's input.
pub open spec fn vel_after_input_x(v: Vec2, input: InputFrame, speed: SnakeSpeed, dt: int) -> int {
    v.x + analog_delta_x(input, speed.analog as int, dt) + digital_delta_x(
        input,
        speed.discrete as int,
    )
}

/// The head's y velocity after one tick's input.
pub open spec fn vel_after_input_y(v: Vec2, input: InputFrame, speed: SnakeSpeed, dt: int) -> int {
    v.y + analog_delta_y(input, speed.analog as int, dt) + digital_delta_y(
        input,
        speed.discrete as int,
    )
}

/// Half-extent of the positions the head's center may occupy on the x axis.
pub open spec fn field_bound_x(field: GameFieldSize) -> int {
    field.x / 2 - SNAKE_HEAD_RADIUS
}

/// Half-extent of the positions the head's center may occupy on the y axis.
pub open spec fn field_bound_y(field: GameFieldSize) -> int {
    field.y / 2 - SNAKE_HEAD_RADIUS
}

/// Clamp into [lo, hi].
pub open spec fn clamped(v: int, lo: int, hi: int) -> int {
    if v < lo {
        lo
    } else if v > hi {
        hi
    } else {
        v
    }
}

/// Where the velocity carries the head before containment, on the x axis.
pub open spec fn integrated_x(pos: Vec2, vx: int, dt: int) -> int {
    pos.x + muldiv(vx, dt, 1000)
}

/// Where the velocity carries the head before containment, on the y axis.
pub open spec fn integrated_y(pos: Vec2, vy: int, dt: int) -> int {
    pos.y + muldiv(vy, dt, 1000)
}

/// Whether an unclamped position lies outside the head's reachable box.
pub open spec fn exits_field(px: int, py: int, field: GameFieldSize) -> bool {
    ||| px > field_bound_x(field)
    ||| px < -field_bound_x(field)
    ||| py > field_bound_y(field)
    ||| py < -field_bound_y(field)
}

/// One tick of head control: add analog and digital acceleration to the
/// velocity, toggle the debug overlay and request a pause on their edges,
/// integrate the position, and contain it in the field. Exactly one
/// game-over event is emitted when the unclamped position would leave the
/// field, however far out it lies; the clamp still applies afterwards.
pub fn player_input(
    head_pos: &mut Vec2,
    head_vel: &mut Velocity,
    snake_speed: &SnakeSpeed,
    input: &InputFrame,
    dt_ms: i64,
    field: &GameFieldSize,
    debug_settings: &mut DebugSettings,
    events: &mut Events,
)
    requires
        0 <= dt_ms <= DT_MAX,
        input.wf(),
        field.wf(),
        snake_speed.wf(),
        in_box(*old(head_pos), COORD_LIMIT as int),
        in_box(old(head_vel).0, VEL_LIMIT as int),
        old(events).wf(),
    ensures
        ({
            let vx = vel_after_input_x(old(head_vel).0, *input, *snake_speed, dt_ms as int);
            let vy = vel_after_input_y(old(head_vel).0, *input, *snake_speed, dt_ms as int);
            let px = integrated_x(*old(head_pos), vx, dt_ms as int);
            let py = integrated_y(*old(head_pos), vy, dt_ms as int);
            &&& final(head_vel).0.x == vx
            &&& final(head_vel).0.y == vy
            &&& final(head_pos).x == clamped(px, -field_bound_x(*field), field_bound_x(*field))
            &&& final(head_pos).y == clamped(py, -field_bound_y(*field), field_bound_y(*field))
            &&& final(events).game_over == old(events).game_over + (if exits_field(px, py, *field) {
                1int
            } else {
                0int
            })
            &&& !exits_field(px, py, *field) ==> (final(head_pos).x == px && final(head_pos).y
                == py)
        }),
        final(events).pause == old(events).pause + (if input.pause_pressed {
            1int
        } else {
            0int
        }),
        final(events).restart == old(events).restart,
        final(events).quit == old(events).quit,
        final(events).upgrade_menu_clicked == old(events).upgrade_menu_clicked,
        final(events).highlighted == old(events).highlighted,
        final(events).upgrade_icon_clicked == old(events).upgrade_icon_clicked,
        final(debug_settings).output_shown == (if input.toggle_debug_pressed {
            !old(debug_settings).output_shown
        } else {
            old(debug_settings).output_shown
        }),
        -field_bound_x(*field) <= final(head_pos).x <= field_bound_x(*field),
        -field_bound_y(*field) <= final(head_pos).y <= field_bound_y(*field),
        in_box(final(head_vel).0, 3 * VEL_LIMIT as int),
{
    let mut vx = head_vel.0.x;
    let mut vy = head_vel.0.y;
    // Analog stick: acceleration scaled by frame time.
    match &input.analog {
        Option::Some(s) => {
            proof {
                assert(dt_ms * snake_speed.analog <= 100_000_000_000) by (nonlinear_arith)
                    requires
                        0 <= dt_ms <= 1000,
                        0 <= snake_speed.analog <= 100_000_000,
                {};
                lemma_muldiv_upper(s.x as int, dt_ms * snake_speed.analog, 1_000_000, 1000);
                lemma_muldiv_upper(s.y as int, dt_ms * snake_speed.analog, 1_000_000, 1000);
                assert(1000 * (dt_ms * snake_speed.analog) <= 100_000_000_000_000)
                    by (nonlinear_arith)
                    requires
                        0 <= dt_ms * snake_speed.analog <= 100_000_000_000,
                {};
                vstd::arithmetic::div_mod::lemma_div_is_ordered(
                    1000 * (dt_ms * snake_speed.analog),
                    100_000_000_000_000,
                    1_000_000,
                );
            }
            let num: u64 = (dt_ms as u64) * (snake_speed.analog as u64);
            let ax = muldiv64(s.x, num, 1_000_000);
            let ay = muldiv64(s.y, num, 1_000_000);
            vx = vx + ax;
            vy = vy + ay;
        },
        Option::None => {},
    }
    // Debug overlay toggle.
    if input.toggle_debug_pressed {
        debug_settings.output_shown = !debug_settings.output_shown;
    }
    // Held direction keys: unscaled acceleration along the normalized
    // held direction.
    let dx0: i64 = (if input.right_held {
        1
    } else {
        0
    }) - (if input.left_held {
        1
    } else {
        0
    });
    let dy0: i64 = (if input.up_held {
        1
    } else {
        0
    }) - (if input.down_held {
        1
    } else {
        0
    });
    let c: i64 = if dx0 != 0 && dy0 != 0 {
        707
    } else {
        1000
    };
    let cdx: i64 = if dx0 == 0 {
        0
    } else if dx0 == 1 {
        c
    } else {
        -c
    };
    let cdy: i64 = if dy0 == 0 {
        0
    } else if dy0 == 1 {
        c
    } else {
        -c
    };
    proof {
        assert(cdx == c * dx0 && cdy == c * dy0);
        lemma_muldiv_upper(cdx as int, snake_speed.discrete as int, 1000, 1000);
        lemma_muldiv_upper(cdy as int, snake_speed.discrete as int, 1000, 1000);
        vstd::arithmetic::div_mod::lemma_div_multiples_vanish(snake_speed.discrete as int, 1000);
    }
    let ddx = muldiv64(cdx, snake_speed.discrete as u64, 1000);
    let ddy = muldiv64(cdy, snake_speed.discrete as u64, 1000);
    vx = vx + ddx;
    vy = vy + ddy;
    head_vel.0 = Vec2 { x: vx, y: vy };
    // Pause request.
    if input.pause_pressed {
        events.pause = events.pause + 1;
    }
    // Integrate the position with the just-updated velocity.
    proof {
        lemma_muldiv_upper(vx as int, dt_ms as int, 1000, 300_000_000);
        lemma_muldiv_upper(vy as int, dt_ms as int, 1000, 300_000_000);
        vstd::arithmetic::div_mod::lemma_div_is_ordered(
            300_000_000 * dt_ms,
            300_000_000_000,
            1000,
        );
    }
    let delx = muldiv64(vx, dt_ms as u64, 1000);
    let dely = muldiv64(vy, dt_ms as u64, 1000);
    let px1 = head_pos.x + delx;
    let py1 = head_pos.y + dely;
    // Containment bounds.
    let half_x: i64 = ((field.x as u64) / 2) as i64;
    let half_y: i64 = ((field.y as u64) / 2) as i64;
    proof {
        vstd::arithmetic::div_mod::lemma_div_is_ordered(256_002int, field.x as int, 2);
        vstd::arithmetic::div_mod::lemma_div_is_ordered(256_002int, field.y as int, 2);
    }
    let bx = half_x - SNAKE_HEAD_RADIUS;
    let by = half_y - SNAKE_HEAD_RADIUS;
    // Boundary exit emits exactly one game-over event.
    if px1 > bx || px1 < -bx || py1 > by || py1 < -by {
        events.game_over = events.game_over + 1;
    }
    head_pos.x = clamp64(px1, -bx, bx);
    head_pos.y = clamp64(py1, -by, by);
}

} // verus!
