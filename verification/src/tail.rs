//! The tail chain: an ordered sequence of trailing nodes. The node at
//! index 0 chases the head; every later node chases its predecessor.
//! Nodes are appended on food consumption and removed in bulk by restart
//! or the split effect, which keeps the older half nearest the head.

use vstd::prelude::*;
use crate::constants::{
    COORD_LIMIT, DT_MAX, SNAKE_HEAD_RADIUS, TAIL_CATCHUP_SPEED, TAIL_LIMIT, TAIL_NODE_GAP,
    TAIL_SPAWN_BOX,
};
use crate::events::Events;
use crate::isqrt::{isqrt, sqrt_floor};
use crate::rng::random_gap_offset;
use crate::vec2::{
    abs64, dist_sq, dist_sq64, iabs, in_box, len_sq, len_sq64, lemma_muldiv_abs,
    lemma_muldiv_shrinks, lemma_muldiv_upper, muldiv, muldiv64, Vec2,
};

verus! {

/// One trailing segment: its position, whether self-collision ignores
/// it (true for the very first node, spawned on top of the head), and
/// the tail length at the moment it was created.
#[derive(Clone, Copy, PartialEq, Eq, Structural, Debug)]
pub struct SnakeTailNode {
    pub pos: Vec2,
    pub ignore_collision: bool,
    pub creation_index: usize,
}

/// Every node's position stays within the core's coordinate box.
pub open spec fn tail_wf(tail: Seq<SnakeTailNode>) -> bool {
    forall|i: int| 0 <= i < tail.len() ==> in_box(#[trigger] tail[i].pos, COORD_LIMIT as int)
}

/// A node's position as a pair of mathematical integers.
pub open spec fn node_pos(n: SnakeTailNode) -> (int, int) {
    (n.pos.x as int, n.pos.y as int)
}

/// One node's chase move: when its leader is at least the trailing gap
/// away, step toward it by the bearing scaled with frame time and the
/// catch-up factor; otherwise stay.
pub open spec fn chase_one(n: (int, int), t: (int, int), dt: int) -> (int, int) {
    let d2 = (n.0 - t.0) * (n.0 - t.0) + (n.1 - t.1) * (n.1 - t.1);
    if d2 >= TAIL_NODE_GAP * TAIL_NODE_GAP {
        (
            n.0 + muldiv(t.0 - n.0, dt * TAIL_CATCHUP_SPEED, 1000),
            n.1 + muldiv(t.1 - n.1, dt * TAIL_CATCHUP_SPEED, 1000),
        )
    } else {
        n
    }
}

/// Position of node i after this tick's chase, each node following the
/// just-moved position of its predecessor and node 0 following the head.
pub open spec fn chased_pos(
    tail: Seq<SnakeTailNode>,
    head: (int, int),
    dt: int,
    i: int,
) -> (int, int)
    decreases i,
{
    if i <= 0 {
        chase_one(node_pos(tail[0]), head, dt)
    } else {
        chase_one(node_pos(tail[i]), chased_pos(tail, head, dt, i - 1), dt)
    }
}

/// A chase step lands between the node and its leader on each axis.
pub proof fn lemma_step_between(n: int, t: int, num: int, den: int)
    requires
        0 <= num < den,
    ensures
        t >= n ==> n <= n + muldiv(t - n, num, den) <= t,
        t < n ==> t <= n + muldiv(t - n, num, den) <= n,
{
    lemma_muldiv_abs(t - n, num, den);
    lemma_muldiv_shrinks(t - n, num, den);
}

/// Move every tail node toward its leader. The chase reads each leader's
/// position after the leader itself has moved this tick.
pub fn move_tail(tail: &mut Vec<SnakeTailNode>, head_pos: &Vec2, dt_ms: i64)
    requires
        0 <= dt_ms <= DT_MAX,
        tail_wf(old(tail)@),
        in_box(*head_pos, COORD_LIMIT as int),
    ensures
        final(tail)@.len() == old(tail)@.len(),
        forall|i: int|
            0 <= i < old(tail)@.len() ==> {
                &&& node_pos(#[trigger] final(tail)@[i]) == chased_pos(
                    old(tail)@,
                    (head_pos.x as int, head_pos.y as int),
                    dt_ms as int,
                    i,
                )
                &&& final(tail)@[i].ignore_collision == old(tail)@[i].ignore_collision
                &&& final(tail)@[i].creation_index == old(tail)@[i].creation_index
            },
        tail_wf(final(tail)@),
{
    let ghost orig = tail@;
    let ghost headv = (head_pos.x as int, head_pos.y as int);
    let mut target: Vec2 = *head_pos;
    let mut i: usize = 0;
    while i < tail.len()
        invariant
            0 <= i <= orig.len(),
            tail@.len() == orig.len(),
            0 <= dt_ms <= DT_MAX,
            in_box(*head_pos, COORD_LIMIT as int),
            headv == (head_pos.x as int, head_pos.y as int),
            tail_wf(orig),
            forall|j: int| i <= j < orig.len() ==> tail@[j] == orig[j],
            forall|j: int|
                0 <= j < i ==> {
                    &&& node_pos(#[trigger] tail@[j]) == chased_pos(orig, headv, dt_ms as int, j)
                    &&& tail@[j].ignore_collision == orig[j].ignore_collision
                    &&& tail@[j].creation_index == orig[j].creation_index
                    &&& in_box(tail@[j].pos, COORD_LIMIT as int)
                },
            (target.x as int, target.y as int) == if i == 0 {
                headv
            } else {
                chased_pos(orig, headv, dt_ms as int, i - 1)
            },
            in_box(target, COORD_LIMIT as int),
        decreases tail@.len() - i,
    {
        proof {
            assert(tail@[i as int] == orig[i as int]);
            assert(in_box(orig[i as int].pos, COORD_LIMIT as int));
        }
        let node = tail[i];
        let d2 = dist_sq64(&node.pos, &target);
        if d2 >= TAIL_NODE_GAP * TAIL_NODE_GAP {
            let bx = target.x - node.pos.x;
            let by = target.y - node.pos.y;
            proof {
                lemma_muldiv_upper(bx as int, dt_ms * TAIL_CATCHUP_SPEED, 1000, 2_000_000_000);
                lemma_muldiv_upper(by as int, dt_ms * TAIL_CATCHUP_SPEED, 1000, 2_000_000_000);
                vstd::arithmetic::div_mod::lemma_div_is_ordered(
                    2_000_000_000 * (dt_ms * TAIL_CATCHUP_SPEED),
                    1_400_000_000_000,
                    1000,
                );
                lemma_step_between(
                    node.pos.x as int,
                    target.x as int,
                    dt_ms * TAIL_CATCHUP_SPEED,
                    1000,
                );
                lemma_step_between(
                    node.pos.y as int,
                    target.y as int,
                    dt_ms * TAIL_CATCHUP_SPEED,
                    1000,
                );
            }
            let mvx = muldiv64(bx, (dt_ms as u64) * (TAIL_CATCHUP_SPEED as u64), 1000);
            let mvy = muldiv64(by, (dt_ms as u64) * (TAIL_CATCHUP_SPEED as u64), 1000);
            let np = Vec2 { x: node.pos.x + mvx, y: node.pos.y + mvy };
            tail[i] = SnakeTailNode {
                pos: np,
                ignore_collision: node.ignore_collision,
                creation_index: node.creation_index,
            };
            target = np;
        } else {
            target = node.pos;
        }
        i = i + 1;
    }
}

/// True from the tail length at which self-collision is checked.
pub fn snake_is_big_enough(tail: &Vec<SnakeTailNode>) -> (r: bool)
    ensures
        r == (tail@.len() >= 4),
{
    tail.len() >= 4
}

/// Whether this node collides with the head.
pub open spec fn node_collides(n: SnakeTailNode, head: Vec2) -> bool {
    &&& !n.ignore_collision
    &&& dist_sq(n.pos, head) < (2 * SNAKE_HEAD_RADIUS) * (2 * SNAKE_HEAD_RADIUS)
}

/// How many of the first i nodes collide with the head.
pub open spec fn colliding_count(tail: Seq<SnakeTailNode>, head: Vec2, i: int) -> int
    decreases i,
{
    if i <= 0 {
        0
    } else {
        colliding_count(tail, head, i - 1) + if node_collides(tail[i - 1], head) {
            1int
        } else {
            0int
        }
    }
}

/// Emit one game-over event for every collidable tail node within two
/// head radii of the head.
pub fn collide_with_self(head_pos: &Vec2, tail: &Vec<SnakeTailNode>, events: &mut Events)
    requires
        in_box(*head_pos, COORD_LIMIT as int),
        tail_wf(tail@),
        tail@.len() <= TAIL_LIMIT,
        old(events).wf(),
    ensures
        final(events).game_over == old(events).game_over + colliding_count(
            tail@,
            *head_pos,
            tail@.len() as int,
        ),
        *final(events) == (Events { game_over: final(events).game_over, ..*old(events) }),
        0 <= colliding_count(tail@, *head_pos, tail@.len() as int) <= tail@.len(),
{
    proof {
        lemma_colliding_count_bounds(tail@, *head_pos, tail@.len() as int);
    }
    let mut i: usize = 0;
    while i < tail.len()
        invariant
            0 <= i <= tail@.len(),
            tail@.len() <= TAIL_LIMIT,
            in_box(*head_pos, COORD_LIMIT as int),
            tail_wf(tail@),
            old(events).wf(),
            events.game_over == old(events).game_over + colliding_count(
                tail@,
                *head_pos,
                i as int,
            ),
            0 <= colliding_count(tail@, *head_pos, i as int) <= i,
            *events == (Events { game_over: events.game_over, ..*old(events) }),
        decreases tail@.len() - i,
    {
        let node = tail[i];
        if !node.ignore_collision {
            let d2 = dist_sq64(&node.pos, head_pos);
            if d2 < (2 * SNAKE_HEAD_RADIUS) * (2 * SNAKE_HEAD_RADIUS) {
                events.game_over = events.game_over + 1;
            }
        }
        i = i + 1;
    }
}

/// The colliding count grows by at most one per node.
proof fn lemma_colliding_count_bounds(tail: Seq<SnakeTailNode>, head: Vec2, i: int)
    requires
        i >= 0,
    ensures
        0 <= colliding_count(tail, head, i) <= i,
    decreases i,
{
    if i > 0 {
        lemma_colliding_count_bounds(tail, head, i - 1);
    }
}

/// Number of nodes the split effect keeps: the older half, rounded up,
/// so exactly the newer half is destroyed. Of six nodes three remain,
/// of two nodes one; an empty tail stays empty.
pub open spec fn split_keep_len(n: int) -> int {
    (n + 1) / 2
}

/// The split effect: destroy the newer half of the tail, keeping the
/// older half nearest the head. Safe on an empty tail.
pub fn split_snake(tail: &mut Vec<SnakeTailNode>)
    ensures
        final(tail)@ =~= old(tail)@.take(split_keep_len(old(tail)@.len() as int)),
        final(tail)@.len() == split_keep_len(old(tail)@.len() as int),
{
    let n = tail.len();
    let keep = n - n / 2;
    proof {
        vstd::arithmetic::div_mod::lemma_fundamental_div_mod(n as int, 2);
        vstd::arithmetic::div_mod::lemma_fundamental_div_mod(n as int + 1, 2);
        assert((n as int) - (n as int) / 2 == ((n as int) + 1) / 2) by (nonlinear_arith)
            requires
                n as int == 2 * ((n as int) / 2) + (n as int) % 2,
                (n as int) + 1 == 2 * (((n as int) + 1) / 2) + ((n as int) + 1) % 2,
                0 <= (n as int) % 2 < 2,
                0 <= ((n as int) + 1) % 2 < 2,
        {};
    }
    tail.truncate(keep);
}

/// The split effect under its catalog name.
pub fn halve_snake_length(tail: &mut Vec<SnakeTailNode>)
    ensures
        final(tail)@ =~= old(tail)@.take(split_keep_len(old(tail)@.len() as int)),
        final(tail)@.len() == split_keep_len(old(tail)@.len() as int),
{
    split_snake(tail);
}

/// Where tail growth anchors: the newest node, or the head when the
/// tail is empty.
pub open spec fn growth_anchor(tail: Seq<SnakeTailNode>, head: Vec2) -> (int, int) {
    if tail.len() >= 1 {
        node_pos(tail[tail.len() - 1])
    } else {
        (head.x as int, head.y as int)
    }
}

/// The curvature direction: from the second-newest node to the newest.
pub open spec fn curvature_dir(tail: Seq<SnakeTailNode>) -> (int, int) {
    (
        tail[tail.len() - 1].pos.x - tail[tail.len() - 2].pos.x,
        tail[tail.len() - 1].pos.y - tail[tail.len() - 2].pos.y,
    )
}

/// A vector of (approximately) the given length along the direction of
/// v: v is first blown up to a length of at least 2^28 exactly along its
/// direction, then each component is scaled by m over the integer square
/// root of the squared length.
pub open spec fn scaled_to(x: int, y: int, m: int) -> (int, int) {
    let mx = if iabs(x) >= iabs(y) {
        iabs(x)
    } else {
        iabs(y)
    };
    let s = if mx >= 536_870_912 {
        1int
    } else {
        536_870_912int / mx
    };
    let sx = x * s;
    let sy = y * s;
    let len = sqrt_floor(sx * sx + sy * sy);
    (muldiv(sx, m, len), muldiv(sy, m, len))
}

/// The scaled offset's length is m to within rounding: its squared
/// length lies between (m - 3)^2 and m^2 + 19. In particular a tail
/// node grown along the curvature sits the trailing gap away from its
/// anchor, up to three milli-units.
pub proof fn lemma_scaled_to_length(x: int, y: int, m: int)
    requires
        !(x == 0 && y == 0),
        -2_000_000_000 <= x <= 2_000_000_000,
        -2_000_000_000 <= y <= 2_000_000_000,
        5 <= m <= 50_000,
    ensures
        ({
            let r = scaled_to(x, y, m);
            (m - 3) * (m - 3) <= r.0 * r.0 + r.1 * r.1 <= m * m + 19
        }),
{
    let mx = if iabs(x) >= iabs(y) {
        iabs(x)
    } else {
        iabs(y)
    };
    let s = if mx >= 536_870_912 {
        1int
    } else {
        536_870_912int / mx
    };
    let sx = x * s;
    let sy = y * s;
    // The blown-up vector's larger component is at least 2^28.
    if mx >= 536_870_912 {
        assert(iabs(sx) == iabs(x) && iabs(sy) == iabs(y)) by (nonlinear_arith)
            requires
                sx == x * 1,
                sy == y * 1,
        {};
    } else {
        vstd::arithmetic::div_mod::lemma_fundamental_div_mod(536_870_912, mx);
        assert(mx >= 1);
        assert(mx * s > 536_870_912 - mx) by (nonlinear_arith)
            requires
                mx >= 1,
                536_870_912 == mx * s + 536_870_912int % mx,
                0 <= 536_870_912int % mx < mx,
        {};
        assert(s >= 1) by (nonlinear_arith)
            requires
                mx * s > 536_870_912 - mx,
                mx < 536_870_912,
                s >= 0,
        {};
        assert(mx * s >= 268_435_456) by (nonlinear_arith)
            requires
                mx * s > 536_870_912 - mx,
                s >= 1,
                mx >= 1,
                mx < 536_870_912,
        {};
        assert(iabs(sx) == iabs(x) * s && iabs(sy) == iabs(y) * s) by (nonlinear_arith)
            requires
                s >= 0,
                sx == x * s,
                sy == y * s,
        {};
        assert(iabs(sx) <= mx * s && iabs(sy) <= mx * s) by (nonlinear_arith)
            requires
                iabs(sx) == iabs(x) * s,
                iabs(sy) == iabs(y) * s,
                iabs(x) <= mx,
                iabs(y) <= mx,
                s >= 0,
        {};
    }
    let maxc = if iabs(sx) >= iabs(sy) {
        iabs(sx)
    } else {
        iabs(sy)
    };
    assert(maxc >= 268_435_456);
    assert(maxc <= 2_000_000_000) by (nonlinear_arith)
        requires
            maxc == if iabs(sx) >= iabs(sy) { iabs(sx) } else { iabs(sy) },
            mx >= 536_870_912 ==> iabs(sx) == iabs(x) && iabs(sy) == iabs(y),
            mx < 536_870_912 ==> iabs(sx) <= mx * s && iabs(sy) <= mx * s && mx * s
                <= 536_870_912,
            -2_000_000_000 <= x <= 2_000_000_000,
            -2_000_000_000 <= y <= 2_000_000_000,
            iabs(x) == if x >= 0 { x } else { -x },
            iabs(y) == if y >= 0 { y } else { -y },
    {};
    let l2 = sx * sx + sy * sy;
    assert(maxc * maxc <= l2 && l2 <= 2 * (maxc * maxc) && sx * sx == iabs(sx) * iabs(sx)
        && sy * sy == iabs(sy) * iabs(sy)) by (nonlinear_arith)
        requires
            l2 == sx * sx + sy * sy,
            maxc == if iabs(sx) >= iabs(sy) { iabs(sx) } else { iabs(sy) },
            iabs(sx) == if sx >= 0 { sx } else { -sx },
            iabs(sy) == if sy >= 0 { sy } else { -sy },
    {};
    crate::isqrt::lemma_sqrt_floor(l2);
    let len = sqrt_floor(l2);
    assert(maxc <= len) by (nonlinear_arith)
        requires
            maxc * maxc <= l2,
            l2 < (len + 1) * (len + 1),
            maxc >= 0,
            len >= 0,
    {};
    assert(iabs(sx) <= len && iabs(sy) <= len) by (nonlinear_arith)
        requires
            sx * sx <= l2,
            sy * sy <= l2,
            sx * sx == iabs(sx) * iabs(sx),
            sy * sy == iabs(sy) * iabs(sy),
            l2 < (len + 1) * (len + 1),
            len >= 0,
    {};
    lemma_muldiv_abs(sx, m, len);
    lemma_muldiv_abs(sy, m, len);
    let ax = iabs(sx);
    let ay = iabs(sy);
    let qx = (ax * m) / len;
    let qy = (ay * m) / len;
    assert(ax * m >= 0 && ay * m >= 0) by (nonlinear_arith)
        requires
            ax >= 0,
            ay >= 0,
            m >= 0,
    {};
    vstd::arithmetic::div_mod::lemma_div_pos_is_pos(ax * m, len);
    vstd::arithmetic::div_mod::lemma_div_pos_is_pos(ay * m, len);
    vstd::arithmetic::div_mod::lemma_fundamental_div_mod(ax * m, len);
    vstd::arithmetic::div_mod::lemma_fundamental_div_mod(ay * m, len);
    // qx, qy never exceed m.
    assert(qx <= m && qy <= m) by (nonlinear_arith)
        requires
            qx * len <= ax * m,
            qy * len <= ay * m,
            ax <= len,
            ay <= len,
            qx >= 0,
            qy >= 0,
            m >= 0,
            len >= 1,
    {};
    // Upper bound: the scaled components cannot overshoot m^2 + 19.
    assert(qx * qx * (len * len) <= (ax * ax) * (m * m) && qy * qy * (len * len) <= (ay * ay) * (m
        * m)) by (nonlinear_arith)
        requires
            qx >= 0,
            qy >= 0,
            len >= 1,
            ax >= 0,
            ay >= 0,
            m >= 0,
            qx * len <= ax * m,
            qy * len <= ay * m,
    {};
    assert((qx * qx + qy * qy) * (len * len) < ((len + 1) * (len + 1)) * (m * m))
        by (nonlinear_arith)
        requires
            qx * qx * (len * len) <= (ax * ax) * (m * m),
            qy * qy * (len * len) <= (ay * ay) * (m * m),
            ax * ax + ay * ay == l2,
            sx * sx == ax * ax,
            sy * sy == ay * ay,
            l2 == sx * sx + sy * sy,
            l2 < (len + 1) * (len + 1),
            m >= 1,
    {};
    assert(qx * qx + qy * qy <= m * m + 19) by (nonlinear_arith)
        requires
            (qx * qx + qy * qy) * (len * len) < ((len + 1) * (len + 1)) * (m * m),
            len >= 268_435_456,
            1 <= m <= 50_000,
            qx >= 0,
            qy >= 0,
    {};
    // Lower bound: the truncation loses less than one per component.
    assert((qx + 1) * len > ax * m && (qy + 1) * len > ay * m) by (nonlinear_arith)
        requires
            ax * m == len * qx + (ax * m) % len,
            ay * m == len * qy + (ay * m) % len,
            0 <= (ax * m) % len < len,
            0 <= (ay * m) % len < len,
    {};
    assert(((qx + 1) * (qx + 1)) * (len * len) > (ax * ax) * (m * m) && ((qy + 1) * (qy + 1)) * (
    len * len) > (ay * ay) * (m * m)) by (nonlinear_arith)
        requires
            (qx + 1) * len > ax * m,
            (qy + 1) * len > ay * m,
            ax * m >= 0,
            ay * m >= 0,
            qx >= 0,
            qy >= 0,
            len >= 1,
    {};
    assert((qx + 1) * (qx + 1) + (qy + 1) * (qy + 1) > m * m) by (nonlinear_arith)
        requires
            ((qx + 1) * (qx + 1)) * (len * len) > (ax * ax) * (m * m),
            ((qy + 1) * (qy + 1)) * (len * len) > (ay * ay) * (m * m),
            ax * ax + ay * ay == l2,
            len * len <= l2,
            len >= 1,
            m >= 0,
    {};
    assert(qx * qx + qy * qy >= (m - 3) * (m - 3)) by (nonlinear_arith)
        requires
            (qx + 1) * (qx + 1) + (qy + 1) * (qy + 1) > m * m,
            0 <= qx <= m,
            0 <= qy <= m,
            m >= 5,
    {};
    // The offset components are exactly the signed qx, qy.
    let r = scaled_to(x, y, m);
    assert(r.0 * r.0 == qx * qx && r.1 * r.1 == qy * qy) by (nonlinear_arith)
        requires
            iabs(r.0) == qx,
            iabs(r.1) == qy,
            iabs(r.0) == if r.0 >= 0 { r.0 } else { -r.0 },
            iabs(r.1) == if r.1 >= 0 { r.1 } else { -r.1 },
    {};
}

/// Scale a nonzero vector to (approximately) length m along its exact
/// direction.
pub fn scale_to_len(v: &Vec2, m: i64) -> (r: Vec2)
    requires
        0 < m <= 1_000_000,
        in_box(*v, 2_000_000_000),
        v.x != 0 || v.y != 0,
    ensures
        (r.x as int, r.y as int) == scaled_to(v.x as int, v.y as int, m as int),
        in_box(r, m as int),
{
    let ax = abs64(v.x);
    let ay = abs64(v.y);
    let mx: u64 = if ax >= ay {
        ax
    } else {
        ay
    };
    let (sx, sy): (i64, i64) = if mx >= 536_870_912 {
        (v.x, v.y)
    } else {
        let s = 536_870_912u64 / mx;
        proof {
            vstd::arithmetic::div_mod::lemma_fundamental_div_mod(536_870_912, mx as int);
            assert(iabs(v.x as int) * (s as int) <= 536_870_912
                && iabs(v.y as int) * (s as int) <= 536_870_912) by (nonlinear_arith)
                requires
                    iabs(v.x as int) <= mx,
                    iabs(v.y as int) <= mx,
                    0 <= s,
                    (mx as int) * (s as int) <= 536_870_912,
                    mx >= 1,
            {};
            assert(iabs(v.x as int) * (s as int) == iabs((v.x as int) * (s as int))
                && iabs(v.y as int) * (s as int) == iabs((v.y as int) * (s as int)))
                by (nonlinear_arith)
                requires
                    s >= 0,
            {};
        }
        (v.x * (s as i64), v.y * (s as i64))
    };
    let big = Vec2 { x: sx, y: sy };
    proof {
        assert(in_box(big, 2_000_000_000));
    }
    let l2 = len_sq64(&big);
    proof {
        assert(l2 >= 1) by (nonlinear_arith)
            requires
                l2 == (sx as int) * (sx as int) + (sy as int) * (sy as int),
                sx != 0 || sy != 0,
        {};
    }
    let len = isqrt(l2 as u64);
    proof {
        assert(len >= 1) by (nonlinear_arith)
            requires
                l2 >= 1,
                l2 < ((len as int) + 1) * ((len as int) + 1),
                len >= 0,
        {};
        assert(iabs(sx as int) <= len && iabs(sy as int) <= len) by (nonlinear_arith)
            requires
                (sx as int) * (sx as int) + (sy as int) * (sy as int) < ((len as int) + 1) * ((
                len as int) + 1),
                len >= 0,
        {};
        lemma_muldiv_upper(sx as int, m as int, len as int, len as int);
        lemma_muldiv_upper(sy as int, m as int, len as int, len as int);
        vstd::arithmetic::div_mod::lemma_div_multiples_vanish(m as int, len as int);
        assert((len as int) * (m as int) == (m as int) * (len as int)) by (nonlinear_arith) {};
        assert(iabs(sx as int) * (m as int) <= i64::MAX && iabs(sy as int) * (m as int)
            <= i64::MAX) by (nonlinear_arith)
            requires
                iabs(sx as int) <= 2_000_000_000,
                iabs(sy as int) <= 2_000_000_000,
                0 < m <= 1_000_000,
        {};
    }
    let rx = muldiv64(sx, m as u64, len);
    let ry = muldiv64(sy, m as u64, len);
    Vec2 { x: rx, y: ry }
}

/// The growth rule, relating a tail before food consumption to the tail
/// after it: one node appended at the anchor plus an offset of the
/// trailing gap's length, continuing the curvature when at least two
/// nodes already exist, in a random direction otherwise. Growth is
/// skipped only at the machine limits on tail length and coordinates.
pub open spec fn grown_ok(
    old_tail: Seq<SnakeTailNode>,
    new_tail: Seq<SnakeTailNode>,
    head: Vec2,
) -> bool {
    let n = old_tail.len() as int;
    let anchor = growth_anchor(old_tail, head);
    let can = n < TAIL_LIMIT && -TAIL_SPAWN_BOX <= anchor.0 <= TAIL_SPAWN_BOX && -TAIL_SPAWN_BOX
        <= anchor.1 <= TAIL_SPAWN_BOX;
    if can {
        let new = new_tail[n];
        &&& new_tail.len() == n + 1
        &&& forall|i: int| 0 <= i < n ==> new_tail[i] == old_tail[i]
        &&& new.ignore_collision == (n < 1)
        &&& new.creation_index == n
        &&& {
            let dir = curvature_dir(old_tail);
            if n >= 2 && !(dir.0 == 0 && dir.1 == 0) {
                let off = scaled_to(dir.0, dir.1, TAIL_NODE_GAP as int);
                node_pos(new) == (anchor.0 + off.0, anchor.1 + off.1)
            } else {
                (new.pos.x - anchor.0) * (new.pos.x - anchor.0) + (new.pos.y - anchor.1) * (
                new.pos.y - anchor.1) == TAIL_NODE_GAP * TAIL_NODE_GAP
            }
        }
    } else {
        new_tail == old_tail
    }
}

/// Append one node on food consumption. With two or more nodes the new
/// node continues the existing curvature; otherwise its direction is
/// drawn at random with exactly the trailing gap as its length. The
/// very first node is marked to ignore self-collision.
pub fn grow_tail(tail: &mut Vec<SnakeTailNode>, head_pos: &Vec2)
    requires
        tail_wf(old(tail)@),
        in_box(*head_pos, COORD_LIMIT as int),
    ensures
        grown_ok(old(tail)@, final(tail)@, *head_pos),
        tail_wf(final(tail)@),
{
    let n = tail.len();
    let anchor: Vec2 = if n >= 1 {
        tail[n - 1].pos
    } else {
        *head_pos
    };
    if !(n < TAIL_LIMIT && -TAIL_SPAWN_BOX <= anchor.x && anchor.x <= TAIL_SPAWN_BOX
        && -TAIL_SPAWN_BOX <= anchor.y && anchor.y <= TAIL_SPAWN_BOX) {
        return ;
    }
    let offset: Vec2 = if n >= 2 {
        proof {
            assert(in_box(tail@[n as int - 1].pos, COORD_LIMIT as int));
            assert(in_box(tail@[n as int - 2].pos, COORD_LIMIT as int));
        }
        let newest = tail[n - 1].pos;
        let older = tail[n - 2].pos;
        let dir = Vec2 { x: newest.x - older.x, y: newest.y - older.y };
        if dir.x != 0 || dir.y != 0 {
            scale_to_len(&dir, TAIL_NODE_GAP)
        } else {
            random_gap_offset()
        }
    } else {
        random_gap_offset()
    };
    let node = SnakeTailNode {
        pos: Vec2 { x: anchor.x + offset.x, y: anchor.y + offset.y },
        ignore_collision: n < 1,
        creation_index: n,
    };
    tail.push(node);
}

} // verus!
