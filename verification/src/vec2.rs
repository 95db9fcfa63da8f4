//! Fixed-point planar vectors and the integer arithmetic kernels the
//! simulation is built on: sign-preserving truncated scaling, squared
//! lengths and distances, and an integer square root.

use vstd::prelude::*;
use crate::constants::COORD_LIMIT;

verus! {

/// A point or a velocity, in milli-units.
#[derive(Clone, Copy, PartialEq, Eq, Structural, Debug)]
pub struct Vec2 {
    pub x: i64,
    pub y: i64,
}

/// Absolute value.
pub open spec fn iabs(v: int) -> int {
    if v >= 0 { v } else { -v }
}

/// Sign-preserving truncated scaling: v * num / den rounded toward zero.
/// Every motion rule of the core is stated with it.
pub open spec fn muldiv(v: int, num: int, den: int) -> int {
    if v >= 0 { (v * num) / den } else { -((-v * num) / den) }
}

/// Both components within [-limit, limit].
pub open spec fn in_box(v: Vec2, limit: int) -> bool {
    &&& -limit <= v.x <= limit
    &&& -limit <= v.y <= limit
}

/// Squared length.
pub open spec fn len_sq(v: Vec2) -> int {
    v.x * v.x + v.y * v.y
}

/// Squared distance.
pub open spec fn dist_sq(a: Vec2, b: Vec2) -> int {
    (a.x - b.x) * (a.x - b.x) + (a.y - b.y) * (a.y - b.y)
}

/// The magnitude of a truncated scaling is the scaled magnitude, and the
/// sign of the input is kept.
pub proof fn lemma_muldiv_abs(v: int, num: int, den: int)
    requires
        den >= 1,
        num >= 0,
    ensures
        iabs(muldiv(v, num, den)) == (iabs(v) * num) / den,
        v >= 0 ==> muldiv(v, num, den) >= 0,
        v <= 0 ==> muldiv(v, num, den) <= 0,
{
    if v >= 0 {
        assert(v * num >= 0) by (nonlinear_arith)
            requires
                v >= 0,
                num >= 0,
        {};
        vstd::arithmetic::div_mod::lemma_div_pos_is_pos(v * num, den);
    } else {
        assert(-v * num >= 0) by (nonlinear_arith)
            requires
                v < 0,
                num >= 0,
        {};
        vstd::arithmetic::div_mod::lemma_div_pos_is_pos(-v * num, den);
    }
}

/// Scaling by a proper fraction shrinks the magnitude, strictly so on a
/// nonzero input.
pub proof fn lemma_muldiv_shrinks(v: int, num: int, den: int)
    requires
        0 <= num < den,
    ensures
        iabs(muldiv(v, num, den)) <= iabs(v),
        iabs(v) >= 1 ==> iabs(muldiv(v, num, den)) <= iabs(v) - 1,
{
    lemma_muldiv_abs(v, num, den);
    let m = iabs(v);
    let q = (m * num) / den;
    vstd::arithmetic::div_mod::lemma_fundamental_div_mod(m * num, den);
    if m >= 1 {
        assert(q <= m - 1) by (nonlinear_arith)
            requires
                m >= 1,
                den >= 1,
                num < den,
                q * den <= m * num < q * den + den,
        {};
    } else {
        assert(q == 0) by (nonlinear_arith)
            requires
                m == 0,
                den >= 1,
                num >= 0,
                q * den <= m * num < q * den + den,
                q >= 0,
        {};
    }
}

/// A magnitude bound on the input carries to the output.
pub proof fn lemma_muldiv_upper(v: int, num: int, den: int, m: int)
    requires
        den >= 1,
        num >= 0,
        iabs(v) <= m,
    ensures
        iabs(muldiv(v, num, den)) <= (m * num) / den,
{
    lemma_muldiv_abs(v, num, den);
    assert(iabs(v) * num <= m * num) by (nonlinear_arith)
        requires
            0 <= iabs(v) <= m,
            num >= 0,
    {};
    vstd::arithmetic::div_mod::lemma_div_is_ordered(iabs(v) * num, m * num, den);
}

/// Magnitude of a component, as an unsigned value.
pub fn abs64(v: i64) -> (r: u64)
    requires
        v != i64::MIN,
    ensures
        r == iabs(v as int),
{
    if v >= 0 { v as u64 } else { (-v) as u64 }
}

/// v * num / den, truncated toward zero.
pub fn muldiv64(v: i64, num: u64, den: u64) -> (r: i64)
    requires
        den > 0,
        v != i64::MIN,
        iabs(v as int) * num <= i64::MAX,
    ensures
        r == muldiv(v as int, num as int, den as int),
{
    let m: u64 = abs64(v);
    let p: u64 = m * num;
    let q: u64 = p / den;
    proof {
        assert(q * den <= p && p - den < q * den) by {
            vstd::arithmetic::div_mod::lemma_fundamental_div_mod(p as int, den as int);
        };
        assert(q <= p) by (nonlinear_arith)
            requires
                q * den <= p,
                den >= 1,
                q >= 0,
        {};
    }
    if v >= 0 {
        q as i64
    } else {
        -(q as i64)
    }
}

/// Squared length of a vector with bounded components.
pub fn len_sq64(v: &Vec2) -> (r: i64)
    requires
        in_box(*v, 2_000_000_000),
    ensures
        r == len_sq(*v),
{
    proof {
        assert(v.x * v.x + v.y * v.y <= i64::MAX && v.x * v.x >= 0 && v.y * v.y >= 0)
            by (nonlinear_arith)
            requires
                -2_000_000_000 <= v.x <= 2_000_000_000,
                -2_000_000_000 <= v.y <= 2_000_000_000,
        {};
    }
    v.x * v.x + v.y * v.y
}

/// Squared distance between two points with bounded coordinates.
pub fn dist_sq64(a: &Vec2, b: &Vec2) -> (r: i64)
    requires
        in_box(*a, COORD_LIMIT as int),
        in_box(*b, COORD_LIMIT as int),
    ensures
        r == dist_sq(*a, *b),
{
    let dx: i64 = a.x - b.x;
    let dy: i64 = a.y - b.y;
    proof {
        assert(dx * dx + dy * dy <= i64::MAX && dx * dx >= 0 && dy * dy >= 0)
            by (nonlinear_arith)
            requires
                -2_000_000_000 <= dx <= 2_000_000_000,
                -2_000_000_000 <= dy <= 2_000_000_000,
        {};
    }
    dx * dx + dy * dy
}

/// Clamp a component into [lo, hi].
pub fn clamp64(v: i64, lo: i64, hi: i64) -> (r: i64)
    requires
        lo <= hi,
    ensures
        r == if v < lo { lo as int } else if v > hi { hi as int } else { v as int },
{
    if v < lo {
        lo
    } else if v > hi {
        hi
    } else {
        v
    }
}

} // verus!
