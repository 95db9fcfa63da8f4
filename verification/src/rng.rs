//! The core's only source of chance. One trusted wrapper draws from the
//! process RNG; everything built on top of it is verified against the
//! range the draw is guaranteed to fall in.

use vstd::prelude::*;
use rand::Rng;
use crate::constants::{COORD_LIMIT, TAIL_NODE_GAP};
use crate::vec2::{len_sq, Vec2};

verus! {

/// Relies on rand's `Rng::gen_range` over `lo..hi`: it returns a value of
/// the half-open range and panics only when the range is empty.
#[verifier::external_body]
pub(crate) fn gen_range_u64(lo: u64, hi: u64) -> (r: u64)
    requires
        lo < hi,
    ensures
        lo <= r < hi,
{
    rand::thread_rng().gen_range(lo..hi)
}

/// One random draw against a chance of `per_mille` in 1000. An impossible
/// chance never fires and a certain one always does.
pub fn random_chance(per_mille: u64) -> (r: bool)
    ensures
        per_mille == 0 ==> r == false,
        per_mille >= 1000 ==> r == true,
{
    let draw = gen_range_u64(0, 1000);
    draw < per_mille
}

/// A uniformly random coordinate in [lo, hi).
pub fn random_coord_in(lo: i64, hi: i64) -> (r: i64)
    requires
        -COORD_LIMIT <= lo < hi <= COORD_LIMIT,
    ensures
        lo <= r < hi,
{
    let span: u64 = (hi - lo) as u64;
    let off = gen_range_u64(0, span);
    lo + (off as i64)
}

/// A uniformly random direction from a table of twenty vectors whose
/// length is exactly the tail gap (each is a Pythagorean triple with
/// hypotenuse 25, scaled by 2000).
pub fn random_gap_offset() -> (r: Vec2)
    ensures
        len_sq(r) == TAIL_NODE_GAP * TAIL_NODE_GAP,
        in_gap_box(r),
{
    let pick = gen_range_u64(0, 20);
    match pick {
        0 => gap_vec(50_000, 0),
        1 => gap_vec(-50_000, 0),
        2 => gap_vec(0, 50_000),
        3 => gap_vec(0, -50_000),
        4 => gap_vec(48_000, 14_000),
        5 => gap_vec(48_000, -14_000),
        6 => gap_vec(-48_000, 14_000),
        7 => gap_vec(-48_000, -14_000),
        8 => gap_vec(40_000, 30_000),
        9 => gap_vec(40_000, -30_000),
        10 => gap_vec(-40_000, 30_000),
        11 => gap_vec(-40_000, -30_000),
        12 => gap_vec(30_000, 40_000),
        13 => gap_vec(30_000, -40_000),
        14 => gap_vec(-30_000, 40_000),
        15 => gap_vec(-30_000, -40_000),
        16 => gap_vec(14_000, 48_000),
        17 => gap_vec(14_000, -48_000),
        18 => gap_vec(-14_000, 48_000),
        _ => gap_vec(-14_000, -48_000),
    }
}

/// Builds one table entry; the caller's literal components prove the
/// length claim by constant folding.
fn gap_vec(x: i64, y: i64) -> (r: Vec2)
    requires
        x * x + y * y == TAIL_NODE_GAP * TAIL_NODE_GAP,
        -TAIL_NODE_GAP <= x <= TAIL_NODE_GAP,
        -TAIL_NODE_GAP <= y <= TAIL_NODE_GAP,
    ensures
        len_sq(r) == TAIL_NODE_GAP * TAIL_NODE_GAP,
        in_gap_box(r),
        r.x == x,
        r.y == y,
{
    Vec2 { x, y }
}

/// Components of a gap-length offset stay within the gap itself.
pub open spec fn in_gap_box(v: Vec2) -> bool {
    &&& -TAIL_NODE_GAP <= v.x <= TAIL_NODE_GAP
    &&& -TAIL_NODE_GAP <= v.y <= TAIL_NODE_GAP
}

} // verus!
