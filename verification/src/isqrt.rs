//! Integer square root: a spec-level definition, its characterization,
//! and a verified binary-search implementation. Drag's speed ceiling and
//! the tail-growth offset are stated with it.

use vstd::prelude::*;

verus! {

/// Floor of the square root, defined by halving the argument's digits.
pub open spec fn sqrt_floor(n: int) -> int
    decreases n,
{
    if n <= 0 {
        0
    } else {
        let r = 2 * sqrt_floor(n / 4);
        if (r + 1) * (r + 1) <= n {
            r + 1
        } else {
            r
        }
    }
}

/// Ceiling of the square root.
pub open spec fn sqrt_ceil(n: int) -> int {
    if sqrt_floor(n) * sqrt_floor(n) == n {
        sqrt_floor(n)
    } else {
        sqrt_floor(n) + 1
    }
}

/// sqrt_floor brackets its argument between consecutive squares.
pub proof fn lemma_sqrt_floor(n: int)
    requires
        n >= 0,
    ensures
        sqrt_floor(n) >= 0,
        sqrt_floor(n) * sqrt_floor(n) <= n,
        n < (sqrt_floor(n) + 1) * (sqrt_floor(n) + 1),
    decreases n,
{
    if n <= 0 {
    } else {
        let q = n / 4;
        assert(0 <= q < n) by (nonlinear_arith)
            requires
                n >= 1,
                q == n / 4,
        {};
        lemma_sqrt_floor(q);
        let r0 = sqrt_floor(q);
        let r = 2 * r0;
        assert(4 * q <= n <= 4 * q + 3) by (nonlinear_arith)
            requires
                n >= 1,
                q == n / 4,
        {};
        assert(r * r <= 4 * q) by (nonlinear_arith)
            requires
                r == 2 * r0,
                r0 * r0 <= q,
        {};
        assert(n < (r + 2) * (r + 2)) by (nonlinear_arith)
            requires
                r == 2 * r0,
                q < (r0 + 1) * (r0 + 1),
                n <= 4 * q + 3,
        {};
        if (r + 1) * (r + 1) <= n {
            assert(sqrt_floor(n) == r + 1);
        } else {
            assert(sqrt_floor(n) == r);
        }
    }
}

/// The ceiling root brackets its argument from above.
pub proof fn lemma_sqrt_ceil(n: int)
    requires
        n >= 1,
    ensures
        sqrt_ceil(n) >= 1,
        n <= sqrt_ceil(n) * sqrt_ceil(n),
        (sqrt_ceil(n) - 1) * (sqrt_ceil(n) - 1) < n,
{
    lemma_sqrt_floor(n);
    let f = sqrt_floor(n);
    if f * f == n {
        assert((f - 1) * (f - 1) < f * f) by (nonlinear_arith)
            requires
                f >= 1,
        {};
    } else {
        assert(f * f < n);
    }
}

/// A bracketing root is unique.
pub proof fn lemma_sqrt_floor_unique(n: int, r: int)
    requires
        n >= 0,
        r >= 0,
        r * r <= n,
        n < (r + 1) * (r + 1),
    ensures
        r == sqrt_floor(n),
{
    lemma_sqrt_floor(n);
    let f = sqrt_floor(n);
    assert(r == f) by (nonlinear_arith)
        requires
            r >= 0,
            f >= 0,
            r * r <= n,
            n < (r + 1) * (r + 1),
            f * f <= n,
            n < (f + 1) * (f + 1),
    {};
}

/// Binary-search integer square root.
pub fn isqrt(n: u64) -> (r: u64)
    ensures
        r == sqrt_floor(n as int),
        r * r <= n < (r + 1) * (r + 1),
{
    let mut lo: u64 = 0;
    let mut hi: u64 = if n >= 4_294_967_295 {
        4_294_967_296
    } else {
        n + 1
    };
    proof {
        assert((n as int) < (hi as int) * (hi as int)) by (nonlinear_arith)
            requires
                hi >= 1,
                n < 18_446_744_073_709_551_616,
                hi == if n >= 4_294_967_295 { 4_294_967_296int } else { n + 1 },
        {};
    }
    while lo + 1 < hi
        invariant
            0 <= lo < hi <= 4_294_967_296,
            lo * lo <= n,
            (n as int) < (hi as int) * (hi as int),
        decreases hi - lo,
    {
        let mid: u64 = lo + (hi - lo) / 2;
        proof {
            assert((mid as int) * (mid as int) <= 4_294_967_296 * 4_294_967_296)
                by (nonlinear_arith)
                requires
                    0 <= mid <= 4_294_967_296,
            {};
        }
        let sq: u128 = (mid as u128) * (mid as u128);
        if sq <= n as u128 {
            lo = mid;
        } else {
            hi = mid;
        }
    }
    proof {
        lemma_sqrt_floor_unique(n as int, lo as int);
    }
    lo
}

/// Ceiling integer square root.
pub fn isqrt_ceil(n: u64) -> (r: u64)
    ensures
        r == sqrt_ceil(n as int),
        n <= r * r,
        n >= 1 ==> r >= 1 && (r - 1) * (r - 1) < n,
{
    let f = isqrt(n);
    proof {
        if n >= 1 {
            lemma_sqrt_ceil(n as int);
        }
        assert(f <= 4_294_967_296) by (nonlinear_arith)
            requires
                f * f <= n,
                n < 18_446_744_073_709_551_616,
                f >= 0,
        {};
    }
    if f * f == n {
        f
    } else {
        f + 1
    }
}

} // verus!
