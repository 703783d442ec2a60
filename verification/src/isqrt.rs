//! Integer square root: the floor of the real square root of a non-negative
//! integer, as a specification and as a verified executable function.

use vstd::prelude::*;

verus! {

/// Largest argument `isqrt_i64` accepts. It covers every squared norm the
/// geometry produces: three squares of coordinates bounded by one billion.
pub const ISQRT_MAX: i64 = 3_000_000_000_000_000_000;

/// The floor of the real square root of `n`: the unique `r` with
/// `r * r <= n < (r + 1) * (r + 1)` (see `lemma_isqrt_bounds`,
/// `lemma_isqrt_unique`).
pub open spec fn isqrt(n: nat) -> nat
    decreases n,
{
    if n == 0 {
        0
    } else {
        let r = isqrt((n - 1) as nat);
        if (r + 1) * (r + 1) <= n {
            r + 1
        } else {
            r
        }
    }
}

/// `isqrt(n)` squared never exceeds `n`, and the next square is past `n`.
pub proof fn lemma_isqrt_bounds(n: nat)
    ensures
        isqrt(n) * isqrt(n) <= n,
        n < (isqrt(n) + 1) * (isqrt(n) + 1),
    decreases n,
{
    let q = isqrt(n);
    if n == 0 {
        assert(q * q <= n && n < (q + 1) * (q + 1)) by (nonlinear_arith)
            requires
                q == 0,
                n == 0;
    } else {
        lemma_isqrt_bounds((n - 1) as nat);
        let r = isqrt((n - 1) as nat);
        if (r + 1) * (r + 1) <= n {
            assert(q * q <= n && n < (q + 1) * (q + 1)) by (nonlinear_arith)
                requires
                    q == r + 1,
                    (r + 1) * (r + 1) <= n,
                    n - 1 < (r + 1) * (r + 1),
                    0 <= r;
        } else {
            assert(q * q <= n && n < (q + 1) * (q + 1)) by (nonlinear_arith)
                requires
                    q == r,
                    r * r <= n - 1,
                    n < (r + 1) * (r + 1);
        }
    }
}

/// The bounds `r * r <= n < (r + 1) * (r + 1)` determine `r`: any value
/// satisfying them is `isqrt(n)`.
pub proof fn lemma_isqrt_unique(n: nat, r: nat)
    requires
        r * r <= n,
        n < (r + 1) * (r + 1),
    ensures
        r == isqrt(n),
{
    lemma_isqrt_bounds(n);
    let q = isqrt(n);
    assert(r == q) by (nonlinear_arith)
        requires
            r * r <= n < (r + 1) * (r + 1),
            q * q <= n < (q + 1) * (q + 1),
            0 <= r,
            0 <= q;
}

/// The square root is zero exactly on zero.
pub proof fn lemma_isqrt_zero_iff(n: nat)
    ensures
        isqrt(n) == 0 <==> n == 0,
{
    lemma_isqrt_bounds(n);
    let q = isqrt(n);
    assert(q == 0 <==> n == 0) by (nonlinear_arith)
        requires
            q * q <= n,
            n < (q + 1) * (q + 1),
            0 <= q;
}

/// Floor square root of a non-negative `i64`, by bisection on the root.
pub fn isqrt_i64(n: i64) -> (r: i64)
    requires
        0 <= n <= ISQRT_MAX,
    ensures
        r == isqrt(n as nat),
        0 <= r,
        r * r <= n,
        n < (r + 1) * (r + 1),
{
    let mut lo: i64 = 0;
    let mut hi: i64 = 2_000_000_000;
    assert(lo * lo <= n && n < hi * hi) by (nonlinear_arith)
        requires
            0 <= n <= 3_000_000_000_000_000_000,
            lo == 0,
            hi == 2_000_000_000;
    while lo + 1 < hi
        invariant
            0 <= lo < hi <= 2_000_000_000,
            lo * lo <= n,
            n < hi * hi,
        decreases hi - lo,
    {
        let mid: i64 = lo + (hi - lo) / 2;
        assert(0 <= mid * mid <= 4_000_000_000_000_000_000) by (nonlinear_arith)
            requires
                0 <= mid <= 2_000_000_000;
        if mid * mid <= n {
            lo = mid;
        } else {
            hi = mid;
        }
    }
    proof {
        lemma_isqrt_unique(n as nat, lo as nat);
    }
    lo
}

} // verus!
