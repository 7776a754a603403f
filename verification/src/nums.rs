//! Integer helpers for the fixed-point arithmetic of the simulation:
//! absolute value and sign, truncating division, clamping, and a verified
//! integer square root.

use vstd::prelude::*;

verus! {

/// Absolute value, as an `int`.
pub open spec fn iabs(a: int) -> int {
    if a < 0 {
        -a
    } else {
        a
    }
}

/// Sign of an integer: -1, 0 or 1.
pub open spec fn sgn(a: int) -> int {
    if a > 0 {
        1
    } else if a < 0 {
        -1
    } else {
        0
    }
}

/// Clips a value below at zero.
pub open spec fn clip0(a: int) -> int {
    if a < 0 {
        0
    } else {
        a
    }
}

/// Truncating division (rounds toward zero), for a positive divisor.
/// This is what Rust's `/` computes on signed integers.
pub open spec fn tdiv(a: int, b: int) -> int
    recommends
        b > 0,
{
    if a >= 0 {
        a / b
    } else {
        -((-a) / b)
    }
}

/// Clamps `a` into `[-lim, lim]`.
pub open spec fn clamp_spec(a: int, lim: int) -> int
    recommends
        lim >= 0,
{
    if a < -lim {
        -lim
    } else if a > lim {
        lim
    } else {
        a
    }
}

/// Clamps a coordinate into `[-lim, lim]`.
pub fn clamp_i64(a: i64, lim: i64) -> (r: i64)
    requires
        lim >= 0,
    ensures
        r == clamp_spec(a as int, lim as int),
        -lim <= r <= lim,
{
    if a < -lim {
        -lim
    } else if a > lim {
        lim
    } else {
        a
    }
}

/// The integer square root: the unique `r` with `r * r <= n < (r + 1) * (r + 1)`.
pub open spec fn isqrt_spec(n: nat) -> nat
    decreases n,
{
    if n == 0 {
        0
    } else {
        let r = isqrt_spec((n - 1) as nat);
        if (r + 1) * (r + 1) <= n {
            r + 1
        } else {
            r
        }
    }
}

/// `isqrt_spec` really is the integer square root.
pub proof fn lemma_isqrt_spec_bounds(n: nat)
    ensures
        isqrt_spec(n) * isqrt_spec(n) <= n,
        n < (isqrt_spec(n) + 1) * (isqrt_spec(n) + 1),
    decreases n,
{
    if n == 0 {
        assert(isqrt_spec(0) == 0);
        assert(n < (isqrt_spec(n) + 1) * (isqrt_spec(n) + 1)) by (nonlinear_arith)
            requires
                n == 0,
                isqrt_spec(n) == 0,
        {
        }
    } else {
        lemma_isqrt_spec_bounds((n - 1) as nat);
        let r = isqrt_spec((n - 1) as nat);
        if (r + 1) * (r + 1) <= n {
            assert(isqrt_spec(n) == r + 1);
            assert(n <= (r + 1) * (r + 1));
            assert(((r + 1) + 1) * ((r + 1) + 1) > n) by (nonlinear_arith)
                requires
                    n <= (r + 1) * (r + 1),
                    r >= 0,
            {
            }
        } else {
            assert(isqrt_spec(n) == r);
            assert(r * r <= n - 1);
            assert(n < (r + 1) * (r + 1));
        }
    }
}

/// Any two integer square roots of the same number agree.
pub proof fn lemma_isqrt_unique(n: nat, r: nat, s: nat)
    requires
        r * r <= n,
        n < (r + 1) * (r + 1),
        s * s <= n,
        n < (s + 1) * (s + 1),
    ensures
        r == s,
{
    if r < s {
        assert(false) by (nonlinear_arith)
            requires
                r < s,
                n < (r + 1) * (r + 1),
                s * s <= n,
        {
        }
    }
    if s < r {
        assert(false) by (nonlinear_arith)
            requires
                s < r,
                n < (s + 1) * (s + 1),
                r * r <= n,
        {
        }
    }
}

/// The integer square root dominates each side of a sum of squares:
/// if `a * a <= n` then `isqrt_spec(n) >= a`.
pub proof fn lemma_isqrt_ge(n: nat, a: nat)
    requires
        a * a <= n,
    ensures
        isqrt_spec(n) >= a,
{
    lemma_isqrt_spec_bounds(n);
    let r = isqrt_spec(n);
    if r < a {
        assert(false) by (nonlinear_arith)
            requires
                r < a,
                n < (r + 1) * (r + 1),
                a * a <= n,
        {
        }
    }
}

/// Computes the integer square root of `n` by binary search.
pub fn isqrt(n: u128) -> (r: u128)
    ensures
        r * r <= n,
        n < (r + 1) * (r + 1),
        r == isqrt_spec(n as nat),
{
    let mut lo: u128 = 0;
    let mut hi: u128 = 0x1_0000_0000_0000_0000;
    assert(hi * hi > n) by (nonlinear_arith)
        requires
            hi == 0x1_0000_0000_0000_0000u128,
            n <= u128::MAX,
    {
    }
    while lo + 1 < hi
        invariant
            lo < hi,
            hi <= 0x1_0000_0000_0000_0000,
            lo * lo <= n,
            hi * hi > n,
        decreases hi - lo,
    {
        let mid = lo + (hi - lo) / 2;
        assert(lo < mid < hi);
        assert(mid * mid <= u128::MAX) by (nonlinear_arith)
            requires
                mid < 0x1_0000_0000_0000_0000u128,
        {
        }
        if mid * mid <= n {
            lo = mid;
        } else {
            hi = mid;
        }
    }
    proof {
        lemma_isqrt_spec_bounds(n as nat);
        lemma_isqrt_unique(n as nat, lo as nat, isqrt_spec(n as nat));
    }
    lo
}

} // verus!
