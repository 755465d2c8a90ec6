//! Exact fixed-point arithmetic on milli-scaled integers.
//!
//! Every quantity in the simulation is an integer number of milli-units, so
//! scaling by a milli factor is a multiply followed by a floor division by
//! 1000 of the magnitude, with the sign reapplied.

use vstd::prelude::*;
use vstd::arithmetic::div_mod::lemma_fundamental_div_mod;
use vstd::arithmetic::div_mod::lemma_mod_division_less_than_divisor;

verus! {

/// Magnitude of an integer.
pub open spec fn abs_i(v: int) -> int {
    if v >= 0 {
        v
    } else {
        -v
    }
}

/// The smaller of two integers.
pub open spec fn min_i(a: int, b: int) -> int {
    if a <= b {
        a
    } else {
        b
    }
}

/// The larger of two integers.
pub open spec fn max_i(a: int, b: int) -> int {
    if a >= b {
        a
    } else {
        b
    }
}

/// `r` is the integer square root of `n`.
pub open spec fn is_isqrt(r: int, n: int) -> bool {
    &&& 0 <= r
    &&& r * r <= n
    &&& n < (r + 1) * (r + 1)
}

/// The integer square root: the unique root `is_isqrt` admits.
pub open spec fn isqrt_spec(n: int) -> int {
    choose|r: int| is_isqrt(r, n)
}

/// Two integer square roots of the same value are equal.
pub proof fn lemma_isqrt_unique(a: int, b: int, n: int)
    requires
        is_isqrt(a, n),
        is_isqrt(b, n),
    ensures
        a == b,
{
    if a < b {
        assert(b * b >= (a + 1) * (a + 1)) by (nonlinear_arith)
            requires
                0 <= a + 1 <= b,
        ;
    }
    if b < a {
        assert(a * a >= (b + 1) * (b + 1)) by (nonlinear_arith)
            requires
                0 <= b + 1 <= a,
        ;
    }
}

/// Clamping to the symmetric interval `[-lim, lim]`.
pub open spec fn clamp_spec(v: int, lim: int) -> int {
    if v > lim {
        lim
    } else if v < -lim {
        -lim
    } else {
        v
    }
}

/// `v` scaled by the milli factor `k`, the magnitude rounded toward zero.
pub open spec fn scale_milli_spec(v: int, k: int) -> int {
    if v >= 0 {
        (v * k) / 1000
    } else {
        -(((-v) * k) / 1000)
    }
}

/// Clamp `v` to `[-lim, lim]`.
pub fn clamp_i64(v: i64, lim: i64) -> (r: i64)
    requires
        0 <= lim,
    ensures
        r == clamp_spec(v as int, lim as int),
{
    if v > lim {
        lim
    } else if v < -lim {
        -lim
    } else {
        v
    }
}

/// Scale `v` by the milli factor `k`: the product over 1000, rounded toward
/// zero.  The last four clauses pin the quotient by linear bounds, so that
/// callers can size the result without reasoning about division.
pub fn scale_milli(v: i64, k: i64) -> (r: i64)
    requires
        0 <= k <= 1_000_000,
        -1_000_000_000_000 <= v <= 1_000_000_000_000,
    ensures
        r == scale_milli_spec(v as int, k as int),
        v >= 0 ==> r >= 0,
        v < 0 ==> r <= 0,
        1000 * abs_i(r as int) <= abs_i(v as int) * k,
        abs_i(v as int) * k < 1000 * (abs_i(r as int) + 1),
{
    let m: u64 = if v >= 0 {
        v as u64
    } else {
        (-v) as u64
    };
    assert(m == abs_i(v as int));
    assert(m * (k as u64) <= 1_000_000_000_000u64 * 1_000_000u64) by (nonlinear_arith)
        requires
            m <= 1_000_000_000_000u64,
            0 <= k <= 1_000_000,
    ;
    let p: u64 = m * (k as u64);
    let q: u64 = p / 1000;
    proof {
        lemma_fundamental_div_mod(p as int, 1000);
    }
    if v >= 0 {
        q as i64
    } else {
        -(q as i64)
    }
}

/// `a * b / d` on nonnegative values, rounded down.
pub fn mul_div(a: u64, b: u64, d: u64) -> (r: u64)
    requires
        0 < d,
        a * b <= u64::MAX,
    ensures
        r == (a * b) / (d as int),
        d * r <= a * b,
        a * b < d * (r + 1),
{
    let p: u64 = a * b;
    let q: u64 = p / d;
    proof {
        lemma_fundamental_div_mod(p as int, d as int);
        lemma_mod_division_less_than_divisor(p as int, d as int);
        assert((d as int) * (q + 1) == (d as int) * (q as int) + d) by (nonlinear_arith);
    }
    q
}

/// Integer square root: the greatest `r` with `r * r <= n`.
pub fn isqrt(n: u64) -> (r: u64)
    ensures
        r * r <= n,
        n < (r + 1) * (r + 1),
        r == isqrt_spec(n as int),
{
    let mut lo: u64 = 0;
    let mut hi: u64 = 4_294_967_296;
    while hi - lo > 1
        invariant
            lo < hi <= 4_294_967_296,
            lo * lo <= n,
            n < hi * hi,
        decreases hi - lo,
    {
        let mid: u64 = lo + (hi - lo) / 2;
        assert(lo < mid < hi);
        assert(mid * mid < 0x1_0000_0000_0000_0000) by (nonlinear_arith)
            requires
                0 <= mid < 4_294_967_296u64,
        ;
        if mid * mid <= n {
            lo = mid;
        } else {
            hi = mid;
        }
    }
    proof {
        assert(is_isqrt(lo as int, n as int));
        assert(exists|r: int| is_isqrt(r, n as int));
        lemma_isqrt_unique(lo as int, isqrt_spec(n as int), n as int);
    }
    lo
}

} // verus!
