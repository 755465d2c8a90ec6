//! Integer trigonometry on milli-radian angles.
//!
//! The formation path needs the point of an ellipse at a given angle.  Sine
//! is computed by an exact integer form of a quadratic approximation on the
//! half turn `[0, 3142]` milli-radians, odd-extended to the full turn; cosine
//! is the sine of the angle shifted by a quarter turn.  The result is in
//! milli, always within `[-1000, 1000]`.

use vstd::prelude::*;
use vstd::arithmetic::div_mod::lemma_fundamental_div_mod;
use vstd::arithmetic::div_mod::lemma_mod_division_less_than_divisor;
use vstd::arithmetic::div_mod::lemma_add_mod_noop;
use vstd::arithmetic::div_mod::lemma_mod_self_0;
use vstd::arithmetic::div_mod::lemma_small_mod;
use vstd::arithmetic::div_mod::lemma_mod_twice;

verus! {

/// Sine in milli on the half turn, as the exact integer quotient
/// `16 * x * (3142 - x) * 1000 / (5 * 3142^2 - 4 * x * (3142 - x))`.
pub open spec fn sin_half_spec(x: int) -> int {
    (16000 * (x * (3142 - x))) / (49_360_820 - 4 * (x * (3142 - x)))
}

/// Sine in milli of a normalized angle in `[0, 6284)` milli-radians.
pub open spec fn sin_mrad_spec(x: int) -> int {
    if x <= 3142 {
        sin_half_spec(x)
    } else {
        -sin_half_spec(x - 3142)
    }
}

/// An angle folded into `[0, 6284)`: the remainder modulo a full turn.
pub open spec fn norm_mrad_spec(x: int) -> int {
    x % 6284
}

/// Cosine in milli of a normalized angle: sine a quarter turn ahead.
pub open spec fn cos_mrad_spec(x: int) -> int {
    sin_mrad_spec(norm_mrad_spec(x + 1571))
}

/// The product `x * (3142 - x)` stays within `[0, 2_468_041]` on the half turn.
proof fn lemma_hump_bounds(x: int)
    requires
        0 <= x <= 3142,
    ensures
        0 <= x * (3142 - x) <= 2_468_041,
{
    assert(0 <= x * (3142 - x) <= 2_468_041) by (nonlinear_arith)
        requires
            0 <= x <= 3142,
    ;
}

/// Sine on the half turn `[0, 3142]` milli-radians, in milli.
pub fn sin_half(x: i64) -> (r: i64)
    requires
        0 <= x <= 3142,
    ensures
        r == sin_half_spec(x as int),
        0 <= r <= 1000,
{
    proof {
        lemma_hump_bounds(x as int);
    }
    let u: u64 = (x as u64) * ((3142 - x) as u64);
    let num: u64 = 16000 * u;
    let den: u64 = 49_360_820 - 4 * u;
    let q: u64 = num / den;
    proof {
        lemma_fundamental_div_mod(num as int, den as int);
        lemma_mod_division_less_than_divisor(num as int, den as int);
        assert((den as int) * (q as int) <= (den as int) * 1000 ==> q <= 1000) by (nonlinear_arith)
            requires
                den > 0,
        ;
    }
    q as i64
}

/// Sine of a normalized angle in `[0, 6284)` milli-radians, in milli.
pub fn sin_mrad(x: i64) -> (r: i64)
    requires
        0 <= x < 6284,
    ensures
        r == sin_mrad_spec(x as int),
        -1000 <= r <= 1000,
{
    if x <= 3142 {
        sin_half(x)
    } else {
        -sin_half(x - 3142)
    }
}

/// Cosine of a normalized angle in `[0, 6284)` milli-radians, in milli.
pub fn cos_mrad(x: i64) -> (r: i64)
    requires
        0 <= x < 6284,
    ensures
        r == cos_mrad_spec(x as int),
        -1000 <= r <= 1000,
{
    let a: i64 = if x + 1571 >= 6284 {
        x + 1571 - 6284
    } else {
        x + 1571
    };
    proof {
        lemma_norm_shift(x as int);
    }
    sin_mrad(a)
}

/// Folding by one subtraction agrees with the remainder modulo a full turn.
proof fn lemma_norm_shift(x: int)
    requires
        0 <= x < 6284,
    ensures
        x + 1571 >= 6284 ==> norm_mrad_spec(x + 1571) == x + 1571 - 6284,
        x + 1571 < 6284 ==> norm_mrad_spec(x + 1571) == x + 1571,
{
    if x + 1571 >= 6284 {
        lemma_sub_turn_mod(x + 1571);
    } else {
        lemma_small_mod((x + 1571) as nat, 6284);
    }
}

/// Subtracting one full turn does not change the remainder.
pub proof fn lemma_sub_turn_mod(a: int)
    requires
        6284 <= a < 2 * 6284,
    ensures
        a % 6284 == a - 6284,
{
    lemma_small_mod((a - 6284) as nat, 6284);
    lemma_mod_self_0(6284);
    lemma_add_mod_noop(a - 6284, 6284, 6284);
}

/// Normalize an angle no farther than one turn outside `[0, 6284)`.
pub fn norm_mrad(x: i64) -> (r: i64)
    requires
        -6284 <= x < 2 * 6284,
    ensures
        r == norm_mrad_spec(x as int),
        0 <= r < 6284,
{
    let a: i64 = if x < 0 {
        x + 6284
    } else if x >= 6284 {
        x - 6284
    } else {
        x
    };
    proof {
        if x < 0 {
            lemma_add_turn_mod(x as int);
        } else if x >= 6284 {
            lemma_sub_turn_mod(x as int);
        } else {
            lemma_small_mod(x as nat, 6284);
        }
    }
    a
}

/// Adding one full turn does not change the remainder.
proof fn lemma_add_turn_mod(a: int)
    requires
        -6284 <= a < 0,
    ensures
        a % 6284 == a + 6284,
{
    lemma_small_mod((a + 6284) as nat, 6284);
    lemma_mod_self_0(6284);
    lemma_add_mod_noop(a, 6284, 6284);
    lemma_mod_twice(a, 6284);
}

} // verus!
