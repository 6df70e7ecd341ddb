//! Fixed-point sine and cosine on permille angle arguments.
//!
//! Angles are given as a fraction of a half turn or of a full turn, in
//! permille. Results are milli-scaled: 1000 stands for one. The half-turn
//! sine uses Bhaskara's rational approximation
//! `sin(pi x) ~ 16 x (1 - x) / (5 - 4 x (1 - x))`, which is exact at the
//! ends and at the peak and stays within two milli-units of the real sine,
//! and the full-turn functions fold into it by sign symmetry.

use vstd::prelude::*;

verus! {

/// Milli-scaled sine of `x` permille of a half turn, for `x` in `[0, 1000]`.
pub open spec fn spec_sin_half_permille(x: int) -> int {
    16000 * (x * (1000 - x)) / (5_000_000 - 4 * (x * (1000 - x)))
}

/// Milli-scaled sine of `t` permille of a full turn, for `t` in `[0, 1000]`.
pub open spec fn spec_sin_turn_permille(t: int) -> int {
    if t <= 500 {
        spec_sin_half_permille(2 * t)
    } else {
        -spec_sin_half_permille(2 * t - 1000)
    }
}

/// Milli-scaled cosine of `t` permille of a full turn: the sine a quarter
/// turn ahead.
pub open spec fn spec_cos_turn_permille(t: int) -> int {
    spec_sin_turn_permille((t + 250) % 1000)
}

/// The half-turn product term stays within `[0, 250000]`.
proof fn lemma_sin_product_bounds(x: int)
    requires
        0 <= x <= 1000,
    ensures
        0 <= x * (1000 - x) <= 250_000,
{
    assert(0 <= x * (1000 - x) <= 250_000) by (nonlinear_arith)
        requires
            0 <= x <= 1000,
    ;
}

/// The half-turn sine lies in `[0, 1000]`.
pub proof fn lemma_sin_half_bounds(x: int)
    requires
        0 <= x <= 1000,
    ensures
        0 <= spec_sin_half_permille(x) <= 1000,
{
    lemma_sin_product_bounds(x);
    let p = x * (1000 - x);
    let num = 16000 * p;
    let den = 5_000_000 - 4 * p;
    assert(0 <= num <= 1000 * den) by (nonlinear_arith)
        requires
            0 <= p <= 250_000,
            num == 16000 * p,
            den == 5_000_000 - 4 * p,
    ;
    assert(num / den >= 0) by (nonlinear_arith)
        requires
            num >= 0,
            den >= 1,
    ;
    assert(num / den <= 1000) by (nonlinear_arith)
        requires
            num <= 1000 * den,
            den >= 1,
    ;
}

/// The full-turn sine lies in `[-1000, 1000]`.
pub proof fn lemma_sin_turn_bounds(t: int)
    requires
        0 <= t <= 1000,
    ensures
        -1000 <= spec_sin_turn_permille(t) <= 1000,
{
    if t <= 500 {
        lemma_sin_half_bounds(2 * t);
    } else {
        lemma_sin_half_bounds(2 * t - 1000);
    }
}

/// The full-turn cosine lies in `[-1000, 1000]`.
pub proof fn lemma_cos_turn_bounds(t: int)
    requires
        0 <= t <= 1000,
    ensures
        -1000 <= spec_cos_turn_permille(t) <= 1000,
{
    vstd::arithmetic::div_mod::lemma_mod_bound(t + 250, 1000);
    lemma_sin_turn_bounds((t + 250) % 1000);
}

/// See [`spec_sin_half_permille`].
pub fn sin_half_permille(x: u64) -> (r: i64)
    requires
        x <= 1000,
    ensures
        r == spec_sin_half_permille(x as int),
        0 <= r <= 1000,
{
    proof {
        lemma_sin_product_bounds(x as int);
        lemma_sin_half_bounds(x as int);
    }
    let p: u64 = x * (1000 - x);
    let num: u64 = 16000 * p;
    let den: u64 = 5_000_000 - 4 * p;
    (num / den) as i64
}

/// See [`spec_sin_turn_permille`].
pub fn sin_turn_permille(t: u64) -> (r: i64)
    requires
        t <= 1000,
    ensures
        r == spec_sin_turn_permille(t as int),
        -1000 <= r <= 1000,
{
    if t <= 500 {
        sin_half_permille(2 * t)
    } else {
        -sin_half_permille(2 * t - 1000)
    }
}

/// See [`spec_cos_turn_permille`].
pub fn cos_turn_permille(t: u64) -> (r: i64)
    requires
        t <= 1000,
    ensures
        r == spec_cos_turn_permille(t as int),
        -1000 <= r <= 1000,
{
    let u: u64 = (t + 250) % 1000;
    sin_turn_permille(u)
}

} // verus!
