//! Fixed-point arithmetic for the simulation.
//!
//! One world unit (a pixel of play space) is `MILLI` thousandths. Multiplying
//! two milli-scaled values needs a division by 1000 afterwards; that division
//! truncates toward zero, matching the sign behaviour of hardware division.
//! Every stored coordinate, speed and intent stays within `MAX_COORD`, so
//! intermediate products fit in wide integers and integration can saturate at
//! the edge of the representable play space instead of overflowing.

use vstd::prelude::*;

verus! {

/// One world unit in the fixed-point encoding.
pub const MILLI: i64 = 1000;

/// Largest magnitude a stored coordinate, speed or intent may have
/// (one million world units in milli-units).
pub const MAX_COORD: i64 = 1_000_000_000;

/// Division by 1000 truncated toward zero, as hardware division behaves.
pub open spec fn tdiv_milli(x: int) -> int {
    if x >= 0 {
        x / 1000
    } else {
        -((-x) / 1000)
    }
}

/// Clamp a mathematical integer into the stored coordinate range.
pub open spec fn clamp_coord(x: int) -> int {
    if x < -1_000_000_000 {
        -1_000_000_000
    } else if x > 1_000_000_000 {
        1_000_000_000
    } else {
        x
    }
}

/// Bound the magnitude of a product from bounds on its factors.
pub proof fn lemma_abs_mul_le(a: int, b: int, ma: int, mb: int)
    requires
        -ma <= a <= ma,
        -mb <= b <= mb,
    ensures
        -(ma * mb) <= a * b <= ma * mb,
{
    assert(-(ma * mb) <= a * b <= ma * mb) by (nonlinear_arith)
        requires
            -ma <= a <= ma,
            -mb <= b <= mb,
    ;
}

/// Truncated division shrinks magnitudes.
pub proof fn lemma_tdiv_milli_bound(x: int, m: int)
    requires
        -m <= x <= m,
        0 <= m,
    ensures
        -m <= tdiv_milli(x) <= m,
        x >= 0 ==> 0 <= tdiv_milli(x) <= x,
        x < 0 ==> x <= tdiv_milli(x) <= 0,
{
    if x >= 0 {
        assert(0 <= x / 1000 <= x) by (nonlinear_arith)
            requires
                x >= 0,
        ;
    } else {
        assert(0 <= (-x) / 1000 <= -x) by (nonlinear_arith)
            requires
                -x >= 0,
        ;
    }
}

/// Truncated division by 1000 divides the bound by 1000 as well.
pub proof fn lemma_tdiv_milli_scale_bound(x: int, m: int)
    requires
        -m * 1000 <= x <= m * 1000,
        0 <= m,
    ensures
        -m <= tdiv_milli(x) <= m,
{
    if x >= 0 {
        vstd::arithmetic::div_mod::lemma_div_is_ordered(x, m * 1000, 1000);
        vstd::arithmetic::div_mod::lemma_div_multiples_vanish(m, 1000);
        assert(x / 1000 >= 0) by (nonlinear_arith)
            requires
                x >= 0,
        ;
    } else {
        vstd::arithmetic::div_mod::lemma_div_is_ordered(-x, m * 1000, 1000);
        vstd::arithmetic::div_mod::lemma_div_multiples_vanish(m, 1000);
        assert((-x) / 1000 >= 0) by (nonlinear_arith)
            requires
                -x >= 0,
        ;
    }
}

/// Product of two milli-scaled values, scaled back down; truncates toward
/// zero. The caller keeps the product inside the `i64` range.
pub fn mul_milli(a: i64, b: i64) -> (r: i64)
    requires
        -0x7fff_ffff_ffff_ffff <= a * b <= 0x7fff_ffff_ffff_ffff,
    ensures
        r == tdiv_milli(a * b),
        a * b >= 0 ==> 0 <= r <= a * b,
        a * b < 0 ==> a * b <= r < 0 || r == 0,
{
    proof {
        lemma_tdiv_milli_bound(a * b, 0x7fff_ffff_ffff_ffff);
    }
    let p: i128 = (a as i128) * (b as i128);
    if p >= 0 {
        let q: u128 = (p as u128) / 1000;
        q as i64
    } else {
        let q: u128 = ((-p) as u128) / 1000;
        -(q as i64)
    }
}

/// Truncated division by 1000 on a wide intermediate value.
pub fn tdiv_milli_i128(x: i128) -> (r: i128)
    requires
        -0x7fff_ffff_ffff_ffff_ffff_ffff_ffff_ffff <= x,
    ensures
        r == tdiv_milli(x as int),
{
    if x >= 0 {
        ((x as u128) / 1000) as i128
    } else {
        let q: u128 = ((-x) as u128) / 1000;
        proof {
            lemma_tdiv_milli_bound(x as int, 0x7fff_ffff_ffff_ffff_ffff_ffff_ffff_ffffint);
        }
        -(q as i128)
    }
}

/// Euclidean remainder: the representative of `a` modulo `m` in `[0, m)`.
/// Matches the mathematical `%` of the specification language.
pub fn euclid_mod(a: i64, m: i64) -> (r: i64)
    requires
        1 <= m,
        -0x7fff_ffff_ffff_ffff <= a,
    ensures
        r == a as int % m as int,
        0 <= r < m,
{
    if a >= 0 {
        ((a as u64) % (m as u64)) as i64
    } else {
        let k: u64 = ((-a) as u64) % (m as u64);
        proof {
            lemma_neg_mod(a as int, m as int);
        }
        if k == 0 {
            0
        } else {
            m - (k as i64)
        }
    }
}

/// Relates the remainder of a negative number to the remainder of its
/// negation: either both vanish or they sum to the modulus.
pub proof fn lemma_neg_mod(a: int, m: int)
    requires
        a < 0,
        1 <= m,
    ensures
        (-a) % m == 0 ==> a % m == 0,
        (-a) % m != 0 ==> a % m == m - ((-a) % m),
{
    let k = (-a) % m;
    let q = (-a) / m;
    vstd::arithmetic::div_mod::lemma_fundamental_div_mod(-a, m);
    assert(-a == m * q + k);
    if k == 0 {
        assert(a == m * (-q)) by (nonlinear_arith)
            requires
                -a == m * q,
        ;
        vstd::arithmetic::div_mod::lemma_mod_multiples_basic(-q, m);
    } else {
        assert(a == m * (-q - 1) + (m - k)) by (nonlinear_arith)
            requires
                -a == m * q + k,
        ;
        vstd::arithmetic::div_mod::lemma_fundamental_div_mod_converse_mod(a, m, -q - 1, m - k);
    }
}

/// Sign of a value as a milli-scaled unit factor; zero counts as positive,
/// as the sign function of binary floating point does for positive zero.
pub fn signum_milli(a: i64) -> (r: i64)
    ensures
        r == spec_signum_milli(a as int),
{
    if a < 0 {
        -1000
    } else {
        1000
    }
}

/// See [`signum_milli`].
pub open spec fn spec_signum_milli(a: int) -> int {
    if a < 0 {
        -1000
    } else {
        1000
    }
}

/// Integrate one coordinate: advance `pos` by velocity `v` (milli-units per
/// second) over `delta_ms`, saturating at the edge of the stored range.
pub fn integrate_coord(pos: i64, v: i64, delta_ms: u64) -> (r: i64)
    requires
        -1_000_000_000_000_000 <= v <= 1_000_000_000_000_000,
        delta_ms <= 1_000_000,
        -1_000_000_000 <= pos <= 1_000_000_000,
    ensures
        r == clamp_coord(pos + tdiv_milli(v * delta_ms)),
        -1_000_000_000 <= r <= 1_000_000_000,
{
    proof {
        lemma_abs_mul_le(v as int, delta_ms as int, 1_000_000_000_000_000, 1_000_000);
        lemma_tdiv_milli_bound(
            v * delta_ms,
            0x7fff_ffff_ffff_ffff_ffff_ffff_ffff_ffffint,
        );
    }
    let p: i128 = (v as i128) * (delta_ms as i128);
    let d: i128 = tdiv_milli_i128(p);
    let s: i128 = (pos as i128) + d;
    if s < -1_000_000_000 {
        -1_000_000_000
    } else if s > 1_000_000_000 {
        1_000_000_000
    } else {
        s as i64
    }
}

} // verus!
