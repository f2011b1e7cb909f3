//! Fixed-point decimal arithmetic.
//!
//! Exchanges reject orders whose price or quantity violates the instrument's
//! declared precision, so every price, quantity and notional in this crate is
//! an exact base-10 fixed-point value: a `u64` mantissa carrying `DEC_SCALE`
//! decimal places. Rounding is always half-up at an explicit number of
//! decimal places; binary floating point never appears.

use vstd::prelude::*;

verus! {

/// Number of decimal places every `Dec` mantissa carries.
pub const DEC_SCALE: u32 = 4;

/// One whole unit, in mantissa ticks: `10^DEC_SCALE`.
pub const DEC_ONE: u64 = 10_000;

/// Largest mantissa a well-formed `Dec` may hold (a multiple of every
/// rounding step up to `DEC_SCALE` places).
pub const DEC_MAX_UNITS: u64 = 1_000_000_000_000_000;

/// `10^e`.
pub open spec fn pow10(e: nat) -> nat
    decreases e,
{
    if e == 0 {
        1
    } else {
        10 * pow10((e - 1) as nat)
    }
}

/// Division of `a` by positive `b`, rounded half-up: the exact quotient is
/// rounded to the nearest integer, ties away from zero.
pub open spec fn div_half_up(a: int, b: int) -> int
    recommends
        a >= 0,
        b > 0,
{
    if 2 * (a % b) >= b {
        a / b + 1
    } else {
        a / b
    }
}

/// `pow10` distributes over addition of exponents.
pub proof fn lemma_pow10_adds(a: nat, b: nat)
    ensures
        pow10(a + b) == pow10(a) * pow10(b),
    decreases a,
{
    if a == 0 {
        assert(pow10(a + b) == 1 * pow10(b));
    } else {
        lemma_pow10_adds((a - 1) as nat, b);
        assert(pow10((a + b - 1) as nat) == pow10((a - 1) as nat) * pow10(b));
        vstd::arithmetic::mul::lemma_mul_is_associative(
            10,
            pow10((a - 1) as nat) as int,
            pow10(b) as int,
        );
        assert(pow10(a + b) == 10 * pow10((a + b - 1) as nat));
        assert(pow10(a) == 10 * pow10((a - 1) as nat));
    }
}

/// `pow10` is positive.
pub proof fn lemma_pow10_pos(e: nat)
    ensures
        pow10(e) >= 1,
    decreases e,
{
    if e > 0 {
        lemma_pow10_pos((e - 1) as nat);
    }
}

/// Half-up division never overshoots a known multiple bound: if `a <= b * c`
/// then the rounded quotient is at most `c`.
pub proof fn lemma_div_half_up_le(a: int, b: int, c: int)
    requires
        0 <= a,
        0 < b,
        a <= b * c,
    ensures
        div_half_up(a, b) <= c,
{
    vstd::arithmetic::div_mod::lemma_fundamental_div_mod(a, b);
    assert(a / b <= c) by (nonlinear_arith)
        requires
            0 <= a,
            0 < b,
            a <= b * c,
        ;
    if 2 * (a % b) >= b {
        assert(a / b < c) by (nonlinear_arith)
            requires
                0 < b,
                a == b * (a / b) + a % b,
                2 * (a % b) >= b,
                a <= b * c,
                a / b <= c,
        ;
    }
}

/// The defining error bound of half-up division: the rounded quotient times
/// the divisor is within half a divisor of the dividend.
pub proof fn lemma_div_half_up_err(a: int, b: int)
    requires
        0 <= a,
        0 < b,
    ensures
        2 * a <= 2 * div_half_up(a, b) * b + b,
        2 * div_half_up(a, b) * b <= 2 * a + b,
{
    vstd::arithmetic::div_mod::lemma_fundamental_div_mod(a, b);
    let q = a / b;
    let r = a % b;
    if 2 * r >= b {
        assert(2 * (q + 1) * b == 2 * q * b + 2 * b) by (nonlinear_arith);
        assert(2 * a == 2 * q * b + 2 * r) by (nonlinear_arith)
            requires
                a == b * q + r,
        ;
    } else {
        assert(2 * a == 2 * q * b + 2 * r) by (nonlinear_arith)
            requires
                a == b * q + r,
        ;
    }
}

/// Computes `div_half_up` on machine integers.
pub fn div_half_up_u128(a: u128, b: u128) -> (q: u128)
    requires
        b > 0,
    ensures
        q as int == div_half_up(a as int, b as int),
{
    let r: u128 = a % b;
    let q0: u128 = a / b;
    if b - r <= r {
        proof {
            assert(b >= 2 && r >= 1);
            vstd::arithmetic::div_mod::lemma_fundamental_div_mod(a as int, b as int);
            assert(q0 < a) by (nonlinear_arith)
                requires
                    a as int == b as int * q0 as int + r as int,
                    b >= 2,
                    r >= 1,
                    q0 == a as int / b as int,
            ;
        }
        q0 + 1
    } else {
        q0
    }
}

/// A non-negative exact decimal with `DEC_SCALE` decimal places: the value is
/// `units / 10^DEC_SCALE`.
#[derive(Clone, Copy, PartialEq, Eq, Structural, Debug)]
pub struct Dec {
    pub units: u64,
}

impl Dec {
    /// The mantissa as a mathematical integer.
    pub open spec fn val(self) -> int {
        self.units as int
    }

    /// Within the range the exchange boundary accepts.
    pub open spec fn wf(self) -> bool {
        self.units <= DEC_MAX_UNITS
    }

    pub fn new(units: u64) -> (d: Dec)
        requires
            units <= DEC_MAX_UNITS,
        ensures
            d.units == units,
            d.wf(),
    {
        Dec { units }
    }

    /// The whole-unit value `n`, as a mantissa.
    pub fn from_whole(n: u64) -> (d: Dec)
        requires
            n <= DEC_MAX_UNITS / DEC_ONE,
        ensures
            d.units == n * DEC_ONE,
            d.wf(),
    {
        proof {
            assert(n as int * DEC_ONE as int <= DEC_MAX_UNITS as int) by (nonlinear_arith)
                requires
                    n <= DEC_MAX_UNITS as int / DEC_ONE as int,
                    DEC_ONE == 10_000u64,
                    DEC_MAX_UNITS == 1_000_000_000_000_000u64,
            ;
        }
        Dec { units: n * DEC_ONE }
    }
}

/// `10^e` on machine integers, for the small exponents rounding needs.
pub fn pow10_u64(e: u32) -> (p: u64)
    requires
        e <= 2 * DEC_SCALE,
    ensures
        p as int == pow10(e as nat),
        1 <= p <= 100_000_000,
        e <= DEC_SCALE ==> p <= DEC_ONE,
{
    proof {
        reveal_with_fuel(pow10, 9);
    }
    match e {
        0 => 1,
        1 => 10,
        2 => 100,
        3 => 1_000,
        4 => 10_000,
        5 => 100_000,
        6 => 1_000_000,
        7 => 10_000_000,
        _ => 100_000_000,
    }
}

/// Rounding a well-formed mantissa to any step up to `DEC_SCALE` digits
/// keeps it well-formed, and the result is a multiple of the step.
pub proof fn lemma_round_units_bound(u: int, k: nat)
    requires
        0 <= u <= DEC_MAX_UNITS,
        k <= DEC_SCALE,
    ensures
        0 <= div_half_up(u, pow10(k) as int) <= DEC_MAX_UNITS,
        div_half_up(u, pow10(k) as int) * pow10(k) <= DEC_MAX_UNITS,
        (div_half_up(u, pow10(k) as int) * pow10(k)) % pow10(k) as int == 0,
{
    let s = pow10(k) as int;
    let c = pow10((15 - k) as nat) as int;
    lemma_pow10_pos(k);
    lemma_pow10_pos((15 - k) as nat);
    lemma_pow10_adds((15 - k) as nat, k);
    assert(pow10(15) == 1_000_000_000_000_000) by {
        reveal_with_fuel(pow10, 16);
    }
    assert(c * s == DEC_MAX_UNITS);
    lemma_div_half_up_le(u, s, c);
    let q = div_half_up(u, s);
    vstd::arithmetic::div_mod::lemma_div_pos_is_pos(u, s);
    assert(q * s <= c * s) by (nonlinear_arith)
        requires
            q <= c,
            s >= 0,
    ;
    assert(q <= q * s) by (nonlinear_arith)
        requires
            q >= 0,
            s >= 1,
    ;
    vstd::arithmetic::div_mod::lemma_mod_multiples_basic(q, s);
}

/// Mantissa of `u` rounded half-up to `dp` decimal places, still carried at
/// `DEC_SCALE` places: the digits below `dp` become zero.
pub open spec fn round_units(u: int, dp: nat) -> int
    recommends
        u >= 0,
        dp <= DEC_SCALE,
{
    div_half_up(u, pow10((DEC_SCALE - dp) as nat) as int) * pow10((DEC_SCALE - dp) as nat)
}

impl Dec {
    /// `self` rounded half-up to `dp` decimal places.
    pub fn round_dp(self, dp: u32) -> (r: Dec)
        requires
            dp <= DEC_SCALE,
            self.wf(),
        ensures
            r.val() == round_units(self.val(), dp as nat),
            r.wf(),
            r.val() % pow10((DEC_SCALE - dp) as nat) as int == 0,
    {
        let step: u64 = pow10_u64(DEC_SCALE - dp);
        proof {
            lemma_round_units_bound(self.units as int, (DEC_SCALE - dp) as nat);
        }
        let q: u128 = div_half_up_u128(self.units as u128, step as u128);
        Dec { units: (q as u64) * step }
    }
}

} // verus!
