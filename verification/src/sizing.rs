//! Order sizing: from a reference price and a quote-currency notional to a
//! limit price and a base-currency quantity, both rounded half-up to the
//! instrument's declared precision.
//!
//! The limit price is the reference price times a configured markup (a far
//! price meant to rest unfilled), rounded to `price_dp` decimal places. The
//! quantity is the notional divided by that rounded limit price — the price
//! the order actually carries, so the two together track the budget —
//! rounded to `size_dp` decimal places. A computation whose rounded limit
//! price or quantity is zero — or out of the exchange's range — yields
//! `InvalidQuantity` and must not be submitted.

use vstd::prelude::*;

use crate::errors::ComputeError;
use crate::fixed::{
    div_half_up, div_half_up_u128, lemma_div_half_up_err, lemma_div_half_up_le,
    lemma_round_units_bound, pow10, pow10_u64, Dec, DEC_MAX_UNITS, DEC_SCALE,
};

verus! {

/// Which side of the book an order stands on.
#[derive(Clone, Copy, PartialEq, Eq, Structural, Debug)]
pub enum Side {
    Buy,
    Sell,
}

/// The only order kind this cycle places.
#[derive(Clone, Copy, PartialEq, Eq, Structural, Debug)]
pub enum OrderKind {
    Limit,
}

/// How long the exchange may keep the order working.
#[derive(Clone, Copy, PartialEq, Eq, Structural, Debug)]
pub enum TifPolicy {
    GoodTilCanceled,
    ImmediateOrCancel,
    FillOrKill,
}

/// A fully determined order, ready to hand to the account collaborator.
/// Price and quantity are strictly positive and already rounded to the
/// instrument's precision.
#[derive(Debug)]
pub struct OrderIntent {
    pub symbol: String,
    pub side: Side,
    pub kind: OrderKind,
    pub tif: TifPolicy,
    pub price: Dec,
    pub quantity: Dec,
}

impl OrderIntent {
    pub open spec fn wf(self) -> bool {
        self.price.wf() && self.quantity.wf() && self.price.units > 0 && self.quantity.units > 0
    }
}

/// The sizing configuration: notional budget, markup multiplier, and the
/// instrument's two precisions.
#[derive(Clone, Copy, PartialEq, Eq, Structural, Debug)]
pub struct OrderSizer {
    /// Quote-currency budget one order should be worth.
    pub notional: Dec,
    /// Multiplier on the reference price, e.g. 1.2 for a far sell.
    pub markup: Dec,
    /// Decimal places the instrument allows on prices.
    pub price_dp: u32,
    /// Decimal places the instrument allows on quantities.
    pub size_dp: u32,
}

impl OrderSizer {
    pub open spec fn wf(self) -> bool {
        self.notional.wf() && self.notional.units > 0 && self.markup.wf() && self.markup.units > 0
            && self.price_dp <= DEC_SCALE && self.size_dp <= DEC_SCALE
    }
}

/// Mantissa (at `DEC_SCALE`) of the limit price: `p * m` rounded half-up to
/// `dp_p` decimal places.
pub open spec fn limit_units(p: Dec, m: Dec, dp_p: nat) -> int
    recommends
        dp_p <= DEC_SCALE,
{
    div_half_up(p.val() * m.val(), pow10((2 * DEC_SCALE - dp_p) as nat) as int) * pow10(
        (DEC_SCALE - dp_p) as nat,
    )
}

/// Mantissa (at `DEC_SCALE`) of the quantity: `b` divided by the rounded
/// limit price — the price the order will actually carry — rounded half-up
/// to `dp_s` decimal places.
pub open spec fn quantity_units(p: Dec, m: Dec, b: Dec, dp_p: nat, dp_s: nat) -> int
    recommends
        dp_p <= DEC_SCALE,
        dp_s <= DEC_SCALE,
        limit_units(p, m, dp_p) > 0,
{
    div_half_up(b.val() * pow10(dp_s) as int, limit_units(p, m, dp_p)) * pow10(
        (DEC_SCALE - dp_s) as nat,
    )
}

/// Half-up division never exceeds its dividend.
proof fn lemma_div_half_up_le_self(a: int, b: int)
    requires
        0 <= a,
        0 < b,
    ensures
        div_half_up(a, b) <= a,
        0 <= div_half_up(a, b),
{
    assert(a <= b * a) by (nonlinear_arith)
        requires
            0 <= a,
            1 <= b,
    ;
    lemma_div_half_up_le(a, b, a);
    vstd::arithmetic::div_mod::lemma_div_pos_is_pos(a, b);
}

impl OrderSizer {
    /// The limit price and quantity for reference price `p`, or
    /// `InvalidQuantity` when the price is zero or a rounded result is zero
    /// or out of range.
    pub fn quote(&self, p: Dec) -> (r: Result<(Dec, Dec), ComputeError>)
        requires
            self.wf(),
            p.wf(),
        ensures
            match r {
                Ok(pq) => {
                    let (price, qty) = pq;
                    p.units > 0 && price.val() == limit_units(p, self.markup, self.price_dp as nat)
                        && qty.val() == quantity_units(
                        p,
                        self.markup,
                        self.notional,
                        self.price_dp as nat,
                        self.size_dp as nat,
                    ) && price.wf() && qty.wf() && price.units > 0 && qty.units > 0 && price.val()
                        % pow10((DEC_SCALE - self.price_dp) as nat) as int == 0 && qty.val()
                        % pow10((DEC_SCALE - self.size_dp) as nat) as int == 0
                },
                Err(e) => e == ComputeError::InvalidQuantity && (p.units == 0 || {
                    let lu = limit_units(p, self.markup, self.price_dp as nat);
                    let qu = quantity_units(
                        p,
                        self.markup,
                        self.notional,
                        self.price_dp as nat,
                        self.size_dp as nat,
                    );
                    lu == 0 || lu > DEC_MAX_UNITS || qu == 0 || qu > DEC_MAX_UNITS
                }),
            },
    {
        if p.units == 0 {
            return Err(ComputeError::InvalidQuantity);
        }
        proof {
            assert(1 <= p.val() * self.markup.val() && p.val() * self.markup.val()
                <= 1_000_000_000_000_000i128 * 1_000_000_000_000_000i128) by (nonlinear_arith)
                requires
                    1 <= p.val() <= 1_000_000_000_000_000i128,
                    1 <= self.markup.val() <= 1_000_000_000_000_000i128,
            ;
        }
        let raw: u128 = (p.units as u128) * (self.markup.units as u128);

        // Limit price: round p * m (carried at twice the scale) to price_dp.
        let step_p: u64 = pow10_u64(DEC_SCALE - self.price_dp);
        let div_p: u64 = pow10_u64(DEC_SCALE + (DEC_SCALE - self.price_dp));
        let lq: u128 = div_half_up_u128(raw, div_p as u128);
        proof {
            lemma_div_half_up_le_self(raw as int, div_p as int);
            assert(lq as int * step_p as int <= raw as int * step_p as int) by (nonlinear_arith)
                requires
                    lq as int <= raw as int,
                    0 <= step_p as int,
            ;
            assert((raw as int * step_p as int) < u128::MAX) by (nonlinear_arith)
                requires
                    raw as int <= 1_000_000_000_000_000i128 * 1_000_000_000_000_000i128,
                    step_p as int <= 10_000,
            ;
        }
        let lu: u128 = lq * (step_p as u128);
        if lu == 0 || lu > (DEC_MAX_UNITS as u128) {
            return Err(ComputeError::InvalidQuantity);
        }
        let price = Dec { units: lu as u64 };

        // Quantity: round b / limit to size_dp, the limit already rounded.
        let scale_q: u64 = pow10_u64(self.size_dp);
        let step_q: u64 = pow10_u64(DEC_SCALE - self.size_dp);
        proof {
            assert(self.notional.val() * scale_q as int <= 1_000_000_000_000_000i128
                * 10_000i128) by (nonlinear_arith)
                requires
                    self.notional.val() <= 1_000_000_000_000_000i128,
                    scale_q as int <= 10_000,
                    0 <= self.notional.val(),
            ;
        }
        let num: u128 = (self.notional.units as u128) * (scale_q as u128);
        let qq: u128 = div_half_up_u128(num, lu);
        proof {
            lemma_div_half_up_le_self(num as int, lu as int);
            assert(qq as int * step_q as int <= num as int * step_q as int) by (nonlinear_arith)
                requires
                    qq as int <= num as int,
                    0 <= step_q as int,
            ;
            assert((num as int * step_q as int) < u128::MAX) by (nonlinear_arith)
                requires
                    num as int <= 1_000_000_000_000_000i128 * 10_000i128,
                    step_q as int <= 10_000,
            ;
        }
        let qu: u128 = qq * (step_q as u128);
        if qu == 0 || qu > (DEC_MAX_UNITS as u128) {
            return Err(ComputeError::InvalidQuantity);
        }
        proof {
            vstd::arithmetic::div_mod::lemma_mod_multiples_basic(lq as int, step_p as int);
            vstd::arithmetic::div_mod::lemma_mod_multiples_basic(qq as int, step_q as int);
        }
        let qty = Dec { units: qu as u64 };
        Ok((price, qty))
    }
}

/// Law: the sized quantity prices the notional out to within half of one
/// quantity step valued at the limit price the order carries. With `l` the
/// rounded limit mantissa `limit_units(p, m, dp_p)`, `B = b·10^dp_s` and
/// `q = round_half_up(B / l)` — the quantity counted in size steps — the
/// absolute difference between `q·l` and `B` is at most `l / 2`; in values,
/// `|quantity · limit_price − b| ≤ limit_price · 10^(−dp_s) / 2`, one size
/// unit's notional at most. The quantity itself is
/// `q · 10^(DEC_SCALE − dp_s)` and is never negative.
pub proof fn lemma_quantity_tracks_notional(p: Dec, m: Dec, b: Dec, dp_p: nat, dp_s: nat)
    requires
        dp_p <= DEC_SCALE,
        dp_s <= DEC_SCALE,
        b.wf(),
        limit_units(p, m, dp_p) > 0,
    ensures
        ({
            let l = limit_units(p, m, dp_p);
            let scaled_b = b.val() * pow10(dp_s) as int;
            let q = div_half_up(scaled_b, l);
            2 * scaled_b <= 2 * q * l + l && 2 * q * l <= 2 * scaled_b + l && q >= 0
                && quantity_units(p, m, b, dp_p, dp_s) == q * pow10((DEC_SCALE - dp_s) as nat)
        }),
{
    let l = limit_units(p, m, dp_p);
    let scaled_b = b.val() * pow10(dp_s) as int;
    assert(0 <= b.val() * pow10(dp_s) as int) by (nonlinear_arith)
        requires
            0 <= b.val(),
            0 <= pow10(dp_s) as int,
    ;
    lemma_div_half_up_err(scaled_b, l);
    vstd::arithmetic::div_mod::lemma_div_pos_is_pos(scaled_b, l);
}

} // verus!
