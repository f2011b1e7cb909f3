//! Order-book depth and the reference-price estimator.
//!
//! A `DepthSnapshot` is what one depth request hands back: ask and bid
//! levels, best price first, possibly fewer than the sampling depth. The
//! estimator averages the prices of the first `DEPTH_SAMPLE` levels of a
//! side and signals `InsufficientDepth` instead of dividing by zero when the
//! side is empty.

use vstd::prelude::*;

use crate::errors::ComputeError;
use crate::fixed::{div_half_up, div_half_up_u128, lemma_div_half_up_le, Dec, DEC_MAX_UNITS};

verus! {

/// How many levels from the top of the book enter each average.
pub const DEPTH_SAMPLE: usize = 10;

/// One price level of the book: a price and the quantity resting at it.
#[derive(Clone, Copy, PartialEq, Eq, Structural, Debug)]
pub struct DepthLevel {
    pub price: Dec,
    pub qty: Dec,
}

impl DepthLevel {
    pub open spec fn wf(self) -> bool {
        self.price.wf() && self.qty.wf()
    }
}

/// Top-of-book depth for one symbol, best price first on each side. Either
/// side may hold fewer levels than the sampling depth.
pub struct DepthSnapshot {
    pub asks: Vec<DepthLevel>,
    pub bids: Vec<DepthLevel>,
}

impl DepthSnapshot {
    pub open spec fn wf(self) -> bool {
        (forall|i: int| 0 <= i < self.asks@.len() ==> self.asks@[i].wf()) && (forall|i: int|
            0 <= i < self.bids@.len() ==> self.bids@[i].wf())
    }

    pub fn new() -> (d: DepthSnapshot)
        ensures
            d.asks@.len() == 0,
            d.bids@.len() == 0,
            d.wf(),
    {
        DepthSnapshot { asks: Vec::new(), bids: Vec::new() }
    }

    pub fn push_ask(&mut self, price: Dec, qty: Dec)
        requires
            old(self).wf(),
            price.wf(),
            qty.wf(),
        ensures
            final(self).asks@ == old(self).asks@.push(DepthLevel { price, qty }),
            final(self).bids@ == old(self).bids@,
            final(self).wf(),
    {
        self.asks.push(DepthLevel { price, qty });
    }

    pub fn push_bid(&mut self, price: Dec, qty: Dec)
        requires
            old(self).wf(),
            price.wf(),
            qty.wf(),
        ensures
            final(self).bids@ == old(self).bids@.push(DepthLevel { price, qty }),
            final(self).asks@ == old(self).asks@,
            final(self).wf(),
    {
        self.bids.push(DepthLevel { price, qty });
    }
}

/// Sum of the prices (as mantissas) of the first `n` levels.
pub open spec fn sum_prices(s: Seq<DepthLevel>, n: int) -> int
    recommends
        0 <= n <= s.len(),
    decreases n,
{
    if n <= 0 {
        0
    } else {
        sum_prices(s, n - 1) + s[n - 1].price.val()
    }
}

/// How many levels of `s` enter the average: `min(DEPTH_SAMPLE, len)`.
pub open spec fn sample_len(s: Seq<DepthLevel>) -> int {
    if s.len() < DEPTH_SAMPLE {
        s.len() as int
    } else {
        DEPTH_SAMPLE as int
    }
}

/// Mantissa of the arithmetic mean of the first `sample_len(s)` prices,
/// rounded half-up at the carried scale.
pub open spec fn avg_units(s: Seq<DepthLevel>) -> int
    recommends
        s.len() > 0,
{
    div_half_up(sum_prices(s, sample_len(s)), sample_len(s))
}

/// Prices are non-negative, so their partial sums are too.
proof fn lemma_sum_prices_nonneg(s: Seq<DepthLevel>, n: int)
    requires
        n <= s.len(),
    ensures
        0 <= sum_prices(s, n),
    decreases n,
{
    if n > 0 {
        lemma_sum_prices_nonneg(s, n - 1);
    }
}

/// Law: the estimator's value is the arithmetic mean of the first
/// `k = min(DEPTH_SAMPLE, len)` prices, to the half-tick the carried scale
/// can resolve: `|avg · k − sum| ≤ k / 2`.
pub proof fn lemma_avg_is_mean(s: Seq<DepthLevel>)
    requires
        s.len() > 0,
    ensures
        ({
            let k = sample_len(s);
            let sum = sum_prices(s, k);
            2 * sum <= 2 * avg_units(s) * k + k && 2 * avg_units(s) * k <= 2 * sum + k
        }),
{
    let k = sample_len(s);
    lemma_sum_prices_nonneg(s, k);
    crate::fixed::lemma_div_half_up_err(sum_prices(s, k), k);
}

/// The arithmetic mean of the first `min(DEPTH_SAMPLE, len)` prices of a
/// side, half-up at the carried scale; `InsufficientDepth` on an empty side.
fn avg_front(levels: &Vec<DepthLevel>) -> (r: Result<Dec, ComputeError>)
    requires
        forall|i: int| 0 <= i < levels@.len() ==> levels@[i].wf(),
    ensures
        match r {
            Ok(d) => levels@.len() > 0 && d.val() == avg_units(levels@) && d.wf(),
            Err(e) => e == ComputeError::InsufficientDepth && levels@.len() == 0,
        },
{
    if levels.len() == 0 {
        return Err(ComputeError::InsufficientDepth);
    }
    let k: usize = if levels.len() < DEPTH_SAMPLE {
        levels.len()
    } else {
        DEPTH_SAMPLE
    };
    let mut sum: u64 = 0;
    let mut i: usize = 0;
    while i < k
        invariant
            0 <= i <= k,
            k as int == sample_len(levels@),
            k <= levels@.len(),
            k <= DEPTH_SAMPLE,
            forall|j: int| 0 <= j < levels@.len() ==> levels@[j].wf(),
            sum as int == sum_prices(levels@, i as int),
            sum as int <= i as int * DEC_MAX_UNITS,
        decreases k - i,
    {
        let lv = levels[i];
        sum = sum + lv.price.units;
        i = i + 1;
    }
    proof {
        lemma_div_half_up_le(sum as int, k as int, DEC_MAX_UNITS as int);
        vstd::arithmetic::div_mod::lemma_div_pos_is_pos(sum as int, k as int);
    }
    let q: u128 = div_half_up_u128(sum as u128, k as u128);
    Ok(Dec { units: q as u64 })
}

/// Reference price of the sell side: mean of the best ask prices.
pub fn ask_avg(d: &DepthSnapshot) -> (r: Result<Dec, ComputeError>)
    requires
        d.wf(),
    ensures
        match r {
            Ok(p) => d.asks@.len() > 0 && p.val() == avg_units(d.asks@) && p.wf(),
            Err(e) => e == ComputeError::InsufficientDepth && d.asks@.len() == 0,
        },
{
    avg_front(&d.asks)
}

/// Reference price of the buy side: mean of the best bid prices.
pub fn bid_avg(d: &DepthSnapshot) -> (r: Result<Dec, ComputeError>)
    requires
        d.wf(),
    ensures
        match r {
            Ok(p) => d.bids@.len() > 0 && p.val() == avg_units(d.bids@) && p.wf(),
            Err(e) => e == ComputeError::InsufficientDepth && d.bids@.len() == 0,
        },
{
    avg_front(&d.bids)
}

} // verus!
