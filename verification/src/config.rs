//! The immutable run configuration.
//!
//! Loaded and parsed by the caller before the loop starts (environment,
//! credentials and files are its business), validated here once, and never
//! mutated afterwards.

use vstd::prelude::*;

use crate::fixed::{Dec, DEC_SCALE};
use crate::sizing::OrderSizer;

verus! {

/// Everything one run needs: the instrument, the tick interval, the bound on
/// order placements, and the sizing parameters.
#[derive(Debug)]
pub struct CycleConfig {
    /// Instrument symbol the whole run trades.
    pub symbol: String,
    /// Seconds between ticks.
    pub interval_secs: u64,
    /// Bound on successful placements, and so on cancellations.
    pub max_order_n: u64,
    /// Quote-currency notional one order is worth.
    pub notional: Dec,
    /// Multiplier on the reference price, e.g. 1.2 for a far sell.
    pub markup: Dec,
    /// Decimal places the instrument allows on prices.
    pub price_dp: u32,
    /// Decimal places the instrument allows on quantities.
    pub size_dp: u32,
}

impl CycleConfig {
    pub open spec fn wf(self) -> bool {
        self.interval_secs >= 1 && self.max_order_n >= 1 && self.notional.wf()
            && self.notional.units > 0 && self.markup.wf() && self.markup.units > 0
            && self.price_dp <= DEC_SCALE && self.size_dp <= DEC_SCALE
    }

    /// Validates and builds the configuration; `None` exactly when a bound
    /// fails: a zero interval, bound or notional or markup, or a precision
    /// beyond the carried scale.
    pub fn new(
        symbol: String,
        interval_secs: u64,
        max_order_n: u64,
        notional: Dec,
        markup: Dec,
        price_dp: u32,
        size_dp: u32,
    ) -> (r: Option<CycleConfig>)
        ensures
            match r {
                Some(c) => c.symbol@ == symbol@ && c.interval_secs == interval_secs
                    && c.max_order_n == max_order_n && c.notional == notional && c.markup == markup
                    && c.price_dp == price_dp && c.size_dp == size_dp && c.wf(),
                None => !(interval_secs >= 1 && max_order_n >= 1 && notional.wf()
                    && notional.units > 0 && markup.wf() && markup.units > 0
                    && price_dp <= DEC_SCALE && size_dp <= DEC_SCALE),
            },
    {
        if interval_secs >= 1 && max_order_n >= 1 && notional.units <= crate::fixed::DEC_MAX_UNITS
            && notional.units > 0 && markup.units <= crate::fixed::DEC_MAX_UNITS
            && markup.units > 0 && price_dp <= DEC_SCALE && size_dp <= DEC_SCALE {
            Some(
                CycleConfig {
                    symbol,
                    interval_secs,
                    max_order_n,
                    notional,
                    markup,
                    price_dp,
                    size_dp,
                },
            )
        } else {
            None
        }
    }

    /// The sizer this configuration prescribes.
    pub fn sizer(&self) -> (s: OrderSizer)
        requires
            self.wf(),
        ensures
            s == (OrderSizer {
                notional: self.notional,
                markup: self.markup,
                price_dp: self.price_dp,
                size_dp: self.size_dp,
            }),
            s.wf(),
    {
        OrderSizer {
            notional: self.notional,
            markup: self.markup,
            price_dp: self.price_dp,
            size_dp: self.size_dp,
        }
    }
}

} // verus!
