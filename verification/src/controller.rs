//! The order-lifecycle state machine.
//!
//! Two states, read off `open_order`: idle (no open order) and order-open
//! (exactly one). Each tick the caller asks for the next action, performs
//! the network call it names, and applies the resulting event. The
//! controller itself never touches the network: it only decides, so every
//! decision is checked here.

use vstd::prelude::*;

use crate::config::CycleConfig;
use crate::depth::{ask_avg, avg_units, DepthSnapshot};
use crate::errors::ComputeError;
use crate::fixed::{Dec, DEC_MAX_UNITS};
use crate::sizing::{limit_units, quantity_units, OrderIntent, OrderKind, Side, TifPolicy};
use crate::sizing::OrderSizer;

verus! {

/// What the controller asks for at the top of a tick.
#[derive(Clone, Copy, PartialEq, Eq, Structural, Debug)]
pub enum TickAction {
    /// The terminal condition holds: stop ticking.
    Finish,
    /// One order is open: cancel it.
    CancelOrder { order_id: u64 },
    /// No order is open: fetch depth and try to place one.
    FetchDepth,
}

/// What the collaborators reported back during the tick.
#[derive(Clone, Copy, PartialEq, Eq, Structural, Debug)]
pub enum TickEvent {
    /// The depth fetch failed; transient, the next tick retries.
    DepthFailed,
    /// Depth arrived but no valid order could be computed from it.
    PlanFailed,
    /// A placement was accepted; the exchange returned this order id.
    Placed { order_id: u64 },
    /// The placement was rejected or failed; transient.
    PlaceFailed,
    /// The open order was cancelled.
    Cancelled,
    /// Cancelling the open order failed.
    CancelFailed,
}

/// How the run goes on after an event.
#[derive(Clone, Copy, PartialEq, Eq, Structural, Debug)]
pub enum StepOutcome {
    /// Keep ticking on schedule.
    Continue,
    /// A cancellation of a known open order failed: the exchange-side state
    /// is unknown and the run must end with a failure signal.
    Fatal,
}

/// The state one run carries between ticks: the configuration extract it
/// decides by, the two monotone counters, and at most one open order.
pub struct OrderLifecycleController {
    /// Symbol every order of this run trades.
    pub symbol: String,
    /// Sizing parameters.
    pub sizer: OrderSizer,
    /// Bound on successful placements.
    pub max_order_n: u64,
    /// Successful placements so far; never reset.
    pub open_count: u64,
    /// Successful cancellations so far; never reset.
    pub cancel_count: u64,
    /// The handle of the one open order, while one is open.
    pub open_order: Option<u64>,
}

impl OrderLifecycleController {
    /// The machine's invariant: the placement bound is positive and holds,
    /// and the counters track each other — one placement is uncancelled
    /// exactly while an order is open.
    pub open spec fn wf(self) -> bool {
        self.max_order_n >= 1 && self.sizer.wf() && self.open_count <= self.max_order_n && (
        match self.open_order {
            Some(_) => self.cancel_count + 1 == self.open_count,
            None => self.cancel_count == self.open_count,
        })
    }

    /// How many open-order handles the controller holds.
    pub open spec fn handle_count(self) -> nat {
        match self.open_order {
            Some(_) => 1nat,
            None => 0nat,
        }
    }

    /// The terminal condition, checked before any other action: every
    /// allowed placement has been made and cancelled.
    pub open spec fn done(self) -> bool {
        self.cancel_count >= self.max_order_n || (self.open_count >= self.max_order_n
            && self.open_order is None)
    }

    /// A fresh controller for one run: idle, counters at zero.
    pub fn new(cfg: &CycleConfig) -> (c: Self)
        requires
            cfg.wf(),
        ensures
            c.symbol@ == cfg.symbol@,
            c.sizer == (OrderSizer {
                notional: cfg.notional,
                markup: cfg.markup,
                price_dp: cfg.price_dp,
                size_dp: cfg.size_dp,
            }),
            c.max_order_n == cfg.max_order_n,
            c.open_count == 0,
            c.cancel_count == 0,
            c.open_order is None,
            c.wf(),
    {
        OrderLifecycleController {
            symbol: cfg.symbol.as_str().to_owned(),
            sizer: cfg.sizer(),
            max_order_n: cfg.max_order_n,
            open_count: 0,
            cancel_count: 0,
            open_order: None,
        }
    }

    /// The decision at the top of a tick: finish when done, cancel the open
    /// order when one is open, otherwise go for depth.
    pub fn next_action(&self) -> (a: TickAction)
        requires
            self.wf(),
        ensures
            self.done() ==> a == TickAction::Finish,
            !self.done() ==> match self.open_order {
                Some(oid) => a == (TickAction::CancelOrder { order_id: oid }),
                None => a == TickAction::FetchDepth,
            },
    {
        if self.cancel_count >= self.max_order_n {
            return TickAction::Finish;
        }
        match self.open_order {
            Some(oid) => TickAction::CancelOrder { order_id: oid },
            None => {
                if self.open_count >= self.max_order_n {
                    TickAction::Finish
                } else {
                    TickAction::FetchDepth
                }
            },
        }
    }

    /// From a fresh depth snapshot to a ready order: the reference price is
    /// the ask-side average, the order a far limit sell sized to the
    /// notional. Read-only — a failed plan leaves no trace and no counter
    /// moves.
    pub fn plan_order(&self, depth: &DepthSnapshot) -> (r: Result<OrderIntent, ComputeError>)
        requires
            self.wf(),
            depth.wf(),
        ensures
            match r {
                Ok(intent) => depth.asks@.len() > 0 && ({
                    let p = (Dec { units: avg_units(depth.asks@) as u64 });
                    intent.symbol@ == self.symbol@ && intent.side == Side::Sell && intent.kind
                        == OrderKind::Limit && intent.tif == TifPolicy::FillOrKill
                        && intent.price.val() == limit_units(
                        p,
                        self.sizer.markup,
                        self.sizer.price_dp as nat,
                    ) && intent.quantity.val() == quantity_units(
                        p,
                        self.sizer.markup,
                        self.sizer.notional,
                        self.sizer.price_dp as nat,
                        self.sizer.size_dp as nat,
                    ) && intent.wf()
                }),
                Err(e) => if e == ComputeError::InsufficientDepth {
                    depth.asks@.len() == 0
                } else {
                    depth.asks@.len() > 0 && ({
                        let p = (Dec { units: avg_units(depth.asks@) as u64 });
                        let lu = limit_units(p, self.sizer.markup, self.sizer.price_dp as nat);
                        let qu = quantity_units(
                            p,
                            self.sizer.markup,
                            self.sizer.notional,
                            self.sizer.price_dp as nat,
                            self.sizer.size_dp as nat,
                        );
                        p.units == 0 || lu == 0 || lu > DEC_MAX_UNITS || qu == 0 || qu
                            > DEC_MAX_UNITS
                    })
                },
            },
    {
        let p = match ask_avg(depth) {
            Ok(p) => p,
            Err(e) => {
                return Err(e);
            },
        };
        let quote = match self.sizer.quote(p) {
            Ok(q) => q,
            Err(e) => {
                return Err(e);
            },
        };
        let (price, quantity) = quote;
        Ok(
            OrderIntent {
                symbol: self.symbol.as_str().to_owned(),
                side: Side::Sell,
                kind: OrderKind::Limit,
                tif: TifPolicy::FillOrKill,
                price,
                quantity,
            },
        )
    }

    /// One event applied to the machine. Transient failures change nothing;
    /// a placement records the single handle and counts; a cancellation
    /// clears it and counts; a failed cancellation changes nothing and is
    /// fatal.
    pub fn apply(&mut self, e: TickEvent) -> (o: StepOutcome)
        requires
            old(self).wf(),
            (e matches TickEvent::Placed { .. }) ==> old(self).open_order is None
                && old(self).open_count < old(self).max_order_n,
            (e == TickEvent::Cancelled || e == TickEvent::CancelFailed)
                ==> old(self).open_order is Some,
        ensures
            final(self).wf(),
            final(self).symbol@ == old(self).symbol@,
            final(self).sizer == old(self).sizer,
            final(self).max_order_n == old(self).max_order_n,
            match e {
                TickEvent::Placed { order_id } => final(self).open_order == Some(order_id)
                    && final(self).open_count == old(self).open_count + 1
                    && final(self).cancel_count == old(self).cancel_count
                    && o == StepOutcome::Continue,
                TickEvent::Cancelled => final(self).open_order is None
                    && final(self).cancel_count == old(self).cancel_count + 1
                    && final(self).open_count == old(self).open_count
                    && o == StepOutcome::Continue,
                TickEvent::CancelFailed => final(self).open_order == old(self).open_order
                    && final(self).open_count == old(self).open_count
                    && final(self).cancel_count == old(self).cancel_count
                    && o == StepOutcome::Fatal,
                _ => final(self).open_order == old(self).open_order
                    && final(self).open_count == old(self).open_count
                    && final(self).cancel_count == old(self).cancel_count
                    && o == StepOutcome::Continue,
            },
    {
        match e {
            TickEvent::Placed { order_id } => {
                self.open_order = Some(order_id);
                self.open_count = self.open_count + 1;
                StepOutcome::Continue
            },
            TickEvent::Cancelled => {
                self.open_order = None;
                self.cancel_count = self.cancel_count + 1;
                StepOutcome::Continue
            },
            TickEvent::CancelFailed => StepOutcome::Fatal,
            _ => StepOutcome::Continue,
        }
    }
}

/// Law: at any instant the controller holds zero or exactly one open-order
/// handle, never two — the handle lives in a single optional slot.
pub proof fn lemma_single_handle(c: OrderLifecycleController)
    ensures
        c.handle_count() <= 1,
{
}

/// The state after one successful placement (of order `oid`) followed by
/// the successful cancellation the machine then demands.
pub open spec fn place_cancel_round(c: OrderLifecycleController, oid: u64) -> (
    OrderLifecycleController
) {
    OrderLifecycleController {
        open_count: (c.open_count + 1) as u64,
        cancel_count: (c.cancel_count + 1) as u64,
        open_order: None,
        ..c
    }
}

/// The state after one place-then-cancel round for each id in `oids`.
pub open spec fn run_rounds(c: OrderLifecycleController, oids: Seq<u64>) -> (
    OrderLifecycleController
)
    decreases oids.len(),
{
    if oids.len() == 0 {
        c
    } else {
        run_rounds(place_cancel_round(c, oids[0]), oids.drop_first())
    }
}

/// Law: with `max_order_n = k`, the loop performs at most `k` successful
/// placements — `open_count` never passes `k` — and once each remaining
/// placement has been followed by a successful cancellation, both counters
/// stand at `k`, the terminal condition holds, and `next_action` answers
/// `Finish`. A round here is `apply(Placed)` followed by `apply(Cancelled)`,
/// exactly as their contracts describe.
pub proof fn lemma_cycle_terminates(c: OrderLifecycleController, oids: Seq<u64>)
    requires
        c.wf(),
        c.open_order is None,
        oids.len() == c.max_order_n - c.open_count,
    ensures
        run_rounds(c, oids).wf(),
        run_rounds(c, oids).open_order is None,
        run_rounds(c, oids).open_count == c.max_order_n,
        run_rounds(c, oids).cancel_count == c.max_order_n,
        run_rounds(c, oids).done(),
    decreases oids.len(),
{
    if oids.len() == 0 {
    } else {
        lemma_cycle_terminates(place_cancel_round(c, oids[0]), oids.drop_first());
    }
}

} // verus!
