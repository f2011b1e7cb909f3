use order_cycle::config::CycleConfig;
use order_cycle::controller::{OrderLifecycleController, StepOutcome, TickAction, TickEvent};
use order_cycle::depth::{ask_avg, bid_avg, DepthSnapshot};
use order_cycle::errors::ComputeError;
use order_cycle::fixed::{Dec, DEC_ONE};
use order_cycle::scheduler::{CyclePhase, CycleScheduler, SchedulerStep};
use order_cycle::sizing::{OrderKind, OrderSizer, Side, TifPolicy};

fn ten_level_book() -> DepthSnapshot {
    let mut d = DepthSnapshot::new();
    for i in 0..10u64 {
        d.push_ask(Dec::from_whole(100 + i), Dec::from_whole(1));
    }
    for i in 0..10u64 {
        d.push_bid(Dec::from_whole(99 - i), Dec::from_whole(1));
    }
    d
}

#[test]
fn ask_avg_ten_levels() {
    let d = ten_level_book();
    let p = ask_avg(&d).unwrap();
    // mean of 100..=109 is 104.5
    assert_eq!(p.units, 1_045_000);
}

#[test]
fn bid_avg_ten_levels() {
    let d = ten_level_book();
    let p = bid_avg(&d).unwrap();
    // mean of 90..=99 is 94.5
    assert_eq!(p.units, 945_000);
}

#[test]
fn ask_avg_short_book() {
    let mut d = DepthSnapshot::new();
    d.push_ask(Dec::from_whole(100), Dec::from_whole(1));
    d.push_ask(Dec::from_whole(101), Dec::from_whole(1));
    let p = ask_avg(&d).unwrap();
    // mean over min(10, 2) = 2 levels: 100.5
    assert_eq!(p.units, 1_005_000);
}

#[test]
fn ask_avg_eleven_levels_ignores_eleventh() {
    let mut d = ten_level_book();
    d.push_ask(Dec::from_whole(1_000), Dec::from_whole(1));
    let p = ask_avg(&d).unwrap();
    assert_eq!(p.units, 1_045_000);
}

#[test]
fn ask_avg_empty_side_is_insufficient_depth() {
    let d = DepthSnapshot::new();
    assert!(matches!(ask_avg(&d), Err(ComputeError::InsufficientDepth)));
    assert!(matches!(bid_avg(&d), Err(ComputeError::InsufficientDepth)));
}

#[test]
fn round_half_up_ties_go_up() {
    // 2.5 rounded to whole units is 3
    let d = Dec::new(25_000).round_dp(0);
    assert_eq!(d.units, 30_000);
    // 0.25 rounded to one place is 0.3
    let d = Dec::new(2_500).round_dp(1);
    assert_eq!(d.units, 3_000);
    // 1.04 rounded to one place is 1.0
    let d = Dec::new(10_400).round_dp(1);
    assert_eq!(d.units, 10_000);
    // full precision is untouched
    let d = Dec::new(12_345).round_dp(4);
    assert_eq!(d.units, 12_345);
}

fn scenario_sizer() -> OrderSizer {
    OrderSizer {
        notional: Dec::from_whole(1_000),
        markup: Dec::new(12_000), // 1.2
        price_dp: 3,
        size_dp: 0,
    }
}

#[test]
fn quote_scenario_values() {
    // reference 104.5, markup 1.2 -> limit 125.4 at three places;
    // 1000 / 125.4 = 7.974... -> quantity 8 at zero places
    let (price, qty) = scenario_sizer().quote(Dec::new(1_045_000)).unwrap();
    assert_eq!(price.units, 1_254_000);
    assert_eq!(qty.units, 8 * DEC_ONE);
}

#[test]
fn quote_zero_price_is_invalid() {
    let r = scenario_sizer().quote(Dec::new(0));
    assert!(matches!(r, Err(ComputeError::InvalidQuantity)));
}

#[test]
fn quote_quantity_collapsing_to_zero_is_invalid() {
    // 0.4 quote units at price 100: 0.004, which rounds to zero quantity
    let s = OrderSizer {
        notional: Dec::new(4_000),
        markup: Dec::new(10_000),
        price_dp: 3,
        size_dp: 0,
    };
    let r = s.quote(Dec::from_whole(100));
    assert!(matches!(r, Err(ComputeError::InvalidQuantity)));
}

#[test]
fn quote_quantity_prices_out_notional_within_half_step() {
    let s = scenario_sizer();
    let (price, qty) = s.quote(Dec::new(1_045_000)).unwrap();
    // |q * l - b| <= l / 2, with q the quantity in whole size steps and l
    // the rounded limit price the order carries (size_dp = 0)
    let l: u128 = price.units as u128;
    let scaled_b: u128 = s.notional.units as u128;
    let q: u128 = (qty.units / DEC_ONE) as u128;
    let diff = if q * l > scaled_b { q * l - scaled_b } else { scaled_b - q * l };
    assert!(2 * diff <= l);
    // and the quantity is a whole multiple of the size step
    assert_eq!(qty.units % DEC_ONE, 0);
}

#[test]
fn quote_divides_by_rounded_limit() {
    // p = 0.0005, markup 1.2: the raw product 0.0006 rounds up to a limit
    // of 0.001, and the quantity divides by that rounded limit:
    // 1000 / 0.001 = 1,000,000 — not 1000 / 0.0006
    let s = scenario_sizer();
    let (price, qty) = s.quote(Dec::new(5)).unwrap();
    assert_eq!(price.units, 10);
    assert_eq!(qty.units, 1_000_000 * DEC_ONE);
}

fn scenario_config() -> CycleConfig {
    CycleConfig::new(
        String::from("BTCUSDT"),
        5,
        1,
        Dec::from_whole(1_000),
        Dec::new(12_000),
        3,
        0,
    )
    .unwrap()
}

#[test]
fn config_rejects_zero_bound() {
    let r = CycleConfig::new(
        String::from("BTCUSDT"),
        5,
        0,
        Dec::from_whole(1_000),
        Dec::new(12_000),
        3,
        0,
    );
    assert!(r.is_none());
}

#[test]
fn config_rejects_zero_notional() {
    let r = CycleConfig::new(
        String::from("BTCUSDT"),
        5,
        1,
        Dec::new(0),
        Dec::new(12_000),
        3,
        0,
    );
    assert!(r.is_none());
}

#[test]
fn one_order_cycle_runs_to_completion() {
    // max_order_n = 1: one placement, one cancellation, then finish
    let cfg = scenario_config();
    let mut c = OrderLifecycleController::new(&cfg);

    assert_eq!(c.next_action(), TickAction::FetchDepth);
    let intent = c.plan_order(&ten_level_book()).unwrap();
    assert_eq!(intent.symbol.as_str(), "BTCUSDT");
    assert_eq!(intent.side, Side::Sell);
    assert_eq!(intent.kind, OrderKind::Limit);
    assert_eq!(intent.tif, TifPolicy::FillOrKill);
    assert_eq!(intent.price.units, 1_254_000);
    assert_eq!(intent.quantity.units, 8 * DEC_ONE);

    assert_eq!(c.apply(TickEvent::Placed { order_id: 42 }), StepOutcome::Continue);
    assert_eq!(c.open_count, 1);
    assert_eq!(c.open_order, Some(42));

    assert_eq!(c.next_action(), TickAction::CancelOrder { order_id: 42 });
    assert_eq!(c.apply(TickEvent::Cancelled), StepOutcome::Continue);
    assert_eq!(c.cancel_count, 1);
    assert_eq!(c.open_order, None);

    assert_eq!(c.next_action(), TickAction::Finish);
}

#[test]
fn depth_failure_skips_tick_and_retries() {
    let cfg = scenario_config();
    let mut c = OrderLifecycleController::new(&cfg);
    assert_eq!(c.apply(TickEvent::DepthFailed), StepOutcome::Continue);
    assert_eq!(c.open_count, 0);
    assert_eq!(c.cancel_count, 0);
    assert_eq!(c.open_order, None);
    // the next tick tries depth again
    assert_eq!(c.next_action(), TickAction::FetchDepth);
}

#[test]
fn place_failure_keeps_counters() {
    let cfg = scenario_config();
    let mut c = OrderLifecycleController::new(&cfg);
    assert_eq!(c.apply(TickEvent::PlaceFailed), StepOutcome::Continue);
    assert_eq!(c.open_count, 0);
    assert_eq!(c.next_action(), TickAction::FetchDepth);
}

#[test]
fn empty_book_plan_fails_and_changes_nothing() {
    let cfg = scenario_config();
    let c = OrderLifecycleController::new(&cfg);
    let r = c.plan_order(&DepthSnapshot::new());
    assert!(matches!(r, Err(ComputeError::InsufficientDepth)));
    assert_eq!(c.open_count, 0);
    assert_eq!(c.cancel_count, 0);
}

#[test]
fn cancel_failure_is_fatal() {
    let cfg = scenario_config();
    let mut c = OrderLifecycleController::new(&cfg);
    c.apply(TickEvent::Placed { order_id: 7 });
    assert_eq!(c.apply(TickEvent::CancelFailed), StepOutcome::Fatal);
    // the handle and counters are untouched: the exchange is authoritative
    assert_eq!(c.open_order, Some(7));
    assert_eq!(c.open_count, 1);
    assert_eq!(c.cancel_count, 0);
}

#[test]
fn scheduler_envelope_in_order() {
    let mut s = CycleScheduler::new(5);
    assert_eq!(s.next_step(), SchedulerStep::Purge);
    // a failed opening purge does not block the run
    s.purge_finished(false);
    assert_eq!(s.phase, CyclePhase::Running);
    assert_eq!(s.next_step(), SchedulerStep::RunTick);
    s.run_finished(StepOutcome::Continue);
    assert_eq!(s.next_step(), SchedulerStep::Purge);
    s.purge_finished(true);
    assert_eq!(s.next_step(), SchedulerStep::Stop);
    assert!(!s.fatal);
}

#[test]
fn fatal_tick_still_purges_then_signals() {
    let mut s = CycleScheduler::new(5);
    s.purge_finished(true);
    s.run_finished(StepOutcome::Fatal);
    // the closing purge still runs, and the failure is kept for the exit
    assert_eq!(s.next_step(), SchedulerStep::Purge);
    s.purge_finished(false);
    assert_eq!(s.next_step(), SchedulerStep::Stop);
    assert!(s.fatal);
}

#[test]
fn two_order_cycle_counts_to_bound() {
    let cfg = CycleConfig::new(
        String::from("BTCUSDT"),
        5,
        2,
        Dec::from_whole(1_000),
        Dec::new(12_000),
        3,
        0,
    )
    .unwrap();
    let mut c = OrderLifecycleController::new(&cfg);
    for id in [10u64, 11u64] {
        assert_eq!(c.next_action(), TickAction::FetchDepth);
        c.apply(TickEvent::Placed { order_id: id });
        assert_eq!(c.next_action(), TickAction::CancelOrder { order_id: id });
        c.apply(TickEvent::Cancelled);
    }
    assert_eq!(c.open_count, 2);
    assert_eq!(c.cancel_count, 2);
    assert_eq!(c.next_action(), TickAction::Finish);
}
