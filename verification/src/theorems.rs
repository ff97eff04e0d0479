//! What holds of the engine on every sample, proved from its rules.

use vstd::prelude::*;
use crate::decision::{Decision, Direction, PercentChange};
use crate::engine::{EngineView, SPIKE_LIMIT_BP, SPIKE_WARMUP};
use crate::ledger::Position;
use crate::tracker::average_over;

verus! {

/// An average is reported exactly when the history holds at least as many
/// prices as its window: with a window of twenty, the nineteenth price
/// yields none and the twentieth yields one.
pub proof fn lemma_average_needs_full_window(history: Seq<i64>, window: u32)
    ensures
        average_over(history, window) is Some <==> history.len() >= window,
        average_over(history, window) matches Some(sma) ==> sma.window == window,
{
}

/// Until the sample that fills both windows, the engine has no pair of
/// averages, trades nothing and leaves its ledger alone.
pub proof fn lemma_no_trade_before_windows_full(engine: EngineView, price: i64)
    ensures
        engine.averages(price) is Some <==> engine.tracker.history.len() + 1
            >= engine.tracker.short_window && engine.tracker.history.len() + 1
            >= engine.tracker.long_window,
        engine.averages(price) is None ==> engine.trade(price) is None && engine.after(
            price,
        ).ledger == engine.ledger,
{
}

/// When no position is held and the short average is strictly above the
/// long one, the engine emits exactly one buy signal, and afterwards holds a
/// position entered at the price of that sample.
pub proof fn lemma_crossover_buys_once(engine: EngineView, price: i64)
    requires
        engine.ledger.position == Position::Flat,
        engine.averages(price) matches Some((short_sma, long_sma)) && short_sma.above(long_sma),
    ensures
        engine.trade(price) == Some(
            Decision::BuySignal {
                price,
                short_sma: engine.averages(price)->Some_0.0,
                long_sma: engine.averages(price)->Some_0.1,
            },
        ),
        engine.decisions(price).len() >= 1,
        forall|i: int|
            0 <= i < engine.decisions(price).len() ==> (#[trigger] engine.decisions(
                price,
            )[i] is BuySignal <==> i == engine.decisions(price).len() - 1),
        engine.after(price).ledger.position == Position::Long,
        engine.after(price).ledger.entry_price == price,
        engine.after(price).ledger.realized_profit == engine.ledger.realized_profit,
{
}

/// When the averages are level, or the short one is below, nothing is
/// bought: the comparison is strict.
pub proof fn lemma_level_averages_do_not_buy(engine: EngineView, price: i64)
    requires
        engine.ledger.position == Position::Flat,
        engine.averages(price) matches Some((short_sma, long_sma)) && !short_sma.above(long_sma),
    ensures
        engine.trade(price) is None,
        engine.after(price).ledger == engine.ledger,
{
}

/// When the stop-loss is breached on a sample, the engine emits exactly one
/// stop-loss decision and no sell signal, whatever the averages say, and
/// the position is sold at the price of that sample.
pub proof fn lemma_stop_loss_comes_first(engine: EngineView, price: i64)
    requires
        engine.averages(price) is Some,
        engine.stop_loss_breached(price),
    ensures
        engine.trade(price) == Some(
            Decision::StopLossTriggered {
                price,
                loss: PercentChange { base: engine.ledger.entry_price, value: price },
            },
        ),
        engine.decisions(price).len() >= 1,
        forall|i: int|
            0 <= i < engine.decisions(price).len() ==> (#[trigger] engine.decisions(
                price,
            )[i] is StopLossTriggered <==> i == engine.decisions(price).len() - 1),
        forall|i: int|
            0 <= i < engine.decisions(price).len() ==> !(#[trigger] engine.decisions(
                price,
            )[i] is SellSignal),
        forall|i: int|
            0 <= i < engine.decisions(price).len() ==> !(#[trigger] engine.decisions(
                price,
            )[i] is BuySignal),
        engine.after(price).ledger == engine.ledger.sold(price),
        engine.after(price).ledger.position == Position::Flat,
        i128::MIN <= engine.ledger.realized_profit + (price - engine.ledger.entry_price)
            <= i128::MAX ==> engine.after(price).ledger.realized_profit
            == engine.ledger.realized_profit + (price - engine.ledger.entry_price),
{
}

/// In a run of fewer than `2^64` samples a breached stop-loss does all of
/// this exactly: one stop-loss decision, no buy and no sell signal on that
/// sample, no position afterwards, and the realised profit changed by the
/// difference between the price and the entry price.
pub proof fn lemma_stop_loss_in_any_run(engine: EngineView, price: i64)
    requires
        engine.sound(),
        price >= 0,
        engine.tracker.history.len() < u64::MAX,
        engine.averages(price) is Some,
        engine.stop_loss_breached(price),
    ensures
        engine.trade(price) == Some(
            Decision::StopLossTriggered {
                price,
                loss: PercentChange { base: engine.ledger.entry_price, value: price },
            },
        ),
        forall|i: int|
            0 <= i < engine.decisions(price).len() ==> (#[trigger] engine.decisions(
                price,
            )[i] is StopLossTriggered <==> i == engine.decisions(price).len() - 1),
        forall|i: int|
            0 <= i < engine.decisions(price).len() ==> !(#[trigger] engine.decisions(
                price,
            )[i] is SellSignal) && !(engine.decisions(price)[i] is BuySignal),
        engine.after(price).ledger.position == Position::Flat,
        engine.after(price).ledger.realized_profit == engine.ledger.realized_profit + (price
            - engine.ledger.entry_price),
{
    lemma_stop_loss_comes_first(engine, price);
    lemma_profit_fits_in_any_run(engine, price);
}

/// Every sale, by crossover or by stop-loss, adds the difference between
/// the sale price and the entry price to the realised profit and leaves no
/// position. The sum is exact as long as it fits an `i128`.
pub proof fn lemma_sale_realizes_difference(engine: EngineView, price: i64)
    requires
        engine.trade(price) matches Some(trade) && (trade is SellSignal
            || trade is StopLossTriggered),
        i128::MIN <= engine.ledger.realized_profit + (price - engine.ledger.entry_price)
            <= i128::MAX,
    ensures
        engine.ledger.position == Position::Long,
        engine.after(price).ledger.position == Position::Flat,
        engine.after(price).ledger.realized_profit == engine.ledger.realized_profit + (price
            - engine.ledger.entry_price),
{
}

/// In a run of fewer than `2^64` samples the sum of a sale always fits:
/// such an engine realises every difference exactly.
pub proof fn lemma_profit_fits_in_any_run(engine: EngineView, price: i64)
    requires
        engine.sound(),
        price >= 0,
        engine.ledger.position == Position::Long,
        engine.tracker.history.len() < u64::MAX,
    ensures
        i128::MIN <= engine.ledger.realized_profit + (price - engine.ledger.entry_price)
            <= i128::MAX,
{
}

/// The realised profit changes on a sale and on nothing else.
pub proof fn lemma_profit_moves_only_on_sale(engine: EngineView, price: i64)
    requires
        engine.trade(price) matches Some(trade) ==> trade is BuySignal,
    ensures
        engine.after(price).ledger.realized_profit == engine.ledger.realized_profit,
{
}

/// Whether a sample raises a spike alert, and which, depends on the number
/// of earlier samples, the previous price and the new price alone: two
/// engines past the warm-up that saw the same previous price raise the same
/// alert, whatever positions they hold and whatever their averages are.
pub proof fn lemma_spike_ignores_position(one: EngineView, other: EngineView, price: i64)
    requires
        one.tracker.history.len() >= SPIKE_WARMUP,
        other.tracker.history.len() >= SPIKE_WARMUP,
        one.tracker.history.last() == other.tracker.history.last(),
    ensures
        one.spike_alert(price) == other.spike_alert(price),
{
}

/// Before five earlier samples exist no spike is reported. After that a
/// move of more than two percent from the previous price is reported
/// exactly once, as the first decision, with the direction of the move.
/// A spike alert never touches the ledger.
pub proof fn lemma_spike_alert_rule(engine: EngineView, price: i64)
    ensures
        engine.tracker.history.len() < SPIKE_WARMUP ==> engine.spike_alert(price) is None,
        engine.spike_alert(price) is Some <==> engine.tracker.history.len() >= SPIKE_WARMUP && (
        PercentChange { base: engine.tracker.history.last(), value: price }).exceeds(
            SPIKE_LIMIT_BP as int,
        ),
        engine.spike_alert(price) matches Some(alert) ==> alert == (Decision::SpikeAlert {
            change: PercentChange { base: engine.tracker.history.last(), value: price },
            direction: if price > engine.tracker.history.last() {
                Direction::Up
            } else {
                Direction::Down
            },
        }),
        forall|i: int|
            0 <= i < engine.decisions(price).len() ==> (#[trigger] engine.decisions(
                price,
            )[i] is SpikeAlert <==> i == 0 && engine.spike_alert(price) is Some),
        engine.decisions(price).len() <= 2,
{
}

} // verus!
