//! The signal engine: one price in, zero or more decisions out.
//!
//! On every sample the engine feeds the tracker, looks for a price spike,
//! and, once both averages exist, applies the stop-loss rule and then the
//! crossover rule. What it does is written down once, as spec functions on
//! `EngineView`; `process` is proved to do exactly that.

use vstd::prelude::*;
use crate::average::{Sma, PRICE_SPAN};
use crate::decision::{Decision, Direction, PercentChange, BASIS_POINTS_PER_PERCENT};
use crate::ledger::{Position, PositionLedger};
use crate::sample::{quantize, quantized, InvalidSample, PriceSample};
use crate::tracker::{RollingWindowTracker, TrackerView};

verus! {

/// Number of earlier samples that must exist before a spike can be reported.
pub const SPIKE_WARMUP: u64 = 5;

/// A one-step move must be larger than this, in basis points, to be a spike.
pub const SPIKE_LIMIT_BP: u32 = 200;

/// Number of ticks in one unit of the quoted currency, unless configured
/// otherwise.
pub const DEFAULT_TICKS_PER_UNIT: u32 = 10_000;

/// The parameters of the strategy.
#[derive(Clone, Copy, Debug, PartialEq, Eq, Structural)]
pub struct StrategyConfig {
    /// Length of the short moving-average window, in samples.
    pub short_window: u32,
    /// Length of the long moving-average window, in samples.
    pub long_window: u32,
    /// Loss from the entry price, in basis points, at which a held position
    /// is sold.
    pub stop_loss_bp: u32,
    /// Number of ticks in one unit of the quoted currency.
    pub ticks_per_unit: u32,
}

impl Default for StrategyConfig {
    /// Windows of 5 and 20 samples, a stop-loss of 5%, ten thousand ticks to
    /// the unit.
    fn default() -> (config: Self)
        ensures
            config == (StrategyConfig {
                short_window: 5,
                long_window: 20,
                stop_loss_bp: 500,
                ticks_per_unit: DEFAULT_TICKS_PER_UNIT,
            }),
    {
        StrategyConfig {
            short_window: 5,
            long_window: 20,
            stop_loss_bp: 500,
            ticks_per_unit: DEFAULT_TICKS_PER_UNIT,
        }
    }
}

impl StrategyConfig {
    /// The parameters for two window lengths and a stop-loss given in
    /// percent, as the bits of a double-precision number. The percentage is
    /// rounded to the nearest basis point. It must be a number, not below
    /// zero, and small enough for its basis points to fit 32 bits.
    pub open spec fn configured(
        short_window: u32,
        long_window: u32,
        stop_loss_percent_bits: u64,
    ) -> Result<StrategyConfig, InvalidSample> {
        match quantized(stop_loss_percent_bits, BASIS_POINTS_PER_PERCENT) {
            Ok(basis_points) => if basis_points <= u32::MAX {
                Ok(
                    StrategyConfig {
                        short_window,
                        long_window,
                        stop_loss_bp: basis_points as u32,
                        ticks_per_unit: DEFAULT_TICKS_PER_UNIT,
                    },
                )
            } else {
                Err(InvalidSample::OutOfRange)
            },
            Err(reason) => Err(reason),
        }
    }

    /// Makes the parameters from two window lengths and a stop-loss in
    /// percent.
    pub fn from_arguments(
        short_window: u32,
        long_window: u32,
        stop_loss_percent_bits: u64,
    ) -> (config: Result<StrategyConfig, InvalidSample>)
        ensures
            config == Self::configured(short_window, long_window, stop_loss_percent_bits),
    {
        match quantize(stop_loss_percent_bits, BASIS_POINTS_PER_PERCENT) {
            Ok(basis_points) => {
                if basis_points <= 0xffff_ffff {
                    Ok(
                        StrategyConfig {
                            short_window,
                            long_window,
                            stop_loss_bp: basis_points as u32,
                            ticks_per_unit: DEFAULT_TICKS_PER_UNIT,
                        },
                    )
                } else {
                    Err(InvalidSample::OutOfRange)
                }
            },
            Err(reason) => Err(reason),
        }
    }
}

/// The one decision, if any, as a sequence.
pub open spec fn one_or_none(decision: Option<Decision>) -> Seq<Decision> {
    match decision {
        Some(d) => seq![d],
        None => Seq::empty(),
    }
}

/// What an engine stands for: its parameters, the prices it has accepted and
/// its ledger.
pub struct EngineView {
    pub tracker: TrackerView,
    pub ledger: PositionLedger,
    pub stop_loss_bp: u32,
    pub ticks_per_unit: u32,
}

impl EngineView {
    /// The spike alert that `price` raises, if any: enough earlier samples
    /// exist and the move from the previous price is larger than the limit.
    /// Neither the position nor the averages play a part.
    pub open spec fn spike_alert(self, price: i64) -> Option<Decision> {
        let history = self.tracker.history;
        let change = PercentChange { base: history.last(), value: price };
        if history.len() >= SPIKE_WARMUP && change.exceeds(SPIKE_LIMIT_BP as int) {
            Some(
                Decision::SpikeAlert {
                    change,
                    direction: if price > history.last() {
                        Direction::Up
                    } else {
                        Direction::Down
                    },
                },
            )
        } else {
            None
        }
    }

    /// Both averages with `price` taken in, once both windows are full.
    pub open spec fn averages(self, price: i64) -> Option<(Sma, Sma)> {
        let tracker = self.tracker.observe(price);
        match (tracker.short_average(), tracker.long_average()) {
            (Some(short_sma), Some(long_sma)) => Some((short_sma, long_sma)),
            _ => None,
        }
    }

    /// A position is held and `price` is at least the stop-loss percentage
    /// below its entry price.
    pub open spec fn stop_loss_breached(self, price: i64) -> bool {
        &&& self.ledger.position == Position::Long
        &&& (PercentChange { base: self.ledger.entry_price, value: price }).falls_by(
            self.stop_loss_bp as int,
        )
    }

    /// The trade that `price` leads to, if any. Without both averages there
    /// is none. A breached stop-loss sells and nothing else is looked at.
    /// Otherwise a flat position buys when the short average is strictly
    /// above the long one, and a long position sells when it is not.
    pub open spec fn trade(self, price: i64) -> Option<Decision> {
        match self.averages(price) {
            None => None,
            Some((short_sma, long_sma)) => {
                if self.stop_loss_breached(price) {
                    Some(
                        Decision::StopLossTriggered {
                            price,
                            loss: PercentChange { base: self.ledger.entry_price, value: price },
                        },
                    )
                } else if self.ledger.position == Position::Flat && short_sma.above(long_sma) {
                    Some(Decision::BuySignal { price, short_sma, long_sma })
                } else if self.ledger.position == Position::Long && !short_sma.above(long_sma) {
                    Some(Decision::SellSignal { price, short_sma, long_sma })
                } else {
                    None
                }
            },
        }
    }

    /// The ledger after the trade that `price` leads to.
    pub open spec fn ledger_after(self, price: i64) -> PositionLedger {
        match self.trade(price) {
            Some(Decision::BuySignal { .. }) => self.ledger.bought(price),
            Some(Decision::SellSignal { .. }) => self.ledger.sold(price),
            Some(Decision::StopLossTriggered { .. }) => self.ledger.sold(price),
            _ => self.ledger,
        }
    }

    /// Everything decided on `price`, in the order it is decided: the spike
    /// alert first, the trade second.
    pub open spec fn decisions(self, price: i64) -> Seq<Decision> {
        one_or_none(self.spike_alert(price)) + one_or_none(self.trade(price))
    }

    /// The state after `price` was accepted.
    pub open spec fn after(self, price: i64) -> EngineView {
        EngineView {
            tracker: self.tracker.observe(price),
            ledger: self.ledger_after(price),
            stop_loss_bp: self.stop_loss_bp,
            ticks_per_unit: self.ticks_per_unit,
        }
    }

    /// What holds of every state an engine can be in: no accepted price is
    /// negative, nor is the entry price of a held position, and the
    /// realised profit is no larger in size than what one sale per accepted
    /// sample could have brought.
    pub open spec fn sound(self) -> bool {
        &&& forall|i: int|
            0 <= i < self.tracker.history.len() ==> #[trigger] self.tracker.history[i] >= 0
        &&& self.ledger.position == Position::Long ==> self.ledger.entry_price >= 0
        &&& -(self.tracker.history.len() * PRICE_SPAN) <= self.ledger.realized_profit
            <= self.tracker.history.len() * PRICE_SPAN
    }
}

/// Accepting a price that is not negative keeps a sound state sound.
pub proof fn lemma_sound_is_kept(engine: EngineView, price: i64)
    requires
        engine.sound(),
        price >= 0,
    ensures
        engine.after(price).sound(),
{
}

/// The crossover engine with the state it owns.
pub struct SignalEngine {
    tracker: RollingWindowTracker,
    ledger: PositionLedger,
    stop_loss_bp: u32,
    ticks_per_unit: u32,
}

impl View for SignalEngine {
    type V = EngineView;

    closed spec fn view(&self) -> EngineView {
        EngineView {
            tracker: self.tracker@,
            ledger: self.ledger,
            stop_loss_bp: self.stop_loss_bp,
            ticks_per_unit: self.ticks_per_unit,
        }
    }
}

impl SignalEngine {
    /// The tracker is well formed and the state is sound.
    pub closed spec fn wf(&self) -> bool {
        &&& self.tracker.wf()
        &&& self@.sound()
    }

    /// An engine at its start: no sample seen, no position, no profit. Each
    /// window must hold at least one sample; otherwise there is no engine.
    pub fn new(config: StrategyConfig) -> (made: Option<Self>)
        ensures
            made is Some <==> config.short_window >= 1 && config.long_window >= 1,
            made matches Some(engine) ==> engine.wf() && engine@ == (EngineView {
                tracker: TrackerView {
                    short_window: config.short_window,
                    long_window: config.long_window,
                    history: Seq::<i64>::empty(),
                },
                ledger: PositionLedger {
                    position: Position::Flat,
                    entry_price: 0,
                    realized_profit: 0,
                },
                stop_loss_bp: config.stop_loss_bp,
                ticks_per_unit: config.ticks_per_unit,
            }),
    {
        match RollingWindowTracker::new(config.short_window, config.long_window) {
            Some(tracker) => Some(
                SignalEngine {
                    tracker,
                    ledger: PositionLedger::new(),
                    stop_loss_bp: config.stop_loss_bp,
                    ticks_per_unit: config.ticks_per_unit,
                },
            ),
            None => None,
        }
    }

    /// The rolling sums the engine keeps.
    pub fn tracker(&self) -> (tracker: &RollingWindowTracker)
        ensures
            tracker@ == self@.tracker,
            self.wf() ==> tracker.wf(),
    {
        &self.tracker
    }

    /// Position, entry price and realised profit.
    pub fn ledger(&self) -> (ledger: PositionLedger)
        ensures
            ledger == self@.ledger,
    {
        self.ledger
    }

    /// The stop-loss threshold in basis points.
    pub fn stop_loss_bp(&self) -> (threshold: u32)
        ensures
            threshold == self@.stop_loss_bp,
    {
        self.stop_loss_bp
    }

    /// Number of ticks in one unit of the quoted currency.
    pub fn ticks_per_unit(&self) -> (ticks: u32)
        ensures
            ticks == self@.ticks_per_unit,
    {
        self.ticks_per_unit
    }

    /// Processes one price, given in ticks. A negative price is turned away
    /// and nothing changes. Any other price is taken in, and the decisions
    /// returned and the state left behind are those that `EngineView` gives.
    pub fn process_ticks(&mut self, price: i64) -> (outcome: Result<Vec<Decision>, InvalidSample>)
        requires
            old(self).wf(),
        ensures
            final(self).wf(),
            price < 0 ==> outcome == Err::<Vec<Decision>, InvalidSample>(InvalidSample::Negative)
                && *final(self) == *old(self),
            price >= 0 ==> outcome is Ok && outcome->Ok_0@ == old(self)@.decisions(price)
                && final(self)@ == old(self)@.after(price),
    {
        if price < 0 {
            return Err(InvalidSample::Negative);
        }
        let ghost before = self@;
        proof {
            lemma_sound_is_kept(before, price);
        }
        let seen: u64 = self.tracker.observed();
        let previous: Option<i64> = self.tracker.latest();
        let averages: (Option<Sma>, Option<Sma>) = self.tracker.update(price);
        let mut decisions: Vec<Decision> = Vec::new();
        if seen >= SPIKE_WARMUP {
            if let Some(base) = previous {
                let change = PercentChange { base, value: price };
                if change.exceeds_bp(SPIKE_LIMIT_BP) {
                    let direction = if price > base {
                        Direction::Up
                    } else {
                        Direction::Down
                    };
                    decisions.push(Decision::SpikeAlert { change, direction });
                }
            }
        }
        match averages {
            (Some(short_sma), Some(long_sma)) => {
                let loss = PercentChange { base: self.ledger.entry_price, value: price };
                let holding: bool = match self.ledger.position {
                    Position::Long => true,
                    Position::Flat => false,
                };
                if holding && loss.falls_by_bp(self.stop_loss_bp) {
                    self.ledger.sell(price);
                    decisions.push(Decision::StopLossTriggered { price, loss });
                } else {
                    let above: bool = short_sma.exceeds(&long_sma);
                    if !holding && above {
                        self.ledger.buy(price);
                        decisions.push(Decision::BuySignal { price, short_sma, long_sma });
                    } else if holding && !above {
                        self.ledger.sell(price);
                        decisions.push(Decision::SellSignal { price, short_sma, long_sma });
                    }
                }
            },
            _ => {},
        }
        Ok(decisions)
    }

    /// Processes one sample. A sample whose reading stands for no price (it
    /// is not finite, below zero, or has too many ticks) is turned away and
    /// nothing changes. Any other is processed as the price it stands for.
    pub fn process(&mut self, sample: &PriceSample) -> (outcome: Result<
        Vec<Decision>,
        InvalidSample,
    >)
        requires
            old(self).wf(),
        ensures
            final(self).wf(),
            match quantized(sample.reading, old(self)@.ticks_per_unit) {
                Ok(price) => {
                    &&& outcome is Ok
                    &&& outcome->Ok_0@ == old(self)@.decisions(price)
                    &&& final(self)@ == old(self)@.after(price)
                },
                Err(reason) => {
                    &&& outcome == Err::<Vec<Decision>, InvalidSample>(reason)
                    &&& *final(self) == *old(self)
                },
            },
    {
        match quantize(sample.reading, self.ticks_per_unit) {
            Ok(price) => self.process_ticks(price),
            Err(reason) => Err(reason),
        }
    }
}

/// The state of a well-formed engine is sound.
pub proof fn lemma_engine_is_sound(engine: SignalEngine)
    requires
        engine.wf(),
    ensures
        engine@.sound(),
{
}

} // verus!
