use sma_crossover::average::Sma;
use sma_crossover::decision::{Decision, Direction, PercentChange};
use sma_crossover::engine::{SignalEngine, StrategyConfig};
use sma_crossover::ledger::{Position, PositionLedger};
use sma_crossover::sample::{InvalidSample, PriceSample};

fn engine_with(short_window: u32, long_window: u32, stop_loss_bp: u32) -> SignalEngine {
    SignalEngine::new(StrategyConfig {
        short_window,
        long_window,
        stop_loss_bp,
        ticks_per_unit: 1,
    })
    .unwrap()
}

fn sample(price: f64) -> PriceSample {
    PriceSample { timestamp: String::from("2024-01-01T00:00:00Z"), reading: price.to_bits() }
}

fn feed_all(engine: &mut SignalEngine, prices: &[i64]) {
    for price in prices {
        engine.process_ticks(*price).unwrap();
    }
}

#[test]
fn default_config_has_the_usual_parameters() {
    assert_eq!(
        StrategyConfig::default(),
        StrategyConfig { short_window: 5, long_window: 20, stop_loss_bp: 500, ticks_per_unit: 10_000 }
    );
}

#[test]
fn arguments_give_the_stop_loss_in_basis_points() {
    assert_eq!(
        StrategyConfig::from_arguments(5, 20, 5.0f64.to_bits()),
        Ok(StrategyConfig::default())
    );
    assert_eq!(
        StrategyConfig::from_arguments(3, 7, 2.5f64.to_bits()),
        Ok(StrategyConfig { short_window: 3, long_window: 7, stop_loss_bp: 250, ticks_per_unit: 10_000 })
    );
    assert_eq!(StrategyConfig::from_arguments(3, 7, 0.0f64.to_bits()).unwrap().stop_loss_bp, 0);
    assert_eq!(StrategyConfig::from_arguments(3, 7, 0.004f64.to_bits()).unwrap().stop_loss_bp, 0);
    assert_eq!(StrategyConfig::from_arguments(3, 7, 0.005f64.to_bits()).unwrap().stop_loss_bp, 1);
    assert_eq!(StrategyConfig::from_arguments(3, 7, 12.345f64.to_bits()).unwrap().stop_loss_bp, 1235);
    assert_eq!(
        StrategyConfig::from_arguments(3, 7, 42_949_672.95f64.to_bits()).unwrap().stop_loss_bp,
        u32::MAX
    );
}

#[test]
fn a_stop_loss_that_is_no_percentage_gives_no_parameters() {
    assert_eq!(
        StrategyConfig::from_arguments(5, 20, f64::NAN.to_bits()),
        Err(InvalidSample::NotFinite)
    );
    assert_eq!(
        StrategyConfig::from_arguments(5, 20, f64::INFINITY.to_bits()),
        Err(InvalidSample::NotFinite)
    );
    assert_eq!(
        StrategyConfig::from_arguments(5, 20, (-5.0f64).to_bits()),
        Err(InvalidSample::Negative)
    );
    assert_eq!(
        StrategyConfig::from_arguments(5, 20, 42_949_672.96f64.to_bits()),
        Err(InvalidSample::OutOfRange)
    );
    assert_eq!(
        StrategyConfig::from_arguments(5, 20, 1.0e300f64.to_bits()),
        Err(InvalidSample::OutOfRange)
    );
}

#[test]
fn sales_are_the_sell_signal_and_the_stop_loss() {
    let sma = Sma { sum: 1, window: 1 };
    let change = PercentChange { base: 100, value: 94 };
    assert!(Decision::SellSignal { price: 1, short_sma: sma, long_sma: sma }.is_sale());
    assert!(Decision::StopLossTriggered { price: 94, loss: change }.is_sale());
    assert!(!Decision::BuySignal { price: 1, short_sma: sma, long_sma: sma }.is_sale());
    assert!(!Decision::SpikeAlert { change, direction: Direction::Down }.is_sale());
}

#[test]
fn an_engine_needs_windows_that_hold_a_sample() {
    let mut config = StrategyConfig::default();
    config.short_window = 0;
    assert!(SignalEngine::new(config).is_none());
    config.short_window = 5;
    config.long_window = 0;
    assert!(SignalEngine::new(config).is_none());
    config.long_window = 1;
    assert!(SignalEngine::new(config).is_some());
}

#[test]
fn a_new_engine_is_flat_with_no_profit() {
    let engine = SignalEngine::new(StrategyConfig::default()).unwrap();
    assert_eq!(engine.ledger(), PositionLedger::new());
    assert_eq!(engine.stop_loss_bp(), 500);
    assert_eq!(engine.ticks_per_unit(), 10_000);
    assert_eq!(engine.tracker().short_window(), 5);
    assert_eq!(engine.tracker().long_window(), 20);
    assert_eq!(engine.tracker().observed(), 0);
}

#[test]
fn nothing_is_traded_before_the_long_window_is_full() {
    let mut engine = SignalEngine::new(StrategyConfig::default()).unwrap();
    // Prices rise by less than 2% a step, so the short average is above the
    // long one as soon as both exist, and no step is a spike.
    for sample in 1..=19i64 {
        let decisions = engine.process_ticks(1_000_000 + sample * 1_000).unwrap();
        assert_eq!(decisions, vec![], "sample {}", sample);
        assert_eq!(engine.ledger().position, Position::Flat);
    }
    let decisions = engine.process_ticks(1_020_000).unwrap();
    assert_eq!(
        decisions,
        vec![Decision::BuySignal {
            price: 1_020_000,
            short_sma: Sma { sum: 5 * 1_018_000, window: 5 },
            long_sma: Sma { sum: 20 * 1_000_000 + 210 * 1_000, window: 20 },
        }]
    );
    assert_eq!(engine.ledger().position, Position::Long);
}

#[test]
fn a_crossover_while_flat_buys_exactly_once() {
    let mut engine = engine_with(1, 2, 500);
    assert_eq!(engine.process_ticks(90).unwrap(), vec![]);
    let decisions = engine.process_ticks(100).unwrap();
    assert_eq!(
        decisions,
        vec![Decision::BuySignal {
            price: 100,
            short_sma: Sma { sum: 100, window: 1 },
            long_sma: Sma { sum: 190, window: 2 },
        }]
    );
    assert_eq!(
        engine.ledger(),
        PositionLedger { position: Position::Long, entry_price: 100, realized_profit: 0 }
    );
    // Still above on the next sample: the position is held, nothing is bought again.
    assert_eq!(engine.process_ticks(101).unwrap(), vec![]);
    assert_eq!(engine.ledger().entry(), Some(100));
}

#[test]
fn level_averages_do_not_buy() {
    let mut engine = engine_with(1, 2, 500);
    feed_all(&mut engine, &[100]);
    assert_eq!(engine.process_ticks(100).unwrap(), vec![]);
    assert_eq!(engine.ledger().position, Position::Flat);
    let mut same_windows = engine_with(3, 3, 500);
    feed_all(&mut same_windows, &[1, 2, 3]);
    assert_eq!(same_windows.process_ticks(400).unwrap(), vec![]);
    assert_eq!(same_windows.ledger().position, Position::Flat);
}

#[test]
fn level_averages_sell_a_held_position() {
    let mut engine = engine_with(1, 2, 500);
    feed_all(&mut engine, &[90, 100]);
    assert_eq!(engine.ledger().position, Position::Long);
    let decisions = engine.process_ticks(100).unwrap();
    assert_eq!(
        decisions,
        vec![Decision::SellSignal {
            price: 100,
            short_sma: Sma { sum: 100, window: 1 },
            long_sma: Sma { sum: 200, window: 2 },
        }]
    );
    assert_eq!(engine.ledger().position, Position::Flat);
    assert_eq!(engine.ledger().realized_profit, 0);
}

#[test]
fn buy_at_100_and_crossover_sell_at_110_realizes_10() {
    let mut engine = engine_with(1, 2, 500);
    feed_all(&mut engine, &[90, 100]);
    assert_eq!(engine.ledger().entry(), Some(100));
    assert_eq!(engine.process_ticks(120).unwrap(), vec![]);
    let decisions = engine.process_ticks(110).unwrap();
    assert_eq!(
        decisions,
        vec![Decision::SellSignal {
            price: 110,
            short_sma: Sma { sum: 110, window: 1 },
            long_sma: Sma { sum: 230, window: 2 },
        }]
    );
    assert_eq!(engine.ledger().position, Position::Flat);
    assert_eq!(engine.ledger().realized_profit, 10);
    assert_eq!(engine.ledger().entry(), None);
}

#[test]
fn buy_at_100_and_stop_loss_at_94_loses_6() {
    let mut engine = engine_with(1, 2, 500);
    feed_all(&mut engine, &[90, 100]);
    assert_eq!(engine.ledger().entry(), Some(100));
    let decisions = engine.process_ticks(94).unwrap();
    assert_eq!(
        decisions,
        vec![Decision::StopLossTriggered {
            price: 94,
            loss: PercentChange { base: 100, value: 94 },
        }]
    );
    assert_eq!(PercentChange { base: 100, value: 94 }.basis_points(), Some(-600));
    assert_eq!(engine.ledger().position, Position::Flat);
    assert_eq!(engine.ledger().realized_profit, -6);
}

#[test]
fn profit_adds_up_over_several_trades() {
    let mut engine = engine_with(1, 2, 500);
    feed_all(&mut engine, &[90, 100, 120, 110]);
    assert_eq!(engine.ledger().realized_profit, 10);
    feed_all(&mut engine, &[100]);
    assert_eq!(engine.ledger().position, Position::Flat);
    let bought = engine.process_ticks(101).unwrap();
    assert_eq!(bought.len(), 1);
    assert_eq!(engine.ledger().entry(), Some(101));
    assert_eq!(engine.ledger().realized_profit, 10);
    // The seventh sample: five earlier ones exist, so the fall is a spike too.
    let sold = engine.process_ticks(95).unwrap();
    assert_eq!(
        sold,
        vec![
            Decision::SpikeAlert {
                change: PercentChange { base: 101, value: 95 },
                direction: Direction::Down,
            },
            Decision::StopLossTriggered {
                price: 95,
                loss: PercentChange { base: 101, value: 95 },
            },
        ]
    );
    assert_eq!(engine.ledger().realized_profit, 4);
}

#[test]
fn stop_loss_wins_when_the_crossover_would_sell_too() {
    let mut engine = engine_with(1, 2, 500);
    feed_all(&mut engine, &[90, 100]);
    // At 94 the short average (94) is below the long one (97): the crossover
    // rule alone would sell as well.
    let decisions = engine.process_ticks(94).unwrap();
    assert_eq!(decisions.len(), 1);
    assert!(matches!(decisions[0], Decision::StopLossTriggered { price: 94, .. }));
    assert_eq!(engine.ledger().realized_profit, -6);
    assert_eq!(engine.ledger().position, Position::Flat);
}

#[test]
fn stop_loss_sells_while_the_short_average_is_still_above() {
    let mut engine = engine_with(2, 4, 500);
    feed_all(&mut engine, &[10, 10, 10]);
    let bought = engine.process_ticks(100).unwrap();
    assert_eq!(
        bought,
        vec![Decision::BuySignal {
            price: 100,
            short_sma: Sma { sum: 110, window: 2 },
            long_sma: Sma { sum: 130, window: 4 },
        }]
    );
    // Short average 95, long average 52.5: no crossover sale, but 10% down.
    let decisions = engine.process_ticks(90).unwrap();
    assert_eq!(
        decisions,
        vec![Decision::StopLossTriggered {
            price: 90,
            loss: PercentChange { base: 100, value: 90 },
        }]
    );
    assert_eq!(engine.ledger().realized_profit, -10);
    assert_eq!(engine.ledger().position, Position::Flat);
}

#[test]
fn stop_loss_fires_at_the_threshold_and_not_above_it() {
    let mut at_threshold = engine_with(2, 4, 500);
    feed_all(&mut at_threshold, &[10, 10, 10, 100]);
    let decisions = at_threshold.process_ticks(95).unwrap();
    assert!(matches!(decisions[..], [Decision::StopLossTriggered { price: 95, .. }]));
    let mut above_threshold = engine_with(2, 4, 500);
    feed_all(&mut above_threshold, &[10, 10, 10, 100]);
    assert_eq!(above_threshold.process_ticks(96).unwrap(), vec![]);
    assert_eq!(above_threshold.ledger().position, Position::Long);
}

#[test]
fn after_a_stop_loss_the_crossover_is_not_looked_at_on_that_sample() {
    let mut engine = engine_with(2, 4, 500);
    feed_all(&mut engine, &[10, 10, 10, 100]);
    // Short average is above the long one at 90, so a flat position would
    // buy. The stop-loss sells and the sample ends there.
    let decisions = engine.process_ticks(90).unwrap();
    assert_eq!(decisions.len(), 1);
    assert_eq!(engine.ledger().position, Position::Flat);
    // The next sample is free to buy again.
    let next = engine.process_ticks(91).unwrap();
    assert!(matches!(next[..], [Decision::BuySignal { price: 91, .. }]));
}

#[test]
fn an_entry_price_of_zero_never_stops_out() {
    let mut engine = engine_with(2, 3, 0);
    feed_all(&mut engine, &[0, 1]);
    // Short average 1/2, long average 1/3: a buy at zero.
    let bought = engine.process_ticks(0).unwrap();
    assert_eq!(
        bought,
        vec![Decision::BuySignal {
            price: 0,
            short_sma: Sma { sum: 1, window: 2 },
            long_sma: Sma { sum: 1, window: 3 },
        }]
    );
    assert_eq!(engine.ledger().entry(), Some(0));
    // No loss can be measured against an entry of zero, so even a stop-loss
    // of 0% does not fire; the crossover sells.
    let sold = engine.process_ticks(0).unwrap();
    assert_eq!(
        sold,
        vec![Decision::SellSignal {
            price: 0,
            short_sma: Sma { sum: 0, window: 2 },
            long_sma: Sma { sum: 1, window: 3 },
        }]
    );
    assert_eq!(engine.ledger().realized_profit, 0);
}

#[test]
fn a_zero_stop_loss_sells_on_any_sample_not_above_the_entry() {
    let mut engine = engine_with(2, 4, 0);
    feed_all(&mut engine, &[10, 10, 10, 100]);
    let decisions = engine.process_ticks(100).unwrap();
    assert_eq!(
        decisions,
        vec![Decision::StopLossTriggered {
            price: 100,
            loss: PercentChange { base: 100, value: 100 },
        }]
    );
    assert_eq!(engine.ledger().realized_profit, 0);
}

#[test]
fn no_spike_alert_before_five_earlier_samples() {
    let mut engine = engine_with(5, 20, 500);
    assert_eq!(engine.process_ticks(100).unwrap(), vec![]);
    assert_eq!(engine.process_ticks(103).unwrap(), vec![]);
    assert_eq!(engine.process_ticks(100).unwrap(), vec![]);
    assert_eq!(engine.process_ticks(200).unwrap(), vec![]);
    // The fifth sample has four earlier ones.
    assert_eq!(engine.process_ticks(100).unwrap(), vec![]);
}

#[test]
fn a_spike_after_five_samples_alerts_exactly_once() {
    let mut engine = engine_with(5, 20, 500);
    feed_all(&mut engine, &[100, 103, 100, 100, 100]);
    let decisions = engine.process_ticks(103).unwrap();
    assert_eq!(
        decisions,
        vec![Decision::SpikeAlert {
            change: PercentChange { base: 100, value: 103 },
            direction: Direction::Up,
        }]
    );
    assert_eq!(PercentChange { base: 100, value: 103 }.basis_points(), Some(300));
    let decisions = engine.process_ticks(100).unwrap();
    assert_eq!(
        decisions,
        vec![Decision::SpikeAlert {
            change: PercentChange { base: 103, value: 100 },
            direction: Direction::Down,
        }]
    );
    assert_eq!(engine.ledger(), PositionLedger::new());
}

#[test]
fn a_move_of_exactly_two_percent_is_no_spike() {
    let mut engine = engine_with(5, 20, 500);
    feed_all(&mut engine, &[100, 100, 100, 100, 100]);
    assert_eq!(engine.process_ticks(102).unwrap(), vec![]);
    let mut engine = engine_with(5, 20, 500);
    feed_all(&mut engine, &[100, 100, 100, 100, 100]);
    assert_eq!(engine.process_ticks(98).unwrap(), vec![]);
    let mut engine = engine_with(5, 20, 500);
    feed_all(&mut engine, &[10_000, 10_000, 10_000, 10_000, 10_000]);
    assert_eq!(engine.process_ticks(10_201).unwrap().len(), 1);
}

#[test]
fn the_same_spike_alerts_whatever_the_position() {
    let alert = Decision::SpikeAlert {
        change: PercentChange { base: 1000, value: 1030 },
        direction: Direction::Up,
    };
    // Never trades: the long window is not full.
    let mut flat = engine_with(5, 20, 500);
    feed_all(&mut flat, &[950, 960, 970, 980, 990, 1000]);
    assert_eq!(flat.ledger().position, Position::Flat);
    assert_eq!(flat.process_ticks(1030).unwrap(), vec![alert]);
    // Holds a position since the second sample.
    let mut long = engine_with(1, 2, 500);
    feed_all(&mut long, &[950, 960, 970, 980, 990, 1000]);
    assert_eq!(long.ledger().position, Position::Long);
    assert_eq!(long.process_ticks(1030).unwrap(), vec![alert]);
    assert_eq!(long.ledger().entry(), Some(960));
}

#[test]
fn a_spike_comes_before_the_trade_of_the_same_sample() {
    let mut engine = engine_with(1, 2, 500);
    feed_all(&mut engine, &[100, 100, 100, 100, 100]);
    let decisions = engine.process_ticks(110).unwrap();
    assert_eq!(
        decisions,
        vec![
            Decision::SpikeAlert {
                change: PercentChange { base: 100, value: 110 },
                direction: Direction::Up,
            },
            Decision::BuySignal {
                price: 110,
                short_sma: Sma { sum: 110, window: 1 },
                long_sma: Sma { sum: 210, window: 2 },
            },
        ]
    );
    let decisions = engine.process_ticks(99).unwrap();
    assert_eq!(
        decisions,
        vec![
            Decision::SpikeAlert {
                change: PercentChange { base: 110, value: 99 },
                direction: Direction::Down,
            },
            Decision::StopLossTriggered {
                price: 99,
                loss: PercentChange { base: 110, value: 99 },
            },
        ]
    );
    assert_eq!(engine.ledger().realized_profit, -11);
}

#[test]
fn a_rise_from_zero_is_a_spike() {
    let mut engine = engine_with(5, 20, 500);
    feed_all(&mut engine, &[0, 0, 0, 0, 0]);
    assert_eq!(engine.process_ticks(0).unwrap(), vec![]);
    assert_eq!(
        engine.process_ticks(1).unwrap(),
        vec![Decision::SpikeAlert {
            change: PercentChange { base: 0, value: 1 },
            direction: Direction::Up,
        }]
    );
}

#[test]
fn a_negative_price_is_turned_away_and_nothing_changes() {
    let mut engine = engine_with(1, 2, 500);
    feed_all(&mut engine, &[90, 100, 120]);
    let ledger = engine.ledger();
    let short_sum = engine.tracker().short_sum();
    let long_sum = engine.tracker().long_sum();
    assert_eq!(engine.process_ticks(-1), Err(InvalidSample::Negative));
    assert_eq!(engine.process_ticks(i64::MIN), Err(InvalidSample::Negative));
    assert_eq!(engine.ledger(), ledger);
    assert_eq!(engine.tracker().short_sum(), short_sum);
    assert_eq!(engine.tracker().long_sum(), long_sum);
    assert_eq!(engine.tracker().observed(), 3);
    assert_eq!(engine.tracker().latest(), Some(120));
    // The run goes on as if the bad sample had never come.
    let decisions = engine.process_ticks(110).unwrap();
    assert_eq!(
        decisions,
        vec![Decision::SellSignal {
            price: 110,
            short_sma: Sma { sum: 110, window: 1 },
            long_sma: Sma { sum: 230, window: 2 },
        }]
    );
    assert_eq!(engine.ledger().realized_profit, 10);
}

#[test]
fn a_negative_first_sample_leaves_the_engine_new() {
    let mut engine = engine_with(1, 1, 500);
    assert_eq!(engine.process_ticks(-5), Err(InvalidSample::Negative));
    assert_eq!(engine.tracker().observed(), 0);
    assert_eq!(engine.tracker().latest(), None);
    assert_eq!(engine.ledger(), PositionLedger::new());
}

#[test]
fn samples_are_processed_as_the_prices_they_stand_for() {
    let mut engine = SignalEngine::new(StrategyConfig {
        short_window: 1,
        long_window: 2,
        stop_loss_bp: 500,
        ticks_per_unit: 100,
    })
    .unwrap();
    assert_eq!(engine.process(&sample(90.0f64)).unwrap(), vec![]);
    let decisions = engine.process(&sample(100.25f64)).unwrap();
    assert_eq!(
        decisions,
        vec![Decision::BuySignal {
            price: 10_025,
            short_sma: Sma { sum: 10_025, window: 1 },
            long_sma: Sma { sum: 19_025, window: 2 },
        }]
    );
    let decisions = engine.process(&sample(94.0f64)).unwrap();
    assert_eq!(
        decisions,
        vec![Decision::StopLossTriggered {
            price: 9_400,
            loss: PercentChange { base: 10_025, value: 9_400 },
        }]
    );
    assert_eq!(engine.ledger().realized_profit, -625);
}

#[test]
fn samples_that_stand_for_no_price_change_nothing() {
    let mut engine = SignalEngine::new(StrategyConfig {
        short_window: 1,
        long_window: 2,
        stop_loss_bp: 500,
        ticks_per_unit: 100,
    })
    .unwrap();
    engine.process(&sample(90.0f64)).unwrap();
    engine.process(&sample(100.0f64)).unwrap();
    let ledger = engine.ledger();
    assert_eq!(engine.process(&sample(f64::NAN)), Err(InvalidSample::NotFinite));
    assert_eq!(engine.process(&sample(f64::INFINITY)), Err(InvalidSample::NotFinite));
    assert_eq!(engine.process(&sample((-94.0f64))), Err(InvalidSample::Negative));
    assert_eq!(engine.process(&sample(1.0e18f64)), Err(InvalidSample::OutOfRange));
    assert_eq!(engine.ledger(), ledger);
    assert_eq!(engine.tracker().observed(), 2);
    assert_eq!(engine.tracker().latest(), Some(10_000));
    assert_eq!(engine.tracker().long_sum(), 19_000);
}

#[test]
fn the_largest_prices_are_processed() {
    let mut engine = engine_with(2, 3, 500);
    feed_all(&mut engine, &[i64::MAX, i64::MAX, i64::MAX, i64::MAX, i64::MAX, i64::MAX]);
    assert_eq!(engine.ledger().position, Position::Flat);
    assert_eq!(engine.tracker().long_sum(), 3 * (i64::MAX as i128));
    let decisions = engine.process_ticks(0).unwrap();
    assert_eq!(
        decisions,
        vec![Decision::SpikeAlert {
            change: PercentChange { base: i64::MAX, value: 0 },
            direction: Direction::Down,
        }]
    );
}
