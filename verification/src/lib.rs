//! A streaming moving-average crossover engine over fixed-point prices.
//!
//! The engine takes price samples one at a time, in the order they arrive,
//! and turns them into decisions: buy when the short moving average rises
//! above the long one, sell when it no longer is above or when the held
//! position has lost a set percentage, and raise an alert when the price
//! jumps in a single step.
//!
//! Prices are signed 64-bit counts of ticks. Every ratio the strategy looks
//! at (averages, percentage moves) is kept as an exact pair of integers, so
//! each rule is decided without rounding. Feeds quote prices as
//! double-precision numbers; `sample` turns the bits of such a number into
//! ticks.
//!
//! - `sample`: price samples and their conversion to ticks
//! - `average`, `tracker`: moving averages and the rolling sums behind them
//! - `decision`, `ledger`: what the engine emits and what it holds
//! - `engine`: the rules, as spec functions, and the code proved against them
//! - `theorems`: what follows from the rules for every sample
//! - `replay`, `feed`: the decisions of the two feed drivers
//! - `sink`: the choice of the notification sink

pub mod average;
pub mod decision;
pub mod engine;
pub mod feed;
pub mod ledger;
pub mod replay;
pub mod sample;
pub mod sink;
pub mod theorems;
pub mod tracker;
