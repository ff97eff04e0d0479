//! What the engine tells its caller: alerts and trade signals.

use vstd::prelude::*;
use crate::average::Sma;

verus! {

/// Hundredths of a percent in one whole, so that `1%` is `100` basis points
/// and a ratio `r` is `r * BASIS_POINTS_PER_UNIT` basis points.
pub const BASIS_POINTS_PER_UNIT: i128 = 10_000;

/// Basis points in one percent.
pub const BASIS_POINTS_PER_PERCENT: u32 = 100;

/// Distance of `x` from zero.
pub open spec fn magnitude(x: int) -> int {
    if x < 0 {
        -x
    } else {
        x
    }
}

/// `n / d` rounded towards zero, for `d != 0`.
pub open spec fn quotient_towards_zero(n: int, d: int) -> int {
    if (n >= 0) == (d > 0) {
        magnitude(n) / magnitude(d)
    } else {
        -(magnitude(n) / magnitude(d))
    }
}

/// Which way a price moved.
#[derive(Clone, Copy, Debug, PartialEq, Eq, Structural)]
pub enum Direction {
    Up,
    Down,
}

/// The move from the price `base` to the price `value`, relative to `base`:
/// the ratio `(value - base) / base`, held exactly as the two prices.
#[derive(Clone, Copy, Debug, PartialEq, Eq, Structural)]
pub struct PercentChange {
    /// The price the move is measured from.
    pub base: i64,
    /// The price the move arrives at.
    pub value: i64,
}

impl PercentChange {
    /// The size of the change, whichever way it goes, is strictly more than
    /// `limit_bp` basis points. A move away from a base of zero is larger
    /// than any limit.
    pub open spec fn exceeds(self, limit_bp: int) -> bool {
        magnitude(self.value - self.base) * BASIS_POINTS_PER_UNIT > limit_bp * magnitude(
            self.base as int,
        )
    }

    /// The change is a fall of at least `limit_bp` basis points: the ratio is
    /// at most `-limit_bp / 10_000`. From a base of zero there is no ratio
    /// and no fall.
    pub open spec fn falls_by(self, limit_bp: int) -> bool {
        let delta = self.value - self.base;
        if self.base > 0 {
            delta * BASIS_POINTS_PER_UNIT <= -(limit_bp * self.base)
        } else if self.base < 0 {
            delta * BASIS_POINTS_PER_UNIT >= -(limit_bp * self.base)
        } else {
            false
        }
    }

    /// The change in basis points, rounded towards zero; none from a base of
    /// zero.
    pub open spec fn in_basis_points(self) -> Option<int> {
        if self.base == 0 {
            None
        } else {
            Some(
                quotient_towards_zero(
                    (self.value - self.base) * BASIS_POINTS_PER_UNIT,
                    self.base as int,
                ),
            )
        }
    }

    /// Whether the change is larger in size than `limit_bp` basis points.
    pub fn exceeds_bp(&self, limit_bp: u32) -> (r: bool)
        ensures
            r == self.exceeds(limit_bp as int),
    {
        let delta: i128 = (self.value as i128) - (self.base as i128);
        let size: i128 = if delta < 0 {
            -delta
        } else {
            delta
        };
        let base_size: i128 = if self.base < 0 {
            -(self.base as i128)
        } else {
            self.base as i128
        };
        let limit: i128 = limit_bp as i128;
        assert(0 <= limit * base_size <= 0xffff_ffff * 0x8000_0000_0000_0000) by (nonlinear_arith)
            requires
                0 <= limit <= 0xffff_ffff,
                0 <= base_size <= 0x8000_0000_0000_0000,
        ;
        size * BASIS_POINTS_PER_UNIT > limit * base_size
    }

    /// Whether the change is a fall of at least `limit_bp` basis points.
    pub fn falls_by_bp(&self, limit_bp: u32) -> (r: bool)
        ensures
            r == self.falls_by(limit_bp as int),
    {
        let delta: i128 = (self.value as i128) - (self.base as i128);
        let base: i128 = self.base as i128;
        let limit: i128 = limit_bp as i128;
        assert(-(0xffff_ffff * 0x8000_0000_0000_0000) <= limit * base <= 0xffff_ffff
            * 0x8000_0000_0000_0000) by (nonlinear_arith)
            requires
                0 <= limit <= 0xffff_ffff,
                -0x8000_0000_0000_0000 <= base <= 0x8000_0000_0000_0000,
        ;
        if self.base > 0 {
            delta * BASIS_POINTS_PER_UNIT <= -(limit * base)
        } else if self.base < 0 {
            delta * BASIS_POINTS_PER_UNIT >= -(limit * base)
        } else {
            false
        }
    }

    /// The change in basis points, rounded towards zero.
    pub fn basis_points(&self) -> (r: Option<i128>)
        ensures
            r is Some <==> self.base != 0,
            r matches Some(bp) ==> self.in_basis_points() == Some(bp as int),
    {
        if self.base == 0 {
            return None;
        }
        let delta: i128 = (self.value as i128) - (self.base as i128);
        let size: u128 = if delta < 0 {
            (-delta) as u128
        } else {
            delta as u128
        };
        let base_size: u128 = if self.base < 0 {
            (-(self.base as i128)) as u128
        } else {
            self.base as u128
        };
        let scaled: u128 = size * 10_000;
        let quotient: u128 = scaled / base_size;
        assert(quotient <= scaled) by (nonlinear_arith)
            requires
                quotient == scaled / base_size,
                base_size >= 1,
        ;
        if (delta >= 0) == (self.base > 0) {
            Some(quotient as i128)
        } else {
            Some(-(quotient as i128))
        }
    }
}

/// One thing the engine decided on a sample.
#[derive(Clone, Copy, Debug, PartialEq, Eq, Structural)]
pub enum Decision {
    /// The price moved by more than the alert limit in one step.
    SpikeAlert { change: PercentChange, direction: Direction },
    /// The short average rose above the long one while no position was held.
    BuySignal { price: i64, short_sma: Sma, long_sma: Sma },
    /// The short average is no longer above the long one while a position
    /// was held.
    SellSignal { price: i64, short_sma: Sma, long_sma: Sma },
    /// The held position lost at least the stop-loss percentage and was sold.
    StopLossTriggered { price: i64, loss: PercentChange },
}

impl Decision {
    /// Whether the decision sold the position, by crossover or by
    /// stop-loss. The realised profit is reported with every sale.
    pub fn is_sale(&self) -> (sale: bool)
        ensures
            sale == (*self is SellSignal || *self is StopLossTriggered),
    {
        match self {
            Decision::SellSignal { .. } => true,
            Decision::StopLossTriggered { .. } => true,
            _ => false,
        }
    }
}

} // verus!
