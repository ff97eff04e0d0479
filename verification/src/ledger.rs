//! The position held and the profit realised so far.

use vstd::prelude::*;

verus! {

/// Whether the strategy holds the asset.
#[derive(Clone, Copy, Debug, PartialEq, Eq, Structural)]
pub enum Position {
    Flat,
    Long,
}

/// `total` limited to what an `i128` can hold.
pub open spec fn saturated(total: int) -> i128 {
    if total > i128::MAX {
        i128::MAX
    } else if total < i128::MIN {
        i128::MIN
    } else {
        total as i128
    }
}

/// Position, entry price and realised profit. `entry_price` is the price of
/// the last purchase; it means something only while the position is long.
#[derive(Clone, Copy, Debug, PartialEq, Eq, Structural)]
pub struct PositionLedger {
    pub position: Position,
    pub entry_price: i64,
    pub realized_profit: i128,
}

impl PositionLedger {
    /// The ledger after buying at `price`.
    pub open spec fn bought(self, price: i64) -> PositionLedger {
        PositionLedger {
            position: Position::Long,
            entry_price: price,
            realized_profit: self.realized_profit,
        }
    }

    /// The ledger after selling at `price`: the difference to the entry price
    /// is added to the realised profit, which stops at the ends of `i128`.
    pub open spec fn sold(self, price: i64) -> PositionLedger {
        PositionLedger {
            position: Position::Flat,
            entry_price: self.entry_price,
            realized_profit: saturated(self.realized_profit + (price - self.entry_price)),
        }
    }

    /// The ledger at the start: flat, nothing realised.
    pub fn new() -> (ledger: Self)
        ensures
            ledger == (PositionLedger {
                position: Position::Flat,
                entry_price: 0,
                realized_profit: 0,
            }),
    {
        PositionLedger { position: Position::Flat, entry_price: 0, realized_profit: 0 }
    }

    /// The entry price, while a position is held.
    pub fn entry(&self) -> (entry: Option<i64>)
        ensures
            entry == if self.position == Position::Long {
                Some(self.entry_price)
            } else {
                None::<i64>
            },
    {
        match self.position {
            Position::Long => Some(self.entry_price),
            Position::Flat => None,
        }
    }

    /// Records a purchase at `price`.
    pub fn buy(&mut self, price: i64)
        ensures
            *final(self) == old(self).bought(price),
    {
        self.position = Position::Long;
        self.entry_price = price;
    }

    /// Records a sale at `price` and realises the difference to the entry
    /// price.
    pub fn sell(&mut self, price: i64)
        ensures
            *final(self) == old(self).sold(price),
    {
        let gain: i128 = (price as i128) - (self.entry_price as i128);
        let total: i128 = if gain >= 0 {
            if self.realized_profit > i128::MAX - gain {
                i128::MAX
            } else {
                self.realized_profit + gain
            }
        } else {
            if self.realized_profit < i128::MIN - gain {
                i128::MIN
            } else {
                self.realized_profit + gain
            }
        };
        self.realized_profit = total;
        self.position = Position::Flat;
    }
}

} // verus!
