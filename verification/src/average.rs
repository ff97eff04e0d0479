//! Simple moving averages kept as exact fractions.

use vstd::prelude::*;

verus! {

/// Largest magnitude a single price can have, `2^63`.
pub const PRICE_SPAN: u64 = 0x8000_0000_0000_0000;

/// The arithmetic mean of the `window` most recent prices, held as the
/// fraction `sum / window` so that no precision is lost.
#[derive(Clone, Copy, Debug, PartialEq, Eq, Structural)]
pub struct Sma {
    /// Sum of the prices in the window.
    pub sum: i128,
    /// Number of prices in the window.
    pub window: u32,
}

impl Sma {
    /// The window is not empty and the sum is one that `window` prices can reach.
    pub open spec fn wf(self) -> bool {
        &&& self.window >= 1
        &&& -(self.window * PRICE_SPAN) <= self.sum <= self.window * PRICE_SPAN
    }

    /// `self.sum / self.window > other.sum / other.window` over the rationals,
    /// for positive windows.
    pub open spec fn above(self, other: Sma) -> bool {
        self.sum * other.window > other.sum * self.window
    }

    /// Whether this average is strictly greater than `other`.
    pub fn exceeds(&self, other: &Sma) -> (r: bool)
        requires
            self.wf(),
            other.wf(),
        ensures
            r == self.above(*other),
    {
        proof {
            lemma_cross_product_fits(self.sum as int, self.window as int, other.window as int);
            lemma_cross_product_fits(other.sum as int, other.window as int, self.window as int);
        }
        let left: i128 = self.sum * (other.window as i128);
        let right: i128 = other.sum * (self.window as i128);
        left > right
    }
}

/// A sum that `own` prices can reach, multiplied by another window, stays
/// inside `i128`.
proof fn lemma_cross_product_fits(sum: int, own: int, other: int)
    by (nonlinear_arith)
    requires
        1 <= own <= 0xffff_ffff,
        1 <= other <= 0xffff_ffff,
        -(own * 0x8000_0000_0000_0000) <= sum <= own * 0x8000_0000_0000_0000,
    ensures
        -0x7fff_ffff_ffff_ffff_ffff_ffff_ffff_ffff <= sum * other
            <= 0x7fff_ffff_ffff_ffff_ffff_ffff_ffff_ffff,
{
}

} // verus!
