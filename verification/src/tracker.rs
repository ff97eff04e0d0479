//! Rolling sums for a short and a long moving-average window.
//!
//! The tracker keeps only as many prices as the wider window needs and
//! adjusts two running sums as prices arrive. Its abstract state is the
//! whole sequence of prices it has ever been given; the invariant ties the
//! running sums to direct sums over the end of that sequence.

use std::collections::VecDeque;
use vstd::prelude::*;
use crate::average::{Sma, PRICE_SPAN};

verus! {

/// Sum of the `count` most recent entries of `prices`, or of all of them
/// where there are fewer. The last entry of `prices` is the most recent.
pub open spec fn recent_sum(prices: Seq<i64>, count: nat) -> int
    decreases count,
{
    if count == 0 || prices.len() == 0 {
        0
    } else {
        prices.last() + recent_sum(prices.drop_last(), (count - 1) as nat)
    }
}

/// The average over the last `window` prices of `history`, once that many
/// prices exist.
pub open spec fn average_over(history: Seq<i64>, window: u32) -> Option<Sma> {
    if history.len() >= window {
        Some(Sma { sum: recent_sum(history, window as nat) as i128, window })
    } else {
        None
    }
}

/// Widening the span by one adds the entry that the wider span reaches and
/// the narrower one does not, if there is one.
pub proof fn lemma_recent_sum_widen(prices: Seq<i64>, count: nat)
    requires
        count >= 1,
    ensures
        recent_sum(prices, count) == recent_sum(prices, (count - 1) as nat) + if count
            <= prices.len() {
            prices[prices.len() - count] as int
        } else {
            0
        },
    decreases count,
{
    if prices.len() > 0 && count > 1 {
        lemma_recent_sum_widen(prices.drop_last(), (count - 1) as nat);
    } else if prices.len() > 0 {
        assert(recent_sum(prices.drop_last(), 0) == 0);
    }
}

/// A sum over at most `count` prices is at most `count` times the largest
/// magnitude a price can have.
pub proof fn lemma_recent_sum_bounds(prices: Seq<i64>, count: nat)
    ensures
        -(count * PRICE_SPAN) <= recent_sum(prices, count) <= count * PRICE_SPAN,
    decreases count,
{
    if prices.len() > 0 && count > 0 {
        lemma_recent_sum_bounds(prices.drop_last(), (count - 1) as nat);
    }
}

/// An average that `average_over` reports is well formed.
pub proof fn lemma_average_over_wf(history: Seq<i64>, window: u32)
    requires
        window >= 1,
    ensures
        average_over(history, window) matches Some(sma) ==> sma.wf() && sma.sum == recent_sum(
            history,
            window as nat,
        ),
{
    lemma_recent_sum_bounds(history, window as nat);
}

/// What a tracker stands for: its two window lengths and every price it has
/// been given, oldest first.
pub struct TrackerView {
    pub short_window: u32,
    pub long_window: u32,
    pub history: Seq<i64>,
}

impl TrackerView {
    /// Number of prices the wider window holds.
    pub open spec fn capacity(self) -> int {
        if self.short_window >= self.long_window {
            self.short_window as int
        } else {
            self.long_window as int
        }
    }

    /// Direct sum over the short window.
    pub open spec fn short_sum(self) -> int {
        recent_sum(self.history, self.short_window as nat)
    }

    /// Direct sum over the long window.
    pub open spec fn long_sum(self) -> int {
        recent_sum(self.history, self.long_window as nat)
    }

    /// The short average, once the short window is full.
    pub open spec fn short_average(self) -> Option<Sma> {
        average_over(self.history, self.short_window)
    }

    /// The long average, once the long window is full.
    pub open spec fn long_average(self) -> Option<Sma> {
        average_over(self.history, self.long_window)
    }

    /// The most recent price, if any.
    pub open spec fn latest(self) -> Option<i64> {
        if self.history.len() > 0 {
            Some(self.history.last())
        } else {
            None
        }
    }

    /// The state after one more price.
    pub open spec fn observe(self, price: i64) -> TrackerView {
        TrackerView {
            short_window: self.short_window,
            long_window: self.long_window,
            history: self.history.push(price),
        }
    }

    /// The state after all of `prices`, taken in one by one in their order.
    pub open spec fn observe_all(self, prices: Seq<i64>) -> TrackerView
        decreases prices.len(),
    {
        if prices.len() == 0 {
            self
        } else {
            self.observe_all(prices.drop_last()).observe(prices.last())
        }
    }
}

/// Prices taken in one by one are appended to the history in their order.
pub proof fn lemma_observe_all_appends(start: TrackerView, prices: Seq<i64>)
    ensures
        start.observe_all(prices).history == start.history + prices,
        start.observe_all(prices).short_window == start.short_window,
        start.observe_all(prices).long_window == start.long_window,
    decreases prices.len(),
{
    if prices.len() > 0 {
        lemma_observe_all_appends(start, prices.drop_last());
        assert(start.history + prices =~= (start.history + prices.drop_last()).push(
            prices.last(),
        ));
    }
}

/// For any sequence of prices given to a tracker that starts empty, after
/// every prefix of the sequence each window's sum is the direct sum of the
/// last prices of that prefix, and an average exists exactly when the
/// prefix is as long as the window.
pub proof fn lemma_sums_on_every_prefix(start: TrackerView, prices: Seq<i64>, seen: int)
    requires
        start.history.len() == 0,
        0 <= seen <= prices.len(),
    ensures
        start.observe_all(prices.take(seen)).short_sum() == recent_sum(
            prices.take(seen),
            start.short_window as nat,
        ),
        start.observe_all(prices.take(seen)).long_sum() == recent_sum(
            prices.take(seen),
            start.long_window as nat,
        ),
        start.observe_all(prices.take(seen)).short_average() is Some <==> seen
            >= start.short_window,
        start.observe_all(prices.take(seen)).long_average() is Some <==> seen >= start.long_window,
{
    lemma_observe_all_appends(start, prices.take(seen));
}

/// Two rolling sums over one stream of prices.
pub struct RollingWindowTracker {
    short_window: u32,
    long_window: u32,
    /// The most recent prices, newest first, as many as the wider window holds.
    retained: VecDeque<i64>,
    short_sum: i128,
    long_sum: i128,
    /// Number of prices seen so far, stopping at `u64::MAX`.
    observed: u64,
    /// Every price seen so far, oldest first.
    history: Ghost<Seq<i64>>,
}

impl View for RollingWindowTracker {
    type V = TrackerView;

    closed spec fn view(&self) -> TrackerView {
        TrackerView {
            short_window: self.short_window,
            long_window: self.long_window,
            history: self.history@,
        }
    }
}

impl RollingWindowTracker {
    /// The sum that is kept for the short window, as it stands in memory.
    pub closed spec fn running_short_sum(&self) -> int {
        self.short_sum as int
    }

    /// The sum that is kept for the long window, as it stands in memory.
    pub closed spec fn running_long_sum(&self) -> int {
        self.long_sum as int
    }

    /// The prices still held, newest first.
    pub closed spec fn retained(&self) -> Seq<i64> {
        self.retained@
    }

    /// The representation invariant: both windows are non-empty, the held
    /// prices are the end of the history, each running sum is the direct sum
    /// over its window, and the count is the length of the history.
    pub closed spec fn wf(&self) -> bool {
        let history = self.history@;
        &&& self.short_window >= 1
        &&& self.long_window >= 1
        &&& self.retained@.len() == if history.len() <= self@.capacity() {
            history.len() as int
        } else {
            self@.capacity()
        }
        &&& forall|i: int|
            0 <= i < self.retained@.len() ==> #[trigger] self.retained@[i] == history[history.len()
                - 1 - i]
        &&& self.short_sum == self@.short_sum()
        &&& self.long_sum == self@.long_sum()
        &&& self.observed == if history.len() <= u64::MAX {
            history.len() as int
        } else {
            u64::MAX as int
        }
    }

    /// A tracker that has seen no price. Each window must hold at least one
    /// price; otherwise there is no tracker.
    pub fn new(short_window: u32, long_window: u32) -> (made: Option<Self>)
        ensures
            made is Some <==> short_window >= 1 && long_window >= 1,
            made matches Some(tracker) ==> tracker.wf() && tracker@ == (TrackerView {
                short_window,
                long_window,
                history: Seq::<i64>::empty(),
            }),
    {
        if short_window == 0 || long_window == 0 {
            return None;
        }
        Some(
            RollingWindowTracker {
                short_window,
                long_window,
                retained: VecDeque::new(),
                short_sum: 0,
                long_sum: 0,
                observed: 0,
                history: Ghost(Seq::empty()),
            },
        )
    }

    /// Length of the short window.
    pub fn short_window(&self) -> (window: u32)
        ensures
            window == self@.short_window,
            self.wf() ==> window >= 1,
    {
        self.short_window
    }

    /// Length of the long window.
    pub fn long_window(&self) -> (window: u32)
        ensures
            window == self@.long_window,
            self.wf() ==> window >= 1,
    {
        self.long_window
    }

    /// The running sum of the short window. It is kept up by adding and
    /// subtracting single prices, and equals the direct sum over the last
    /// prices of the history, as many as the window holds or as there are.
    pub fn short_sum(&self) -> (sum: i128)
        requires
            self.wf(),
        ensures
            sum == self.running_short_sum(),
            sum == self@.short_sum(),
    {
        self.short_sum
    }

    /// The running sum of the long window, equal to the direct sum likewise.
    pub fn long_sum(&self) -> (sum: i128)
        requires
            self.wf(),
        ensures
            sum == self.running_long_sum(),
            sum == self@.long_sum(),
    {
        self.long_sum
    }

    /// Number of prices seen so far; it stops counting at `u64::MAX`.
    pub fn observed(&self) -> (count: u64)
        requires
            self.wf(),
        ensures
            count == if self@.history.len() <= u64::MAX {
                self@.history.len() as int
            } else {
                u64::MAX as int
            },
    {
        self.observed
    }

    /// Number of prices still held: all that were seen, up to as many as
    /// the wider window holds.
    pub fn held(&self) -> (count: usize)
        ensures
            count == self.retained().len(),
            self.wf() ==> count == if self@.history.len() <= self@.capacity() {
                self@.history.len() as int
            } else {
                self@.capacity()
            },
    {
        self.retained.len()
    }

    /// The most recent price, if any was seen.
    pub fn latest(&self) -> (price: Option<i64>)
        requires
            self.wf(),
        ensures
            price == self@.latest(),
    {
        if self.retained.len() > 0 {
            Some(self.retained[0])
        } else {
            None
        }
    }

    /// Takes in one price and reports both averages, each as soon as its
    /// window is full. Each average reported is the direct mean of the last
    /// prices given, this one included.
    pub fn update(&mut self, price: i64) -> (averages: (Option<Sma>, Option<Sma>))
        requires
            old(self).wf(),
        ensures
            final(self).wf(),
            final(self)@ == old(self)@.observe(price),
            averages.0 == final(self)@.short_average(),
            averages.1 == final(self)@.long_average(),
            averages.0 matches Some(sma) ==> sma.wf(),
            averages.1 matches Some(sma) ==> sma.wf(),
    {
        let ghost before = self.history@;
        let ghost after = before.push(price);
        let held: usize = self.retained.len();
        let short: usize = self.short_window as usize;
        let long: usize = self.long_window as usize;
        let widest: usize = if short >= long {
            short
        } else {
            long
        };
        proof {
            assert(after.drop_last() == before);
            lemma_recent_sum_widen(before, short as nat);
            lemma_recent_sum_widen(before, long as nat);
            lemma_recent_sum_bounds(before, (short - 1) as nat);
            lemma_recent_sum_bounds(before, (long - 1) as nat);
            lemma_average_over_wf(after, self.short_window);
            lemma_average_over_wf(after, self.long_window);
        }
        if held >= short {
            let leaving: i64 = self.retained[short - 1];
            self.short_sum = self.short_sum - (leaving as i128);
        }
        if held >= long {
            let leaving: i64 = self.retained[long - 1];
            self.long_sum = self.long_sum - (leaving as i128);
        }
        self.short_sum = self.short_sum + (price as i128);
        self.long_sum = self.long_sum + (price as i128);
        self.retained.push_front(price);
        if held >= widest {
            let _ = self.retained.pop_back();
        }
        if self.observed < u64::MAX {
            self.observed = self.observed + 1;
        }
        self.history = Ghost(after);
        let short_average: Option<Sma> = if held >= short - 1 {
            Some(Sma { sum: self.short_sum, window: self.short_window })
        } else {
            None
        };
        let long_average: Option<Sma> = if held >= long - 1 {
            Some(Sma { sum: self.long_sum, window: self.long_window })
        } else {
            None
        };
        (short_average, long_average)
    }
}

/// The prices a tracker holds are the most recent ones of its history,
/// newest first: all of them while there are no more than the wider window
/// holds, and as many as that window holds from then on.
pub proof fn lemma_retained_is_recent_history(tracker: RollingWindowTracker)
    requires
        tracker.wf(),
    ensures
        tracker.retained().len() == if tracker@.history.len() <= tracker@.capacity() {
            tracker@.history.len() as int
        } else {
            tracker@.capacity()
        },
        tracker.retained().len() <= tracker@.capacity(),
        forall|i: int|
            0 <= i < tracker.retained().len() ==> #[trigger] tracker.retained()[i]
                == tracker@.history[tracker@.history.len() - 1 - i],
{
}

/// The running sums are direct sums. Whatever prices a tracker has been
/// given, one after another, the sum it keeps for a window by adding the
/// newest price and subtracting the one that leaves is the sum, taken term
/// by term, of the last prices of its history: as many as the window holds,
/// or all of them while there are fewer. Divided by that number, either is
/// the arithmetic mean of those prices.
pub proof fn lemma_running_sums_are_direct_sums(tracker: RollingWindowTracker)
    requires
        tracker.wf(),
    ensures
        tracker.running_short_sum() == recent_sum(
            tracker@.history,
            tracker@.short_window as nat,
        ),
        tracker.running_long_sum() == recent_sum(tracker@.history, tracker@.long_window as nat),
        tracker@.short_window >= 1,
        tracker@.long_window >= 1,
{
}

} // verus!
