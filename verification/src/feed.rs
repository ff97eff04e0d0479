//! The decisions of the live feed driver.
//!
//! The driver asks a remote endpoint for a quote at a fixed interval. What
//! it does with each answer is decided here; waiting and asking are the
//! caller's part. One poll cycle runs from a tick of the interval to the
//! delivery of a reading or to a fatal error.

use vstd::prelude::*;
use vstd::arithmetic::power2::{lemma2_to64, lemma_pow2_unfold, pow2};
use crate::sample::PriceSample;

verus! {

/// Number of times a failed request is tried again within one poll cycle.
pub const MAX_RETRIES: u32 = 3;

/// Seconds between two polls.
pub const POLL_INTERVAL_SECS: u64 = 60;

/// An error that ends the live loop.
#[derive(Clone, Copy, Debug, PartialEq, Eq, Structural)]
pub enum FatalFeedError {
    /// The request failed again after the last retry.
    RetriesExhausted,
    /// An answer came but did not have the expected shape.
    SchemaMismatch,
}

/// What came back from one request.
#[derive(Clone, Debug, PartialEq, Eq)]
pub enum FeedEvent {
    /// A well-formed answer: the quoted price and when it was last updated.
    Quote(PriceSample),
    /// The request did not get through.
    TransportFailure,
    /// An answer came that could not be read as a quote.
    SchemaMismatch,
}

/// What the driver is to do next.
#[derive(Clone, Debug, PartialEq, Eq)]
pub enum FeedAction {
    /// Hand the sample to the engine, then wait for the next tick.
    Deliver(PriceSample),
    /// Wait this many seconds, then ask again.
    RetryAfter { seconds: u64 },
    /// Stop the live loop.
    Abort(FatalFeedError),
}

/// Seconds to wait before retry number `retry`, counted from one: the wait
/// doubles with every retry.
pub open spec fn backoff_seconds(retry: nat) -> nat {
    pow2(retry)
}

/// The state of one poll cycle: how many retries it has used up.
#[derive(Clone, Copy, Debug, PartialEq, Eq, Structural)]
pub struct PollCycle {
    pub retries: u32,
}

impl PollCycle {
    /// What the driver is to do on `event`.
    pub open spec fn action_on(self, event: FeedEvent) -> FeedAction {
        match event {
            FeedEvent::Quote(sample) => FeedAction::Deliver(sample),
            FeedEvent::SchemaMismatch => FeedAction::Abort(FatalFeedError::SchemaMismatch),
            FeedEvent::TransportFailure => if self.retries < MAX_RETRIES {
                FeedAction::RetryAfter {
                    seconds: backoff_seconds((self.retries + 1) as nat) as u64,
                }
            } else {
                FeedAction::Abort(FatalFeedError::RetriesExhausted)
            },
        }
    }

    /// The cycle after `event`: a retry is counted, a delivery starts the
    /// count afresh for the next tick, a fatal error leaves it.
    pub open spec fn after(self, event: FeedEvent) -> PollCycle {
        match event {
            FeedEvent::Quote(_) => PollCycle { retries: 0 },
            FeedEvent::SchemaMismatch => self,
            FeedEvent::TransportFailure => if self.retries < MAX_RETRIES {
                PollCycle { retries: (self.retries + 1) as u32 }
            } else {
                self
            },
        }
    }

    /// The cycle after `failures` requests in a row have failed since its
    /// tick.
    pub open spec fn after_failures(failures: nat) -> PollCycle
        decreases failures,
    {
        if failures == 0 {
            PollCycle { retries: 0 }
        } else {
            Self::after_failures((failures - 1) as nat).after(FeedEvent::TransportFailure)
        }
    }

    /// A cycle at its tick, with no retry used.
    pub fn begin() -> (cycle: Self)
        ensures
            cycle == (PollCycle { retries: 0 }),
    {
        PollCycle { retries: 0 }
    }

    /// Takes in what came back from a request and says what to do next.
    pub fn on_event(&mut self, event: FeedEvent) -> (action: FeedAction)
        ensures
            action == old(self).action_on(event),
            *final(self) == old(self).after(event),
    {
        match event {
            FeedEvent::Quote(sample) => {
                self.retries = 0;
                FeedAction::Deliver(sample)
            },
            FeedEvent::SchemaMismatch => FeedAction::Abort(FatalFeedError::SchemaMismatch),
            FeedEvent::TransportFailure => {
                if self.retries < MAX_RETRIES {
                    self.retries = self.retries + 1;
                    FeedAction::RetryAfter { seconds: backoff(self.retries) }
                } else {
                    FeedAction::Abort(FatalFeedError::RetriesExhausted)
                }
            },
        }
    }
}

/// Seconds to wait before retry number `retry`.
fn backoff(retry: u32) -> (seconds: u64)
    requires
        retry <= MAX_RETRIES,
    ensures
        seconds == backoff_seconds(retry as nat),
{
    let mut seconds: u64 = 1;
    let mut doubled: u32 = 0;
    proof {
        lemma2_to64();
    }
    while doubled < retry
        invariant
            doubled <= retry <= MAX_RETRIES,
            seconds == pow2(doubled as nat),
            seconds <= 8,
        decreases retry - doubled,
    {
        proof {
            lemma2_to64();
        }
        seconds = seconds * 2;
        doubled = doubled + 1;
    }
    seconds
}

/// In a cycle in which every request fails, the first three failures are
/// answered by a retry, after two, four and eight seconds, and the fourth
/// ends the live loop.
pub proof fn lemma_cycle_gives_up_after_three_retries(failures: nat)
    ensures
        PollCycle::after_failures(failures).retries == if failures <= MAX_RETRIES {
            failures as int
        } else {
            MAX_RETRIES as int
        },
        PollCycle::after_failures(failures).action_on(FeedEvent::TransportFailure) == if failures
            < MAX_RETRIES {
            FeedAction::RetryAfter { seconds: backoff_seconds(failures + 1) as u64 }
        } else {
            FeedAction::Abort(FatalFeedError::RetriesExhausted)
        },
    decreases failures,
{
    if failures > 0 {
        lemma_cycle_gives_up_after_three_retries((failures - 1) as nat);
    }
}

/// The waits of one cycle are two, four and eight seconds.
pub proof fn lemma_backoff_doubles()
    ensures
        backoff_seconds(1) == 2,
        backoff_seconds(2) == 4,
        backoff_seconds(3) == 8,
        forall|retry: nat| retry >= 1 ==> #[trigger] backoff_seconds(retry) == 2 * backoff_seconds(
            (retry - 1) as nat,
        ),
{
    lemma2_to64();
    assert forall|retry: nat| retry >= 1 implies #[trigger] backoff_seconds(retry) == 2
        * backoff_seconds((retry - 1) as nat) by {
        lemma_pow2_unfold(retry);
    }
}

} // verus!
