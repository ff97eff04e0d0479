//! Replaying historical records through the engine.
//!
//! A record is either a reading or the mark of a line that could not be
//! read. A replay goes through the records in order, never stops early, and
//! says of each record what became of it.

use vstd::prelude::*;
use crate::decision::Decision;
use crate::engine::{EngineView, SignalEngine};
use crate::sample::{quantized, InvalidSample, PriceSample};

verus! {

/// One record of a historical price file.
#[derive(Clone, Debug, PartialEq, Eq)]
pub enum HistoricalRecord {
    /// A record that was read.
    Sample(PriceSample),
    /// A record that could not be read.
    Corrupt,
}

/// What became of one record.
#[derive(Clone, Debug, PartialEq, Eq)]
pub enum ReplayOutcome {
    /// The price was taken in; the decisions it led to and the profit
    /// realised up to and including them.
    Processed { decisions: Vec<Decision>, realized_profit: i128 },
    /// The reading stands for no price; the engine did not change.
    Rejected(InvalidSample),
    /// The record was corrupt and passed over; the engine did not change.
    Skipped,
}

/// `ReplayOutcome` with its decisions as a sequence.
pub enum OutcomeView {
    Processed { decisions: Seq<Decision>, realized_profit: i128 },
    Rejected(InvalidSample),
    Skipped,
}

impl View for ReplayOutcome {
    type V = OutcomeView;

    open spec fn view(&self) -> OutcomeView {
        match *self {
            ReplayOutcome::Processed { decisions, realized_profit } => OutcomeView::Processed {
                decisions: decisions@,
                realized_profit,
            },
            ReplayOutcome::Rejected(reason) => OutcomeView::Rejected(reason),
            ReplayOutcome::Skipped => OutcomeView::Skipped,
        }
    }
}

/// The price that a record holds, if it holds one.
pub open spec fn price_of(record: HistoricalRecord, ticks_per_unit: u32) -> Option<i64> {
    match record {
        HistoricalRecord::Sample(sample) => match quantized(sample.reading, ticks_per_unit) {
            Ok(price) => Some(price),
            Err(_) => None,
        },
        HistoricalRecord::Corrupt => None,
    }
}

/// The engine after one record: a record that holds a price is processed,
/// any other leaves the engine as it was.
pub open spec fn after_record(engine: EngineView, record: HistoricalRecord) -> EngineView {
    match price_of(record, engine.ticks_per_unit) {
        Some(price) => engine.after(price),
        None => engine,
    }
}

/// What becomes of one record in a given state of the engine.
pub open spec fn outcome_of(engine: EngineView, record: HistoricalRecord) -> OutcomeView {
    match record {
        HistoricalRecord::Sample(sample) => match quantized(
            sample.reading,
            engine.ticks_per_unit,
        ) {
            Ok(price) => OutcomeView::Processed {
                decisions: engine.decisions(price),
                realized_profit: engine.after(price).ledger.realized_profit,
            },
            Err(reason) => OutcomeView::Rejected(reason),
        },
        HistoricalRecord::Corrupt => OutcomeView::Skipped,
    }
}

/// The engine after all of `records`, in order.
pub open spec fn replayed(engine: EngineView, records: Seq<HistoricalRecord>) -> EngineView
    decreases records.len(),
{
    if records.len() == 0 {
        engine
    } else {
        after_record(replayed(engine, records.drop_last()), records.last())
    }
}

/// Number of records that hold a price.
pub open spec fn count_priced(records: Seq<HistoricalRecord>, ticks_per_unit: u32) -> nat
    decreases records.len(),
{
    if records.len() == 0 {
        0
    } else {
        count_priced(records.drop_last(), ticks_per_unit) + if price_of(
            records.last(),
            ticks_per_unit,
        ) is Some {
            1nat
        } else {
            0nat
        }
    }
}

/// Number of records whose reading stands for no price.
pub open spec fn count_rejected(records: Seq<HistoricalRecord>, ticks_per_unit: u32) -> nat
    decreases records.len(),
{
    if records.len() == 0 {
        0
    } else {
        count_rejected(records.drop_last(), ticks_per_unit) + if records.last() is Sample
            && price_of(records.last(), ticks_per_unit) is None {
            1nat
        } else {
            0nat
        }
    }
}

/// Number of corrupt records.
pub open spec fn count_corrupt(records: Seq<HistoricalRecord>) -> nat
    decreases records.len(),
{
    if records.len() == 0 {
        0
    } else {
        count_corrupt(records.drop_last()) + if records.last() is Corrupt {
            1nat
        } else {
            0nat
        }
    }
}

/// A replay leaves the parameters of the engine alone.
pub proof fn lemma_replay_keeps_parameters(engine: EngineView, records: Seq<HistoricalRecord>)
    ensures
        replayed(engine, records).ticks_per_unit == engine.ticks_per_unit,
        replayed(engine, records).stop_loss_bp == engine.stop_loss_bp,
        replayed(engine, records).tracker.short_window == engine.tracker.short_window,
        replayed(engine, records).tracker.long_window == engine.tracker.long_window,
    decreases records.len(),
{
    if records.len() > 0 {
        lemma_replay_keeps_parameters(engine, records.drop_last());
    }
}

/// Every record is counted once: as processed, as turned away or as
/// corrupt. So a replay with one corrupt record among readings that all
/// stand for a price processes all records but that one.
pub proof fn lemma_every_record_is_counted(records: Seq<HistoricalRecord>, ticks_per_unit: u32)
    ensures
        count_priced(records, ticks_per_unit) + count_rejected(records, ticks_per_unit)
            + count_corrupt(records) == records.len(),
        count_corrupt(records) == 1 && count_rejected(records, ticks_per_unit) == 0
            ==> count_priced(records, ticks_per_unit) == records.len() - 1,
    decreases records.len(),
{
    if records.len() > 0 {
        lemma_every_record_is_counted(records.drop_last(), ticks_per_unit);
    }
}

/// The records that are not corrupt, in their order.
pub open spec fn without_corrupt(records: Seq<HistoricalRecord>) -> Seq<HistoricalRecord>
    decreases records.len(),
{
    if records.len() == 0 {
        records
    } else if records.last() is Corrupt {
        without_corrupt(records.drop_last())
    } else {
        without_corrupt(records.drop_last()).push(records.last())
    }
}

/// Corrupt records change nothing: a replay ends in the state in which the
/// replay of the other records alone ends, and processes as many samples.
pub proof fn lemma_corrupt_records_change_nothing(
    engine: EngineView,
    records: Seq<HistoricalRecord>,
)
    ensures
        replayed(engine, records) == replayed(engine, without_corrupt(records)),
        count_priced(records, engine.ticks_per_unit) == count_priced(
            without_corrupt(records),
            engine.ticks_per_unit,
        ),
        count_corrupt(without_corrupt(records)) == 0,
        without_corrupt(records).len() == records.len() - count_corrupt(records),
    decreases records.len(),
{
    if records.len() > 0 {
        let rest = records.drop_last();
        lemma_corrupt_records_change_nothing(engine, rest);
        lemma_replay_keeps_parameters(engine, rest);
        if !(records.last() is Corrupt) {
            let kept = without_corrupt(rest).push(records.last());
            assert(kept.drop_last() == without_corrupt(rest));
            assert(kept.last() == records.last());
        }
    }
}

/// Where every record holds a price, every record is processed.
pub proof fn lemma_priced_records_are_all_processed(
    records: Seq<HistoricalRecord>,
    ticks_per_unit: u32,
)
    requires
        forall|i: int|
            0 <= i < records.len() ==> price_of(#[trigger] records[i], ticks_per_unit) is Some,
    ensures
        count_priced(records, ticks_per_unit) == records.len(),
        count_rejected(records, ticks_per_unit) == 0,
        count_corrupt(records) == 0,
        without_corrupt(records) == records,
    decreases records.len(),
{
    if records.len() > 0 {
        let rest = records.drop_last();
        assert forall|i: int| 0 <= i < rest.len() implies price_of(
            #[trigger] rest[i],
            ticks_per_unit,
        ) is Some by {
            assert(rest[i] == records[i]);
        }
        lemma_priced_records_are_all_processed(rest, ticks_per_unit);
        assert(price_of(records[records.len() - 1], ticks_per_unit) is Some);
        assert(rest.push(records.last()) =~= records);
    }
}

/// A replay with one corrupt record among records that all hold a price
/// processes every record but that one, turns none away, and ends in the
/// state in which the replay of the other records, in their order, ends.
pub proof fn lemma_one_corrupt_record_is_passed_over(
    engine: EngineView,
    records: Seq<HistoricalRecord>,
    corrupt_at: int,
)
    requires
        0 <= corrupt_at < records.len(),
        records[corrupt_at] is Corrupt,
        forall|i: int|
            0 <= i < records.len() && i != corrupt_at ==> price_of(
                #[trigger] records[i],
                engine.ticks_per_unit,
            ) is Some,
    ensures
        count_priced(records, engine.ticks_per_unit) == records.len() - 1,
        count_rejected(records, engine.ticks_per_unit) == 0,
        count_corrupt(records) == 1,
        without_corrupt(records) == records.remove(corrupt_at),
        replayed(engine, records) == replayed(engine, records.remove(corrupt_at)),
    decreases records.len(),
{
    let ticks_per_unit = engine.ticks_per_unit;
    let rest = records.drop_last();
    if corrupt_at == records.len() - 1 {
        assert forall|i: int| 0 <= i < rest.len() implies price_of(
            #[trigger] rest[i],
            ticks_per_unit,
        ) is Some by {
            assert(rest[i] == records[i]);
        }
        lemma_priced_records_are_all_processed(rest, ticks_per_unit);
        assert(records.remove(corrupt_at) =~= rest);
    } else {
        assert forall|i: int| 0 <= i < rest.len() && i != corrupt_at implies price_of(
            #[trigger] rest[i],
            ticks_per_unit,
        ) is Some by {
            assert(rest[i] == records[i]);
        }
        assert(rest[corrupt_at] == records[corrupt_at]);
        lemma_one_corrupt_record_is_passed_over(engine, rest, corrupt_at);
        assert(price_of(records[records.len() - 1], ticks_per_unit) is Some);
        assert(rest.remove(corrupt_at).push(records.last()) =~= records.remove(corrupt_at));
    }
    lemma_corrupt_records_change_nothing(engine, records);
}

/// The whole of a replay.
#[derive(Clone, Debug, PartialEq, Eq)]
pub struct ReplayReport {
    /// What became of each record, in the order of the records.
    pub outcomes: Vec<ReplayOutcome>,
    /// Number of records whose price was processed.
    pub processed: usize,
    /// Number of records whose reading was turned away.
    pub rejected: usize,
    /// Number of corrupt records passed over.
    pub skipped: usize,
}

/// Puts one record through the engine.
pub fn replay_record(engine: &mut SignalEngine, record: &HistoricalRecord) -> (outcome:
    ReplayOutcome)
    requires
        old(engine).wf(),
    ensures
        final(engine).wf(),
        final(engine)@ == after_record(old(engine)@, *record),
        outcome@ == outcome_of(old(engine)@, *record),
        !(outcome@ is Processed) ==> *final(engine) == *old(engine),
{
    match record {
        HistoricalRecord::Sample(sample) => match engine.process(sample) {
            Ok(decisions) => ReplayOutcome::Processed {
                decisions,
                realized_profit: engine.ledger().realized_profit,
            },
            Err(reason) => ReplayOutcome::Rejected(reason),
        },
        HistoricalRecord::Corrupt => ReplayOutcome::Skipped,
    }
}

/// Puts all of `records` through the engine, in order. A corrupt record or
/// a reading that stands for no price is noted and passed over, and the
/// replay goes on with the next record.
pub fn replay(engine: &mut SignalEngine, records: &Vec<HistoricalRecord>) -> (report: ReplayReport)
    requires
        old(engine).wf(),
    ensures
        final(engine).wf(),
        final(engine)@ == replayed(old(engine)@, records@),
        report.outcomes@.len() == records@.len(),
        forall|i: int|
            0 <= i < records@.len() ==> (#[trigger] report.outcomes@[i])@ == outcome_of(
                replayed(old(engine)@, records@.take(i)),
                records@[i],
            ),
        report.processed == count_priced(records@, old(engine)@.ticks_per_unit),
        report.rejected == count_rejected(records@, old(engine)@.ticks_per_unit),
        report.skipped == count_corrupt(records@),
{
    let ghost start = engine@;
    let mut outcomes: Vec<ReplayOutcome> = Vec::new();
    let mut processed: usize = 0;
    let mut rejected: usize = 0;
    let mut skipped: usize = 0;
    let mut done: usize = 0;
    while done < records.len()
        invariant
            done <= records@.len(),
            engine.wf(),
            engine@ == replayed(start, records@.take(done as int)),
            outcomes@.len() == done,
            forall|i: int|
                0 <= i < done ==> (#[trigger] outcomes@[i])@ == outcome_of(
                    replayed(start, records@.take(i)),
                    records@[i],
                ),
            processed == count_priced(records@.take(done as int), start.ticks_per_unit),
            rejected == count_rejected(records@.take(done as int), start.ticks_per_unit),
            skipped == count_corrupt(records@.take(done as int)),
            processed + rejected + skipped == done,
        decreases records@.len() - done,
    {
        let record: &HistoricalRecord = &records[done];
        proof {
            let next = records@.take(done + 1);
            assert(next.drop_last() == records@.take(done as int));
            lemma_replay_keeps_parameters(start, records@.take(done as int));
        }
        let outcome: ReplayOutcome = replay_record(engine, record);
        match outcome {
            ReplayOutcome::Processed { .. } => {
                processed = processed + 1;
            },
            ReplayOutcome::Rejected(_) => {
                rejected = rejected + 1;
            },
            ReplayOutcome::Skipped => {
                skipped = skipped + 1;
            },
        }
        outcomes.push(outcome);
        done = done + 1;
    }
    assert(records@.take(done as int) == records@);
    ReplayReport { outcomes, processed, rejected, skipped }
}

} // verus!
