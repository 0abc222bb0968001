//! The processor: it follows the log with a cursor and offers every event to the
//! read models, in the order of the log.

use vstd::prelude::*;
use crate::domain::errors::{DomainError, DomainErrorView};
use crate::domain::events::SpecEventView;
use super::agreement::{lemma_catch_up, lemma_read_models_mirror, mirrors};
use super::convergence::{log_events, project, refused_at, taken};
use super::event_store::{valid_log, EventLog};
use super::histories::kept;
use super::paging::{window, window_end, window_start};
use super::projections::{empty_store, rejection, ProjectionStore};

verus! {

/// How many events the processor reads at a time.
pub const BATCH_SIZE: i64 = 100;

/// How many events a rebuild reads at a time.
pub const REBUILD_BATCH_SIZE: i64 = 1000;

/// How long the processor waits when the log held nothing new, in milliseconds.
pub const POLL_INTERVAL_MS: u64 = 100;

/// How long the processor waits when the log could not be read, in milliseconds.
pub const RETRY_DELAY_MS: u64 = 1000;

/// What the processor does after a turn of its loop.
#[derive(Debug, Clone, Copy, PartialEq, Eq, Structural)]
pub enum Pace {
    /// Leave the loop.
    Stop,
    /// Read on at once.
    Proceed,
    /// Wait for so many milliseconds, then read on.
    Sleep(u64),
}

/// What came of one batch: how many events were read from the log, and how many of
/// them the read models took.
#[derive(Debug, Clone, Copy, PartialEq, Eq, Structural)]
pub struct Batch {
    pub read: usize,
    pub processed: usize,
}

/// Where the cursor stands after a batch, and what the processor does next. After a
/// batch that held events the cursor moves on by the number of those that were
/// taken, and the processor reads on at once; so a batch of which nothing was taken
/// is read again. After a batch without events the processor waits for the poll
/// interval; after a failure to read it waits for the retry delay. The cursor never
/// moves back.
pub open spec fn batch_verdict(position: i64, outcome: Result<Batch, DomainError>) -> (i64, Pace) {
    match outcome {
        Ok(batch) => if batch.read > 0 {
            ((position + batch.processed) as i64, Pace::Proceed)
        } else {
            (position, Pace::Sleep(POLL_INTERVAL_MS))
        },
        Err(_) => (position, Pace::Sleep(RETRY_DELAY_MS)),
    }
}

/// Decides how the processor goes on after a batch.
pub fn after_batch(position: i64, outcome: &Result<Batch, DomainError>) -> (next: (i64, Pace))
    requires
        *outcome matches Ok(batch) ==> position + batch.processed <= i64::MAX,
    ensures
        next == batch_verdict(position, *outcome),
        next.0 >= position,
{
    match outcome {
        Ok(batch) => {
            if batch.read > 0 {
                ((position as i128 + batch.processed as i128) as i64, Pace::Proceed)
            } else {
                (position, Pace::Sleep(POLL_INTERVAL_MS))
            }
        },
        Err(_) => (position, Pace::Sleep(RETRY_DELAY_MS)),
    }
}

/// Reads up to `limit` events after position `from_position` and offers each to
/// the read models, in order. An event that the read models refuse is passed over.
/// The result counts the events that were read and those that were taken.
///
/// On a log in which every specification has a history, read models that mirror
/// the log up to where the batch starts take the whole batch, and mirror the log up
/// to where the batch ends.
pub fn process_batch(
    log: &EventLog,
    store: &mut ProjectionStore,
    from_position: i64,
    limit: i64,
) -> (batch: Batch)
    ensures
        final(store)@ == project(
            old(store)@,
            log_events(window(log@, limit as int, from_position as int)),
        ),
        batch.read == window(log@, limit as int, from_position as int).len(),
        batch.processed == taken(
            old(store)@,
            log_events(window(log@, limit as int, from_position as int)),
        ),
        batch.processed <= batch.read,
        valid_log(log@),
        kept(log@) && mirrors(
            old(store)@,
            log@.take(window_start(log@.len(), from_position as int)),
        ) ==> batch.processed == batch.read && mirrors(
            final(store)@,
            log@.take(window_end(log@.len(), limit as int, from_position as int)),
        ),
{
    let entries = log.get_all_events(from_position, limit);
    let ghost before = store@;
    let ghost events = log_events(window(log@, limit as int, from_position as int));
    let mut processed: usize = 0;
    let mut k: usize = 0;
    while k < entries.len()
        invariant
            k <= entries@.len(),
            entries@.len() == events.len(),
            forall|i: int|
                0 <= i < entries@.len() ==> (#[trigger] entries@[i]).1@.event == events[i],
            store@ == project(before, events.take(k as int)),
            processed == taken(before, events.take(k as int)),
            processed <= k,
        decreases entries@.len() - k,
    {
        proof {
            assert(events.take(k + 1).drop_last() =~= events.take(k as int));
            assert(events.take(k + 1).last() == events[k as int]);
        }
        let entry = &entries[k];
        match store.apply_event(entry.0, &entry.1.event) {
            Ok(()) => {
                processed += 1;
            },
            Err(_) => {},
        }
        k += 1;
    }
    assert(events.take(k as int) =~= events);
    proof {
        let start = window_start(log@.len(), from_position as int);
        let end = window_end(log@.len(), limit as int, from_position as int);
        if kept(log@) && mirrors(before, log@.take(start)) {
            lemma_catch_up(before, log@, start, end);
        }
    }
    Batch { read: entries.len(), processed }
}

/// The cursor of a processor: the position in the log up to which it has read.
#[derive(Debug)]
pub struct EventProcessor {
    position: i64,
}

impl View for EventProcessor {
    type V = i64;

    closed spec fn view(&self) -> i64 {
        self.position
    }
}

impl EventProcessor {
    /// A processor that has read the log up to `from_position`.
    pub fn new(from_position: i64) -> (processor: Self)
        ensures
            processor@ == from_position,
    {
        EventProcessor { position: from_position }
    }

    /// The position up to which the processor has read.
    pub fn position(&self) -> (position: i64)
        ensures
            position == self@,
    {
        self.position
    }

    /// One turn of the processor's loop.
    ///
    /// Where shutdown was asked for, nothing is read and the loop ends. Otherwise
    /// one batch is processed from the cursor on, and the cursor moves on by the
    /// number of events that were taken. The result says to read on at once where
    /// the batch held events, and to wait first where it held none.
    ///
    /// On a log in which every specification has a history, read models that mirror
    /// the log up to the cursor mirror it up to the cursor afterwards too, and the
    /// cursor has moved on by the whole batch.
    pub fn step(&mut self, log: &EventLog, store: &mut ProjectionStore, shutdown: bool) -> (pace:
        Pace)
        ensures
            shutdown ==> pace == Pace::Stop && final(self)@ == old(self)@ && final(store)@ == old(
                store,
            )@,
            !shutdown ==> {
                let events = log_events(window(log@, BATCH_SIZE as int, old(self)@ as int));
                &&& final(store)@ == project(old(store)@, events)
                &&& final(self)@ == old(self)@ + taken(old(store)@, events)
                &&& pace == if events.len() > 0 {
                    Pace::Proceed
                } else {
                    Pace::Sleep(POLL_INTERVAL_MS)
                }
            },
            !shutdown && kept(log@) && 0 <= old(self)@ <= log@.len() && mirrors(
                old(store)@,
                log@.take(old(self)@ as int),
            ) ==> final(self)@ == window_end(log@.len(), BATCH_SIZE as int, old(self)@ as int)
                && mirrors(final(store)@, log@.take(final(self)@ as int)),
    {
        if shutdown {
            return Pace::Stop;
        }
        let batch = process_batch(log, store, self.position, BATCH_SIZE);
        let (position, pace) = after_batch(self.position, &Ok(batch));
        self.position = position;
        pace
    }
}

/// Forgets the read models and builds them anew from the whole log, in its order.
///
/// The rebuild stops at the first event that the read models refuse and reports
/// why; the read models then hold what the events before it amount to. On a log in
/// which every specification has a history no event is refused, and the read models
/// come to mirror the log.
pub fn rebuild_projections(log: &EventLog, store: &mut ProjectionStore) -> (r: Result<
    (),
    DomainError,
>)
    ensures
        match r {
            Ok(_) => {
                &&& forall|k: int|
                    0 <= k < log@.len() ==> !refused_at(empty_store(), log_events(log@), k)
                &&& final(store)@ == project(empty_store(), log_events(log@))
            },
            Err(e) => exists|k: int|
                {
                    &&& 0 <= k < log@.len()
                    &&& #[trigger] refused_at(empty_store(), log_events(log@), k)
                    &&& forall|j: int|
                        0 <= j < k ==> !refused_at(empty_store(), log_events(log@), j)
                    &&& final(store)@ == project(empty_store(), log_events(log@).take(k))
                    &&& e@ == DomainErrorView::ProjectionError(
                        rejection(
                            project(empty_store(), log_events(log@).take(k)),
                            log_events(log@)[k],
                        )->0,
                    )
                },
        },
        kept(log@) ==> r is Ok && mirrors(final(store)@, log@),
{
    store.clear();
    let ghost events = log_events(log@);
    let mut position: i64 = 0;
    let len = log.len();
    assert(events.take(0) =~= Seq::<SpecEventView>::empty());
    loop
        invariant
            valid_log(log@),
            len == log@.len(),
            events == log_events(log@),
            0 <= position <= log@.len(),
            store@ == project(empty_store(), events.take(position as int)),
            forall|j: int| 0 <= j < position ==> !refused_at(empty_store(), events, j),
        decreases log@.len() - position,
    {
        let entries = log.get_all_events(position, REBUILD_BATCH_SIZE);
        if entries.len() == 0 {
            assert(position == log@.len());
            assert(events.take(position as int) =~= events);
            proof {
                if kept(log@) {
                    lemma_read_models_mirror(log@);
                }
            }
            return Ok(());
        }
        let ghost batch = window(log@, REBUILD_BATCH_SIZE as int, position as int);
        let mut i: usize = 0;
        while i < entries.len()
            invariant
                i <= entries@.len(),
                valid_log(log@),
                events == log_events(log@),
                0 <= position,
                position + entries@.len() <= log@.len(),
                batch == window(log@, REBUILD_BATCH_SIZE as int, position as int),
                batch == log@.subrange(position as int, position + entries@.len()),
                entries@.len() == batch.len(),
                forall|j: int| 0 <= j < entries@.len() ==> (#[trigger] entries@[j]).1@ == batch[j],
                store@ == project(empty_store(), events.take(position + i)),
                forall|j: int| 0 <= j < position + i ==> !refused_at(empty_store(), events, j),
            decreases entries@.len() - i,
        {
            proof {
                assert(events.take(position + i + 1).drop_last() =~= events.take(position + i));
                assert(events.take(position + i + 1).last() == events[position + i]);
                assert(batch[i as int] == log@[position + i]);
            }
            let entry = &entries[i];
            match store.apply_event(entry.0, &entry.1.event) {
                Ok(()) => {},
                Err(e) => {
                    assert(refused_at(empty_store(), events, position + i));
                    proof {
                        if kept(log@) {
                            lemma_read_models_mirror(log@);
                        }
                    }
                    return Err(e);
                },
            }
            i += 1;
        }
        position = position + entries.len() as i64;
    }
}

} // verus!
