//! The append-only log of events, with a sequence number per specification and
//! one order for the whole log.

use vstd::prelude::*;
use crate::domain::errors::{DomainError, DomainErrorView};
use crate::domain::events::{
    event_views, EventEnvelope, EventEnvelopeView, EventMetadata, EventMetadataView, SpecEvent,
    SpecEventView,
};
use crate::domain::sources::{fresh_id, marked_random};
use super::paging::{window, window_bounds};

verus! {

/// The views of a sequence of envelopes, in order.
pub open spec fn envelope_views(envelopes: Seq<EventEnvelope>) -> Seq<EventEnvelopeView> {
    envelopes.map_values(|e: EventEnvelope| e@)
}

/// The envelopes of one specification.
pub open spec fn belongs_to(id: u128) -> spec_fn(EventEnvelopeView) -> bool {
    |e: EventEnvelopeView| e.aggregate_id == id
}

/// The envelopes of one specification that come after a sequence number.
pub open spec fn follows(id: u128, after: int) -> spec_fn(EventEnvelopeView) -> bool {
    |e: EventEnvelopeView| e.aggregate_id == id && e.sequence_number > after
}

/// The events of one specification, in the order of the log.
pub open spec fn stream(log: Seq<EventEnvelopeView>, id: u128) -> Seq<EventEnvelopeView> {
    log.filter(belongs_to(id))
}

/// Within every specification the sequence numbers run 1, 2, 3, ... in the order of
/// the log, without a gap and without a repeat.
pub open spec fn dense(log: Seq<EventEnvelopeView>) -> bool {
    forall|id: u128, k: int|
        0 <= k < stream(log, id).len() ==> (#[trigger] stream(log, id)[k]).sequence_number == k
            + 1
}

/// What holds of every log: it is dense, and its positions fit in an `i64`.
pub open spec fn valid_log(log: Seq<EventEnvelopeView>) -> bool {
    dense(log) && log.len() <= i64::MAX
}

/// What an append adds to the log: one envelope per event, each under an identifier
/// that is marked as random, all of one specification and with one copy of the
/// metadata, numbered on from `last`.
pub open spec fn stamped(
    envelopes: Seq<EventEnvelopeView>,
    aggregate_id: u128,
    last: int,
    events: Seq<SpecEventView>,
    metadata: EventMetadataView,
) -> bool {
    &&& envelopes.len() == events.len()
    &&& forall|i: int|
        0 <= i < envelopes.len() ==> {
            &&& marked_random((#[trigger] envelopes[i]).event_id)
            &&& envelopes[i].aggregate_id == aggregate_id
            &&& envelopes[i].sequence_number == last + i + 1
            &&& envelopes[i].event == events[i]
            &&& envelopes[i].metadata == metadata
        }
}

/// The log `after` is the log `before` with `events` appended to the stream of the
/// specification `id`, numbered on from the length of that stream.
pub open spec fn appended(
    before: Seq<EventEnvelopeView>,
    after: Seq<EventEnvelopeView>,
    id: u128,
    events: Seq<SpecEventView>,
    metadata: EventMetadataView,
) -> bool {
    exists|added: Seq<EventEnvelopeView>|
        after == before + added && #[trigger] stamped(
            added,
            id,
            stream(before, id).len() as int,
            events,
            metadata,
        )
}

/// A log without entries is dense.
pub proof fn lemma_dense_empty()
    ensures
        dense(Seq::<EventEnvelopeView>::empty()),
{
    let log = Seq::<EventEnvelopeView>::empty();
    assert forall|id: u128, k: int| 0 <= k < stream(log, id).len() implies (#[trigger] stream(
        log,
        id,
    )[k]).sequence_number == k + 1 by {
        log.lemma_filter_len(belongs_to(id));
    }
}

/// A log that is cut short is still dense.
pub proof fn lemma_dense_prefix(log: Seq<EventEnvelopeView>, k: int)
    requires
        dense(log),
        0 <= k <= log.len(),
    ensures
        dense(log.take(k)),
{
    let head = log.take(k);
    let tail = log.skip(k);
    assert(log =~= head + tail);
    assert forall|id: u128, j: int| 0 <= j < stream(head, id).len() implies (#[trigger] stream(
        head,
        id,
    )[j]).sequence_number == j + 1 by {
        Seq::filter_distributes_over_add(head, tail, belongs_to(id));
        assert(stream(log, id)[j] == stream(head, id)[j]);
    }
}

/// Envelopes that are numbered on from the length of a specification's stream keep
/// a dense log dense.
pub proof fn lemma_dense_append(
    log: Seq<EventEnvelopeView>,
    added: Seq<EventEnvelopeView>,
    aggregate_id: u128,
)
    requires
        dense(log),
        forall|i: int|
            0 <= i < added.len() ==> (#[trigger] added[i]).aggregate_id == aggregate_id
                && added[i].sequence_number == stream(log, aggregate_id).len() + i + 1,
    ensures
        dense(log + added),
        stream(log + added, aggregate_id) == stream(log, aggregate_id) + added,
        forall|id: u128| id != aggregate_id ==> stream(log + added, id) == stream(log, id),
{
    lemma_stream_of_own(added, aggregate_id);
    Seq::filter_distributes_over_add(log, added, belongs_to(aggregate_id));
    assert forall|id: u128| id != aggregate_id implies stream(log + added, id) == stream(
        log,
        id,
    ) by {
        lemma_stream_of_other(added, aggregate_id, id);
        Seq::filter_distributes_over_add(log, added, belongs_to(id));
        assert(stream(log, id) + Seq::<EventEnvelopeView>::empty() =~= stream(log, id));
    }
    assert forall|id: u128, k: int| 0 <= k < stream(log + added, id).len() implies (
    #[trigger] stream(log + added, id)[k]).sequence_number == k + 1 by {
        if id == aggregate_id {
            if k >= stream(log, id).len() {
                assert(stream(log + added, id)[k] == added[k - stream(log, id).len()]);
            } else {
                assert(stream(log + added, id)[k] == stream(log, id)[k]);
            }
        } else {
            assert(stream(log + added, id)[k] == stream(log, id)[k]);
        }
    }
}

/// A run of envelopes of one specification is that specification's stream.
pub proof fn lemma_stream_of_own(run: Seq<EventEnvelopeView>, id: u128)
    requires
        forall|i: int| 0 <= i < run.len() ==> (#[trigger] run[i]).aggregate_id == id,
    ensures
        stream(run, id) == run,
    decreases run.len(),
{
    reveal(Seq::filter);
    if run.len() > 0 {
        lemma_stream_of_own(run.drop_last(), id);
        assert(run.drop_last().push(run.last()) =~= run);
    }
}

/// A run of envelopes of one specification holds nothing of another.
pub proof fn lemma_stream_of_other(run: Seq<EventEnvelopeView>, own: u128, other: u128)
    requires
        own != other,
        forall|i: int| 0 <= i < run.len() ==> (#[trigger] run[i]).aggregate_id == own,
    ensures
        stream(run, other) == Seq::<EventEnvelopeView>::empty(),
    decreases run.len(),
{
    reveal(Seq::filter);
    if run.len() > 0 {
        lemma_stream_of_other(run.drop_last(), own, other);
    }
}

/// In a dense log the events of a specification after a sequence number are its
/// stream without that many of its first events, so that they carry the sequence
/// numbers that follow, each once and in order.
pub proof fn lemma_events_after(log: Seq<EventEnvelopeView>, id: u128, after: int)
    requires
        dense(log),
    ensures
        log.filter(follows(id, after)) == stream(log, id).skip(
            if after < 0 {
                0
            } else if after > stream(log, id).len() {
                stream(log, id).len() as int
            } else {
                after
            },
        ),
        forall|k: int|
            0 <= k < log.filter(follows(id, after)).len() ==> (#[trigger] log.filter(
                follows(id, after),
            )[k]).sequence_number == (if after < 0 {
                0
            } else {
                after
            }) + k + 1,
    decreases log.len(),
{
    reveal(Seq::filter);
    if log.len() > 0 {
        let init = log.drop_last();
        let x = log.last();
        assert(init =~= log.take(log.len() - 1));
        lemma_dense_prefix(log, log.len() - 1);
        lemma_events_after(init, id, after);
        assert(init.push(x) =~= log);
        if x.aggregate_id == id {
            let own = stream(log, id);
            assert(own[own.len() - 1] == x);
            if x.sequence_number > after {
                let cut = if after < 0 {
                    0
                } else {
                    after
                };
                assert(stream(init, id).push(x).skip(cut) =~= stream(init, id).skip(cut).push(x));
            }
        }
    }
    let cut = if after < 0 {
        0
    } else if after > stream(log, id).len() {
        stream(log, id).len() as int
    } else {
        after
    };
    assert forall|k: int| 0 <= k < log.filter(follows(id, after)).len() implies (
    #[trigger] log.filter(follows(id, after))[k]).sequence_number == (if after < 0 {
        0
    } else {
        after
    }) + k + 1 by {
        assert(log.filter(follows(id, after))[k] == stream(log, id)[cut + k]);
    }
}

/// The append-only log. Its entries stand in the order in which they were appended;
/// the position of an entry, counted from 1, is the cursor of readers of the whole log.
pub struct EventLog {
    entries: Vec<EventEnvelope>,
}

impl View for EventLog {
    type V = Seq<EventEnvelopeView>;

    closed spec fn view(&self) -> Seq<EventEnvelopeView> {
        envelope_views(self.entries@)
    }
}

impl EventLog {
    #[verifier::type_invariant]
    spec fn sequenced(self) -> bool {
        valid_log(envelope_views(self.entries@))
    }

    /// An empty log.
    pub fn new() -> (log: Self)
        ensures
            log@ == Seq::<EventEnvelopeView>::empty(),
    {
        let entries: Vec<EventEnvelope> = Vec::new();
        proof {
            lemma_dense_empty();
            assert(envelope_views(entries@) =~= Seq::<EventEnvelopeView>::empty());
        }
        EventLog { entries }
    }

    /// How many entries the log holds.
    pub fn len(&self) -> (n: usize)
        ensures
            n == self@.len(),
            valid_log(self@),
    {
        proof {
            use_type_invariant(self);
        }
        self.entries.len()
    }

    /// The highest sequence number that a specification has in the log, or 0 where it
    /// has no event. In a dense log that is the number of its events.
    pub fn last_sequence(&self, aggregate_id: u128) -> (last: i64)
        ensures
            last == stream(self@, aggregate_id).len(),
            valid_log(self@),
    {
        proof {
            use_type_invariant(self);
        }
        let ghost log = self@;
        let mut last: i64 = 0;
        let mut k: usize = 0;
        proof {
            log.take(0).lemma_filter_len(belongs_to(aggregate_id));
        }
        while k < self.entries.len()
            invariant
                k <= self.entries.len(),
                log == envelope_views(self.entries@),
                valid_log(log),
                last == stream(log.take(k as int), aggregate_id).len(),
            decreases self.entries.len() - k,
        {
            let entry = &self.entries[k];
            proof {
                let head = log.take(k as int);
                let next = log.take(k + 1);
                assert(next =~= head.push(log[k as int]));
                head.lemma_filter_push(log[k as int], belongs_to(aggregate_id));
                lemma_dense_prefix(log, k + 1);
                if entry.aggregate_id == aggregate_id {
                    let own = stream(next, aggregate_id);
                    assert(own[own.len() - 1] == log[k as int]);
                }
            }
            if entry.aggregate_id == aggregate_id && entry.sequence_number > last {
                last = entry.sequence_number;
            }
            k += 1;
        }
        assert(log.take(k as int) =~= log);
        last
    }

    /// Appends `events` to the stream of one specification, all of them or none.
    ///
    /// On success every event gets an identifier of its own and the next sequence
    /// number of the specification, and the envelopes that were appended are handed
    /// back. The append fails, and leaves the log as it was, only where the log would
    /// grow beyond the positions that an `i64` can hold.
    pub fn append_events(
        &mut self,
        aggregate_id: u128,
        events: Vec<SpecEvent>,
        metadata: EventMetadata,
    ) -> (r: Result<Vec<EventEnvelope>, DomainError>)
        ensures
            valid_log(old(self)@),
            valid_log(final(self)@),
            match r {
                Ok(envelopes) => {
                    &&& old(self)@.len() + events@.len() <= i64::MAX
                    &&& final(self)@ == old(self)@ + envelope_views(envelopes@)
                    &&& stamped(
                        envelope_views(envelopes@),
                        aggregate_id,
                        stream(old(self)@, aggregate_id).len() as int,
                        event_views(events@),
                        metadata@,
                    )
                },
                Err(e) => {
                    &&& old(self)@.len() + events@.len() > i64::MAX
                    &&& e@ == DomainErrorView::EventStoreError("Event log is full"@)
                    &&& final(self)@ == old(self)@
                },
            },
    {
        let last = self.last_sequence(aggregate_id);
        proof {
            use_type_invariant(&*self);
            self@.lemma_filter_len(belongs_to(aggregate_id));
        }
        if events.len() as u64 > i64::MAX as u64 || self.entries.len() as u64 > i64::MAX as u64 - (
        events.len() as u64) {
            return Err(DomainError::EventStoreError("Event log is full".to_owned()));
        }
        let envelopes = stamp(aggregate_id, last, events, metadata);
        let mut copies = envelopes.clone();
        let mut entries: Vec<EventEnvelope> = Vec::new();
        proof {
            use_type_invariant(&*self);
            assert(copies@ =~= envelopes@);
            lemma_dense_append(self@, envelope_views(envelopes@), aggregate_id);
            assert(envelope_views(self.entries@ + copies@) =~= envelope_views(self.entries@)
                + envelope_views(copies@));
            lemma_dense_empty();
            assert(envelope_views(entries@) =~= Seq::<EventEnvelopeView>::empty());
        }
        std::mem::swap(&mut self.entries, &mut entries);
        entries.append(&mut copies);
        std::mem::swap(&mut self.entries, &mut entries);
        Ok(envelopes)
    }

    /// The events of one specification with a sequence number above `from_sequence`
    /// (above 0 where none is given), oldest first.
    pub fn get_events(&self, aggregate_id: u128, from_sequence: Option<i64>) -> (envelopes: Vec<
        EventEnvelope,
    >)
        ensures
            envelope_views(envelopes@) == self@.filter(
                follows(
                    aggregate_id,
                    match from_sequence {
                        Some(n) => n as int,
                        None => 0,
                    },
                ),
            ),
            valid_log(self@),
    {
        proof {
            use_type_invariant(self);
        }
        let after = match from_sequence {
            Some(n) => n,
            None => 0,
        };
        let ghost log = self@;
        let ghost wanted = follows(aggregate_id, after as int);
        let mut envelopes: Vec<EventEnvelope> = Vec::new();
        let mut k: usize = 0;
        proof {
            log.take(0).lemma_filter_len(wanted);
            assert(envelope_views(envelopes@) =~= log.take(0).filter(wanted));
        }
        while k < self.entries.len()
            invariant
                k <= self.entries.len(),
                log == envelope_views(self.entries@),
                wanted == follows(aggregate_id, after as int),
                envelope_views(envelopes@) == log.take(k as int).filter(wanted),
            decreases self.entries.len() - k,
        {
            let entry = &self.entries[k];
            proof {
                assert(log.take(k + 1) =~= log.take(k as int).push(log[k as int]));
                log.take(k as int).lemma_filter_push(log[k as int], wanted);
            }
            if entry.aggregate_id == aggregate_id && entry.sequence_number > after {
                let ghost before = envelopes@;
                envelopes.push(entry.clone());
                assert(envelope_views(envelopes@) =~= envelope_views(before).push(log[k as int]));
            }
            k += 1;
        }
        assert(log.take(k as int) =~= log);
        envelopes
    }

    /// The entries of the whole log after position `from_global_sequence`, at most
    /// `limit` of them, each with the specification it belongs to. The position of an
    /// entry is its place in the log, counted from 1. A negative position reads from
    /// the start, and a negative limit sets no bound.
    pub fn get_all_events(&self, from_global_sequence: i64, limit: i64) -> (entries: Vec<
        (u128, EventEnvelope),
    >)
        ensures
            entries@.len() == window(self@, limit as int, from_global_sequence as int).len(),
            forall|i: int|
                0 <= i < entries@.len() ==> (#[trigger] entries@[i]).0 == window(
                    self@,
                    limit as int,
                    from_global_sequence as int,
                )[i].aggregate_id && entries@[i].1@ == window(
                    self@,
                    limit as int,
                    from_global_sequence as int,
                )[i],
            valid_log(self@),
    {
        proof {
            use_type_invariant(self);
        }
        let (start, end) = window_bounds(self.entries.len(), limit, from_global_sequence);
        let ghost log = self@;
        let mut entries: Vec<(u128, EventEnvelope)> = Vec::new();
        let mut k: usize = start;
        while k < end
            invariant
                start <= k <= end <= self.entries.len(),
                log == envelope_views(self.entries@),
                entries@.len() == k - start,
                forall|i: int|
                    0 <= i < entries@.len() ==> (#[trigger] entries@[i]).0 == log[start
                        + i].aggregate_id && entries@[i].1@ == log[start + i],
            decreases end - k,
        {
            let entry = &self.entries[k];
            entries.push((entry.aggregate_id, entry.clone()));
            k += 1;
        }
        entries
    }
}

/// Wraps each event in an envelope of its own: a fresh identifier, the specification,
/// the next sequence number after `last`, and a copy of the metadata.
pub fn stamp(
    aggregate_id: u128,
    last: i64,
    events: Vec<SpecEvent>,
    metadata: EventMetadata,
) -> (envelopes: Vec<EventEnvelope>)
    requires
        0 <= last,
        last + events@.len() <= i64::MAX,
    ensures
        stamped(
            envelope_views(envelopes@),
            aggregate_id,
            last as int,
            event_views(events@),
            metadata@,
        ),
{
    let mut envelopes: Vec<EventEnvelope> = Vec::new();
    let mut i: usize = 0;
    while i < events.len()
        invariant
            i <= events.len(),
            0 <= last,
            last + events@.len() <= i64::MAX,
            envelopes@.len() == i,
            forall|j: int|
                0 <= j < i ==> {
                    &&& marked_random((#[trigger] envelopes@[j]).event_id)
                    &&& envelopes@[j].aggregate_id == aggregate_id
                    &&& envelopes@[j].sequence_number == last + j + 1
                    &&& envelopes@[j].event@ == events@[j]@
                    &&& envelopes@[j].metadata@ == metadata@
                },
        decreases events.len() - i,
    {
        let event_id = fresh_id();
        let sequence_number = last + (i as i64) + 1;
        envelopes.push(
            EventEnvelope {
                event_id,
                aggregate_id,
                sequence_number,
                event: events[i].clone(),
                metadata: metadata.clone(),
            },
        );
        i += 1;
    }
    envelopes
}

} // verus!
