//! Logs in which every specification has a history.

use vstd::prelude::*;
use crate::domain::aggregates::{applied, opened, replay, replay_onto, SpecView};
use crate::domain::events::{EventEnvelopeView, EventMetadataView, SpecEventView};
use crate::domain::history::is_history;
use super::convergence::log_events;
use super::event_store::{
    appended, belongs_to, lemma_dense_append, stamped, stream, valid_log,
};

verus! {

/// The events of one specification as the log holds them, oldest first.
pub open spec fn stored_events(log: Seq<EventEnvelopeView>, id: u128) -> Seq<SpecEventView> {
    log_events(stream(log, id))
}

/// Every one of `events` is about the specification `id`.
pub open spec fn about(events: Seq<SpecEventView>, id: u128) -> bool {
    forall|i: int| 0 <= i < events.len() ==> (#[trigger] events[i]).spec_id() == id
}

/// The log is kept: the events of every specification in it are a history, and
/// each of them is about that specification.
pub open spec fn kept(log: Seq<EventEnvelopeView>) -> bool {
    forall|id: u128|
        stream(log, id).len() > 0 ==> is_history(#[trigger] stored_events(log, id)) && about(
            stored_events(log, id),
            id,
        )
}

/// Folding events onto a state leaves its identifier alone.
pub proof fn lemma_replay_onto_keeps_id(spec: SpecView, events: Seq<SpecEventView>)
    ensures
        replay_onto(spec, events) matches Ok(last) ==> last.id == spec.id,
    decreases events.len(),
{
    if events.len() > 0 {
        lemma_replay_onto_keeps_id(applied(spec, events[0]), events.drop_first());
    }
}

/// The state that events replay to has the identifier that their first event names.
pub proof fn lemma_replay_id(events: Seq<SpecEventView>)
    ensures
        replay(events) matches Ok(spec) ==> spec.id == events[0].spec_id(),
{
    if events.len() > 0 {
        if let SpecEventView::Created(e) = events[0] {
            lemma_replay_onto_keeps_id(opened(e), events.drop_first());
        }
    }
}

/// A log without entries is kept.
pub proof fn lemma_empty_kept()
    ensures
        kept(Seq::<EventEnvelopeView>::empty()),
{
    let log = Seq::<EventEnvelopeView>::empty();
    assert forall|id: u128| stream(log, id).len() > 0 implies is_history(
        #[trigger] stored_events(log, id),
    ) && about(stored_events(log, id), id) by {
        log.lemma_filter_len(belongs_to(id));
    }
}

/// What an append makes of the events of each specification: those of the
/// specification appended to grow by the events appended, all others stay.
pub proof fn lemma_appended_events(
    before: Seq<EventEnvelopeView>,
    after: Seq<EventEnvelopeView>,
    id: u128,
    events: Seq<SpecEventView>,
    metadata: EventMetadataView,
)
    requires
        valid_log(before),
        appended(before, after, id, events, metadata),
    ensures
        stored_events(after, id) == stored_events(before, id) + events,
        stream(after, id).len() == stream(before, id).len() + events.len(),
        forall|other: u128| other != id ==> stream(after, other) == stream(before, other),
{
    let added = choose|added: Seq<EventEnvelopeView>|
        after == before + added && #[trigger] stamped(
            added,
            id,
            stream(before, id).len() as int,
            events,
            metadata,
        );
    lemma_dense_append(before, added, id);
    assert(log_events(stream(before, id) + added) =~= log_events(stream(before, id)) + events);
}

} // verus!
