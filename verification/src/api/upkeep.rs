//! That the service keeps its log: what it appends leaves every specification in
//! the log with a history.

use vstd::prelude::*;
use crate::domain::aggregates::{counts_version, creation, decision};
use crate::domain::commands::{CreateSpecView, SpecCommandView};
use crate::domain::errors::DomainErrorView;
use crate::domain::events::{EventEnvelopeView, EventMetadataView, SpecEventView, Timestamp};
use crate::domain::history::{emitted, is_history, lemma_emitted_event};
use crate::infrastructure::event_store::{appended, stream, valid_log};
use crate::infrastructure::histories::{
    about, kept, lemma_appended_events, lemma_replay_id, stored_events,
};
use super::dispatch::judged;

verus! {

/// A command that was decided on a kept log and whose events were appended leaves
/// the log kept.
pub proof fn lemma_command_keeps(
    before: Seq<EventEnvelopeView>,
    after: Seq<EventEnvelopeView>,
    id: u128,
    command: SpecCommandView,
    metadata: EventMetadataView,
    at: Timestamp,
)
    requires
        valid_log(before),
        kept(before),
        judged(before, id, command, at) matches Ok(decided) && appended(
            before,
            after,
            id,
            decided.1,
            metadata,
        ),
    ensures
        kept(after),
{
    let (spec, events) = judged(before, id, command, at)->Ok_0;
    let prev = stored_events(before, id);
    lemma_appended_events(before, after, id, events, metadata);
    assert(stream(before, id).len() == prev.len());
    assert(is_history(prev) && about(prev, id));
    let e = events[0];
    assert(events =~= seq![e]);
    assert(emitted(spec, e)) by {
        assert((counts_version(spec, command) ==> spec.version < u32::MAX) && decision(
            spec,
            command,
            at,
        ) == Ok::<Seq<SpecEventView>, DomainErrorView>(seq![e]));
    }
    lemma_emitted_event(spec, e);
    lemma_replay_id(prev);
    let next = stored_events(after, id);
    assert(next.drop_last() =~= prev);
    assert(next.last() == e);
    assert(is_history(next));
    assert(about(next, id)) by {
        assert forall|i: int| 0 <= i < next.len() implies (#[trigger] next[i]).spec_id() == id by {
            if i < prev.len() {
                assert(next[i] == prev[i]);
            }
        }
    }
    assert forall|other: u128| stream(after, other).len() > 0 implies is_history(
        #[trigger] stored_events(after, other),
    ) && about(stored_events(after, other), other) by {
        if other != id {
            assert(stored_events(after, other) == stored_events(before, other));
        }
    }
}

/// A specification that was created under an identifier that the log did not hold
/// leaves a kept log kept.
pub proof fn lemma_creation_keeps(
    before: Seq<EventEnvelopeView>,
    after: Seq<EventEnvelopeView>,
    id: u128,
    command: CreateSpecView,
    metadata: EventMetadataView,
    at: Timestamp,
)
    requires
        valid_log(before),
        kept(before),
        stream(before, id).len() == 0,
        creation(command, id, at) matches Ok(events) && appended(
            before,
            after,
            id,
            events,
            metadata,
        ),
    ensures
        kept(after),
{
    let events = creation(command, id, at)->Ok_0;
    lemma_appended_events(before, after, id, events, metadata);
    let next = stored_events(after, id);
    assert(stored_events(before, id).len() == stream(before, id).len());
    assert(next =~= events);
    assert(is_history(next));
    assert forall|other: u128| stream(after, other).len() > 0 implies is_history(
        #[trigger] stored_events(after, other),
    ) && about(stored_events(after, other), other) by {
        if other != id {
            assert(stored_events(after, other) == stored_events(before, other));
        }
    }
}

} // verus!
