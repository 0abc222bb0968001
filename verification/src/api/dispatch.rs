//! The path of every command on a specification that exists: rebuild it from the
//! log, let it decide, append what it decided.

use vstd::prelude::*;
use crate::domain::aggregates::{counts_version, decision, replay, replayed, Spec, SpecView};
use crate::domain::commands::{SpecCommand, SpecCommandView};
use crate::domain::errors::{DomainError, DomainErrorView};
use crate::domain::events::{
    event_views, EventEnvelope, EventEnvelopeView, EventMetadata, EventMetadataView, SpecEvent,
    SpecEventView, SpecState, Timestamp,
};
use crate::domain::sources::now;
use crate::infrastructure::convergence::log_events;
use super::upkeep::lemma_command_keeps;
use crate::infrastructure::event_store::{
    envelope_views, lemma_events_after, stamped, stream, valid_log, EventLog,
};
use crate::infrastructure::histories::{kept, stored_events};

verus! {

/// Why a command led to no event, by the step at which it stopped.
#[derive(Debug)]
pub enum Refusal {
    /// The log holds no event of the specification.
    NotFound,
    /// The events of the specification do not replay.
    Load(DomainError),
    /// The specification refuses the command.
    Command(DomainError),
    /// The log refuses the events.
    Append(DomainError),
}

pub enum RefusalView {
    NotFound,
    Load(DomainErrorView),
    Command(DomainErrorView),
    Append(DomainErrorView),
}

impl View for Refusal {
    type V = RefusalView;

    open spec fn view(&self) -> RefusalView {
        match self {
            Refusal::NotFound => RefusalView::NotFound,
            Refusal::Load(e) => RefusalView::Load(e@),
            Refusal::Command(e) => RefusalView::Command(e@),
            Refusal::Append(e) => RefusalView::Append(e@),
        }
    }
}

/// What a command comes to on the specification that `stored` are the events of, at
/// the instant `at`: the state on which it was decided and the events that it
/// yields, or why it yields none. A specification at the last version that can be
/// counted takes no further update.
pub open spec fn decided(
    stored: Seq<SpecEventView>,
    command: SpecCommandView,
    at: Timestamp,
) -> Result<(SpecView, Seq<SpecEventView>), RefusalView> {
    if stored.len() == 0 {
        Err(RefusalView::NotFound)
    } else {
        match replay(stored) {
            Err(e) => Err(RefusalView::Load(e)),
            Ok(spec) => if counts_version(spec, command) && spec.version == u32::MAX {
                Err(
                    RefusalView::Command(
                        DomainErrorView::EventStoreError("Version limit reached"@),
                    ),
                )
            } else {
                match decision(spec, command, at) {
                    Err(e) => Err(RefusalView::Command(e)),
                    Ok(events) => Ok((spec, events)),
                }
            },
        }
    }
}

/// What a command comes to on the specification `id` of `log` at the instant `at`:
/// what was decided on the events that the log holds of it, unless the log cannot
/// hold the events that were decided.
pub open spec fn judged(
    log: Seq<EventEnvelopeView>,
    id: u128,
    command: SpecCommandView,
    at: Timestamp,
) -> Result<(SpecView, Seq<SpecEventView>), RefusalView> {
    match decided(stored_events(log, id), command, at) {
        Err(x) => Err(x),
        Ok((spec, events)) => if log.len() + events.len() > i64::MAX {
            Err(RefusalView::Append(DomainErrorView::EventStoreError("Event log is full"@)))
        } else {
            Ok((spec, events))
        },
    }
}

/// The views of what a decision hands back.
pub open spec fn decided_view(r: Result<(Spec, Vec<SpecEvent>), Refusal>) -> Result<
    (SpecView, Seq<SpecEventView>),
    RefusalView,
> {
    match r {
        Ok((spec, events)) => Ok((spec@, event_views(events@))),
        Err(x) => Err(x@),
    }
}

/// The metadata of an event that a request caused: the request's correlation
/// identifier, and nothing else.
pub open spec fn request_metadata(correlation: u128) -> EventMetadataView {
    EventMetadataView {
        correlation_id: Some(correlation),
        causation_id: None,
        user_agent: None,
        ip_address: None,
    }
}

/// Metadata that says nothing.
pub open spec fn no_metadata() -> EventMetadataView {
    EventMetadataView {
        correlation_id: None,
        causation_id: None,
        user_agent: None,
        ip_address: None,
    }
}

/// The events that the envelopes carry.
pub fn events_of(envelopes: &Vec<EventEnvelope>) -> (events: Vec<SpecEvent>)
    ensures
        event_views(events@) == log_events(envelope_views(envelopes@)),
{
    let mut events: Vec<SpecEvent> = Vec::new();
    let mut i: usize = 0;
    while i < envelopes.len()
        invariant
            i <= envelopes@.len(),
            events@.len() == i,
            forall|j: int| 0 <= j < i ==> (#[trigger] events@[j])@ == envelopes@[j]@.event,
        decreases envelopes@.len() - i,
    {
        events.push(envelopes[i].event.clone());
        i += 1;
    }
    assert(event_views(events@) =~= log_events(envelope_views(envelopes@)));
    events
}

/// Rebuilds the specification `id` from its events in the log; nothing where the
/// log holds no event of it.
pub fn load(log: &EventLog, id: u128) -> (r: Option<Result<Spec, DomainError>>)
    ensures
        valid_log(log@),
        match r {
            None => stored_events(log@, id).len() == 0,
            Some(spec) => stored_events(log@, id).len() > 0 && replayed(spec) == replay(
                stored_events(log@, id),
            ),
        },
{
    let envelopes = log.get_events(id, None);
    proof {
        lemma_events_after(log@, id, 0);
        assert(stream(log@, id).skip(0) =~= stream(log@, id));
    }
    if envelopes.len() == 0 {
        return None;
    }
    Some(Spec::from_events(events_of(&envelopes)))
}

/// Decides a command on the specification that `stored` are the envelopes of, oldest
/// first, as of the instant `at`. Nothing is appended: the events are for the
/// caller to append.
pub fn decide_at(stored: &Vec<EventEnvelope>, command: SpecCommand, at: Timestamp) -> (r: Result<
    (Spec, Vec<SpecEvent>),
    Refusal,
>)
    ensures
        decided_view(r) == decided(log_events(envelope_views(stored@)), command@, at),
{
    if stored.len() == 0 {
        assert(log_events(envelope_views(stored@)).len() == stored@.len());
        return Err(Refusal::NotFound);
    }
    assert(log_events(envelope_views(stored@)).len() == stored@.len());
    let spec = match Spec::from_events(events_of(stored)) {
        Ok(spec) => spec,
        Err(e) => {
            return Err(Refusal::Load(e));
        },
    };
    let counts = match &command {
        SpecCommand::Update(_) => spec.state != SpecState::Deleted,
        _ => false,
    };
    if counts && spec.version.as_u32() == u32::MAX {
        return Err(
            Refusal::Command(DomainError::EventStoreError("Version limit reached".to_owned())),
        );
    }
    match spec.handle_command_at(command, at) {
        Ok(events) => Ok((spec, events)),
        Err(e) => Err(Refusal::Command(e)),
    }
}

/// Decides a command on the specification that `stored` are the envelopes of, at
/// the current time.
///
/// The outcome is that of `decide_at` for the instant that the clock gave.
pub fn decide(stored: &Vec<EventEnvelope>, command: SpecCommand) -> (r: Result<
    (Spec, Vec<SpecEvent>),
    Refusal,
>)
    ensures
        exists|at: Timestamp|
            decided_view(r) == #[trigger] decided(
                log_events(envelope_views(stored@)),
                command@,
                at,
            ),
{
    let at = now();
    let ghost given = command@;
    let r = decide_at(stored, command, at);
    assert(decided_view(r) == decided(log_events(envelope_views(stored@)), given, at));
    r
}

/// Handles a command on the specification `id` as of the instant `at`, and appends
/// the events that it yields. Where it yields none, the log stays as it was. A log
/// in which every specification has a history is left so.
pub fn attempt_at(
    log: &mut EventLog,
    id: u128,
    command: SpecCommand,
    metadata: EventMetadata,
    at: Timestamp,
) -> (r: Result<(Spec, Vec<EventEnvelope>), Refusal>)
    ensures
        valid_log(old(log)@),
        valid_log(final(log)@),
        kept(old(log)@) ==> kept(final(log)@),
        match judged(old(log)@, id, command@, at) {
            Err(refusal) => r matches Err(x) && x@ == refusal && final(log)@ == old(log)@,
            Ok((spec, events)) => {
                &&& r matches Ok((s, envelopes)) && s@ == spec && final(log)@ == old(log)@
                    + envelope_views(envelopes@) && stamped(
                    envelope_views(envelopes@),
                    id,
                    stream(old(log)@, id).len() as int,
                    events,
                    metadata@,
                )
            },
        },
{
    let ghost before = log@;
    let ghost given = command@;
    let stored = log.get_events(id, None);
    proof {
        lemma_events_after(log@, id, 0);
        assert(stream(log@, id).skip(0) =~= stream(log@, id));
    }
    let (spec, events) = match decide_at(&stored, command, at) {
        Ok(decided) => decided,
        Err(refusal) => {
            return Err(refusal);
        },
    };
    match log.append_events(id, events, metadata) {
        Ok(envelopes) => {
            proof {
                if kept(before) {
                    assert(stamped(
                        envelope_views(envelopes@),
                        id,
                        stream(before, id).len() as int,
                        judged(before, id, given, at)->Ok_0.1,
                        metadata@,
                    ));
                    lemma_command_keeps(before, log@, id, given, metadata@, at);
                }
            }
            Ok((spec, envelopes))
        },
        Err(e) => Err(Refusal::Append(e)),
    }
}

/// Handles a command on the specification `id` at the current time, and appends the
/// events that it yields.
///
/// The outcome is that of `attempt_at` for the instant that the clock gave.
pub fn attempt(log: &mut EventLog, id: u128, command: SpecCommand, metadata: EventMetadata) -> (r:
    Result<(Spec, Vec<EventEnvelope>), Refusal>)
    ensures
        valid_log(old(log)@),
        valid_log(final(log)@),
        kept(old(log)@) ==> kept(final(log)@),
        exists|at: Timestamp|
            match #[trigger] judged(old(log)@, id, command@, at) {
                Err(refusal) => r matches Err(x) && x@ == refusal && final(log)@ == old(log)@,
                Ok((spec, events)) => {
                    &&& r matches Ok((s, envelopes)) && s@ == spec && final(log)@ == old(log)@
                        + envelope_views(envelopes@) && stamped(
                        envelope_views(envelopes@),
                        id,
                        stream(old(log)@, id).len() as int,
                        events,
                        metadata@,
                    )
                },
            },
{
    let at = now();
    let ghost before = log@;
    let ghost given = command@;
    let r = attempt_at(log, id, command, metadata, at);
    proof {
        let j = judged(before, id, given, at);
        assert(match j {
            Err(refusal) => r matches Err(x) && x@ == refusal && log@ == before,
            Ok((spec, events)) => {
                &&& r matches Ok((s, envelopes)) && s@ == spec && log@ == before + envelope_views(
                    envelopes@,
                ) && stamped(
                    envelope_views(envelopes@),
                    id,
                    stream(before, id).len() as int,
                    events,
                    metadata@,
                )
            },
        });
    }
    r
}

} // verus!
