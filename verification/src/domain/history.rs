//! What holds of every stream of events that the aggregate gives rise to.

use vstd::prelude::*;
use super::aggregates::{
    applied, counts_version, decision, opened, refusal, replay, replay_onto, SpecView,
};
use super::commands::SpecCommandView;
use super::errors::DomainErrorView;
use super::events::{legal_transition, SpecEventView, SpecState, Timestamp};
use super::value_objects::{content_error, name_error};

verus! {

/// Some command that may be handled on `spec` yields exactly `event`.
pub open spec fn emitted(spec: SpecView, event: SpecEventView) -> bool {
    exists|command: SpecCommandView, at: Timestamp|
        (counts_version(spec, command) ==> spec.version < u32::MAX) && #[trigger] decision(
            spec,
            command,
            at,
        ) == Ok::<Seq<SpecEventView>, DomainErrorView>(seq![event])
}

/// A history: a Created event with a name and content that break no rule, followed
/// by events that commands yielded, each on the state that the events before it
/// stand for.
pub open spec fn is_history(events: Seq<SpecEventView>) -> bool
    decreases events.len(),
{
    if events.len() == 0 {
        false
    } else if events.len() == 1 {
        events[0] matches SpecEventView::Created(e) && name_error(e.name) is None && content_error(
            e.content,
        ) is None
    } else {
        &&& is_history(events.drop_last())
        &&& replay(events.drop_last()) matches Ok(before) && emitted(before, events.last())
    }
}

/// How many of `events` are updates.
pub open spec fn updates(events: Seq<SpecEventView>) -> nat
    decreases events.len(),
{
    if events.len() == 0 {
        0
    } else {
        updates(events.drop_last()) + if events.last() is Updated {
            1nat
        } else {
            0nat
        }
    }
}

/// Folding a stream onto a state in two parts gives what folding it whole gives.
pub proof fn lemma_replay_onto_in_parts(
    spec: SpecView,
    first: Seq<SpecEventView>,
    rest: Seq<SpecEventView>,
)
    ensures
        replay_onto(spec, first + rest) == match replay_onto(spec, first) {
            Ok(mid) => replay_onto(mid, rest),
            Err(e) => Err(e),
        },
    decreases first.len(),
{
    if first.len() == 0 {
        assert(first + rest =~= rest);
    } else {
        let all = first + rest;
        assert(all[0] == first[0]);
        assert(all.drop_first() =~= first.drop_first() + rest);
        if refusal(first[0]) is None {
            lemma_replay_onto_in_parts(applied(spec, first[0]), first.drop_first(), rest);
        }
    }
}

/// Replaying a stream gives the same state however it is cut in two: the whole at
/// once, or a first part from nothing and the rest folded onto what that gave.
pub proof fn lemma_replay_in_parts(first: Seq<SpecEventView>, rest: Seq<SpecEventView>)
    requires
        first.len() > 0,
    ensures
        replay(first + rest) == match replay(first) {
            Ok(mid) => replay_onto(mid, rest),
            Err(e) => Err(e),
        },
{
    let all = first + rest;
    assert(all[0] == first[0]);
    assert(all.drop_first() =~= first.drop_first() + rest);
    if let SpecEventView::Created(e) = first[0] {
        lemma_replay_onto_in_parts(opened(e), first.drop_first(), rest);
    }
}

/// An emitted event is never refused, and it is an update with the next version or
/// a change of state along an edge of the lifecycle that leaves the version alone.
pub proof fn lemma_emitted_event(spec: SpecView, event: SpecEventView)
    requires
        emitted(spec, event),
    ensures
        refusal(event) is None,
        match event {
            SpecEventView::Created(_) => false,
            SpecEventView::Updated(e) => {
                &&& spec.state != SpecState::Deleted
                &&& e.spec_id == spec.id
                &&& e.version == spec.version + 1
            },
            SpecEventView::StateChanged(e) => {
                &&& e.spec_id == spec.id
                &&& e.version == spec.version
                &&& e.from_state == spec.state
                &&& legal_transition(e.from_state, e.to_state)
            },
        },
{
    let (command, at) = choose|command: SpecCommandView, at: Timestamp|
        (counts_version(spec, command) ==> spec.version < u32::MAX) && #[trigger] decision(
            spec,
            command,
            at,
        ) == Ok::<Seq<SpecEventView>, DomainErrorView>(seq![event]);
    let events = decision(spec, command, at)->Ok_0;
    assert(events[0] == event);
}

/// A history replays to a state, and the version of that state is one more than
/// the number of updates in the history.
pub proof fn lemma_version_counts_updates(events: Seq<SpecEventView>)
    requires
        is_history(events),
    ensures
        replay(events) matches Ok(spec) && spec.version == 1 + updates(events),
    decreases events.len(),
{
    if events.len() == 1 {
        assert(events.drop_first() =~= Seq::<SpecEventView>::empty());
        assert(updates(events.drop_last()) == 0);
    } else {
        let before = events.drop_last();
        let last = events.last();
        lemma_version_counts_updates(before);
        assert(events =~= before + seq![last]);
        lemma_replay_in_parts(before, seq![last]);
        let mid = replay(before)->Ok_0;
        lemma_emitted_event(mid, last);
        assert(replay_onto(mid, seq![last]) == Ok::<SpecView, DomainErrorView>(applied(mid, last)))
            by {
            reveal_with_fuel(replay_onto, 2);
            assert(seq![last].drop_first().len() == 0);
        }
    }
}

/// A history holds one Created event, its first.
pub proof fn lemma_history_opens_once(events: Seq<SpecEventView>, i: int)
    requires
        is_history(events),
        0 <= i < events.len(),
    ensures
        events[i] is Created <==> i == 0,
    decreases events.len(),
{
    if events.len() > 1 {
        let before = events.drop_last();
        if i < events.len() - 1 {
            lemma_history_opens_once(before, i);
            assert(before[i] == events[i]);
        } else {
            lemma_version_counts_updates(before);
            lemma_emitted_event(replay(before)->Ok_0, events.last());
        }
    }
}

/// Whatever a command yields, every change of state among it starts from the
/// current state and runs along an edge of the lifecycle.
pub proof fn lemma_only_legal_edges(spec: SpecView, command: SpecCommandView, at: Timestamp)
    ensures
        decision(spec, command, at) matches Ok(events) ==> forall|i: int|
            0 <= i < events.len() ==> (#[trigger] events[i] matches SpecEventView::StateChanged(e)
                ==> e.from_state == spec.state && legal_transition(e.from_state, e.to_state)),
{
}

/// The state to which a command means to move a specification, if it means to.
pub open spec fn target_state(command: SpecCommandView) -> Option<SpecState> {
    match command {
        SpecCommandView::Publish(_) => Some(SpecState::Published),
        SpecCommandView::Deprecate(_) => Some(SpecState::Deprecated),
        SpecCommandView::Delete(_) => Some(SpecState::Deleted),
        _ => None,
    }
}

/// A command that means to move a specification along no edge of the lifecycle
/// yields no event. Publishing and deprecating are then refused as an invalid
/// transition from the current state to the target, unless publishing names a
/// version that is not the current one, which is reported first; deleting what is
/// deleted is refused as an invalid state for the operation.
pub proof fn lemma_illegal_edge_is_refused(spec: SpecView, command: SpecCommandView, at: Timestamp)
    requires
        target_state(command) matches Some(to) && !legal_transition(spec.state, to),
    ensures
        decision(spec, command, at) is Err,
        match command {
            SpecCommandView::Publish(c) => if c.version is Some && c.version->0 != spec.version {
                decision(spec, command, at) == Err::<Seq<SpecEventView>, DomainErrorView>(
                    DomainErrorView::VersionMismatch {
                        expected: spec.version,
                        actual: c.version->0,
                    },
                )
            } else {
                decision(spec, command, at) == Err::<Seq<SpecEventView>, DomainErrorView>(
                    DomainErrorView::InvalidStateTransition {
                        from: spec.state,
                        to: SpecState::Published,
                    },
                )
            },
            SpecCommandView::Deprecate(_) => decision(spec, command, at) == Err::<
                Seq<SpecEventView>,
                DomainErrorView,
            >(
                DomainErrorView::InvalidStateTransition {
                    from: spec.state,
                    to: SpecState::Deprecated,
                },
            ),
            _ => decision(spec, command, at) == Err::<Seq<SpecEventView>, DomainErrorView>(
                DomainErrorView::InvalidStateForOperation(spec.state),
            ),
        },
{
}

/// In a history every change of state starts from the state that the events before
/// it stand for, and runs along an edge of the lifecycle.
pub proof fn lemma_history_follows_lifecycle(events: Seq<SpecEventView>, i: int)
    requires
        is_history(events),
        0 <= i < events.len(),
    ensures
        events[i] matches SpecEventView::StateChanged(e) ==> {
            &&& replay(events.take(i)) matches Ok(before) && before.state == e.from_state
            &&& legal_transition(e.from_state, e.to_state)
        },
    decreases events.len(),
{
    if events.len() > 1 {
        let before = events.drop_last();
        if i < events.len() - 1 {
            lemma_history_follows_lifecycle(before, i);
            assert(before.take(i) =~= events.take(i));
            assert(before[i] == events[i]);
        } else {
            assert(events.take(i) =~= before);
            lemma_version_counts_updates(before);
            lemma_emitted_event(replay(before)->Ok_0, events.last());
        }
    }
}

} // verus!
