//! What the read models amount to after a run of events, however the run was fed
//! to them.

use vstd::prelude::*;
use crate::domain::events::{EventEnvelopeView, SpecEventView};
use super::projections::{
    consistent, empty_store, first_where, has_row, has_version, lemma_projected_consistent,
    projected, record_of, rejection, version_content, ReadModel, VersionRecordView,
};

verus! {

/// The events of a log, in its order.
pub open spec fn log_events(log: Seq<EventEnvelopeView>) -> Seq<SpecEventView> {
    log.map_values(|e: EventEnvelopeView| e.event)
}

/// The store after `events` were offered to it one by one. An event that is
/// refused leaves the store as it was, and the next is offered.
pub open spec fn project(store: ReadModel, events: Seq<SpecEventView>) -> ReadModel
    decreases events.len(),
{
    if events.len() == 0 {
        store
    } else {
        projected(project(store, events.drop_last()), events.last())
    }
}

/// How many of `events` the store took when they were offered to it one by one.
pub open spec fn taken(store: ReadModel, events: Seq<SpecEventView>) -> nat
    decreases events.len(),
{
    if events.len() == 0 {
        0
    } else {
        taken(store, events.drop_last()) + if rejection(
            project(store, events.drop_last()),
            events.last(),
        ) is None {
            1nat
        } else {
            0nat
        }
    }
}

/// The event at place `k` is refused when `events` are offered one by one.
pub open spec fn refused_at(store: ReadModel, events: Seq<SpecEventView>, k: int) -> bool {
    rejection(project(store, events.take(k)), events[k]) is Some
}

/// What a version's content is taken from, where `event` supplies it: a Created
/// event supplies version 1 of its specification, an Updated event its own version.
pub open spec fn supplies(event: SpecEventView, id: u128, version: u32) -> Option<
    (Seq<char>, Option<Seq<char>>),
> {
    match event {
        SpecEventView::Created(e) => if e.spec_id == id && version == 1 {
            Some((e.content, e.description))
        } else {
            None
        },
        SpecEventView::Updated(e) => if e.spec_id == id && e.version == version {
            Some((e.content, e.description))
        } else {
            None
        },
        SpecEventView::StateChanged(_) => None,
    }
}

/// What the earliest of `events` that supplies a version supplied for it.
pub open spec fn first_supplied(events: Seq<SpecEventView>, id: u128, version: u32) -> Option<
    (Seq<char>, Option<Seq<char>>),
>
    decreases events.len(),
{
    if events.len() == 0 {
        None
    } else {
        match first_supplied(events.drop_last(), id, version) {
            Some(c) => Some(c),
            None => supplies(events.last(), id, version),
        }
    }
}

/// Offering events keeps a consistent store consistent.
pub proof fn lemma_project_consistent(store: ReadModel, events: Seq<SpecEventView>)
    requires
        consistent(store),
    ensures
        consistent(project(store, events)),
    decreases events.len(),
{
    if events.len() > 0 {
        lemma_project_consistent(store, events.drop_last());
        lemma_projected_consistent(project(store, events.drop_last()), events.last());
    }
}

/// Offering a run of events in two parts leaves the store as offering the whole
/// run does: read models that were rebuilt from a first part of the log and then
/// caught up with the rest hold the rows of read models that followed the log from
/// its start.
pub proof fn lemma_project_in_parts(
    store: ReadModel,
    first: Seq<SpecEventView>,
    rest: Seq<SpecEventView>,
)
    ensures
        project(store, first + rest) == project(project(store, first), rest),
        taken(store, first + rest) == taken(store, first) + taken(project(store, first), rest),
    decreases rest.len(),
{
    if rest.len() == 0 {
        assert(first + rest =~= first);
    } else {
        let all = first + rest;
        assert(all.drop_last() =~= first + rest.drop_last());
        assert(all.last() == rest.last());
        lemma_project_in_parts(store, first, rest.drop_last());
    }
}

/// Read models that were rebuilt from a log as it stood, and then caught up with
/// what was appended since, hold the rows and the history of read models that
/// followed the whole log from its start.
pub proof fn lemma_rebuild_then_catch_up(
    log: Seq<EventEnvelopeView>,
    appended: Seq<EventEnvelopeView>,
)
    ensures
        project(project(empty_store(), log_events(log)), log_events(appended)) == project(
            empty_store(),
            log_events(log + appended),
        ),
{
    assert(log_events(log + appended) =~= log_events(log) + log_events(appended));
    lemma_project_in_parts(empty_store(), log_events(log), log_events(appended));
}

/// Looking through a sequence with one more entry at its end finds what was found
/// before, or else that entry where it is wanted.
pub proof fn lemma_first_where_push<A>(s: Seq<A>, last: A, wanted: spec_fn(A) -> bool)
    ensures
        first_where(s.push(last), wanted) == match first_where(s, wanted) {
            Some(x) => Some(x),
            None => if wanted(last) {
                Some(last)
            } else {
                None
            },
        },
    decreases s.len(),
{
    let longer = s.push(last);
    if s.len() == 0 {
        reveal_with_fuel(first_where, 2);
        assert(longer.drop_first().len() == 0);
    } else {
        assert(longer[0] == s[0]);
        assert(longer.drop_first() =~= s.drop_first().push(last));
        lemma_first_where_push(s.drop_first(), last, wanted);
    }
}

/// A version has a record exactly where the history holds it.
pub proof fn lemma_record_of(history: Seq<VersionRecordView>, id: u128, version: u32)
    ensures
        record_of(history, id, version) is Some <==> has_version(history, id, version),
        record_of(history, id, version) matches Some(r) ==> r.id == id && r.version == version,
    decreases history.len(),
{
    let wanted = |r: VersionRecordView| r.id == id && r.version == version;
    if history.len() > 0 {
        lemma_record_of(history.drop_first(), id, version);
        if !wanted(history[0]) {
            if has_version(history, id, version) {
                let k = choose|k: int|
                    0 <= k < history.len() && (#[trigger] history[k]).id == id
                        && history[k].version == version;
                assert(history.drop_first()[k - 1] == history[k]);
            }
            if has_version(history.drop_first(), id, version) {
                let k = choose|k: int|
                    0 <= k < history.drop_first().len() && (#[trigger] history.drop_first()[k]).id
                        == id && history.drop_first()[k].version == version;
                assert(history[k + 1] == history.drop_first()[k]);
            }
        } else {
            assert(history[0].id == id);
        }
    }
}

/// After one event the content on record for a version is what was on record
/// before, or else what the event supplies for it.
pub proof fn lemma_projected_version(
    store: ReadModel,
    event: SpecEventView,
    id: u128,
    version: u32,
)
    requires
        consistent(store),
    ensures
        version_content(projected(store, event).history, id, version) == match version_content(
            store.history,
            id,
            version,
        ) {
            Some(c) => Some(c),
            None => supplies(event, id, version),
        },
{
    let wanted = |r: VersionRecordView| r.id == id && r.version == version;
    lemma_record_of(store.history, id, version);
    match event {
        SpecEventView::Created(e) => {
            lemma_record_of(store.history, e.spec_id, 1);
            if has_row(store.rows, e.spec_id) {
                let i = choose|i: int| 0 <= i < store.rows.len() && (#[trigger] store.rows[i]).id
                    == e.spec_id;
                assert(has_version(store.history, store.rows[i].id, 1));
            }
            if rejection(store, event) is None {
                lemma_first_where_push(
                    store.history,
                    super::projections::created_record(e),
                    wanted,
                );
            }
        },
        SpecEventView::Updated(e) => {
            lemma_record_of(store.history, e.spec_id, e.version);
            if rejection(store, event) is None {
                lemma_first_where_push(
                    store.history,
                    super::projections::updated_record(e),
                    wanted,
                );
            }
        },
        SpecEventView::StateChanged(_) => {},
    }
}

/// After a run of events the content on record for a version is what was on record
/// before the run, or else what the earliest event of the run that supplies the
/// version supplied for it.
pub proof fn lemma_project_version(
    store: ReadModel,
    events: Seq<SpecEventView>,
    id: u128,
    version: u32,
)
    requires
        consistent(store),
    ensures
        version_content(project(store, events).history, id, version) == match version_content(
            store.history,
            id,
            version,
        ) {
            Some(c) => Some(c),
            None => first_supplied(events, id, version),
        },
    decreases events.len(),
{
    if events.len() > 0 {
        lemma_project_version(store, events.drop_last(), id, version);
        lemma_project_consistent(store, events.drop_last());
        lemma_projected_version(project(store, events.drop_last()), events.last(), id, version);
    }
}

/// In read models that were built from nothing, the content on record for a
/// version is exactly what the Created or Updated event at that version supplied:
/// the earliest such event of the run, as a later one with the same version is refused.
pub proof fn lemma_version_is_what_was_supplied(
    events: Seq<SpecEventView>,
    id: u128,
    version: u32,
)
    ensures
        version_content(project(empty_store(), events).history, id, version) == first_supplied(
            events,
            id,
            version,
        ),
{
    lemma_project_version(empty_store(), events, id, version);
}

} // verus!
