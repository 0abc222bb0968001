//! That the read models agree with the aggregates: on a log in which every
//! specification has a history, the processor is refused nothing, and the row of
//! every specification shows the state that its events replay to.

use vstd::prelude::*;
use crate::domain::aggregates::{applied, opened, replay, replay_onto, SpecView};
use crate::domain::errors::DomainErrorView;
use crate::domain::events::{EventEnvelopeView, SpecEventView};
use crate::domain::history::{is_history, lemma_emitted_event, lemma_replay_in_parts};
use super::convergence::{lemma_first_where_push, log_events, project, refused_at, taken};
use super::event_store::{belongs_to, stream};
use super::histories::{about, kept, lemma_replay_id, stored_events};
use super::projections::{
    consistent, created_record, created_row, empty_store, has_row, has_version,
    lemma_projected_consistent, lemma_row_by_id, lemma_row_by_id_rewritten, moved_row, projected,
    rejection, row_by_id, updated_record, updated_row, ReadModel, SpecProjectionView,
    VersionRecordView,
};

verus! {

/// A row shows a state: they agree on every attribute.
pub open spec fn shows(row: SpecProjectionView, spec: SpecView) -> bool {
    &&& row.id == spec.id
    &&& row.name == spec.name
    &&& row.content == spec.content
    &&& row.description == spec.description
    &&& row.version == spec.version
    &&& row.state == spec.state
    &&& row.created_at == spec.created_at
    &&& row.updated_at == spec.updated_at
    &&& row.created_by == spec.created_by
    &&& row.updated_by == spec.updated_by
}

/// The read models hold nothing of the specification `id`.
pub open spec fn knows_nothing(store: ReadModel, id: u128) -> bool {
    &&& !has_row(store.rows, id)
    &&& forall|v: u32| !has_version(store.history, id, v)
}

/// The read models hold of the specification `id` the row that shows the state that
/// `events` replay to, and on record no version beyond that state's.
pub open spec fn knows(store: ReadModel, id: u128, events: Seq<SpecEventView>) -> bool {
    &&& row_by_id(store.rows, id) matches Some(row) && replay(events) matches Ok(spec) && shows(
        row,
        spec,
    ) && forall|v: u32| has_version(store.history, id, v) ==> v <= spec.version
}

/// The read models mirror the log: of every specification they hold what its
/// events in the log amount to, and of a specification without events, nothing.
pub open spec fn mirrors(store: ReadModel, log: Seq<EventEnvelopeView>) -> bool {
    &&& consistent(store)
    &&& forall|id: u128|
        if (#[trigger] stream(log, id)).len() == 0 {
            knows_nothing(store, id)
        } else {
            knows(store, id, stored_events(log, id))
        }
}

/// A history cut after some of its events is a history.
pub proof fn lemma_history_prefix(events: Seq<SpecEventView>, k: int)
    requires
        is_history(events),
        1 <= k <= events.len(),
    ensures
        is_history(events.take(k)),
    decreases events.len(),
{
    if k == events.len() {
        assert(events.take(k) =~= events);
    } else {
        lemma_history_prefix(events.drop_last(), k);
        assert(events.drop_last().take(k) =~= events.take(k));
    }
}

/// What the last entry of a log adds to the events of each specification.
pub proof fn lemma_stored_events_push(log: Seq<EventEnvelopeView>, id: u128)
    requires
        log.len() > 0,
    ensures
        stored_events(log, id) == if log.last().aggregate_id == id {
            stored_events(log.drop_last(), id).push(log.last().event)
        } else {
            stored_events(log.drop_last(), id)
        },
        stream(log, id).len() == stream(log.drop_last(), id).len() + if log.last().aggregate_id
            == id {
            1int
        } else {
            0int
        },
{
    let init = log.drop_last();
    assert(init.push(log.last()) =~= log);
    init.lemma_filter_push(log.last(), belongs_to(id));
    if log.last().aggregate_id == id {
        assert(log_events(stream(init, id).push(log.last())) =~= log_events(stream(init, id)).push(
            log.last().event,
        ));
    }
}

/// A kept log without its last entry is kept.
pub proof fn lemma_kept_prefix(log: Seq<EventEnvelopeView>)
    requires
        kept(log),
        log.len() > 0,
    ensures
        kept(log.drop_last()),
{
    let init = log.drop_last();
    assert forall|id: u128| stream(init, id).len() > 0 implies is_history(
        #[trigger] stored_events(init, id),
    ) && about(stored_events(init, id), id) by {
        lemma_stored_events_push(log, id);
        let all = stored_events(log, id);
        let part = stored_events(init, id);
        assert(part.len() == stream(init, id).len());
        assert(is_history(all) && about(all, id));
        if log.last().aggregate_id == id {
            assert(all.drop_last() =~= part);
            lemma_history_prefix(all, all.len() - 1);
            assert(all.take(all.len() - 1) =~= part);
            assert forall|i: int| 0 <= i < part.len() implies (#[trigger] part[i]).spec_id()
                == id by {
                assert(all[i] == part[i]);
            }
        }
    }
}

/// The record that one event adds is all that changes in what is on record.
proof fn lemma_has_version_push(
    history: Seq<VersionRecordView>,
    record: VersionRecordView,
    id: u128,
    v: u32,
)
    ensures
        has_version(history.push(record), id, v) <==> has_version(history, id, v) || (record.id
            == id && record.version == v),
{
    let longer = history.push(record);
    if has_version(history, id, v) {
        let k = choose|k: int|
            0 <= k < history.len() && (#[trigger] history[k]).id == id && history[k].version == v;
        assert(longer[k] == history[k]);
    }
    if record.id == id && record.version == v {
        assert(longer[history.len() as int] == record);
    }
    if has_version(longer, id, v) {
        let k = choose|k: int|
            0 <= k < longer.len() && (#[trigger] longer[k]).id == id && longer[k].version == v;
        if k < history.len() {
            assert(history[k] == longer[k]);
        }
    }
}

/// Read models that mirror a log take the next event of a kept log, and mirror the
/// log with that event.
pub proof fn lemma_mirror_step(store: ReadModel, log: Seq<EventEnvelopeView>)
    requires
        log.len() > 0,
        kept(log),
        mirrors(store, log.drop_last()),
    ensures
        rejection(store, log.last().event) is None,
        mirrors(projected(store, log.last().event), log),
{
    let init = log.drop_last();
    let x = log.last();
    let e = x.event;
    let id = x.aggregate_id;
    let prev = stored_events(init, id);
    let all = stored_events(log, id);
    lemma_stored_events_push(log, id);
    assert(prev.len() == stream(init, id).len());
    assert(is_history(all) && about(all, id));
    assert(all.last() == e);
    assert(e.spec_id() == id);
    assert(all.drop_last() =~= prev);
    lemma_row_by_id(store.rows, id);
    lemma_projected_consistent(store, e);
    let next = projected(store, e);
    if prev.len() == 0 {
        assert(knows_nothing(store, id));
        assert(!has_version(store.history, id, 1));
        let c = e->Created_0;
        assert(all.drop_first().len() == 0);
        assert(replay(all) == Ok::<SpecView, DomainErrorView>(opened(c)));
        lemma_first_where_push(store.rows, created_row(c), |row: SpecProjectionView| row.id == id);
        assert forall|v: u32| has_version(next.history, id, v) implies v <= 1 by {
            lemma_has_version_push(store.history, created_record(c), id, v);
        }
        assert(knows(next, id, all));
    } else {
        assert(knows(store, id, prev));
        let spec = replay(prev)->Ok_0;
        let row = row_by_id(store.rows, id)->0;
        lemma_emitted_event(spec, e);
        lemma_replay_id(prev);
        assert(all =~= prev + seq![e]);
        lemma_replay_in_parts(prev, seq![e]);
        assert(replay_onto(spec, seq![e]) == Ok::<SpecView, DomainErrorView>(applied(spec, e)))
            by {
            reveal_with_fuel(replay_onto, 2);
            assert(seq![e].drop_first().len() == 0);
        }
        match e {
            SpecEventView::Created(_) => {},
            SpecEventView::Updated(u) => {
                assert(!has_version(store.history, id, u.version));
                lemma_row_by_id_rewritten(
                    store.rows,
                    |r: SpecProjectionView| updated_row(r, u),
                    id,
                );
                assert forall|v: u32| has_version(next.history, id, v) implies v
                    <= u.version by {
                    lemma_has_version_push(store.history, updated_record(u), id, v);
                }
            },
            SpecEventView::StateChanged(s) => {
                lemma_row_by_id_rewritten(store.rows, |r: SpecProjectionView| moved_row(r, s), id);
            },
        }
        assert(knows(next, id, all));
    }
    assert forall|other: u128|
        if (#[trigger] stream(log, other)).len() == 0 {
            knows_nothing(next, other)
        } else {
            knows(next, other, stored_events(log, other))
        } by {
        if other != id {
            lemma_stored_events_push(log, other);
            assert(stream(init, other).len() == stream(log, other).len());
            lemma_row_by_id(store.rows, other);
            lemma_row_by_id(next.rows, other);
            match e {
                SpecEventView::Created(c) => {
                    lemma_first_where_push(
                        store.rows,
                        created_row(c),
                        |row: SpecProjectionView| row.id == other,
                    );
                    assert forall|v: u32|
                        has_version(next.history, other, v) == has_version(
                            store.history,
                            other,
                            v,
                        ) by {
                        lemma_has_version_push(store.history, created_record(c), other, v);
                    }
                },
                SpecEventView::Updated(u) => {
                    lemma_row_by_id_rewritten(
                        store.rows,
                        |r: SpecProjectionView| updated_row(r, u),
                        other,
                    );
                    assert forall|v: u32|
                        has_version(next.history, other, v) == has_version(
                            store.history,
                            other,
                            v,
                        ) by {
                        lemma_has_version_push(store.history, updated_record(u), other, v);
                    }
                },
                SpecEventView::StateChanged(s) => {
                    lemma_row_by_id_rewritten(
                        store.rows,
                        |r: SpecProjectionView| moved_row(r, s),
                        other,
                    );
                },
            }
            if stream(init, other).len() == 0 {
                assert(knows_nothing(store, other));
            } else {
                assert(knows(store, other, stored_events(init, other)));
            }
        }
    }
}

/// On a log in which every specification has a history, read models that are
/// built from nothing are refused no event, and they mirror the log: the row of
/// every specification shows the state that its events replay to.
pub proof fn lemma_read_models_mirror(log: Seq<EventEnvelopeView>)
    requires
        kept(log),
    ensures
        mirrors(project(empty_store(), log_events(log)), log),
        forall|k: int| 0 <= k < log.len() ==> !refused_at(empty_store(), log_events(log), k),
    decreases log.len(),
{
    let events = log_events(log);
    if log.len() == 0 {
        assert forall|id: u128|
            if (#[trigger] stream(log, id)).len() == 0 {
                knows_nothing(empty_store(), id)
            } else {
                knows(empty_store(), id, stored_events(log, id))
            } by {
            log.lemma_filter_len(belongs_to(id));
        }
    } else {
        let init = log.drop_last();
        lemma_kept_prefix(log);
        lemma_read_models_mirror(init);
        assert(events.drop_last() =~= log_events(init));
        assert(events.last() == log.last().event);
        lemma_mirror_step(project(empty_store(), log_events(init)), log);
        assert forall|k: int| 0 <= k < log.len() implies !refused_at(
            empty_store(),
            events,
            k,
        ) by {
            if k < log.len() - 1 {
                assert(!refused_at(empty_store(), log_events(init), k));
                assert(log_events(init).take(k) =~= events.take(k));
                assert(log_events(init)[k] == events[k]);
            } else {
                assert(events.take(k) =~= log_events(init));
            }
        }
    }
}

/// A kept log cut short is kept.
pub proof fn lemma_kept_take(log: Seq<EventEnvelopeView>, k: int)
    requires
        kept(log),
        0 <= k <= log.len(),
    ensures
        kept(log.take(k)),
    decreases log.len() - k,
{
    if k == log.len() {
        assert(log.take(k) =~= log);
    } else {
        lemma_kept_take(log, k + 1);
        lemma_kept_prefix(log.take(k + 1));
        assert(log.take(k + 1).drop_last() =~= log.take(k));
    }
}

/// Read models that mirror a kept log up to the position `from`, and are offered
/// its entries from there up to the position `to`, take every one of them and
/// mirror the log up to `to`.
pub proof fn lemma_catch_up(store: ReadModel, log: Seq<EventEnvelopeView>, from: int, to: int)
    requires
        kept(log),
        0 <= from <= to <= log.len(),
        mirrors(store, log.take(from)),
    ensures
        mirrors(project(store, log_events(log.subrange(from, to))), log.take(to)),
        taken(store, log_events(log.subrange(from, to))) == to - from,
    decreases to - from,
{
    let part = log_events(log.subrange(from, to));
    if to > from {
        lemma_catch_up(store, log, from, to - 1);
        assert(part.drop_last() =~= log_events(log.subrange(from, to - 1)));
        assert(part.last() == log[to - 1].event);
        lemma_kept_take(log, to);
        assert(log.take(to).drop_last() =~= log.take(to - 1));
        assert(log.take(to).last() == log[to - 1]);
        lemma_mirror_step(project(store, part.drop_last()), log.take(to));
    }
}

} // verus!
