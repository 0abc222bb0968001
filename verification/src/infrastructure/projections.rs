//! The read models: the current state of every specification, and the content of
//! every version that a specification ever had.

use vstd::prelude::*;
use crate::domain::errors::{DomainError, DomainErrorView};
use crate::domain::events::{
    same_text, text, SpecCreated, SpecCreatedView, SpecEvent, SpecEventView, SpecState,
    SpecStateChanged, SpecStateChangedView, SpecUpdated, SpecUpdatedView, Timestamp,
};
use super::convergence::lemma_first_where_push;
use super::listing::{is_listing, list_order, listed, listing, places};
use super::paging::{window, window_bounds};

verus! {

/// The current state of one specification, for point reads.
#[derive(Debug)]
pub struct SpecProjection {
    pub id: u128,
    pub name: String,
    pub content: String,
    pub description: Option<String>,
    pub version: u32,
    pub state: SpecState,
    pub created_at: Timestamp,
    pub updated_at: Timestamp,
    pub created_by: String,
    pub updated_by: String,
}

pub struct SpecProjectionView {
    pub id: u128,
    pub name: Seq<char>,
    pub content: Seq<char>,
    pub description: Option<Seq<char>>,
    pub version: u32,
    pub state: SpecState,
    pub created_at: Timestamp,
    pub updated_at: Timestamp,
    pub created_by: Seq<char>,
    pub updated_by: Seq<char>,
}

impl View for SpecProjection {
    type V = SpecProjectionView;

    open spec fn view(&self) -> SpecProjectionView {
        SpecProjectionView {
            id: self.id,
            name: self.name@,
            content: self.content@,
            description: text(self.description),
            version: self.version,
            state: self.state,
            created_at: self.created_at,
            updated_at: self.updated_at,
            created_by: self.created_by@,
            updated_by: self.updated_by@,
        }
    }
}

impl Clone for SpecProjection {
    fn clone(&self) -> (copy: Self)
        ensures
            copy == *self,
    {
        SpecProjection {
            id: self.id,
            name: self.name.clone(),
            content: self.content.clone(),
            description: self.description.clone(),
            version: self.version,
            state: self.state,
            created_at: self.created_at,
            updated_at: self.updated_at,
            created_by: self.created_by.clone(),
            updated_by: self.updated_by.clone(),
        }
    }
}

/// What a list shows of one specification.
#[derive(Debug)]
pub struct SpecSummaryProjection {
    pub id: u128,
    pub name: String,
    pub description: Option<String>,
    pub latest_version: u32,
    pub state: SpecState,
    pub updated_at: Timestamp,
}

pub struct SpecSummaryProjectionView {
    pub id: u128,
    pub name: Seq<char>,
    pub description: Option<Seq<char>>,
    pub latest_version: u32,
    pub state: SpecState,
    pub updated_at: Timestamp,
}

impl View for SpecSummaryProjection {
    type V = SpecSummaryProjectionView;

    open spec fn view(&self) -> SpecSummaryProjectionView {
        SpecSummaryProjectionView {
            id: self.id,
            name: self.name@,
            description: text(self.description),
            latest_version: self.latest_version,
            state: self.state,
            updated_at: self.updated_at,
        }
    }
}

impl Clone for SpecSummaryProjection {
    fn clone(&self) -> (copy: Self)
        ensures
            copy == *self,
    {
        SpecSummaryProjection {
            id: self.id,
            name: self.name.clone(),
            description: self.description.clone(),
            latest_version: self.latest_version,
            state: self.state,
            updated_at: self.updated_at,
        }
    }
}

/// The content that one version of one specification had.
#[derive(Debug)]
pub struct VersionRecord {
    pub id: u128,
    pub version: u32,
    pub content: String,
    pub description: Option<String>,
    pub created_at: Timestamp,
    pub created_by: String,
}

pub struct VersionRecordView {
    pub id: u128,
    pub version: u32,
    pub content: Seq<char>,
    pub description: Option<Seq<char>>,
    pub created_at: Timestamp,
    pub created_by: Seq<char>,
}

impl View for VersionRecord {
    type V = VersionRecordView;

    open spec fn view(&self) -> VersionRecordView {
        VersionRecordView {
            id: self.id,
            version: self.version,
            content: self.content@,
            description: text(self.description),
            created_at: self.created_at,
            created_by: self.created_by@,
        }
    }
}

impl Clone for VersionRecord {
    fn clone(&self) -> (copy: Self)
        ensures
            copy == *self,
    {
        VersionRecord {
            id: self.id,
            version: self.version,
            content: self.content.clone(),
            description: self.description.clone(),
            created_at: self.created_at,
            created_by: self.created_by.clone(),
        }
    }
}

/// The two read models together: the rows of current state in the order in which
/// they were inserted, and the version history in the order in which it grew.
pub struct ReadModel {
    pub rows: Seq<SpecProjectionView>,
    pub history: Seq<VersionRecordView>,
}

/// The views of a sequence of rows.
pub open spec fn row_views(rows: Seq<SpecProjection>) -> Seq<SpecProjectionView> {
    rows.map_values(|r: SpecProjection| r@)
}

/// The views of a sequence of version records.
pub open spec fn record_views(records: Seq<VersionRecord>) -> Seq<VersionRecordView> {
    records.map_values(|r: VersionRecord| r@)
}

/// The store before any event.
pub open spec fn empty_store() -> ReadModel {
    ReadModel { rows: Seq::empty(), history: Seq::empty() }
}

/// Some row is that of specification `id`.
pub open spec fn has_row(rows: Seq<SpecProjectionView>, id: u128) -> bool {
    exists|i: int| 0 <= i < rows.len() && (#[trigger] rows[i]).id == id
}

/// The history holds version `version` of specification `id`.
pub open spec fn has_version(history: Seq<VersionRecordView>, id: u128, version: u32) -> bool {
    exists|k: int|
        0 <= k < history.len() && (#[trigger] history[k]).id == id && history[k].version
            == version
}

/// No specification has two rows, no version of a specification is recorded twice,
/// and every specification with a row has its first version on record.
pub open spec fn consistent(store: ReadModel) -> bool {
    &&& forall|i: int, j: int|
        0 <= i < j < store.rows.len() ==> (#[trigger] store.rows[i]).id != (
        #[trigger] store.rows[j]).id
    &&& forall|i: int, j: int|
        0 <= i < j < store.history.len() ==> !((#[trigger] store.history[i]).id == (
        #[trigger] store.history[j]).id && store.history[i].version == store.history[j].version)
    &&& forall|i: int|
        0 <= i < store.rows.len() ==> has_version(store.history, (#[trigger] store.rows[i]).id, 1)
}

/// The first entry of `s` that is wanted, if any is.
pub open spec fn first_where<A>(s: Seq<A>, wanted: spec_fn(A) -> bool) -> Option<A>
    decreases s.len(),
{
    if s.len() == 0 {
        None
    } else if wanted(s[0]) {
        Some(s[0])
    } else {
        first_where(s.drop_first(), wanted)
    }
}

/// The row of specification `id`, if it has one.
pub open spec fn row_by_id(rows: Seq<SpecProjectionView>, id: u128) -> Option<SpecProjectionView> {
    first_where(rows, |row: SpecProjectionView| row.id == id)
}

/// The oldest row under the name `name`, if there is one.
pub open spec fn row_by_name(rows: Seq<SpecProjectionView>, name: Seq<char>) -> Option<
    SpecProjectionView,
> {
    first_where(rows, |row: SpecProjectionView| row.name == name)
}

/// The record of version `version` of specification `id`, if it is on record.
pub open spec fn record_of(history: Seq<VersionRecordView>, id: u128, version: u32) -> Option<
    VersionRecordView,
> {
    first_where(history, |r: VersionRecordView| r.id == id && r.version == version)
}

/// The content and the description that version `version` of specification `id`
/// had, if that version is on record.
pub open spec fn version_content(history: Seq<VersionRecordView>, id: u128, version: u32) -> Option<
    (Seq<char>, Option<Seq<char>>),
> {
    match record_of(history, id, version) {
        Some(r) => Some((r.content, r.description)),
        None => None,
    }
}

/// What a list shows of a row.
pub open spec fn summary_of(row: SpecProjectionView) -> SpecSummaryProjectionView {
    SpecSummaryProjectionView {
        id: row.id,
        name: row.name,
        description: row.description,
        latest_version: row.version,
        state: row.state,
        updated_at: row.updated_at,
    }
}

/// The views of a sequence of summaries.
pub open spec fn summary_views(summaries: Seq<SpecSummaryProjection>) -> Seq<
    SpecSummaryProjectionView,
> {
    summaries.map_values(|s: SpecSummaryProjection| s@)
}

/// One page of the list of the rows that `filter` admits, the row updated last
/// first: the list without its first `offset` entries, cut after `limit` entries.
/// Where some order lists those rows, `listing` is that order; every query that
/// hands out a page says that it is.
pub open spec fn listing_page(
    rows: Seq<SpecProjectionView>,
    filter: Option<SpecState>,
    limit: int,
    offset: int,
) -> Seq<SpecSummaryProjectionView> {
    window(listing(rows, filter), limit, offset).map_values(|i: int| summary_of(rows[i]))
}

/// The view of a row that a query may have found.
pub open spec fn found_row(r: Option<SpecProjection>) -> Option<SpecProjectionView> {
    match r {
        Some(row) => Some(row@),
        None => None,
    }
}

/// The view of a content and description that a query may have found.
pub open spec fn found_content(r: Option<(String, Option<String>)>) -> Option<
    (Seq<char>, Option<Seq<char>>),
> {
    match r {
        Some(pair) => Some((pair.0@, text(pair.1))),
        None => None,
    }
}

/// The row that a Created event inserts: version 1, a draft.
pub open spec fn created_row(e: SpecCreatedView) -> SpecProjectionView {
    SpecProjectionView {
        id: e.spec_id,
        name: e.name,
        content: e.content,
        description: e.description,
        version: 1,
        state: SpecState::Draft,
        created_at: e.created_at,
        updated_at: e.created_at,
        created_by: e.created_by,
        updated_by: e.created_by,
    }
}

/// The record that a Created event inserts, for version 1.
pub open spec fn created_record(e: SpecCreatedView) -> VersionRecordView {
    VersionRecordView {
        id: e.spec_id,
        version: 1,
        content: e.content,
        description: e.description,
        created_at: e.created_at,
        created_by: e.created_by,
    }
}

/// What an Updated event makes of a row: the row itself unless it is that of the
/// event's specification, and then with the event's content, description, version,
/// time and user.
pub open spec fn updated_row(row: SpecProjectionView, e: SpecUpdatedView) -> SpecProjectionView {
    if row.id == e.spec_id {
        SpecProjectionView {
            content: e.content,
            description: e.description,
            version: e.version,
            updated_at: e.updated_at,
            updated_by: e.updated_by,
            ..row
        }
    } else {
        row
    }
}

/// The record that an Updated event inserts, for the event's version.
pub open spec fn updated_record(e: SpecUpdatedView) -> VersionRecordView {
    VersionRecordView {
        id: e.spec_id,
        version: e.version,
        content: e.content,
        description: e.description,
        created_at: e.updated_at,
        created_by: e.updated_by,
    }
}

/// What a StateChanged event makes of a row: the row itself unless it is that of
/// the event's specification, and then with the event's target state and time.
pub open spec fn moved_row(row: SpecProjectionView, e: SpecStateChangedView) -> SpecProjectionView {
    if row.id == e.spec_id {
        SpecProjectionView { state: e.to_state, updated_at: e.changed_at, ..row }
    } else {
        row
    }
}

/// What is said of a row that is there already.
pub open spec fn row_conflict() -> Seq<char> {
    "UNIQUE constraint failed: spec_projections.id"@
}

/// What is said of a version that is on record already.
pub open spec fn record_conflict() -> Seq<char> {
    "UNIQUE constraint failed: spec_version_history.id, spec_version_history.version"@
}

/// Why the store refuses an event, if it does. A Created event is refused where its
/// specification has a row, or has version 1 on record; an Updated event where its
/// version of its specification is on record. A state change is never refused.
pub open spec fn rejection(store: ReadModel, event: SpecEventView) -> Option<Seq<char>> {
    match event {
        SpecEventView::Created(e) => if has_row(store.rows, e.spec_id) {
            Some(row_conflict())
        } else if has_version(store.history, e.spec_id, 1) {
            Some(record_conflict())
        } else {
            None
        },
        SpecEventView::Updated(e) => if has_version(store.history, e.spec_id, e.version) {
            Some(record_conflict())
        } else {
            None
        },
        SpecEventView::StateChanged(_) => None,
    }
}

/// The store after an event that it does not refuse.
pub open spec fn absorbed(store: ReadModel, event: SpecEventView) -> ReadModel {
    match event {
        SpecEventView::Created(e) => ReadModel {
            rows: store.rows.push(created_row(e)),
            history: store.history.push(created_record(e)),
        },
        SpecEventView::Updated(e) => ReadModel {
            rows: store.rows.map_values(|row: SpecProjectionView| updated_row(row, e)),
            history: store.history.push(updated_record(e)),
        },
        SpecEventView::StateChanged(e) => ReadModel {
            rows: store.rows.map_values(|row: SpecProjectionView| moved_row(row, e)),
            history: store.history,
        },
    }
}

/// The store after an event was offered to it: changed as the event says, or, where
/// the event is refused, as it was.
pub open spec fn projected(store: ReadModel, event: SpecEventView) -> ReadModel {
    if rejection(store, event) is None {
        absorbed(store, event)
    } else {
        store
    }
}

/// Offering an event keeps a consistent store consistent.
pub proof fn lemma_projected_consistent(store: ReadModel, event: SpecEventView)
    requires
        consistent(store),
    ensures
        consistent(projected(store, event)),
{
    if rejection(store, event) is None {
        let next = absorbed(store, event);
        match event {
            SpecEventView::Created(e) => {
                assert(next.history[store.history.len() as int] == created_record(e));
                assert forall|i: int| 0 <= i < next.rows.len() implies has_version(
                    next.history,
                    (#[trigger] next.rows[i]).id,
                    1,
                ) by {
                    if i < store.rows.len() {
                        let k = choose|k: int|
                            0 <= k < store.history.len() && (#[trigger] store.history[k]).id
                                == store.rows[i].id && store.history[k].version == 1;
                        assert(next.history[k] == store.history[k]);
                    }
                }
            },
            SpecEventView::Updated(e) => {
                assert forall|i: int| 0 <= i < next.rows.len() implies has_version(
                    next.history,
                    (#[trigger] next.rows[i]).id,
                    1,
                ) by {
                    let k = choose|k: int|
                        0 <= k < store.history.len() && (#[trigger] store.history[k]).id
                            == store.rows[i].id && store.history[k].version == 1;
                    assert(next.history[k] == store.history[k]);
                }
            },
            SpecEventView::StateChanged(e) => {
                assert forall|i: int| 0 <= i < next.rows.len() implies has_version(
                    next.history,
                    (#[trigger] next.rows[i]).id,
                    1,
                ) by {
                    let k = choose|k: int|
                        0 <= k < store.history.len() && (#[trigger] store.history[k]).id
                            == store.rows[i].id && store.history[k].version == 1;
                    assert(next.history[k] == store.history[k]);
                }
            },
        }
    }
}

/// A specification has a row exactly where looking for it finds one, and the row
/// found is its own.
pub proof fn lemma_row_by_id(rows: Seq<SpecProjectionView>, id: u128)
    ensures
        row_by_id(rows, id) is Some <==> has_row(rows, id),
        row_by_id(rows, id) matches Some(row) ==> row.id == id,
    decreases rows.len(),
{
    if rows.len() > 0 {
        lemma_row_by_id(rows.drop_first(), id);
        if rows[0].id != id {
            if has_row(rows, id) {
                let i = choose|i: int| 0 <= i < rows.len() && (#[trigger] rows[i]).id == id;
                assert(rows.drop_first()[i - 1] == rows[i]);
            }
            if has_row(rows.drop_first(), id) {
                let i = choose|i: int|
                    0 <= i < rows.drop_first().len() && (#[trigger] rows.drop_first()[i]).id == id;
                assert(rows[i + 1] == rows.drop_first()[i]);
            }
        }
    }
}

/// Rewriting rows without touching their identifiers finds the rewritten row where
/// the row was found.
pub proof fn lemma_row_by_id_rewritten(
    rows: Seq<SpecProjectionView>,
    rewrite: spec_fn(SpecProjectionView) -> SpecProjectionView,
    id: u128,
)
    requires
        forall|row: SpecProjectionView| (#[trigger] rewrite(row)).id == row.id,
    ensures
        row_by_id(rows.map_values(rewrite), id) == match row_by_id(rows, id) {
            Some(row) => Some(rewrite(row)),
            None => None,
        },
    decreases rows.len(),
{
    let rewritten = rows.map_values(rewrite);
    if rows.len() > 0 {
        assert(rewritten[0] == rewrite(rows[0]));
        assert(rewritten.drop_first() =~= rows.drop_first().map_values(rewrite));
        lemma_row_by_id_rewritten(rows.drop_first(), rewrite, id);
    }
}

/// Looking through a sequence finds the first entry that is wanted.
pub proof fn lemma_first_where_at<A>(s: Seq<A>, wanted: spec_fn(A) -> bool, i: int)
    requires
        0 <= i < s.len(),
        wanted(s[i]),
        forall|j: int| 0 <= j < i ==> !wanted(#[trigger] s[j]),
    ensures
        first_where(s, wanted) == Some(s[i]),
    decreases s.len(),
{
    if i > 0 {
        assert(!wanted(s[0]));
        assert forall|j: int| 0 <= j < i - 1 implies !wanted(#[trigger] s.drop_first()[j]) by {
            assert(s.drop_first()[j] == s[j + 1]);
        }
        lemma_first_where_at(s.drop_first(), wanted, i - 1);
    }
}

/// The cache holds of the specification `id` what the rows hold: its row, or nothing.
pub open spec fn cached_at(
    cache: Map<u128, SpecProjection>,
    rows: Seq<SpecProjectionView>,
    id: u128,
) -> bool {
    match row_by_id(rows, id) {
        Some(row) => cache.contains_key(id) && cache[id]@ == row,
        None => !cache.contains_key(id),
    }
}

/// The cache holds of every specification what the rows hold.
pub open spec fn cached(cache: Map<u128, SpecProjection>, rows: Seq<SpecProjectionView>) -> bool {
    forall|id: u128| #[trigger] cached_at(cache, rows, id)
}

/// Writes the row of the specification `id` through to the cache, where there is a
/// cache and the specification has a row.
fn write_through(
    cache: Option<std::collections::HashMap<u128, SpecProjection>>,
    rows: &Vec<SpecProjection>,
    id: u128,
) -> (fresh: Option<std::collections::HashMap<u128, SpecProjection>>)
    requires
        cache matches Some(c) ==> {
            &&& forall|other: u128|
                other != id ==> #[trigger] cached_at(c@, row_views(rows@), other)
            &&& row_by_id(row_views(rows@), id) is None ==> !c@.contains_key(id)
        },
    ensures
        fresh is Some <==> cache is Some,
        fresh matches Some(c) ==> cached(c@, row_views(rows@)),
{
    broadcast use vstd::std_specs::hash::group_hash_axioms;

    match cache {
        None => None,
        Some(c) => {
            let mut c = c;
            let ghost before = c@;
            let ghost views = row_views(rows@);
            if let Some(i) = find_row(rows, id) {
                c.insert(id, rows[i].clone());
                proof {
                    assert forall|j: int| 0 <= j < i implies !(views[j].id == id) by {
                        assert(rows@[j].id != id);
                    }
                    lemma_first_where_at(views, |row: SpecProjectionView| row.id == id, i as int);
                }
            } else {
                proof {
                    lemma_row_by_id(views, id);
                }
            }
            assert forall|other: u128| #[trigger] cached_at(c@, views, other) by {
                if other != id {
                    assert(cached_at(before, views, other));
                }
            }
            Some(c)
        },
    }
}

fn row_taken() -> (e: DomainError)
    ensures
        e@ == DomainErrorView::ProjectionError(row_conflict()),
{
    DomainError::ProjectionError("UNIQUE constraint failed: spec_projections.id".to_owned())
}

fn version_taken() -> (e: DomainError)
    ensures
        e@ == DomainErrorView::ProjectionError(record_conflict()),
{
    let what = "UNIQUE constraint failed: spec_version_history.id, spec_version_history.version";
    DomainError::ProjectionError(what.to_owned())
}

/// The place of the row of specification `id`, if it has one.
fn find_row(rows: &Vec<SpecProjection>, id: u128) -> (found: Option<usize>)
    ensures
        match found {
            Some(i) => {
                &&& i < rows@.len()
                &&& rows@[i as int].id == id
                &&& forall|j: int| 0 <= j < i ==> (#[trigger] rows@[j]).id != id
            },
            None => !has_row(row_views(rows@), id),
        },
{
    let mut i: usize = 0;
    while i < rows.len()
        invariant
            i <= rows@.len(),
            forall|j: int| 0 <= j < i ==> (#[trigger] rows@[j]).id != id,
        decreases rows@.len() - i,
    {
        if rows[i].id == id {
            return Some(i);
        }
        i += 1;
    }
    assert forall|j: int| 0 <= j < row_views(rows@).len() implies (#[trigger] row_views(
        rows@,
    )[j]).id != id by {
        assert(rows@[j].id != id);
    }
    None
}

/// The place of version `version` of specification `id` in the history, if it is there.
fn find_version(history: &Vec<VersionRecord>, id: u128, version: u32) -> (found: Option<usize>)
    ensures
        match found {
            Some(k) => {
                &&& k < history@.len()
                &&& history@[k as int].id == id
                &&& history@[k as int].version == version
            },
            None => !has_version(record_views(history@), id, version),
        },
{
    let mut k: usize = 0;
    while k < history.len()
        invariant
            k <= history@.len(),
            forall|j: int|
                0 <= j < k ==> !((#[trigger] history@[j]).id == id && history@[j].version
                    == version),
        decreases history@.len() - k,
    {
        if history[k].id == id && history[k].version == version {
            return Some(k);
        }
        k += 1;
    }
    assert forall|j: int| 0 <= j < record_views(history@).len() implies !((
    #[trigger] record_views(history@)[j]).id == id && record_views(history@)[j].version
        == version) by {
        assert(!(history@[j].id == id && history@[j].version == version));
    }
    None
}

/// The read models, kept in memory. Events are offered to it one at a time, in the
/// order of the log; queries read what the events so far amount to.
///
/// Where the store was made with a cache, it keeps beside its rows a map from the
/// identifier of a specification to its row, written through with every event that
/// the rows take, and reads a specification's row from there.
pub struct ProjectionStore {
    rows: Vec<SpecProjection>,
    history: Vec<VersionRecord>,
    cache: Option<std::collections::HashMap<u128, SpecProjection>>,
}

impl View for ProjectionStore {
    type V = ReadModel;

    closed spec fn view(&self) -> ReadModel {
        ReadModel { rows: row_views(self.rows@), history: record_views(self.history@) }
    }
}

impl ProjectionStore {
    #[verifier::type_invariant]
    spec fn sound(self) -> bool {
        &&& consistent(
            ReadModel { rows: row_views(self.rows@), history: record_views(self.history@) },
        )
        &&& self.cache matches Some(c) ==> cached(c@, row_views(self.rows@))
    }

    /// Whether the store keeps a cache.
    pub closed spec fn caches(&self) -> bool {
        self.cache is Some
    }

    /// A store without rows and without history, with a cache where one is asked for.
    pub fn new(enable_cache: bool) -> (store: Self)
        ensures
            store@ == empty_store(),
            store.caches() == enable_cache,
    {
        let cache = if enable_cache {
            Some(std::collections::HashMap::new())
        } else {
            None
        };
        let rows: Vec<SpecProjection> = Vec::new();
        proof {
            assert(row_views(rows@) =~= Seq::<SpecProjectionView>::empty());
            if cache is Some {
                let c = cache->0;
                assert forall|id: u128| #[trigger] cached_at(c@, row_views(rows@), id) by {}
            }
        }
        let store = ProjectionStore { rows, history: Vec::new(), cache };
        assert(store@.rows =~= Seq::<SpecProjectionView>::empty());
        assert(store@.history =~= Seq::<VersionRecordView>::empty());
        store
    }

    /// Forgets every row and every record, and what the cache held.
    pub fn clear(&mut self)
        ensures
            final(self)@ == empty_store(),
            final(self).caches() == old(self).caches(),
    {
        let enable_cache = self.cache.is_some();
        *self = Self::new(enable_cache);
    }

    /// Offers one event to the read models.
    ///
    /// A Created event inserts a row at version 1 as a draft, and the record of
    /// version 1. An Updated event rewrites content, description, version, time and
    /// user in the row of its specification, and inserts the record of its version.
    /// A StateChanged event rewrites state and time in the row of its specification.
    /// Where a row or a record to be inserted is there already, the event is refused
    /// and nothing changes.
    pub fn apply_event(&mut self, _aggregate_id: u128, event: &SpecEvent) -> (r: Result<
        (),
        DomainError,
    >)
        ensures
            consistent(old(self)@),
            consistent(final(self)@),
            final(self).caches() == old(self).caches(),
            final(self)@ == projected(old(self)@, event@),
            match rejection(old(self)@, event@) {
                Some(msg) => r matches Err(e) && e@ == DomainErrorView::ProjectionError(msg),
                None => r is Ok,
            },
    {
        proof {
            use_type_invariant(&*self);
            lemma_projected_consistent(self@, event@);
        }
        match event {
            SpecEvent::Created(e) => self.handle_created(e),
            SpecEvent::Updated(e) => self.handle_updated(e),
            SpecEvent::StateChanged(e) => self.handle_state_changed(e),
        }
    }

    /// The current state of specification `id`, if it has a row. A store with a cache
    /// looks there first.
    pub fn get_by_id(&self, id: u128) -> (r: Option<SpecProjection>)
        ensures
            found_row(r) == row_by_id(self@.rows, id),
            consistent(self@),
    {
        broadcast use vstd::std_specs::hash::group_hash_axioms;

        proof {
            use_type_invariant(self);
        }
        match &self.cache {
            Some(cache) => {
                match cache.get(&id) {
                    Some(row) => {
                        assert(cached_at(cache@, self@.rows, id));
                        return Some(row.clone());
                    },
                    None => {},
                }
            },
            None => {},
        }
        let ghost views = self@.rows;
        let ghost wanted = |row: SpecProjectionView| row.id == id;
        let mut i: usize = 0;
        assert(views.skip(0) =~= views);
        while i < self.rows.len()
            invariant
                i <= self.rows@.len(),
                consistent(self@),
                views == row_views(self.rows@),
                wanted == (|row: SpecProjectionView| row.id == id),
                first_where(views, wanted) == first_where(views.skip(i as int), wanted),
            decreases self.rows@.len() - i,
        {
            assert(views.skip(i as int).drop_first() =~= views.skip(i + 1));
            if self.rows[i].id == id {
                return Some(self.rows[i].clone());
            }
            i += 1;
        }
        None
    }

    /// The current state of the oldest specification under the name `name`, if any.
    pub fn get_by_name(&self, name: &str) -> (r: Option<SpecProjection>)
        ensures
            found_row(r) == row_by_name(self@.rows, name@),
            consistent(self@),
    {
        proof {
            use_type_invariant(self);
        }
        let ghost views = self@.rows;
        let ghost wanted = |row: SpecProjectionView| row.name == name@;
        let mut i: usize = 0;
        assert(views.skip(0) =~= views);
        while i < self.rows.len()
            invariant
                i <= self.rows@.len(),
                consistent(self@),
                views == row_views(self.rows@),
                wanted == (|row: SpecProjectionView| row.name == name@),
                first_where(views, wanted) == first_where(views.skip(i as int), wanted),
            decreases self.rows@.len() - i,
        {
            assert(views.skip(i as int).drop_first() =~= views.skip(i + 1));
            if same_text(self.rows[i].name.as_str(), name) {
                return Some(self.rows[i].clone());
            }
            i += 1;
        }
        None
    }

    /// One page of the specifications in state `state`, or, where none is given, of
    /// all that are not deleted; the one that was updated last comes first, and of
    /// those updated at one instant the older row.
    ///
    /// The page skips the first `offset` entries of that list and holds at most
    /// `limit`. A negative `offset` skips none; a negative `limit` sets no bound.
    pub fn list_by_state(&self, state: Option<SpecState>, limit: i64, offset: i64) -> (summaries:
        Vec<SpecSummaryProjection>)
        ensures
            is_listing(self@.rows, state, listing(self@.rows, state)),
            summary_views(summaries@) == listing_page(
                self@.rows,
                state,
                limit as int,
                offset as int,
            ),
            forall|k: int|
                0 <= k < summaries@.len() ==> listed((#[trigger] summaries@[k]).state, state),
            consistent(self@),
    {
        proof {
            use_type_invariant(self);
        }
        let order = list_order(&self.rows, state);
        let (start, end) = window_bounds(order.len(), limit, offset);
        let ghost views = self@.rows;
        let ghost page = window(places(order@), limit as int, offset as int);
        let mut summaries: Vec<SpecSummaryProjection> = Vec::new();
        let mut k: usize = start;
        while k < end
            invariant
                start <= k <= end <= order@.len(),
                views == row_views(self.rows@),
                is_listing(views, state, places(order@)),
                page == places(order@).subrange(start as int, end as int),
                summaries@.len() == k - start,
                forall|j: int|
                    0 <= j < summaries@.len() ==> (#[trigger] summaries@[j])@ == summary_of(
                        views[page[j]],
                    ) && listed(summaries@[j].state, state),
            decreases end - k,
        {
            assert(places(order@)[k as int] == order@[k as int]);
            let row = &self.rows[order[k]];
            summaries.push(
                SpecSummaryProjection {
                    id: row.id,
                    name: row.name.clone(),
                    description: row.description.clone(),
                    latest_version: row.version,
                    state: row.state,
                    updated_at: row.updated_at,
                },
            );
            k += 1;
        }
        assert(summary_views(summaries@) =~= page.map_values(|i: int| summary_of(views[i])));
        summaries
    }

    /// The content and the description that version `version` of specification `id`
    /// had, if that version is on record.
    pub fn get_version(&self, id: u128, version: u32) -> (r: Option<(String, Option<String>)>)
        ensures
            found_content(r) == version_content(self@.history, id, version),
            consistent(self@),
    {
        proof {
            use_type_invariant(self);
        }
        let ghost views = self@.history;
        let ghost wanted = |r: VersionRecordView| r.id == id && r.version == version;
        let mut k: usize = 0;
        assert(views.skip(0) =~= views);
        while k < self.history.len()
            invariant
                k <= self.history@.len(),
                consistent(self@),
                views == record_views(self.history@),
                wanted == (|r: VersionRecordView| r.id == id && r.version == version),
                first_where(views, wanted) == first_where(views.skip(k as int), wanted),
            decreases self.history@.len() - k,
        {
            assert(views.skip(k as int).drop_first() =~= views.skip(k + 1));
            if self.history[k].id == id && self.history[k].version == version {
                return Some(
                    (self.history[k].content.clone(), self.history[k].description.clone()),
                );
            }
            k += 1;
        }
        None
    }

    fn handle_created(&mut self, event: &SpecCreated) -> (r: Result<(), DomainError>)
        requires
            consistent(projected(old(self)@, SpecEventView::Created(event@))),
        ensures
            final(self).caches() == old(self).caches(),
            final(self)@ == projected(old(self)@, SpecEventView::Created(event@)),
            match rejection(old(self)@, SpecEventView::Created(event@)) {
                Some(msg) => r matches Err(e) && e@ == DomainErrorView::ProjectionError(msg),
                None => r is Ok,
            },
    {
        if let Some(i) = find_row(&self.rows, event.spec_id) {
            assert(row_views(self.rows@)[i as int].id == event.spec_id);
            return Err(row_taken());
        }
        if let Some(k) = find_version(&self.history, event.spec_id, 1) {
            assert(record_views(self.history@)[k as int].id == event.spec_id);
            return Err(version_taken());
        }
        let row = SpecProjection {
            id: event.spec_id,
            name: event.name.clone(),
            content: event.content.clone(),
            description: event.description.clone(),
            version: 1,
            state: SpecState::Draft,
            created_at: event.created_at,
            updated_at: event.created_at,
            created_by: event.created_by.clone(),
            updated_by: event.created_by.clone(),
        };
        let record = VersionRecord {
            id: event.spec_id,
            version: 1,
            content: event.content.clone(),
            description: event.description.clone(),
            created_at: event.created_at,
            created_by: event.created_by.clone(),
        };
        let ghost before = self@;
        let (mut rows, mut history, cache) = self.take();
        rows.push(row);
        history.push(record);
        assert(row_views(rows@) =~= before.rows.push(created_row(event@)));
        assert(record_views(history@) =~= before.history.push(created_record(event@)));
        proof {
            if cache is Some {
                let c = cache->0;
                assert forall|other: u128| other != event.spec_id implies #[trigger] cached_at(
                    c@,
                    row_views(rows@),
                    other,
                ) by {
                    assert(cached_at(c@, before.rows, other));
                    lemma_first_where_push(
                        before.rows,
                        created_row(event@),
                        |row: SpecProjectionView| row.id == other,
                    );
                }
                lemma_first_where_push(
                    before.rows,
                    created_row(event@),
                    |row: SpecProjectionView| row.id == event.spec_id,
                );
            }
        }
        let cache = write_through(cache, &rows, event.spec_id);
        *self = ProjectionStore { rows, history, cache };
        Ok(())
    }

    /// Takes the rows, the history and the cache out of the store, which is left
    /// empty.
    fn take(&mut self) -> (parts: (
        Vec<SpecProjection>,
        Vec<VersionRecord>,
        Option<std::collections::HashMap<u128, SpecProjection>>,
    ))
        ensures
            row_views(parts.0@) == old(self)@.rows,
            record_views(parts.1@) == old(self)@.history,
            parts.2 is Some <==> old(self).caches(),
            parts.2 matches Some(c) ==> cached(c@, old(self)@.rows),
            consistent(old(self)@),
            final(self)@ == empty_store(),
    {
        proof {
            use_type_invariant(&*self);
        }
        let mut taken = Self::new(false);
        std::mem::swap(self, &mut taken);
        let ProjectionStore { rows, history, cache } = taken;
        (rows, history, cache)
    }

    fn handle_updated(&mut self, event: &SpecUpdated) -> (r: Result<(), DomainError>)
        requires
            consistent(projected(old(self)@, SpecEventView::Updated(event@))),
        ensures
            final(self).caches() == old(self).caches(),
            final(self)@ == projected(old(self)@, SpecEventView::Updated(event@)),
            match rejection(old(self)@, SpecEventView::Updated(event@)) {
                Some(msg) => r matches Err(e) && e@ == DomainErrorView::ProjectionError(msg),
                None => r is Ok,
            },
    {
        if let Some(k) = find_version(&self.history, event.spec_id, event.version) {
            assert(record_views(self.history@)[k as int].id == event.spec_id);
            return Err(version_taken());
        }
        let record = VersionRecord {
            id: event.spec_id,
            version: event.version,
            content: event.content.clone(),
            description: event.description.clone(),
            created_at: event.updated_at,
            created_by: event.updated_by.clone(),
        };
        let ghost before = self@;
        let (mut rows, mut history, cache) = self.take();
        let mut i: usize = 0;
        while i < rows.len()
            invariant
                i <= rows@.len(),
                rows@.len() == before.rows.len(),
                forall|j: int|
                    0 <= j < i ==> (#[trigger] rows@[j])@ == updated_row(before.rows[j], event@),
                forall|j: int| i <= j < rows@.len() ==> (#[trigger] rows@[j])@ == before.rows[j],
            decreases rows@.len() - i,
        {
            if rows[i].id == event.spec_id {
                let row = SpecProjection {
                    id: rows[i].id,
                    name: rows[i].name.clone(),
                    content: event.content.clone(),
                    description: event.description.clone(),
                    version: event.version,
                    state: rows[i].state,
                    created_at: rows[i].created_at,
                    updated_at: event.updated_at,
                    created_by: rows[i].created_by.clone(),
                    updated_by: event.updated_by.clone(),
                };
                rows.set(i, row);
            }
            i += 1;
        }
        history.push(record);
        assert(row_views(rows@) =~= before.rows.map_values(
            |row: SpecProjectionView| updated_row(row, event@),
        ));
        assert(record_views(history@) =~= before.history.push(updated_record(event@)));
        proof {
            if cache is Some {
                let c = cache->0;
                let rewrite = |row: SpecProjectionView| updated_row(row, event@);
                assert forall|other: u128| other != event.spec_id implies #[trigger] cached_at(
                    c@,
                    row_views(rows@),
                    other,
                ) by {
                    assert(cached_at(c@, before.rows, other));
                    lemma_row_by_id(before.rows, other);
                    lemma_row_by_id_rewritten(before.rows, rewrite, other);
                }
                assert(cached_at(c@, before.rows, event.spec_id));
                lemma_row_by_id_rewritten(before.rows, rewrite, event.spec_id);
            }
        }
        let cache = write_through(cache, &rows, event.spec_id);
        *self = ProjectionStore { rows, history, cache };
        Ok(())
    }

    fn handle_state_changed(&mut self, event: &SpecStateChanged) -> (r: Result<(), DomainError>)
        requires
            consistent(projected(old(self)@, SpecEventView::StateChanged(event@))),
        ensures
            final(self).caches() == old(self).caches(),
            final(self)@ == projected(old(self)@, SpecEventView::StateChanged(event@)),
            r is Ok,
    {
        let ghost before = self@;
        let (mut rows, history, cache) = self.take();
        let mut i: usize = 0;
        while i < rows.len()
            invariant
                i <= rows@.len(),
                rows@.len() == before.rows.len(),
                forall|j: int|
                    0 <= j < i ==> (#[trigger] rows@[j])@ == moved_row(before.rows[j], event@),
                forall|j: int| i <= j < rows@.len() ==> (#[trigger] rows@[j])@ == before.rows[j],
            decreases rows@.len() - i,
        {
            if rows[i].id == event.spec_id {
                let mut row = rows[i].clone();
                row.state = event.to_state;
                row.updated_at = event.changed_at;
                rows.set(i, row);
            }
            i += 1;
        }
        assert(row_views(rows@) =~= before.rows.map_values(
            |row: SpecProjectionView| moved_row(row, event@),
        ));
        proof {
            if cache is Some {
                let c = cache->0;
                let rewrite = |row: SpecProjectionView| moved_row(row, event@);
                assert forall|other: u128| other != event.spec_id implies #[trigger] cached_at(
                    c@,
                    row_views(rows@),
                    other,
                ) by {
                    assert(cached_at(c@, before.rows, other));
                    lemma_row_by_id(before.rows, other);
                    lemma_row_by_id_rewritten(before.rows, rewrite, other);
                }
                assert(cached_at(c@, before.rows, event.spec_id));
                lemma_row_by_id_rewritten(before.rows, rewrite, event.spec_id);
            }
        }
        let cache = write_through(cache, &rows, event.spec_id);
        *self = ProjectionStore { rows, history, cache };
        Ok(())
    }
}

} // verus!
