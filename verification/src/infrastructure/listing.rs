//! The order in which rows are listed: the row that was updated last comes first.

use vstd::prelude::*;
use crate::domain::events::{later, SpecState};
use super::projections::{row_views, SpecProjection, SpecProjectionView};

verus! {

/// Whether a state is listed under a filter: with a state given, that state alone;
/// with none given, every state but Deleted.
pub open spec fn listed(state: SpecState, filter: Option<SpecState>) -> bool {
    match filter {
        Some(s) => state == s,
        None => state != SpecState::Deleted,
    }
}

/// Row `i` stands before row `j` in a list: it was updated later, or at the same
/// instant and inserted earlier.
pub open spec fn before(rows: Seq<SpecProjectionView>, i: int, j: int) -> bool {
    later(rows[i].updated_at, rows[j].updated_at) || (rows[i].updated_at == rows[j].updated_at
        && i < j)
}

/// `order` runs through places of `rows` so that each stands before the next.
pub open spec fn ordered(rows: Seq<SpecProjectionView>, order: Seq<int>) -> bool {
    forall|k: int, l: int|
        0 <= k < l < order.len() ==> before(rows, #[trigger] order[k], #[trigger] order[l])
}

/// `order` lists the places of exactly the rows that `filter` admits, each before
/// the next.
pub open spec fn is_listing(
    rows: Seq<SpecProjectionView>,
    filter: Option<SpecState>,
    order: Seq<int>,
) -> bool {
    &&& forall|k: int|
        0 <= k < order.len() ==> 0 <= #[trigger] order[k] < rows.len() && listed(
            rows[order[k]].state,
            filter,
        )
    &&& forall|i: int|
        0 <= i < rows.len() && listed((#[trigger] rows[i]).state, filter) ==> order.contains(i)
    &&& ordered(rows, order)
}

/// The places of the rows that `filter` admits, in the order of the list: the one
/// order that `is_listing` admits, where there is one.
pub open spec fn listing(rows: Seq<SpecProjectionView>, filter: Option<SpecState>) -> Seq<int> {
    choose|order: Seq<int>| is_listing(rows, filter, order)
}

/// Two orders through the same places are one order.
pub proof fn lemma_ordered_unique(rows: Seq<SpecProjectionView>, a: Seq<int>, b: Seq<int>)
    requires
        ordered(rows, a),
        ordered(rows, b),
        forall|x: int| a.contains(x) <==> b.contains(x),
    ensures
        a == b,
    decreases a.len(),
{
    if a.len() == 0 {
        if b.len() > 0 {
            assert(b.contains(b[0]));
        }
        assert(a =~= b);
    } else {
        assert(a.contains(a[0]));
        let m = choose|m: int| 0 <= m < b.len() && b[m] == a[0];
        assert(b.contains(b[0]));
        let n = choose|n: int| 0 <= n < a.len() && a[n] == b[0];
        assert(a[0] == b[0]) by {
            if m > 0 && n > 0 {
                assert(before(rows, b[0], b[m]));
                assert(before(rows, a[0], a[n]));
            }
        }
        let at = a.drop_first();
        let bt = b.drop_first();
        assert forall|x: int| at.contains(x) <==> bt.contains(x) by {
            if at.contains(x) {
                let k = choose|k: int| 0 <= k < at.len() && at[k] == x;
                assert(a[k + 1] == x);
                assert(before(rows, a[0], a[k + 1]));
                assert(a.contains(x));
                let l = choose|l: int| 0 <= l < b.len() && b[l] == x;
                assert(l > 0);
                assert(bt[l - 1] == x);
            }
            if bt.contains(x) {
                let k = choose|k: int| 0 <= k < bt.len() && bt[k] == x;
                assert(b[k + 1] == x);
                assert(before(rows, b[0], b[k + 1]));
                assert(b.contains(x));
                let l = choose|l: int| 0 <= l < a.len() && a[l] == x;
                assert(l > 0);
                assert(at[l - 1] == x);
            }
        }
        assert(ordered(rows, at)) by {
            assert forall|k: int, l: int| 0 <= k < l < at.len() implies before(
                rows,
                #[trigger] at[k],
                #[trigger] at[l],
            ) by {
                assert(before(rows, a[k + 1], a[l + 1]));
            }
        }
        assert(ordered(rows, bt)) by {
            assert forall|k: int, l: int| 0 <= k < l < bt.len() implies before(
                rows,
                #[trigger] bt[k],
                #[trigger] bt[l],
            ) by {
                assert(before(rows, b[k + 1], b[l + 1]));
            }
        }
        lemma_ordered_unique(rows, at, bt);
        assert(a =~= seq![a[0]] + at);
        assert(b =~= seq![b[0]] + bt);
    }
}

/// A list of the rows that a filter admits is the only one.
pub proof fn lemma_listing_unique(
    rows: Seq<SpecProjectionView>,
    filter: Option<SpecState>,
    order: Seq<int>,
)
    requires
        is_listing(rows, filter, order),
    ensures
        listing(rows, filter) == order,
{
    let other = listing(rows, filter);
    assert(is_listing(rows, filter, other));
    assert forall|x: int| order.contains(x) <==> other.contains(x) by {
        if order.contains(x) {
            let k = choose|k: int| 0 <= k < order.len() && order[k] == x;
            assert(listed(rows[order[k]].state, filter));
        }
        if other.contains(x) {
            let k = choose|k: int| 0 <= k < other.len() && other[k] == x;
            assert(listed(rows[other[k]].state, filter));
        }
    }
    lemma_ordered_unique(rows, other, order);
}

/// The places in a vector of places, as integers.
pub open spec fn places(order: Seq<usize>) -> Seq<int> {
    order.map_values(|p: usize| p as int)
}

/// Whether a state is listed under a filter.
pub fn is_listed(state: SpecState, filter: Option<SpecState>) -> (b: bool)
    ensures
        b == listed(state, filter),
{
    match filter {
        Some(s) => state == s,
        None => state != SpecState::Deleted,
    }
}

/// Works out the list of the rows that `filter` admits: their places, the row that
/// was updated last first, and of rows updated at one instant the older row first.
pub fn list_order(rows: &Vec<SpecProjection>, filter: Option<SpecState>) -> (order: Vec<usize>)
    ensures
        places(order@) == listing(row_views(rows@), filter),
        is_listing(row_views(rows@), filter, places(order@)),
{
    let ghost views = row_views(rows@);
    let mut order: Vec<usize> = Vec::new();
    let mut i: usize = 0;
    while i < rows.len()
        invariant
            i <= rows@.len(),
            views == row_views(rows@),
            order@.len() <= i,
            forall|k: int|
                0 <= k < order@.len() ==> (#[trigger] order@[k]) < i && listed(
                    views[order@[k] as int].state,
                    filter,
                ),
            forall|j: int|
                0 <= j < i && listed((#[trigger] views[j]).state, filter) ==> places(
                    order@,
                ).contains(j),
            ordered(views, places(order@)),
        decreases rows@.len() - i,
    {
        if is_listed(rows[i].state, filter) {
            let mut p: usize = 0;
            while p < order.len() && !rows[i].updated_at.is_later_than(&rows[order[p]].updated_at)
                invariant
                    p <= order@.len(),
                    i < rows@.len(),
                    views == row_views(rows@),
                    forall|k: int| 0 <= k < order@.len() ==> (#[trigger] order@[k]) < i,
                    forall|k: int|
                        0 <= k < p ==> !later(
                            views[i as int].updated_at,
                            views[(#[trigger] order@[k]) as int].updated_at,
                        ),
                decreases order@.len() - p,
            {
                p += 1;
            }
            let ghost old_order = order@;
            order.insert(p, i);
            proof {
                let was = places(old_order);
                let now = places(order@);
                assert(now =~= was.insert(p as int, i as int));
                assert forall|k: int, l: int| 0 <= k < l < now.len() implies before(
                    views,
                    #[trigger] now[k],
                    #[trigger] now[l],
                ) by {
                    if l < p {
                        assert(before(views, was[k], was[l]));
                    } else if l == p {
                        assert(now[k] == old_order[k] as int);
                    } else if k < p {
                        assert(before(views, was[k], was[l - 1]));
                    } else if k == p {
                        if l - 1 > p {
                            assert(before(views, was[p as int], was[l - 1]));
                        }
                        assert(now[l] == old_order[l - 1] as int);
                    } else {
                        assert(before(views, was[k - 1], was[l - 1]));
                    }
                }
                assert forall|j: int|
                    0 <= j < i + 1 && listed(
                        (#[trigger] views[j]).state,
                        filter,
                    ) implies now.contains(j) by {
                    if j == i {
                        assert(now[p as int] == j);
                    } else {
                        assert(was.contains(j));
                        let k = choose|k: int| 0 <= k < was.len() && was[k] == j;
                        if k < p {
                            assert(now[k] == j);
                        } else {
                            assert(now[k + 1] == j);
                        }
                    }
                }
                assert forall|k: int| 0 <= k < order@.len() implies (#[trigger] order@[k]) < i + 1
                    && listed(views[order@[k] as int].state, filter) by {
                    if k < p {
                        assert(order@[k] == old_order[k]);
                    } else if k > p {
                        assert(order@[k] == old_order[k - 1]);
                    }
                }
            }
        }
        i += 1;
    }
    proof {
        assert forall|k: int| 0 <= k < places(order@).len() implies 0 <= #[trigger] places(
            order@,
        )[k] < views.len() && listed(views[places(order@)[k]].state, filter) by {
            assert(order@[k] < i);
        }
        lemma_listing_unique(views, filter, places(order@));
    }
    order
}

} // verus!
