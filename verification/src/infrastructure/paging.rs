//! Reading a sequence in pages.

use vstd::prelude::*;

verus! {

/// Where a page that skips `offset` entries starts: a negative offset skips none,
/// and one beyond the end skips all.
pub open spec fn window_start(len: nat, offset: int) -> int {
    if offset < 0 {
        0
    } else if offset > len {
        len as int
    } else {
        offset
    }
}

/// Where a page of at most `limit` entries ends: a negative limit sets no bound.
pub open spec fn window_end(len: nat, limit: int, offset: int) -> int {
    if limit < 0 || window_start(len, offset) + limit > len {
        len as int
    } else {
        window_start(len, offset) + limit
    }
}

/// The page of `s` that skips `offset` entries and then holds at most `limit`.
pub open spec fn window<A>(s: Seq<A>, limit: int, offset: int) -> Seq<A> {
    s.subrange(window_start(s.len(), offset), window_end(s.len(), limit, offset))
}

/// The bounds of a page of a sequence of `len` entries.
pub fn window_bounds(len: usize, limit: i64, offset: i64) -> (bounds: (usize, usize))
    ensures
        bounds.0 == window_start(len as nat, offset as int),
        bounds.1 == window_end(len as nat, limit as int, offset as int),
        bounds.0 <= bounds.1 <= len,
{
    let start: usize = if offset < 0 {
        0
    } else if offset as u64 > len as u64 {
        len
    } else {
        offset as usize
    };
    let end: usize = if limit < 0 || limit as u64 > (len - start) as u64 {
        len
    } else {
        start + limit as usize
    };
    (start, end)
}

} // verus!
