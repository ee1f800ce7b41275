//! Pages cut from rows that are known by a number, and the cursors between
//! them.

use vstd::prelude::*;

verus! {

/// A row that is known by a number.
pub trait Id {
    /// The number of the row.
    spec fn id_value(&self) -> i64;

    /// Reads the number of the row.
    fn id(&self) -> (r: i64)
        ensures
            r == self.id_value(),
    ;
}

/// The two cursors that lead away from a page. A caller hands one back as
/// the cursor of its next request; where one is absent there is no page in
/// that direction.
#[derive(Debug, Clone, Copy, PartialEq, Eq)]
pub struct FilterPager {
    /// Leads to the page before this one.
    pub prev: Option<i64>,
    /// Leads to the page after this one.
    pub next: Option<i64>,
}

/// Whether a cursor asks for the page before the row it names. A cursor
/// above zero asks for what follows its row, one below zero for what
/// precedes the row of its absolute value, none for the first page.
pub open spec fn is_backward(cursor: Option<i64>) -> bool {
    cursor matches Some(c) && c < 0
}

/// Whether the store found more rows than one page holds: it was asked for
/// one row more than the page, and gave that many.
pub open spec fn has_more<T>(rows: Seq<T>, page_size: u32) -> bool {
    rows.len() == page_size + 1
}

/// The rows of the page, in the order in which they are shown: the rows
/// fetched without the one that was fetched beyond the page, and turned
/// round where they were fetched backward.
pub open spec fn page_rows<T>(rows: Seq<T>, page_size: u32, backward: bool) -> Seq<T> {
    let kept = if has_more(rows, page_size) {
        rows.drop_last()
    } else {
        rows
    };
    if backward {
        kept.reverse()
    } else {
        kept
    }
}

/// The cursor to the next page: the number of the last row shown where the
/// store found more rows, none otherwise.
pub open spec fn next_cursor<T: Id>(rows: Seq<T>, cursor: Option<i64>, page_size: u32) -> Option<
    i64,
> {
    let shown = page_rows(rows, page_size, is_backward(cursor));
    if has_more(rows, page_size) && shown.len() > 0 {
        Some(shown.last().id_value())
    } else {
        None
    }
}

/// The cursor to the previous page: the number of the first row shown, with
/// a minus before it, where the request came with a cursor; none on a first
/// page, none where nothing is shown, and none for the one number that has
/// no negative.
pub open spec fn prev_cursor<T: Id>(rows: Seq<T>, cursor: Option<i64>, page_size: u32) -> Option<
    i64,
> {
    let shown = page_rows(rows, page_size, is_backward(cursor));
    if cursor is Some && shown.len() > 0 && shown[0].id_value() > i64::MIN {
        Some((-shown[0].id_value()) as i64)
    } else {
        None
    }
}

/// Turns a vector round: what was last comes first.
pub fn reverse<T>(v: &mut Vec<T>)
    ensures
        final(v)@ == old(v)@.reverse(),
{
    let ghost orig = v@;
    let mut out: Vec<T> = Vec::new();
    while v.len() > 0
        invariant
            v@ == orig.take(v.len() as int),
            out.len() + v.len() == orig.len(),
            forall|i: int| 0 <= i < out.len() ==> out@[i] == orig[orig.len() - 1 - i],
        decreases v.len(),
    {
        let x = v.pop().unwrap();
        out.push(x);
    }
    assert(out@ =~= orig.reverse());
    *v = out;
}

/// Makes a page of the rows that the store gave for a request with this
/// cursor and this page size, the store having been asked for one row more
/// than the page. Leaves in `rows` the rows of the page in the order in
/// which they are shown, and gives the cursors that lead away from it.
///
/// A row that enters the store between two cursors already given out may be
/// missed or met twice by a caller who follows them: the cursors name rows,
/// not places.
pub fn paginate<T: Id>(rows: &mut Vec<T>, cursor: Option<i64>, page_size: u32) -> (pager:
    FilterPager)
    ensures
        final(rows)@ == page_rows(old(rows)@, page_size, is_backward(cursor)),
        pager.next == next_cursor(old(rows)@, cursor, page_size),
        pager.prev == prev_cursor(old(rows)@, cursor, page_size),
{
    let more: bool = (rows.len() as u64) == (page_size as u64) + 1;
    if more {
        rows.pop();
    }
    let backward: bool = match cursor {
        Some(c) => c < 0,
        None => false,
    };
    if backward {
        reverse(rows);
    }
    let n: usize = rows.len();
    let next: Option<i64> = if more && n > 0 {
        Some(rows[n - 1].id())
    } else {
        None
    };
    let prev: Option<i64> = if cursor.is_some() && n > 0 {
        let first: i64 = rows[0].id();
        if first > i64::MIN {
            Some(-first)
        } else {
            None
        }
    } else {
        None
    };
    FilterPager { prev, next }
}

/// A page never shows more rows than its size, as long as the store gave no
/// more than it was asked for; a first page has no cursor back; and there
/// is a cursor onward only where the store found more rows.
pub proof fn lemma_page_shape<T: Id>(rows: Seq<T>, cursor: Option<i64>, page_size: u32)
    ensures
        rows.len() <= page_size + 1 ==> page_rows(rows, page_size, is_backward(cursor)).len()
            <= page_size,
        !has_more(rows, page_size) ==> page_rows(rows, page_size, is_backward(cursor)).len()
            == rows.len(),
        cursor is None ==> prev_cursor(rows, cursor, page_size) is None,
        !has_more(rows, page_size) ==> next_cursor(rows, cursor, page_size) is None,
        has_more(rows, page_size) && page_size > 0 ==> next_cursor(rows, cursor, page_size)
            is Some,
{
}

} // verus!
