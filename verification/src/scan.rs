//! The ascending walk over the entry table, and the page that a list query
//! cuts from it.

use vstd::prelude::*;
use vstd::set_lib::{lemma_int_range, lemma_set_subset_finite, set_int_range};
use crate::state::{EntryView, Row, Table};

verus! {

/// Whether `id` lies behind the cursor `after`. Without a cursor every id does.
pub open spec fn above(id: u64, after: Option<u64>) -> bool {
    match after {
        Some(a) => id > a,
        None => true,
    }
}

/// Whether `row` is an id of `table` behind `after`, with what the table
/// keeps under it.
pub open spec fn kept(table: Table, after: Option<u64>, row: Row) -> bool {
    table.contains_key(row.0) && table[row.0] == row.1 && above(row.0, after)
}

/// Whether the ids of `rows` rise strictly.
pub open spec fn rising(rows: Seq<Row>) -> bool {
    forall|i: int, j: int|
        0 <= i < j < rows.len() ==> (#[trigger] rows[i]).0 < (#[trigger] rows[j]).0
}

/// Whether `rows` has a row for `id`.
pub open spec fn has_id(rows: Seq<Row>, id: u64) -> bool {
    exists|i: int| 0 <= i < rows.len() && (#[trigger] rows[i]).0 == id
}

/// Whether every id of `rows` lies before `id`.
pub open spec fn all_before(rows: Seq<Row>, id: u64) -> bool {
    forall|i: int| 0 <= i < rows.len() ==> (#[trigger] rows[i]).0 < id
}

/// Whether `rows` is the walk over `table` behind `after`: every row is kept
/// by the table behind the cursor, the ids rise strictly, and no id of the
/// table behind the cursor is left out.
pub open spec fn is_scan(rows: Seq<Row>, table: Table, after: Option<u64>) -> bool {
    &&& forall|i: int| 0 <= i < rows.len() ==> kept(table, after, #[trigger] rows[i])
    &&& rising(rows)
    &&& forall|id: u64| #[trigger] table.contains_key(id) && above(id, after) ==> has_id(rows, id)
}

/// Whether `rows` is the start of the walk over `table` behind `after`, cut
/// off at `limit` rows: every row is kept by the table behind the cursor, the
/// ids rise strictly, and an id of the table behind the cursor that has no
/// row lies behind all the rows of a full page.
pub open spec fn is_page(rows: Seq<Row>, table: Table, after: Option<u64>, limit: nat) -> bool {
    &&& rows.len() <= limit
    &&& forall|i: int| 0 <= i < rows.len() ==> kept(table, after, #[trigger] rows[i])
    &&& rising(rows)
    &&& forall|id: u64|
        #[trigger] table.contains_key(id) && above(id, after) ==> {
            ||| has_id(rows, id)
            ||| rows.len() == limit && all_before(rows, id)
        }
}

/// The walk over `table` behind `after`. Every table has exactly one
/// (`lemma_scan_exists`, `lemma_scan_unique`).
pub open spec fn scan(table: Table, after: Option<u64>) -> Seq<Row> {
    choose|rows: Seq<Row>| is_scan(rows, table, after)
}

/// The first `limit` rows of the walk over `table` behind `after`, or all of
/// them where the walk is shorter.
pub open spec fn page(table: Table, after: Option<u64>, limit: nat) -> Seq<Row> {
    let walk = scan(table, after);
    if limit < walk.len() {
        walk.take(limit as int)
    } else {
        walk
    }
}

/// The entry that a row stands for, if one can be read from it.
pub open spec fn read(row: Row) -> Option<EntryView> {
    match row.1 {
        Some(record) => EntryView::of_record(row.0, record),
        None => None,
    }
}

/// The row that stands for an entry.
pub open spec fn row_of(entry: EntryView) -> Row {
    (entry.id, Some(entry.record()))
}

/// A table has finitely many ids: there are only so many ids.
pub proof fn lemma_table_is_finite(table: Table)
    ensures
        table.dom().finite(),
{
    let ints = set_int_range(0, u64::MAX + 1);
    let ids = ints.map(|i: int| i as u64);
    lemma_int_range(0, u64::MAX + 1);
    ints.lemma_map_finite(|i: int| i as u64);
    assert forall|id: u64| table.dom().contains(id) implies ids.contains(id) by {
        assert(ints.contains(id as int) && (id as int) as u64 == id);
    }
    lemma_set_subset_finite(ids, table.dom());
}

/// Two walks over one table behind one cursor agree on their first `upto`
/// rows.
proof fn lemma_scans_agree(a: Seq<Row>, b: Seq<Row>, table: Table, after: Option<u64>, upto: nat)
    requires
        is_scan(a, table, after),
        is_scan(b, table, after),
        upto <= a.len(),
        upto <= b.len(),
    ensures
        forall|i: int| 0 <= i < upto ==> a[i] == b[i],
    decreases upto,
{
    if upto > 0 {
        let last = upto - 1;
        lemma_scans_agree(a, b, table, after, last as nat);
        // The id of a[last] has a row in b. That row is not before `last`,
        // where b agrees with a and the ids of a are smaller: so the id of
        // b[last] is no larger. The same holds the other way round.
        assert(has_id(b, a[last].0));
        assert(has_id(a, b[last].0));
    }
}

/// A table has at most one walk behind a cursor.
pub proof fn lemma_scan_unique(a: Seq<Row>, b: Seq<Row>, table: Table, after: Option<u64>)
    requires
        is_scan(a, table, after),
        is_scan(b, table, after),
    ensures
        a == b,
{
    // The walks agree as far as the shorter one goes, and the longer one
    // cannot go on: the id of its next row would have a row in the shorter
    // one, at a place where both have a smaller id.
    if a.len() < b.len() {
        lemma_scans_agree(a, b, table, after, a.len());
        assert(has_id(a, b[a.len() as int].0));
    } else if b.len() < a.len() {
        lemma_scans_agree(a, b, table, after, b.len());
        assert(has_id(b, a[b.len() as int].0));
    } else {
        lemma_scans_agree(a, b, table, after, a.len());
    }
}

/// The walk over the ids of `table` behind `after` that are no larger than
/// `upto`, built id by id.
spec fn walk_upto(table: Table, after: Option<u64>, upto: u64) -> Seq<Row>
    decreases upto,
{
    let earlier = if upto == 0 {
        Seq::empty()
    } else {
        walk_upto(table, after, (upto - 1) as u64)
    };
    if table.contains_key(upto) && above(upto, after) {
        earlier.push((upto, table[upto]))
    } else {
        earlier
    }
}

/// `walk_upto` is the walk over the part of the table that it covers.
proof fn lemma_walk_upto(table: Table, after: Option<u64>, upto: u64)
    ensures
        forall|i: int|
            0 <= i < walk_upto(table, after, upto).len() ==> {
                let row = #[trigger] walk_upto(table, after, upto)[i];
                kept(table, after, row) && row.0 <= upto
            },
        rising(walk_upto(table, after, upto)),
        forall|id: u64|
            id <= upto && #[trigger] table.contains_key(id) && above(id, after) ==> has_id(
                walk_upto(table, after, upto),
                id,
            ),
    decreases upto,
{
    let walk = walk_upto(table, after, upto);
    if upto == 0 {
        if table.contains_key(upto) && above(upto, after) {
            assert(walk[0].0 == upto);
        }
    } else {
        let earlier = walk_upto(table, after, (upto - 1) as u64);
        lemma_walk_upto(table, after, (upto - 1) as u64);
        assert forall|id: u64|
            id <= upto && #[trigger] table.contains_key(id) && above(id, after) implies has_id(
            walk,
            id,
        ) by {
            if id == upto {
                assert(walk[earlier.len() as int].0 == id);
            } else {
                let at = choose|at: int|
                    0 <= at < earlier.len() && (#[trigger] earlier[at]).0 == id;
                assert(walk[at] == earlier[at]);
            }
        }
    }
}

/// Every table has a walk behind every cursor.
pub proof fn lemma_scan_exists(table: Table, after: Option<u64>)
    ensures
        is_scan(scan(table, after), table, after),
{
    lemma_walk_upto(table, after, u64::MAX);
    assert(is_scan(walk_upto(table, after, u64::MAX), table, after));
}

/// A sequence that is a walk over the table is the walk over the table.
pub proof fn lemma_scan_found(rows: Seq<Row>, table: Table, after: Option<u64>)
    requires
        is_scan(rows, table, after),
    ensures
        scan(table, after) == rows,
{
    lemma_scan_unique(scan(table, after), rows, table, after);
}

/// The page is the start of the walk, cut off at the limit.
pub proof fn lemma_page_is_start_of_walk(table: Table, after: Option<u64>, limit: nat)
    ensures
        is_page(page(table, after, limit), table, after, limit),
{
    lemma_scan_exists(table, after);
    let walk = scan(table, after);
    let cut = page(table, after, limit);
    assert forall|id: u64| #[trigger] table.contains_key(id) && above(id, after) implies has_id(
        cut,
        id,
    ) || (cut.len() == limit && all_before(cut, id)) by {
        // the id has a row in the walk, in the page or behind it
        let at = choose|at: int| 0 <= at < walk.len() && (#[trigger] walk[at]).0 == id;
        if at < cut.len() {
            assert(cut[at] == walk[at]);
        }
    }
}

/// Two pages of one table behind one cursor and with one limit agree on
/// their first `upto` rows.
proof fn lemma_pages_agree(
    a: Seq<Row>,
    b: Seq<Row>,
    table: Table,
    after: Option<u64>,
    limit: nat,
    upto: nat,
)
    requires
        is_page(a, table, after, limit),
        is_page(b, table, after, limit),
        upto <= a.len(),
        upto <= b.len(),
    ensures
        forall|i: int| 0 <= i < upto ==> a[i] == b[i],
    decreases upto,
{
    if upto > 0 {
        let last = upto - 1;
        lemma_pages_agree(a, b, table, after, limit, last as nat);
        // The id of a[last] lies behind all of b, or has a row in b that is
        // not before `last`: either way the id of b[last] is no larger. The
        // same holds the other way round.
        assert(has_id(b, a[last].0) || all_before(b, a[last].0));
        assert(has_id(a, b[last].0) || all_before(a, b[last].0));
    }
}

/// There is one start of the walk for each limit: rows that are a page are
/// the page.
pub proof fn lemma_page_unique(rows: Seq<Row>, table: Table, after: Option<u64>, limit: nat)
    requires
        is_page(rows, table, after, limit),
    ensures
        rows == page(table, after, limit),
{
    lemma_page_is_start_of_walk(table, after, limit);
    let cut = page(table, after, limit);
    // The two agree as far as the shorter one goes. The shorter one is not
    // full, so the id of the next row of the longer one would have a row in
    // it, at a place where both have a smaller id.
    if rows.len() < cut.len() {
        lemma_pages_agree(rows, cut, table, after, limit, rows.len());
        assert(has_id(rows, cut[rows.len() as int].0));
    } else if cut.len() < rows.len() {
        lemma_pages_agree(rows, cut, table, after, limit, cut.len());
        assert(has_id(cut, rows[cut.len() as int].0));
    } else {
        lemma_pages_agree(rows, cut, table, after, limit, rows.len());
    }
}

/// A row of the walk that cannot be read, and that stands before the limit,
/// is a row of the page.
pub(crate) proof fn lemma_unreadable_in_page(table: Table, after: Option<u64>, limit: nat, at: int)
    requires
        0 <= at < scan(table, after).len(),
        at < limit,
        read(scan(table, after)[at]) is None,
    ensures
        exists|i: int|
            0 <= i < page(table, after, limit).len() && read(
                #[trigger] page(table, after, limit)[i],
            ) is None,
{
    assert(page(table, after, limit)[at] == scan(table, after)[at]);
}

/// A walk resumes where a page ended: behind the id of a row of the walk lie
/// exactly the rows that follow it. So paging with the last id of each page
/// as the next cursor meets every row once, in order.
pub proof fn lemma_walk_resumes_behind_cursor(table: Table, after: Option<u64>, seen: int)
    requires
        0 < seen <= scan(table, after).len(),
    ensures
        scan(table, Some(scan(table, after)[seen - 1].0)) == scan(table, after).skip(seen),
{
    lemma_scan_exists(table, after);
    let walk = scan(table, after);
    let cursor = walk[seen - 1].0;
    let rest = walk.skip(seen);
    assert forall|i: int| 0 <= i < rest.len() implies kept(
        table,
        Some(cursor),
        #[trigger] rest[i],
    ) by {
        // rest[i] is walk[i + seen], which comes behind walk[seen - 1]
    }
    assert forall|id: u64|
        #[trigger] table.contains_key(id) && above(id, Some(cursor)) implies has_id(rest, id) by {
        // the id has a row in the walk, and that row comes behind the cursor's
        let at = choose|at: int| 0 <= at < walk.len() && (#[trigger] walk[at]).0 == id;
        assert(rest[at - seen] == walk[at]);
    }
    lemma_scan_found(rest, table, Some(cursor));
}

/// A row under an id that lies beyond every id of the table, as a create
/// makes it, comes last in every walk that reaches it and changes no walk
/// before that: a row added at the tail moves no row of an earlier page.
pub proof fn lemma_tail_row_extends_walk(table: Table, after: Option<u64>, row: Row)
    requires
        forall|other: u64| table.contains_key(other) ==> other < row.0,
    ensures
        scan(table.insert(row.0, row.1), after) == (if above(row.0, after) {
            scan(table, after).push(row)
        } else {
            scan(table, after)
        }),
{
    lemma_scan_exists(table, after);
    let walk = scan(table, after);
    let grown = table.insert(row.0, row.1);
    let longer = if above(row.0, after) {
        walk.push(row)
    } else {
        walk
    };
    assert forall|i: int| 0 <= i < longer.len() implies kept(
        grown,
        after,
        #[trigger] longer[i],
    ) by {
        // a row of the walk is kept by the table, and so by the grown table
    }
    assert forall|id: u64| #[trigger] grown.contains_key(id) && above(id, after) implies has_id(
        longer,
        id,
    ) by {
        if id == row.0 {
            assert(longer[walk.len() as int].0 == id);
        } else {
            let at = choose|at: int| 0 <= at < walk.len() && (#[trigger] walk[at]).0 == id;
            assert(longer[at] == walk[at]);
        }
    }
    lemma_scan_found(longer, grown, after);
}

} // verus!
