//! Searching a table held as a sequence of rows, in insertion order.

use vstd::prelude::*;

verus! {

/// The position of the first row that `wanted` accepts.
pub open spec fn first_match<T>(rows: Seq<T>, wanted: spec_fn(T) -> bool) -> Option<int>
    decreases rows.len(),
{
    if rows.len() == 0 {
        None
    } else {
        match first_match(rows.drop_last(), wanted) {
            Some(i) => Some(i),
            None => if wanted(rows.last()) {
                Some(rows.len() - 1)
            } else {
                None
            },
        }
    }
}

/// The position of the last row that `wanted` accepts.
pub open spec fn last_match<T>(rows: Seq<T>, wanted: spec_fn(T) -> bool) -> Option<int>
    decreases rows.len(),
{
    if rows.len() == 0 {
        None
    } else if wanted(rows.last()) {
        Some(rows.len() - 1)
    } else {
        last_match(rows.drop_last(), wanted)
    }
}

/// The rows that `wanted` accepts, in the order in which they stand.
pub open spec fn matching<T>(rows: Seq<T>, wanted: spec_fn(T) -> bool) -> Seq<T>
    decreases rows.len(),
{
    if rows.len() == 0 {
        Seq::empty()
    } else if wanted(rows.last()) {
        matching(rows.drop_last(), wanted).push(rows.last())
    } else {
        matching(rows.drop_last(), wanted)
    }
}

/// `first_match` finds an accepted row with none accepted before it, and
/// finds nothing only where no row is accepted.
pub proof fn lemma_first_match<T>(rows: Seq<T>, wanted: spec_fn(T) -> bool)
    ensures
        match first_match(rows, wanted) {
            Some(j) => 0 <= j < rows.len() && wanted(rows[j]) && forall|i: int|
                0 <= i < j ==> !#[trigger] wanted(rows[i]),
            None => forall|i: int| 0 <= i < rows.len() ==> !#[trigger] wanted(rows[i]),
        },
    decreases rows.len(),
{
    if rows.len() > 0 {
        lemma_first_match(rows.drop_last(), wanted);
        assert(forall|i: int| 0 <= i < rows.len() - 1 ==> rows.drop_last()[i] == rows[i]);
    }
}

/// A position that holds an accepted row, with none accepted before it, is
/// the one that `first_match` finds.
pub proof fn lemma_first_match_at<T>(rows: Seq<T>, wanted: spec_fn(T) -> bool, j: int)
    requires
        0 <= j < rows.len(),
        wanted(rows[j]),
        forall|i: int| 0 <= i < j ==> !#[trigger] wanted(rows[i]),
    ensures
        first_match(rows, wanted) == Some(j),
{
    lemma_first_match(rows, wanted);
}

/// Where no row is accepted, `first_match` finds nothing.
pub proof fn lemma_first_match_none<T>(rows: Seq<T>, wanted: spec_fn(T) -> bool)
    requires
        forall|i: int| 0 <= i < rows.len() ==> !#[trigger] wanted(rows[i]),
    ensures
        first_match(rows, wanted) is None,
{
    lemma_first_match(rows, wanted);
}

/// `last_match` finds an accepted row with none accepted after it, and finds
/// nothing only where no row is accepted.
pub proof fn lemma_last_match<T>(rows: Seq<T>, wanted: spec_fn(T) -> bool)
    ensures
        match last_match(rows, wanted) {
            Some(j) => 0 <= j < rows.len() && wanted(rows[j]) && forall|i: int|
                j < i < rows.len() ==> !#[trigger] wanted(rows[i]),
            None => forall|i: int| 0 <= i < rows.len() ==> !#[trigger] wanted(rows[i]),
        },
    decreases rows.len(),
{
    if rows.len() > 0 {
        lemma_last_match(rows.drop_last(), wanted);
        assert(forall|i: int| 0 <= i < rows.len() - 1 ==> rows.drop_last()[i] == rows[i]);
    }
}

/// The last accepted row is the last of the accepted rows.
pub proof fn lemma_last_match_is_last_matching<T>(rows: Seq<T>, wanted: spec_fn(T) -> bool)
    ensures
        match last_match(rows, wanted) {
            Some(j) => matching(rows, wanted).len() > 0 && matching(rows, wanted).last()
                == rows[j],
            None => matching(rows, wanted).len() == 0,
        },
    decreases rows.len(),
{
    if rows.len() > 0 && !wanted(rows.last()) {
        lemma_last_match_is_last_matching(rows.drop_last(), wanted);
        lemma_last_match(rows.drop_last(), wanted);
    }
}

/// What `first_match` finds after one more row was appended.
pub proof fn lemma_push_first_match<T>(rows: Seq<T>, row: T, wanted: spec_fn(T) -> bool)
    ensures
        first_match(rows.push(row), wanted) == match first_match(rows, wanted) {
            Some(i) => Some(i),
            None => if wanted(row) {
                Some(rows.len() as int)
            } else {
                None
            },
        },
{
    assert(rows.push(row).drop_last() =~= rows);
}

/// The accepted rows after one more row was appended.
pub proof fn lemma_push_matching<T>(rows: Seq<T>, row: T, wanted: spec_fn(T) -> bool)
    ensures
        matching(rows.push(row), wanted) == if wanted(row) {
            matching(rows, wanted).push(row)
        } else {
            matching(rows, wanted)
        },
{
    assert(rows.push(row).drop_last() =~= rows);
}

/// `first_match` finds a row exactly where some row is accepted.
pub proof fn lemma_first_match_some_iff_matching<T>(rows: Seq<T>, wanted: spec_fn(T) -> bool)
    ensures
        first_match(rows, wanted) is Some <==> matching(rows, wanted).len() > 0,
    decreases rows.len(),
{
    if rows.len() > 0 {
        lemma_first_match_some_iff_matching(rows.drop_last(), wanted);
    }
}

} // verus!
