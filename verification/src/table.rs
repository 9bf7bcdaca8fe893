//! Searching and filtering rows held in insertion order.
use crate::text;
use vstd::prelude::*;

verus! {

/// The index of the first row that satisfies `keep`, if any row does.
pub open spec fn first_where<T>(rows: Seq<T>, keep: spec_fn(T) -> bool) -> Option<int>
    decreases rows.len(),
{
    if rows.len() == 0 {
        None
    } else {
        match first_where(rows.drop_last(), keep) {
            Some(i) => Some(i),
            None => if keep(rows.last()) {
                Some(rows.len() - 1)
            } else {
                None
            },
        }
    }
}

/// Whether some row satisfies `keep`.
pub open spec fn some_row<T>(rows: Seq<T>, keep: spec_fn(T) -> bool) -> bool {
    exists|i: int| 0 <= i < rows.len() && keep(#[trigger] rows[i])
}

/// What the first match is: it satisfies `keep`, and no earlier row does.
pub broadcast proof fn lemma_first_where<T>(rows: Seq<T>, keep: spec_fn(T) -> bool)
    ensures
        match #[trigger] first_where(rows, keep) {
            Some(i) => 0 <= i < rows.len() && keep(rows[i]) && forall|j: int|
                0 <= j < i ==> !keep(#[trigger] rows[j]),
            None => forall|j: int| 0 <= j < rows.len() ==> !keep(#[trigger] rows[j]),
        },
    decreases rows.len(),
{
    if rows.len() > 0 {
        lemma_first_where(rows.drop_last(), keep);
        assert(forall|j: int| 0 <= j < rows.len() - 1 ==> rows.drop_last()[j] == rows[j]);
    }
}

/// A row that keeps its place in a search does not change what the search finds.
pub proof fn lemma_first_update<T>(rows: Seq<T>, keep: spec_fn(T) -> bool, i: int, row: T)
    requires
        0 <= i < rows.len(),
        keep(row) == keep(rows[i]),
    ensures
        first_where(rows.update(i, row), keep) == first_where(rows, keep),
{
    let changed = rows.update(i, row);
    lemma_first_where(rows, keep);
    lemma_first_where(changed, keep);
    assert forall|j: int| 0 <= j < rows.len() implies keep(#[trigger] changed[j]) == keep(rows[j]) by {
        if j == i {
            assert(changed[j] == row);
        } else {
            assert(changed[j] == rows[j]);
        }
    }
    match (first_where(rows, keep), first_where(changed, keep)) {
        (Some(a), Some(b)) => {
            if a < b {
                assert(keep(changed[a]));
            } else if b < a {
                assert(keep(rows[b]));
            }
        },
        (Some(a), None) => {
            assert(keep(changed[a]));
        },
        (None, Some(b)) => {
            assert(keep(rows[b]));
        },
        (None, None) => {},
    }
}

/// Rows that were there before one was appended stay in their places.
pub proof fn lemma_appended<T>(before: Seq<T>, after: Seq<T>)
    requires
        after.len() == before.len() + 1,
        after.drop_last() == before,
    ensures
        forall|k: int| 0 <= k < before.len() ==> #[trigger] after[k] == before[k],
{
    assert forall|k: int| 0 <= k < before.len() implies #[trigger] after[k] == before[k] by {
        assert(after.drop_last()[k] == after[k]);
    }
}

/// A search finds the same row as long as the rows that it had stay, and none that it would find
/// first follows them.
pub proof fn lemma_search_goes_on<T>(before: Seq<T>, after: Seq<T>, keep: spec_fn(T) -> bool)
    requires
        before.len() <= after.len(),
        forall|i: int| 0 <= i < before.len() ==> keep(#[trigger] after[i]) == keep(before[i]),
    ensures
        first_where(before, keep) is Some ==> first_where(after, keep)
            == first_where(before, keep),
        first_where(before, keep) is None && (forall|i: int|
            before.len() <= i < after.len() ==> !keep(#[trigger] after[i]))
            ==> first_where(after, keep) is None,
{
    lemma_first_where(before, keep);
    lemma_first_where(after, keep);
    if let Some(i) = first_where(before, keep) {
        assert(keep(after[i]));
        assert forall|k: int| 0 <= k < i implies !keep(#[trigger] after[k]) by {
            assert(!keep(before[k]));
        }
    } else {
        if let Some(i) = first_where(after, keep) {
            if i < before.len() {
                assert(!keep(before[i]));
            }
        }
    }
}

/// The index that an optional machine index stands for.
pub open spec fn index_of(found: Option<usize>) -> Option<int> {
    match found {
        Some(i) => Some(i as int),
        None => None,
    }
}

/// Finds the first row on which `test` answers true.
pub(crate) fn find_row<T, F: Fn(&T) -> bool>(
    rows: &Vec<T>,
    test: F,
    keep: Ghost<spec_fn(T) -> bool>,
) -> (found: Option<usize>)
    requires
        forall|row: &T| test.requires((row,)),
        forall|row: &T, b: bool| test.ensures((row,), b) ==> b == keep@(*row),
    ensures
        index_of(found) == first_where(rows@, keep@),
        found matches Some(i) ==> i < rows.len(),
{
    let mut i: usize = 0;
    while i < rows.len()
        invariant
            i <= rows.len(),
            first_where(rows@.take(i as int), keep@) is None,
            forall|row: &T| test.requires((row,)),
            forall|row: &T, b: bool| test.ensures((row,), b) ==> b == keep@(*row),
        decreases rows.len() - i,
    {
        assert(rows@.take(i + 1).drop_last() =~= rows@.take(i as int));
        if test(&rows[i]) {
            proof {
                lemma_first_match(rows@, keep@, i as int);
            }
            return Some(i);
        }
        i = i + 1;
    }
    assert(rows@.take(i as int) =~= rows@);
    None
}

proof fn lemma_first_match<T>(rows: Seq<T>, keep: spec_fn(T) -> bool, i: int)
    requires
        0 <= i < rows.len(),
        keep(rows[i]),
        first_where(rows.take(i), keep) is None,
    ensures
        first_where(rows, keep) == Some(i),
{
    lemma_first_where(rows, keep);
    lemma_first_where(rows.take(i), keep);
    assert forall|j: int| 0 <= j < i implies !keep(#[trigger] rows[j]) by {
        assert(rows.take(i)[j] == rows[j]);
    }
}

/// A first match exists exactly when some row satisfies `keep`.
pub proof fn lemma_some_row<T>(rows: Seq<T>, keep: spec_fn(T) -> bool)
    ensures
        some_row(rows, keep) <==> first_where(rows, keep) is Some,
{
    lemma_first_where(rows, keep);
}

/// Whether `test` answers true on some row.
pub(crate) fn any_row<T, F: Fn(&T) -> bool>(
    rows: &Vec<T>,
    test: F,
    keep: Ghost<spec_fn(T) -> bool>,
) -> (answer: bool)
    requires
        forall|row: &T| test.requires((row,)),
        forall|row: &T, b: bool| test.ensures((row,), b) ==> b == keep@(*row),
    ensures
        answer == some_row(rows@, keep@),
{
    proof {
        lemma_some_row(rows@, keep@);
    }
    find_row(rows, test, keep).is_some()
}

/// Whether every row satisfies `keep`.
pub open spec fn every_row<T>(rows: Seq<T>, keep: spec_fn(T) -> bool) -> bool {
    forall|i: int| 0 <= i < rows.len() ==> keep(#[trigger] rows[i])
}

/// Whether `test` answers true on every row.
pub(crate) fn all_rows<T, F: Fn(&T) -> bool>(
    rows: &Vec<T>,
    test: F,
    keep: Ghost<spec_fn(T) -> bool>,
) -> (answer: bool)
    requires
        forall|row: &T| test.requires((row,)),
        forall|row: &T, b: bool| test.ensures((row,), b) ==> b == keep@(*row),
    ensures
        answer == every_row(rows@, keep@),
{
    let mut i: usize = 0;
    while i < rows.len()
        invariant
            i <= rows.len(),
            forall|j: int| 0 <= j < i ==> keep@(#[trigger] rows@[j]),
            forall|row: &T| test.requires((row,)),
            forall|row: &T, b: bool| test.ensures((row,), b) ==> b == keep@(*row),
        decreases rows.len() - i,
    {
        if !test(&rows[i]) {
            return false;
        }
        i = i + 1;
    }
    true
}

/// One page of a listing.
#[derive(Debug)]
pub struct Page<V> {
    pub items: Vec<V>,
    pub next_cursor: Option<String>,
}

/// How many of `found` rows a page of `limit` shows: none where the limit is not positive.
pub open spec fn shown(found: nat, limit: int) -> int {
    if limit <= 0 {
        0
    } else if found <= limit {
        found as int
    } else {
        limit
    }
}

/// Whether `items` presents the first `limit` rows that satisfy `keep`, in order.
pub open spec fn presents<T, V>(
    rows: Seq<T>,
    keep: spec_fn(T) -> bool,
    limit: int,
    items: Seq<V>,
    is_value: spec_fn(T, V) -> bool,
) -> bool {
    let found = rows.filter(keep);
    &&& items.len() == shown(found.len(), limit)
    &&& forall|k: int| 0 <= k < items.len() ==> is_value(found[k], #[trigger] items[k])
}

/// Whether `page` is the page of `limit` rows that satisfy `keep`: it presents them in order, and
/// its cursor is the sequence number of the last one shown if and only if one is shown and more rows
/// follow.
pub open spec fn is_page<T, V>(
    rows: Seq<T>,
    keep: spec_fn(T) -> bool,
    limit: int,
    page: Page<V>,
    is_value: spec_fn(T, V) -> bool,
    seq_of: spec_fn(T) -> int,
) -> bool {
    let found = rows.filter(keep);
    &&& presents(rows, keep, limit, page.items@, is_value)
    &&& text::text_of(page.next_cursor) == if 0 < limit < found.len() {
        Some(text::integer_text(seq_of(found[limit - 1])))
    } else {
        None
    }
}

/// A row past the ones already seen either extends what was found by itself or leaves it alone.
pub proof fn lemma_filter_step<T>(rows: Seq<T>, keep: spec_fn(T) -> bool, i: int)
    requires
        0 <= i < rows.len(),
    ensures
        rows.take(i + 1).filter(keep) == if keep(rows[i]) {
            rows.take(i).filter(keep).push(rows[i])
        } else {
            rows.take(i).filter(keep)
        },
{
    reveal(Seq::filter);
    assert(rows.take(i + 1).drop_last() =~= rows.take(i));
}

/// What was found in the first rows starts what is found in all of them.
pub proof fn lemma_filter_prefix<T>(rows: Seq<T>, keep: spec_fn(T) -> bool, i: int)
    requires
        0 <= i <= rows.len(),
    ensures
        rows.take(i).filter(keep).len() <= rows.filter(keep).len(),
        forall|k: int|
            0 <= k < rows.take(i).filter(keep).len() ==> rows.take(i).filter(keep)[k]
                == #[trigger] rows.filter(keep)[k],
    decreases rows.len() - i,
{
    if i < rows.len() {
        lemma_filter_prefix(rows, keep, i + 1);
        lemma_filter_step(rows, keep, i);
        let shorter = rows.take(i).filter(keep);
        assert forall|k: int| 0 <= k < shorter.len() implies shorter[k]
            == #[trigger] rows.filter(keep)[k] by {
            assert(rows.take(i + 1).filter(keep)[k] == shorter[k]);
        }
    } else {
        assert(rows.take(i) =~= rows);
    }
}

/// Builds the page of the first `limit` rows on which `test` answers true.
pub(crate) fn page_of<T, V, F: Fn(&T) -> bool, G: Fn(&T) -> V, H: Fn(&T) -> i64>(
    rows: &Vec<T>,
    test: F,
    keep: Ghost<spec_fn(T) -> bool>,
    limit: i64,
    make: G,
    is_value: Ghost<spec_fn(T, V) -> bool>,
    sequence: H,
    seq_of: Ghost<spec_fn(T) -> int>,
) -> (page: Page<V>)
    requires
        forall|row: &T| test.requires((row,)),
        forall|row: &T, b: bool| test.ensures((row,), b) ==> b == keep@(*row),
        forall|row: &T| make.requires((row,)),
        forall|row: &T, v: V| make.ensures((row,), v) ==> is_value@(*row, v),
        forall|row: &T| sequence.requires((row,)),
        forall|row: &T, n: i64| sequence.ensures((row,), n) ==> n == seq_of@(*row),
    ensures
        is_page(rows@, keep@, limit as int, page, is_value@, seq_of@),
{
    if limit <= 0 {
        return Page { items: Vec::new(), next_cursor: None };
    }
    let mut items: Vec<V> = Vec::new();
    let mut last: i64 = 0;
    let mut i: usize = 0;
    proof {
        reveal(Seq::filter);
        assert(rows@.take(0).filter(keep@) =~= Seq::<T>::empty());
    }
    while i < rows.len()
        invariant
            i <= rows.len(),
            limit > 0,
            items@.len() <= limit,
            items@.len() == rows@.take(i as int).filter(keep@).len(),
            forall|k: int|
                0 <= k < items@.len() ==> is_value@(
                    rows@.take(i as int).filter(keep@)[k],
                    #[trigger] items@[k],
                ),
            items@.len() > 0 ==> last == seq_of@(rows@.take(i as int).filter(keep@).last()),
            forall|row: &T| test.requires((row,)),
            forall|row: &T, b: bool| test.ensures((row,), b) ==> b == keep@(*row),
            forall|row: &T| make.requires((row,)),
            forall|row: &T, v: V| make.ensures((row,), v) ==> is_value@(*row, v),
            forall|row: &T| sequence.requires((row,)),
            forall|row: &T, n: i64| sequence.ensures((row,), n) ==> n == seq_of@(*row),
        decreases rows.len() - i,
    {
        proof {
            lemma_filter_step(rows@, keep@, i as int);
        }
        let ghost before = rows@.take(i as int).filter(keep@);
        if test(&rows[i]) {
            if items.len() as u64 == limit as u64 {
                let page = Page { items, next_cursor: Some(text::integer_string(last)) };
                proof {
                    lemma_filter_prefix(rows@, keep@, i + 1);
                    let found = rows@.filter(keep@);
                    assert(rows@.take(i + 1).filter(keep@).len() == limit + 1);
                    assert forall|k: int| 0 <= k < page.items@.len() implies is_value@(
                        found[k],
                        #[trigger] page.items@[k],
                    ) by {
                        assert(found[k] == rows@.take(i + 1).filter(keep@)[k]);
                        assert(before[k] == rows@.take(i + 1).filter(keep@)[k]);
                    }
                    assert(found[limit - 1] == before[limit - 1]);
                }
                return page;
            }
            let value = make(&rows[i]);
            last = sequence(&rows[i]);
            items.push(value);
        }
        i = i + 1;
    }
    assert(rows@.take(i as int) =~= rows@);
    Page { items, next_cursor: None }
}

/// A strict order: asymmetric, and its negation transitive.
pub open spec fn strict_order<T>(before: spec_fn(T, T) -> bool) -> bool {
    &&& forall|a: T, b: T| #[trigger] before(a, b) ==> !before(b, a)
    &&& forall|a: T, b: T, c: T|
        !(#[trigger] before(c, b)) && !(#[trigger] before(b, a)) ==> !before(c, a)
}

/// Whether no row comes strictly before an earlier one.
pub open spec fn ordered_rows<T>(rows: Seq<T>, before: spec_fn(T, T) -> bool) -> bool {
    forall|i: int, j: int|
        0 <= i < j < rows.len() ==> !before(#[trigger] rows[j], #[trigger] rows[i])
}

/// The rows in ascending order.
pub(crate) fn sort_rows<T, F: Fn(&T, &T) -> bool>(
    rows: Vec<T>,
    less: F,
    before: Ghost<spec_fn(T, T) -> bool>,
) -> (sorted: Vec<T>)
    requires
        strict_order(before@),
        forall|a: &T, b: &T| less.requires((a, b)),
        forall|a: &T, b: &T, hit: bool| less.ensures((a, b), hit) ==> hit == before@(*a, *b),
    ensures
        ordered_rows(sorted@, before@),
        sorted@.to_multiset() == rows@.to_multiset(),
{
    let mut pending = rows;
    let mut sorted: Vec<T> = Vec::new();
    assert(pending@ + sorted@ =~= rows@);
    while pending.len() > 0
        invariant
            strict_order(before@),
            forall|a: &T, b: &T| less.requires((a, b)),
            forall|a: &T, b: &T, hit: bool| less.ensures((a, b), hit) ==> hit == before@(*a, *b),
            ordered_rows(sorted@, before@),
            (pending@ + sorted@).to_multiset() == rows@.to_multiset(),
        decreases pending.len(),
    {
        let ghost left = pending@;
        let ghost done = sorted@;
        let item = pending.remove(0);
        let mut at: usize = sorted.len();
        while at > 0 && less(&item, &sorted[at - 1])
            invariant
                at <= sorted.len(),
                sorted@ == done,
                forall|a: &T, b: &T| less.requires((a, b)),
                forall|a: &T, b: &T, hit: bool| less.ensures((a, b), hit) ==> hit == before@(*a, *b),
                forall|k: int| at <= k < done.len() ==> before@(item, #[trigger] done[k]),
            decreases at,
        {
            at = at - 1;
        }
        sorted.insert(at, item);
        proof {
            lemma_insert_ordered(done, at as int, item, before@);
            let total = pending@ + done;
            assert(left + done =~= total.insert(0, item));
            assert(pending@ + sorted@ =~= total.insert(pending@.len() + at, item));
            vstd::seq_lib::to_multiset_insert(total, 0, item);
            vstd::seq_lib::to_multiset_insert(total, pending@.len() + at, item);
        }
    }
    assert(pending@ + sorted@ =~= sorted@);
    sorted
}

proof fn lemma_insert_ordered<T>(rows: Seq<T>, at: int, item: T, before: spec_fn(T, T) -> bool)
    requires
        strict_order(before),
        ordered_rows(rows, before),
        0 <= at <= rows.len(),
        at > 0 ==> !before(item, rows[at - 1]),
        forall|k: int| at <= k < rows.len() ==> before(item, #[trigger] rows[k]),
    ensures
        ordered_rows(rows.insert(at, item), before),
{
    let after = rows.insert(at, item);
    assert forall|i: int, j: int| 0 <= i < j < after.len() implies !before(
        #[trigger] after[j],
        #[trigger] after[i],
    ) by {
        if i < at && j < at {
            assert(after[i] == rows[i] && after[j] == rows[j]);
        } else if i < at && j == at {
            assert(after[i] == rows[i]);
            if i < at - 1 {
                assert(!before(rows[at - 1], rows[i]));
            }
        } else if i < at {
            assert(after[i] == rows[i] && after[j] == rows[j - 1]);
        } else if i == at {
            assert(after[j] == rows[j - 1]);
        } else {
            assert(after[i] == rows[i - 1] && after[j] == rows[j - 1]);
        }
    }
}

} // verus!
