//! What the workflow and the project status catalogs share: positions and atomic reordering.
use crate::failure::DomainFailure;
use crate::model::ReorderItem;
use crate::text;
use crate::validate;
use crate::validate::parse_revision;
use vstd::prelude::*;

verus! {

/// An active catalog entry: its id and its revision.
pub struct CatalogEntry {
    pub id: String,
    pub revision: i64,
}

/// What identifies an active catalog entry and its revision.
pub struct EntryView {
    pub id: Seq<char>,
    pub revision: int,
}

impl View for CatalogEntry {
    type V = EntryView;

    open spec fn view(&self) -> EntryView {
        EntryView { id: self.id@, revision: self.revision as int }
    }
}

/// The entries of a list, as mathematical values.
pub open spec fn entry_views(entries: Seq<CatalogEntry>) -> Seq<EntryView> {
    entries.map_values(|entry: CatalogEntry| entry@)
}

/// The place of the item that speaks of the entry with this id, from the first `n` items.
pub open spec fn item_for(items: Seq<ReorderItem>, id: Seq<char>, n: int) -> Option<int>
    decreases n,
{
    if n <= 0 {
        None
    } else {
        match item_for(items, id, n - 1) {
            Some(k) => Some(k),
            None => if items[n - 1].id@ == id {
                Some(n - 1)
            } else {
                None
            },
        }
    }
}

/// The place of the item that speaks of the entry with this id.
pub open spec fn item_of(items: Seq<ReorderItem>, id: Seq<char>) -> Option<int> {
    item_for(items, id, items.len() as int)
}

/// Why a batch does not fit an entry: no item speaks of it, or its revision has moved on.
pub open spec fn entry_refusal(entry: EntryView, items: Seq<ReorderItem>) -> Option<DomainFailure> {
    match item_of(items, entry.id) {
        None => Some(DomainFailure::InvalidRequest),
        Some(k) => match validate::revision_value(items[k].expected_revision@) {
            None => Some(DomainFailure::InvalidRequest),
            Some(expected) => if expected == entry.revision {
                None
            } else {
                Some(DomainFailure::RevisionConflict)
            },
        },
    }
}

/// Among the entries that the batch does not fit, the place of the one whose id comes first.
pub open spec fn first_misfit(entries: Seq<EntryView>, items: Seq<ReorderItem>) -> Option<int>
    decreases entries.len(),
{
    if entries.len() == 0 {
        None
    } else {
        let last = entries.last();
        match first_misfit(entries.drop_last(), items) {
            None => if entry_refusal(last, items) is Some {
                Some(entries.len() - 1)
            } else {
                None
            },
            Some(k) => if entry_refusal(last, items) is Some && text::text_before(
                last.id,
                entries[k].id,
            ) {
                Some(entries.len() - 1)
            } else {
                Some(k)
            },
        }
    }
}

/// Why a batch does not fit the active entries, if that is so: it must name as many items as there
/// are active entries, and each entry must have its item with its present revision. Where several
/// entries do not fit, the one whose id comes first decides.
pub open spec fn reorder_refusal(entries: Seq<EntryView>, items: Seq<ReorderItem>) -> Option<
    DomainFailure,
> {
    if entries.len() != items.len() {
        Some(DomainFailure::InvalidRequest)
    } else {
        match first_misfit(entries, items) {
            Some(k) => entry_refusal(entries[k], items),
            None => None,
        }
    }
}

/// What the first misfit is: a place among the entries, of one that does not fit; with none, all fit.
pub proof fn lemma_first_misfit(entries: Seq<EntryView>, items: Seq<ReorderItem>)
    ensures
        match first_misfit(entries, items) {
            Some(k) => 0 <= k < entries.len() && entry_refusal(entries[k], items) is Some,
            None => forall|j: int|
                0 <= j < entries.len() ==> entry_refusal(#[trigger] entries[j], items) is None,
        },
    decreases entries.len(),
{
    if entries.len() > 0 {
        lemma_first_misfit(entries.drop_last(), items);
        assert(forall|j: int|
            0 <= j < entries.len() - 1 ==> entries.drop_last()[j] == #[trigger] entries[j]);
    }
}

/// What an item for an id is: a place among the items, of one with that id.
pub proof fn lemma_item_for(items: Seq<ReorderItem>, id: Seq<char>, n: int)
    requires
        n <= items.len(),
    ensures
        match item_for(items, id, n) {
            Some(k) => 0 <= k < n && items[k].id@ == id,
            None => forall|j: int| 0 <= j < n ==> (#[trigger] items[j]).id@ != id,
        },
    decreases n,
{
    if n > 0 {
        lemma_item_for(items, id, n - 1);
    }
}

/// Finds the item that speaks of the entry with this id.
pub fn find_item(items: &Vec<ReorderItem>, id: &str) -> (found: Option<usize>)
    ensures
        match found {
            Some(k) => item_of(items@, id@) == Some(k as int) && k < items.len(),
            None => item_of(items@, id@) is None,
        },
{
    let mut k: usize = 0;
    while k < items.len()
        invariant
            k <= items.len(),
            item_for(items@, id@, k as int) is None,
        decreases items.len() - k,
    {
        if text::same(items[k].id.as_str(), id) {
            proof {
                lemma_item_stays(items@, id@, k + 1, items@.len() as int);
            }
            return Some(k);
        }
        k = k + 1;
    }
    None
}

proof fn lemma_item_stays(items: Seq<ReorderItem>, id: Seq<char>, n: int, m: int)
    requires
        0 <= n <= m,
        item_for(items, id, n) is Some,
    ensures
        item_for(items, id, m) == item_for(items, id, n),
    decreases m - n,
{
    if n < m {
        lemma_item_stays(items, id, n, m - 1);
    }
}

/// Why a batch does not fit an entry, if that is so.
fn check_entry(entry: &CatalogEntry, items: &Vec<ReorderItem>) -> (refusal: Option<DomainFailure>)
    ensures
        refusal == entry_refusal(entry@, items@),
{
    match find_item(items, entry.id.as_str()) {
        None => Some(DomainFailure::InvalidRequest),
        Some(k) => match parse_revision(items[k].expected_revision.as_str()) {
            Err(_) => Some(DomainFailure::InvalidRequest),
            Ok(expected) => if expected == entry.revision {
                None
            } else {
                Some(DomainFailure::RevisionConflict)
            },
        },
    }
}

/// Why a batch does not fit the active entries, if that is so.
pub fn check_reorder(entries: &Vec<CatalogEntry>, items: &Vec<ReorderItem>) -> (refusal: Option<
    DomainFailure,
>)
    ensures
        refusal == reorder_refusal(entry_views(entries@), items@),
{
    if entries.len() != items.len() {
        return Some(DomainFailure::InvalidRequest);
    }
    let ghost views = entry_views(entries@);
    let mut misfit: Option<usize> = None;
    let mut i: usize = 0;
    while i < entries.len()
        invariant
            i <= entries.len(),
            views == entry_views(entries@),
            match misfit {
                Some(k) => k < i && first_misfit(views.take(i as int), items@) == Some(k as int),
                None => first_misfit(views.take(i as int), items@) is None,
            },
        decreases entries.len() - i,
    {
        assert(views.take(i + 1).drop_last() =~= views.take(i as int));
        assert(views.take(i + 1).last() == entries@[i as int]@);
        if check_entry(&entries[i], items).is_some() {
            match misfit {
                Some(k) => {
                    assert(views.take(i as int)[k as int] == entries@[k as int]@);
                    assert(views.take(i + 1)[k as int] == entries@[k as int]@);
                    if text::comes_before(entries[i].id.as_str(), entries[k].id.as_str()) {
                        misfit = Some(i);
                    }
                },
                None => {
                    misfit = Some(i);
                },
            }
        }
        i = i + 1;
    }
    assert(views.take(i as int) =~= views);
    match misfit {
        Some(k) => check_entry(&entries[k], items),
        None => None,
    }
}

/// A batch that can be applied at all: 1 to 100 items with different ids and different positions in
/// the range from zero to the largest 32-bit number.
pub open spec fn is_batch(items: Seq<ReorderItem>) -> bool {
    &&& 1 <= items.len() <= 100
    &&& forall|i: int| 0 <= i < items.len() ==> 0 <= (#[trigger] items[i]).position <= i32::MAX
    &&& forall|i: int, j: int|
        0 <= i < j < items.len() ==> (#[trigger] items[i]).id@ != (#[trigger] items[j]).id@
            && items[i].position != items[j].position
}

/// Whether a batch can be applied at all.
pub fn valid_batch(items: &Vec<ReorderItem>) -> (answer: bool)
    ensures
        answer == is_batch(items@),
{
    if items.len() == 0 || items.len() > 100 {
        return false;
    }
    let mut i: usize = 0;
    while i < items.len()
        invariant
            i <= items.len(),
            forall|k: int| 0 <= k < i ==> 0 <= (#[trigger] items@[k]).position <= i32::MAX,
            forall|k: int, j: int|
                0 <= k < j < i ==> (#[trigger] items@[k]).id@ != (#[trigger] items@[j]).id@
                    && items@[k].position != items@[j].position,
        decreases items.len() - i,
    {
        if items[i].position < 0 || items[i].position > i32::MAX as i64 {
            assert(!(0 <= items@[i as int].position <= i32::MAX));
            return false;
        }
        let mut k: usize = 0;
        while k < i
            invariant
                k <= i < items.len(),
                forall|j: int|
                    0 <= j < k ==> (#[trigger] items@[j]).id@ != items@[i as int].id@
                        && items@[j].position != items@[i as int].position,
            decreases i - k,
        {
            if text::same(items[k].id.as_str(), items[i].id.as_str()) || items[k].position
                == items[i].position {
                assert(items@[k as int].id@ == items@[i as int].id@ || items@[k as int].position
                    == items@[i as int].position);
                return false;
            }
            k = k + 1;
        }
        i = i + 1;
    }
    true
}

/// Whether a position fits the 32-bit column that holds it.
pub open spec fn position_fits(position: int) -> bool {
    i32::MIN <= position <= i32::MAX
}

/// Whether a position fits the 32-bit column that holds it.
pub fn fits_position(position: i64) -> (answer: bool)
    ensures
        answer == position_fits(position as int),
{
    i32::MIN as i64 <= position && position <= i32::MAX as i64
}

} // verus!
