//! The activity stream only grows, under ever higher numbers.
use crate::activity;
use crate::failure::StorageError;
use crate::laws::history;
use crate::laws::history::{History, Step};
use crate::laws::pages;
use crate::model::{ActivityValue, ListActivityRequest};
use crate::retention;
use crate::store;
use crate::store::{ActivityEntry, Invocation, Store};
use crate::table::Page;
use crate::text;
use crate::validate;
use vstd::prelude::*;

verus! {

/// Whether the activity records stand under strictly ascending numbers below the next one.
pub open spec fn feed_ordered(s: Store) -> bool {
    &&& forall|i: int, j: int|
        0 <= i < j < s.activity@.len() ==> (#[trigger] s.activity@[i]).activity_id < (
        #[trigger] s.activity@[j]).activity_id
    &&& forall|i: int|
        0 <= i < s.activity@.len() ==> 0 < (#[trigger] s.activity@[i]).activity_id < s.next_activity
    &&& 0 < s.next_activity
}

/// An empty store has an ordered stream.
pub proof fn law_empty_feed_is_ordered(s: Store)
    requires
        s.activity@.len() == 0,
        s.next_activity == 1,
    ensures
        feed_ordered(s),
{
}

/// Every recorded mutation keeps each earlier record in its place, appends one with a number above
/// all of them, and keeps the stream ordered.
pub proof fn law_recording_appends_to_the_feed(
    before: Store,
    after: Store,
    call: Invocation,
    key: Seq<char>,
    entry: ActivityEntry,
)
    requires
        feed_ordered(before),
        store::recorded(before, after, call, key, entry),
    ensures
        feed_ordered(after),
        forall|i: int|
            0 <= i < before.activity@.len() ==> #[trigger] after.activity@[i]
                == before.activity@[i],
        forall|i: int|
            0 <= i < before.activity@.len() ==> (#[trigger] before.activity@[i]).activity_id
                < after.activity@.last().activity_id,
{
    let n = before.activity@.len() as int;
    assert forall|i: int| 0 <= i < n implies #[trigger] after.activity@[i] == before.activity@[i] by {
        assert(after.activity@.drop_last()[i] == after.activity@[i]);
    }
    assert(after.activity@[n].activity_id == before.next_activity);
    assert forall|i: int, j: int| 0 <= i < j < after.activity@.len() implies (
    #[trigger] after.activity@[i]).activity_id < (#[trigger] after.activity@[j]).activity_id by {
        assert(after.activity@[i] == before.activity@[i]);
        if j < n {
            assert(after.activity@[j] == before.activity@[j]);
        }
    }
    assert forall|i: int| 0 <= i < after.activity@.len() implies 0 < (
    #[trigger] after.activity@[i]).activity_id < after.next_activity by {
        if i < n {
            assert(after.activity@[i] == before.activity@[i]);
        }
    }
}

/// Whether the stream goes on from one store to the other: every record keeps its place and its
/// number, and what is added has numbers that were not given yet.
pub open spec fn feed_extended(before: Store, after: Store) -> bool {
    &&& before.activity@.len() <= after.activity@.len()
    &&& before.next_activity <= after.next_activity
    &&& forall|i: int|
        0 <= i < before.activity@.len() ==> (#[trigger] after.activity@[i]).activity_id
            == before.activity@[i].activity_id
    &&& forall|i: int|
        before.activity@.len() <= i < after.activity@.len() ==> before.next_activity <= (
        #[trigger] after.activity@[i]).activity_id
    &&& feed_ordered(before) ==> feed_ordered(after)
}

/// Whether one record was appended under the next number, or every record kept its place and
/// number.
pub open spec fn feed_moves(before: Store, after: Store) -> bool {
    ||| {
        &&& after.activity@.len() == before.activity@.len() + 1
        &&& after.activity@.drop_last() == before.activity@
        &&& after.activity@.last().activity_id == before.next_activity
        &&& after.next_activity == before.next_activity + 1
    }
    ||| {
        &&& after.activity@.len() == before.activity@.len()
        &&& after.next_activity == before.next_activity
        &&& forall|i: int|
            0 <= i < before.activity@.len() ==> (#[trigger] after.activity@[i]).activity_id
                == before.activity@[i].activity_id
    }
}

proof fn lemma_moving_extends(before: Store, after: Store)
    requires
        feed_moves(before, after),
    ensures
        feed_extended(before, after),
{
    let n = before.activity@.len() as int;
    assert forall|i: int| 0 <= i < n implies (#[trigger] after.activity@[i]).activity_id
        == before.activity@[i].activity_id by {
        if after.activity@.len() > n {
            assert(after.activity@.drop_last()[i] == after.activity@[i]);
        }
    }
    if feed_ordered(before) {
        assert forall|i: int, j: int| 0 <= i < j < after.activity@.len() implies (
        #[trigger] after.activity@[i]).activity_id < (#[trigger] after.activity@[j]).activity_id by {
            assert(before.activity@[i].activity_id < before.next_activity);
            if j < n {
                assert(before.activity@[i].activity_id < before.activity@[j].activity_id);
            }
        }
        assert forall|i: int| 0 <= i < after.activity@.len() implies 0 < (
        #[trigger] after.activity@[i]).activity_id < after.next_activity by {
            if i < n {
                assert(0 < before.activity@[i].activity_id < before.next_activity);
            }
        }
    }
}

/// Every operation either appends one record to the stream or leaves every record in its place.
#[verifier::spinoff_prover]
#[verifier::rlimit(60)]
pub proof fn law_every_operation_extends_the_feed(before: Store, after: Store, step: Step)
    requires
        history::takes(before, after, step),
    ensures
        feed_extended(before, after),
{
    match step {
        Step::ApplyRetention { r, .. } => {
            assert forall|i: int|
                before.receipt_at(r.action_id@) is None && after != before && 0 <= i
                    < before.activity@.len() implies (#[trigger] after.activity@[i]).activity_id
                == before.activity@[i].activity_id by {
                assert(retention::is_kept_activity(before.activity@[i], after.activity@[i], r));
            }
        },
        _ => {},
    }
    assert(feed_moves(before, after));
    lemma_moving_extends(before, after);
}

/// Over any operations the stream only goes on.
pub proof fn law_feed_only_grows(history: History, i: int, j: int)
    requires
        history.holds(),
        0 <= i <= j < history.stores.len(),
    ensures
        feed_extended(history.stores[i], history.stores[j]),
    decreases j - i,
{
    if i < j {
        law_feed_only_grows(history, i, j - 1);
        assert(history.steps_on(j - 1));
        let (a, b, c) = (history.stores[i], history.stores[j - 1], history.stores[j]);
        law_every_operation_extends_the_feed(b, c, history.steps[j - 1]);
        assert forall|k: int| 0 <= k < a.activity@.len() implies (
        #[trigger] c.activity@[k]).activity_id == a.activity@[k].activity_id by {
            assert(b.activity@[k].activity_id == a.activity@[k].activity_id);
        }
        assert forall|k: int| a.activity@.len() <= k < c.activity@.len() implies a.next_activity <= (
        #[trigger] c.activity@[k]).activity_id by {
            if k < b.activity@.len() {
                assert(a.next_activity <= b.activity@[k].activity_id);
            }
        }
    }
}

/// Over any operations from an empty store, the stream stands in the order of its numbers.
pub proof fn law_feed_is_always_ordered(history: History, k: int)
    requires
        history.starts_empty(),
        0 <= k < history.stores.len(),
    ensures
        feed_ordered(history.stores[k]),
        pages::ascending(history.stores[k].activity@, activity::activity_seq()),
{
    law_empty_feed_is_ordered(history.stores[0]);
    law_feed_only_grows(history, 0, k);
}

/// A checkpoint skips no later record: whatever is in the stream later and was not there at the
/// listing has a number above the checkpoint that the listing gave. A listing that shows nothing gives
/// back the checkpoint that it was asked for: it must be one that the stream has reached.
pub proof fn law_checkpoint_skips_nothing(
    s: Store,
    later: Store,
    actor: Seq<char>,
    r: ListActivityRequest,
    page: Page<ActivityValue>,
)
    requires
        feed_ordered(s),
        activity::list_activity_outcome(s, actor, r, Ok::<Page<ActivityValue>, StorageError>(page)),
        page.items@.len() > 0 || validate::cursor_value(text::text_of(r.after))->0
            < s.next_activity,
        feed_extended(s, later),
    ensures
        ({
            let checkpoint = validate::cursor_value(text::text_of(page.next_cursor));
            &&& checkpoint is Some
            &&& forall|i: int|
                s.activity@.len() <= i < later.activity@.len() ==> checkpoint->0 < (
                #[trigger] later.activity@[i]).activity_id
        }),
{
    if page.items@.len() > 0 {
        let keep = activity::is_listed_activity(
            s,
            actor,
            r,
            validate::cursor_value(text::text_of(r.after))->0,
        );
        let found = s.activity@.filter(keep);
        let shown = page.items@.len() as int;
        let last = found[shown - 1];
        let k = pages::lemma_found(s.activity@, keep, shown - 1);
        assert(0 < last.activity_id < s.next_activity);
        pages::law_revision_reads_back(last.activity_id as int);
    }
}

/// A listing that shows nothing leaves the checkpoint where it was.
pub proof fn law_checkpoint_stays_at_the_end(
    s: Store,
    actor: Seq<char>,
    r: ListActivityRequest,
    page: Page<ActivityValue>,
)
    requires
        activity::list_activity_outcome(s, actor, r, Ok::<Page<ActivityValue>, StorageError>(page)),
        page.items@.len() == 0,
    ensures
        text::text_of(page.next_cursor) == text::text_of(r.after),
{
}

/// A listing shows only records above its checkpoint, in the order of their numbers.
pub proof fn law_listing_moves_forward(
    s: Store,
    actor: Seq<char>,
    r: ListActivityRequest,
    page: Page<ActivityValue>,
    i: int,
    j: int,
)
    requires
        feed_ordered(s),
        activity::list_activity_outcome(s, actor, r, Ok::<Page<ActivityValue>, StorageError>(page)),
        0 <= i < j < page.items@.len(),
    ensures
        ({
            let after = validate::cursor_value(text::text_of(r.after))->0;
            let found = s.activity@.filter(activity::is_listed_activity(s, actor, r, after));
            &&& activity::is_activity_value(found[i], page.items@[i])
            &&& activity::is_activity_value(found[j], page.items@[j])
            &&& after < found[i].activity_id < found[j].activity_id
        }),
{
    let after = validate::cursor_value(text::text_of(r.after))->0;
    let keep = activity::is_listed_activity(s, actor, r, after);
    let first = pages::lemma_found(s.activity@, keep, i);
    pages::lemma_filter_ascends(s.activity@, keep, activity::activity_seq());
    assert(activity::shows_activity()(
        s.activity@.filter(keep)[i],
        page.items@[i],
    ));
    assert(activity::shows_activity()(
        s.activity@.filter(keep)[j],
        page.items@[j],
    ));
    assert(activity::activity_seq()(s.activity@.filter(keep)[i]) < activity::activity_seq()(
        s.activity@.filter(keep)[j],
    ));
}

} // verus!
