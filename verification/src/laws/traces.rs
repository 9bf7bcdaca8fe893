//! What a change leaves in the activity stream and among the receipts, and how lists are kept.
use crate::store::{ActivityEntry, Invocation, Store};
use crate::store;
use crate::table;
use crate::text;
use vstd::prelude::*;

verus! {

/// What a record of the activity stream says.
pub struct Trace {
    pub organization: Seq<char>,
    pub project: Option<Seq<char>>,
    pub issue: Option<Seq<char>>,
    pub operation: Seq<char>,
    pub kind: Seq<char>,
    pub entity: Seq<char>,
    pub revision: Option<int>,
}

/// Whether two stores differ in the activity stream by exactly one record at its end, which says what
/// the actor of the call did and when, and in the receipts by exactly one that awaits its response.
pub open spec fn logged(before: Store, after: Store, call: Invocation, key: Seq<char>, trace: Trace) -> bool {
    let n = before.activity@.len() as int;
    let m = before.commands@.len() as int;
    let row = after.activity@[n];
    let receipt = after.commands@[m];
    &&& after.activity@.len() == n + 1
    &&& forall|k: int| 0 <= k < n ==> #[trigger] after.activity@[k] == before.activity@[k]
    &&& row.activity_id == before.next_activity
    &&& after.next_activity == before.next_activity + 1
    &&& row.organization_id@ == trace.organization
    &&& same_optional(row.project_id, trace.project)
    &&& same_optional(row.issue_id, trace.issue)
    &&& row.actor_subject@ == call.actor@
    &&& row.operation@ == trace.operation
    &&& row.entity_kind@ == trace.kind
    &&& row.entity_id@ == trace.entity
    &&& row.revision is Some == trace.revision is Some
    &&& row.revision is Some ==> row.revision->0 == trace.revision->0
    &&& row.occurred_at == call.now
    &&& after.commands@.len() == m + 1
    &&& forall|k: int| 0 <= k < m ==> #[trigger] after.commands@[k] == before.commands@[k]
    &&& receipt.caller@ == call.caller@
    &&& receipt.actor@ == call.actor@
    &&& receipt.operation@ == trace.operation
    &&& receipt.idempotency_key@ == key
    &&& receipt.request@ == call.request_json@
    &&& receipt.response is None
}

/// Whether an optional string holds the optional text.
pub open spec fn same_optional(held: Option<String>, text: Option<Seq<char>>) -> bool {
    match (held, text) {
        (Some(held), Some(text)) => held@ == text,
        (None, None) => true,
        _ => false,
    }
}

/// Whether two lists hold the same texts, each as often.
pub open spec fn lists_same(a: Seq<String>, b: Seq<String>) -> bool {
    a.map_values(|text: String| text@).to_multiset() == b.map_values(
        |text: String| text@,
    ).to_multiset()
}

/// Whether a text comes before another one in the order of code points: it is a proper beginning of
/// it, or has the smaller character where they first differ.
pub open spec fn precedes(a: Seq<char>, b: Seq<char>) -> bool {
    ||| a.len() < b.len() && a == b.take(a.len() as int)
    ||| exists|k: int|
        0 <= k < a.len() && k < b.len() && a.take(k) == b.take(k) && #[trigger] a[k] < b[k]
}

/// Whether no text of a list comes before an earlier one.
pub open spec fn ascending_texts(list: Seq<String>) -> bool {
    forall|i: int, j: int|
        0 <= i < j < list.len() ==> !precedes((#[trigger] list[j])@, (#[trigger] list[i])@)
}

/// The order in which labels and teams are kept is that of code points.
pub proof fn law_text_order(a: Seq<char>, b: Seq<char>)
    ensures
        text::text_before(a, b) == precedes(a, b),
    decreases a.len(),
{
    if b.len() > 0 && a.len() > 0 {
        if a[0] == b[0] {
            let (c, d) = (a.drop_first(), b.drop_first());
            law_text_order(c, d);
            assert(text::text_before(a, b) == text::text_before(c, d));
            if precedes(c, d) {
                if c.len() < d.len() && c == d.take(c.len() as int) {
                    assert(a == b.take(a.len() as int)) by {
                        assert forall|i: int| 0 <= i < a.len() implies a[i] == b[i] by {
                            if i > 0 {
                                assert(c[i - 1] == d.take(c.len() as int)[i - 1]);
                            }
                        }
                    }
                } else {
                    let k = choose|k: int|
                        0 <= k < c.len() && k < d.len() && c.take(k) == d.take(k) && #[trigger] c[k] < d[k];
                    assert(a[k + 1] < b[k + 1]);
                    assert(a.take(k + 1) == b.take(k + 1)) by {
                        assert forall|i: int| 0 <= i < k + 1 implies a[i] == b[i] by {
                            if i > 0 {
                                assert(c.take(k)[i - 1] == d.take(k)[i - 1]);
                            }
                        }
                    }
                }
                assert(precedes(a, b));
            }
            if precedes(a, b) {
                if a.len() < b.len() && a == b.take(a.len() as int) {
                    assert(c == d.take(c.len() as int)) by {
                        assert forall|i: int| 0 <= i < c.len() implies c[i] == d[i] by {
                            assert(a[i + 1] == b.take(a.len() as int)[i + 1]);
                        }
                    }
                } else {
                    let k = choose|k: int|
                        0 <= k < a.len() && k < b.len() && a.take(k) == b.take(k) && #[trigger] a[k] < b[k];
                    assert(k > 0);
                    assert(c[k - 1] < d[k - 1]);
                    assert(c.take(k - 1) == d.take(k - 1)) by {
                        assert forall|i: int| 0 <= i < k - 1 implies c[i] == d[i] by {
                            assert(a.take(k)[i + 1] == b.take(k)[i + 1]);
                        }
                    }
                }
                assert(precedes(c, d));
            }
        } else {
            if a[0] < b[0] {
                assert(a.take(0) == b.take(0));
                assert(precedes(a, b));
            }
            if precedes(a, b) {
                if a.len() < b.len() && a == b.take(a.len() as int) {
                    assert(a[0] == b.take(a.len() as int)[0]);
                } else {
                    let k = choose|k: int|
                        0 <= k < a.len() && k < b.len() && a.take(k) == b.take(k) && #[trigger] a[k] < b[k];
                    if k > 0 {
                        assert(a.take(k)[0] == b.take(k)[0]);
                    }
                    assert(k == 0);
                }
            }
        }
    } else if b.len() > 0 {
        assert(a == b.take(a.len() as int));
        assert(precedes(a, b));
    }
}

/// A sorted list holds what the unsorted one held, each text as often, in ascending order.
pub proof fn law_sorted_lists(sorted: Seq<String>, list: Seq<String>)
    requires
        text::sorted_from(sorted, list),
    ensures
        lists_same(sorted, list),
        ascending_texts(sorted),
{
    assert(sorted.map_values(|text: String| text@) == text::texts(sorted));
    assert(list.map_values(|text: String| text@) == text::texts(list));
    assert forall|i: int, j: int| 0 <= i < j < sorted.len() implies !precedes(
        (#[trigger] sorted[j])@,
        (#[trigger] sorted[i])@,
    ) by {
        law_text_order(sorted[j]@, sorted[i]@);
    }
}

/// What a mutation leaves behind besides its effect.
pub proof fn law_mutations_are_logged(
    before: Store,
    after: Store,
    call: Invocation,
    key: Seq<char>,
    entry: ActivityEntry,
)
    requires
        store::recorded(before, after, call, key, entry),
    ensures
        logged(
            before,
            after,
            call,
            key,
            (Trace {
                organization: entry.organization,
                project: entry.project,
                issue: entry.issue,
                operation: entry.operation,
                kind: entry.kind,
                entity: entry.entity,
                revision: entry.revision,
            }),
        ),
{
    table::lemma_appended(before.activity@, after.activity@);
    table::lemma_appended(before.commands@, after.commands@);
}

} // verus!
