//! What an issue tells of its past, and how a receipt gets its response.
use crate::failure::StorageError;
use crate::issue_rules;
use crate::laws::listings;
use crate::laws::traces;
use crate::model::{Command, IdentifierAlias, Issue, IssueValue};
use crate::store;
use crate::store::Store;
use crate::table;
use crate::text;
use vstd::prelude::*;

verus! {

/// Whether an identifier was taken before another one, or in the same instant with the smaller text.
pub open spec fn came_first(a: IdentifierAlias, b: IdentifierAlias) -> bool {
    ||| a.created_at.unix_nanos < b.created_at.unix_nanos
    ||| a.created_at.unix_nanos == b.created_at.unix_nanos && traces::precedes(
        a.identifier@,
        b.identifier@,
    )
}

/// Whether these are the places of the identifiers that are recorded for an issue besides its own.
pub open spec fn past_places(s: Store, row: Issue, at: Seq<int>) -> bool {
    &&& forall|k: int| 0 <= k < at.len() ==> 0 <= #[trigger] at[k] < s.aliases@.len()
    &&& forall|k: int, l: int| 0 <= k < l < at.len() ==> #[trigger] at[k] < #[trigger] at[l]
    &&& forall|i: int|
        0 <= i < s.aliases@.len() ==> (at.contains(i) <==> (
        #[trigger] s.aliases@[i]).organization_id@ == row.organization_id@
            && s.aliases@[i].issue_id@ == row.issue_id@ && s.aliases@[i].identifier@
            != row.identifier@)
}

/// A shown issue lists every other identifier that is recorded for it, each as often as it is recorded
/// and no more, from the earliest on.
pub proof fn law_shown_issue_tells_its_past(s: Store, row: Issue, value: IssueValue) -> (told: (
    Seq<int>,
    Seq<IdentifierAlias>,
))
    requires
        s.is_issue_value(row, value),
    ensures
        past_places(s, row, told.0),
        told.1.to_multiset() == told.0.map_values(|i: int| s.aliases@[i]).to_multiset(),
        forall|k: int, l: int|
            0 <= k < l < told.1.len() ==> !came_first(#[trigger] told.1[l], #[trigger] told.1[k]),
        value.previous_identifiers@.len() == told.1.len(),
        forall|k: int|
            0 <= k < told.1.len() ==> (#[trigger] value.previous_identifiers@[k])@
                == told.1[k].identifier@,
{
    let keep = issue_rules::is_past_identifier(
        row.organization_id@,
        row.issue_id@,
        row.identifier@,
    );
    let at = listings::lemma_filter_places(s.aliases@, keep);
    assert(at.map_values(|i: int| s.aliases@[i]) =~= s.aliases@.filter(keep));
    let rows = choose|rows: Seq<IdentifierAlias>|
        {
            &&& #[trigger] table::ordered_rows(rows, issue_rules::taken_earlier())
            &&& rows.to_multiset() == s.aliases@.filter(keep).to_multiset()
            &&& text::texts(value.previous_identifiers@) == issue_rules::identifiers(rows)
        };
    assert forall|k: int, l: int| 0 <= k < l < rows.len() implies !came_first(
        #[trigger] rows[l],
        #[trigger] rows[k],
    ) by {
        let earlier = issue_rules::taken_earlier();
        assert(!earlier(rows[l], rows[k]));
        traces::law_text_order(rows[l].identifier@, rows[k].identifier@);
    }
    let listed = text::texts(value.previous_identifiers@);
    assert(listed.len() == rows.len());
    assert forall|k: int| 0 <= k < rows.len() implies (
    #[trigger] value.previous_identifiers@[k])@ == rows[k].identifier@ by {
        assert(listed[k] == issue_rules::identifiers(rows)[k]);
    }
    (at, rows)
}

/// Whether a receipt is that of a caller's operation for an actor under a key.
pub open spec fn is_for(
    row: Command,
    caller: Seq<char>,
    actor: Seq<char>,
    operation: Seq<char>,
    key: Seq<char>,
) -> bool {
    &&& row.caller@ == caller
    &&& row.actor@ == actor
    &&& row.operation@ == operation
    &&& row.idempotency_key@ == key
}

/// A response goes to the one receipt that awaits it, and nothing else changes.
pub proof fn law_pending_receipt_takes_the_response(
    before: Store,
    after: Store,
    caller: Seq<char>,
    actor: Seq<char>,
    operation: Seq<char>,
    key: Seq<char>,
    response: Seq<char>,
    result: Result<(), StorageError>,
    at: int,
)
    requires
        store::complete_command_outcome(
            before,
            after,
            caller,
            actor,
            operation,
            key,
            response,
            result,
        ),
        0 <= at < before.commands@.len(),
        is_for(before.commands@[at], caller, actor, operation, key),
        forall|k: int|
            0 <= k < before.commands@.len() && k != at ==> !is_for(
                #[trigger] before.commands@[k],
                caller,
                actor,
                operation,
                key,
            ),
    ensures
        before.commands@[at].response is Some ==> {
            &&& result matches Err(StorageError::Runtime(_))
            &&& after == before
        },
        before.commands@[at].response is None ==> {
            &&& result is Ok
            &&& after.commands@.len() == before.commands@.len()
            &&& forall|k: int|
                0 <= k < before.commands@.len() && k != at ==> #[trigger] after.commands@[k]
                    == before.commands@[k]
            &&& traces::same_optional(after.commands@[at].response, Some(response))
            &&& is_for(after.commands@[at], caller, actor, operation, key)
            &&& after.commands@[at].request@ == before.commands@[at].request@
            &&& after == (Store { commands: after.commands, ..before })
        },
{
    let keep = store::is_command(caller, actor, operation, key);
    table::lemma_first_where(before.commands@, keep);
    assert(keep(before.commands@[at]));
    let found = before.command_at(caller, actor, operation, key);
    assert(keep(before.commands@[found->0]));
    assert(found->0 == at);
}

/// A response that no receipt awaits is not kept.
pub proof fn law_unreserved_response_is_not_kept(
    before: Store,
    after: Store,
    caller: Seq<char>,
    actor: Seq<char>,
    operation: Seq<char>,
    key: Seq<char>,
    response: Seq<char>,
    result: Result<(), StorageError>,
)
    requires
        store::complete_command_outcome(
            before,
            after,
            caller,
            actor,
            operation,
            key,
            response,
            result,
        ),
        forall|k: int|
            0 <= k < before.commands@.len() ==> !is_for(
                #[trigger] before.commands@[k],
                caller,
                actor,
                operation,
                key,
            ),
    ensures
        result matches Err(StorageError::Runtime(_)),
        after == before,
{
    let keep = store::is_command(caller, actor, operation, key);
    table::lemma_first_where(before.commands@, keep);
    if let Some(i) = before.command_at(caller, actor, operation, key) {
        assert(is_for(before.commands@[i], caller, actor, operation, key));
    }
}

} // verus!
