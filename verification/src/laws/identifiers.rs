//! Identifiers stay with their issues, and numbers are never given twice.
use crate::failure::StorageError;
use crate::issue_rules;
use crate::issues;
use crate::laws::history;
use crate::laws::history::{History, Step};
use crate::laws::pages;
use crate::model::{
    Completion, CreateIssueRequest, IdentifierAlias, Issue, IssueValue, MoveIssueRequest,
};
use crate::store;
use crate::store::{Invocation, Store};
use crate::table;
use crate::text;
use vstd::prelude::*;

verus! {

/// Whether no identifier of an organization stands for two issues.
pub open spec fn identifiers_unique(s: Store) -> bool {
    forall|i: int, j: int|
        0 <= i < j < s.aliases@.len() ==> !same_identifier(
            #[trigger] s.aliases@[i],
            #[trigger] s.aliases@[j],
        )
}

/// Whether two records name the same identifier of the same organization.
pub open spec fn same_identifier(a: IdentifierAlias, b: IdentifierAlias) -> bool {
    a.organization_id@ == b.organization_id@ && a.identifier@ == b.identifier@
}

/// Whether the identifier that every issue has is on record for it.
pub open spec fn identifiers_recorded(s: Store) -> bool {
    forall|i: int|
        0 <= i < s.issues@.len() ==> s.aliases@.contains(
            #[trigger] identifier_record(s, s.issues@[i]),
        ) && records_identifier(identifier_record(s, s.issues@[i]), s.issues@[i])
}

/// Whether the record names the identifier that the issue has.
pub open spec fn records_identifier(alias: IdentifierAlias, row: Issue) -> bool {
    &&& alias.organization_id@ == row.organization_id@
    &&& alias.identifier@ == row.identifier@
    &&& alias.issue_id@ == row.issue_id@
}

/// The first record of the identifier that the issue has.
pub open spec fn identifier_record(s: Store, row: Issue) -> IdentifierAlias {
    s.aliases@[s.alias_at(row.organization_id@, row.identifier@)->0]
}

/// Whether a creation took effect.
pub open spec fn created(
    before: Store,
    after: Store,
    call: Invocation,
    r: CreateIssueRequest,
    value: IssueValue,
) -> bool {
    issues::create_issue_outcome(
        before,
        after,
        call,
        r,
        Ok::<Completion<IssueValue>, StorageError>(Completion::Fresh(value)),
    )
}

/// Whether a move took effect.
pub open spec fn moved(
    before: Store,
    after: Store,
    call: Invocation,
    r: MoveIssueRequest,
    value: IssueValue,
) -> bool {
    issues::move_issue_outcome(
        before,
        after,
        call,
        r,
        Ok::<Completion<IssueValue>, StorageError>(Completion::Fresh(value)),
    )
}

/// Decimal forms tell numbers apart.
pub proof fn lemma_decimal_injective(a: nat, b: nat)
    requires
        text::decimal(a) == text::decimal(b),
    ensures
        a == b,
{
    pages::lemma_decimal_value(a);
    pages::lemma_decimal_value(b);
}

/// A team never gives the same identifier under two numbers.
pub proof fn law_identifiers_differ_by_number(key: Seq<char>, a: nat, b: nat)
    requires
        issue_rules::identifier_text(key, a as int) == issue_rules::identifier_text(key, b as int),
    ensures
        a == b,
{
    let one = issue_rules::identifier_text(key, a as int);
    let other = issue_rules::identifier_text(key, b as int);
    let start = (key + "-"@).len() as int;
    assert(one.skip(start) =~= text::decimal(a));
    assert(other.skip(start) =~= text::decimal(b));
    lemma_decimal_injective(a, b);
}

/// A creation gives the team's next number to the issue and moves the team on by one; no other team
/// is affected.
pub proof fn law_creation_uses_one_number(
    before: Store,
    after: Store,
    call: Invocation,
    r: CreateIssueRequest,
    value: IssueValue,
)
    requires
        created(before, after, call, r, value),
    ensures
        ({
            let t = before.team_at(r.organization_id@, r.team_id@)->0;
            &&& before.team_at(r.organization_id@, r.team_id@) is Some
            &&& 0 <= t < before.teams@.len()
            &&& value.identifier@ == issue_rules::identifier_text(
                before.teams@[t].key@,
                before.teams@[t].next_issue_number as int,
            )
            &&& after.teams@[t].next_issue_number == before.teams@[t].next_issue_number + 1
            &&& forall|k: int|
                0 <= k < before.teams@.len() && k != t ==> #[trigger] after.teams@[k]
                    == before.teams@[k]
        }),
{
    let t = before.team_at(r.organization_id@, r.team_id@)->0;
    table::lemma_first_where(before.teams@, store::is_team(r.organization_id@, r.team_id@));
    assert(before.teams@[t].next_issue_number < i64::MAX);
}

/// A move gives the new team's next number to the issue and moves that team on by one.
pub proof fn law_move_uses_one_number(
    before: Store,
    after: Store,
    call: Invocation,
    r: MoveIssueRequest,
    value: IssueValue,
)
    requires
        moved(before, after, call, r, value),
    ensures
        ({
            let t = before.team_at(r.organization_id@, r.team_id@)->0;
            &&& before.team_at(r.organization_id@, r.team_id@) is Some
            &&& 0 <= t < before.teams@.len()
            &&& value.identifier@ == issue_rules::identifier_text(
                before.teams@[t].key@,
                before.teams@[t].next_issue_number as int,
            )
            &&& after.teams@[t].next_issue_number == before.teams@[t].next_issue_number + 1
            &&& forall|k: int|
                0 <= k < before.teams@.len() && k != t ==> #[trigger] after.teams@[k]
                    == before.teams@[k]
        }),
{
    let t = before.team_at(r.organization_id@, r.team_id@)->0;
    table::lemma_first_where(before.teams@, store::is_team(r.organization_id@, r.team_id@));
    assert(before.teams@[t].next_issue_number < i64::MAX);
}

/// Appending an unused identifier keeps identifiers unique.
proof fn lemma_append_unique(before: Store, after: Store)
    requires
        identifiers_unique(before),
        after.aliases@.len() == before.aliases@.len() + 1,
        after.aliases@.drop_last() == before.aliases@,
        before.alias_at(
            after.aliases@.last().organization_id@,
            after.aliases@.last().identifier@,
        ) is None,
    ensures
        identifiers_unique(after),
{
    let last = after.aliases@.last();
    let n = before.aliases@.len() as int;
    table::lemma_first_where(
        before.aliases@,
        store::is_alias(last.organization_id@, last.identifier@),
    );
    assert forall|i: int, j: int| 0 <= i < j < after.aliases@.len() implies !same_identifier(
        #[trigger] after.aliases@[i],
        #[trigger] after.aliases@[j],
    ) by {
        assert(after.aliases@.drop_last()[i] == after.aliases@[i]);
        assert(after.aliases@[i] == before.aliases@[i]);
        if j < n {
            assert(after.aliases@.drop_last()[j] == after.aliases@[j]);
            assert(after.aliases@[j] == before.aliases@[j]);
        }
    }
}

/// A creation keeps the identifiers of an organization unique.
pub proof fn law_creation_keeps_identifiers_unique(
    before: Store,
    after: Store,
    call: Invocation,
    r: CreateIssueRequest,
    value: IssueValue,
)
    requires
        identifiers_unique(before),
        created(before, after, call, r, value),
    ensures
        identifiers_unique(after),
{
    lemma_append_unique(before, after);
}

/// A move keeps the identifiers of an organization unique.
pub proof fn law_move_keeps_identifiers_unique(
    before: Store,
    after: Store,
    call: Invocation,
    r: MoveIssueRequest,
    value: IssueValue,
)
    requires
        identifiers_unique(before),
        moved(before, after, call, r, value),
    ensures
        identifiers_unique(after),
{
    lemma_append_unique(before, after);
}

/// A new issue is found by its id, and by its identifier unless that is itself the id of an issue.
pub proof fn law_created_issue_is_found(
    before: Store,
    after: Store,
    call: Invocation,
    r: CreateIssueRequest,
    value: IssueValue,
)
    requires
        created(before, after, call, r, value),
    ensures
        issues::resolved_issue(after, r.organization_id@, r.issue_id@) == Some(r.issue_id@),
        after.issue_at(r.organization_id@, value.identifier@) is None ==> issues::resolved_issue(
            after,
            r.organization_id@,
            value.identifier@,
        ) == Some(r.issue_id@),
{
    let by_id = store::is_issue(r.organization_id@, r.issue_id@);
    assert(by_id(after.issues@.last()));
    let keep = store::is_alias(r.organization_id@, value.identifier@);
    assert(table::first_where(before.aliases@, keep) is None);
    assert(keep(after.aliases@.last()));
}

/// Whatever a reference led to before a creation, it leads to afterwards, unless the reference is the
/// id that the new issue takes.
pub proof fn law_creation_keeps_references(
    before: Store,
    after: Store,
    call: Invocation,
    r: CreateIssueRequest,
    value: IssueValue,
    organization: Seq<char>,
    reference: Seq<char>,
)
    requires
        created(before, after, call, r, value),
        issues::resolved_issue(before, organization, reference) is Some,
        !(organization == r.organization_id@ && reference == r.issue_id@),
    ensures
        issues::resolved_issue(after, organization, reference) == issues::resolved_issue(
            before,
            organization,
            reference,
        ),
{
    let by_id = store::is_issue(organization, reference);
    assert(!by_id(after.issues@.last()));
    assert(table::first_where(after.issues@, by_id) == table::first_where(before.issues@, by_id));
    let keep = store::is_alias(organization, reference);
    table::lemma_first_where(before.aliases@, keep);
    if let Some(a) = table::first_where(before.aliases@, keep) {
        assert(after.aliases@.drop_last()[a] == after.aliases@[a]);
    }
}

/// Whatever a reference led to before a move, historical identifiers included, it leads to
/// afterwards, and the new identifier leads to the moved issue unless it is itself the id of one.
pub proof fn law_move_keeps_references(
    before: Store,
    after: Store,
    call: Invocation,
    r: MoveIssueRequest,
    value: IssueValue,
    organization: Seq<char>,
    reference: Seq<char>,
)
    requires
        moved(before, after, call, r, value),
    ensures
        issues::resolved_issue(before, organization, reference) is Some ==> issues::resolved_issue(
            after,
            organization,
            reference,
        ) == issues::resolved_issue(before, organization, reference),
        after.issue_at(r.organization_id@, value.identifier@) is None ==> issues::resolved_issue(
            after,
            r.organization_id@,
            value.identifier@,
        ) == Some(r.issue_id@),
{
    let i = before.issue_at(r.organization_id@, r.issue_id@)->0;
    table::lemma_first_where(before.issues@, store::is_issue(r.organization_id@, r.issue_id@));
    let by_id = store::is_issue(organization, reference);
    table::lemma_first_update(before.issues@, by_id, i, after.issues@[i]);
    let keep = store::is_alias(organization, reference);
    table::lemma_first_where(before.aliases@, keep);
    if let Some(a) = table::first_where(before.aliases@, keep) {
        assert(after.aliases@.drop_last()[a] == after.aliases@[a]);
    }
    let new = store::is_alias(r.organization_id@, value.identifier@);
    assert(table::first_where(before.aliases@, new) is None);
    assert(new(after.aliases@.last()));
}

/// A creation keeps the identifier of every issue on record.
pub proof fn law_creation_records_identifiers(
    before: Store,
    after: Store,
    call: Invocation,
    r: CreateIssueRequest,
    value: IssueValue,
)
    requires
        identifiers_recorded(before),
        created(before, after, call, r, value),
    ensures
        identifiers_recorded(after),
{
    let n = before.issues@.len() as int;
    assert forall|i: int| 0 <= i < after.issues@.len() implies after.aliases@.contains(
        #[trigger] identifier_record(after, after.issues@[i]),
    ) && records_identifier(identifier_record(after, after.issues@[i]), after.issues@[i]) by {
        let row = after.issues@[i];
        let keep = store::is_alias(row.organization_id@, row.identifier@);
        table::lemma_first_where(after.aliases@, keep);
        table::lemma_first_where(before.aliases@, keep);
        if i < n {
            assert(after.issues@.drop_last()[i] == row);
            let record = identifier_record(before, row);
            assert(before.aliases@.contains(identifier_record(before, before.issues@[i])));
            assert(keep(record));
            let a = table::first_where(before.aliases@, keep)->0;
            assert(after.aliases@.drop_last()[a] == after.aliases@[a]);
        } else {
            assert(keep(after.aliases@.last()));
        }
    }
}

/// A move keeps the identifier of every issue on record.
pub proof fn law_move_records_identifiers(
    before: Store,
    after: Store,
    call: Invocation,
    r: MoveIssueRequest,
    value: IssueValue,
)
    requires
        identifiers_recorded(before),
        moved(before, after, call, r, value),
    ensures
        identifiers_recorded(after),
{
    let m = before.issue_at(r.organization_id@, r.issue_id@)->0;
    table::lemma_first_where(before.issues@, store::is_issue(r.organization_id@, r.issue_id@));
    assert forall|i: int| 0 <= i < after.issues@.len() implies after.aliases@.contains(
        #[trigger] identifier_record(after, after.issues@[i]),
    ) && records_identifier(identifier_record(after, after.issues@[i]), after.issues@[i]) by {
        let row = after.issues@[i];
        let keep = store::is_alias(row.organization_id@, row.identifier@);
        table::lemma_first_where(after.aliases@, keep);
        table::lemma_first_where(before.aliases@, keep);
        if i != m {
            assert(row == before.issues@[i]);
            assert(before.aliases@.contains(identifier_record(before, before.issues@[i])));
            assert(keep(identifier_record(before, row)));
            let a = table::first_where(before.aliases@, keep)->0;
            assert(after.aliases@.drop_last()[a] == after.aliases@[a]);
        } else {
            assert(keep(after.aliases@.last()));
        }
    }
}

/// A moved issue lists the identifier that it had before among its previous ones.
pub proof fn law_moved_issue_remembers(
    before: Store,
    after: Store,
    call: Invocation,
    r: MoveIssueRequest,
    value: IssueValue,
)
    requires
        identifiers_recorded(before),
        moved(before, after, call, r, value),
    ensures
        ({
            let i = before.issue_at(r.organization_id@, r.issue_id@)->0;
            text::has_text(value.previous_identifiers@, before.issues@[i].identifier@)
        }),
{
    let i = before.issue_at(r.organization_id@, r.issue_id@)->0;
    table::lemma_first_where(before.issues@, store::is_issue(r.organization_id@, r.issue_id@));
    let old = before.issues@[i];
    let new = after.issues@[i];
    assert(before.aliases@.contains(identifier_record(before, before.issues@[i])));
    let record = identifier_record(before, old);
    let found = store::is_alias(old.organization_id@, old.identifier@);
    table::lemma_first_where(before.aliases@, found);
    assert(found(record));
    let a = table::first_where(before.aliases@, found)->0;
    assert(after.aliases@.drop_last()[a] == after.aliases@[a]);
    assert(new.identifier@ != old.identifier@);
    let keep = issue_rules::is_past_identifier(
        new.organization_id@,
        new.issue_id@,
        new.identifier@,
    );
    assert(keep(after.aliases@[a]));
    after.aliases@.lemma_filter_contains(keep, a);
    assert(issue_rules::is_history(
        value.previous_identifiers@,
        after.aliases@,
        new.organization_id@,
        new.issue_id@,
        new.identifier@,
    ));
    let rows = choose|rows: Seq<IdentifierAlias>|
        {
            &&& #[trigger] table::ordered_rows(rows, issue_rules::taken_earlier())
            &&& rows.to_multiset() == after.aliases@.filter(keep).to_multiset()
            &&& text::texts(value.previous_identifiers@) == issue_rules::identifiers(rows)
        };
    broadcast use vstd::seq_lib::group_to_multiset_ensures;
    assert(after.aliases@.filter(keep).to_multiset().count(record) > 0);
    assert(rows.contains(record));
    let k = choose|k: int| 0 <= k < rows.len() && rows[k] == record;
    assert(issue_rules::identifiers(rows)[k] == old.identifier@);
    assert(text::texts(value.previous_identifiers@).len() == rows.len());
    assert(text::texts(value.previous_identifiers@)[k] == value.previous_identifiers@[k]@);
}

/// No operation lets an identifier stand for two issues.
#[verifier::spinoff_prover]
#[verifier::rlimit(60)]
pub proof fn law_every_operation_keeps_identifiers_unique(before: Store, after: Store, step: Step)
    requires
        history::takes(before, after, step),
        identifiers_unique(before),
    ensures
        identifiers_unique(after),
{
    match step {
        Step::CreateIssue { call, r, result } => {
            if let Ok(Completion::Fresh(value)) = result {
                law_creation_keeps_identifiers_unique(before, after, call, r, value);
            }
        },
        Step::MoveIssue { call, r, result } => {
            if let Ok(Completion::Fresh(value)) = result {
                law_move_keeps_identifiers_unique(before, after, call, r, value);
            }
        },
        _ => {},
    }
}

/// Whether every issue and every record of an identifier stays where it is: at most one new issue
/// follows them, under an id of its own.
pub open spec fn references_kept(before: Store, after: Store) -> bool {
    &&& before.issues@.len() <= after.issues@.len()
    &&& forall|i: int|
        0 <= i < before.issues@.len() ==> same_issue(before.issues@[i], #[trigger] after.issues@[i])
    &&& before.aliases@.len() <= after.aliases@.len()
    &&& forall|i: int|
        0 <= i < before.aliases@.len() ==> #[trigger] after.aliases@[i] == before.aliases@[i]
}

/// Whether both rows are the same issue.
pub open spec fn same_issue(before: Issue, after: Issue) -> bool {
    after.organization_id@ == before.organization_id@ && after.issue_id@ == before.issue_id@
}

/// No operation removes an issue, changes its id, or drops the record of an identifier.
#[verifier::spinoff_prover]
#[verifier::rlimit(60)]
pub proof fn law_every_operation_keeps_issues_and_records(before: Store, after: Store, step: Step)
    requires
        history::takes(before, after, step),
    ensures
        references_kept(before, after),
        after.issues@.len() > before.issues@.len() ==> step is CreateIssue && after.issues@.len()
            == before.issues@.len() + 1 && after.issues@.last().organization_id@
            == step->CreateIssue_r.organization_id@ && after.issues@.last().issue_id@
            == step->CreateIssue_r.issue_id@,
{
    match step {
        Step::CreateIssue { r, .. } => {
            if after != before {
                table::lemma_appended(before.issues@, after.issues@);
                table::lemma_appended(before.aliases@, after.aliases@);
            }
        },
        Step::MoveIssue { r, .. } => {
            table::lemma_first_where(
                before.issues@,
                store::is_issue(r.organization_id@, r.issue_id@),
            );
            if after != before {
                table::lemma_appended(before.aliases@, after.aliases@);
            }
        },
        Step::UpdateIssue { r, .. } => table::lemma_first_where(
            before.issues@,
            store::is_issue(r.organization_id@, r.issue_id@),
        ),
        Step::ArchiveIssue { r, .. } => table::lemma_first_where(
            before.issues@,
            store::is_issue(r.organization_id@, r.issue_id@),
        ),
        Step::SetIssueAssignee { r, .. } => table::lemma_first_where(
            before.issues@,
            store::is_issue(r.organization_id@, r.issue_id@),
        ),
        _ => {},
    }
}

/// Whatever a reference stands for, the id of an issue or any identifier that it has or had, it stands
/// for after every operation, except where an issue is created under that very id.
pub proof fn law_every_operation_keeps_references(
    before: Store,
    after: Store,
    step: Step,
    organization: Seq<char>,
    reference: Seq<char>,
)
    requires
        history::takes(before, after, step),
        issues::resolved_issue(before, organization, reference) is Some,
        step matches Step::CreateIssue { r, .. } ==> !(r.organization_id@ == organization
            && r.issue_id@ == reference),
    ensures
        issues::resolved_issue(after, organization, reference) == issues::resolved_issue(
            before,
            organization,
            reference,
        ),
{
    law_every_operation_keeps_issues_and_records(before, after, step);
    let by_id = store::is_issue(organization, reference);
    assert forall|i: int| 0 <= i < before.issues@.len() implies by_id(#[trigger] after.issues@[i])
        == by_id(before.issues@[i]) by {
        assert(same_issue(before.issues@[i], after.issues@[i]));
    }
    assert forall|i: int| before.issues@.len() <= i < after.issues@.len() implies !by_id(
        #[trigger] after.issues@[i],
    ) by {
        assert(after.issues@[i] == after.issues@.last());
    }
    table::lemma_search_goes_on(before.issues@, after.issues@, by_id);
    table::lemma_search_goes_on(
        before.aliases@,
        after.aliases@,
        store::is_alias(organization, reference),
    );
    table::lemma_first_where(before.aliases@, store::is_alias(organization, reference));
}

/// Whether no issue or record was added, and every issue kept its id and its identifier.
pub open spec fn identifiers_untouched(before: Store, after: Store) -> bool {
    &&& after.aliases@ == before.aliases@
    &&& after.issues@.len() == before.issues@.len()
    &&& forall|i: int|
        0 <= i < after.issues@.len() ==> (#[trigger] after.issues@[i]).identifier@
            == before.issues@[i].identifier@ && same_issue(before.issues@[i], after.issues@[i])
}

proof fn lemma_untouched_identifiers_stay_recorded(before: Store, after: Store)
    requires
        identifiers_recorded(before),
        identifiers_untouched(before, after),
    ensures
        identifiers_recorded(after),
{
    assert forall|i: int| 0 <= i < after.issues@.len() implies after.aliases@.contains(
        #[trigger] identifier_record(after, after.issues@[i]),
    ) && records_identifier(identifier_record(after, after.issues@[i]), after.issues@[i]) by {
        let record = identifier_record(before, before.issues@[i]);
        assert(before.aliases@.contains(record));
        assert(identifier_record(after, after.issues@[i]) == record);
    }
}

/// After every operation, the identifier of every issue is on record for it.
#[verifier::spinoff_prover]
#[verifier::rlimit(60)]
pub proof fn law_every_operation_keeps_identifiers_recorded(
    before: Store,
    after: Store,
    step: Step,
)
    requires
        history::takes(before, after, step),
        identifiers_recorded(before),
    ensures
        identifiers_recorded(after),
{
    match step {
        Step::CreateIssue { call, r, result } => {
            if let Ok(Completion::Fresh(value)) = result {
                law_creation_records_identifiers(before, after, call, r, value);
            } else {
                lemma_untouched_identifiers_stay_recorded(before, after);
            }
        },
        Step::MoveIssue { call, r, result } => {
            if let Ok(Completion::Fresh(value)) = result {
                law_move_records_identifiers(before, after, call, r, value);
            } else {
                lemma_untouched_identifiers_stay_recorded(before, after);
            }
        },
        Step::UpdateIssue { r, .. } => {
            table::lemma_first_where(
                before.issues@,
                store::is_issue(r.organization_id@, r.issue_id@),
            );
            lemma_untouched_identifiers_stay_recorded(before, after);
        },
        Step::ArchiveIssue { r, .. } => {
            table::lemma_first_where(
                before.issues@,
                store::is_issue(r.organization_id@, r.issue_id@),
            );
            lemma_untouched_identifiers_stay_recorded(before, after);
        },
        Step::SetIssueAssignee { r, .. } => {
            table::lemma_first_where(
                before.issues@,
                store::is_issue(r.organization_id@, r.issue_id@),
            );
            lemma_untouched_identifiers_stay_recorded(before, after);
        },
        _ => lemma_untouched_identifiers_stay_recorded(before, after),
    }
}

/// Over any operations from an empty store, no identifier is on record twice in an organization, and
/// the identifier of every issue is on record for it.
pub proof fn law_identifiers_are_always_unique_and_recorded(history: History, k: int)
    requires
        history.starts_empty(),
        0 <= k < history.stores.len(),
    ensures
        identifiers_unique(history.stores[k]),
        identifiers_recorded(history.stores[k]),
    decreases k,
{
    if k > 0 {
        law_identifiers_are_always_unique_and_recorded(history, k - 1);
        assert(history.steps_on(k - 1));
        let (before, after) = (history.stores[k - 1], history.stores[k]);
        law_every_operation_keeps_identifiers_unique(before, after, history.steps[k - 1]);
        law_every_operation_keeps_identifiers_recorded(before, after, history.steps[k - 1]);
    }
}

} // verus!
