//! Commands are idempotent: a completed command is answered again, never run again.
use crate::contract::CREATE_ISSUE_OPERATION;
use crate::failure::{DomainFailure, StorageError};
use crate::issues;
use crate::model::{Command, Completion, CreateIssueRequest, IssueValue};
use crate::store;
use crate::store::{ActivityEntry, Invocation, Store, Verdict};
use crate::table;
use vstd::prelude::*;

verus! {

/// Whether `after` is `before` with the reserved command of the call completed with this response,
/// as completing a command leaves it.
pub open spec fn completes(
    before: Store,
    after: Store,
    call: Invocation,
    operation: Seq<char>,
    key: Seq<char>,
    response: Seq<char>,
) -> bool {
    match before.command_at(call.caller@, call.actor@, operation, key) {
        Some(i) => {
            &&& before.commands@[i].response is None
            &&& after.commands@.len() == before.commands@.len()
            &&& after.commands@[i].response matches Some(text) && text@ == response
            &&& after.commands@ == before.commands@.update(
                i,
                Command { response: after.commands@[i].response, ..before.commands@[i] },
            )
            &&& after == (Store { commands: after.commands, ..before })
        },
        None => false,
    }
}

/// Whether two calls come from the same caller for the same actor.
pub open spec fn same_party(a: Invocation, b: Invocation) -> bool {
    a.caller@ == b.caller@ && a.actor@ == b.actor@
}

/// A mutation that was recorded and completed is answered with its stored response when the same
/// caller repeats it for the same actor with the same request, and refused when the request differs.
pub proof fn law_completed_command_is_replayed(
    before: Store,
    reserved: Store,
    done: Store,
    call: Invocation,
    again: Invocation,
    key: Seq<char>,
    entry: ActivityEntry,
    response: Seq<char>,
)
    requires
        before.command_verdict(call, entry.operation, key) is Proceed,
        store::recorded(before, reserved, call, key, entry),
        completes(reserved, done, call, entry.operation, key, response),
        same_party(call, again),
    ensures
        done.command_verdict(again, entry.operation, key) == if again.request_json@
            == call.request_json@ {
            Verdict::Replay(response)
        } else {
            Verdict::Refuse(DomainFailure::IdempotencyConflict)
        },
{
    let keep = store::is_command(call.caller@, call.actor@, entry.operation, key);
    let i = reserved.commands@.len() - 1;
    assert(table::first_where(reserved.commands@, keep) == Some(i));
    table::lemma_first_update(reserved.commands@, keep, i, done.commands@[i]);
    assert(done.commands@ =~= reserved.commands@.update(i, done.commands@[i]));
}

/// A mutation that was recorded but not completed is neither run again nor answered.
pub proof fn law_reserved_command_is_not_run_again(
    before: Store,
    reserved: Store,
    call: Invocation,
    again: Invocation,
    key: Seq<char>,
    entry: ActivityEntry,
)
    requires
        before.command_verdict(call, entry.operation, key) is Proceed,
        store::recorded(before, reserved, call, key, entry),
        same_party(call, again),
    ensures
        reserved.command_verdict(again, entry.operation, key) !is Proceed,
        reserved.command_verdict(again, entry.operation, key) !is Replay,
{
    let keep = store::is_command(call.caller@, call.actor@, entry.operation, key);
    assert(table::first_where(reserved.commands@, keep) == Some(reserved.commands@.len() - 1));
}

/// A command of another caller, actor, operation or key starts the same whether or not a mutation
/// was recorded and completed.
pub proof fn law_other_commands_are_untouched(
    before: Store,
    reserved: Store,
    done: Store,
    call: Invocation,
    other: Invocation,
    key: Seq<char>,
    entry: ActivityEntry,
    response: Seq<char>,
    other_operation: Seq<char>,
    other_key: Seq<char>,
)
    requires
        store::recorded(before, reserved, call, key, entry),
        completes(reserved, done, call, entry.operation, key, response),
        !(same_party(call, other) && other_operation == entry.operation && other_key == key),
    ensures
        done.command_verdict(other, other_operation, other_key) == before.command_verdict(
            other,
            other_operation,
            other_key,
        ),
{
    let mine = store::is_command(call.caller@, call.actor@, entry.operation, key);
    let keep = store::is_command(other.caller@, other.actor@, other_operation, other_key);
    let i = reserved.command_at(call.caller@, call.actor@, entry.operation, key)->0;
    table::lemma_first_where(reserved.commands@, mine);
    table::lemma_first_where(before.commands@, keep);
    table::lemma_first_update(reserved.commands@, keep, i, done.commands@[i]);
    assert(done.commands@ =~= reserved.commands@.update(i, done.commands@[i]));
    assert(table::first_where(reserved.commands@, keep) == table::first_where(
        before.commands@,
        keep,
    ));
    if let Some(j) = table::first_where(before.commands@, keep) {
        assert(reserved.commands@.drop_last()[j] == reserved.commands@[j]);
    }
}

/// Using a number of a team changes neither which teams there are nor who can see them.
pub proof fn lemma_numbers_hide_nothing(
    before: Store,
    after: Store,
    t: int,
    organization: Seq<char>,
    team: Seq<char>,
    subject: Seq<char>,
)
    requires
        0 <= t < before.teams@.len(),
        after.teams@ == issues::number_used(before.teams@, t),
        after.team_members == before.team_members,
    ensures
        after.team_at(organization, team) == before.team_at(organization, team),
        after.hidden_team(organization, team, subject) == before.hidden_team(
            organization,
            team,
            subject,
        ),
{
    let keep = store::is_team(organization, team);
    table::lemma_first_where(before.teams@, keep);
    table::lemma_first_update(before.teams@, keep, t, after.teams@[t]);
}

/// Creating an issue twice creates it once: the retry of a completed creation by the same caller for
/// the same actor, with the same request, answers with the stored response and changes nothing.
pub proof fn law_retried_creation_is_answered(
    before: Store,
    reserved: Store,
    done: Store,
    after: Store,
    call: Invocation,
    again: Invocation,
    r: CreateIssueRequest,
    value: IssueValue,
    response: Seq<char>,
    result: Result<Completion<IssueValue>, StorageError>,
)
    requires
        issues::create_issue_outcome(
            before,
            reserved,
            call,
            r,
            Ok::<Completion<IssueValue>, StorageError>(Completion::Fresh(value)),
        ),
        completes(reserved, done, call, CREATE_ISSUE_OPERATION@, r.idempotency_key@, response),
        same_party(call, again),
        again.request_json@ == call.request_json@,
        issues::create_issue_outcome(done, after, again, r, result),
    ensures
        after == done,
        result matches Ok(Completion::Replayed(text)) && text@ == response,
{
    let organization = r.organization_id@;
    let t = before.team_at(organization, r.team_id@)->0;
    let entry = ActivityEntry {
        organization,
        project: Some(r.project_id@),
        issue: Some(r.issue_id@),
        operation: CREATE_ISSUE_OPERATION@,
        kind: "issue"@,
        entity: r.issue_id@,
        revision: Some(1),
    };
    law_completed_command_is_replayed(
        before,
        reserved,
        done,
        call,
        again,
        r.idempotency_key@,
        entry,
        response,
    );
    table::lemma_first_where(before.teams@, store::is_team(organization, r.team_id@));
    assert(before.project_refusal(organization, r.project_id@, call.actor@) is None);
    let p = before.project_at(organization, r.project_id@)->0;
    let teams = before.projects@[p].team_ids@;
    assert forall|k: int| 0 <= k < teams.len() implies !done.hidden_team(
        organization,
        (#[trigger] teams[k])@,
        again.actor@,
    ) by {
        lemma_numbers_hide_nothing(before, done, t, organization, teams[k]@, again.actor@);
        assert(!before.hidden_team(organization, teams[k]@, again.actor@));
    }
    assert(!done.hidden_among(organization, teams, again.actor@));
    assert(done.project_refusal(organization, r.project_id@, again.actor@) is None);
    if let Some(parent) = r.parent_issue_id {
        let keep = store::is_issue(organization, parent@);
        table::lemma_first_where(before.issues@, keep);
        let i = table::first_where(before.issues@, keep)->0;
        assert(reserved.issues@.drop_last()[i] == reserved.issues@[i]);
        assert(done.issue_in_project(organization, r.project_id@, parent@));
    }
    assert forall|k: int| 0 <= k < r.label_ids@.len() implies done.usable_label(
        organization,
        r.team_id@,
        (#[trigger] r.label_ids@[k])@,
    ) by {
        assert(before.usable_label(organization, r.team_id@, r.label_ids@[k]@));
    }
    assert(issues::create_issue_verdict(done, again, r) == Verdict::Replay(response));
}

} // verus!
