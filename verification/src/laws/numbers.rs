//! Issue numbers only grow: a team never gives a number again, whatever happens in between.
use crate::failure::StorageError;
use crate::issue_rules;
use crate::laws::history;
use crate::laws::history::{History, Step};
use crate::laws::identifiers;
use crate::model::{Completion, PutTeamRequest, Team, TeamValue};
use crate::project_status;
use crate::project_status::StatusIds;
use crate::store;
use crate::store::{Invocation, Store};
use crate::table;
use crate::teams;
use crate::workflow::WorkflowIds;
use vstd::prelude::*;

verus! {

/// Whether both rows are the same team, whose next number has not fallen.
pub open spec fn same_team(before: Team, after: Team) -> bool {
    &&& after.organization_id@ == before.organization_id@
    &&& after.team_id@ == before.team_id@
    &&& before.next_issue_number <= after.next_issue_number
}

/// Whether every team is still there, and none of their next numbers has fallen.
pub open spec fn numbers_kept(before: Store, after: Store) -> bool {
    &&& before.teams@.len() <= after.teams@.len()
    &&& forall|t: int|
        0 <= t < before.teams@.len() ==> same_team(before.teams@[t], #[trigger] after.teams@[t])
}

/// No operation removes a team or lets its next issue number fall.
#[verifier::spinoff_prover]
#[verifier::rlimit(60)]
pub proof fn law_every_operation_keeps_numbers(before: Store, after: Store, step: Step)
    requires
        history::takes(before, after, step),
    ensures
        numbers_kept(before, after),
{
    match step {
        Step::PutTeam { call, r, ids, states, result } => lemma_put_team_keeps_numbers(
            before,
            after,
            call,
            r,
            ids,
            states,
            result,
        ),
        Step::CreateIssue { r, .. } => table::lemma_first_where(
            before.teams@,
            store::is_team(r.organization_id@, r.team_id@),
        ),
        Step::MoveIssue { r, .. } => table::lemma_first_where(
            before.teams@,
            store::is_team(r.organization_id@, r.team_id@),
        ),
        _ => {},
    }
}

proof fn lemma_put_team_keeps_numbers(
    before: Store,
    after: Store,
    call: Invocation,
    r: PutTeamRequest,
    ids: StatusIds,
    states: WorkflowIds,
    result: Result<Completion<TeamValue>, StorageError>,
)
    requires
        teams::put_team_outcome(before, after, call, r, ids, states, result),
    ensures
        numbers_kept(before, after),
{
    if after != before {
        let ready = choose|ready: Store|
            {
                let verdict = teams::put_team_verdict(ready, r, states);
                &&& #[trigger] project_status::catalog_ready(before, ready, r.organization_id@, ids)
                &&& store::settles(verdict, result)
                &&& if verdict is Proceed {
                    teams::put_team_effect(ready, after, call, r, states, store::fresh(result))
                } else {
                    after == before
                }
            };
        assert(ready.teams == before.teams);
        assert(teams::put_team_effect(ready, after, call, r, states, store::fresh(result)));
        table::lemma_first_where(ready.teams@, store::is_team(r.organization_id@, r.team_id@));
        assert forall|t: int| 0 <= t < before.teams@.len() implies same_team(
            before.teams@[t],
            #[trigger] after.teams@[t],
        ) by {
            if r.expected_revision is None {
                assert(after.teams@.drop_last()[t] == after.teams@[t]);
            }
        }
    }
}

/// What was kept twice is kept.
pub proof fn lemma_numbers_kept_through(a: Store, b: Store, c: Store)
    requires
        numbers_kept(a, b),
        numbers_kept(b, c),
    ensures
        numbers_kept(a, c),
{
    assert forall|t: int| 0 <= t < a.teams@.len() implies same_team(
        a.teams@[t],
        #[trigger] c.teams@[t],
    ) by {
        assert(same_team(a.teams@[t], b.teams@[t]));
    }
}

/// Over any operations, every team stays where it is and its next issue number does not fall.
pub proof fn law_numbers_never_fall(history: History, i: int, j: int)
    requires
        history.holds(),
        0 <= i <= j < history.stores.len(),
    ensures
        numbers_kept(history.stores[i], history.stores[j]),
    decreases j - i,
{
    if i < j {
        law_numbers_never_fall(history, i, j - 1);
        assert(history.steps_on(j - 1));
        law_every_operation_keeps_numbers(
            history.stores[j - 1],
            history.stores[j],
            history.steps[j - 1],
        );
        lemma_numbers_kept_through(
            history.stores[i],
            history.stores[j - 1],
            history.stores[j],
        );
    }
}

/// A kept team is found where it was.
proof fn lemma_team_found(before: Store, after: Store, organization: Seq<char>, team: Seq<char>)
    requires
        numbers_kept(before, after),
        before.team_at(organization, team) is Some,
    ensures
        after.team_at(organization, team) == before.team_at(organization, team),
        0 <= before.team_at(organization, team)->0 < before.teams@.len(),
{
    let keep = store::is_team(organization, team);
    assert forall|t: int| 0 <= t < before.teams@.len() implies keep(#[trigger] after.teams@[t])
        == keep(before.teams@[t]) by {
        assert(same_team(before.teams@[t], after.teams@[t]));
    }
    table::lemma_search_goes_on(before.teams@, after.teams@, keep);
    table::lemma_first_where(before.teams@, keep);
}

/// Whether the operation gave this number of the team to an issue, under the identifier that the
/// number makes with the team's key.
pub open spec fn gives_number(
    before: Store,
    step: Step,
    organization: Seq<char>,
    team: Seq<char>,
    number: int,
    identifier: Seq<char>,
) -> bool {
    let row = before.teams@[before.team_at(organization, team)->0];
    &&& match step {
        Step::CreateIssue { r, result, .. } => {
            &&& r.organization_id@ == organization
            &&& r.team_id@ == team
            &&& result matches Ok(Completion::Fresh(value)) && value.identifier@ == identifier
        },
        Step::MoveIssue { r, result, .. } => {
            &&& r.organization_id@ == organization
            &&& r.team_id@ == team
            &&& result matches Ok(Completion::Fresh(value)) && value.identifier@ == identifier
        },
        _ => false,
    }
    &&& before.team_at(organization, team) is Some
    &&& number == row.next_issue_number
    &&& identifier == issue_rules::identifier_text(row.key@, number)
}

/// Every creation of an issue and every move to a team takes effect with a number of the team.
pub proof fn law_every_allocation_gives_a_number(
    before: Store,
    after: Store,
    step: Step,
    organization: Seq<char>,
    team: Seq<char>,
    identifier: Seq<char>,
)
    requires
        history::takes(before, after, step),
        match step {
            Step::CreateIssue { r, result, .. } => r.organization_id@ == organization && r.team_id@
                == team && (result matches Ok(Completion::Fresh(value)) && value.identifier@
                == identifier),
            Step::MoveIssue { r, result, .. } => r.organization_id@ == organization && r.team_id@
                == team && (result matches Ok(Completion::Fresh(value)) && value.identifier@
                == identifier),
            _ => false,
        },
    ensures
        gives_number(
            before,
            step,
            organization,
            team,
            before.teams@[before.team_at(organization, team)->0].next_issue_number as int,
            identifier,
        ),
{
    match step {
        Step::CreateIssue { call, r, result } => identifiers::law_creation_uses_one_number(
            before,
            after,
            call,
            r,
            store::fresh(result),
        ),
        Step::MoveIssue { call, r, result } => identifiers::law_move_uses_one_number(
            before,
            after,
            call,
            r,
            store::fresh(result),
        ),
        _ => {},
    }
}

/// A number that a team gives to an issue, created in it or moved to it, is larger than every
/// number that it gave before, whatever happened in between: numbers are never given twice.
pub proof fn law_later_numbers_are_larger(
    history: History,
    i: int,
    j: int,
    organization: Seq<char>,
    team: Seq<char>,
    m: int,
    n: int,
    first: Seq<char>,
    second: Seq<char>,
)
    requires
        history.holds(),
        0 <= i < j < history.steps.len(),
        gives_number(history.stores[i], history.steps[i], organization, team, m, first),
        gives_number(history.stores[j], history.steps[j], organization, team, n, second),
    ensures
        m < n,
{
    let before = history.stores[i];
    let after = history.stores[i + 1];
    assert(history.steps_on(i));
    match history.steps[i] {
        Step::CreateIssue { call, r, result } => identifiers::law_creation_uses_one_number(
            before,
            after,
            call,
            r,
            store::fresh(result),
        ),
        Step::MoveIssue { call, r, result } => identifiers::law_move_uses_one_number(
            before,
            after,
            call,
            r,
            store::fresh(result),
        ),
        _ => {},
    }
    law_every_operation_keeps_numbers(before, after, history.steps[i]);
    law_numbers_never_fall(history, i + 1, j);
    lemma_team_found(before, after, organization, team);
    lemma_team_found(after, history.stores[j], organization, team);
    let t = before.team_at(organization, team)->0;
    assert(same_team(after.teams@[t], history.stores[j].teams@[t]));
}

} // verus!
