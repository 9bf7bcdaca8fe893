//! Teams and their members. A new team comes with its default workflow.
use crate::contract::{PUT_TEAM_OPERATION, SET_TEAM_MEMBER_OPERATION};
use crate::failure::{runtime, DomainFailure, StorageError};
use crate::model::{
    Completion, ListTeamsRequest, PutTeamRequest, SetTeamMemberRequest, Team, TeamMember,
    TeamMemberValue, TeamValue, WorkflowCategory,
};
use crate::project_status;
use crate::project_status::StatusIds;
use crate::store;
use crate::store::{check_growth, start_listing, ActivityEntry, Invocation, Store, Verdict};
use crate::table;
use crate::table::{any_row, page_of, Page};
use crate::text;
use crate::validate;
use crate::validate::parse_revision;
use crate::workflow;
use crate::workflow::WorkflowIds;
use vstd::prelude::*;

verus! {

/// Whether `value` shows the team in `row`.
pub open spec fn is_team_value(row: Team, value: TeamValue) -> bool {
    &&& value.team_id@ == row.team_id@
    &&& value.organization_id@ == row.organization_id@
    &&& value.key@ == row.key@
    &&& value.name@ == row.name@
    &&& text::text_of(value.description) == text::text_of(row.description)
    &&& value.private == row.private
    &&& value.default_workflow_state_id@ == row.default_workflow_state_id@
    &&& value.revision@ == text::integer_text(row.revision as int)
    &&& value.created_at@ == row.created_at.text@
    &&& value.updated_at@ == row.updated_at.text@
}

/// Shows the team in `row`.
pub fn load_team_value(row: &Team) -> (value: TeamValue)
    ensures
        is_team_value(*row, value),
{
    TeamValue {
        team_id: row.team_id.clone(),
        organization_id: row.organization_id.clone(),
        key: row.key.clone(),
        name: row.name.clone(),
        description: row.description.clone(),
        private: row.private,
        default_workflow_state_id: row.default_workflow_state_id.clone(),
        revision: text::integer_string(row.revision),
        created_at: row.created_at.text.clone(),
        updated_at: row.updated_at.text.clone(),
    }
}

/// Picks the teams other than this one that have the key.
pub open spec fn owns_key(organization: Seq<char>, key: Seq<char>, id: Seq<char>) -> spec_fn(Team) -> bool {
    |row: Team| row.organization_id@ == organization && row.key@ == key && row.team_id@ != id
}

/// Whether the workflow state can be the default of the team: its own, unarchived and unstarted.
pub open spec fn can_be_default(s: Store, organization: Seq<char>, team: Seq<char>, id: Seq<char>) -> bool {
    match s.team_state_at(organization, team, id) {
        Some(i) => s.workflow_states@[i].category == WorkflowCategory::Unstarted
            && !s.workflow_states@[i].archived,
        None => false,
    }
}

/// How putting a team starts.
pub open spec fn put_team_start(s: Store, call: Invocation, r: PutTeamRequest, ids: StatusIds) -> Verdict {
    store::demand(
        !table::some_row(s.teams@, owns_key(r.organization_id@, r.key@, r.team_id@)),
        DomainFailure::KeyConflict,
    ).and(s.command_verdict(call, PUT_TEAM_OPERATION@, r.idempotency_key@)).and(
        project_status::catalog_verdict(s, r.organization_id@, ids),
    )
}

/// How putting a team ends, in a store whose status catalog is set up.
pub open spec fn put_team_verdict(s: Store, r: PutTeamRequest, states: WorkflowIds) -> Verdict {
    let found = s.team_at(r.organization_id@, r.team_id@);
    let put = match r.expected_revision {
        Some(expected) => store::demand(
            r.default_workflow_state_id is Some && can_be_default(
                s,
                r.organization_id@,
                r.team_id@,
                r.default_workflow_state_id->0@,
            ),
            DomainFailure::DefaultStateInvalid,
        ).and(
            store::demand(
                validate::revision_value(expected@) is Some,
                DomainFailure::InvalidRequest,
            ),
        ).and(
            store::demand(
                found is Some && validate::revision_value(expected@) == Some(
                    s.teams@[found->0].revision as int,
                ),
                DomainFailure::RevisionConflict,
            ),
        ).and(store::grows(s.teams@[found->0].revision, 1, "update team"@)),
        None => store::demand(
            r.default_workflow_state_id is None,
            DomainFailure::DefaultStateInvalid,
        ).and(store::grows(s.next_row, 1, "insert team"@)).and(
            store::demand(
                !table::some_row(s.teams@, store::has_team_id(r.team_id@)),
                DomainFailure::KeyConflict,
            ),
        ).and(store::grows(s.next_row, 6, "initialize team workflow"@)).and(
            if states.are_free(s) {
                Verdict::Proceed
            } else {
                Verdict::Fault("initialize team workflow"@, "identifier is already in use"@)
            },
        ),
    };
    put.and(store::appends(s))
}

/// Whether `row` is the new team that the request asks for.
pub open spec fn is_new_team(
    row: Team,
    r: PutTeamRequest,
    default_state: Seq<char>,
    call: Invocation,
    row_seq: int,
) -> bool {
    &&& row.team_id@ == r.team_id@
    &&& row.organization_id@ == r.organization_id@
    &&& row.key@ == r.key@
    &&& row.name@ == text::trimmed(r.name@)
    &&& text::text_of(row.description) == text::trimmed_option(text::text_of(r.description))
    &&& row.private == r.private
    &&& row.default_workflow_state_id@ == default_state
    &&& row.next_issue_number == 1
    &&& row.revision == 1
    &&& row.created_at == call.now
    &&& row.updated_at == call.now
    &&& row.row_seq == row_seq
}

/// Whether `after` is the team `before` with the fields that the request gives.
pub open spec fn is_updated_team(before: Team, after: Team, r: PutTeamRequest, call: Invocation) -> bool {
    &&& after.key@ == r.key@
    &&& after.name@ == text::trimmed(r.name@)
    &&& text::text_of(after.description) == text::trimmed_option(text::text_of(r.description))
    &&& after.default_workflow_state_id@ == r.default_workflow_state_id->0@
    &&& after == (Team {
        key: after.key,
        name: after.name,
        description: after.description,
        private: r.private,
        default_workflow_state_id: after.default_workflow_state_id,
        revision: (before.revision + 1) as i64,
        updated_at: call.now,
        ..before
    })
}

/// What putting a team records.
pub open spec fn team_recorded(
    before: Store,
    after: Store,
    call: Invocation,
    r: PutTeamRequest,
    revision: int,
) -> bool {
    store::recorded(
        before,
        after,
        call,
        r.idempotency_key@,
        (ActivityEntry {
            organization: r.organization_id@,
            project: None,
            issue: None,
            operation: PUT_TEAM_OPERATION@,
            kind: "team"@,
            entity: r.team_id@,
            revision: Some(revision),
        }),
    )
}

/// What putting a team does, from a store whose status catalog is set up. A new team gets its five
/// default workflow states with it.
pub open spec fn put_team_effect(
    before: Store,
    after: Store,
    call: Invocation,
    r: PutTeamRequest,
    states: WorkflowIds,
    value: TeamValue,
) -> bool {
    let n = before.workflow_states@.len() as int;
    &&& match r.expected_revision {
        Some(_) => {
            let t = before.team_at(r.organization_id@, r.team_id@)->0;
            &&& after.teams@ == before.teams@.update(t, after.teams@[t])
            &&& is_updated_team(before.teams@[t], after.teams@[t], r, call)
            &&& after.workflow_states == before.workflow_states
            &&& after.next_row == before.next_row
            &&& team_recorded(before, after, call, r, before.teams@[t].revision + 1)
            &&& is_team_value(after.teams@[t], value)
        },
        None => {
            &&& after.teams@.len() == before.teams@.len() + 1
            &&& after.teams@.drop_last() == before.teams@
            &&& is_new_team(after.teams@.last(), r, states.todo@, call, before.next_row as int)
            &&& after.workflow_states@.len() == n + 5
            &&& after.workflow_states@.take(n) == before.workflow_states@
            &&& workflow::are_default_states(
                after.workflow_states@.skip(n),
                r.organization_id@,
                r.team_id@,
                states,
                before.next_row + 1,
            )
            &&& after.next_row == before.next_row + 6
            &&& team_recorded(before, after, call, r, 1)
            &&& is_team_value(after.teams@.last(), value)
        },
    }
    &&& after == (Store {
        teams: after.teams,
        workflow_states: after.workflow_states,
        next_row: after.next_row,
        activity: after.activity,
        commands: after.commands,
        next_activity: after.next_activity,
        ..before
    })
}

/// What putting a team does and answers.
pub open spec fn put_team_outcome(
    before: Store,
    after: Store,
    call: Invocation,
    r: PutTeamRequest,
    ids: StatusIds,
    states: WorkflowIds,
    result: Result<Completion<TeamValue>, StorageError>,
) -> bool {
    let start = put_team_start(before, call, r, ids);
    if start !is Proceed {
        store::settles(start, result) && after == before
    } else {
        exists|ready: Store|
            {
                let verdict = put_team_verdict(ready, r, states);
                &&& #[trigger] project_status::catalog_ready(before, ready, r.organization_id@, ids)
                &&& store::settles(verdict, result)
                &&& if verdict is Proceed {
                    put_team_effect(ready, after, call, r, states, store::fresh(result))
                } else {
                    after == before
                }
            }
    }
}

/// Picks the teams of the organization after a position.
pub open spec fn is_listed_team(organization: Seq<char>, after: int) -> spec_fn(Team) -> bool {
    |row: Team| row.organization_id@ == organization && row.row_seq > after
}

/// Says which value shows a team.
pub open spec fn shows_team() -> spec_fn(Team, TeamValue) -> bool {
    |row: Team, value: TeamValue| is_team_value(row, value)
}

/// The sequence number of a team.
pub open spec fn team_seq() -> spec_fn(Team) -> int {
    |row: Team| row.row_seq as int
}

/// What listing teams answers.
pub open spec fn list_teams_outcome(
    s: Store,
    r: ListTeamsRequest,
    result: Result<Page<TeamValue>, StorageError>,
) -> bool {
    match store::listing(r.limit, r.after, "list teams"@) {
        Verdict::Proceed => result matches Ok(page) && table::is_page(
                s.teams@,
                is_listed_team(r.organization_id@, validate::cursor_value(text::text_of(r.after))->0),
                r.limit as int,
                page,
                shows_team(),
                team_seq(),
            ),
        verdict => result matches Err(error) && store::fails(verdict, error),
    }
}

/// How setting a membership ends.
pub open spec fn set_team_member_verdict(s: Store, call: Invocation, r: SetTeamMemberRequest) -> Verdict {
    store::demand(
        s.team_at(r.organization_id@, r.team_id@) is Some,
        DomainFailure::NotFound,
    ).and(s.command_verdict(call, SET_TEAM_MEMBER_OPERATION@, r.idempotency_key@)).and(
        match s.member_at(r.organization_id@, r.team_id@, r.subject@) {
            Some(i) => if s.team_members@[i].active == r.active {
                Verdict::Proceed
            } else {
                store::grows(s.team_members@[i].revision, 1, "update team member"@)
            },
            None => Verdict::Proceed,
        },
    ).and(store::appends(s))
}

/// The revision that a membership has once it is set.
pub open spec fn member_revision(s: Store, r: SetTeamMemberRequest) -> int {
    match s.member_at(r.organization_id@, r.team_id@, r.subject@) {
        Some(i) => if s.team_members@[i].active == r.active {
            s.team_members@[i].revision as int
        } else {
            s.team_members@[i].revision + 1
        },
        None => 1,
    }
}

/// Whether setting the membership changes it.
pub open spec fn member_changes(s: Store, r: SetTeamMemberRequest) -> bool {
    match s.member_at(r.organization_id@, r.team_id@, r.subject@) {
        Some(i) => s.team_members@[i].active != r.active,
        None => true,
    }
}

/// What setting a membership does and answers.
pub open spec fn set_team_member_outcome(
    before: Store,
    after: Store,
    call: Invocation,
    r: SetTeamMemberRequest,
    result: Result<Completion<TeamMemberValue>, StorageError>,
) -> bool {
    let verdict = set_team_member_verdict(before, call, r);
    let revision = member_revision(before, r);
    let value = store::fresh(result);
    &&& store::settles(verdict, result)
    &&& if verdict is Proceed {
        &&& match before.member_at(r.organization_id@, r.team_id@, r.subject@) {
            Some(i) => after.team_members@ == before.team_members@.update(
                i,
                TeamMember {
                    active: r.active,
                    revision: revision as i64,
                    ..before.team_members@[i]
                },
            ),
            None => {
                let row = after.team_members@.last();
                &&& after.team_members@.len() == before.team_members@.len() + 1
                &&& after.team_members@.drop_last() == before.team_members@
                &&& row.organization_id@ == r.organization_id@
                &&& row.team_id@ == r.team_id@
                &&& row.subject@ == r.subject@
                &&& row.active == r.active
                &&& row.revision == 1
            },
        }
        &&& store::recorded(
            before,
            after,
            call,
            r.idempotency_key@,
            (ActivityEntry {
                organization: r.organization_id@,
                project: None,
                issue: None,
                operation: SET_TEAM_MEMBER_OPERATION@,
                kind: "team_member"@,
                entity: r.subject@,
                revision: Some(revision),
            }),
        )
        &&& after == (Store {
            team_members: after.team_members,
            activity: after.activity,
            commands: after.commands,
            next_activity: after.next_activity,
            ..before
        })
        &&& value.team_id@ == r.team_id@
        &&& value.subject@ == r.subject@
        &&& value.active == r.active
        &&& value.changed == member_changes(before, r)
        &&& value.revision@ == text::integer_text(revision)
    } else {
        after == before
    }
}

impl Store {
    /// Whether another team of the organization has the key.
    fn is_key_owned(&self, organization: &str, key: &str, id: &str) -> (answer: bool)
        ensures
            answer == table::some_row(self.teams@, owns_key(organization@, key@, id@)),
    {
        any_row(
            &self.teams,
            |row: &Team| -> (hit: bool)
                ensures
                    hit == owns_key(organization@, key@, id@)(*row)
            {
                text::same(row.organization_id.as_str(), organization) && text::same(
                    row.key.as_str(),
                    key,
                ) && !text::same(row.team_id.as_str(), id)
            },
            Ghost(owns_key(organization@, key@, id@)),
        )
    }

    /// Whether the workflow state can be the default of the team.
    fn is_possible_default(&self, organization: &str, team: &str, id: &str) -> (answer: bool)
        ensures
            answer == can_be_default(*self, organization@, team@, id@),
    {
        match self.find_team_state(organization, team, id) {
            Some(i) => self.workflow_states[i].category == WorkflowCategory::Unstarted
                && !self.workflow_states[i].archived,
            None => false,
        }
    }

    /// Where the team stands that a replacement applies to, or why it does not apply.
    fn check_team_update(&self, request: &PutTeamRequest, expected: &str) -> (checked: Result<
        usize,
        DomainFailure,
    >)
        requires
            request.expected_revision is Some,
            request.expected_revision->0@ == expected@,
        ensures
            match checked {
                Ok(t) => {
                    &&& forall|states: WorkflowIds|
                        #[trigger] put_team_verdict(*self, *request, states) == store::revises(
                            *self,
                            self.teams@[t as int].revision,
                            "update team"@,
                        )
                    &&& self.team_at(request.organization_id@, request.team_id@) == Some(t as int)
                    &&& t < self.teams.len()
                    &&& request.default_workflow_state_id is Some
                },
                Err(failure) => forall|states: WorkflowIds|
                    #[trigger] put_team_verdict(*self, *request, states) == Verdict::Refuse(failure),
            },
    {
        let organization = request.organization_id.as_str();
        let team = request.team_id.as_str();
        match &request.default_workflow_state_id {
            Some(state) => if !self.is_possible_default(organization, team, state.as_str()) {
                return Err(DomainFailure::DefaultStateInvalid);
            },
            None => {
                return Err(DomainFailure::DefaultStateInvalid);
            },
        }
        match parse_revision(expected) {
            Ok(expected) => match self.find_team(organization, team) {
                Some(t) => if self.teams[t].revision == expected {
                    Ok(t)
                } else {
                    Err(DomainFailure::RevisionConflict)
                },
                None => Err(DomainFailure::RevisionConflict),
            },
            Err(failure) => Err(failure),
        }
    }

    /// Creates a team with its default workflow, or replaces the fields of one.
    pub fn put_team(
        &mut self,
        call: &Invocation,
        request: &PutTeamRequest,
        ids: &StatusIds,
        states: &WorkflowIds,
    ) -> (result: Result<Completion<TeamValue>, StorageError>)
        ensures
            put_team_outcome(*old(self), *final(self), *call, *request, *ids, *states, result),
    {
        let organization = request.organization_id.as_str();
        let team = request.team_id.as_str();
        if self.is_key_owned(organization, request.key.as_str(), team) {
            return Err(StorageError::Domain(DomainFailure::KeyConflict));
        }
        if let Some(answer) = self.command_answer(
            call,
            PUT_TEAM_OPERATION,
            request.idempotency_key.as_str(),
        ) {
            return answer;
        }
        let backup = match self.ensure_project_status_catalog(organization, ids) {
            Ok(backup) => backup,
            Err(error) => {
                return Err(error);
            },
        };
        let ghost ready = *self;
        assert(project_status::catalog_ready(*old(self), ready, organization@, *ids));
        let t: usize;
        let revision: i64;
        match &request.expected_revision {
            Some(expected) => {
                t = match self.check_team_update(request, expected.as_str()) {
                    Ok(t) => t,
                    Err(failure) => {
                        self.restore_catalog(backup);
                        return Err(StorageError::Domain(failure));
                    },
                };
                if let Err(error) = self.check_revise(self.teams[t].revision, "update team") {
                    self.restore_catalog(backup);
                    return Err(error);
                }
                revision = self.teams[t].revision + 1;
                let row = &mut self.teams[t];
                row.key = request.key.clone();
                row.name = text::trim(request.name.as_str());
                row.description = text::trim_option(&request.description);
                row.private = request.private;
                if let Some(state) = &request.default_workflow_state_id {
                    row.default_workflow_state_id = state.clone();
                }
                row.revision = revision;
                row.updated_at = call.now.clone();
            },
            None => {
                if request.default_workflow_state_id.is_some() {
                    self.restore_catalog(backup);
                    return Err(StorageError::Domain(DomainFailure::DefaultStateInvalid));
                }
                if let Err(error) = check_growth(self.next_row, 1, "insert team") {
                    self.restore_catalog(backup);
                    return Err(error);
                }
                if self.taken_team_id(team) {
                    self.restore_catalog(backup);
                    return Err(StorageError::Domain(DomainFailure::KeyConflict));
                }
                if let Err(error) = check_growth(self.next_row, 6, "initialize team workflow") {
                    self.restore_catalog(backup);
                    return Err(error);
                }
                if !states.check_free(self) {
                    self.restore_catalog(backup);
                    return Err(runtime("initialize team workflow", "identifier is already in use"));
                }
                if let Err(error) = self.check_append() {
                    self.restore_catalog(backup);
                    return Err(error);
                }
                t = self.teams.len();
                revision = 1;
                self.teams.push(
                    Team {
                        team_id: request.team_id.clone(),
                        organization_id: request.organization_id.clone(),
                        key: request.key.clone(),
                        name: text::trim(request.name.as_str()),
                        description: text::trim_option(&request.description),
                        private: request.private,
                        default_workflow_state_id: states.todo.clone(),
                        next_issue_number: 1,
                        revision: 1,
                        created_at: call.now.clone(),
                        updated_at: call.now.clone(),
                        row_seq: self.next_row,
                    },
                );
                self.next_row = self.next_row + 1;
                assert(self.teams@.drop_last() =~= ready.teams@);
                self.insert_default_workflow_states(organization, team, states);
            },
        }
        self.record(
            call,
            request.idempotency_key.as_str(),
            organization,
            None,
            None,
            PUT_TEAM_OPERATION,
            "team",
            team,
            Some(revision),
        );
        let value = load_team_value(&self.teams[t]);
        Ok(Completion::Fresh(value))
    }

    /// Lists the teams of an organization, a page at a time.
    pub fn list_teams(&self, request: &ListTeamsRequest) -> (result: Result<
        Page<TeamValue>,
        StorageError,
    >)
        requires
            request.limit < i64::MAX,
        ensures
            list_teams_outcome(*self, *request, result),
    {
        let organization = request.organization_id.as_str();
        let after = match start_listing(request.limit, &request.after, "list teams") {
            Ok(after) => after,
            Err(error) => {
                return Err(error);
            },
        };
        Ok(
            page_of(
                &self.teams,
                |row: &Team| -> (hit: bool)
                    ensures
                        hit == is_listed_team(organization@, after as int)(*row)
                { text::same(row.organization_id.as_str(), organization) && row.row_seq > after },
                Ghost(is_listed_team(organization@, after as int)),
                request.limit,
                |row: &Team| -> (value: TeamValue)
                    ensures
                        shows_team()(*row, value)
                { load_team_value(row) },
                Ghost(shows_team()),
                |row: &Team| -> (n: i64)
                    ensures
                        n == team_seq()(*row)
                { row.row_seq },
                Ghost(team_seq()),
            ),
        )
    }

    /// Sets the membership of a subject in a team.
    pub fn set_team_member(&mut self, call: &Invocation, request: &SetTeamMemberRequest) -> (result:
        Result<Completion<TeamMemberValue>, StorageError>)
        ensures
            set_team_member_outcome(*old(self), *final(self), *call, *request, result),
    {
        let organization = request.organization_id.as_str();
        let team = request.team_id.as_str();
        let subject = request.subject.as_str();
        if self.find_team(organization, team).is_none() {
            return Err(StorageError::Domain(DomainFailure::NotFound));
        }
        if let Some(answer) = self.command_answer(
            call,
            SET_TEAM_MEMBER_OPERATION,
            request.idempotency_key.as_str(),
        ) {
            return answer;
        }
        let changed: bool;
        let revision: i64;
        match self.find_member(organization, team, subject) {
            Some(i) => {
                changed = self.team_members[i].active != request.active;
                if changed {
                    if let Err(error) = check_growth(self.team_members[i].revision, 1, "update team member") {
                        return Err(error);
                    }
                }
                if let Err(error) = self.check_append() {
                    return Err(error);
                }
                revision = if changed {
                    self.team_members[i].revision + 1
                } else {
                    self.team_members[i].revision
                };
                let row = &mut self.team_members[i];
                row.active = request.active;
                row.revision = revision;
            },
            None => {
                if let Err(error) = self.check_append() {
                    return Err(error);
                }
                changed = true;
                revision = 1;
                self.team_members.push(
                    TeamMember {
                        organization_id: request.organization_id.clone(),
                        team_id: request.team_id.clone(),
                        subject: request.subject.clone(),
                        active: request.active,
                        revision: 1,
                    },
                );
                assert(self.team_members@.drop_last() =~= old(self).team_members@);
            },
        }
        self.record(
            call,
            request.idempotency_key.as_str(),
            organization,
            None,
            None,
            SET_TEAM_MEMBER_OPERATION,
            "team_member",
            subject,
            Some(revision),
        );
        Ok(
            Completion::Fresh(
                TeamMemberValue {
                    team_id: request.team_id.clone(),
                    subject: request.subject.clone(),
                    active: request.active,
                    changed,
                    revision: text::integer_string(revision),
                },
            ),
        )
    }
}

} // verus!
