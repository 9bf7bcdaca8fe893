//! Issues: creation, reading, changes, moves, archival, external links and assignment.
use crate::clock::Timestamp;
use crate::contract::{
    ARCHIVE_ISSUE_OPERATION, CREATE_ISSUE_OPERATION, MOVE_ISSUE_OPERATION,
    PUT_EXTERNAL_LINK_OPERATION, SET_ISSUE_ASSIGNEE_OPERATION, UPDATE_ISSUE_OPERATION,
};
use crate::failure::{runtime, DomainFailure, StorageError};
use crate::issue_rules;
use crate::model::{
    ArchiveIssueRequest, AssigneeValue, Completion, CreateIssueRequest, ExternalLink,
    ExternalLinkValue, GetIssueAssigneeRequest, GetIssueRequest, IdentifierAlias, Issue, IssueValue,
    ListIssuesRequest, MoveIssueRequest, PutExternalLinkRequest, SetIssueAssigneeRequest, Team,
    UpdateIssueRequest,
};
use crate::store;
use crate::store::{check_growth, ActivityEntry, Invocation, Store, Verdict};
use crate::table;
use crate::table::{page_of, Page};
use crate::text;
use crate::validate;
use crate::validate::{parse_cursor, parse_revision, valid_page};
use vstd::prelude::*;

verus! {

/// The verdict on an identifier that is to be added to the issue history: it must not have been in
/// use before.
pub open spec fn unused_identifier(
    s: Store,
    organization: Seq<char>,
    identifier: Seq<char>,
    operation: Seq<char>,
) -> Verdict {
    if s.alias_at(organization, identifier) is Some {
        Verdict::Fault(operation, "identifier is already in use"@)
    } else {
        Verdict::Proceed
    }
}

/// How the creation of an issue ends.
pub open spec fn create_issue_verdict(s: Store, call: Invocation, r: CreateIssueRequest) -> Verdict {
    let organization = r.organization_id@;
    let identifier = s.next_identifier(organization, r.team_id@);
    store::unless(s.project_refusal(organization, r.project_id@, call.actor@)).and(
        store::unless(
            s.dependency_refusal(
                organization,
                r.project_id@,
                r.team_id@,
                text::text_of(r.cycle_id),
                text::text_of(r.milestone_id),
                text::text_of(r.parent_issue_id),
                r.label_ids@,
            ),
        ),
    ).and(s.command_verdict(call, CREATE_ISSUE_OPERATION@, r.idempotency_key@)).and(
        store::demand(
            s.resolved_state(organization, r.team_id@, text::text_of(r.workflow_state_id)) is Some,
            DomainFailure::WorkflowStateNotFound,
        ),
    ).and(
        store::grows(
            s.teams@[s.team_at(organization, r.team_id@)->0].next_issue_number,
            1,
            "allocate issue identifier"@,
        ),
    ).and(store::grows(s.next_row, 1, "insert issue"@)).and(
        store::demand(
            !table::some_row(s.issues@, store::has_issue_id(r.issue_id@)) && s.identified_at(
                organization,
                identifier,
            ) is None,
            DomainFailure::IdentifierConflict,
        ),
    ).and(unused_identifier(s, organization, identifier, "store issue identifier"@)).and(
        store::appends(s),
    )
}

/// Whether `row` is the issue that the request asks for.
pub open spec fn is_new_issue(
    row: Issue,
    r: CreateIssueRequest,
    identifier: Seq<char>,
    state: Seq<char>,
    now: Timestamp,
    row_seq: int,
) -> bool {
    &&& row.issue_id@ == r.issue_id@
    &&& row.organization_id@ == r.organization_id@
    &&& row.project_id@ == r.project_id@
    &&& row.team_id@ == r.team_id@
    &&& row.identifier@ == identifier
    &&& row.title@ == text::trimmed(r.title@)
    &&& text::text_of(row.description) == text::trimmed_option(text::text_of(r.description))
    &&& row.priority == r.priority
    &&& row.workflow_state_id@ == state
    &&& text::text_of(row.cycle_id) == text::text_of(r.cycle_id)
    &&& text::text_of(row.milestone_id) == text::text_of(r.milestone_id)
    &&& text::text_of(row.parent_issue_id) == text::text_of(r.parent_issue_id)
    &&& text::sorted_from(row.label_ids@, r.label_ids@)
    &&& row.assignee_subject is None
    &&& !row.archived
    &&& row.revision == 1
    &&& row.created_at == now
    &&& row.updated_at == now
    &&& row.row_seq == row_seq
}

/// Whether `row` records that the issue took the identifier at `now`.
pub open spec fn is_new_alias(
    row: IdentifierAlias,
    organization: Seq<char>,
    identifier: Seq<char>,
    issue: Seq<char>,
    now: Timestamp,
) -> bool {
    &&& row.organization_id@ == organization
    &&& row.identifier@ == identifier
    &&& row.issue_id@ == issue
    &&& row.created_at == now
}

/// The teams after the next issue number of one of them was used.
pub open spec fn number_used(teams: Seq<Team>, t: int) -> Seq<Team> {
    teams.update(
        t,
        Team { next_issue_number: (teams[t].next_issue_number + 1) as i64, ..teams[t] },
    )
}

/// What the creation of an issue does.
pub open spec fn create_issue_effect(
    before: Store,
    after: Store,
    call: Invocation,
    r: CreateIssueRequest,
    value: IssueValue,
) -> bool {
    let organization = r.organization_id@;
    let identifier = before.next_identifier(organization, r.team_id@);
    let state = before.workflow_states@[before.resolved_state(
        organization,
        r.team_id@,
        text::text_of(r.workflow_state_id),
    )->0];
    let row = after.issues@.last();
    &&& after.issues@.len() == before.issues@.len() + 1
    &&& after.issues@.drop_last() == before.issues@
    &&& is_new_issue(row, r, identifier, state.state_id@, call.now, before.next_row as int)
    &&& after.next_row == before.next_row + 1
    &&& after.teams@ == number_used(before.teams@, before.team_at(organization, r.team_id@)->0)
    &&& after.aliases@.len() == before.aliases@.len() + 1
    &&& after.aliases@.drop_last() == before.aliases@
    &&& is_new_alias(after.aliases@.last(), organization, identifier, r.issue_id@, call.now)
    &&& store::recorded(
        before,
        after,
        call,
        r.idempotency_key@,
        (ActivityEntry {
            organization,
            project: Some(r.project_id@),
            issue: Some(r.issue_id@),
            operation: CREATE_ISSUE_OPERATION@,
            kind: "issue"@,
            entity: r.issue_id@,
            revision: Some(1),
        }),
    )
    &&& after == (Store {
        issues: after.issues,
        teams: after.teams,
        aliases: after.aliases,
        activity: after.activity,
        commands: after.commands,
        next_row: after.next_row,
        next_activity: after.next_activity,
        ..before
    })
    &&& after.is_issue_value(row, value)
}

/// What the creation of an issue does and answers.
pub open spec fn create_issue_outcome(
    before: Store,
    after: Store,
    call: Invocation,
    r: CreateIssueRequest,
    result: Result<Completion<IssueValue>, StorageError>,
) -> bool {
    let verdict = create_issue_verdict(before, call, r);
    &&& store::settles(verdict, result)
    &&& if verdict is Proceed {
        create_issue_effect(before, after, call, r, store::fresh(result))
    } else {
        after == before
    }
}

impl Store {
    /// The text of the identifier that the team's next issue gets.
    fn allocate_identifier(&self, t: usize) -> (identifier: String)
        requires
            t < self.teams.len(),
        ensures
            identifier@ == issue_rules::identifier_text(
                self.teams@[t as int].key@,
                self.teams@[t as int].next_issue_number as int,
            ),
    {
        let mut identifier = self.teams[t].key.clone();
        identifier.append("-");
        let number = text::integer_string(self.teams[t].next_issue_number);
        identifier.append(number.as_str());
        identifier
    }

    /// Creates an issue under the team's next identifier.
    pub fn create_issue(&mut self, call: &Invocation, request: &CreateIssueRequest) -> (result: Result<
        Completion<IssueValue>,
        StorageError,
    >)
        ensures
            create_issue_outcome(*old(self), *final(self), *call, *request, result),
    {
        let organization = request.organization_id.as_str();
        let team = request.team_id.as_str();
        if let Some(failure) = self.check_project(
            organization,
            request.project_id.as_str(),
            call.actor.as_str(),
        ) {
            return Err(StorageError::Domain(failure));
        }
        if let Some(failure) = self.issue_dependencies_exist(
            organization,
            request.project_id.as_str(),
            team,
            &request.cycle_id,
            &request.milestone_id,
            &request.parent_issue_id,
            &request.label_ids,
        ) {
            return Err(StorageError::Domain(failure));
        }
        if let Some(answer) = self.command_answer(
            call,
            CREATE_ISSUE_OPERATION,
            request.idempotency_key.as_str(),
        ) {
            return answer;
        }
        let s = match self.resolve_issue_workflow_state(
            organization,
            team,
            &request.workflow_state_id,
        ) {
            Some(s) => s,
            None => {
                return Err(StorageError::Domain(DomainFailure::WorkflowStateNotFound));
            },
        };
        let t = match self.find_team(organization, team) {
            Some(t) => t,
            None => {
                return Err(StorageError::Domain(DomainFailure::TeamNotFound));
            },
        };
        if let Err(error) = check_growth(
            self.teams[t].next_issue_number,
            1,
            "allocate issue identifier",
        ) {
            return Err(error);
        }
        if let Err(error) = check_growth(self.next_row, 1, "insert issue") {
            return Err(error);
        }
        let identifier = self.allocate_identifier(t);
        if self.taken_issue_id(request.issue_id.as_str()) || self.find_identified(
            organization,
            identifier.as_str(),
        ).is_some() {
            return Err(StorageError::Domain(DomainFailure::IdentifierConflict));
        }
        if self.find_alias(organization, identifier.as_str()).is_some() {
            return Err(runtime("store issue identifier", "identifier is already in use"));
        }
        if let Err(error) = self.check_append() {
            return Err(error);
        }
        let row = Issue {
            issue_id: request.issue_id.clone(),
            organization_id: request.organization_id.clone(),
            project_id: request.project_id.clone(),
            team_id: request.team_id.clone(),
            identifier: identifier.clone(),
            title: text::trim(request.title.as_str()),
            description: text::trim_option(&request.description),
            priority: request.priority,
            workflow_state_id: self.workflow_states[s].state_id.clone(),
            cycle_id: request.cycle_id.clone(),
            milestone_id: request.milestone_id.clone(),
            parent_issue_id: request.parent_issue_id.clone(),
            label_ids: text::sort_texts(&request.label_ids),
            assignee_subject: None,
            archived: false,
            revision: 1,
            created_at: call.now.clone(),
            updated_at: call.now.clone(),
            row_seq: self.next_row,
        };
        self.teams[t].next_issue_number = self.teams[t].next_issue_number + 1;
        self.issues.push(row);
        self.next_row = self.next_row + 1;
        self.aliases.push(
            IdentifierAlias {
                organization_id: request.organization_id.clone(),
                identifier,
                issue_id: request.issue_id.clone(),
                created_at: call.now.clone(),
            },
        );
        self.record(
            call,
            request.idempotency_key.as_str(),
            organization,
            Some(request.project_id.clone()),
            Some(request.issue_id.clone()),
            CREATE_ISSUE_OPERATION,
            "issue",
            request.issue_id.as_str(),
            Some(1),
        );
        assert(self.issues@.drop_last() =~= old(self).issues@);
        assert(self.aliases@.drop_last() =~= old(self).aliases@);
        let value = self.load_issue_value(&self.issues[self.issues.len() - 1]);
        Ok(Completion::Fresh(value))
    }
}

/// The issue id that a reference stands for: the id itself where an issue has it, else the issue that
/// has or had the reference as its identifier.
pub open spec fn resolved_issue(s: Store, organization: Seq<char>, reference: Seq<char>) -> Option<
    Seq<char>,
> {
    if s.issue_at(organization, reference) is Some {
        Some(reference)
    } else {
        match s.alias_at(organization, reference) {
            Some(a) => Some(s.aliases@[a].issue_id@),
            None => None,
        }
    }
}

/// What reading an issue answers.
pub open spec fn get_issue_outcome(
    s: Store,
    actor: Seq<char>,
    r: GetIssueRequest,
    result: Result<IssueValue, StorageError>,
) -> bool {
    match resolved_issue(s, r.organization_id@, r.issue_ref@) {
        None => result == Err::<IssueValue, StorageError>(
            StorageError::Domain(DomainFailure::NotFound),
        ),
        Some(id) => match s.issue_refusal(r.organization_id@, id, actor) {
            Some(failure) => result == Err::<IssueValue, StorageError>(
                StorageError::Domain(failure),
            ),
            None => result matches Ok(value) && s.is_issue_value(
                s.issues@[s.issue_at(r.organization_id@, id)->0],
                value,
            ),
        },
    }
}

/// Whether an optional filter admits the text.
pub open spec fn admits(filter: Option<String>, text: Seq<char>) -> bool {
    match filter {
        Some(wanted) => wanted@ == text,
        None => true,
    }
}

/// Whether an optional filter admits the text.
pub fn filter_admits(filter: &Option<String>, text: &str) -> (answer: bool)
    ensures
        answer == admits(*filter, text@),
{
    match filter {
        Some(wanted) => text::same(wanted.as_str(), text),
        None => true,
    }
}

/// Picks the issues that a listing shows to the actor.
pub open spec fn is_listed_issue(s: Store, actor: Seq<char>, r: ListIssuesRequest, after: int) -> spec_fn(
    Issue,
) -> bool {
    |row: Issue|
        {
            &&& row.organization_id@ == r.organization_id@
            &&& row.row_seq > after
            &&& admits(r.project_id, row.project_id@)
            &&& admits(r.team_id, row.team_id@)
            &&& admits(r.workflow_state_id, row.workflow_state_id@)
            &&& (r.include_archived || !row.archived)
            &&& s.team_at(row.organization_id@, row.team_id@) is Some
            &&& s.sees_issue(row, actor)
        }
}

/// Says which value shows an issue.
pub open spec fn shows_issue(s: Store) -> spec_fn(Issue, IssueValue) -> bool {
    |row: Issue, value: IssueValue| s.is_issue_value(row, value)
}

/// The sequence number of an issue.
pub open spec fn issue_seq() -> spec_fn(Issue) -> int {
    |row: Issue| row.row_seq as int
}

/// What listing issues answers.
pub open spec fn list_issues_outcome(
    s: Store,
    actor: Seq<char>,
    r: ListIssuesRequest,
    result: Result<Page<IssueValue>, StorageError>,
) -> bool {
    if validate::is_page_request(r.limit as int, text::text_of(r.after)) {
        result matches Ok(page) && table::is_page(
            s.issues@,
            is_listed_issue(s, actor, r, validate::cursor_value(text::text_of(r.after))->0),
            r.limit as int,
            page,
            shows_issue(s),
            issue_seq(),
        )
    } else {
        result == Err::<Page<IssueValue>, StorageError>(
            StorageError::Domain(DomainFailure::InvalidRequest),
        )
    }
}

/// How the replacement of an issue's fields ends.
pub open spec fn update_issue_verdict(s: Store, call: Invocation, r: UpdateIssueRequest) -> Verdict {
    let organization = r.organization_id@;
    let row = s.issues@[s.issue_at(organization, r.issue_id@)->0];
    store::demand(
        s.issue_at(organization, r.issue_id@) is Some,
        DomainFailure::NotFound,
    ).and(store::unless(s.issue_refusal(organization, r.issue_id@, call.actor@))).and(
        store::unless(
            s.dependency_refusal(
                organization,
                row.project_id@,
                row.team_id@,
                text::text_of(r.cycle_id),
                text::text_of(r.milestone_id),
                text::text_of(r.parent_issue_id),
                r.label_ids@,
            ),
        ),
    ).and(
        store::demand(
            validate::revision_value(r.expected_revision@) is Some,
            DomainFailure::InvalidRequest,
        ),
    ).and(s.command_verdict(call, UPDATE_ISSUE_OPERATION@, r.idempotency_key@)).and(
        store::demand(
            !s.would_cycle(organization, r.issue_id@, text::text_of(r.parent_issue_id)),
            DomainFailure::InvalidRequest,
        ),
    ).and(
        store::demand(
            s.resolved_state(organization, row.team_id@, Some(r.workflow_state_id@)) is Some,
            DomainFailure::WorkflowStateNotFound,
        ),
    ).and(
        store::demand(
            validate::revision_value(r.expected_revision@) == Some(row.revision as int),
            DomainFailure::RevisionConflict,
        ),
    ).and(store::revises(s, row.revision, "update issue"@))
}

/// Whether `after` is the issue `before` with the fields that the request gives.
pub open spec fn is_updated_issue(
    before: Issue,
    after: Issue,
    r: UpdateIssueRequest,
    now: Timestamp,
) -> bool {
    &&& after.title@ == text::trimmed(r.title@)
    &&& text::text_of(after.description) == text::trimmed_option(text::text_of(r.description))
    &&& after.workflow_state_id@ == r.workflow_state_id@
    &&& text::text_of(after.cycle_id) == text::text_of(r.cycle_id)
    &&& text::text_of(after.milestone_id) == text::text_of(r.milestone_id)
    &&& text::text_of(after.parent_issue_id) == text::text_of(r.parent_issue_id)
    &&& text::sorted_from(after.label_ids@, r.label_ids@)
    &&& after == (Issue {
        title: after.title,
        description: after.description,
        priority: r.priority,
        workflow_state_id: after.workflow_state_id,
        cycle_id: after.cycle_id,
        milestone_id: after.milestone_id,
        parent_issue_id: after.parent_issue_id,
        label_ids: after.label_ids,
        revision: (before.revision + 1) as i64,
        updated_at: now,
        ..before
    })
}

/// What a change of the issue at `i` records and leaves alone.
pub open spec fn issue_changed(
    before: Store,
    after: Store,
    call: Invocation,
    i: int,
    key: Seq<char>,
    operation: Seq<char>,
) -> bool {
    let row = before.issues@[i];
    &&& after.issues@ == before.issues@.update(i, after.issues@[i])
    &&& store::recorded(
        before,
        after,
        call,
        key,
        (ActivityEntry {
            organization: row.organization_id@,
            project: Some(row.project_id@),
            issue: Some(row.issue_id@),
            operation,
            kind: "issue"@,
            entity: row.issue_id@,
            revision: Some(row.revision + 1),
        }),
    )
}

/// The store after issues and the records of a mutation changed.
pub open spec fn only_issues(before: Store, after: Store) -> bool {
    after == (Store {
        issues: after.issues,
        activity: after.activity,
        commands: after.commands,
        next_activity: after.next_activity,
        ..before
    })
}

/// What the replacement of an issue's fields does and answers.
pub open spec fn update_issue_outcome(
    before: Store,
    after: Store,
    call: Invocation,
    r: UpdateIssueRequest,
    result: Result<Completion<IssueValue>, StorageError>,
) -> bool {
    let verdict = update_issue_verdict(before, call, r);
    let i = before.issue_at(r.organization_id@, r.issue_id@)->0;
    &&& store::settles(verdict, result)
    &&& if verdict is Proceed {
        &&& is_updated_issue(before.issues@[i], after.issues@[i], r, call.now)
        &&& issue_changed(before, after, call, i, r.idempotency_key@, UPDATE_ISSUE_OPERATION@)
        &&& only_issues(before, after)
        &&& after.is_issue_value(after.issues@[i], store::fresh(result))
    } else {
        after == before
    }
}

/// Picks the labels that an issue keeps in a team: those of no team or of that team.
pub open spec fn keeps_label(s: Store, organization: Seq<char>, team: Seq<char>) -> spec_fn(String) -> bool {
    |label: String|
        match s.label_at(organization, label@) {
            Some(l) => match s.labels@[l].team_id {
                Some(owner) => owner@ == team,
                None => true,
            },
            None => true,
        }
}

/// How the move of an issue to another team ends.
pub open spec fn move_issue_verdict(s: Store, call: Invocation, r: MoveIssueRequest) -> Verdict {
    let organization = r.organization_id@;
    let row = s.issues@[s.issue_at(organization, r.issue_id@)->0];
    let identifier = s.next_identifier(organization, r.team_id@);
    store::demand(
        s.issue_at(organization, r.issue_id@) is Some,
        DomainFailure::NotFound,
    ).and(store::unless(s.issue_refusal(organization, r.issue_id@, call.actor@))).and(
        store::demand(s.team_at(organization, r.team_id@) is Some, DomainFailure::TeamNotFound),
    ).and(
        store::demand(
            !s.hidden_team(organization, r.team_id@, call.actor@),
            DomainFailure::PrivateTeam,
        ),
    ).and(
        store::demand(
            s.attached(organization, row.project_id@, r.team_id@),
            DomainFailure::TeamNotFound,
        ),
    ).and(
        store::demand(
            validate::revision_value(r.expected_revision@) is Some,
            DomainFailure::InvalidRequest,
        ),
    ).and(s.command_verdict(call, MOVE_ISSUE_OPERATION@, r.idempotency_key@)).and(
        store::demand(
            s.resolved_state(organization, r.team_id@, Some(r.workflow_state_id@)) is Some,
            DomainFailure::WorkflowStateNotFound,
        ),
    ).and(
        store::grows(
            s.teams@[s.team_at(organization, r.team_id@)->0].next_issue_number,
            1,
            "allocate moved issue identifier"@,
        ),
    ).and(
        store::demand(
            validate::revision_value(r.expected_revision@) == Some(row.revision as int),
            DomainFailure::RevisionConflict,
        ),
    ).and(store::grows(row.revision, 1, "move issue"@)).and(
        if s.identified_at(organization, identifier) is Some {
            Verdict::Fault("move issue"@, "identifier is already in use"@)
        } else {
            Verdict::Proceed
        },
    ).and(unused_identifier(s, organization, identifier, "store moved issue identifier"@)).and(
        store::appends(s),
    )
}

/// Whether `after` is the issue `before` in its new team.
pub open spec fn is_moved_issue(
    s: Store,
    before: Issue,
    after: Issue,
    r: MoveIssueRequest,
    now: Timestamp,
) -> bool {
    &&& after.team_id@ == r.team_id@
    &&& after.identifier@ == s.next_identifier(r.organization_id@, r.team_id@)
    &&& after.workflow_state_id@ == r.workflow_state_id@
    &&& after.label_ids@ == before.label_ids@.filter(
        keeps_label(s, r.organization_id@, r.team_id@),
    )
    &&& after == (Issue {
        team_id: after.team_id,
        identifier: after.identifier,
        workflow_state_id: after.workflow_state_id,
        cycle_id: None,
        label_ids: after.label_ids,
        revision: (before.revision + 1) as i64,
        updated_at: now,
        ..before
    })
}

/// What the move of an issue does and answers.
pub open spec fn move_issue_outcome(
    before: Store,
    after: Store,
    call: Invocation,
    r: MoveIssueRequest,
    result: Result<Completion<IssueValue>, StorageError>,
) -> bool {
    let verdict = move_issue_verdict(before, call, r);
    let i = before.issue_at(r.organization_id@, r.issue_id@)->0;
    let identifier = before.next_identifier(r.organization_id@, r.team_id@);
    &&& store::settles(verdict, result)
    &&& if verdict is Proceed {
        &&& is_moved_issue(before, before.issues@[i], after.issues@[i], r, call.now)
        &&& issue_changed(before, after, call, i, r.idempotency_key@, MOVE_ISSUE_OPERATION@)
        &&& after.teams@ == number_used(
            before.teams@,
            before.team_at(r.organization_id@, r.team_id@)->0,
        )
        &&& after.aliases@.len() == before.aliases@.len() + 1
        &&& after.aliases@.drop_last() == before.aliases@
        &&& is_new_alias(
            after.aliases@.last(),
            r.organization_id@,
            identifier,
            r.issue_id@,
            call.now,
        )
        &&& after == (Store {
            issues: after.issues,
            teams: after.teams,
            aliases: after.aliases,
            activity: after.activity,
            commands: after.commands,
            next_activity: after.next_activity,
            ..before
        })
        &&& after.is_issue_value(after.issues@[i], store::fresh(result))
    } else {
        after == before
    }
}

/// How the archival of an issue ends.
pub open spec fn archive_issue_verdict(s: Store, call: Invocation, r: ArchiveIssueRequest) -> Verdict {
    let row = s.issues@[s.issue_at(r.organization_id@, r.issue_id@)->0];
    store::unless(s.issue_refusal(r.organization_id@, r.issue_id@, call.actor@)).and(
        store::demand(
            validate::revision_value(r.expected_revision@) is Some,
            DomainFailure::InvalidRequest,
        ),
    ).and(s.command_verdict(call, ARCHIVE_ISSUE_OPERATION@, r.idempotency_key@)).and(
        store::demand(
            validate::revision_value(r.expected_revision@) == Some(row.revision as int),
            DomainFailure::RevisionConflict,
        ),
    ).and(store::revises(s, row.revision, "archive issue"@))
}

/// What the archival of an issue does and answers.
pub open spec fn archive_issue_outcome(
    before: Store,
    after: Store,
    call: Invocation,
    r: ArchiveIssueRequest,
    result: Result<Completion<IssueValue>, StorageError>,
) -> bool {
    let verdict = archive_issue_verdict(before, call, r);
    let i = before.issue_at(r.organization_id@, r.issue_id@)->0;
    &&& store::settles(verdict, result)
    &&& if verdict is Proceed {
        &&& after.issues@[i] == (Issue {
            archived: r.archived,
            revision: (before.issues@[i].revision + 1) as i64,
            updated_at: call.now,
            ..before.issues@[i]
        })
        &&& issue_changed(before, after, call, i, r.idempotency_key@, ARCHIVE_ISSUE_OPERATION@)
        &&& only_issues(before, after)
        &&& after.is_issue_value(after.issues@[i], store::fresh(result))
    } else {
        after == before
    }
}

/// How the recording of an external association ends.
pub open spec fn put_external_link_verdict(
    s: Store,
    call: Invocation,
    r: PutExternalLinkRequest,
) -> Verdict {
    store::unless(s.issue_refusal(r.organization_id@, r.issue_id@, call.actor@)).and(
        s.command_verdict(call, PUT_EXTERNAL_LINK_OPERATION@, r.idempotency_key@),
    ).and(
        store::demand(
            match s.link_at(r.organization_id@, r.provider@, r.external_key@) {
                Some(l) => s.links@[l].issue_id@ == r.issue_id@,
                None => true,
            },
            DomainFailure::IdentifierConflict,
        ),
    ).and(store::appends(s))
}

/// Whether `row` is the association that the request gives.
pub open spec fn is_link_row(row: ExternalLink, r: PutExternalLinkRequest) -> bool {
    &&& row.organization_id@ == r.organization_id@
    &&& row.issue_id@ == r.issue_id@
    &&& row.provider@ == r.provider@
    &&& row.external_key@ == r.external_key@
    &&& row.url@ == r.url@
    &&& text::text_of(row.title) == text::text_of(r.title)
}

/// What the recording of an external association does and answers: it adds the association, or
/// replaces the address and the title of the one that is there.
pub open spec fn put_external_link_outcome(
    before: Store,
    after: Store,
    call: Invocation,
    r: PutExternalLinkRequest,
    result: Result<Completion<ExternalLinkValue>, StorageError>,
) -> bool {
    let verdict = put_external_link_verdict(before, call, r);
    let found = before.link_at(r.organization_id@, r.provider@, r.external_key@);
    let value = store::fresh(result);
    let issue = before.issues@[before.issue_at(r.organization_id@, r.issue_id@)->0];
    &&& store::settles(verdict, result)
    &&& if verdict is Proceed {
        &&& match found {
            Some(l) => {
                &&& after.links@ == before.links@.update(l, after.links@[l])
                &&& is_link_row(after.links@[l], r)
            },
            None => {
                &&& after.links@.len() == before.links@.len() + 1
                &&& after.links@.drop_last() == before.links@
                &&& is_link_row(after.links@.last(), r)
            },
        }
        &&& store::recorded(
            before,
            after,
            call,
            r.idempotency_key@,
            (ActivityEntry {
                organization: r.organization_id@,
                project: Some(issue.project_id@),
                issue: Some(r.issue_id@),
                operation: PUT_EXTERNAL_LINK_OPERATION@,
                kind: "external_link"@,
                entity: r.external_key@,
                revision: None,
            }),
        )
        &&& after == (Store {
            links: after.links,
            activity: after.activity,
            commands: after.commands,
            next_activity: after.next_activity,
            ..before
        })
        &&& value.created == (found is None)
        &&& value.issue_id@ == r.issue_id@
        &&& value.provider@ == r.provider@
        &&& value.external_key@ == r.external_key@
        &&& value.url@ == r.url@
        &&& text::text_of(value.title) == text::text_of(r.title)
    } else {
        after == before
    }
}

/// Whether `value` shows the assignment of the issue in `row`.
pub open spec fn is_assignee_value(row: Issue, value: AssigneeValue) -> bool {
    &&& value.issue_id@ == row.issue_id@
    &&& value.organization_id@ == row.organization_id@
    &&& text::text_of(value.assignee_subject) == text::text_of(row.assignee_subject)
    &&& value.revision@ == text::integer_text(row.revision as int)
}

/// What reading an assignment answers.
pub open spec fn get_issue_assignee_outcome(
    s: Store,
    actor: Seq<char>,
    r: GetIssueAssigneeRequest,
    result: Result<AssigneeValue, StorageError>,
) -> bool {
    match s.issue_refusal(r.organization_id@, r.issue_id@, actor) {
        Some(failure) => result == Err::<AssigneeValue, StorageError>(StorageError::Domain(failure)),
        None => result matches Ok(value) && is_assignee_value(
            s.issues@[s.issue_at(r.organization_id@, r.issue_id@)->0],
            value,
        ),
    }
}

/// How the assignment of an issue ends. Whoever it is assigned to must be able to see it.
pub open spec fn set_issue_assignee_verdict(
    s: Store,
    call: Invocation,
    r: SetIssueAssigneeRequest,
) -> Verdict {
    let row = s.issues@[s.issue_at(r.organization_id@, r.issue_id@)->0];
    store::unless(s.issue_refusal(r.organization_id@, r.issue_id@, call.actor@)).and(
        match r.assignee_subject {
            Some(assignee) => store::unless(
                s.issue_refusal(r.organization_id@, r.issue_id@, assignee@),
            ),
            None => Verdict::Proceed,
        },
    ).and(
        store::demand(
            validate::revision_value(r.expected_revision@) is Some,
            DomainFailure::InvalidRequest,
        ),
    ).and(s.command_verdict(call, SET_ISSUE_ASSIGNEE_OPERATION@, r.idempotency_key@)).and(
        store::demand(
            validate::revision_value(r.expected_revision@) == Some(row.revision as int),
            DomainFailure::RevisionConflict,
        ),
    ).and(store::revises(s, row.revision, "set issue assignee"@))
}

/// What the assignment of an issue does and answers.
pub open spec fn set_issue_assignee_outcome(
    before: Store,
    after: Store,
    call: Invocation,
    r: SetIssueAssigneeRequest,
    result: Result<Completion<AssigneeValue>, StorageError>,
) -> bool {
    let verdict = set_issue_assignee_verdict(before, call, r);
    let i = before.issue_at(r.organization_id@, r.issue_id@)->0;
    &&& store::settles(verdict, result)
    &&& if verdict is Proceed {
        &&& text::text_of(after.issues@[i].assignee_subject) == text::text_of(r.assignee_subject)
        &&& after.issues@[i] == (Issue {
            assignee_subject: after.issues@[i].assignee_subject,
            revision: (before.issues@[i].revision + 1) as i64,
            updated_at: call.now,
            ..before.issues@[i]
        })
        &&& issue_changed(before, after, call, i, r.idempotency_key@, SET_ISSUE_ASSIGNEE_OPERATION@)
        &&& only_issues(before, after)
        &&& is_assignee_value(after.issues@[i], store::fresh(result))
    } else {
        after == before
    }
}

impl Store {
    /// The issue id that a reference stands for.
    pub fn resolve_issue_id(&self, organization: &str, reference: &str) -> (id: Option<String>)
        ensures
            text::text_of(id) == resolved_issue(*self, organization@, reference@),
    {
        if self.find_issue(organization, reference).is_some() {
            Some(reference.to_owned())
        } else {
            match self.find_alias(organization, reference) {
                Some(a) => Some(self.aliases[a].issue_id.clone()),
                None => None,
            }
        }
    }

    /// Reads one issue, by its id or by any identifier it has or had.
    pub fn get_issue(&self, actor: &str, request: &GetIssueRequest) -> (result: Result<
        IssueValue,
        StorageError,
    >)
        ensures
            get_issue_outcome(*self, actor@, *request, result),
    {
        let organization = request.organization_id.as_str();
        let id = match self.resolve_issue_id(organization, request.issue_ref.as_str()) {
            Some(id) => id,
            None => {
                return Err(StorageError::Domain(DomainFailure::NotFound));
            },
        };
        if let Some(failure) = self.check_issue(organization, id.as_str(), actor) {
            return Err(StorageError::Domain(failure));
        }
        match self.find_issue(organization, id.as_str()) {
            Some(i) => Ok(self.load_issue_value(&self.issues[i])),
            None => Err(StorageError::Domain(DomainFailure::NotFound)),
        }
    }

    /// Lists the issues that the actor can see, a page at a time.
    pub fn list_issues(&self, actor: &str, request: &ListIssuesRequest) -> (result: Result<
        Page<IssueValue>,
        StorageError,
    >)
        ensures
            list_issues_outcome(*self, actor@, *request, result),
    {
        if !valid_page(request.limit, &request.after) {
            return Err(StorageError::Domain(DomainFailure::InvalidRequest));
        }
        let after = match parse_cursor(&request.after) {
            Ok(after) => after,
            Err(failure) => {
                return Err(StorageError::Domain(failure));
            },
        };
        let ghost keep = is_listed_issue(*self, actor@, *request, after as int);
        Ok(
            page_of(
                &self.issues,
                |row: &Issue| -> (hit: bool)
                    ensures
                        hit == is_listed_issue(*self, actor@, *request, after as int)(*row)
                { self.lists_issue(row, actor, request, after) },
                Ghost(keep),
                request.limit,
                |row: &Issue| -> (value: IssueValue)
                    ensures
                        shows_issue(*self)(*row, value)
                { self.load_issue_value(row) },
                Ghost(shows_issue(*self)),
                |row: &Issue| -> (n: i64)
                    ensures
                        n == issue_seq()(*row)
                { row.row_seq },
                Ghost(issue_seq()),
            ),
        )
    }

    /// Replaces the fields of an issue.
    pub fn update_issue(&mut self, call: &Invocation, request: &UpdateIssueRequest) -> (result: Result<
        Completion<IssueValue>,
        StorageError,
    >)
        ensures
            update_issue_outcome(*old(self), *final(self), *call, *request, result),
    {
        let organization = request.organization_id.as_str();
        let i = match self.find_issue(organization, request.issue_id.as_str()) {
            Some(i) => i,
            None => {
                return Err(StorageError::Domain(DomainFailure::NotFound));
            },
        };
        let project_id = self.issues[i].project_id.clone();
        let team_id = self.issues[i].team_id.clone();
        if let Some(failure) = self.check_issue(
            organization,
            request.issue_id.as_str(),
            call.actor.as_str(),
        ) {
            return Err(StorageError::Domain(failure));
        }
        if let Some(failure) = self.issue_dependencies_exist(
            organization,
            project_id.as_str(),
            team_id.as_str(),
            &request.cycle_id,
            &request.milestone_id,
            &request.parent_issue_id,
            &request.label_ids,
        ) {
            return Err(StorageError::Domain(failure));
        }
        let expected = match parse_revision(request.expected_revision.as_str()) {
            Ok(expected) => expected,
            Err(failure) => {
                return Err(StorageError::Domain(failure));
            },
        };
        if let Some(answer) = self.command_answer(
            call,
            UPDATE_ISSUE_OPERATION,
            request.idempotency_key.as_str(),
        ) {
            return answer;
        }
        if self.parent_would_create_cycle(
            organization,
            request.issue_id.as_str(),
            &request.parent_issue_id,
        ) {
            return Err(StorageError::Domain(DomainFailure::InvalidRequest));
        }
        let requested = Some(request.workflow_state_id.clone());
        if self.resolve_issue_workflow_state(organization, team_id.as_str(), &requested).is_none() {
            return Err(StorageError::Domain(DomainFailure::WorkflowStateNotFound));
        }
        if self.issues[i].revision != expected {
            return Err(StorageError::Domain(DomainFailure::RevisionConflict));
        }
        if let Err(error) = self.check_revise(expected, "update issue") {
            return Err(error);
        }
        let row = &mut self.issues[i];
        row.title = text::trim(request.title.as_str());
        row.description = text::trim_option(&request.description);
        row.priority = request.priority;
        row.workflow_state_id = request.workflow_state_id.clone();
        row.cycle_id = request.cycle_id.clone();
        row.milestone_id = request.milestone_id.clone();
        row.parent_issue_id = request.parent_issue_id.clone();
        row.label_ids = text::sort_texts(&request.label_ids);
        row.revision = expected + 1;
        row.updated_at = call.now.clone();
        self.record(
            call,
            request.idempotency_key.as_str(),
            organization,
            Some(project_id),
            Some(request.issue_id.clone()),
            UPDATE_ISSUE_OPERATION,
            "issue",
            request.issue_id.as_str(),
            Some(expected + 1),
        );
        let value = self.load_issue_value(&self.issues[i]);
        Ok(Completion::Fresh(value))
    }

    /// The labels that the issue in `row` keeps in the team.
    fn kept_labels(&self, organization: &str, team: &str, labels: &Vec<String>) -> (kept: Vec<String>)
        ensures
            kept@ == labels@.filter(keeps_label(*self, organization@, team@)),
    {
        let mut kept: Vec<String> = Vec::new();
        let ghost keep = keeps_label(*self, organization@, team@);
        let mut k: usize = 0;
        proof {
            reveal(Seq::filter);
            assert(labels@.take(0).filter(keep) =~= Seq::<String>::empty());
        }
        while k < labels.len()
            invariant
                k <= labels.len(),
                keep == keeps_label(*self, organization@, team@),
                kept@ == labels@.take(k as int).filter(keep),
            decreases labels.len() - k,
        {
            proof {
                table::lemma_filter_step(labels@, keep, k as int);
            }
            let keeps = match self.find_label(organization, labels[k].as_str()) {
                Some(l) => match &self.labels[l].team_id {
                    Some(owner) => text::same(owner.as_str(), team),
                    None => true,
                },
                None => true,
            };
            if keeps {
                kept.push(labels[k].clone());
            }
            k = k + 1;
        }
        assert(labels@.take(k as int) =~= labels@);
        kept
    }

    /// Moves an issue to another team of its project, under that team's next identifier.
    pub fn move_issue(&mut self, call: &Invocation, request: &MoveIssueRequest) -> (result: Result<
        Completion<IssueValue>,
        StorageError,
    >)
        ensures
            move_issue_outcome(*old(self), *final(self), *call, *request, result),
    {
        let organization = request.organization_id.as_str();
        let team = request.team_id.as_str();
        let i = match self.find_issue(organization, request.issue_id.as_str()) {
            Some(i) => i,
            None => {
                return Err(StorageError::Domain(DomainFailure::NotFound));
            },
        };
        let project_id = self.issues[i].project_id.clone();
        if let Some(failure) = self.check_issue(
            organization,
            request.issue_id.as_str(),
            call.actor.as_str(),
        ) {
            return Err(StorageError::Domain(failure));
        }
        let t = match self.find_team(organization, team) {
            Some(t) => t,
            None => {
                return Err(StorageError::Domain(DomainFailure::TeamNotFound));
            },
        };
        if self.is_hidden_team(organization, team, call.actor.as_str()) {
            return Err(StorageError::Domain(DomainFailure::PrivateTeam));
        }
        if !self.is_attached(organization, project_id.as_str(), team) {
            return Err(StorageError::Domain(DomainFailure::TeamNotFound));
        }
        let expected = match parse_revision(request.expected_revision.as_str()) {
            Ok(expected) => expected,
            Err(failure) => {
                return Err(StorageError::Domain(failure));
            },
        };
        if let Some(answer) = self.command_answer(
            call,
            MOVE_ISSUE_OPERATION,
            request.idempotency_key.as_str(),
        ) {
            return answer;
        }
        let requested = Some(request.workflow_state_id.clone());
        if self.resolve_issue_workflow_state(organization, team, &requested).is_none() {
            return Err(StorageError::Domain(DomainFailure::WorkflowStateNotFound));
        }
        if let Err(error) = check_growth(
            self.teams[t].next_issue_number,
            1,
            "allocate moved issue identifier",
        ) {
            return Err(error);
        }
        if self.issues[i].revision != expected {
            return Err(StorageError::Domain(DomainFailure::RevisionConflict));
        }
        if let Err(error) = check_growth(expected, 1, "move issue") {
            return Err(error);
        }
        let identifier = self.allocate_identifier(t);
        if self.find_identified(organization, identifier.as_str()).is_some() {
            return Err(runtime("move issue", "identifier is already in use"));
        }
        if self.find_alias(organization, identifier.as_str()).is_some() {
            return Err(runtime("store moved issue identifier", "identifier is already in use"));
        }
        if let Err(error) = self.check_append() {
            return Err(error);
        }
        let kept = self.kept_labels(organization, team, &self.issues[i].label_ids);
        self.teams[t].next_issue_number = self.teams[t].next_issue_number + 1;
        let row = &mut self.issues[i];
        row.team_id = request.team_id.clone();
        row.identifier = identifier.clone();
        row.workflow_state_id = request.workflow_state_id.clone();
        row.cycle_id = None;
        row.label_ids = kept;
        row.revision = expected + 1;
        row.updated_at = call.now.clone();
        self.aliases.push(
            IdentifierAlias {
                organization_id: request.organization_id.clone(),
                identifier,
                issue_id: request.issue_id.clone(),
                created_at: call.now.clone(),
            },
        );
        self.record(
            call,
            request.idempotency_key.as_str(),
            organization,
            Some(project_id),
            Some(request.issue_id.clone()),
            MOVE_ISSUE_OPERATION,
            "issue",
            request.issue_id.as_str(),
            Some(expected + 1),
        );
        assert(self.aliases@.drop_last() =~= old(self).aliases@);
        let value = self.load_issue_value(&self.issues[i]);
        Ok(Completion::Fresh(value))
    }

    /// Archives or restores an issue.
    pub fn archive_issue(&mut self, call: &Invocation, request: &ArchiveIssueRequest) -> (result: Result<
        Completion<IssueValue>,
        StorageError,
    >)
        ensures
            archive_issue_outcome(*old(self), *final(self), *call, *request, result),
    {
        let organization = request.organization_id.as_str();
        if let Some(failure) = self.check_issue(
            organization,
            request.issue_id.as_str(),
            call.actor.as_str(),
        ) {
            return Err(StorageError::Domain(failure));
        }
        let expected = match parse_revision(request.expected_revision.as_str()) {
            Ok(expected) => expected,
            Err(failure) => {
                return Err(StorageError::Domain(failure));
            },
        };
        if let Some(answer) = self.command_answer(
            call,
            ARCHIVE_ISSUE_OPERATION,
            request.idempotency_key.as_str(),
        ) {
            return answer;
        }
        let i = match self.find_issue(organization, request.issue_id.as_str()) {
            Some(i) => i,
            None => {
                return Err(StorageError::Domain(DomainFailure::NotFound));
            },
        };
        if self.issues[i].revision != expected {
            return Err(StorageError::Domain(DomainFailure::RevisionConflict));
        }
        if let Err(error) = self.check_revise(expected, "archive issue") {
            return Err(error);
        }
        let project_id = self.issues[i].project_id.clone();
        let row = &mut self.issues[i];
        row.archived = request.archived;
        row.revision = expected + 1;
        row.updated_at = call.now.clone();
        self.record(
            call,
            request.idempotency_key.as_str(),
            organization,
            Some(project_id),
            Some(request.issue_id.clone()),
            ARCHIVE_ISSUE_OPERATION,
            "issue",
            request.issue_id.as_str(),
            Some(expected + 1),
        );
        let value = self.load_issue_value(&self.issues[i]);
        Ok(Completion::Fresh(value))
    }

    /// Records the association of an issue with an external object.
    pub fn put_external_link(&mut self, call: &Invocation, request: &PutExternalLinkRequest) -> (result:
        Result<Completion<ExternalLinkValue>, StorageError>)
        ensures
            put_external_link_outcome(*old(self), *final(self), *call, *request, result),
    {
        let organization = request.organization_id.as_str();
        if let Some(failure) = self.check_issue(
            organization,
            request.issue_id.as_str(),
            call.actor.as_str(),
        ) {
            return Err(StorageError::Domain(failure));
        }
        if let Some(answer) = self.command_answer(
            call,
            PUT_EXTERNAL_LINK_OPERATION,
            request.idempotency_key.as_str(),
        ) {
            return answer;
        }
        let i = match self.find_issue(organization, request.issue_id.as_str()) {
            Some(i) => i,
            None => {
                return Err(StorageError::Domain(DomainFailure::NotFound));
            },
        };
        let project_id = self.issues[i].project_id.clone();
        let found = self.find_link(
            organization,
            request.provider.as_str(),
            request.external_key.as_str(),
        );
        if let Some(l) = found {
            if !text::same(self.links[l].issue_id.as_str(), request.issue_id.as_str()) {
                return Err(StorageError::Domain(DomainFailure::IdentifierConflict));
            }
        }
        if let Err(error) = self.check_append() {
            return Err(error);
        }
        let created = match found {
            Some(l) => {
                let row = &mut self.links[l];
                row.url = request.url.clone();
                row.title = request.title.clone();
                false
            },
            None => {
                self.links.push(
                    ExternalLink {
                        organization_id: request.organization_id.clone(),
                        issue_id: request.issue_id.clone(),
                        provider: request.provider.clone(),
                        external_key: request.external_key.clone(),
                        url: request.url.clone(),
                        title: request.title.clone(),
                    },
                );
                assert(self.links@.drop_last() =~= old(self).links@);
                true
            },
        };
        self.record(
            call,
            request.idempotency_key.as_str(),
            organization,
            Some(project_id),
            Some(request.issue_id.clone()),
            PUT_EXTERNAL_LINK_OPERATION,
            "external_link",
            request.external_key.as_str(),
            None,
        );
        Ok(
            Completion::Fresh(
                ExternalLinkValue {
                    created,
                    issue_id: request.issue_id.clone(),
                    provider: request.provider.clone(),
                    external_key: request.external_key.clone(),
                    url: request.url.clone(),
                    title: request.title.clone(),
                },
            ),
        )
    }

    /// Shows the assignment of the issue in `row`.
    fn load_assignee_value(&self, row: &Issue) -> (value: AssigneeValue)
        ensures
            is_assignee_value(*row, value),
    {
        AssigneeValue {
            issue_id: row.issue_id.clone(),
            organization_id: row.organization_id.clone(),
            assignee_subject: row.assignee_subject.clone(),
            revision: text::integer_string(row.revision),
        }
    }

    /// Reads who an issue is assigned to.
    pub fn get_issue_assignee(&self, actor: &str, request: &GetIssueAssigneeRequest) -> (result: Result<
        AssigneeValue,
        StorageError,
    >)
        ensures
            get_issue_assignee_outcome(*self, actor@, *request, result),
    {
        let organization = request.organization_id.as_str();
        if let Some(failure) = self.check_issue(organization, request.issue_id.as_str(), actor) {
            return Err(StorageError::Domain(failure));
        }
        match self.find_issue(organization, request.issue_id.as_str()) {
            Some(i) => Ok(self.load_assignee_value(&self.issues[i])),
            None => Err(StorageError::Domain(DomainFailure::NotFound)),
        }
    }

    /// Assigns an issue, or clears its assignment.
    pub fn set_issue_assignee(&mut self, call: &Invocation, request: &SetIssueAssigneeRequest) -> (result:
        Result<Completion<AssigneeValue>, StorageError>)
        ensures
            set_issue_assignee_outcome(*old(self), *final(self), *call, *request, result),
    {
        let organization = request.organization_id.as_str();
        if let Some(failure) = self.check_issue(
            organization,
            request.issue_id.as_str(),
            call.actor.as_str(),
        ) {
            return Err(StorageError::Domain(failure));
        }
        if let Some(assignee) = &request.assignee_subject {
            if let Some(failure) = self.check_issue(
                organization,
                request.issue_id.as_str(),
                assignee.as_str(),
            ) {
                return Err(StorageError::Domain(failure));
            }
        }
        let expected = match parse_revision(request.expected_revision.as_str()) {
            Ok(expected) => expected,
            Err(failure) => {
                return Err(StorageError::Domain(failure));
            },
        };
        if let Some(answer) = self.command_answer(
            call,
            SET_ISSUE_ASSIGNEE_OPERATION,
            request.idempotency_key.as_str(),
        ) {
            return answer;
        }
        let i = match self.find_issue(organization, request.issue_id.as_str()) {
            Some(i) => i,
            None => {
                return Err(StorageError::Domain(DomainFailure::NotFound));
            },
        };
        if self.issues[i].revision != expected {
            return Err(StorageError::Domain(DomainFailure::RevisionConflict));
        }
        if let Err(error) = self.check_revise(expected, "set issue assignee") {
            return Err(error);
        }
        let project_id = self.issues[i].project_id.clone();
        let row = &mut self.issues[i];
        row.assignee_subject = request.assignee_subject.clone();
        row.revision = expected + 1;
        row.updated_at = call.now.clone();
        self.record(
            call,
            request.idempotency_key.as_str(),
            organization,
            Some(project_id),
            Some(request.issue_id.clone()),
            SET_ISSUE_ASSIGNEE_OPERATION,
            "issue",
            request.issue_id.as_str(),
            Some(expected + 1),
        );
        let value = self.load_assignee_value(&self.issues[i]);
        Ok(Completion::Fresh(value))
    }
}

} // verus!
