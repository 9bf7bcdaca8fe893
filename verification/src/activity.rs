//! The activity stream: a feed of committed changes with a durable checkpoint.
use crate::failure::{runtime, DomainFailure, StorageError};
use crate::model::{Activity, ActivityValue, ListActivityRequest};
use crate::store;
use crate::store::{Store, Verdict};
use crate::table;
use crate::table::{page_of, Page};
use crate::text;
use crate::validate;
use crate::validate::parse_cursor;
use vstd::prelude::*;

verus! {

/// The decimal form of an optional revision.
pub open spec fn revision_text(revision: Option<i64>) -> Option<Seq<char>> {
    match revision {
        Some(revision) => Some(text::integer_text(revision as int)),
        None => None,
    }
}

/// Whether `value` shows the activity record in `row`.
pub open spec fn is_activity_value(row: Activity, value: ActivityValue) -> bool {
    &&& value.activity_id@ == text::integer_text(row.activity_id as int)
    &&& value.organization_id@ == row.organization_id@
    &&& text::text_of(value.project_id) == text::text_of(row.project_id)
    &&& text::text_of(value.issue_id) == text::text_of(row.issue_id)
    &&& value.actor_subject@ == row.actor_subject@
    &&& value.operation@ == row.operation@
    &&& value.entity_kind@ == row.entity_kind@
    &&& value.entity_id@ == row.entity_id@
    &&& text::text_of(value.revision) == revision_text(row.revision)
    &&& value.occurred_at@ == row.occurred_at.text@
}

/// Shows the activity record in `row`.
pub fn load_activity_value(row: &Activity) -> (value: ActivityValue)
    ensures
        is_activity_value(*row, value),
{
    ActivityValue {
        activity_id: text::integer_string(row.activity_id),
        organization_id: row.organization_id.clone(),
        project_id: row.project_id.clone(),
        issue_id: row.issue_id.clone(),
        actor_subject: row.actor_subject.clone(),
        operation: row.operation.clone(),
        entity_kind: row.entity_kind.clone(),
        entity_id: row.entity_id.clone(),
        revision: match row.revision {
            Some(revision) => Some(text::integer_string(revision)),
            None => None,
        },
        occurred_at: row.occurred_at.text.clone(),
    }
}

/// Whether an optional filter admits an optional text.
pub open spec fn admits_option(filter: Option<String>, text: Option<String>) -> bool {
    filter is None || text::text_of(filter) == text::text_of(text)
}

impl Store {
    /// Whether the issue exists in a team that the subject can see.
    pub open spec fn issue_team_seen(
        self,
        organization: Seq<char>,
        issue: Seq<char>,
        subject: Seq<char>,
    ) -> bool {
        match self.issue_at(organization, issue) {
            Some(i) => {
                let team = self.issues@[i].team_id@;
                self.team_at(organization, team) is Some && !self.hidden_team(
                    organization,
                    team,
                    subject,
                )
            },
            None => false,
        }
    }

    /// Whether the subject can see the activity record.
    pub open spec fn sees_activity(self, row: Activity, subject: Seq<char>) -> bool {
        &&& row.project_id is Some || row.issue_id is Some
        &&& row.project_id is Some ==> !self.hidden_project(
            row.organization_id@,
            row.project_id->0@,
            subject,
        )
        &&& row.issue_id is Some ==> self.issue_team_seen(
            row.organization_id@,
            row.issue_id->0@,
            subject,
        )
    }

    /// Whether the issue exists in a team that the subject can see.
    fn is_issue_team_seen(&self, organization: &str, issue: &str, subject: &str) -> (answer: bool)
        ensures
            answer == self.issue_team_seen(organization@, issue@, subject@),
    {
        match self.find_issue(organization, issue) {
            Some(i) => self.find_team(organization, self.issues[i].team_id.as_str()).is_some()
                && !self.is_hidden_team(organization, self.issues[i].team_id.as_str(), subject),
            None => false,
        }
    }

    /// Whether the subject can see the activity record.
    fn can_see_activity(&self, row: &Activity, subject: &str) -> (answer: bool)
        ensures
            answer == self.sees_activity(*row, subject@),
    {
        let organization = row.organization_id.as_str();
        if row.project_id.is_none() && row.issue_id.is_none() {
            return false;
        }
        if let Some(project) = &row.project_id {
            if self.is_hidden_project(organization, project.as_str(), subject) {
                return false;
            }
        }
        if let Some(issue) = &row.issue_id {
            if !self.is_issue_team_seen(organization, issue.as_str(), subject) {
                return false;
            }
        }
        true
    }
}

/// Picks the activity that a listing shows to the actor.
pub open spec fn is_listed_activity(s: Store, actor: Seq<char>, r: ListActivityRequest, after: int) -> spec_fn(
    Activity,
) -> bool {
    |row: Activity|
        {
            &&& row.organization_id@ == r.organization_id@
            &&& row.activity_id > after
            &&& admits_option(r.project_id, row.project_id)
            &&& admits_option(r.issue_id, row.issue_id)
            &&& s.sees_activity(row, actor)
        }
}

/// Says which value shows an activity record.
pub open spec fn shows_activity() -> spec_fn(Activity, ActivityValue) -> bool {
    |row: Activity, value: ActivityValue| is_activity_value(row, value)
}

/// The number of an activity record.
pub open spec fn activity_seq() -> spec_fn(Activity) -> int {
    |row: Activity| row.activity_id as int
}

/// How listing activity starts.
pub open spec fn list_activity_verdict(s: Store, actor: Seq<char>, r: ListActivityRequest) -> Verdict {
    store::demand(
        validate::cursor_value(text::text_of(r.after)) is Some,
        DomainFailure::InvalidRequest,
    ).and(
        match r.project_id {
            Some(project) => store::unless(s.project_refusal(r.organization_id@, project@, actor)),
            None => Verdict::Proceed,
        },
    ).and(
        match r.issue_id {
            Some(issue) => store::unless(s.issue_refusal(r.organization_id@, issue@, actor)),
            None => Verdict::Proceed,
        },
    ).and(store::limited(r.limit, "list activity"@))
}

/// What listing activity answers: the records after the checkpoint in their order, and the latest
/// checkpoint: the number of the last record shown, or the given one where none is shown.
pub open spec fn list_activity_outcome(
    s: Store,
    actor: Seq<char>,
    r: ListActivityRequest,
    result: Result<Page<ActivityValue>, StorageError>,
) -> bool {
    let keep = is_listed_activity(s, actor, r, validate::cursor_value(text::text_of(r.after))->0);
    let found = s.activity@.filter(keep);
    match list_activity_verdict(s, actor, r) {
        Verdict::Proceed => {
            &&& result matches Ok(page)
            &&& table::presents(s.activity@, keep, r.limit as int, page.items@, shows_activity())
            &&& text::text_of(page.next_cursor) == if page.items@.len() > 0 {
                Some(text::integer_text(found[page.items@.len() - 1].activity_id as int))
            } else {
                text::text_of(r.after)
            }
        },
        verdict => result matches Err(error) && store::fails(verdict, error),
    }
}

impl Store {
    /// Lists the activity after a checkpoint, and gives the latest checkpoint.
    pub fn list_activity(&self, actor: &str, request: &ListActivityRequest) -> (result: Result<
        Page<ActivityValue>,
        StorageError,
    >)
        requires
            request.limit < i64::MAX,
        ensures
            list_activity_outcome(*self, actor@, *request, result),
    {
        let organization = request.organization_id.as_str();
        let after = match parse_cursor(&request.after) {
            Ok(after) => after,
            Err(failure) => {
                return Err(StorageError::Domain(failure));
            },
        };
        if let Some(project) = &request.project_id {
            if let Some(failure) = self.check_project(organization, project.as_str(), actor) {
                return Err(StorageError::Domain(failure));
            }
        }
        if let Some(issue) = &request.issue_id {
            if let Some(failure) = self.check_issue(organization, issue.as_str(), actor) {
                return Err(StorageError::Domain(failure));
            }
        }
        if request.limit < -1 {
            return Err(runtime("list activity", "LIMIT must not be negative"));
        }
        let page = page_of(
            &self.activity,
            |row: &Activity| -> (hit: bool)
                ensures
                    hit == is_listed_activity(*self, actor@, *request, after as int)(*row)
            {
                text::same(row.organization_id.as_str(), request.organization_id.as_str())
                    && row.activity_id > after && (request.project_id.is_none() || text::same_option(
                    &request.project_id,
                    &row.project_id,
                )) && (request.issue_id.is_none() || text::same_option(
                    &request.issue_id,
                    &row.issue_id,
                )) && self.can_see_activity(row, actor)
            },
            Ghost(is_listed_activity(*self, actor@, *request, after as int)),
            request.limit,
            |row: &Activity| -> (value: ActivityValue)
                ensures
                    shows_activity()(*row, value)
            { load_activity_value(row) },
            Ghost(shows_activity()),
            |row: &Activity| -> (n: i64)
                ensures
                    n == activity_seq()(*row)
            { row.activity_id },
            Ghost(activity_seq()),
        );
        let next_cursor = if page.items.len() > 0 {
            Some(page.items[page.items.len() - 1].activity_id.clone())
        } else {
            request.after.clone()
        };
        Ok(Page { items: page.items, next_cursor })
    }
}

} // verus!
