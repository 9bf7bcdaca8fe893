//! Listing issues in steps: what was selected may be gone by the time it is read.
use crate::failure;
use crate::failure::{runtime, DomainFailure, StorageError};
use crate::issues;
use crate::issues::filter_admits;
use crate::model::{Issue, IssueValue, ListIssuesRequest};
use crate::store::Store;
use crate::table;
use crate::table::{page_of, Page};
use crate::text;
use crate::validate;
use crate::validate::{parse_cursor, valid_page};
use vstd::prelude::*;

verus! {

/// Says which text is the id of an issue.
pub open spec fn names_issue() -> spec_fn(Issue, String) -> bool {
    |row: Issue, id: String| id@ == row.issue_id@
}

/// What selecting a page of issues answers: their ids.
pub open spec fn select_issues_outcome(
    s: Store,
    actor: Seq<char>,
    r: ListIssuesRequest,
    result: Result<Page<String>, StorageError>,
) -> bool {
    if validate::is_page_request(r.limit as int, text::text_of(r.after)) {
        result matches Ok(page) && table::is_page(
            s.issues@,
            issues::is_listed_issue(
                s,
                actor,
                r,
                validate::cursor_value(text::text_of(r.after))->0,
            ),
            r.limit as int,
            page,
            names_issue(),
            issues::issue_seq(),
        )
    } else {
        result == Err::<Page<String>, StorageError>(
            StorageError::Domain(DomainFailure::InvalidRequest),
        )
    }
}

/// The labels of an issue; none where the issue is gone.
pub open spec fn labels_of(s: Store, organization: Seq<char>, issue: Seq<char>) -> Seq<String> {
    match s.issue_at(organization, issue) {
        Some(i) => s.issues@[i].label_ids@,
        None => Seq::empty(),
    }
}

/// Whether `value` shows the issue in `row` with the past identifiers and the labels that it has in
/// `later`.
pub open spec fn is_read_issue(row: Issue, later: Store, value: IssueValue) -> bool {
    &&& later.is_issue_value(Issue { label_ids: value.label_ids, ..row }, value)
    &&& value.label_ids@ == labels_of(later, row.organization_id@, row.issue_id@)
}

/// Whether every selected issue is there.
pub open spec fn all_there(s: Store, organization: Seq<char>, ids: Seq<String>) -> bool {
    forall|k: int| 0 <= k < ids.len() ==> s.issue_at(organization, (#[trigger] ids[k])@) is Some
}

/// What reading the selected issues answers: their rows as `s` has them, with what belongs to them as
/// `later` has it. One that is gone from `s` fails the whole page.
pub open spec fn read_issues_outcome(
    s: Store,
    later: Store,
    organization: Seq<char>,
    selected: Page<String>,
    result: Result<Page<IssueValue>, StorageError>,
) -> bool {
    if all_there(s, organization, selected.items@) {
        &&& result matches Ok(page) && page.next_cursor == selected.next_cursor
            && page.items@.len() == selected.items@.len() && forall|k: int|
            0 <= k < page.items@.len() ==> is_read_issue(
                s.issues@[s.issue_at(organization, selected.items@[k]@)->0],
                later,
                #[trigger] page.items@[k],
            )
    } else {
        result matches Err(error) && failure::is_runtime(
            error,
            "load listed issue"@,
            "issue disappeared"@,
        )
    }
}

impl Store {
    /// Selects a page of the issues that the actor can see.
    pub fn select_issues(&self, actor: &str, request: &ListIssuesRequest) -> (result: Result<
        Page<String>,
        StorageError,
    >)
        ensures
            select_issues_outcome(*self, actor@, *request, result),
    {
        if !valid_page(request.limit, &request.after) {
            return Err(StorageError::Domain(DomainFailure::InvalidRequest));
        }
        let after = match parse_cursor(&request.after) {
            Ok(after) => after,
            Err(failure) => {
                return Err(StorageError::Domain(failure));
            },
        };
        let ghost keep = issues::is_listed_issue(*self, actor@, *request, after as int);
        Ok(
            page_of(
                &self.issues,
                |row: &Issue| -> (hit: bool)
                    ensures
                        hit == issues::is_listed_issue(*self, actor@, *request, after as int)(*row)
                { self.lists_issue(row, actor, request, after) },
                Ghost(keep),
                request.limit,
                |row: &Issue| -> (id: String)
                    ensures
                        names_issue()(*row, id)
                { row.issue_id.clone() },
                Ghost(names_issue()),
                |row: &Issue| -> (n: i64)
                    ensures
                        n == issues::issue_seq()(*row)
                { row.row_seq },
                Ghost(issues::issue_seq()),
            ),
        )
    }

    /// Whether a listing shows the issue to the actor.
    pub fn lists_issue(&self, row: &Issue, actor: &str, request: &ListIssuesRequest, after: i64) -> (answer:
        bool)
        ensures
            answer == issues::is_listed_issue(*self, actor@, *request, after as int)(*row),
    {
        text::same(row.organization_id.as_str(), request.organization_id.as_str()) && row.row_seq
            > after && filter_admits(&request.project_id, row.project_id.as_str())
            && filter_admits(&request.team_id, row.team_id.as_str()) && filter_admits(
            &request.workflow_state_id,
            row.workflow_state_id.as_str(),
        ) && (request.include_archived || !row.archived) && self.find_team(
            row.organization_id.as_str(),
            row.team_id.as_str(),
        ).is_some() && self.can_see_issue(row, actor)
    }

    /// Shows the issue in `row` with the past identifiers and the labels that it has here.
    fn show_with_associations(&self, row: &Issue) -> (value: IssueValue)
        ensures
            is_read_issue(*row, *self, value),
    {
        let mut value = self.load_issue_value(row);
        value.label_ids =
        match self.find_issue(row.organization_id.as_str(), row.issue_id.as_str()) {
            Some(i) => self.issues[i].label_ids.clone(),
            None => Vec::new(),
        };
        value
    }

    /// Reads the selected issues here, and what belongs to them from `later`.
    pub fn read_issues(&self, later: &Store, organization: &str, selected: Page<String>) -> (result:
        Result<Page<IssueValue>, StorageError>)
        ensures
            read_issues_outcome(*self, *later, organization@, selected, result),
    {
        let mut items: Vec<IssueValue> = Vec::new();
        let mut k: usize = 0;
        while k < selected.items.len()
            invariant
                k <= selected.items.len(),
                items@.len() == k,
                forall|j: int|
                    0 <= j < k ==> self.issue_at(
                        organization@,
                        (#[trigger] selected.items@[j])@,
                    ) is Some,
                forall|j: int|
                    0 <= j < k ==> is_read_issue(
                        self.issues@[self.issue_at(organization@, selected.items@[j]@)->0],
                        *later,
                        #[trigger] items@[j],
                    ),
            decreases selected.items.len() - k,
        {
            match self.find_issue(organization, selected.items[k].as_str()) {
                Some(i) => {
                    items.push(later.show_with_associations(&self.issues[i]));
                },
                None => {
                    assert(self.issue_at(organization@, selected.items@[k as int]@) is None);
                    return Err(runtime("load listed issue", "issue disappeared"));
                },
            }
            k = k + 1;
        }
        Ok(Page { items, next_cursor: selected.next_cursor })
    }
}

} // verus!
