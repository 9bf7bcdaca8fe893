//! Labels, cycles and milestones.
use crate::catalog;
use crate::clock;
use crate::clock::{format_date, parse_date, CalendarDate};
use crate::contract::{PUT_CYCLE_OPERATION, PUT_LABEL_OPERATION, PUT_MILESTONE_OPERATION};
use crate::failure::{runtime, DomainFailure, StorageError};
use crate::model::{
    Completion, Cycle, CycleValue, Label, LabelValue, ListCyclesRequest, ListLabelsRequest,
    ListMilestonesRequest, Milestone, MilestoneValue, PutCycleRequest, PutLabelRequest,
    PutMilestoneRequest,
};
use crate::store;
use crate::store::{check_growth, start_listing, ActivityEntry, Invocation, Store, Verdict};
use crate::table;
use crate::table::{page_of, Page};
use crate::text;
use crate::validate;
use crate::validate::parse_revision;
use crate::workflow;
use vstd::prelude::*;

verus! {

/// What must hold of an entry that is replaced: it exists and still has the expected revision.
pub open spec fn replace_verdict(expected: Seq<char>, found: Option<int>, revision: int) -> Verdict {
    store::demand(
        validate::revision_value(expected) is Some,
        DomainFailure::InvalidRequest,
    ).and(
        store::demand(
            found is Some && validate::revision_value(expected) == Some(revision),
            DomainFailure::RevisionConflict,
        ),
    )
}

/// Whether `value` shows the label in `row`.
pub open spec fn is_label_value(row: Label, value: LabelValue) -> bool {
    &&& value.label_id@ == row.label_id@
    &&& value.organization_id@ == row.organization_id@
    &&& text::text_of(value.team_id) == text::text_of(row.team_id)
    &&& value.name@ == row.name@
    &&& text::text_of(value.description) == text::text_of(row.description)
    &&& value.color@ == row.color@
    &&& value.revision@ == text::integer_text(row.revision as int)
}

/// Shows the label in `row`.
pub fn load_label_value(row: &Label) -> (value: LabelValue)
    ensures
        is_label_value(*row, value),
{
    LabelValue {
        label_id: row.label_id.clone(),
        organization_id: row.organization_id.clone(),
        team_id: row.team_id.clone(),
        name: row.name.clone(),
        description: row.description.clone(),
        color: row.color.clone(),
        revision: text::integer_string(row.revision),
    }
}

/// Whether `row` is the label that the request gives.
pub open spec fn is_label_row(row: Label, r: PutLabelRequest, revision: int, row_seq: int) -> bool {
    &&& row.label_id@ == r.label_id@
    &&& row.organization_id@ == r.organization_id@
    &&& text::text_of(row.team_id) == text::text_of(r.team_id)
    &&& row.name@ == text::trimmed(r.name@)
    &&& text::text_of(row.description) == text::trimmed_option(text::text_of(r.description))
    &&& row.color@ == r.color@
    &&& row.revision == revision
    &&& row.row_seq == row_seq
}

/// How putting a label ends.
pub open spec fn put_label_verdict(s: Store, call: Invocation, r: PutLabelRequest) -> Verdict {
    let found = s.label_at(r.organization_id@, r.label_id@);
    store::demand(
        r.team_id is Some ==> s.team_at(r.organization_id@, r.team_id->0@) is Some,
        DomainFailure::NotFound,
    ).and(s.command_verdict(call, PUT_LABEL_OPERATION@, r.idempotency_key@)).and(
        match r.expected_revision {
            Some(expected) => replace_verdict(
                expected@,
                found,
                s.labels@[found->0].revision as int,
            ).and(store::grows(s.labels@[found->0].revision, 1, "update label"@)),
            None => store::grows(s.next_row, 1, "insert label"@).and(
                store::demand(
                    !table::some_row(s.labels@, store::has_label_id(r.label_id@)),
                    DomainFailure::KeyConflict,
                ),
            ),
        },
    ).and(store::appends(s))
}

/// What putting a label records.
pub open spec fn label_recorded(
    before: Store,
    after: Store,
    call: Invocation,
    r: PutLabelRequest,
    revision: int,
) -> bool {
    store::recorded(
        before,
        after,
        call,
        r.idempotency_key@,
        (ActivityEntry {
            organization: r.organization_id@,
            project: None,
            issue: None,
            operation: PUT_LABEL_OPERATION@,
            kind: "label"@,
            entity: r.label_id@,
            revision: Some(revision),
        }),
    )
}

/// What putting a label does and answers.
pub open spec fn put_label_outcome(
    before: Store,
    after: Store,
    call: Invocation,
    r: PutLabelRequest,
    result: Result<Completion<LabelValue>, StorageError>,
) -> bool {
    let verdict = put_label_verdict(before, call, r);
    let value = store::fresh(result);
    &&& store::settles(verdict, result)
    &&& if verdict is Proceed {
        &&& match r.expected_revision {
            Some(_) => {
                let i = before.label_at(r.organization_id@, r.label_id@)->0;
                let row = before.labels@[i];
                &&& after.labels@ == before.labels@.update(i, after.labels@[i])
                &&& is_label_row(after.labels@[i], r, row.revision + 1, row.row_seq as int)
                &&& after.next_row == before.next_row
                &&& label_recorded(before, after, call, r, row.revision + 1)
                &&& is_label_value(after.labels@[i], value)
            },
            None => {
                &&& after.labels@.len() == before.labels@.len() + 1
                &&& after.labels@.drop_last() == before.labels@
                &&& is_label_row(after.labels@.last(), r, 1, before.next_row as int)
                &&& after.next_row == before.next_row + 1
                &&& label_recorded(before, after, call, r, 1)
                &&& is_label_value(after.labels@.last(), value)
            },
        }
        &&& after == (Store {
            labels: after.labels,
            next_row: after.next_row,
            activity: after.activity,
            commands: after.commands,
            next_activity: after.next_activity,
            ..before
        })
    } else {
        after == before
    }
}

/// Picks the labels that a listing shows: all, or those of no team and of the wanted team.
pub open spec fn is_listed_label(r: ListLabelsRequest, after: int) -> spec_fn(Label) -> bool {
    |row: Label|
        {
            &&& row.organization_id@ == r.organization_id@
            &&& row.row_seq > after
            &&& (r.team_id is None || row.team_id is None || text::text_of(row.team_id)
                == text::text_of(r.team_id))
        }
}

/// Says which value shows a label.
pub open spec fn shows_label() -> spec_fn(Label, LabelValue) -> bool {
    |row: Label, value: LabelValue| is_label_value(row, value)
}

/// The sequence number of a label.
pub open spec fn label_seq() -> spec_fn(Label) -> int {
    |row: Label| row.row_seq as int
}

/// What listing labels answers.
pub open spec fn list_labels_outcome(
    s: Store,
    r: ListLabelsRequest,
    result: Result<Page<LabelValue>, StorageError>,
) -> bool {
    match store::listing(r.limit, r.after, "list labels"@) {
        Verdict::Proceed => result matches Ok(page) && table::is_page(
                s.labels@,
                is_listed_label(r, validate::cursor_value(text::text_of(r.after))->0),
                r.limit as int,
                page,
                shows_label(),
                label_seq(),
            ),
        verdict => result matches Err(error) && store::fails(verdict, error),
    }
}

/// Whether `value` shows the cycle in `row`.
pub open spec fn is_cycle_value(row: Cycle, value: CycleValue) -> bool {
    &&& value.cycle_id@ == row.cycle_id@
    &&& value.organization_id@ == row.organization_id@
    &&& value.team_id@ == row.team_id@
    &&& value.number == row.number
    &&& text::text_of(value.name) == text::text_of(row.name)
    &&& value.starts_on@ == row.starts_on.text@
    &&& value.ends_on@ == row.ends_on.text@
    &&& value.revision@ == text::integer_text(row.revision as int)
}

/// Shows the cycle in `row`.
pub fn load_cycle_value(row: &Cycle) -> (value: CycleValue)
    ensures
        is_cycle_value(*row, value),
{
    CycleValue {
        cycle_id: row.cycle_id.clone(),
        organization_id: row.organization_id.clone(),
        team_id: row.team_id.clone(),
        number: row.number as i64,
        name: row.name.clone(),
        starts_on: row.starts_on.text.clone(),
        ends_on: row.ends_on.text.clone(),
        revision: text::integer_string(row.revision),
    }
}

/// Whether both dates of a cycle are accepted, the end not before the start.
pub open spec fn is_span(starts_on: Seq<char>, ends_on: Seq<char>) -> bool {
    &&& clock::iso_date(starts_on) is Some
    &&& clock::iso_date(ends_on) is Some
    &&& (clock::iso_date(ends_on)->0).0 >= (clock::iso_date(starts_on)->0).0
}

/// How putting a cycle ends.
pub open spec fn put_cycle_verdict(s: Store, call: Invocation, r: PutCycleRequest) -> Verdict {
    let found = s.cycle_at(r.organization_id@, r.team_id@, r.cycle_id@);
    store::demand(
        s.team_at(r.organization_id@, r.team_id@) is Some,
        DomainFailure::NotFound,
    ).and(store::demand(is_span(r.starts_on@, r.ends_on@), DomainFailure::InvalidRequest)).and(
        s.command_verdict(call, PUT_CYCLE_OPERATION@, r.idempotency_key@),
    ).and(
        match r.expected_revision {
            Some(expected) => replace_verdict(
                expected@,
                found,
                s.cycles@[found->0].revision as int,
            ).and(workflow::fitting(r.number as int, "update cycle"@)).and(
                store::grows(s.cycles@[found->0].revision, 1, "update cycle"@),
            ),
            None => workflow::fitting(r.number as int, "insert cycle"@).and(
                store::grows(s.next_row, 1, "insert cycle"@),
            ).and(
                store::demand(
                    !table::some_row(s.cycles@, store::has_cycle_id(r.cycle_id@)),
                    DomainFailure::KeyConflict,
                ),
            ),
        },
    ).and(store::appends(s))
}

/// Whether `row` is the cycle that the request gives.
pub open spec fn is_cycle_row(row: Cycle, r: PutCycleRequest, revision: int, row_seq: int) -> bool {
    &&& row.cycle_id@ == r.cycle_id@
    &&& row.organization_id@ == r.organization_id@
    &&& row.team_id@ == r.team_id@
    &&& row.number == r.number
    &&& text::text_of(row.name) == text::trimmed_option(text::text_of(r.name))
    &&& clock::is_date(Some(r.starts_on@), Some(row.starts_on))
    &&& clock::is_date(Some(r.ends_on@), Some(row.ends_on))
    &&& row.revision == revision
    &&& row.row_seq == row_seq
}

/// Whether `value` answers the request with this revision: the dates read as they were given.
pub open spec fn answers_cycle(r: PutCycleRequest, revision: int, value: CycleValue) -> bool {
    &&& value.cycle_id@ == r.cycle_id@
    &&& value.organization_id@ == r.organization_id@
    &&& value.team_id@ == r.team_id@
    &&& value.number == r.number
    &&& text::text_of(value.name) == text::trimmed_option(text::text_of(r.name))
    &&& value.starts_on@ == r.starts_on@
    &&& value.ends_on@ == r.ends_on@
    &&& value.revision@ == text::integer_text(revision)
}

/// What putting a cycle records.
pub open spec fn cycle_recorded(
    before: Store,
    after: Store,
    call: Invocation,
    r: PutCycleRequest,
    revision: int,
) -> bool {
    store::recorded(
        before,
        after,
        call,
        r.idempotency_key@,
        (ActivityEntry {
            organization: r.organization_id@,
            project: None,
            issue: None,
            operation: PUT_CYCLE_OPERATION@,
            kind: "cycle"@,
            entity: r.cycle_id@,
            revision: Some(revision),
        }),
    )
}

/// What putting a cycle does and answers.
pub open spec fn put_cycle_outcome(
    before: Store,
    after: Store,
    call: Invocation,
    r: PutCycleRequest,
    result: Result<Completion<CycleValue>, StorageError>,
) -> bool {
    let verdict = put_cycle_verdict(before, call, r);
    let value = store::fresh(result);
    &&& store::settles(verdict, result)
    &&& if verdict is Proceed {
        &&& match r.expected_revision {
            Some(_) => {
                let i = before.cycle_at(r.organization_id@, r.team_id@, r.cycle_id@)->0;
                let row = before.cycles@[i];
                &&& after.cycles@ == before.cycles@.update(i, after.cycles@[i])
                &&& is_cycle_row(after.cycles@[i], r, row.revision + 1, row.row_seq as int)
                &&& after.next_row == before.next_row
                &&& cycle_recorded(before, after, call, r, row.revision + 1)
                &&& answers_cycle(r, row.revision + 1, value)
            },
            None => {
                &&& after.cycles@.len() == before.cycles@.len() + 1
                &&& after.cycles@.drop_last() == before.cycles@
                &&& is_cycle_row(after.cycles@.last(), r, 1, before.next_row as int)
                &&& after.next_row == before.next_row + 1
                &&& cycle_recorded(before, after, call, r, 1)
                &&& answers_cycle(r, 1, value)
            },
        }
        &&& after == (Store {
            cycles: after.cycles,
            next_row: after.next_row,
            activity: after.activity,
            commands: after.commands,
            next_activity: after.next_activity,
            ..before
        })
    } else {
        after == before
    }
}

/// Picks the cycles of the team after a position.
pub open spec fn is_listed_cycle(organization: Seq<char>, team: Seq<char>, after: int) -> spec_fn(Cycle) -> bool {
    |row: Cycle| row.organization_id@ == organization && row.team_id@ == team && row.row_seq > after
}

/// Says which value shows a cycle.
pub open spec fn shows_cycle() -> spec_fn(Cycle, CycleValue) -> bool {
    |row: Cycle, value: CycleValue| is_cycle_value(row, value)
}

/// The sequence number of a cycle.
pub open spec fn cycle_seq() -> spec_fn(Cycle) -> int {
    |row: Cycle| row.row_seq as int
}

/// What listing cycles answers.
pub open spec fn list_cycles_outcome(
    s: Store,
    r: ListCyclesRequest,
    result: Result<Page<CycleValue>, StorageError>,
) -> bool {
    match store::listing(r.limit, r.after, "list cycles"@) {
        Verdict::Proceed => result matches Ok(page) && table::is_page(
                s.cycles@,
                is_listed_cycle(
                    r.organization_id@,
                    r.team_id@,
                    validate::cursor_value(text::text_of(r.after))->0,
                ),
                r.limit as int,
                page,
                shows_cycle(),
                cycle_seq(),
            ),
        verdict => result matches Err(error) && store::fails(verdict, error),
    }
}

/// Whether `value` shows the milestone in `row`.
pub open spec fn is_milestone_value(row: Milestone, value: MilestoneValue) -> bool {
    &&& value.milestone_id@ == row.milestone_id@
    &&& value.organization_id@ == row.organization_id@
    &&& value.project_id@ == row.project_id@
    &&& value.name@ == row.name@
    &&& text::text_of(value.description) == text::text_of(row.description)
    &&& text::text_of(value.target_date) == clock::date_text(row.target_date)
    &&& value.revision@ == text::integer_text(row.revision as int)
}

/// Shows the milestone in `row`.
pub fn load_milestone_value(row: &Milestone) -> (value: MilestoneValue)
    ensures
        is_milestone_value(*row, value),
{
    MilestoneValue {
        milestone_id: row.milestone_id.clone(),
        organization_id: row.organization_id.clone(),
        project_id: row.project_id.clone(),
        name: row.name.clone(),
        description: row.description.clone(),
        target_date: format_date(&row.target_date),
        revision: text::integer_string(row.revision),
    }
}

/// How putting a milestone ends.
pub open spec fn put_milestone_verdict(s: Store, call: Invocation, r: PutMilestoneRequest) -> Verdict {
    let found = s.milestone_at(r.organization_id@, r.project_id@, r.milestone_id@);
    store::demand(
        s.project_at(r.organization_id@, r.project_id@) is Some,
        DomainFailure::NotFound,
    ).and(
        store::demand(
            clock::date_accepted(text::text_of(r.target_date)),
            DomainFailure::InvalidRequest,
        ),
    ).and(s.command_verdict(call, PUT_MILESTONE_OPERATION@, r.idempotency_key@)).and(
        match r.expected_revision {
            Some(expected) => replace_verdict(
                expected@,
                found,
                s.milestones@[found->0].revision as int,
            ).and(store::grows(s.milestones@[found->0].revision, 1, "update milestone"@)),
            None => store::grows(s.next_row, 1, "insert milestone"@).and(
                store::demand(
                    !table::some_row(s.milestones@, store::has_milestone_id(r.milestone_id@)),
                    DomainFailure::KeyConflict,
                ),
            ),
        },
    ).and(store::appends(s))
}

/// Whether `row` is the milestone that the request gives.
pub open spec fn is_milestone_row(row: Milestone, r: PutMilestoneRequest, revision: int, row_seq: int) -> bool {
    &&& row.milestone_id@ == r.milestone_id@
    &&& row.organization_id@ == r.organization_id@
    &&& row.project_id@ == r.project_id@
    &&& row.name@ == text::trimmed(r.name@)
    &&& text::text_of(row.description) == text::trimmed_option(text::text_of(r.description))
    &&& clock::is_date(text::text_of(r.target_date), row.target_date)
    &&& row.revision == revision
    &&& row.row_seq == row_seq
}

/// Whether `value` answers the request with this revision: the date reads as it was given.
pub open spec fn answers_milestone(r: PutMilestoneRequest, revision: int, value: MilestoneValue) -> bool {
    &&& value.milestone_id@ == r.milestone_id@
    &&& value.organization_id@ == r.organization_id@
    &&& value.project_id@ == r.project_id@
    &&& value.name@ == text::trimmed(r.name@)
    &&& text::text_of(value.description) == text::trimmed_option(text::text_of(r.description))
    &&& text::text_of(value.target_date) == text::text_of(r.target_date)
    &&& value.revision@ == text::integer_text(revision)
}

/// What putting a milestone records.
pub open spec fn milestone_recorded(
    before: Store,
    after: Store,
    call: Invocation,
    r: PutMilestoneRequest,
    revision: int,
) -> bool {
    store::recorded(
        before,
        after,
        call,
        r.idempotency_key@,
        (ActivityEntry {
            organization: r.organization_id@,
            project: Some(r.project_id@),
            issue: None,
            operation: PUT_MILESTONE_OPERATION@,
            kind: "milestone"@,
            entity: r.milestone_id@,
            revision: Some(revision),
        }),
    )
}

/// What putting a milestone does and answers.
pub open spec fn put_milestone_outcome(
    before: Store,
    after: Store,
    call: Invocation,
    r: PutMilestoneRequest,
    result: Result<Completion<MilestoneValue>, StorageError>,
) -> bool {
    let verdict = put_milestone_verdict(before, call, r);
    let value = store::fresh(result);
    &&& store::settles(verdict, result)
    &&& if verdict is Proceed {
        &&& match r.expected_revision {
            Some(_) => {
                let i = before.milestone_at(r.organization_id@, r.project_id@, r.milestone_id@)->0;
                let row = before.milestones@[i];
                &&& after.milestones@ == before.milestones@.update(i, after.milestones@[i])
                &&& is_milestone_row(after.milestones@[i], r, row.revision + 1, row.row_seq as int)
                &&& after.next_row == before.next_row
                &&& milestone_recorded(before, after, call, r, row.revision + 1)
                &&& answers_milestone(r, row.revision + 1, value)
            },
            None => {
                &&& after.milestones@.len() == before.milestones@.len() + 1
                &&& after.milestones@.drop_last() == before.milestones@
                &&& is_milestone_row(after.milestones@.last(), r, 1, before.next_row as int)
                &&& after.next_row == before.next_row + 1
                &&& milestone_recorded(before, after, call, r, 1)
                &&& answers_milestone(r, 1, value)
            },
        }
        &&& after == (Store {
            milestones: after.milestones,
            next_row: after.next_row,
            activity: after.activity,
            commands: after.commands,
            next_activity: after.next_activity,
            ..before
        })
    } else {
        after == before
    }
}

/// Picks the milestones of the project after a position.
pub open spec fn is_listed_milestone(organization: Seq<char>, project: Seq<char>, after: int) -> spec_fn(
    Milestone,
) -> bool {
    |row: Milestone|
        row.organization_id@ == organization && row.project_id@ == project && row.row_seq > after
}

/// Says which value shows a milestone.
pub open spec fn shows_milestone() -> spec_fn(Milestone, MilestoneValue) -> bool {
    |row: Milestone, value: MilestoneValue| is_milestone_value(row, value)
}

/// The sequence number of a milestone.
pub open spec fn milestone_seq() -> spec_fn(Milestone) -> int {
    |row: Milestone| row.row_seq as int
}

/// What listing milestones answers.
pub open spec fn list_milestones_outcome(
    s: Store,
    r: ListMilestonesRequest,
    result: Result<Page<MilestoneValue>, StorageError>,
) -> bool {
    match store::listing(r.limit, r.after, "list milestones"@) {
        Verdict::Proceed => result matches Ok(page) && table::is_page(
                s.milestones@,
                is_listed_milestone(
                    r.organization_id@,
                    r.project_id@,
                    validate::cursor_value(text::text_of(r.after))->0,
                ),
                r.limit as int,
                page,
                shows_milestone(),
                milestone_seq(),
            ),
        verdict => result matches Err(error) && store::fails(verdict, error),
    }
}

/// Reads the two dates of a cycle: none where one is not accepted or the end is before the start.
fn read_span(starts_on: &String, ends_on: &String) -> (span: Option<(CalendarDate, CalendarDate)>)
    ensures
        match span {
            Some((start, end)) => {
                &&& is_span(starts_on@, ends_on@)
                &&& clock::is_date(Some(starts_on@), Some(start))
                &&& clock::is_date(Some(ends_on@), Some(end))
            },
            None => !is_span(starts_on@, ends_on@),
        },
{
    let start = match parse_date(&Some(starts_on.clone())) {
        Ok(Some(date)) => date,
        _ => {
            return None;
        },
    };
    let end = match parse_date(&Some(ends_on.clone())) {
        Ok(Some(date)) => date,
        _ => {
            return None;
        },
    };
    if end.julian_day < start.julian_day {
        None
    } else {
        Some((start, end))
    }
}

impl Store {
    /// Creates a label, or replaces the fields of one.
    pub fn put_label(&mut self, call: &Invocation, request: &PutLabelRequest) -> (result: Result<
        Completion<LabelValue>,
        StorageError,
    >)
        ensures
            put_label_outcome(*old(self), *final(self), *call, *request, result),
    {
        let organization = request.organization_id.as_str();
        if let Some(team) = &request.team_id {
            if self.find_team(organization, team.as_str()).is_none() {
                return Err(StorageError::Domain(DomainFailure::NotFound));
            }
        }
        if let Some(answer) = self.command_answer(
            call,
            PUT_LABEL_OPERATION,
            request.idempotency_key.as_str(),
        ) {
            return answer;
        }
        let i: usize;
        let revision: i64;
        match &request.expected_revision {
            Some(expected) => {
                let expected = match parse_revision(expected.as_str()) {
                    Ok(expected) => expected,
                    Err(failure) => {
                        return Err(StorageError::Domain(failure));
                    },
                };
                i = match self.find_label(organization, request.label_id.as_str()) {
                    Some(i) => i,
                    None => {
                        return Err(StorageError::Domain(DomainFailure::RevisionConflict));
                    },
                };
                if self.labels[i].revision != expected {
                    return Err(StorageError::Domain(DomainFailure::RevisionConflict));
                }
                if let Err(error) = self.check_revise(expected, "update label") {
                    return Err(error);
                }
                revision = expected + 1;
                let row = &mut self.labels[i];
                row.team_id = request.team_id.clone();
                row.name = text::trim(request.name.as_str());
                row.description = text::trim_option(&request.description);
                row.color = request.color.clone();
                row.revision = revision;
            },
            None => {
                if let Err(error) = check_growth(self.next_row, 1, "insert label") {
                    return Err(error);
                }
                if self.taken_label_id(request.label_id.as_str()) {
                    return Err(StorageError::Domain(DomainFailure::KeyConflict));
                }
                if let Err(error) = self.check_append() {
                    return Err(error);
                }
                i = self.labels.len();
                revision = 1;
                self.labels.push(
                    Label {
                        label_id: request.label_id.clone(),
                        organization_id: request.organization_id.clone(),
                        team_id: request.team_id.clone(),
                        name: text::trim(request.name.as_str()),
                        description: text::trim_option(&request.description),
                        color: request.color.clone(),
                        revision: 1,
                        row_seq: self.next_row,
                    },
                );
                self.next_row = self.next_row + 1;
                assert(self.labels@.drop_last() =~= old(self).labels@);
            },
        }
        self.record(
            call,
            request.idempotency_key.as_str(),
            organization,
            None,
            None,
            PUT_LABEL_OPERATION,
            "label",
            request.label_id.as_str(),
            Some(revision),
        );
        let value = load_label_value(&self.labels[i]);
        Ok(Completion::Fresh(value))
    }

    /// Lists the labels of an organization, a page at a time.
    pub fn list_labels(&self, request: &ListLabelsRequest) -> (result: Result<
        Page<LabelValue>,
        StorageError,
    >)
        requires
            request.limit < i64::MAX,
        ensures
            list_labels_outcome(*self, *request, result),
    {
        let after = match start_listing(request.limit, &request.after, "list labels") {
            Ok(after) => after,
            Err(error) => {
                return Err(error);
            },
        };
        Ok(
            page_of(
                &self.labels,
                |row: &Label| -> (hit: bool)
                    ensures
                        hit == is_listed_label(*request, after as int)(*row)
                {
                    text::same(row.organization_id.as_str(), request.organization_id.as_str())
                        && row.row_seq > after && (request.team_id.is_none() || row.team_id.is_none()
                        || text::same_option(&row.team_id, &request.team_id))
                },
                Ghost(is_listed_label(*request, after as int)),
                request.limit,
                |row: &Label| -> (value: LabelValue)
                    ensures
                        shows_label()(*row, value)
                { load_label_value(row) },
                Ghost(shows_label()),
                |row: &Label| -> (n: i64)
                    ensures
                        n == label_seq()(*row)
                { row.row_seq },
                Ghost(label_seq()),
            ),
        )
    }

    /// Creates a cycle, or replaces the fields of one.
    pub fn put_cycle(&mut self, call: &Invocation, request: &PutCycleRequest) -> (result: Result<
        Completion<CycleValue>,
        StorageError,
    >)
        ensures
            put_cycle_outcome(*old(self), *final(self), *call, *request, result),
    {
        let organization = request.organization_id.as_str();
        let team = request.team_id.as_str();
        if self.find_team(organization, team).is_none() {
            return Err(StorageError::Domain(DomainFailure::NotFound));
        }
        let (starts_on, ends_on) = match read_span(&request.starts_on, &request.ends_on) {
            Some(span) => span,
            None => {
                return Err(StorageError::Domain(DomainFailure::InvalidRequest));
            },
        };
        if let Some(answer) = self.command_answer(
            call,
            PUT_CYCLE_OPERATION,
            request.idempotency_key.as_str(),
        ) {
            return answer;
        }
        let revision: i64;
        match &request.expected_revision {
            Some(expected) => {
                let expected = match parse_revision(expected.as_str()) {
                    Ok(expected) => expected,
                    Err(failure) => {
                        return Err(StorageError::Domain(failure));
                    },
                };
                let i = match self.find_cycle(organization, team, request.cycle_id.as_str()) {
                    Some(i) => i,
                    None => {
                        return Err(StorageError::Domain(DomainFailure::RevisionConflict));
                    },
                };
                if self.cycles[i].revision != expected {
                    return Err(StorageError::Domain(DomainFailure::RevisionConflict));
                }
                if !catalog::fits_position(request.number) {
                    return Err(runtime("update cycle", "integer out of range"));
                }
                if let Err(error) = self.check_revise(expected, "update cycle") {
                    return Err(error);
                }
                revision = expected + 1;
                let row = &mut self.cycles[i];
                row.number = request.number as i32;
                row.name = text::trim_option(&request.name);
                row.starts_on = starts_on;
                row.ends_on = ends_on;
                row.revision = revision;
            },
            None => {
                if !catalog::fits_position(request.number) {
                    return Err(runtime("insert cycle", "integer out of range"));
                }
                if let Err(error) = check_growth(self.next_row, 1, "insert cycle") {
                    return Err(error);
                }
                if self.taken_cycle_id(request.cycle_id.as_str()) {
                    return Err(StorageError::Domain(DomainFailure::KeyConflict));
                }
                if let Err(error) = self.check_append() {
                    return Err(error);
                }
                revision = 1;
                self.cycles.push(
                    Cycle {
                        cycle_id: request.cycle_id.clone(),
                        organization_id: request.organization_id.clone(),
                        team_id: request.team_id.clone(),
                        number: request.number as i32,
                        name: text::trim_option(&request.name),
                        starts_on,
                        ends_on,
                        revision: 1,
                        row_seq: self.next_row,
                    },
                );
                self.next_row = self.next_row + 1;
                assert(self.cycles@.drop_last() =~= old(self).cycles@);
            },
        }
        self.record(
            call,
            request.idempotency_key.as_str(),
            organization,
            None,
            None,
            PUT_CYCLE_OPERATION,
            "cycle",
            request.cycle_id.as_str(),
            Some(revision),
        );
        Ok(
            Completion::Fresh(
                CycleValue {
                    cycle_id: request.cycle_id.clone(),
                    organization_id: request.organization_id.clone(),
                    team_id: request.team_id.clone(),
                    number: request.number,
                    name: text::trim_option(&request.name),
                    starts_on: request.starts_on.clone(),
                    ends_on: request.ends_on.clone(),
                    revision: text::integer_string(revision),
                },
            ),
        )
    }

    /// Lists the cycles of a team, a page at a time.
    pub fn list_cycles(&self, request: &ListCyclesRequest) -> (result: Result<
        Page<CycleValue>,
        StorageError,
    >)
        requires
            request.limit < i64::MAX,
        ensures
            list_cycles_outcome(*self, *request, result),
    {
        let organization = request.organization_id.as_str();
        let team = request.team_id.as_str();
        let after = match start_listing(request.limit, &request.after, "list cycles") {
            Ok(after) => after,
            Err(error) => {
                return Err(error);
            },
        };
        Ok(
            page_of(
                &self.cycles,
                |row: &Cycle| -> (hit: bool)
                    ensures
                        hit == is_listed_cycle(organization@, team@, after as int)(*row)
                {
                    text::same(row.organization_id.as_str(), organization) && text::same(
                        row.team_id.as_str(),
                        team,
                    ) && row.row_seq > after
                },
                Ghost(is_listed_cycle(organization@, team@, after as int)),
                request.limit,
                |row: &Cycle| -> (value: CycleValue)
                    ensures
                        shows_cycle()(*row, value)
                { load_cycle_value(row) },
                Ghost(shows_cycle()),
                |row: &Cycle| -> (n: i64)
                    ensures
                        n == cycle_seq()(*row)
                { row.row_seq },
                Ghost(cycle_seq()),
            ),
        )
    }

    /// Creates a milestone, or replaces the fields of one.
    pub fn put_milestone(&mut self, call: &Invocation, request: &PutMilestoneRequest) -> (result: Result<
        Completion<MilestoneValue>,
        StorageError,
    >)
        ensures
            put_milestone_outcome(*old(self), *final(self), *call, *request, result),
    {
        let organization = request.organization_id.as_str();
        let project = request.project_id.as_str();
        if self.find_project(organization, project).is_none() {
            return Err(StorageError::Domain(DomainFailure::NotFound));
        }
        let target_date = match parse_date(&request.target_date) {
            Ok(date) => date,
            Err(failure) => {
                return Err(StorageError::Domain(failure));
            },
        };
        if let Some(answer) = self.command_answer(
            call,
            PUT_MILESTONE_OPERATION,
            request.idempotency_key.as_str(),
        ) {
            return answer;
        }
        let revision: i64;
        match &request.expected_revision {
            Some(expected) => {
                let expected = match parse_revision(expected.as_str()) {
                    Ok(expected) => expected,
                    Err(failure) => {
                        return Err(StorageError::Domain(failure));
                    },
                };
                let i = match self.find_milestone(
                    organization,
                    project,
                    request.milestone_id.as_str(),
                ) {
                    Some(i) => i,
                    None => {
                        return Err(StorageError::Domain(DomainFailure::RevisionConflict));
                    },
                };
                if self.milestones[i].revision != expected {
                    return Err(StorageError::Domain(DomainFailure::RevisionConflict));
                }
                if let Err(error) = self.check_revise(expected, "update milestone") {
                    return Err(error);
                }
                revision = expected + 1;
                let row = &mut self.milestones[i];
                row.name = text::trim(request.name.as_str());
                row.description = text::trim_option(&request.description);
                row.target_date = target_date;
                row.revision = revision;
            },
            None => {
                if let Err(error) = check_growth(self.next_row, 1, "insert milestone") {
                    return Err(error);
                }
                if self.taken_milestone_id(request.milestone_id.as_str()) {
                    return Err(StorageError::Domain(DomainFailure::KeyConflict));
                }
                if let Err(error) = self.check_append() {
                    return Err(error);
                }
                revision = 1;
                self.milestones.push(
                    Milestone {
                        milestone_id: request.milestone_id.clone(),
                        organization_id: request.organization_id.clone(),
                        project_id: request.project_id.clone(),
                        name: text::trim(request.name.as_str()),
                        description: text::trim_option(&request.description),
                        target_date,
                        revision: 1,
                        row_seq: self.next_row,
                    },
                );
                self.next_row = self.next_row + 1;
                assert(self.milestones@.drop_last() =~= old(self).milestones@);
            },
        }
        self.record(
            call,
            request.idempotency_key.as_str(),
            organization,
            Some(request.project_id.clone()),
            None,
            PUT_MILESTONE_OPERATION,
            "milestone",
            request.milestone_id.as_str(),
            Some(revision),
        );
        Ok(
            Completion::Fresh(
                MilestoneValue {
                    milestone_id: request.milestone_id.clone(),
                    organization_id: request.organization_id.clone(),
                    project_id: request.project_id.clone(),
                    name: text::trim(request.name.as_str()),
                    description: text::trim_option(&request.description),
                    target_date: request.target_date.clone(),
                    revision: text::integer_string(revision),
                },
            ),
        )
    }

    /// Lists the milestones of a project, a page at a time.
    pub fn list_milestones(&self, request: &ListMilestonesRequest) -> (result: Result<
        Page<MilestoneValue>,
        StorageError,
    >)
        requires
            request.limit < i64::MAX,
        ensures
            list_milestones_outcome(*self, *request, result),
    {
        let organization = request.organization_id.as_str();
        let project = request.project_id.as_str();
        let after = match start_listing(request.limit, &request.after, "list milestones") {
            Ok(after) => after,
            Err(error) => {
                return Err(error);
            },
        };
        Ok(
            page_of(
                &self.milestones,
                |row: &Milestone| -> (hit: bool)
                    ensures
                        hit == is_listed_milestone(organization@, project@, after as int)(*row)
                {
                    text::same(row.organization_id.as_str(), organization) && text::same(
                        row.project_id.as_str(),
                        project,
                    ) && row.row_seq > after
                },
                Ghost(is_listed_milestone(organization@, project@, after as int)),
                request.limit,
                |row: &Milestone| -> (value: MilestoneValue)
                    ensures
                        shows_milestone()(*row, value)
                { load_milestone_value(row) },
                Ghost(shows_milestone()),
                |row: &Milestone| -> (n: i64)
                    ensures
                        n == milestone_seq()(*row)
                { row.row_seq },
                Ghost(milestone_seq()),
            ),
        )
    }
}

} // verus!
