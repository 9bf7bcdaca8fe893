//! What issues rest on: identifiers and their history, dependencies, workflow states and parents.
use crate::failure::DomainFailure;
use crate::model::{IdentifierAlias, Issue, IssueValue};
use crate::store::Store;
use crate::table;
use crate::table::sort_rows;
use crate::text;
use vstd::prelude::*;

verus! {

/// The identifier of the issue with this number in a team.
pub open spec fn identifier_text(key: Seq<char>, number: int) -> Seq<char> {
    key + "-"@ + text::integer_text(number)
}

/// Picks the identifiers that an issue had before `current`.
pub open spec fn is_past_identifier(
    organization: Seq<char>,
    issue: Seq<char>,
    current: Seq<char>,
) -> spec_fn(IdentifierAlias) -> bool {
    |row: IdentifierAlias|
        row.organization_id@ == organization && row.issue_id@ == issue && row.identifier@ != current
}

/// Whether one identifier was taken earlier than another; those of one instant stand in text order.
pub open spec fn taken_earlier() -> spec_fn(IdentifierAlias, IdentifierAlias) -> bool {
    |a: IdentifierAlias, b: IdentifierAlias|
        a.created_at.unix_nanos < b.created_at.unix_nanos || (a.created_at.unix_nanos
            == b.created_at.unix_nanos && text::text_before(a.identifier@, b.identifier@))
}

/// The identifiers of the given rows.
pub open spec fn identifiers(rows: Seq<IdentifierAlias>) -> Seq<Seq<char>> {
    rows.map_values(|row: IdentifierAlias| row.identifier@)
}

/// Whether `history` lists the past identifiers of an issue from the earliest taken on.
pub open spec fn is_history(
    history: Seq<String>,
    aliases: Seq<IdentifierAlias>,
    organization: Seq<char>,
    issue: Seq<char>,
    current: Seq<char>,
) -> bool {
    exists|rows: Seq<IdentifierAlias>|
        {
            &&& #[trigger] table::ordered_rows(rows, taken_earlier())
            &&& rows.to_multiset() == aliases.filter(
                is_past_identifier(organization, issue, current),
            ).to_multiset()
            &&& text::texts(history) == identifiers(rows)
        }
}

impl Clone for IdentifierAlias {
    fn clone(&self) -> (copy: Self)
        ensures
            copy == *self,
    {
        IdentifierAlias {
            organization_id: self.organization_id.clone(),
            identifier: self.identifier.clone(),
            issue_id: self.issue_id.clone(),
            created_at: self.created_at.clone(),
        }
    }
}

proof fn lemma_taken_earlier_is_order()
    ensures
        table::strict_order(taken_earlier()),
{
    let before = taken_earlier();
    assert forall|a: IdentifierAlias, b: IdentifierAlias| #[trigger] before(a, b) implies !before(
        b,
        a,
    ) by {
        text::lemma_text_before_total(a.identifier@, b.identifier@);
    }
    assert forall|a: IdentifierAlias, b: IdentifierAlias, c: IdentifierAlias|
        !(#[trigger] before(c, b)) && !(#[trigger] before(b, a)) implies !before(c, a) by {
        text::lemma_text_before_total(a.identifier@, b.identifier@);
        text::lemma_text_before_total(b.identifier@, c.identifier@);
        text::lemma_text_before_total(a.identifier@, c.identifier@);
        if a.identifier@ != b.identifier@ && b.identifier@ != c.identifier@ && text::text_before(
            a.identifier@,
            b.identifier@,
        ) && text::text_before(b.identifier@, c.identifier@) {
            text::lemma_text_before_transitive(a.identifier@, b.identifier@, c.identifier@);
        }
    }
}

impl Store {
    /// Whether `value` shows the issue in `row`.
    pub open spec fn is_issue_value(self, row: Issue, value: IssueValue) -> bool {
        &&& value.issue_id@ == row.issue_id@
        &&& value.organization_id@ == row.organization_id@
        &&& value.identifier@ == row.identifier@
        &&& is_history(
            value.previous_identifiers@,
            self.aliases@,
            row.organization_id@,
            row.issue_id@,
            row.identifier@,
        )
        &&& value.project_id@ == row.project_id@
        &&& value.team_id@ == row.team_id@
        &&& value.title@ == row.title@
        &&& text::text_of(value.description) == text::text_of(row.description)
        &&& value.priority == row.priority
        &&& value.workflow_state_id@ == row.workflow_state_id@
        &&& text::text_of(value.cycle_id) == text::text_of(row.cycle_id)
        &&& text::text_of(value.milestone_id) == text::text_of(row.milestone_id)
        &&& text::text_of(value.parent_issue_id) == text::text_of(row.parent_issue_id)
        &&& value.label_ids@ == row.label_ids@
        &&& value.archived == row.archived
        &&& value.revision@ == text::integer_text(row.revision as int)
        &&& value.created_at@ == row.created_at.text@
        &&& value.updated_at@ == row.updated_at.text@
    }

    /// Whether the team is one of the project's teams.
    pub open spec fn attached(self, organization: Seq<char>, project: Seq<char>, team: Seq<char>) -> bool {
        match self.project_at(organization, project) {
            Some(i) => text::has_text(self.projects@[i].team_ids@, team),
            None => false,
        }
    }

    /// Whether an issue of the team can carry the label.
    pub open spec fn usable_label(self, organization: Seq<char>, team: Seq<char>, label: Seq<char>) -> bool {
        match self.label_at(organization, label) {
            Some(i) => match self.labels@[i].team_id {
                Some(owner) => owner@ == team,
                None => true,
            },
            None => false,
        }
    }

    /// Whether the issue belongs to the project.
    pub open spec fn issue_in_project(
        self,
        organization: Seq<char>,
        project: Seq<char>,
        issue: Seq<char>,
    ) -> bool {
        match self.issue_at(organization, issue) {
            Some(i) => self.issues@[i].project_id@ == project,
            None => false,
        }
    }

    /// The first dependency of an issue that does not hold, if any: its team, cycle, milestone,
    /// parent and labels, in this order. A label that is named twice counts as not found.
    pub open spec fn dependency_refusal(
        self,
        organization: Seq<char>,
        project: Seq<char>,
        team: Seq<char>,
        cycle: Option<Seq<char>>,
        milestone: Option<Seq<char>>,
        parent: Option<Seq<char>>,
        labels: Seq<String>,
    ) -> Option<DomainFailure> {
        if !self.attached(organization, project, team) {
            Some(DomainFailure::TeamNotFound)
        } else if cycle is Some && self.cycle_at(organization, team, cycle->0) is None {
            Some(DomainFailure::CycleNotFound)
        } else if milestone is Some && self.milestone_at(organization, project, milestone->0) is None {
            Some(DomainFailure::MilestoneNotFound)
        } else if parent is Some && !self.issue_in_project(organization, project, parent->0) {
            Some(DomainFailure::ParentNotFound)
        } else if !text::distinct(labels) || exists|k: int|
            0 <= k < labels.len() && !self.usable_label(organization, team, (#[trigger] labels[k])@) {
            Some(DomainFailure::LabelNotFound)
        } else {
            None
        }
    }

    /// Why the subject cannot use the teams, if that is so. A team that is named twice counts as not
    /// found.
    pub open spec fn teams_refusal(
        self,
        organization: Seq<char>,
        teams: Seq<String>,
        subject: Seq<char>,
    ) -> Option<DomainFailure> {
        if !text::distinct(teams) || exists|k: int|
            0 <= k < teams.len() && self.team_at(organization, (#[trigger] teams[k])@) is None {
            Some(DomainFailure::TeamNotFound)
        } else if self.hidden_among(organization, teams, subject) {
            Some(DomainFailure::PrivateTeam)
        } else {
            None
        }
    }

    /// Where the unarchived workflow state stands that an issue of the team gets: the requested one,
    /// or the team's default where none is requested.
    pub open spec fn resolved_state(
        self,
        organization: Seq<char>,
        team: Seq<char>,
        requested: Option<Seq<char>>,
    ) -> Option<int> {
        match self.team_at(organization, team) {
            Some(t) => {
                let id = match requested {
                    Some(id) => id,
                    None => self.teams@[t].default_workflow_state_id@,
                };
                match self.team_state_at(organization, team, id) {
                    Some(s) => if self.workflow_states@[s].archived {
                        None
                    } else {
                        Some(s)
                    },
                    None => None,
                }
            },
            None => None,
        }
    }

    /// The identifier that the next issue of the team gets.
    pub open spec fn next_identifier(self, organization: Seq<char>, team: Seq<char>) -> Seq<char> {
        let row = self.teams@[self.team_at(organization, team)->0];
        identifier_text(row.key@, row.next_issue_number as int)
    }

    /// Whether following the parents of `from` leads to `to` in exactly `steps` steps.
    pub open spec fn climbs(
        self,
        organization: Seq<char>,
        from: Seq<char>,
        to: Seq<char>,
        steps: nat,
    ) -> bool
        decreases steps,
    {
        if steps == 0 {
            from == to
        } else {
            match self.issue_at(organization, from) {
                Some(i) => match self.issues@[i].parent_issue_id {
                    Some(parent) => self.climbs(organization, parent@, to, (steps - 1) as nat),
                    None => false,
                },
                None => false,
            }
        }
    }

    /// Whether the parents of `from` lead to `to` in exactly `steps` steps.
    pub open spec fn arrives(
        self,
        organization: Seq<char>,
        from: Seq<char>,
        to: Seq<char>,
        steps: nat,
    ) -> bool {
        self.climbs(organization, from, to, steps)
    }

    /// Whether `below` is a descendant of the issue. A chain of parents without repetition has at most
    /// as many steps as there are issues.
    pub open spec fn is_descendant(
        self,
        organization: Seq<char>,
        below: Seq<char>,
        issue: Seq<char>,
    ) -> bool {
        exists|steps: nat|
            1 <= steps <= self.issues@.len() && #[trigger] self.arrives(
                organization,
                below,
                issue,
                steps,
            )
    }

    /// Whether the optional parent is a descendant of the issue.
    pub open spec fn would_cycle(
        self,
        organization: Seq<char>,
        issue: Seq<char>,
        parent: Option<Seq<char>>,
    ) -> bool {
        parent matches Some(parent) && self.is_descendant(organization, parent, issue)
    }

    /// The identifiers that the issue in `row` had before its present one, the earliest first.
    fn past_identifiers(&self, row: &Issue) -> (history: Vec<String>)
        ensures
            is_history(
                history@,
                self.aliases@,
                row.organization_id@,
                row.issue_id@,
                row.identifier@,
            ),
    {
        let mut picked: Vec<IdentifierAlias> = Vec::new();
        let ghost keep = is_past_identifier(row.organization_id@, row.issue_id@, row.identifier@);
        let mut i: usize = 0;
        proof {
            reveal(Seq::filter);
            assert(self.aliases@.take(0).filter(keep) =~= Seq::<IdentifierAlias>::empty());
        }
        while i < self.aliases.len()
            invariant
                i <= self.aliases.len(),
                keep == is_past_identifier(row.organization_id@, row.issue_id@, row.identifier@),
                picked@ == self.aliases@.take(i as int).filter(keep),
            decreases self.aliases.len() - i,
        {
            proof {
                table::lemma_filter_step(self.aliases@, keep, i as int);
            }
            let alias = &self.aliases[i];
            if text::same(alias.organization_id.as_str(), row.organization_id.as_str())
                && text::same(alias.issue_id.as_str(), row.issue_id.as_str()) && !text::same(
                alias.identifier.as_str(),
                row.identifier.as_str(),
            ) {
                picked.push(alias.clone());
            }
            i = i + 1;
        }
        assert(self.aliases@.take(i as int) =~= self.aliases@);
        proof {
            lemma_taken_earlier_is_order();
        }
        let rows = sort_rows(
            picked,
            |a: &IdentifierAlias, b: &IdentifierAlias| -> (hit: bool)
                ensures
                    hit == taken_earlier()(*a, *b)
            {
                a.created_at.unix_nanos < b.created_at.unix_nanos || (a.created_at.unix_nanos
                    == b.created_at.unix_nanos && text::comes_before(
                    a.identifier.as_str(),
                    b.identifier.as_str(),
                ))
            },
            Ghost(taken_earlier()),
        );
        let mut history: Vec<String> = Vec::new();
        let mut k: usize = 0;
        while k < rows.len()
            invariant
                k <= rows.len(),
                history@.len() == k,
                forall|j: int| 0 <= j < k ==> (#[trigger] history@[j])@ == rows@[j].identifier@,
            decreases rows.len() - k,
        {
            history.push(rows[k].identifier.clone());
            k = k + 1;
        }
        assert(text::texts(history@) =~= identifiers(rows@));
        history
    }

    /// Shows the issue in `row`.
    pub fn load_issue_value(&self, row: &Issue) -> (value: IssueValue)
        ensures
            self.is_issue_value(*row, value),
    {
        IssueValue {
            issue_id: row.issue_id.clone(),
            organization_id: row.organization_id.clone(),
            identifier: row.identifier.clone(),
            previous_identifiers: self.past_identifiers(row),
            project_id: row.project_id.clone(),
            team_id: row.team_id.clone(),
            title: row.title.clone(),
            description: row.description.clone(),
            priority: row.priority,
            workflow_state_id: row.workflow_state_id.clone(),
            cycle_id: row.cycle_id.clone(),
            milestone_id: row.milestone_id.clone(),
            parent_issue_id: row.parent_issue_id.clone(),
            label_ids: row.label_ids.clone(),
            archived: row.archived,
            revision: text::integer_string(row.revision),
            created_at: row.created_at.text.clone(),
            updated_at: row.updated_at.text.clone(),
        }
    }

    /// Whether the team is one of the project's teams.
    pub fn is_attached(&self, organization: &str, project: &str, team: &str) -> (answer: bool)
        ensures
            answer == self.attached(organization@, project@, team@),
    {
        match self.find_project(organization, project) {
            Some(i) => text::contains_text(&self.projects[i].team_ids, team),
            None => false,
        }
    }

    /// Whether an issue of the team can carry the label.
    pub fn is_usable_label(&self, organization: &str, team: &str, label: &str) -> (answer: bool)
        ensures
            answer == self.usable_label(organization@, team@, label@),
    {
        match self.find_label(organization, label) {
            Some(i) => match &self.labels[i].team_id {
                Some(owner) => text::same(owner.as_str(), team),
                None => true,
            },
            None => false,
        }
    }

    /// The first dependency of an issue that does not hold, if any.
    pub fn issue_dependencies_exist(
        &self,
        organization: &str,
        project: &str,
        team: &str,
        cycle: &Option<String>,
        milestone: &Option<String>,
        parent: &Option<String>,
        labels: &Vec<String>,
    ) -> (refusal: Option<DomainFailure>)
        ensures
            refusal == self.dependency_refusal(
                organization@,
                project@,
                team@,
                text::text_of(*cycle),
                text::text_of(*milestone),
                text::text_of(*parent),
                labels@,
            ),
    {
        if !self.is_attached(organization, project, team) {
            return Some(DomainFailure::TeamNotFound);
        }
        if let Some(cycle) = cycle {
            if self.find_cycle(organization, team, cycle.as_str()).is_none() {
                return Some(DomainFailure::CycleNotFound);
            }
        }
        if let Some(milestone) = milestone {
            if self.find_milestone(organization, project, milestone.as_str()).is_none() {
                return Some(DomainFailure::MilestoneNotFound);
            }
        }
        if let Some(parent) = parent {
            match self.find_issue(organization, parent.as_str()) {
                Some(i) => if !text::same(self.issues[i].project_id.as_str(), project) {
                    return Some(DomainFailure::ParentNotFound);
                },
                None => {
                    return Some(DomainFailure::ParentNotFound);
                },
            }
        }
        if !text::all_distinct(labels) {
            return Some(DomainFailure::LabelNotFound);
        }
        let mut k: usize = 0;
        while k < labels.len()
            invariant
                k <= labels.len(),
                text::distinct(labels@),
                forall|j: int|
                    0 <= j < k ==> self.usable_label(
                        organization@,
                        team@,
                        (#[trigger] labels@[j])@,
                    ),
                self.attached(organization@, project@, team@),
                text::text_of(*cycle) is Some ==> self.cycle_at(
                    organization@,
                    team@,
                    text::text_of(*cycle)->0,
                ) is Some,
                text::text_of(*milestone) is Some ==> self.milestone_at(
                    organization@,
                    project@,
                    text::text_of(*milestone)->0,
                ) is Some,
                text::text_of(*parent) is Some ==> self.issue_in_project(
                    organization@,
                    project@,
                    text::text_of(*parent)->0,
                ),
            decreases labels.len() - k,
        {
            if !self.is_usable_label(organization, team, labels[k].as_str()) {
                assert(!self.usable_label(organization@, team@, labels@[k as int]@));
                return Some(DomainFailure::LabelNotFound);
            }
            k = k + 1;
        }
        None
    }

    /// Why the subject cannot use the teams, if that is so.
    pub fn teams_are_visible(&self, organization: &str, teams: &Vec<String>, subject: &str) -> (refusal:
        Option<DomainFailure>)
        ensures
            refusal == self.teams_refusal(organization@, teams@, subject@),
    {
        if !text::all_distinct(teams) {
            return Some(DomainFailure::TeamNotFound);
        }
        let mut k: usize = 0;
        while k < teams.len()
            invariant
                k <= teams.len(),
                text::distinct(teams@),
                forall|j: int|
                    0 <= j < k ==> self.team_at(organization@, (#[trigger] teams@[j])@) is Some,
            decreases teams.len() - k,
        {
            if self.find_team(organization, teams[k].as_str()).is_none() {
                assert(self.team_at(organization@, teams@[k as int]@) is None);
                return Some(DomainFailure::TeamNotFound);
            }
            k = k + 1;
        }
        if self.is_hidden_among(organization, teams, subject) {
            Some(DomainFailure::PrivateTeam)
        } else {
            None
        }
    }

    /// Where the unarchived workflow state stands that an issue of the team gets.
    pub fn resolve_issue_workflow_state(
        &self,
        organization: &str,
        team: &str,
        requested: &Option<String>,
    ) -> (found: Option<usize>)
        ensures
            table::index_of(found) == self.resolved_state(
                organization@,
                team@,
                text::text_of(*requested),
            ),
            found matches Some(s) ==> s < self.workflow_states.len(),
    {
        match self.find_team(organization, team) {
            Some(t) => {
                let id = match requested {
                    Some(id) => id.as_str(),
                    None => self.teams[t].default_workflow_state_id.as_str(),
                };
                match self.find_team_state(organization, team, id) {
                    Some(s) => if self.workflow_states[s].archived {
                        None
                    } else {
                        Some(s)
                    },
                    None => None,
                }
            },
            None => None,
        }
    }

    /// Whether the parent is a descendant of the issue.
    pub fn parent_would_create_cycle(
        &self,
        organization: &str,
        issue: &str,
        parent: &Option<String>,
    ) -> (answer: bool)
        ensures
            answer == self.would_cycle(organization@, issue@, text::text_of(*parent)),
    {
        let start = match parent {
            Some(parent) => parent.clone(),
            None => {
                return false;
            },
        };
        let mut at = start.clone();
        let mut steps: usize = 0;
        while steps < self.issues.len()
            invariant
                steps <= self.issues.len(),
                text::text_of(*parent) == Some(start@),
                forall|n: nat|
                    #[trigger] self.climbs(organization@, start@, issue@, n) == (if n < steps {
                        self.climbs(organization@, start@, issue@, n)
                    } else {
                        self.climbs(organization@, at@, issue@, (n - steps) as nat)
                    }),
                forall|n: nat|
                    1 <= n <= steps ==> !#[trigger] self.climbs(organization@, start@, issue@, n),
            decreases self.issues.len() - steps,
        {
            match self.find_issue(organization, at.as_str()) {
                Some(i) => match &self.issues[i].parent_issue_id {
                    Some(next) => {
                        if text::same(next.as_str(), issue) {
                            proof {
                                assert(self.climbs(organization@, next@, issue@, 0));
                                assert(self.climbs(organization@, at@, issue@, 1)) by {
                                    reveal_with_fuel(Store::climbs, 2);
                                }
                                self.lemma_arrives(
                                    organization@,
                                    start@,
                                    issue@,
                                    (steps + 1) as nat,
                                );
                            }
                            return true;
                        }
                        proof {
                            let before = at@;
                            assert forall|n: nat| n > steps implies #[trigger] self.climbs(
                                organization@,
                                start@,
                                issue@,
                                n,
                            ) == self.climbs(organization@, next@, issue@, (n - steps - 1) as nat) by {
                                assert(self.climbs(organization@, start@, issue@, n)
                                    == self.climbs(organization@, before, issue@, (n - steps) as nat));
                            }
                            assert(!self.climbs(
                                organization@,
                                start@,
                                issue@,
                                (steps + 1) as nat,
                            ));
                        }
                        at = next.clone();
                    },
                    None => {
                        proof {
                            self.lemma_stuck(organization@, start@, at@, issue@, steps as nat);
                        }
                        return false;
                    },
                },
                None => {
                    proof {
                        self.lemma_stuck(organization@, start@, at@, issue@, steps as nat);
                    }
                    return false;
                },
            }
            steps = steps + 1;
        }
        false
    }

    /// A climb that arrives in time makes a cycle.
    proof fn lemma_arrives(
        self,
        organization: Seq<char>,
        start: Seq<char>,
        issue: Seq<char>,
        steps: nat,
    )
        requires
            1 <= steps <= self.issues@.len(),
            self.climbs(organization, start, issue, steps),
        ensures
            self.is_descendant(organization, start, issue),
    {
        assert(self.arrives(organization, start, issue, steps));
    }

    /// Where the climb stops early, no longer climb arrives.
    proof fn lemma_stuck(
        self,
        organization: Seq<char>,
        start: Seq<char>,
        at: Seq<char>,
        issue: Seq<char>,
        steps: nat,
    )
        requires
            forall|n: nat|
                n >= steps ==> #[trigger] self.climbs(organization, start, issue, n) == self.climbs(
                    organization,
                    at,
                    issue,
                    (n - steps) as nat,
                ),
            forall|n: nat|
                1 <= n <= steps ==> !#[trigger] self.climbs(organization, start, issue, n),
            match self.issue_at(organization, at) {
                Some(i) => self.issues@[i].parent_issue_id is None,
                None => true,
            },
        ensures
            !self.is_descendant(organization, start, issue),
    {
        assert forall|n: nat| 1 <= n <= self.issues@.len() implies !#[trigger] self.arrives(
            organization,
            start,
            issue,
            n,
        ) by {
            if n > steps {
                assert(!self.climbs(organization, at, issue, (n - steps) as nat));
            }
        }
    }
}

} // verus!
