//! The parents of issues never form a cycle.
use crate::failure::StorageError;
use crate::issues;
use crate::laws::history;
use crate::laws::history::{History, Step};
use crate::laws::identifiers;
use crate::model::{Completion, CreateIssueRequest, Issue, IssueValue, UpdateIssueRequest};
use crate::store;
use crate::store::{Invocation, Store};
use crate::table;
use crate::text;
use crate::validate;
use vstd::prelude::*;

verus! {

/// The parent of an issue, if there is such an issue and it has one.
pub open spec fn parent(s: Store, organization: Seq<char>, issue: Seq<char>) -> Option<Seq<char>> {
    match s.issue_at(organization, issue) {
        Some(i) => text::text_of(s.issues@[i].parent_issue_id),
        None => None,
    }
}

/// The ancestor so many steps above an issue.
pub open spec fn ancestor(s: Store, organization: Seq<char>, issue: Seq<char>, steps: nat) -> Option<
    Seq<char>,
>
    decreases steps,
{
    if steps == 0 {
        Some(issue)
    } else {
        match parent(s, organization, issue) {
            Some(above) => ancestor(s, organization, above, (steps - 1) as nat),
            None => None,
        }
    }
}

/// Whether no issue of the organization is its own ancestor.
pub open spec fn acyclic(s: Store, organization: Seq<char>) -> bool {
    forall|issue: Seq<char>, steps: nat|
        steps >= 1 ==> #[trigger] ancestor(s, organization, issue, steps) != Some(issue)
}

/// Whether the parent of every issue of the organization exists.
pub open spec fn parents_exist(s: Store, organization: Seq<char>) -> bool {
    forall|issue: Seq<char>|
        (#[trigger] parent(s, organization, issue)) is Some ==> s.issue_at(
            organization,
            parent(s, organization, issue)->0,
        ) is Some
}

/// Climbing is following ancestors.
pub proof fn lemma_climbs_is_ancestor(
    s: Store,
    organization: Seq<char>,
    from: Seq<char>,
    to: Seq<char>,
    steps: nat,
)
    ensures
        s.climbs(organization, from, to, steps) <==> ancestor(s, organization, from, steps) == Some(
            to,
        ),
    decreases steps,
{
    if steps > 0 {
        if let Some(above) = parent(s, organization, from) {
            lemma_climbs_is_ancestor(s, organization, above, to, (steps - 1) as nat);
        }
    }
}

/// Going up in two legs is going up in one.
proof fn lemma_legs(s: Store, organization: Seq<char>, from: Seq<char>, first: nat, second: nat)
    requires
        ancestor(s, organization, from, first) is Some,
    ensures
        ancestor(s, organization, from, first + second) == ancestor(
            s,
            organization,
            ancestor(s, organization, from, first)->0,
            second,
        ),
    decreases first,
{
    if first > 0 {
        let above = parent(s, organization, from)->0;
        lemma_legs(s, organization, above, (first - 1) as nat, second);
        assert((first - 1) as nat + second == (first + second - 1) as nat);
    }
}

/// Whoever is reached in more steps passes every stage before.
proof fn lemma_stage(s: Store, organization: Seq<char>, from: Seq<char>, stage: nat, steps: nat)
    requires
        stage <= steps,
        ancestor(s, organization, from, steps) is Some,
    ensures
        ancestor(s, organization, from, stage) is Some,
    decreases stage,
{
    if stage > 0 {
        let above = parent(s, organization, from)->0;
        lemma_stage(s, organization, above, (stage - 1) as nat, (steps - 1) as nat);
    }
}

/// In an acyclic hierarchy a path has at most as many steps as there are issues.
proof fn lemma_path_bound(s: Store, organization: Seq<char>, from: Seq<char>, to: Seq<char>, steps: nat)
    requires
        acyclic(s, organization),
        ancestor(s, organization, from, steps) == Some(to),
    ensures
        steps <= s.issues@.len(),
{
    let places = Seq::new(
        steps,
        |k: int| s.issue_at(organization, ancestor(s, organization, from, k as nat)->0)->0,
    );
    assert forall|k: int| 0 <= k < steps implies ({
        let id = ancestor(s, organization, from, k as nat)->0;
        &&& 0 <= #[trigger] places[k] < s.issues@.len()
        &&& s.issues@[places[k]].issue_id@ == id
    }) by {
        lemma_stage(s, organization, from, k as nat, steps);
        lemma_stage(s, organization, from, (k + 1) as nat, steps);
        let id = ancestor(s, organization, from, k as nat)->0;
        lemma_legs(s, organization, from, k as nat, 1);
        assert(ancestor(s, organization, id, 1) is Some);
        assert(parent(s, organization, id) is Some);
        table::lemma_first_where(s.issues@, store::is_issue(organization, id));
    }
    assert(places.no_duplicates()) by {
        assert forall|a: int, b: int| 0 <= a < b < steps implies places[a] != places[b] by {
            if places[a] == places[b] {
                lemma_stage(s, organization, from, a as nat, steps);
                lemma_stage(s, organization, from, b as nat, steps);
                let id = ancestor(s, organization, from, a as nat)->0;
                lemma_legs(s, organization, from, a as nat, (b - a) as nat);
                assert(a as nat + (b - a) as nat == b as nat);
                assert(ancestor(s, organization, id, (b - a) as nat) == Some(id));
            }
        }
    }
    places.unique_seq_to_set();
    let all = vstd::set_lib::set_int_range(0, s.issues@.len() as int);
    vstd::set_lib::lemma_int_range(0, s.issues@.len() as int);
    assert(places.to_set().subset_of(all)) by {
        assert forall|p: int| places.to_set().contains(p) implies all.contains(p) by {
            let k = choose|k: int| 0 <= k < places.len() && places[k] == p;
            assert(places[k] == p);
        }
    }
    vstd::set_lib::lemma_len_subset(places.to_set(), all);
}

/// A path that never leaves from a changed issue is the same before and after.
proof fn lemma_same_path(
    before: Store,
    after: Store,
    organization: Seq<char>,
    changed: Seq<char>,
    from: Seq<char>,
    steps: nat,
)
    requires
        forall|id: Seq<char>|
            id != changed ==> #[trigger] parent(after, organization, id) == parent(
                before,
                organization,
                id,
            ),
        forall|k: nat|
            k < steps ==> #[trigger] ancestor(after, organization, from, k) != Some(changed),
    ensures
        ancestor(before, organization, from, steps) == ancestor(after, organization, from, steps),
    decreases steps,
{
    if steps > 0 {
        assert(ancestor(after, organization, from, 0) != Some(changed));
        assert(parent(after, organization, from) == parent(before, organization, from));
        if let Some(above) = parent(after, organization, from) {
            assert forall|k: nat| k < (steps - 1) as nat implies #[trigger] ancestor(
                after,
                organization,
                above,
                k,
            ) != Some(changed) by {
                assert(ancestor(after, organization, from, k + 1) == ancestor(
                    after,
                    organization,
                    above,
                    k,
                ));
            }
            lemma_same_path(before, after, organization, changed, above, (steps - 1) as nat);
        }
    }
}

/// The least number of steps, from one on, in which an issue comes back to itself.
proof fn lemma_least_return(s: Store, organization: Seq<char>, issue: Seq<char>, steps: nat) -> (least:
    nat)
    requires
        steps >= 1,
        ancestor(s, organization, issue, steps) == Some(issue),
    ensures
        1 <= least <= steps,
        ancestor(s, organization, issue, least) == Some(issue),
        forall|k: nat|
            1 <= k < least ==> #[trigger] ancestor(s, organization, issue, k) != Some(issue),
    decreases steps,
{
    if exists|k: nat| 1 <= k < steps && #[trigger] ancestor(s, organization, issue, k) == Some(issue) {
        let k = choose|k: nat|
            1 <= k < steps && #[trigger] ancestor(s, organization, issue, k) == Some(issue);
        lemma_least_return(s, organization, issue, k)
    } else {
        steps
    }
}

/// Where only one issue gets another parent, and that parent is neither the issue itself nor one of
/// its descendants, no cycle comes about.
proof fn lemma_one_parent_changes(
    before: Store,
    after: Store,
    organization: Seq<char>,
    changed: Seq<char>,
)
    requires
        acyclic(before, organization),
        forall|id: Seq<char>|
            id != changed ==> #[trigger] parent(after, organization, id) == parent(
                before,
                organization,
                id,
            ),
        parent(after, organization, changed) != Some(changed),
        !before.would_cycle(organization, changed, parent(after, organization, changed)),
    ensures
        acyclic(after, organization),
{
    assert forall|issue: Seq<char>, steps: nat| steps >= 1 implies #[trigger] ancestor(
        after,
        organization,
        issue,
        steps,
    ) != Some(issue) by {
        if ancestor(after, organization, issue, steps) == Some(issue) {
            if exists|k: nat|
                k < steps && #[trigger] ancestor(after, organization, issue, k) == Some(changed) {
                let k = choose|k: nat|
                    k < steps && #[trigger] ancestor(after, organization, issue, k) == Some(changed);
                // The cycle passes the changed issue: start it there.
                lemma_legs(after, organization, issue, k, (steps - k) as nat);
                assert(k + (steps - k) as nat == steps);
                lemma_legs(after, organization, changed, (steps - k) as nat, k);
                assert(ancestor(after, organization, changed, (steps - k) as nat + k) == Some(
                    changed,
                ));
                let least = lemma_least_return(
                    after,
                    organization,
                    changed,
                    (steps - k) as nat + k,
                );
                let above = parent(after, organization, changed)->0;
                let rest = (least - 1) as nat;
                assert(ancestor(after, organization, above, rest) == Some(changed));
                assert forall|j: nat| j < rest implies #[trigger] ancestor(
                    after,
                    organization,
                    above,
                    j,
                ) != Some(changed) by {
                    assert(ancestor(after, organization, changed, j + 1) == ancestor(
                        after,
                        organization,
                        above,
                        j,
                    ));
                }
                lemma_same_path(before, after, organization, changed, above, rest);
                assert(rest >= 1);
                lemma_path_bound(before, organization, above, changed, rest);
                lemma_climbs_is_ancestor(before, organization, above, changed, rest);
                assert(before.arrives(organization, above, changed, rest));
                assert(before.is_descendant(organization, above, changed));
            } else {
                lemma_same_path(before, after, organization, changed, issue, steps);
                assert(ancestor(before, organization, issue, steps) == Some(issue));
            }
        }
    }
}

/// Updating an issue never closes a cycle of parents, and its parent exists, unless the request makes
/// the issue its own parent.
pub proof fn law_update_keeps_parents_acyclic(
    before: Store,
    after: Store,
    call: Invocation,
    r: UpdateIssueRequest,
    value: IssueValue,
)
    requires
        acyclic(before, r.organization_id@),
        parents_exist(before, r.organization_id@),
        text::text_of(r.parent_issue_id) != Some(r.issue_id@),
        issues::update_issue_outcome(
            before,
            after,
            call,
            r,
            Ok::<Completion<IssueValue>, StorageError>(Completion::Fresh(value)),
        ),
    ensures
        acyclic(after, r.organization_id@),
        parents_exist(after, r.organization_id@),
{
    let organization = r.organization_id@;
    let i = before.issue_at(organization, r.issue_id@)->0;
    table::lemma_first_where(before.issues@, store::is_issue(organization, r.issue_id@));
    assert forall|id: Seq<char>| #[trigger] after.issue_at(organization, id) == before.issue_at(
        organization,
        id,
    ) by {
        table::lemma_first_update(
            before.issues@,
            store::is_issue(organization, id),
            i,
            after.issues@[i],
        );
    }
    assert forall|id: Seq<char>| id != r.issue_id@ implies #[trigger] parent(after, organization, id)
        == parent(before, organization, id) by {
        table::lemma_first_where(before.issues@, store::is_issue(organization, id));
        assert(after.issue_at(organization, id) == before.issue_at(organization, id));
    }
    assert(after.issue_at(organization, r.issue_id@) == Some(i));
    assert(parent(after, organization, r.issue_id@) == text::text_of(r.parent_issue_id));
    lemma_one_parent_changes(before, after, organization, r.issue_id@);
    assert forall|id: Seq<char>| (#[trigger] parent(after, organization, id))
        is Some implies after.issue_at(organization, parent(after, organization, id)->0) is Some by {
        let above = parent(after, organization, id)->0;
        assert(after.issue_at(organization, above) == before.issue_at(organization, above));
        if id == r.issue_id@ {
            assert(before.issue_in_project(
                organization,
                before.issues@[i].project_id@,
                above,
            ));
        } else {
            assert(parent(before, organization, id) is Some);
        }
    }
}

/// Creating an issue never closes a cycle of parents, and its parent exists.
pub proof fn law_creation_keeps_parents_acyclic(
    before: Store,
    after: Store,
    call: Invocation,
    r: CreateIssueRequest,
    value: IssueValue,
)
    requires
        acyclic(before, r.organization_id@),
        parents_exist(before, r.organization_id@),
        identifiers::created(before, after, call, r, value),
    ensures
        acyclic(after, r.organization_id@),
        parents_exist(after, r.organization_id@),
{
    let organization = r.organization_id@;
    let new = r.issue_id@;
    let by_new = store::is_issue(organization, new);
    table::lemma_first_where(before.issues@, by_new);
    assert(before.issue_at(organization, new) is None) by {
        if let Some(i) = before.issue_at(organization, new) {
            assert(store::has_issue_id(new)(before.issues@[i]));
        }
    }
    assert(by_new(after.issues@.last()));
    assert(parent(after, organization, new) == text::text_of(r.parent_issue_id));
    assert forall|id: Seq<char>| id != new implies #[trigger] parent(after, organization, id)
        == parent(before, organization, id) && after.issue_at(organization, id) == before.issue_at(
        organization,
        id,
    ) by {
        let keep = store::is_issue(organization, id);
        table::lemma_first_where(before.issues@, keep);
        assert(!keep(after.issues@.last()));
        if let Some(i) = before.issue_at(organization, id) {
            assert(after.issues@.drop_last()[i] == after.issues@[i]);
        }
    }
    if let Some(above) = r.parent_issue_id {
        assert(before.issue_in_project(organization, r.project_id@, above@));
        assert(before.issue_at(organization, above@) is Some);
        // Nobody's ancestor was the new issue before there was one.
        assert(!before.is_descendant(organization, above@, new)) by {
            if before.is_descendant(organization, above@, new) {
                let steps = choose|steps: nat|
                    1 <= steps <= before.issues@.len() && #[trigger] before.arrives(
                        organization,
                        above@,
                        new,
                        steps,
                    );
                lemma_climbs_is_ancestor(before, organization, above@, new, steps);
                lemma_stage(before, organization, above@, (steps - 1) as nat, steps);
                lemma_legs(before, organization, above@, (steps - 1) as nat, 1);
                let last = ancestor(before, organization, above@, (steps - 1) as nat)->0;
                assert((steps - 1) as nat + 1 == steps);
                assert(ancestor(before, organization, last, 1) == Some(new));
                assert(ancestor(before, organization, new, 0) == Some(new));
                assert(parent(before, organization, last) == Some(new)) by {
                    let next = parent(before, organization, last)->0;
                    assert(ancestor(before, organization, next, 0) == Some(next));
                }
            }
        }
    }
    lemma_one_parent_changes(before, after, organization, new);
    assert forall|issue: Seq<char>| (#[trigger] parent(after, organization, issue))
        is Some implies after.issue_at(organization, parent(after, organization, issue)->0)
        is Some by {
        let above = parent(after, organization, issue)->0;
        if issue != new {
            assert(parent(before, organization, issue) is Some);
        }
        if above != new {
            assert(parent(after, organization, above) == parent(before, organization, above));
        }
    }
}

/// Whether the issues of the organization are the same, with the same parents.
pub open spec fn parents_kept(before: Store, after: Store, organization: Seq<char>) -> bool {
    &&& before.issues@.len() <= after.issues@.len()
    &&& forall|i: int|
        0 <= i < before.issues@.len() ==> same_parent(
            before.issues@[i],
            #[trigger] after.issues@[i],
            organization,
        )
    &&& forall|i: int|
        before.issues@.len() <= i < after.issues@.len() ==> (
        #[trigger] after.issues@[i]).organization_id@ != organization
}

/// Whether both rows are the same issue, with the same parent where it is one of the organization.
pub open spec fn same_parent(a: Issue, b: Issue, organization: Seq<char>) -> bool {
    &&& b.organization_id@ == a.organization_id@
    &&& b.issue_id@ == a.issue_id@
    &&& a.organization_id@ == organization ==> text::text_of(b.parent_issue_id) == text::text_of(
        a.parent_issue_id,
    )
}

proof fn lemma_same_ancestor(
    before: Store,
    after: Store,
    organization: Seq<char>,
    issue: Seq<char>,
    steps: nat,
)
    requires
        forall|id: Seq<char>|
            #[trigger] parent(after, organization, id) == parent(before, organization, id),
    ensures
        ancestor(after, organization, issue, steps) == ancestor(before, organization, issue, steps),
    decreases steps,
{
    if steps > 0 {
        assert(parent(after, organization, issue) == parent(before, organization, issue));
        if let Some(above) = parent(before, organization, issue) {
            lemma_same_ancestor(before, after, organization, above, (steps - 1) as nat);
        }
    }
}

proof fn lemma_kept_parents_stay_acyclic(before: Store, after: Store, organization: Seq<char>)
    requires
        acyclic(before, organization),
        parents_exist(before, organization),
        parents_kept(before, after, organization),
    ensures
        acyclic(after, organization),
        parents_exist(after, organization),
{
    assert forall|id: Seq<char>| #[trigger] after.issue_at(organization, id) == before.issue_at(
        organization,
        id,
    ) by {
        let keep = store::is_issue(organization, id);
        assert forall|i: int| 0 <= i < before.issues@.len() implies keep(#[trigger] after.issues@[i])
            == keep(before.issues@[i]) by {
            assert(same_parent(before.issues@[i], after.issues@[i], organization));
        }
        table::lemma_search_goes_on(before.issues@, after.issues@, keep);
    }
    assert forall|id: Seq<char>| #[trigger] parent(after, organization, id) == parent(
        before,
        organization,
        id,
    ) by {
        assert(after.issue_at(organization, id) == before.issue_at(organization, id));
        table::lemma_first_where(before.issues@, store::is_issue(organization, id));
        if let Some(i) = before.issue_at(organization, id) {
            assert(same_parent(before.issues@[i], after.issues@[i], organization));
        }
    }
    assert forall|issue: Seq<char>, steps: nat| steps >= 1 implies #[trigger] ancestor(
        after,
        organization,
        issue,
        steps,
    ) != Some(issue) by {
        lemma_same_ancestor(before, after, organization, issue, steps);
        assert(ancestor(before, organization, issue, steps) != Some(issue));
    }
    assert forall|id: Seq<char>| (#[trigger] parent(after, organization, id))
        is Some implies after.issue_at(organization, parent(after, organization, id)->0) is Some by {
        assert(parent(before, organization, id) is Some);
        let above = parent(after, organization, id)->0;
        assert(after.issue_at(organization, above) == before.issue_at(organization, above));
    }
}

/// Whether the operation does not make an issue its own parent.
pub open spec fn names_another_parent(step: Step) -> bool {
    step matches Step::UpdateIssue { r, .. } ==> text::text_of(r.parent_issue_id) != Some(
        r.issue_id@,
    )
}

/// A request to update an issue that is valid does not make the issue its own parent.
pub proof fn law_valid_update_names_another_parent(r: UpdateIssueRequest)
    requires
        validate::is_issue_update(r),
    ensures
        text::text_of(r.parent_issue_id) != Some(r.issue_id@),
{
}

/// No operation closes a cycle of parents or leaves an issue with a parent that does not exist, unless
/// it makes an issue its own parent.
#[verifier::spinoff_prover]
#[verifier::rlimit(60)]
pub proof fn law_every_operation_keeps_parents_acyclic(
    before: Store,
    after: Store,
    step: Step,
    organization: Seq<char>,
)
    requires
        acyclic(before, organization),
        parents_exist(before, organization),
        history::takes(before, after, step),
        names_another_parent(step),
    ensures
        acyclic(after, organization),
        parents_exist(after, organization),
{
    match step {
        Step::CreateIssue { call, r, result } => {
            if let Ok(Completion::Fresh(value)) = result {
                if r.organization_id@ == organization {
                    law_creation_keeps_parents_acyclic(before, after, call, r, value);
                } else {
                    table::lemma_appended(before.issues@, after.issues@);
                    lemma_kept_parents_stay_acyclic(before, after, organization);
                }
            }
        },
        Step::UpdateIssue { call, r, result } => {
            if let Ok(Completion::Fresh(value)) = result {
                if r.organization_id@ == organization {
                    law_update_keeps_parents_acyclic(before, after, call, r, value);
                } else {
                    table::lemma_first_where(
                        before.issues@,
                        store::is_issue(r.organization_id@, r.issue_id@),
                    );
                    lemma_kept_parents_stay_acyclic(before, after, organization);
                }
            }
        },
        Step::MoveIssue { r, .. } => {
            table::lemma_first_where(
                before.issues@,
                store::is_issue(r.organization_id@, r.issue_id@),
            );
            lemma_kept_parents_stay_acyclic(before, after, organization);
        },
        Step::ArchiveIssue { r, .. } => {
            table::lemma_first_where(
                before.issues@,
                store::is_issue(r.organization_id@, r.issue_id@),
            );
            lemma_kept_parents_stay_acyclic(before, after, organization);
        },
        Step::SetIssueAssignee { r, .. } => {
            table::lemma_first_where(
                before.issues@,
                store::is_issue(r.organization_id@, r.issue_id@),
            );
            lemma_kept_parents_stay_acyclic(before, after, organization);
        },
        _ => lemma_kept_parents_stay_acyclic(before, after, organization),
    }
}

/// An empty store has no parents at all.
pub proof fn law_empty_store_is_acyclic(s: Store, organization: Seq<char>)
    requires
        s.issues@.len() == 0,
    ensures
        acyclic(s, organization),
        parents_exist(s, organization),
{
    assert forall|id: Seq<char>| (#[trigger] parent(s, organization, id)) is None by {
        table::lemma_first_where(s.issues@, store::is_issue(organization, id));
    }
    assert forall|issue: Seq<char>, steps: nat| steps >= 1 implies #[trigger] ancestor(
        s,
        organization,
        issue,
        steps,
    ) != Some(issue) by {
        assert(parent(s, organization, issue) is None);
    }
}

/// Over any operations from an empty store, none of which makes an issue its own parent, parents never
/// form a cycle and always exist.
pub proof fn law_parents_are_always_acyclic(history: History, k: int, organization: Seq<char>)
    requires
        history.starts_empty(),
        forall|i: int|
            0 <= i < history.steps.len() ==> names_another_parent(#[trigger] history.steps[i]),
        0 <= k < history.stores.len(),
    ensures
        acyclic(history.stores[k], organization),
        parents_exist(history.stores[k], organization),
    decreases k,
{
    if k == 0 {
        law_empty_store_is_acyclic(history.stores[0], organization);
    } else {
        law_parents_are_always_acyclic(history, k - 1, organization);
        assert(history.steps_on(k - 1));
        assert(names_another_parent(history.steps[k - 1]));
        law_every_operation_keeps_parents_acyclic(
            history.stores[k - 1],
            history.stores[k],
            history.steps[k - 1],
            organization,
        );
    }
}

} // verus!
