//! Pages of a listing follow each other without a gap or a repetition, and what a listing gives can
//! be handed back to it.
use crate::activity;
use crate::collaboration;
use crate::failure::StorageError;
use crate::issue_pages;
use crate::issues;
use crate::model::{
    ActivityValue, CommentValue, IssueValue, ListActivityRequest, ListCommentsRequest,
    ListIssuesRequest, ListProjectsRequest, ProjectValue,
};
use crate::projects;
use crate::store;
use crate::store::Store;
use crate::table;
use crate::table::Page;
use crate::text;
use crate::validate;
use vstd::prelude::*;

verus! {

/// Whether the rows stand under strictly ascending sequence numbers.
pub open spec fn ascending<T>(rows: Seq<T>, seq_of: spec_fn(T) -> int) -> bool {
    forall|i: int, j: int|
        0 <= i < j < rows.len() ==> seq_of(#[trigger] rows[i]) < seq_of(#[trigger] rows[j])
}

/// A found row is one of the rows, and satisfies the search.
pub proof fn lemma_found<T>(rows: Seq<T>, keep: spec_fn(T) -> bool, i: int) -> (k: int)
    requires
        0 <= i < rows.filter(keep).len(),
    ensures
        0 <= k < rows.len(),
        rows[k] == rows.filter(keep)[i],
        keep(rows[k]),
{
    let found = rows.filter(keep);
    rows.lemma_filter_pred(keep, i);
    assert(found.contains(found[i]));
    rows.lemma_filter_contains_rev(keep, found[i]);
    choose|k: int| 0 <= k < rows.len() && rows[k] == found[i]
}

/// What is found among ascending rows is ascending.
pub proof fn lemma_filter_ascends<T>(rows: Seq<T>, keep: spec_fn(T) -> bool, seq_of: spec_fn(T) -> int)
    requires
        ascending(rows, seq_of),
    ensures
        ascending(rows.filter(keep), seq_of),
    decreases rows.len(),
{
    reveal(Seq::filter);
    if rows.len() > 0 {
        let front = rows.drop_last();
        assert forall|i: int, j: int| 0 <= i < j < front.len() implies seq_of(#[trigger] front[i])
            < seq_of(#[trigger] front[j]) by {
            assert(front[i] == rows[i] && front[j] == rows[j]);
        }
        lemma_filter_ascends(front, keep, seq_of);
        let found = front.filter(keep);
        assert forall|i: int| 0 <= i < found.len() implies seq_of(#[trigger] found[i]) < seq_of(
            rows.last(),
        ) by {
            let k = lemma_found(front, keep, i);
            assert(rows[k] == front[k]);
            assert(rows[rows.len() - 1] == rows.last());
        }
        let whole = rows.filter(keep);
        assert forall|i: int, j: int| 0 <= i < j < whole.len() implies seq_of(#[trigger] whole[i])
            < seq_of(#[trigger] whole[j]) by {
            if keep(rows.last()) {
                assert(whole == found.push(rows.last()));
                assert(whole[i] == found[i]);
                if j < found.len() {
                    assert(whole[j] == found[j]);
                }
            }
        }
    }
}

/// A search that every row satisfies finds all of them.
proof fn lemma_filter_all<T>(rows: Seq<T>, keep: spec_fn(T) -> bool)
    requires
        forall|i: int| 0 <= i < rows.len() ==> keep(#[trigger] rows[i]),
    ensures
        rows.filter(keep) == rows,
    decreases rows.len(),
{
    reveal(Seq::filter);
    if rows.len() > 0 {
        let front = rows.drop_last();
        assert forall|i: int| 0 <= i < front.len() implies keep(#[trigger] front[i]) by {
            assert(front[i] == rows[i]);
        }
        lemma_filter_all(front, keep);
        assert(keep(rows[rows.len() - 1]));
        assert(front.push(rows.last()) =~= rows);
    } else {
        assert(rows.filter(keep) =~= rows);
    }
}

/// A search that no row satisfies finds nothing.
proof fn lemma_filter_none<T>(rows: Seq<T>, keep: spec_fn(T) -> bool)
    requires
        forall|i: int| 0 <= i < rows.len() ==> !keep(#[trigger] rows[i]),
    ensures
        rows.filter(keep) == Seq::<T>::empty(),
    decreases rows.len(),
{
    reveal(Seq::filter);
    if rows.len() > 0 {
        let front = rows.drop_last();
        assert forall|i: int| 0 <= i < front.len() implies !keep(#[trigger] front[i]) by {
            assert(front[i] == rows[i]);
        }
        lemma_filter_none(front, keep);
        assert(!keep(rows[rows.len() - 1]));
    }
}

/// A narrower search finds the same among the rows and among what a wider one found.
proof fn lemma_filter_narrower<T>(rows: Seq<T>, wide: spec_fn(T) -> bool, narrow: spec_fn(T) -> bool)
    requires
        forall|row: T| #[trigger] narrow(row) ==> wide(row),
    ensures
        rows.filter(narrow) == rows.filter(wide).filter(narrow),
    decreases rows.len(),
{
    reveal(Seq::filter);
    if rows.len() > 0 {
        let front = rows.drop_last();
        lemma_filter_narrower(front, wide, narrow);
        if wide(rows.last()) {
            let found = front.filter(wide);
            assert(found.push(rows.last()).drop_last() =~= found);
        } else {
            assert(!narrow(rows.last()));
        }
    }
}

/// Picks the rows that satisfy a search and stand after a position.
pub open spec fn after_position<T>(
    cond: spec_fn(T) -> bool,
    seq_of: spec_fn(T) -> int,
    after: int,
) -> spec_fn(T) -> bool {
    |row: T| cond(row) && seq_of(row) > after
}

/// The page after a full one starts exactly where that one ended: together they are what one longer
/// page would hold.
pub proof fn law_next_page_continues<T>(
    rows: Seq<T>,
    cond: spec_fn(T) -> bool,
    seq_of: spec_fn(T) -> int,
    after: int,
    limit: int,
)
    requires
        ascending(rows, seq_of),
        0 < limit <= rows.filter(after_position(cond, seq_of, after)).len(),
    ensures
        ({
            let found = rows.filter(after_position(cond, seq_of, after));
            rows.filter(after_position(cond, seq_of, seq_of(found[limit - 1]))) == found.skip(limit)
        }),
{
    let wide = after_position(cond, seq_of, after);
    let found = rows.filter(wide);
    let last = seq_of(found[limit - 1]);
    let narrow = after_position(cond, seq_of, last);
    let k = lemma_found(rows, wide, limit - 1);
    lemma_filter_narrower(rows, wide, narrow);
    lemma_filter_ascends(rows, wide, seq_of);
    let front = found.take(limit);
    let back = found.skip(limit);
    assert(front + back =~= found);
    Seq::filter_distributes_over_add(front, back, narrow);
    assert forall|i: int| 0 <= i < front.len() implies !narrow(#[trigger] front[i]) by {
        assert(front[i] == found[i]);
        if i < limit - 1 {
            assert(seq_of(found[i]) < seq_of(found[limit - 1]));
        }
    }
    lemma_filter_none(front, narrow);
    assert forall|i: int| 0 <= i < back.len() implies narrow(#[trigger] back[i]) by {
        assert(back[i] == found[limit + i]);
        assert(seq_of(found[limit - 1]) < seq_of(found[limit + i]));
        let at = lemma_found(rows, wide, limit + i);
    }
    lemma_filter_all(back, narrow);
    assert(Seq::<T>::empty() + back =~= back);
}

/// The decimal digits of a number stand for that number.
pub proof fn lemma_decimal_value(n: nat)
    ensures
        text::decimal(n).len() > 0,
        text::digits_value(text::decimal(n)) == n,
        forall|i: int|
            0 <= i < text::decimal(n).len() ==> text::is_digit(#[trigger] text::decimal(n)[i]),
    decreases n,
{
    if n < 10 {
        let one = seq![text::digit(n as int)];
        assert(one.drop_last() =~= Seq::<char>::empty());
        assert(text::digits_value(Seq::<char>::empty()) == 0);
        assert(one.last() as int - '0' as int == n);
    } else {
        lemma_decimal_value(n / 10);
        let front = text::decimal(n / 10);
        let digit = text::digit((n % 10) as int);
        assert(front.push(digit).drop_last() =~= front);
        assert(digit as int - '0' as int == n % 10);
    }
}

/// A revision that an operation gives can be handed back as the expected one: it is read as the same
/// number.
pub proof fn law_revision_reads_back(revision: int)
    requires
        1 <= revision <= i64::MAX,
    ensures
        validate::revision_value(text::integer_text(revision)) == Some(revision),
{
    lemma_decimal_value(revision as nat);
    let digits = text::decimal(revision as nat);
    assert(text::is_digit(digits[0]));
    assert(validate::unsigned_part(digits) == digits);
}

/// Whether two issue listings differ at most in where they start.
pub open spec fn same_issue_search(a: ListIssuesRequest, b: ListIssuesRequest) -> bool {
    &&& a.organization_id@ == b.organization_id@
    &&& text::text_of(a.project_id) == text::text_of(b.project_id)
    &&& text::text_of(a.team_id) == text::text_of(b.team_id)
    &&& text::text_of(a.workflow_state_id) == text::text_of(b.workflow_state_id)
    &&& a.include_archived == b.include_archived
}

/// Reading on from the cursor of a page of issues shows exactly what follows that page.
pub proof fn law_issue_pages_continue(
    s: Store,
    actor: Seq<char>,
    r: ListIssuesRequest,
    page: Page<IssueValue>,
    next: ListIssuesRequest,
)
    requires
        ascending(s.issues@, issues::issue_seq()),
        issues::list_issues_outcome(s, actor, r, Ok::<Page<IssueValue>, StorageError>(page)),
        page.next_cursor is Some,
        same_issue_search(r, next),
        text::text_of(next.after) == text::text_of(page.next_cursor),
    ensures
        ({
            let after = validate::cursor_value(text::text_of(r.after))->0;
            let found = s.issues@.filter(issues::is_listed_issue(s, actor, r, after));
            &&& validate::cursor_value(text::text_of(next.after)) is Some
            &&& s.issues@.filter(
                issues::is_listed_issue(
                    s,
                    actor,
                    next,
                    validate::cursor_value(text::text_of(next.after))->0,
                ),
            ) == found.skip(r.limit as int)
        }),
{
    let after = validate::cursor_value(text::text_of(r.after))->0;
    let keep = issues::is_listed_issue(s, actor, r, after);
    let found = s.issues@.filter(keep);
    let last = found[r.limit - 1].row_seq as int;
    let k = lemma_found(s.issues@, keep, r.limit - 1);
    law_revision_reads_back(last);
    let cond = issues::is_listed_issue(s, actor, r, i64::MIN - 1);
    assert(keep =~= after_position(cond, issues::issue_seq(), after));
    law_next_page_continues(s.issues@, cond, issues::issue_seq(), after, r.limit as int);
    assert(issues::is_listed_issue(s, actor, next, last) =~= after_position(
        cond,
        issues::issue_seq(),
        last,
    ));
}

/// Reading on from the cursor of a page of projects shows exactly what follows that page.
pub proof fn law_project_pages_continue(
    s: Store,
    actor: Seq<char>,
    r: ListProjectsRequest,
    page: Page<ProjectValue>,
    next: ListProjectsRequest,
)
    requires
        ascending(s.projects@, projects::project_seq()),
        projects::list_projects_outcome(s, actor, r, Ok::<Page<ProjectValue>, StorageError>(page)),
        page.next_cursor is Some,
        r.organization_id@ == next.organization_id@,
        text::text_of(r.team_id) == text::text_of(next.team_id),
        r.include_archived == next.include_archived,
        text::text_of(next.after) == text::text_of(page.next_cursor),
    ensures
        ({
            let after = validate::cursor_value(text::text_of(r.after))->0;
            let found = s.projects@.filter(projects::is_listed_project(s, actor, r, after));
            &&& validate::cursor_value(text::text_of(next.after)) is Some
            &&& s.projects@.filter(
                projects::is_listed_project(
                    s,
                    actor,
                    next,
                    validate::cursor_value(text::text_of(next.after))->0,
                ),
            ) == found.skip(r.limit as int)
        }),
{
    let after = validate::cursor_value(text::text_of(r.after))->0;
    let keep = projects::is_listed_project(s, actor, r, after);
    let found = s.projects@.filter(keep);
    let last = found[r.limit - 1].row_seq as int;
    let k = lemma_found(s.projects@, keep, r.limit - 1);
    law_revision_reads_back(last);
    let cond = projects::is_listed_project(s, actor, r, i64::MIN - 1);
    assert(keep =~= after_position(cond, projects::project_seq(), after));
    law_next_page_continues(s.projects@, cond, projects::project_seq(), after, r.limit as int);
    assert(projects::is_listed_project(s, actor, next, last) =~= after_position(
        cond,
        projects::project_seq(),
        last,
    ));
}

/// Reading on from the checkpoint of a page of activity shows exactly what follows that page, as
/// long as nothing changed: so a consumer that checkpoints every page sees every record once.
pub proof fn law_activity_pages_continue(
    s: Store,
    actor: Seq<char>,
    r: ListActivityRequest,
    page: Page<ActivityValue>,
    next: ListActivityRequest,
)
    requires
        ascending(s.activity@, activity::activity_seq()),
        activity::list_activity_outcome(s, actor, r, Ok::<Page<ActivityValue>, StorageError>(page)),
        page.items@.len() > 0,
        r.organization_id@ == next.organization_id@,
        text::text_of(r.project_id) == text::text_of(next.project_id),
        text::text_of(r.issue_id) == text::text_of(next.issue_id),
        text::text_of(next.after) == text::text_of(page.next_cursor),
    ensures
        ({
            let after = validate::cursor_value(text::text_of(r.after))->0;
            let found = s.activity@.filter(activity::is_listed_activity(s, actor, r, after));
            &&& validate::cursor_value(text::text_of(next.after)) is Some
            &&& s.activity@.filter(
                activity::is_listed_activity(
                    s,
                    actor,
                    next,
                    validate::cursor_value(text::text_of(next.after))->0,
                ),
            ) == found.skip(page.items@.len() as int)
        }),
{
    let after = validate::cursor_value(text::text_of(r.after))->0;
    let keep = activity::is_listed_activity(s, actor, r, after);
    let found = s.activity@.filter(keep);
    let shown = page.items@.len() as int;
    let last = found[shown - 1].activity_id as int;
    let k = lemma_found(s.activity@, keep, shown - 1);
    law_revision_reads_back(last);
    let cond = activity::is_listed_activity(s, actor, r, i64::MIN - 1);
    assert(keep =~= after_position(cond, activity::activity_seq(), after));
    law_next_page_continues(s.activity@, cond, activity::activity_seq(), after, shown);
    assert(activity::is_listed_activity(s, actor, next, last) =~= after_position(
        cond,
        activity::activity_seq(),
        last,
    ));
}

/// Reading on from the cursor of a page of comments shows exactly what follows that page.
pub proof fn law_comment_pages_continue(
    s: Store,
    actor: Seq<char>,
    r: ListCommentsRequest,
    page: Page<CommentValue>,
    next: ListCommentsRequest,
)
    requires
        ascending(s.comments@, collaboration::comment_seq()),
        collaboration::list_comments_outcome(
            s,
            actor,
            r,
            Ok::<Page<CommentValue>, StorageError>(page),
        ),
        page.next_cursor is Some,
        r.organization_id@ == next.organization_id@,
        r.issue_id@ == next.issue_id@,
        text::text_of(next.after) == text::text_of(page.next_cursor),
    ensures
        ({
            let after = validate::cursor_value(text::text_of(r.after))->0;
            let found = s.comments@.filter(
                collaboration::is_listed_comment(r.organization_id@, r.issue_id@, after),
            );
            &&& validate::cursor_value(text::text_of(next.after)) is Some
            &&& s.comments@.filter(
                collaboration::is_listed_comment(
                    next.organization_id@,
                    next.issue_id@,
                    validate::cursor_value(text::text_of(next.after))->0,
                ),
            ) == found.skip(r.limit as int)
        }),
{
    let after = validate::cursor_value(text::text_of(r.after))->0;
    let keep = collaboration::is_listed_comment(r.organization_id@, r.issue_id@, after);
    let found = s.comments@.filter(keep);
    let last = found[r.limit - 1].row_seq as int;
    let k = lemma_found(s.comments@, keep, r.limit - 1);
    law_revision_reads_back(last);
    let cond = collaboration::is_listed_comment(r.organization_id@, r.issue_id@, i64::MIN - 1);
    assert(keep =~= after_position(cond, collaboration::comment_seq(), after));
    law_next_page_continues(s.comments@, cond, collaboration::comment_seq(), after, r.limit as int);
    assert(collaboration::is_listed_comment(next.organization_id@, next.issue_id@, last)
        =~= after_position(cond, collaboration::comment_seq(), last));
}

/// Whether no two issues have the same id.
pub open spec fn issue_ids_unique(s: Store) -> bool {
    forall|i: int, j: int|
        0 <= i < j < s.issues@.len() ==> (#[trigger] s.issues@[i]).issue_id@ != (
        #[trigger] s.issues@[j]).issue_id@
}

proof fn lemma_issue_found(s: Store, k: int)
    requires
        issue_ids_unique(s),
        0 <= k < s.issues@.len(),
    ensures
        s.issue_at(s.issues@[k].organization_id@, s.issues@[k].issue_id@) == Some(k),
{
    let keep = store::is_issue(s.issues@[k].organization_id@, s.issues@[k].issue_id@);
    table::lemma_first_where(s.issues@, keep);
    assert(keep(s.issues@[k]));
    let found = table::first_where(s.issues@, keep)->0;
    if found < k {
        assert(s.issues@[found].issue_id@ != s.issues@[k].issue_id@);
    }
}

/// Selecting a page and reading it from one and the same store is listing it: nothing disappears.
pub proof fn law_reading_at_once_is_listing(
    s: Store,
    actor: Seq<char>,
    r: ListIssuesRequest,
    selected: Page<String>,
    result: Result<Page<IssueValue>, StorageError>,
)
    requires
        issue_ids_unique(s),
        issue_pages::select_issues_outcome(
            s,
            actor,
            r,
            Ok::<Page<String>, StorageError>(selected),
        ),
        issue_pages::read_issues_outcome(s, s, r.organization_id@, selected, result),
    ensures
        issues::list_issues_outcome(s, actor, r, result),
{
    let after = validate::cursor_value(text::text_of(r.after))->0;
    let keep = issues::is_listed_issue(s, actor, r, after);
    let found = s.issues@.filter(keep);
    assert forall|k: int| 0 <= k < selected.items@.len() implies s.issue_at(
        r.organization_id@,
        (#[trigger] selected.items@[k])@,
    ) is Some && s.issues@[s.issue_at(r.organization_id@, selected.items@[k]@)->0] == found[k] by {
        let j = lemma_found(s.issues@, keep, k);
        assert(issue_pages::names_issue()(found[k], selected.items@[k]));
        lemma_issue_found(s, j);
    }
    let page = result->Ok_0;
    assert forall|k: int| 0 <= k < page.items@.len() implies issues::shows_issue(s)(
        found[k],
        #[trigger] page.items@[k],
    ) by {
        let j = lemma_found(s.issues@, keep, k);
        lemma_issue_found(s, j);
        assert(selected.items@[k]@ == found[k].issue_id@) by {
            assert(issue_pages::names_issue()(found[k], selected.items@[k]));
        }
        assert(issue_pages::is_read_issue(found[k], s, page.items@[k]));
    }
}

} // verus!
