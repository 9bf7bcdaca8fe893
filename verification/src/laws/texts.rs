//! What texts, numbers and names are.
use crate::laws::pages;
use crate::model::{
    Health, Priority, ProjectStatusCategory, RelationKind, RetentionMode, WorkflowCategory,
};
use crate::model;
use crate::text;
use crate::validate;
use vstd::prelude::*;

verus! {

/// Whether a character is white space, by its code point.
pub open spec fn white(c: char) -> bool {
    let code = c as int;
    ||| 0x9 <= code <= 0xd
    ||| code == 0x20
    ||| code == 0x85
    ||| code == 0xa0
    ||| code == 0x1680
    ||| 0x2000 <= code <= 0x200a
    ||| code == 0x2028
    ||| code == 0x2029
    ||| code == 0x202f
    ||| code == 0x205f
    ||| code == 0x3000
}

/// White space are the characters with that Unicode property.
pub proof fn law_white_space(c: char)
    ensures
        text::is_white(c) == white(c),
{
}

proof fn lemma_leading(t: Seq<char>) -> (a: int)
    ensures
        0 <= a <= t.len(),
        text::without_leading(t) == t.skip(a),
        forall|i: int| 0 <= i < a ==> white(#[trigger] t[i]),
        a < t.len() ==> !white(t[a]),
    decreases t.len(),
{
    if t.len() > 0 && text::is_white(t[0]) {
        let rest = t.drop_first();
        let b = lemma_leading(rest);
        assert(rest.skip(b) =~= t.skip(b + 1));
        assert forall|i: int| 0 <= i < b + 1 implies white(#[trigger] t[i]) by {
            if i > 0 {
                assert(rest[i - 1] == t[i]);
            }
        }
        if b + 1 < t.len() {
            assert(rest[b] == t[b + 1]);
        }
        b + 1
    } else {
        assert(t.skip(0) =~= t);
        0
    }
}

proof fn lemma_trailing(t: Seq<char>) -> (b: int)
    ensures
        0 <= b <= t.len(),
        text::without_trailing(t) == t.take(b),
        forall|i: int| b <= i < t.len() ==> white(#[trigger] t[i]),
        b > 0 ==> !white(t[b - 1]),
    decreases t.len(),
{
    if t.len() > 0 && text::is_white(t.last()) {
        let rest = t.drop_last();
        let b = lemma_trailing(rest);
        assert(rest.take(b) =~= t.take(b));
        assert forall|i: int| b <= i < t.len() implies white(#[trigger] t[i]) by {
            if i < rest.len() {
                assert(rest[i] == t[i]);
            }
        }
        if b > 0 {
            assert(rest[b - 1] == t[b - 1]);
        }
        b
    } else {
        assert(t.take(t.len() as int) =~= t);
        t.len() as int
    }
}

/// Trimming a text takes exactly the white space at its two ends: what stays is one stretch of it,
/// before and after which there is only white space, and which neither begins nor ends with any.
pub proof fn law_trimming_takes_the_ends(t: Seq<char>) -> (ends: (int, int))
    ensures
        ({
            let (a, b) = ends;
            &&& 0 <= a <= b <= t.len()
            &&& text::trimmed(t) == t.subrange(a, b)
            &&& forall|i: int| 0 <= i < a ==> white(#[trigger] t[i])
            &&& forall|i: int| b <= i < t.len() ==> white(#[trigger] t[i])
            &&& a < b ==> !white(t[a]) && !white(t[b - 1])
        }),
{
    let a = lemma_leading(t);
    let rest = t.skip(a);
    let n = lemma_trailing(rest);
    let b = a + n;
    assert(rest.take(n) =~= t.subrange(a, b));
    assert forall|i: int| b <= i < t.len() implies white(#[trigger] t[i]) by {
        assert(rest[i - a] == t[i]);
    }
    if n > 0 {
        assert(rest[n - 1] == t[b - 1]);
    }
    (a, b)
}

/// A text that begins and ends without white space stays as it is.
pub proof fn law_trimmed_text_stays(t: Seq<char>)
    requires
        t.len() > 0 ==> !white(t[0]) && !white(t.last()),
    ensures
        text::trimmed(t) == t,
{
    let (a, b) = law_trimming_takes_the_ends(t);
    if t.len() > 0 {
        if a > 0 {
            assert(white(t[0]));
        }
        if b < t.len() {
            assert(white(t[t.len() - 1]));
        }
        assert(t.subrange(0, t.len() as int) =~= t);
    } else {
        assert(t.subrange(a, b) =~= t);
    }
}

/// Optional texts are kept and trimmed where they are there, and stay absent where they are not.
pub proof fn law_optional_texts(t: Option<String>)
    ensures
        t matches Some(s) ==> text::text_of(t) == Some(s@) && text::trimmed_option(text::text_of(t))
            == Some(text::trimmed(s@)),
        t is None ==> text::text_of(t) is None && text::trimmed_option(text::text_of(t)) is None,
{
}

/// The decimal form of a number below ten is its digit, and of a larger one that of its tenth part
/// followed by its last digit.
pub proof fn law_decimal_form(n: int)
    requires
        n >= 0,
    ensures
        n < 10 ==> text::integer_text(n).len() == 1 && text::integer_text(n)[0] as int == 48 + n,
        n >= 10 ==> text::integer_text(n) == text::integer_text(n / 10).push(
            text::integer_text(n % 10)[0],
        ),
{
}

/// A revision or a cursor is a text of decimal digits, after at most one plus sign, whose number is
/// positive and fits 64 bits; any decimal form of such a number is read back as it.
pub proof fn law_revisions_are_positive_numbers(t: Seq<char>)
    ensures
        validate::revision_value(t) matches Some(n) ==> {
            let digits = if t[0] == '+' {
                t.drop_first()
            } else {
                t
            };
            &&& 1 <= n <= i64::MAX
            &&& digits.len() > 0
            &&& forall|i: int| 0 <= i < digits.len() ==> 48 <= (#[trigger] digits[i]) as int <= 57
            &&& text::digits_value(digits) == n
        },
        forall|n: int|
            1 <= n <= i64::MAX && t == #[trigger] text::integer_text(n) ==> validate::revision_value(
                t,
            ) == Some(n),
{
    assert forall|n: int| 1 <= n <= i64::MAX && t == #[trigger] text::integer_text(n) implies validate::revision_value(
        t,
    ) == Some(n) by {
        pages::law_revision_reads_back(n);
    }
}

/// The number of a run of digits is that of all but the last, ten times, and the last digit.
pub proof fn law_digits_count_by_tens(t: Seq<char>)
    ensures
        t.len() == 0 ==> text::digits_value(t) == 0,
        t.len() > 0 ==> text::digits_value(t) == 10 * text::digits_value(t.drop_last()) + (
        t.last() as int - 48),
{
}

/// An identifier is made of 1 to 256 letters, digits, dots, underscores, hyphens and colons.
pub proof fn law_identifier_rule(t: Seq<char>)
    ensures
        validate::is_id(t) <==> 1 <= t.len() <= 256 && forall|i: int|
            0 <= i < t.len() ==> ({
                let c = (#[trigger] t[i]) as int;
                97 <= c <= 122 || 65 <= c <= 90 || 48 <= c <= 57 || c == 46 || c == 95 || c == 45 || c
                    == 58
            }),
{
    assert(forall|i: int| 0 <= i < t.len() ==> validate::is_id_char(#[trigger] t[i]) == ({
        let c = t[i] as int;
        97 <= c <= 122 || 65 <= c <= 90 || 48 <= c <= 57 || c == 46 || c == 95 || c == 45 || c == 58
    }));
}

/// Free text has a character that is not white space, no NUL, and at most so many bytes.
pub proof fn law_free_text_rule(t: Seq<char>, max: int)
    ensures
        validate::is_free_text(t, max) <==> (exists|i: int| 0 <= i < t.len() && !white(#[trigger] t[i]))
            && vstd::utf8::encode_utf8(t).len() <= max && forall|i: int|
            0 <= i < t.len() ==> (#[trigger] t[i]) as int != 0,
{
    let (a, b) = law_trimming_takes_the_ends(t);
    if a < b {
        assert(!white(t[a]));
    } else {
        assert forall|i: int| 0 <= i < t.len() implies white(#[trigger] t[i]) by {}
    }
}

/// A color is a number sign and six hexadecimal digits.
pub proof fn law_color_rule(t: Seq<char>)
    ensures
        validate::is_color(t) <==> t.len() == 7 && t[0] as int == 35 && forall|i: int|
            1 <= i < 7 ==> ({
                let c = (#[trigger] t[i]) as int;
                48 <= c <= 57 || 97 <= c <= 102 || 65 <= c <= 70
            }),
{
    assert(forall|i: int| 1 <= i < 7 ==> validate::is_hex_digit(#[trigger] t[i]) == ({
        let c = t[i] as int;
        48 <= c <= 57 || 97 <= c <= 102 || 65 <= c <= 70
    }));
}

/// A team key is made of 2 to 10 upper-case letters and digits, a letter first.
pub proof fn law_team_key_rule(t: Seq<char>)
    ensures
        validate::is_team_key(t) <==> 2 <= t.len() <= 10 && 65 <= t[0] as int <= 90 && forall|i: int|
            0 <= i < t.len() ==> ({
                let c = (#[trigger] t[i]) as int;
                65 <= c <= 90 || 48 <= c <= 57
            }),
{
    if validate::is_team_key(t) {
        assert forall|i: int| 0 <= i < t.len() implies ({
            let c = (#[trigger] t[i]) as int;
            65 <= c <= 90 || 48 <= c <= 57
        }) by {
            assert('A' <= t[i] <= 'Z' || '0' <= t[i] <= '9');
        }
    }
}

/// An address is one of HTTPS, of at most 2048 bytes, without control characters.
pub proof fn law_address_rule(t: Seq<char>)
    ensures
        validate::is_url(t) <==> t.len() >= 8 && t.take(8) == "https://"@
            && vstd::utf8::encode_utf8(t).len() <= 2048 && forall|i: int|
            0 <= i < t.len() ==> ({
                let c = (#[trigger] t[i]) as int;
                c >= 32 && !(127 <= c <= 159)
            }),
{
    reveal_strlit("https://");
    assert(forall|i: int| 0 <= i < t.len() ==> validate::is_control(#[trigger] t[i]) == ({
        let c = t[i] as int;
        !(c >= 32 && !(127 <= c <= 159))
    }));
    if "https://"@.is_prefix_of(t) {
        assert(t.take(8) =~= "https://"@);
    }
    if t.len() >= 8 && t.take(8) == "https://"@ {
        assert("https://"@ =~= t.subrange(0, "https://"@.len() as int));
    }
}

/// A page has 1 to 100 items, after a cursor that is a positive number or from the start.
pub proof fn law_page_rule(limit: int, after: Option<String>)
    ensures
        validate::is_page_request(limit, text::text_of(after)) <==> 1 <= limit <= 100 && (
        after matches Some(cursor) ==> validate::revision_value(cursor@) is Some),
        validate::cursor_value(text::text_of(after)) == match after {
            Some(cursor) => validate::revision_value(cursor@),
            None => Some(0int),
        },
{
}

/// The stored names of priorities, healths, kinds, categories and modes.
pub proof fn law_stored_names()
    ensures
        model::priority_text(Priority::NoPriority) == "none"@,
        model::priority_text(Priority::Urgent) == "urgent"@,
        model::priority_text(Priority::High) == "high"@,
        model::priority_text(Priority::Medium) == "medium"@,
        model::priority_text(Priority::Low) == "low"@,
        model::health_text(Health::OnTrack) == "on_track"@,
        model::health_text(Health::AtRisk) == "at_risk"@,
        model::health_text(Health::OffTrack) == "off_track"@,
        model::relation_kind_text(RelationKind::Blocks) == "blocks"@,
        model::relation_kind_text(RelationKind::BlockedBy) == "blocked_by"@,
        model::relation_kind_text(RelationKind::Duplicate) == "duplicate"@,
        model::relation_kind_text(RelationKind::Related) == "related"@,
        model::workflow_category_text(WorkflowCategory::Backlog) == "backlog"@,
        model::workflow_category_text(WorkflowCategory::Unstarted) == "unstarted"@,
        model::workflow_category_text(WorkflowCategory::Started) == "started"@,
        model::workflow_category_text(WorkflowCategory::Completed) == "completed"@,
        model::workflow_category_text(WorkflowCategory::Canceled) == "canceled"@,
        model::project_status_category_text(ProjectStatusCategory::Backlog) == "backlog"@,
        model::project_status_category_text(ProjectStatusCategory::Planned) == "planned"@,
        model::project_status_category_text(ProjectStatusCategory::Started) == "started"@,
        model::project_status_category_text(ProjectStatusCategory::Paused) == "paused"@,
        model::project_status_category_text(ProjectStatusCategory::Completed) == "completed"@,
        model::project_status_category_text(ProjectStatusCategory::Canceled) == "canceled"@,
        model::retention_mode_text(RetentionMode::Delete) == "delete"@,
        model::retention_mode_text(RetentionMode::Anonymize) == "anonymize"@,
{
}

} // verus!
