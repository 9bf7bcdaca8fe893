//! What a request must look like before it reaches storage.
use crate::failure::DomainFailure;
use crate::model::{
    AddCommentRequest, AddIssueRelationRequest, ApplyRetentionRequest, ArchiveIssueRequest,
    ArchiveProjectRequest, ArchiveProjectStatusRequest, ArchiveWorkflowStateRequest,
    CollectExportRequest, CreateIssueRequest, CreateProjectRequest, CreateProjectUpdateRequest,
    DeleteCommentRequest, DeleteProjectStatusRequest, DeleteWorkflowStateRequest,
    GetIssueAssigneeRequest, GetIssueRequest, GetProjectRequest, GetProjectStatusRequest,
    GetWorkflowStateRequest, ListActivityRequest, ListCommentsRequest, ListCyclesRequest,
    ListIssueWorkflowStatesRequest, ListIssuesRequest, ListLabelsRequest, ListMilestonesRequest,
    ListProjectStatusesRequest, ListProjectUpdatesRequest, ListProjectsRequest, ListTeamsRequest,
    ListWorkflowStatesRequest, MoveIssueRequest, PutCycleRequest, PutExternalLinkRequest,
    PutLabelRequest, PutMilestoneRequest, PutProjectStatusRequest, PutTeamRequest,
    PutWorkflowStateRequest, RemoveIssueRelationRequest, ReorderItem,
    ReorderProjectStatusesRequest, ReorderWorkflowStatesRequest, SetIssueAssigneeRequest,
    SetTeamMemberRequest, UpdateCommentRequest, UpdateIssueRequest, UpdateProjectRequest,
};
use crate::text;
use vstd::prelude::*;

verus! {

/// The most callers that one allow-list names.
pub const MAX_CALLERS: usize = 64;

/// The digits of a number text, without one leading plus sign.
pub open spec fn unsigned_part(text: Seq<char>) -> Seq<char> {
    if text.len() > 0 && text[0] == '+' {
        text.drop_first()
    } else {
        text
    }
}

/// The revision that a text stands for: a positive 64-bit number in decimal digits, with or
/// without a leading plus sign.
pub open spec fn revision_value(text: Seq<char>) -> Option<int> {
    let digits = unsigned_part(text);
    if digits.len() > 0 && (forall|i: int|
        0 <= i < digits.len() ==> text::is_digit(#[trigger] digits[i])) && 1 <= text::digits_value(
        digits,
    ) <= i64::MAX {
        Some(text::digits_value(digits))
    } else {
        None
    }
}

/// The position that an optional cursor stands for: the start where there is none.
pub open spec fn cursor_value(text: Option<Seq<char>>) -> Option<int> {
    match text {
        Some(text) => revision_value(text),
        None => Some(0),
    }
}

/// The characters of an identifier.
pub open spec fn is_id_char(c: char) -> bool {
    ||| 'a' <= c <= 'z'
    ||| 'A' <= c <= 'Z'
    ||| '0' <= c <= '9'
    ||| c == '.'
    ||| c == '_'
    ||| c == '-'
    ||| c == ':'
}

/// An identifier: 1 to 256 letters, digits, dots, underscores, hyphens and colons.
pub open spec fn is_id(text: Seq<char>) -> bool {
    &&& 1 <= text.len() <= 256
    &&& forall|i: int| 0 <= i < text.len() ==> is_id_char(#[trigger] text[i])
}

/// Whether an optional identifier is absent or valid.
pub open spec fn is_optional_id(text: Option<Seq<char>>) -> bool {
    match text {
        Some(text) => is_id(text),
        None => true,
    }
}

/// Free text: not blank, at most `max` bytes, no NUL.
pub open spec fn is_free_text(text: Seq<char>, max: int) -> bool {
    &&& text::trimmed(text).len() > 0
    &&& text::byte_len(text) <= max
    &&& forall|i: int| 0 <= i < text.len() ==> #[trigger] text[i] != '\0'
}

/// Whether optional free text is absent or valid.
pub open spec fn is_optional_text(text: Option<Seq<char>>, max: int) -> bool {
    match text {
        Some(text) => is_free_text(text, max),
        None => true,
    }
}

/// Whether an optional revision text is absent or valid.
pub open spec fn is_optional_revision(text: Option<Seq<char>>) -> bool {
    match text {
        Some(text) => revision_value(text) is Some,
        None => true,
    }
}

/// The characters of a secret path.
pub open spec fn is_path_char(c: char) -> bool {
    is_id_char(c) && c != ':' || c == '/'
}

/// Whether a path has, from `start`, a segment made of `count` dots alone.
pub open spec fn dots_segment(text: Seq<char>, start: int, count: int) -> bool {
    &&& 0 <= start
    &&& start + count <= text.len()
    &&& start == 0 || text[start - 1] == '/'
    &&& start + count == text.len() || text[start + count] == '/'
    &&& text[start] == '.'
    &&& text[start + count - 1] == '.'
}

/// A relative path of at most 256 characters without empty, `.` or `..` segments.
pub open spec fn is_secret_path(text: Seq<char>) -> bool {
    &&& 1 <= text.len() <= 256
    &&& text[0] != '/'
    &&& text.last() != '/'
    &&& forall|i: int| 0 <= i < text.len() ==> is_path_char(#[trigger] text[i])
    &&& forall|i: int, j: int|
        0 <= i && j == i + 1 && j < text.len() ==> !(#[trigger] text[i] == '/'
            && #[trigger] text[j] == '/')
    &&& forall|i: int| 0 <= i < text.len() ==> !#[trigger] dots_segment(text, i, 1)
    &&& forall|i: int| 0 <= i < text.len() ==> !#[trigger] dots_segment(text, i, 2)
}

/// A secret reference: an identifier or a secret path.
pub open spec fn is_secret_reference(text: Seq<char>) -> bool {
    is_id(text) || is_secret_path(text)
}

/// An HTTPS address of at most 2048 bytes without control characters.
pub open spec fn is_url(text: Seq<char>) -> bool {
    &&& "https://"@.is_prefix_of(text)
    &&& text::byte_len(text) <= 2048
    &&& forall|i: int| 0 <= i < text.len() ==> !is_control(#[trigger] text[i])
}

/// The characters of the Unicode category `Cc`.
pub open spec fn is_control(c: char) -> bool {
    c <= '\u{1f}' || '\u{7f}' <= c <= '\u{9f}'
}

/// A color: a number sign and six hexadecimal digits.
pub open spec fn is_color(text: Seq<char>) -> bool {
    &&& text.len() == 7
    &&& text[0] == '#'
    &&& forall|i: int| 1 <= i < 7 ==> is_hex_digit(#[trigger] text[i])
}

/// Whether `c` is an ASCII hexadecimal digit.
pub open spec fn is_hex_digit(c: char) -> bool {
    '0' <= c <= '9' || 'a' <= c <= 'f' || 'A' <= c <= 'F'
}

/// A team key: 2 to 10 upper-case letters and digits, a letter first.
pub open spec fn is_team_key(text: Seq<char>) -> bool {
    &&& 2 <= text.len() <= 10
    &&& 'A' <= text[0] <= 'Z'
    &&& forall|i: int|
        0 <= i < text.len() ==> ('A' <= #[trigger] text[i] <= 'Z' || '0' <= text[i] <= '9')
}

/// A page: 1 to 100 items after a valid cursor.
pub open spec fn is_page_request(limit: int, after: Option<Seq<char>>) -> bool {
    1 <= limit <= 100 && is_optional_revision(after)
}

/// A list of valid identifiers.
pub open spec fn are_ids(list: Seq<String>) -> bool {
    forall|i: int| 0 <= i < list.len() ==> is_id((#[trigger] list[i])@)
}

/// A list of 1 to 64 different identifiers.
pub open spec fn are_unique_ids(list: Seq<String>) -> bool {
    &&& 1 <= list.len() <= 64
    &&& are_ids(list)
    &&& text::distinct(list)
}

/// An allow-list: 1 to 64 different identifiers.
pub open spec fn are_callers(list: Seq<String>) -> bool {
    &&& 1 <= list.len() <= MAX_CALLERS
    &&& are_ids(list)
    &&& text::distinct(list)
}

/// Reads a revision.
pub fn parse_revision(value: &str) -> (result: Result<i64, DomainFailure>)
    ensures
        match revision_value(value@) {
            Some(revision) => result == Ok::<i64, DomainFailure>(revision as i64),
            None => result == Err::<i64, DomainFailure>(DomainFailure::InvalidRequest),
        },
{
    let chars = text::chars_of(value);
    let start: usize = if chars.len() > 0 && chars[0] == '+' {
        1
    } else {
        0
    };
    let ghost digits = unsigned_part(value@);
    assert(digits =~= value@.skip(start as int));
    if start == chars.len() {
        return Err(DomainFailure::InvalidRequest);
    }
    let mut number: u64 = 0;
    let mut large = false;
    let mut i: usize = start;
    while i < chars.len()
        invariant
            start <= i <= chars.len(),
            chars@ == value@,
            digits == unsigned_part(value@),
            digits == value@.skip(start as int),
            forall|k: int| 0 <= k < i - start ==> text::is_digit(#[trigger] digits[k]),
            number <= i64::MAX,
            !large ==> number == text::digits_value(digits.take(i - start)),
            large ==> text::digits_value(digits.take(i - start)) > i64::MAX,
        decreases chars.len() - i,
    {
        let c = chars[i];
        assert(c == digits[i - start]);
        if c < '0' || c > '9' {
            assert(!text::is_digit(digits[i - start]));
            return Err(DomainFailure::InvalidRequest);
        }
        assert(digits.take(i - start + 1).drop_last() =~= digits.take(i - start));
        let step: u64 = (c as u32 - '0' as u32) as u64;
        if !large {
            let next: u128 = (number as u128) * 10 + step as u128;
            if next > i64::MAX as u128 {
                large = true;
            } else {
                number = next as u64;
            }
        }
        i = i + 1;
    }
    assert(digits.take(i - start) =~= digits);
    if large || number == 0 {
        Err(DomainFailure::InvalidRequest)
    } else {
        Ok(number as i64)
    }
}

/// Reads an optional cursor: the start where there is none.
pub fn parse_cursor(value: &Option<String>) -> (result: Result<i64, DomainFailure>)
    ensures
        match cursor_value(text::text_of(*value)) {
            Some(position) => result == Ok::<i64, DomainFailure>(position as i64),
            None => result == Err::<i64, DomainFailure>(DomainFailure::InvalidRequest),
        },
{
    match value {
        Some(value) => parse_revision(value.as_str()),
        None => Ok(0),
    }
}

fn id_char(c: char) -> (answer: bool)
    ensures
        answer == is_id_char(c),
{
    ('a' <= c && c <= 'z') || ('A' <= c && c <= 'Z') || ('0' <= c && c <= '9') || c == '.' || c
        == '_' || c == '-' || c == ':'
}

/// Whether `value` is an identifier.
pub fn valid_id(value: &str) -> (answer: bool)
    ensures
        answer == is_id(value@),
{
    let chars = text::chars_of(value);
    if chars.len() == 0 || chars.len() > 256 {
        return false;
    }
    let mut i: usize = 0;
    while i < chars.len()
        invariant
            i <= chars.len(),
            chars@ == value@,
            forall|k: int| 0 <= k < i ==> is_id_char(#[trigger] value@[k]),
        decreases chars.len() - i,
    {
        if !id_char(chars[i]) {
            assert(!is_id_char(value@[i as int]));
            return false;
        }
        i = i + 1;
    }
    true
}

/// Whether an optional identifier is absent or valid.
pub fn valid_optional_id(value: &Option<String>) -> (answer: bool)
    ensures
        answer == is_optional_id(text::text_of(*value)),
{
    match value {
        Some(value) => valid_id(value.as_str()),
        None => true,
    }
}

/// Whether `value` is free text of at most `max` bytes.
pub fn valid_text(value: &str, max: usize) -> (answer: bool)
    ensures
        answer == is_free_text(value@, max as int),
{
    if text::trim(value).as_str().is_empty() || value.as_bytes().len() > max {
        return false;
    }
    let chars = text::chars_of(value);
    let mut i: usize = 0;
    while i < chars.len()
        invariant
            i <= chars.len(),
            chars@ == value@,
            forall|k: int| 0 <= k < i ==> #[trigger] value@[k] != '\0',
        decreases chars.len() - i,
    {
        if chars[i] == '\0' {
            assert(value@[i as int] == '\0');
            return false;
        }
        i = i + 1;
    }
    true
}

/// Whether optional free text is absent or valid.
pub fn valid_optional_text(value: &Option<String>, max: usize) -> (answer: bool)
    ensures
        answer == is_optional_text(text::text_of(*value), max as int),
{
    match value {
        Some(value) => valid_text(value.as_str(), max),
        None => true,
    }
}

/// Whether an optional revision text is absent or valid.
pub fn valid_optional_revision(value: &Option<String>) -> (answer: bool)
    ensures
        answer == is_optional_revision(text::text_of(*value)),
{
    match value {
        Some(value) => parse_revision(value.as_str()).is_ok(),
        None => true,
    }
}

/// Whether, from `start`, a segment of `count` dots alone stands in the path.
fn has_dots_segment(chars: &Vec<char>, start: usize, count: usize) -> (answer: bool)
    requires
        start < chars.len() <= 256,
        1 <= count <= 2,
    ensures
        answer == dots_segment(chars@, start as int, count as int),
{
    start + count <= chars.len() && (start == 0 || chars[start - 1] == '/') && (start + count
        == chars.len() || chars[start + count] == '/') && chars[start] == '.' && chars[start + count
        - 1] == '.'
}

/// Whether `value` is a secret reference.
pub fn valid_secret_reference(value: &str) -> (answer: bool)
    ensures
        answer == is_secret_reference(value@),
{
    if valid_id(value) {
        return true;
    }
    let chars = text::chars_of(value);
    if chars.len() == 0 || chars.len() > 256 || chars[0] == '/' || chars[chars.len() - 1] == '/' {
        return false;
    }
    let mut i: usize = 0;
    while i < chars.len()
        invariant
            i <= chars.len() <= 256,
            chars@ == value@,
            1 <= value@.len(),
            value@[0] != '/',
            value@.last() != '/',
            !is_id(value@),
            forall|k: int| 0 <= k < i ==> is_path_char(#[trigger] value@[k]),
            forall|k: int, j: int|
                0 <= k < i && j == k + 1 && j < value@.len() ==> !(#[trigger] value@[k] == '/'
                    && #[trigger] value@[j] == '/'),
            forall|k: int| 0 <= k < i ==> !#[trigger] dots_segment(value@, k, 1),
            forall|k: int| 0 <= k < i ==> !#[trigger] dots_segment(value@, k, 2),
        decreases chars.len() - i,
    {
        let c = chars[i];
        if !((id_char(c) && c != ':') || c == '/') {
            assert(!is_path_char(value@[i as int]));
            return false;
        }
        if c == '/' && i + 1 < chars.len() && chars[i + 1] == '/' {
            assert(value@[i as int] == '/' && value@[i + 1] == '/');
            return false;
        }
        if has_dots_segment(&chars, i, 1) || has_dots_segment(&chars, i, 2) {
            assert(dots_segment(value@, i as int, 1) || dots_segment(value@, i as int, 2));
            return false;
        }
        i = i + 1;
    }
    true
}

/// Whether a page request is valid.
pub fn valid_page(limit: i64, after: &Option<String>) -> (answer: bool)
    ensures
        answer == is_page_request(limit as int, text::text_of(*after)),
{
    1 <= limit && limit <= 100 && valid_optional_revision(after)
}

/// Whether `value` is an acceptable address.
pub fn valid_url(value: &str) -> (answer: bool)
    ensures
        answer == is_url(value@),
{
    let chars = text::chars_of(value);
    let prefix = text::chars_of("https://");
    if chars.len() < prefix.len() || value.as_bytes().len() > 2048 {
        return false;
    }
    let mut i: usize = 0;
    while i < prefix.len()
        invariant
            i <= prefix.len() <= chars.len(),
            chars@ == value@,
            prefix@ == "https://"@,
            forall|k: int| 0 <= k < i ==> prefix@[k] == chars@[k],
        decreases prefix.len() - i,
    {
        if prefix[i] != chars[i] {
            return false;
        }
        i = i + 1;
    }
    assert("https://"@ =~= value@.subrange(0, "https://"@.len() as int));
    let mut j: usize = 0;
    while j < chars.len()
        invariant
            j <= chars.len(),
            chars@ == value@,
            forall|k: int| 0 <= k < j ==> !is_control(#[trigger] value@[k]),
        decreases chars.len() - j,
    {
        let c = chars[j];
        if c <= '\u{1f}' || ('\u{7f}' <= c && c <= '\u{9f}') {
            assert(is_control(value@[j as int]));
            return false;
        }
        j = j + 1;
    }
    true
}

/// Whether a key, an id and a revision are each valid.
pub fn valid_idempotent_revision(key: &str, id: &str, revision: &str) -> (answer: bool)
    ensures
        answer == (is_id(key@) && is_id(id@) && revision_value(revision@) is Some),
{
    valid_id(key) && valid_id(id) && parse_revision(revision).is_ok()
}

/// Whether every string of `list` is an identifier.
pub fn valid_ids(list: &Vec<String>) -> (answer: bool)
    ensures
        answer == are_ids(list@),
{
    let mut i: usize = 0;
    while i < list.len()
        invariant
            i <= list.len(),
            forall|k: int| 0 <= k < i ==> is_id((#[trigger] list@[k])@),
        decreases list.len() - i,
    {
        if !valid_id(list[i].as_str()) {
            assert(!is_id(list@[i as int]@));
            return false;
        }
        i = i + 1;
    }
    true
}

/// Whether `values` are 1 to 64 different identifiers.
pub fn unique_ids(values: &Vec<String>) -> (answer: bool)
    ensures
        answer == are_unique_ids(values@),
{
    values.len() > 0 && values.len() <= 64 && valid_ids(values) && text::all_distinct(values)
}

/// Whether `values` is an acceptable allow-list.
pub fn valid_callers(values: &Vec<String>) -> (answer: bool)
    ensures
        answer == are_callers(values@),
{
    values.len() > 0 && values.len() <= MAX_CALLERS && valid_ids(values) && text::all_distinct(
        values,
    )
}

/// Whether `value` is a color.
pub fn valid_color(value: &str) -> (answer: bool)
    ensures
        answer == is_color(value@),
{
    let chars = text::chars_of(value);
    if chars.len() != 7 || chars[0] != '#' {
        return false;
    }
    let mut i: usize = 1;
    while i < 7
        invariant
            1 <= i <= 7,
            chars@.len() == 7,
            chars@ == value@,
            forall|k: int| 1 <= k < i ==> is_hex_digit(#[trigger] value@[k]),
        decreases 7 - i,
    {
        let c = chars[i];
        if !(('0' <= c && c <= '9') || ('a' <= c && c <= 'f') || ('A' <= c && c <= 'F')) {
            assert(!is_hex_digit(value@[i as int]));
            return false;
        }
        i = i + 1;
    }
    true
}

/// Whether `value` is a team key.
pub fn valid_team_key(value: &str) -> (answer: bool)
    ensures
        answer == is_team_key(value@),
{
    let chars = text::chars_of(value);
    if chars.len() < 2 || chars.len() > 10 || !('A' <= chars[0] && chars[0] <= 'Z') {
        return false;
    }
    let mut i: usize = 0;
    while i < chars.len()
        invariant
            i <= chars.len(),
            chars@ == value@,
            forall|k: int|
                0 <= k < i ==> ('A' <= #[trigger] value@[k] <= 'Z' || '0' <= value@[k] <= '9'),
        decreases chars.len() - i,
    {
        let c = chars[i];
        if !(('A' <= c && c <= 'Z') || ('0' <= c && c <= '9')) {
            assert(!('A' <= value@[i as int] <= 'Z' || '0' <= value@[i as int] <= '9'));
            return false;
        }
        i = i + 1;
    }
    true
}

/// Whether the parts that a catalog entry has in common are valid.
pub open spec fn is_catalog_put(
    key: Seq<char>,
    id: Seq<char>,
    name: Seq<char>,
    color: Seq<char>,
    revision: Option<Seq<char>>,
) -> bool {
    is_id(key) && is_id(id) && is_free_text(name, 200) && is_color(color) && is_optional_revision(
        revision,
    )
}

/// Whether the parts that a catalog entry has in common are valid.
pub fn valid_catalog_put(
    key: &str,
    id: &str,
    name: &str,
    color: &str,
    revision: &Option<String>,
) -> (answer: bool)
    ensures
        answer == is_catalog_put(key@, id@, name@, color@, text::text_of(*revision)),
{
    valid_id(key) && valid_id(id) && valid_text(name, 200) && valid_color(color)
        && valid_optional_revision(revision)
}

/// Whether the parts that issue requests have in common are valid.
pub open spec fn is_issue_common(
    title: Seq<char>,
    description: Option<Seq<char>>,
    workflow: Option<Seq<char>>,
    cycle: Option<Seq<char>>,
    milestone: Option<Seq<char>>,
    parent: Option<Seq<char>>,
    labels: Seq<String>,
) -> bool {
    &&& is_free_text(title, 1000)
    &&& is_optional_text(description, 20_000)
    &&& is_optional_id(workflow)
    &&& is_optional_id(cycle)
    &&& is_optional_id(milestone)
    &&& is_optional_id(parent)
    &&& labels.len() <= 64
    &&& are_ids(labels)
    &&& text::distinct(labels)
}

/// Whether the parts that issue requests have in common are valid, the workflow state aside.
pub fn valid_issue_common(
    title: &str,
    description: &Option<String>,
    cycle: &Option<String>,
    milestone: &Option<String>,
    parent: &Option<String>,
    labels: &Vec<String>,
) -> (answer: bool)
    ensures
        answer == is_issue_common(
            title@,
            text::text_of(*description),
            None,
            text::text_of(*cycle),
            text::text_of(*milestone),
            text::text_of(*parent),
            labels@,
        ),
{
    valid_text(title, 1000) && valid_optional_text(description, 20_000) && valid_optional_id(cycle)
        && valid_optional_id(milestone) && valid_optional_id(parent) && labels.len() <= 64
        && valid_ids(labels) && text::all_distinct(labels)
}

/// A reorder batch: 1 to 100 entries with different ids and different positions in the 32-bit
/// range, each with a valid expected revision.
pub open spec fn is_reorder(items: Seq<ReorderItem>) -> bool {
    &&& 1 <= items.len() <= 100
    &&& forall|i: int|
        0 <= i < items.len() ==> is_id((#[trigger] items[i]).id@) && revision_value(
            items[i].expected_revision@,
        ) is Some && 0 <= items[i].position <= i32::MAX
    &&& forall|i: int, j: int|
        0 <= i < j < items.len() ==> (#[trigger] items[i]).id@ != (#[trigger] items[j]).id@
            && items[i].position != items[j].position
}

/// Whether a reorder batch is valid.
pub fn valid_reorder(items: &Vec<ReorderItem>) -> (answer: bool)
    ensures
        answer == is_reorder(items@),
{
    if items.len() == 0 || items.len() > 100 {
        return false;
    }
    let mut i: usize = 0;
    while i < items.len()
        invariant
            i <= items.len(),
            forall|k: int|
                0 <= k < i ==> is_id((#[trigger] items@[k]).id@) && revision_value(
                    items@[k].expected_revision@,
                ) is Some && 0 <= items@[k].position <= i32::MAX,
            forall|k: int, j: int|
                0 <= k < j < i ==> (#[trigger] items@[k]).id@ != (#[trigger] items@[j]).id@
                    && items@[k].position != items@[j].position,
        decreases items.len() - i,
    {
        if !valid_id(items[i].id.as_str()) || parse_revision(
            items[i].expected_revision.as_str(),
        ).is_err() || items[i].position < 0 || items[i].position > i32::MAX as i64 {
            assert(!(is_id(items@[i as int].id@) && revision_value(
                items@[i as int].expected_revision@,
            ) is Some && 0 <= items@[i as int].position <= i32::MAX));
            return false;
        }
        let mut k: usize = 0;
        while k < i
            invariant
                k <= i < items.len(),
                forall|j: int|
                    0 <= j < k ==> (#[trigger] items@[j]).id@ != items@[i as int].id@
                        && items@[j].position != items@[i as int].position,
            decreases i - k,
        {
            if text::same(items[k].id.as_str(), items[i].id.as_str()) || items[k].position
                == items[i].position {
                assert(items@[k as int].id@ == items@[i as int].id@ || items@[k as int].position
                    == items@[i as int].position);
                return false;
            }
            k = k + 1;
        }
        i = i + 1;
    }
    true
}

/// Whether a project can be asked for.
pub open spec fn is_project_create(request: CreateProjectRequest) -> bool {
    &&& is_id(request.idempotency_key@)
    &&& is_id(request.project_id@)
    &&& is_free_text(request.name@, 300)
    &&& is_optional_text(text::text_of(request.summary), 4000)
    &&& is_id(request.lead_team_id@)
    &&& are_unique_ids(request.team_ids@)
    &&& text::has_text(request.team_ids@, request.lead_team_id@)
    &&& is_optional_id(text::text_of(request.status_id))
    &&& is_optional_id(text::text_of(request.milestone_id))
}

/// Whether a project can be asked for.
pub fn valid_project_create(request: &CreateProjectRequest) -> (answer: bool)
    ensures
        answer == is_project_create(*request),
{
    valid_id(request.idempotency_key.as_str())
        && valid_id(request.project_id.as_str())
        && valid_text(request.name.as_str(), 300)
        && valid_optional_text(&request.summary, 4000)
        && valid_id(request.lead_team_id.as_str())
        && unique_ids(&request.team_ids)
        && text::contains_text(&request.team_ids, request.lead_team_id.as_str())
        && valid_optional_id(&request.status_id)
        && valid_optional_id(&request.milestone_id)
}

/// Whether a project update is valid.
pub open spec fn is_project_update(request: UpdateProjectRequest) -> bool {
    &&& is_id(request.idempotency_key@)
    &&& is_id(request.project_id@)
    &&& revision_value(request.expected_revision@) is Some
    &&& is_free_text(request.name@, 300)
    &&& is_optional_text(text::text_of(request.summary), 4000)
    &&& is_id(request.lead_team_id@)
    &&& are_unique_ids(request.team_ids@)
    &&& text::has_text(request.team_ids@, request.lead_team_id@)
    &&& is_id(request.status_id@)
    &&& is_optional_id(text::text_of(request.milestone_id))
}

/// Whether a project update is valid.
pub fn valid_project_update(request: &UpdateProjectRequest) -> (answer: bool)
    ensures
        answer == is_project_update(*request),
{
    valid_idempotent_revision(
        request.idempotency_key.as_str(),
        request.project_id.as_str(),
        request.expected_revision.as_str(),
    )
        && valid_text(request.name.as_str(), 300)
        && valid_optional_text(&request.summary, 4000)
        && valid_id(request.lead_team_id.as_str())
        && unique_ids(&request.team_ids)
        && text::contains_text(&request.team_ids, request.lead_team_id.as_str())
        && valid_id(request.status_id.as_str())
        && valid_optional_id(&request.milestone_id)
}

/// Whether a project reference is valid.
pub open spec fn is_project_get(request: GetProjectRequest) -> bool {
    &&& is_id(request.project_id@)
}

/// Whether a project reference is valid.
pub fn valid_project_get(request: &GetProjectRequest) -> (answer: bool)
    ensures
        answer == is_project_get(*request),
{
    valid_id(request.project_id.as_str())
}

/// Whether a project listing is valid.
pub open spec fn is_project_list(request: ListProjectsRequest) -> bool {
    &&& is_page_request(request.limit as int, text::text_of(request.after))
    &&& is_optional_id(text::text_of(request.team_id))
}

/// Whether a project listing is valid.
pub fn valid_project_list(request: &ListProjectsRequest) -> (answer: bool)
    ensures
        answer == is_project_list(*request),
{
    valid_page(request.limit, &request.after)
        && valid_optional_id(&request.team_id)
}

/// Whether a project archival is valid.
pub open spec fn is_project_archive(request: ArchiveProjectRequest) -> bool {
    &&& is_id(request.idempotency_key@)
    &&& is_id(request.project_id@)
    &&& revision_value(request.expected_revision@) is Some
}

/// Whether a project archival is valid.
pub fn valid_project_archive(request: &ArchiveProjectRequest) -> (answer: bool)
    ensures
        answer == is_project_archive(*request),
{
    valid_idempotent_revision(
        request.idempotency_key.as_str(),
        request.project_id.as_str(),
        request.expected_revision.as_str(),
    )
}

/// Whether an issue can be asked for.
pub open spec fn is_issue_create(request: CreateIssueRequest) -> bool {
    &&& is_id(request.idempotency_key@)
    &&& is_id(request.issue_id@)
    &&& is_id(request.project_id@)
    &&& is_id(request.team_id@)
    &&& is_optional_id(text::text_of(request.workflow_state_id))
    &&& is_issue_common(
        request.title@,
        text::text_of(request.description),
        None,
        text::text_of(request.cycle_id),
        text::text_of(request.milestone_id),
        text::text_of(request.parent_issue_id),
        request.label_ids@,
    )
    &&& text::text_of(request.parent_issue_id) != Some(request.issue_id@)
}

/// Whether an issue can be asked for.
pub fn valid_issue_create(request: &CreateIssueRequest) -> (answer: bool)
    ensures
        answer == is_issue_create(*request),
{
    valid_id(request.idempotency_key.as_str())
        && valid_id(request.issue_id.as_str())
        && valid_id(request.project_id.as_str())
        && valid_id(request.team_id.as_str())
        && valid_optional_id(&request.workflow_state_id)
        && valid_issue_common(request.title.as_str(), &request.description, &request.cycle_id, &request.milestone_id, &request.parent_issue_id, &request.label_ids)
        && !text::is_text(&request.parent_issue_id, request.issue_id.as_str())
}

/// Whether an issue update is valid.
pub open spec fn is_issue_update(request: UpdateIssueRequest) -> bool {
    &&& is_id(request.idempotency_key@)
    &&& is_id(request.issue_id@)
    &&& revision_value(request.expected_revision@) is Some
    &&& is_id(request.workflow_state_id@)
    &&& is_issue_common(
        request.title@,
        text::text_of(request.description),
        None,
        text::text_of(request.cycle_id),
        text::text_of(request.milestone_id),
        text::text_of(request.parent_issue_id),
        request.label_ids@,
    )
    &&& text::text_of(request.parent_issue_id) != Some(request.issue_id@)
}

/// Whether an issue update is valid.
pub fn valid_issue_update(request: &UpdateIssueRequest) -> (answer: bool)
    ensures
        answer == is_issue_update(*request),
{
    valid_idempotent_revision(
        request.idempotency_key.as_str(),
        request.issue_id.as_str(),
        request.expected_revision.as_str(),
    )
        && valid_id(request.workflow_state_id.as_str())
        && valid_issue_common(request.title.as_str(), &request.description, &request.cycle_id, &request.milestone_id, &request.parent_issue_id, &request.label_ids)
        && !text::is_text(&request.parent_issue_id, request.issue_id.as_str())
}

/// Whether an issue reference is valid.
pub open spec fn is_issue_get(request: GetIssueRequest) -> bool {
    &&& is_id(request.issue_ref@)
}

/// Whether an issue reference is valid.
pub fn valid_issue_get(request: &GetIssueRequest) -> (answer: bool)
    ensures
        answer == is_issue_get(*request),
{
    valid_id(request.issue_ref.as_str())
}

/// Whether an issue listing is valid.
pub open spec fn is_issue_list(request: ListIssuesRequest) -> bool {
    &&& is_page_request(request.limit as int, text::text_of(request.after))
    &&& is_optional_id(text::text_of(request.project_id))
    &&& is_optional_id(text::text_of(request.team_id))
    &&& is_optional_id(text::text_of(request.workflow_state_id))
}

/// Whether an issue listing is valid.
pub fn valid_issue_list(request: &ListIssuesRequest) -> (answer: bool)
    ensures
        answer == is_issue_list(*request),
{
    valid_page(request.limit, &request.after)
        && valid_optional_id(&request.project_id)
        && valid_optional_id(&request.team_id)
        && valid_optional_id(&request.workflow_state_id)
}

/// Whether an issue move is valid.
pub open spec fn is_issue_move(request: MoveIssueRequest) -> bool {
    &&& is_id(request.idempotency_key@)
    &&& is_id(request.issue_id@)
    &&& revision_value(request.expected_revision@) is Some
    &&& is_id(request.team_id@)
    &&& is_id(request.workflow_state_id@)
}

/// Whether an issue move is valid.
pub fn valid_issue_move(request: &MoveIssueRequest) -> (answer: bool)
    ensures
        answer == is_issue_move(*request),
{
    valid_idempotent_revision(
        request.idempotency_key.as_str(),
        request.issue_id.as_str(),
        request.expected_revision.as_str(),
    )
        && valid_id(request.team_id.as_str())
        && valid_id(request.workflow_state_id.as_str())
}

/// Whether an issue archival is valid.
pub open spec fn is_issue_archive(request: ArchiveIssueRequest) -> bool {
    &&& is_id(request.idempotency_key@)
    &&& is_id(request.issue_id@)
    &&& revision_value(request.expected_revision@) is Some
}

/// Whether an issue archival is valid.
pub fn valid_issue_archive(request: &ArchiveIssueRequest) -> (answer: bool)
    ensures
        answer == is_issue_archive(*request),
{
    valid_idempotent_revision(
        request.idempotency_key.as_str(),
        request.issue_id.as_str(),
        request.expected_revision.as_str(),
    )
}

/// Whether an external association is valid.
pub open spec fn is_external_link(request: PutExternalLinkRequest) -> bool {
    &&& is_id(request.idempotency_key@)
    &&& is_id(request.issue_id@)
    &&& is_id(request.provider@)
    &&& is_id(request.external_key@)
    &&& is_url(request.url@)
    &&& is_optional_text(text::text_of(request.title), 300)
}

/// Whether an external association is valid.
pub fn valid_external_link(request: &PutExternalLinkRequest) -> (answer: bool)
    ensures
        answer == is_external_link(*request),
{
    valid_id(request.idempotency_key.as_str())
        && valid_id(request.issue_id.as_str())
        && valid_id(request.provider.as_str())
        && valid_id(request.external_key.as_str())
        && valid_url(request.url.as_str())
        && valid_optional_text(&request.title, 300)
}

/// Whether an activity listing is valid.
pub open spec fn is_activity_list(request: ListActivityRequest) -> bool {
    &&& is_page_request(request.limit as int, text::text_of(request.after))
    &&& is_optional_id(text::text_of(request.project_id))
    &&& is_optional_id(text::text_of(request.issue_id))
}

/// Whether an activity listing is valid.
pub fn valid_activity_list(request: &ListActivityRequest) -> (answer: bool)
    ensures
        answer == is_activity_list(*request),
{
    valid_page(request.limit, &request.after)
        && valid_optional_id(&request.project_id)
        && valid_optional_id(&request.issue_id)
}

/// Whether a workflow listing is valid.
pub open spec fn is_issue_workflow_list(request: ListIssueWorkflowStatesRequest) -> bool {
    &&& is_id(request.team_id@)
    &&& is_page_request(request.limit as int, text::text_of(request.after))
}

/// Whether a workflow listing is valid.
pub fn valid_issue_workflow_list(request: &ListIssueWorkflowStatesRequest) -> (answer: bool)
    ensures
        answer == is_issue_workflow_list(*request),
{
    valid_id(request.team_id.as_str())
        && valid_page(request.limit, &request.after)
}

/// Whether a comment can be asked for.
pub open spec fn is_comment_add(request: AddCommentRequest) -> bool {
    &&& is_id(request.idempotency_key@)
    &&& is_id(request.issue_id@)
    &&& is_id(request.comment_id@)
    &&& is_free_text(request.body@, 20000)
}

/// Whether a comment can be asked for.
pub fn valid_comment_add(request: &AddCommentRequest) -> (answer: bool)
    ensures
        answer == is_comment_add(*request),
{
    valid_id(request.idempotency_key.as_str())
        && valid_id(request.issue_id.as_str())
        && valid_id(request.comment_id.as_str())
        && valid_text(request.body.as_str(), 20000)
}

/// Whether a comment update is valid.
pub open spec fn is_comment_update(request: UpdateCommentRequest) -> bool {
    &&& is_id(request.idempotency_key@)
    &&& is_id(request.comment_id@)
    &&& revision_value(request.expected_revision@) is Some
    &&& is_free_text(request.body@, 20000)
}

/// Whether a comment update is valid.
pub fn valid_comment_update(request: &UpdateCommentRequest) -> (answer: bool)
    ensures
        answer == is_comment_update(*request),
{
    valid_idempotent_revision(
        request.idempotency_key.as_str(),
        request.comment_id.as_str(),
        request.expected_revision.as_str(),
    )
        && valid_text(request.body.as_str(), 20000)
}

/// Whether a comment deletion is valid.
pub open spec fn is_comment_delete(request: DeleteCommentRequest) -> bool {
    &&& is_id(request.idempotency_key@)
    &&& is_id(request.comment_id@)
    &&& revision_value(request.expected_revision@) is Some
}

/// Whether a comment deletion is valid.
pub fn valid_comment_delete(request: &DeleteCommentRequest) -> (answer: bool)
    ensures
        answer == is_comment_delete(*request),
{
    valid_idempotent_revision(
        request.idempotency_key.as_str(),
        request.comment_id.as_str(),
        request.expected_revision.as_str(),
    )
}

/// Whether a comment listing is valid.
pub open spec fn is_comment_list(request: ListCommentsRequest) -> bool {
    &&& is_id(request.issue_id@)
    &&& is_page_request(request.limit as int, text::text_of(request.after))
}

/// Whether a comment listing is valid.
pub fn valid_comment_list(request: &ListCommentsRequest) -> (answer: bool)
    ensures
        answer == is_comment_list(*request),
{
    valid_id(request.issue_id.as_str())
        && valid_page(request.limit, &request.after)
}

/// Whether a project update post is valid.
pub open spec fn is_project_update_create(request: CreateProjectUpdateRequest) -> bool {
    &&& is_id(request.idempotency_key@)
    &&& is_id(request.project_id@)
    &&& is_id(request.update_id@)
    &&& is_free_text(request.body@, 20000)
}

/// Whether a project update post is valid.
pub fn valid_project_update_create(request: &CreateProjectUpdateRequest) -> (answer: bool)
    ensures
        answer == is_project_update_create(*request),
{
    valid_id(request.idempotency_key.as_str())
        && valid_id(request.project_id.as_str())
        && valid_id(request.update_id.as_str())
        && valid_text(request.body.as_str(), 20000)
}

/// Whether a listing of project updates is valid.
pub open spec fn is_project_update_list(request: ListProjectUpdatesRequest) -> bool {
    &&& is_id(request.project_id@)
    &&& is_page_request(request.limit as int, text::text_of(request.after))
}

/// Whether a listing of project updates is valid.
pub fn valid_project_update_list(request: &ListProjectUpdatesRequest) -> (answer: bool)
    ensures
        answer == is_project_update_list(*request),
{
    valid_id(request.project_id.as_str())
        && valid_page(request.limit, &request.after)
}

/// Whether a relation can be asked for.
pub open spec fn is_relation_add(request: AddIssueRelationRequest) -> bool {
    &&& is_id(request.idempotency_key@)
    &&& is_id(request.relation_id@)
    &&& is_id(request.issue_id@)
    &&& is_id(request.related_issue_id@)
}

/// Whether a relation can be asked for.
pub fn valid_relation_add(request: &AddIssueRelationRequest) -> (answer: bool)
    ensures
        answer == is_relation_add(*request),
{
    valid_id(request.idempotency_key.as_str())
        && valid_id(request.relation_id.as_str())
        && valid_id(request.issue_id.as_str())
        && valid_id(request.related_issue_id.as_str())
}

/// Whether the end of a relation can be asked for.
pub open spec fn is_relation_remove(request: RemoveIssueRelationRequest) -> bool {
    &&& is_id(request.idempotency_key@)
    &&& is_id(request.relation_id@)
}

/// Whether the end of a relation can be asked for.
pub fn valid_relation_remove(request: &RemoveIssueRelationRequest) -> (answer: bool)
    ensures
        answer == is_relation_remove(*request),
{
    valid_id(request.idempotency_key.as_str())
        && valid_id(request.relation_id.as_str())
}

/// Whether an assignment reference is valid.
pub open spec fn is_assignee_get(request: GetIssueAssigneeRequest) -> bool {
    &&& is_id(request.issue_id@)
}

/// Whether an assignment reference is valid.
pub fn valid_assignee_get(request: &GetIssueAssigneeRequest) -> (answer: bool)
    ensures
        answer == is_assignee_get(*request),
{
    valid_id(request.issue_id.as_str())
}

/// Whether an assignment is valid.
pub open spec fn is_assignee_set(request: SetIssueAssigneeRequest) -> bool {
    &&& is_id(request.idempotency_key@)
    &&& is_id(request.issue_id@)
    &&& revision_value(request.expected_revision@) is Some
    &&& is_optional_id(text::text_of(request.assignee_subject))
}

/// Whether an assignment is valid.
pub fn valid_assignee_set(request: &SetIssueAssigneeRequest) -> (answer: bool)
    ensures
        answer == is_assignee_set(*request),
{
    valid_idempotent_revision(
        request.idempotency_key.as_str(),
        request.issue_id.as_str(),
        request.expected_revision.as_str(),
    )
        && valid_optional_id(&request.assignee_subject)
}

/// Whether a team is valid.
pub open spec fn is_team(request: PutTeamRequest) -> bool {
    &&& is_id(request.idempotency_key@)
    &&& is_id(request.team_id@)
    &&& is_team_key(request.key@)
    &&& is_free_text(request.name@, 200)
    &&& is_optional_text(text::text_of(request.description), 2000)
    &&& is_optional_id(text::text_of(request.default_workflow_state_id))
    &&& is_optional_revision(text::text_of(request.expected_revision))
    &&& (request.expected_revision is Some) == (request.default_workflow_state_id is Some)
}

/// Whether a team is valid.
pub fn valid_team(request: &PutTeamRequest) -> (answer: bool)
    ensures
        answer == is_team(*request),
{
    valid_id(request.idempotency_key.as_str())
        && valid_id(request.team_id.as_str())
        && valid_team_key(request.key.as_str())
        && valid_text(request.name.as_str(), 200)
        && valid_optional_text(&request.description, 2000)
        && valid_optional_id(&request.default_workflow_state_id)
        && valid_optional_revision(&request.expected_revision)
        && request.expected_revision.is_some() == request.default_workflow_state_id.is_some()
}

/// Whether a team listing is valid.
pub open spec fn is_team_list(request: ListTeamsRequest) -> bool {
    &&& is_page_request(request.limit as int, text::text_of(request.after))
}

/// Whether a team listing is valid.
pub fn valid_team_list(request: &ListTeamsRequest) -> (answer: bool)
    ensures
        answer == is_team_list(*request),
{
    valid_page(request.limit, &request.after)
}

/// Whether a membership is valid.
pub open spec fn is_team_member(request: SetTeamMemberRequest) -> bool {
    &&& is_id(request.idempotency_key@)
    &&& is_id(request.team_id@)
    &&& is_id(request.subject@)
}

/// Whether a membership is valid.
pub fn valid_team_member(request: &SetTeamMemberRequest) -> (answer: bool)
    ensures
        answer == is_team_member(*request),
{
    valid_id(request.idempotency_key.as_str())
        && valid_id(request.team_id.as_str())
        && valid_id(request.subject.as_str())
}

/// Whether a workflow state is valid.
pub open spec fn is_workflow_put(request: PutWorkflowStateRequest) -> bool {
    &&& is_catalog_put(
        request.idempotency_key@,
        request.state_id@,
        request.name@,
        request.color@,
        text::text_of(request.expected_revision),
    )
    &&& is_id(request.team_id@)
}

/// Whether a workflow state is valid.
pub fn valid_workflow_put(request: &PutWorkflowStateRequest) -> (answer: bool)
    ensures
        answer == is_workflow_put(*request),
{
    valid_catalog_put(
        request.idempotency_key.as_str(),
        request.state_id.as_str(),
        request.name.as_str(),
        request.color.as_str(),
        &request.expected_revision,
    )
        && valid_id(request.team_id.as_str())
}

/// Whether a workflow state reference is valid.
pub open spec fn is_workflow_get(request: GetWorkflowStateRequest) -> bool {
    &&& is_id(request.team_id@)
    &&& is_id(request.state_id@)
}

/// Whether a workflow state reference is valid.
pub fn valid_workflow_get(request: &GetWorkflowStateRequest) -> (answer: bool)
    ensures
        answer == is_workflow_get(*request),
{
    valid_id(request.team_id.as_str())
        && valid_id(request.state_id.as_str())
}

/// Whether a workflow reorder is valid.
pub open spec fn is_workflow_reorder(request: ReorderWorkflowStatesRequest) -> bool {
    &&& is_reorder(request.items@)
    &&& is_id(request.idempotency_key@)
    &&& is_id(request.team_id@)
}

/// Whether a workflow reorder is valid.
pub fn valid_workflow_reorder(request: &ReorderWorkflowStatesRequest) -> (answer: bool)
    ensures
        answer == is_workflow_reorder(*request),
{
    valid_reorder(&request.items)
        && valid_id(request.idempotency_key.as_str())
        && valid_id(request.team_id.as_str())
}

/// Whether a workflow state archival is valid.
pub open spec fn is_workflow_archive(request: ArchiveWorkflowStateRequest) -> bool {
    &&& is_id(request.idempotency_key@)
    &&& is_id(request.state_id@)
    &&& revision_value(request.expected_revision@) is Some
}

/// Whether a workflow state archival is valid.
pub fn valid_workflow_archive(request: &ArchiveWorkflowStateRequest) -> (answer: bool)
    ensures
        answer == is_workflow_archive(*request),
{
    valid_idempotent_revision(
        request.idempotency_key.as_str(),
        request.state_id.as_str(),
        request.expected_revision.as_str(),
    )
}

/// Whether a workflow state deletion is valid.
pub open spec fn is_workflow_delete(request: DeleteWorkflowStateRequest) -> bool {
    &&& is_id(request.idempotency_key@)
    &&& is_id(request.state_id@)
    &&& revision_value(request.expected_revision@) is Some
    &&& is_id(request.team_id@)
}

/// Whether a workflow state deletion is valid.
pub fn valid_workflow_delete(request: &DeleteWorkflowStateRequest) -> (answer: bool)
    ensures
        answer == is_workflow_delete(*request),
{
    valid_idempotent_revision(
        request.idempotency_key.as_str(),
        request.state_id.as_str(),
        request.expected_revision.as_str(),
    )
        && valid_id(request.team_id.as_str())
}

/// Whether a workflow listing is valid.
pub open spec fn is_workflow_list(request: ListWorkflowStatesRequest) -> bool {
    &&& is_id(request.team_id@)
    &&& is_page_request(request.limit as int, text::text_of(request.after))
}

/// Whether a workflow listing is valid.
pub fn valid_workflow_list(request: &ListWorkflowStatesRequest) -> (answer: bool)
    ensures
        answer == is_workflow_list(*request),
{
    valid_id(request.team_id.as_str())
        && valid_page(request.limit, &request.after)
}

/// Whether a project status is valid.
pub open spec fn is_project_status_put(request: PutProjectStatusRequest) -> bool {
    &&& is_catalog_put(
        request.idempotency_key@,
        request.status_id@,
        request.name@,
        request.color@,
        text::text_of(request.expected_revision),
    )
}

/// Whether a project status is valid.
pub fn valid_project_status_put(request: &PutProjectStatusRequest) -> (answer: bool)
    ensures
        answer == is_project_status_put(*request),
{
    valid_catalog_put(
        request.idempotency_key.as_str(),
        request.status_id.as_str(),
        request.name.as_str(),
        request.color.as_str(),
        &request.expected_revision,
    )
}

/// Whether a project status reference is valid.
pub open spec fn is_project_status_get(request: GetProjectStatusRequest) -> bool {
    &&& is_id(request.status_id@)
}

/// Whether a project status reference is valid.
pub fn valid_project_status_get(request: &GetProjectStatusRequest) -> (answer: bool)
    ensures
        answer == is_project_status_get(*request),
{
    valid_id(request.status_id.as_str())
}

/// Whether a project status reorder is valid.
pub open spec fn is_project_status_reorder(request: ReorderProjectStatusesRequest) -> bool {
    &&& is_reorder(request.items@)
    &&& is_id(request.idempotency_key@)
}

/// Whether a project status reorder is valid.
pub fn valid_project_status_reorder(request: &ReorderProjectStatusesRequest) -> (answer: bool)
    ensures
        answer == is_project_status_reorder(*request),
{
    valid_reorder(&request.items)
        && valid_id(request.idempotency_key.as_str())
}

/// Whether a project status archival is valid.
pub open spec fn is_project_status_archive(request: ArchiveProjectStatusRequest) -> bool {
    &&& is_id(request.idempotency_key@)
    &&& is_id(request.status_id@)
    &&& revision_value(request.expected_revision@) is Some
}

/// Whether a project status archival is valid.
pub fn valid_project_status_archive(request: &ArchiveProjectStatusRequest) -> (answer: bool)
    ensures
        answer == is_project_status_archive(*request),
{
    valid_idempotent_revision(
        request.idempotency_key.as_str(),
        request.status_id.as_str(),
        request.expected_revision.as_str(),
    )
}

/// Whether a project status deletion is valid.
pub open spec fn is_project_status_delete(request: DeleteProjectStatusRequest) -> bool {
    &&& is_id(request.idempotency_key@)
    &&& is_id(request.status_id@)
    &&& revision_value(request.expected_revision@) is Some
}

/// Whether a project status deletion is valid.
pub fn valid_project_status_delete(request: &DeleteProjectStatusRequest) -> (answer: bool)
    ensures
        answer == is_project_status_delete(*request),
{
    valid_idempotent_revision(
        request.idempotency_key.as_str(),
        request.status_id.as_str(),
        request.expected_revision.as_str(),
    )
}

/// Whether a project status listing is valid.
pub open spec fn is_project_status_list(request: ListProjectStatusesRequest) -> bool {
    &&& is_page_request(request.limit as int, text::text_of(request.after))
}

/// Whether a project status listing is valid.
pub fn valid_project_status_list(request: &ListProjectStatusesRequest) -> (answer: bool)
    ensures
        answer == is_project_status_list(*request),
{
    valid_page(request.limit, &request.after)
}

/// Whether a label is valid.
pub open spec fn is_label_put(request: PutLabelRequest) -> bool {
    &&& is_catalog_put(
        request.idempotency_key@,
        request.label_id@,
        request.name@,
        request.color@,
        text::text_of(request.expected_revision),
    )
    &&& is_optional_id(text::text_of(request.team_id))
    &&& is_optional_text(text::text_of(request.description), 1000)
}

/// Whether a label is valid.
pub fn valid_label_put(request: &PutLabelRequest) -> (answer: bool)
    ensures
        answer == is_label_put(*request),
{
    valid_catalog_put(
        request.idempotency_key.as_str(),
        request.label_id.as_str(),
        request.name.as_str(),
        request.color.as_str(),
        &request.expected_revision,
    )
        && valid_optional_id(&request.team_id)
        && valid_optional_text(&request.description, 1000)
}

/// Whether a label listing is valid.
pub open spec fn is_label_list(request: ListLabelsRequest) -> bool {
    &&& is_page_request(request.limit as int, text::text_of(request.after))
    &&& is_optional_id(text::text_of(request.team_id))
}

/// Whether a label listing is valid.
pub fn valid_label_list(request: &ListLabelsRequest) -> (answer: bool)
    ensures
        answer == is_label_list(*request),
{
    valid_page(request.limit, &request.after)
        && valid_optional_id(&request.team_id)
}

/// Whether a cycle is valid.
pub open spec fn is_cycle_put(request: PutCycleRequest) -> bool {
    &&& is_id(request.idempotency_key@)
    &&& is_id(request.cycle_id@)
    &&& is_id(request.team_id@)
    &&& request.number >= 1
    &&& is_optional_text(text::text_of(request.name), 200)
    &&& is_optional_revision(text::text_of(request.expected_revision))
}

/// Whether a cycle is valid.
pub fn valid_cycle_put(request: &PutCycleRequest) -> (answer: bool)
    ensures
        answer == is_cycle_put(*request),
{
    valid_id(request.idempotency_key.as_str())
        && valid_id(request.cycle_id.as_str())
        && valid_id(request.team_id.as_str())
        && request.number >= 1
        && valid_optional_text(&request.name, 200)
        && valid_optional_revision(&request.expected_revision)
}

/// Whether a cycle listing is valid.
pub open spec fn is_cycle_list(request: ListCyclesRequest) -> bool {
    &&& is_id(request.team_id@)
    &&& is_page_request(request.limit as int, text::text_of(request.after))
}

/// Whether a cycle listing is valid.
pub fn valid_cycle_list(request: &ListCyclesRequest) -> (answer: bool)
    ensures
        answer == is_cycle_list(*request),
{
    valid_id(request.team_id.as_str())
        && valid_page(request.limit, &request.after)
}

/// Whether a milestone is valid.
pub open spec fn is_milestone_put(request: PutMilestoneRequest) -> bool {
    &&& is_id(request.idempotency_key@)
    &&& is_id(request.milestone_id@)
    &&& is_id(request.project_id@)
    &&& is_free_text(request.name@, 200)
    &&& is_optional_text(text::text_of(request.description), 2000)
    &&& is_optional_revision(text::text_of(request.expected_revision))
}

/// Whether a milestone is valid.
pub fn valid_milestone_put(request: &PutMilestoneRequest) -> (answer: bool)
    ensures
        answer == is_milestone_put(*request),
{
    valid_id(request.idempotency_key.as_str())
        && valid_id(request.milestone_id.as_str())
        && valid_id(request.project_id.as_str())
        && valid_text(request.name.as_str(), 200)
        && valid_optional_text(&request.description, 2000)
        && valid_optional_revision(&request.expected_revision)
}

/// Whether a milestone listing is valid.
pub open spec fn is_milestone_list(request: ListMilestonesRequest) -> bool {
    &&& is_id(request.project_id@)
    &&& is_page_request(request.limit as int, text::text_of(request.after))
}

/// Whether a milestone listing is valid.
pub fn valid_milestone_list(request: &ListMilestonesRequest) -> (answer: bool)
    ensures
        answer == is_milestone_list(*request),
{
    valid_id(request.project_id.as_str())
        && valid_page(request.limit, &request.after)
}

/// Whether an export request is valid.
pub open spec fn is_export(request: CollectExportRequest) -> bool {
    &&& request.scope_kind@ == "organization"@
    &&& is_id(request.export_id@)
    &&& is_id(request.scope_id@)
    &&& is_id(request.subject@)
}

/// Whether an export request is valid.
pub fn valid_export(request: &CollectExportRequest) -> (answer: bool)
    ensures
        answer == is_export(*request),
{
    text::same(request.scope_kind.as_str(), "organization")
        && valid_id(request.export_id.as_str())
        && valid_id(request.scope_id.as_str())
        && valid_id(request.subject.as_str())
}

/// Whether a retention request is valid.
pub open spec fn is_retention(request: ApplyRetentionRequest) -> bool {
    &&& request.scope_kind@ == "organization"@
    &&& is_id(request.action_id@)
    &&& is_id(request.scope_id@)
    &&& is_id(request.subject@)
    &&& is_free_text(request.reason@, 1000)
}

/// Whether a retention request is valid.
pub fn valid_retention(request: &ApplyRetentionRequest) -> (answer: bool)
    ensures
        answer == is_retention(*request),
{
    text::same(request.scope_kind.as_str(), "organization")
        && valid_id(request.action_id.as_str())
        && valid_id(request.scope_id.as_str())
        && valid_id(request.subject.as_str())
        && valid_text(request.reason.as_str(), 1000)
}

} // verus!
