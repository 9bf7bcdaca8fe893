//! Subject export: the JSON document of what a subject wrote, within a byte budget.
use crate::contract::{COLLECT_EXPORT_OPERATION, EXPORT_CAPABILITY};
use crate::failure::{RuntimeFailure, StorageError};
use crate::json;
use crate::json::{bool_json, quoted, quoted_option};
use crate::model;
use crate::model::{health_name, Activity, CollectExportRequest, Comment, Issue, ProjectUpdate};
use crate::store::Store;
use crate::table;
use crate::text;
use vstd::prelude::*;

verus! {

/// How many rows one page of an export section holds.
pub const EXPORT_PAGE_SIZE: i64 = 64;

/// The largest export payload, in bytes.
pub const MAX_EXPORT_BYTES: usize = 1_048_576;

/// The lists of an export, in the order in which they are written.
#[derive(Clone, Copy, Debug, PartialEq, Eq, Structural)]
pub enum ExportSection {
    Comments,
    ProjectUpdates,
    Activity,
    AssignedIssueIds,
}

/// The name of a section.
pub open spec fn section_name(section: ExportSection) -> Seq<char> {
    match section {
        ExportSection::Comments => "comments"@,
        ExportSection::ProjectUpdates => "project_updates"@,
        ExportSection::Activity => "activity"@,
        ExportSection::AssignedIssueIds => "assigned_issue_ids"@,
    }
}

/// The section that follows.
pub open spec fn following(section: ExportSection) -> Option<ExportSection> {
    match section {
        ExportSection::Comments => Some(ExportSection::ProjectUpdates),
        ExportSection::ProjectUpdates => Some(ExportSection::Activity),
        ExportSection::Activity => Some(ExportSection::AssignedIssueIds),
        ExportSection::AssignedIssueIds => None,
    }
}

/// How many sections follow.
pub open spec fn sections_left(section: ExportSection) -> nat {
    match section {
        ExportSection::Comments => 3,
        ExportSection::ProjectUpdates => 2,
        ExportSection::Activity => 1,
        ExportSection::AssignedIssueIds => 0,
    }
}

impl ExportSection {
    /// The name of the section.
    pub fn name(self) -> (name: &'static str)
        ensures
            name@ == section_name(self),
    {
        match self {
            ExportSection::Comments => "comments",
            ExportSection::ProjectUpdates => "project_updates",
            ExportSection::Activity => "activity",
            ExportSection::AssignedIssueIds => "assigned_issue_ids",
        }
    }

    /// The section that follows.
    pub fn next(self) -> (section: Option<ExportSection>)
        ensures
            section == following(self),
    {
        match self {
            ExportSection::Comments => Some(ExportSection::ProjectUpdates),
            ExportSection::ProjectUpdates => Some(ExportSection::Activity),
            ExportSection::Activity => Some(ExportSection::AssignedIssueIds),
            ExportSection::AssignedIssueIds => None,
        }
    }
}

/// The position after which the next page of a section starts.
#[derive(Clone, Debug, PartialEq, Eq)]
pub struct ExportCursor {
    pub sequence: Option<i64>,
    pub issue_id: Option<String>,
}

impl Default for ExportCursor {
    fn default() -> (cursor: Self)
        ensures
            cursor == (ExportCursor { sequence: None, issue_id: None }),
    {
        ExportCursor { sequence: None, issue_id: None }
    }
}

/// One row of an export section: its position and its JSON form.
#[derive(Debug, PartialEq, Eq)]
pub struct ExportRow {
    pub cursor: ExportCursor,
    pub json: String,
}

/// One document of an export.
#[derive(Clone, Debug, PartialEq, Eq)]
pub struct ExportItem {
    pub item_name: String,
    pub media_type: String,
    pub payload: String,
}

/// The documents of an export.
#[derive(Clone, Debug, PartialEq, Eq)]
pub struct CollectExportResponse {
    pub items: Vec<ExportItem>,
}

/// Whether `error` says that the export does not fit its budget.
pub open spec fn is_exhausted(error: StorageError) -> bool {
    error matches StorageError::Runtime(
        RuntimeFailure::ResourceExhausted { capability, operation },
    ) && capability@ == EXPORT_CAPABILITY@ && operation@ == COLLECT_EXPORT_OPERATION@
}

/// The failure of an export that does not fit its budget.
pub fn exhausted() -> (error: StorageError)
    ensures
        is_exhausted(error),
{
    StorageError::Runtime(
        RuntimeFailure::ResourceExhausted {
            capability: EXPORT_CAPABILITY.to_owned(),
            operation: COLLECT_EXPORT_OPERATION.to_owned(),
        },
    )
}

/// Text that never takes more bytes than its limit.
#[derive(Debug)]
pub struct ExportWriter {
    pub limit: usize,
    pub bytes: String,
    pub exhausted: bool,
}

/// Calls `String::with_capacity`: an empty string with room for `limit` bytes, so that writing up to
/// `limit` bytes allocates nothing more. A capacity above `isize::MAX` would panic.
#[verifier::external_body]
fn bounded_text(limit: usize) -> (result: String)
    requires
        limit <= isize::MAX,
    ensures
        result@ == Seq::<char>::empty(),
{
    String::with_capacity(limit)
}

/// The bytes of two texts in a row are the bytes of the one and of the other.
pub proof fn lemma_byte_len_add(a: Seq<char>, b: Seq<char>)
    ensures
        text::byte_len(a + b) == text::byte_len(a) + text::byte_len(b),
    decreases a.len(),
{
    if a.len() == 0 {
        assert(a + b =~= b);
    } else {
        lemma_byte_len_add(a.drop_first(), b);
        assert((a + b).drop_first() =~= a.drop_first() + b);
    }
}

impl ExportWriter {
    /// Whether the text is within the limit.
    pub open spec fn well_formed(self) -> bool {
        text::byte_len(self.bytes@) <= self.limit
    }

    /// Whether `text` can still be written.
    pub open spec fn fits(self, text: Seq<char>) -> bool {
        !self.exhausted && text::byte_len(self.bytes@ + text) <= self.limit
    }

    /// An empty text with the limit.
    pub fn new(limit: usize) -> (writer: ExportWriter)
        requires
            limit <= isize::MAX,
        ensures
            writer.well_formed(),
            writer.limit == limit,
            writer.bytes@ == Seq::<char>::empty(),
            !writer.exhausted,
    {
        ExportWriter { limit, bytes: bounded_text(limit), exhausted: false }
    }

    /// Writes `text` if it fits. Otherwise writes nothing, now and later.
    pub fn raw(&mut self, text: &str) -> (result: Result<(), StorageError>)
        requires
            old(self).well_formed(),
        ensures
            final(self).well_formed(),
            final(self).limit == old(self).limit,
            result is Ok <==> old(self).fits(text@),
            result is Ok ==> final(self).bytes@ == old(self).bytes@ + text@ && !final(self).exhausted,
            result matches Err(error) ==> is_exhausted(error) && final(self).exhausted && final(self).bytes
                == old(self).bytes,
    {
        proof {
            lemma_byte_len_add(self.bytes@, text@);
        }
        if self.exhausted || text.as_bytes().len() > self.limit - self.bytes.as_str().as_bytes().len() {
            self.exhausted = true;
            return Err(exhausted());
        }
        self.bytes.append(text);
        Ok(())
    }

    /// Writes `text` as a JSON string if it fits. Otherwise writes nothing, now and later.
    pub fn json(&mut self, text: &str) -> (result: Result<(), StorageError>)
        requires
            old(self).well_formed(),
        ensures
            final(self).well_formed(),
            final(self).limit == old(self).limit,
            result is Ok <==> old(self).fits(json::json_string(text@)),
            result is Ok ==> final(self).bytes@ == old(self).bytes@ + json::json_string(text@)
                && !final(self).exhausted,
            result matches Err(error) ==> is_exhausted(error) && final(self).exhausted && final(self).bytes
                == old(self).bytes,
    {
        let json = quoted(text);
        self.raw(json.as_str())
    }
}

/// The start of the document, up to the first row of the first section.
pub open spec fn opening(r: CollectExportRequest) -> Seq<char> {
    "{\"organization_id\":"@ + json::json_string(r.scope_id@) + ",\"subject\":"@
        + json::json_string(r.subject@) + ",\""@ + section_name(ExportSection::Comments) + "\":["@
}

/// What is written before a row.
pub open spec fn separator(first: bool) -> Seq<char> {
    if first {
        ""@
    } else {
        ","@
    }
}

/// What is written after the last row of a section, up to the first row of the following one.
pub open spec fn closing(section: ExportSection) -> Seq<char> {
    match following(section) {
        Some(next) => "],\""@ + section_name(next) + "\":["@,
        None => "]}"@,
    }
}

/// An export in progress: which rows it wants, and what it has written.
#[derive(Debug)]
pub struct ExportJob {
    pub writer: ExportWriter,
    pub section: Option<ExportSection>,
    pub after: ExportCursor,
    pub first: bool,
}

/// Whether `response` holds the one document with this payload.
pub open spec fn is_response(response: CollectExportResponse, payload: Seq<char>) -> bool {
    &&& response.items@.len() == 1
    &&& response.items@[0].item_name@ == "projects.json"@
    &&& response.items@[0].media_type@ == "application/json"@
    &&& response.items@[0].payload@ == payload
}

impl ExportJob {
    /// Writes the start of the document. The job then wants the rows of the first section.
    pub fn start(r: &CollectExportRequest, max_bytes: usize) -> (result: Result<ExportJob, StorageError>)
        requires
            max_bytes <= isize::MAX,
        ensures
            match result {
                Ok(job) => {
                    &&& text::byte_len(opening(*r)) <= max_bytes
                    &&& job.writer.well_formed()
                    &&& job.writer.limit == max_bytes
                    &&& !job.writer.exhausted
                    &&& job.writer.bytes@ == opening(*r)
                    &&& job.section == Some(ExportSection::Comments)
                    &&& job.after == (ExportCursor { sequence: None, issue_id: None })
                    &&& job.first
                },
                Err(error) => text::byte_len(opening(*r)) > max_bytes && is_exhausted(error),
            },
    {
        let mut writer = ExportWriter::new(max_bytes);
        let mut start = "{\"organization_id\":".to_owned();
        start.append(quoted(r.scope_id.as_str()).as_str());
        start.append(",\"subject\":");
        start.append(quoted(r.subject.as_str()).as_str());
        start.append(",\"");
        start.append(ExportSection::Comments.name());
        start.append("\":[");
        assert(Seq::<char>::empty() + opening(*r) =~= opening(*r));
        match writer.raw(start.as_str()) {
            Ok(()) => Ok(
                ExportJob {
                    writer,
                    section: Some(ExportSection::Comments),
                    after: ExportCursor { sequence: None, issue_id: None },
                    first: true,
                },
            ),
            Err(error) => Err(error),
        }
    }

    /// Writes one row of the wanted section.
    pub fn row(&mut self, cursor: ExportCursor, json: &str) -> (result: Result<(), StorageError>)
        requires
            old(self).writer.well_formed(),
        ensures
            final(self).writer.well_formed(),
            final(self).writer.limit == old(self).writer.limit,
            final(self).section == old(self).section,
            result is Ok <==> old(self).writer.fits(separator(old(self).first) + json@),
            result is Ok ==> {
                &&& final(self).writer.bytes@ == old(self).writer.bytes@ + (separator(
                    old(self).first,
                ) + json@)
                &&& !final(self).writer.exhausted
                &&& final(self).after == cursor
                &&& !final(self).first
            },
            result matches Err(error) ==> is_exhausted(error) && final(self).writer.exhausted,
    {
        let mut piece = if self.first {
            "".to_owned()
        } else {
            ",".to_owned()
        };
        piece.append(json);
        match self.writer.raw(piece.as_str()) {
            Ok(()) => {
                self.after = cursor;
                self.first = false;
                Ok(())
            },
            Err(error) => Err(error),
        }
    }

    /// Says how many rows the last page had: fewer than a full page end the section.
    pub fn page_read(&mut self, count: usize) -> (result: Result<(), StorageError>)
        requires
            old(self).writer.well_formed(),
            old(self).section is Some,
        ensures
            final(self).writer.well_formed(),
            final(self).writer.limit == old(self).writer.limit,
            count >= EXPORT_PAGE_SIZE ==> result is Ok && *final(self) == *old(self),
            count < EXPORT_PAGE_SIZE ==> (result is Ok <==> old(self).writer.fits(
                closing(old(self).section->0),
            )),
            count < EXPORT_PAGE_SIZE && result is Ok ==> {
                &&& final(self).writer.bytes@ == old(self).writer.bytes@ + closing(
                    old(self).section->0,
                )
                &&& !final(self).writer.exhausted
                &&& final(self).section == following(old(self).section->0)
                &&& final(self).after == (ExportCursor { sequence: None, issue_id: None })
                &&& final(self).first
            },
            result matches Err(error) ==> is_exhausted(error) && final(self).writer.exhausted,
    {
        if count >= EXPORT_PAGE_SIZE as usize {
            return Ok(());
        }
        let section = match self.section {
            Some(section) => section,
            None => {
                return Ok(());
            },
        };
        let next = section.next();
        let piece = match next {
            Some(next) => {
                let mut piece = "],\"".to_owned();
                piece.append(next.name());
                piece.append("\":[");
                piece
            },
            None => "]}".to_owned(),
        };
        match self.writer.raw(piece.as_str()) {
            Ok(()) => {
                self.section = next;
                self.after = ExportCursor { sequence: None, issue_id: None };
                self.first = true;
                Ok(())
            },
            Err(error) => Err(error),
        }
    }

    /// The response of a finished job.
    pub fn finish(self) -> (response: CollectExportResponse)
        ensures
            is_response(response, self.writer.bytes@),
    {
        let item = ExportItem {
            item_name: "projects.json".to_owned(),
            media_type: "application/json".to_owned(),
            payload: self.writer.bytes,
        };
        CollectExportResponse { items: vec![item] }
    }
}

/// The JSON form of a comment.
pub open spec fn comment_json(row: Comment) -> Seq<char> {
    "{\"comment_id\":"@ + json::json_string(row.comment_id@) + ",\"issue_id\":"@
        + json::json_string(row.issue_id@) + ",\"body\":"@ + json::json_string(row.body@)
        + ",\"deleted\":"@ + json::json_bool(row.deleted) + ",\"created_at\":"@
        + json::json_string(row.created_at.text@) + ",\"updated_at\":"@ + json::json_string(
        row.updated_at.text@,
    ) + "}"@
}

/// The JSON form of a project update.
pub open spec fn update_json(row: ProjectUpdate) -> Seq<char> {
    "{\"update_id\":"@ + json::json_string(row.update_id@) + ",\"project_id\":"@
        + json::json_string(row.project_id@) + ",\"body\":"@ + json::json_string(row.body@)
        + ",\"health\":"@ + json::json_string(model::health_text(row.health)) + ",\"created_at\":"@
        + json::json_string(row.created_at.text@) + "}"@
}

/// The JSON form of an activity record.
pub open spec fn activity_json(row: Activity) -> Seq<char> {
    "{\"activity_id\":"@ + json::json_string(text::integer_text(row.activity_id as int))
        + ",\"project_id\":"@ + json::json_option(text::text_of(row.project_id)) + ",\"issue_id\":"@
        + json::json_option(text::text_of(row.issue_id)) + ",\"operation\":"@ + json::json_string(
        row.operation@,
    ) + ",\"entity_kind\":"@ + json::json_string(row.entity_kind@) + ",\"entity_id\":"@
        + json::json_string(row.entity_id@) + ",\"revision\":"@ + json::json_option(
        crate::activity::revision_text(row.revision),
    ) + ",\"occurred_at\":"@ + json::json_string(row.occurred_at.text@) + "}"@
}

fn render_comment(row: &Comment) -> (result: String)
    ensures
        result@ == comment_json(*row),
{
    let mut out = "{\"comment_id\":".to_owned();
    out.append(quoted(row.comment_id.as_str()).as_str());
    out.append(",\"issue_id\":");
    out.append(quoted(row.issue_id.as_str()).as_str());
    out.append(",\"body\":");
    out.append(quoted(row.body.as_str()).as_str());
    out.append(",\"deleted\":");
    out.append(bool_json(row.deleted));
    out.append(",\"created_at\":");
    out.append(quoted(row.created_at.text.as_str()).as_str());
    out.append(",\"updated_at\":");
    out.append(quoted(row.updated_at.text.as_str()).as_str());
    out.append("}");
    out
}

fn render_update(row: &ProjectUpdate) -> (result: String)
    ensures
        result@ == update_json(*row),
{
    let mut out = "{\"update_id\":".to_owned();
    out.append(quoted(row.update_id.as_str()).as_str());
    out.append(",\"project_id\":");
    out.append(quoted(row.project_id.as_str()).as_str());
    out.append(",\"body\":");
    out.append(quoted(row.body.as_str()).as_str());
    out.append(",\"health\":");
    out.append(quoted(health_name(&row.health)).as_str());
    out.append(",\"created_at\":");
    out.append(quoted(row.created_at.text.as_str()).as_str());
    out.append("}");
    out
}

fn render_activity(row: &Activity) -> (result: String)
    ensures
        result@ == activity_json(*row),
{
    let mut out = "{\"activity_id\":".to_owned();
    out.append(quoted(text::integer_string(row.activity_id).as_str()).as_str());
    out.append(",\"project_id\":");
    out.append(quoted_option(&row.project_id).as_str());
    out.append(",\"issue_id\":");
    out.append(quoted_option(&row.issue_id).as_str());
    out.append(",\"operation\":");
    out.append(quoted(row.operation.as_str()).as_str());
    out.append(",\"entity_kind\":");
    out.append(quoted(row.entity_kind.as_str()).as_str());
    out.append(",\"entity_id\":");
    out.append(quoted(row.entity_id.as_str()).as_str());
    out.append(",\"revision\":");
    let revision = match row.revision {
        Some(revision) => Some(text::integer_string(revision)),
        None => None,
    };
    out.append(quoted_option(&revision).as_str());
    out.append(",\"occurred_at\":");
    out.append(quoted(row.occurred_at.text.as_str()).as_str());
    out.append("}");
    out
}

/// Picks the comments that the subject wrote.
pub open spec fn wrote_comment(r: CollectExportRequest) -> spec_fn(Comment) -> bool {
    |row: Comment| row.organization_id@ == r.scope_id@ && row.author_subject@ == r.subject@
}

/// Picks the project updates that the subject wrote.
pub open spec fn wrote_update(r: CollectExportRequest) -> spec_fn(ProjectUpdate) -> bool {
    |row: ProjectUpdate| row.organization_id@ == r.scope_id@ && row.author_subject@ == r.subject@
}

/// Picks the activity of the subject.
pub open spec fn acted(r: CollectExportRequest) -> spec_fn(Activity) -> bool {
    |row: Activity| row.organization_id@ == r.scope_id@ && row.actor_subject@ == r.subject@
}

/// Picks the issues assigned to the subject.
pub open spec fn is_assigned(r: CollectExportRequest) -> spec_fn(Issue) -> bool {
    |row: Issue|
        row.organization_id@ == r.scope_id@ && text::text_of(row.assignee_subject) == Some(r.subject@)
}

/// The identifiers of the issues assigned to the subject, in the order of the rows.
pub open spec fn assigned_ids(s: Store, r: CollectExportRequest) -> Seq<String> {
    s.issues@.filter(is_assigned(r)).map_values(|row: Issue| row.issue_id)
}

/// The JSON rows of a section. `assigned` holds the identifiers of the assigned issues.
pub open spec fn section_rows(
    s: Store,
    r: CollectExportRequest,
    assigned: Seq<String>,
    section: ExportSection,
) -> Seq<Seq<char>> {
    match section {
        ExportSection::Comments => s.comments@.filter(wrote_comment(r)).map_values(
            |row: Comment| comment_json(row),
        ),
        ExportSection::ProjectUpdates => s.project_updates@.filter(wrote_update(r)).map_values(
            |row: ProjectUpdate| update_json(row),
        ),
        ExportSection::Activity => s.activity@.filter(acted(r)).map_values(
            |row: Activity| activity_json(row),
        ),
        ExportSection::AssignedIssueIds => assigned.map_values(
            |id: String| json::json_string(id@),
        ),
    }
}

/// The rows from index `i` on, separated by commas.
pub open spec fn rows_text(rows: Seq<Seq<char>>, i: int) -> Seq<char>
    decreases rows.len() - i,
{
    if 0 <= i < rows.len() {
        (separator(i == 0) + rows[i]) + rows_text(rows, i + 1)
    } else {
        Seq::empty()
    }
}

/// The document from row `i` of a section on.
pub open spec fn remaining_text(
    s: Store,
    r: CollectExportRequest,
    assigned: Seq<String>,
    section: ExportSection,
    i: int,
) -> Seq<char>
    decreases sections_left(section),
{
    rows_text(section_rows(s, r, assigned, section), i) + (closing(section) + match following(
        section,
    ) {
        Some(next) => remaining_text(s, r, assigned, next, 0),
        None => Seq::empty(),
    })
}

/// The document: the four lists of a subject under the names of their sections.
pub open spec fn export_text(s: Store, r: CollectExportRequest, assigned: Seq<String>) -> Seq<char> {
    opening(r) + remaining_text(s, r, assigned, ExportSection::Comments, 0)
}

/// What an export answers: the document with the assigned issues in ascending order if it takes at
/// most `max_bytes` bytes, otherwise that it does not fit.
pub open spec fn export_outcome(
    s: Store,
    r: CollectExportRequest,
    max_bytes: int,
    assigned: Seq<String>,
    result: Result<CollectExportResponse, StorageError>,
) -> bool {
    &&& text::sorted_from(assigned, assigned_ids(s, r))
    &&& match result {
        Ok(response) => {
            &&& text::byte_len(export_text(s, r, assigned)) <= max_bytes
            &&& is_response(response, export_text(s, r, assigned))
        },
        Err(error) => {
            &&& text::byte_len(export_text(s, r, assigned)) > max_bytes
            &&& is_exhausted(error)
        },
    }
}

/// Renders the rows on which `test` answers true.
fn render_rows<T, F: Fn(&T) -> bool, G: Fn(&T) -> ExportRow>(
    rows: &Vec<T>,
    test: F,
    keep: Ghost<spec_fn(T) -> bool>,
    make: G,
    json_of: Ghost<spec_fn(T) -> Seq<char>>,
) -> (result: Vec<ExportRow>)
    requires
        forall|row: &T| test.requires((row,)),
        forall|row: &T, b: bool| test.ensures((row,), b) ==> b == keep@(*row),
        forall|row: &T| make.requires((row,)),
        forall|row: &T, made: ExportRow| make.ensures((row,), made) ==> made.json@ == json_of@(*row),
    ensures
        json_rows(result@) == rows@.filter(keep@).map_values(json_of@),
{
    let mut result: Vec<ExportRow> = Vec::new();
    let mut i: usize = 0;
    proof {
        reveal(Seq::filter);
        assert(rows@.take(0).filter(keep@) =~= Seq::<T>::empty());
        assert(json_rows(result@) =~= rows@.take(0).filter(keep@).map_values(json_of@));
    }
    while i < rows.len()
        invariant
            i <= rows.len(),
            json_rows(result@) == rows@.take(i as int).filter(keep@).map_values(json_of@),
            forall|row: &T| test.requires((row,)),
            forall|row: &T, b: bool| test.ensures((row,), b) ==> b == keep@(*row),
            forall|row: &T| make.requires((row,)),
            forall|row: &T, made: ExportRow|
                make.ensures((row,), made) ==> made.json@ == json_of@(*row),
        decreases rows.len() - i,
    {
        proof {
            table::lemma_filter_step(rows@, keep@, i as int);
        }
        if test(&rows[i]) {
            let ghost before = result@;
            let made = make(&rows[i]);
            result.push(made);
            assert(json_rows(result@) =~= json_rows(before).push(json_of@(rows@[i as int])));
            assert(rows@.take(i as int).filter(keep@).push(rows@[i as int]).map_values(json_of@)
                =~= rows@.take(i as int).filter(keep@).map_values(json_of@).push(
                json_of@(rows@[i as int]),
            ));
        }
        i = i + 1;
    }
    assert(rows@.take(i as int) =~= rows@);
    result
}

/// The JSON forms of export rows.
pub open spec fn json_rows(rows: Seq<ExportRow>) -> Seq<Seq<char>> {
    rows.map_values(|row: ExportRow| row.json@)
}

impl Store {
    /// The identifiers of the issues assigned to the subject, in ascending order.
    fn assigned_issue_ids(&self, r: &CollectExportRequest) -> (ids: Vec<String>)
        ensures
            text::sorted_from(ids@, assigned_ids(*self, *r)),
    {
        let ghost keep = is_assigned(*r);
        let mut found: Vec<String> = Vec::new();
        let mut i: usize = 0;
        proof {
            reveal(Seq::filter);
            assert(self.issues@.take(0).filter(keep) =~= Seq::<Issue>::empty());
            assert(found@ =~= self.issues@.take(0).filter(keep).map_values(
                |row: Issue| row.issue_id,
            ));
        }
        while i < self.issues.len()
            invariant
                i <= self.issues.len(),
                keep == is_assigned(*r),
                found@ == self.issues@.take(i as int).filter(keep).map_values(
                    |row: Issue| row.issue_id,
                ),
            decreases self.issues.len() - i,
        {
            let row = &self.issues[i];
            proof {
                table::lemma_filter_step(self.issues@, keep, i as int);
            }
            if text::same(row.organization_id.as_str(), r.scope_id.as_str()) && text::is_text(
                &row.assignee_subject,
                r.subject.as_str(),
            ) {
                let ghost before = found@;
                found.push(row.issue_id.clone());
                assert(self.issues@.take(i as int).filter(keep).push(*row).map_values(
                    |row: Issue| row.issue_id,
                ) =~= before.push(row.issue_id));
            }
            i = i + 1;
        }
        assert(self.issues@.take(i as int) =~= self.issues@);
        text::sort_texts(&found)
    }

    /// The rows of a section, in order.
    fn export_rows(&self, r: &CollectExportRequest, assigned: &Vec<String>, section: ExportSection) -> (rows:
        Vec<ExportRow>)
        ensures
            json_rows(rows@) == section_rows(*self, *r, assigned@, section),
    {
        match section {
            ExportSection::Comments => render_rows(
                &self.comments,
                |row: &Comment| -> (hit: bool)
                    ensures
                        hit == wrote_comment(*r)(*row)
                {
                    text::same(row.organization_id.as_str(), r.scope_id.as_str()) && text::same(
                        row.author_subject.as_str(),
                        r.subject.as_str(),
                    )
                },
                Ghost(wrote_comment(*r)),
                |row: &Comment| -> (made: ExportRow)
                    ensures
                        made.json@ == comment_json(*row)
                {
                    ExportRow {
                        cursor: ExportCursor { sequence: Some(row.row_seq), issue_id: None },
                        json: render_comment(row),
                    }
                },
                Ghost(|row: Comment| comment_json(row)),
            ),
            ExportSection::ProjectUpdates => render_rows(
                &self.project_updates,
                |row: &ProjectUpdate| -> (hit: bool)
                    ensures
                        hit == wrote_update(*r)(*row)
                {
                    text::same(row.organization_id.as_str(), r.scope_id.as_str()) && text::same(
                        row.author_subject.as_str(),
                        r.subject.as_str(),
                    )
                },
                Ghost(wrote_update(*r)),
                |row: &ProjectUpdate| -> (made: ExportRow)
                    ensures
                        made.json@ == update_json(*row)
                {
                    ExportRow {
                        cursor: ExportCursor { sequence: Some(row.row_seq), issue_id: None },
                        json: render_update(row),
                    }
                },
                Ghost(|row: ProjectUpdate| update_json(row)),
            ),
            ExportSection::Activity => render_rows(
                &self.activity,
                |row: &Activity| -> (hit: bool)
                    ensures
                        hit == acted(*r)(*row)
                {
                    text::same(row.organization_id.as_str(), r.scope_id.as_str()) && text::same(
                        row.actor_subject.as_str(),
                        r.subject.as_str(),
                    )
                },
                Ghost(acted(*r)),
                |row: &Activity| -> (made: ExportRow)
                    ensures
                        made.json@ == activity_json(*row)
                {
                    ExportRow {
                        cursor: ExportCursor { sequence: Some(row.activity_id), issue_id: None },
                        json: render_activity(row),
                    }
                },
                Ghost(|row: Activity| activity_json(row)),
            ),
            ExportSection::AssignedIssueIds => {
                let mut rows: Vec<ExportRow> = Vec::new();
                let mut i: usize = 0;
                while i < assigned.len()
                    invariant
                        i <= assigned.len(),
                        json_rows(rows@) == assigned@.take(i as int).map_values(
                            |id: String| json::json_string(id@),
                        ),
                    decreases assigned.len() - i,
                {
                    let ghost before = rows@;
                    let json = quoted(assigned[i].as_str());
                    let cursor = ExportCursor { sequence: None, issue_id: Some(assigned[i].clone()) };
                    rows.push(ExportRow { cursor, json });
                    assert(json_rows(rows@) =~= json_rows(before).push(
                        json::json_string(assigned@[i as int]@),
                    ));
                    assert(assigned@.take(i + 1).map_values(|id: String| json::json_string(id@))
                        =~= assigned@.take(i as int).map_values(
                        |id: String| json::json_string(id@),
                    ).push(json::json_string(assigned@[i as int]@)));
                    i = i + 1;
                }
                assert(assigned@.take(i as int) =~= assigned@);
                rows
            },
        }
    }

    /// Exports what the subject wrote, page after page, within `max_bytes` bytes.
    pub fn collect_export(&self, r: &CollectExportRequest, max_bytes: usize) -> (result: Result<
        CollectExportResponse,
        StorageError,
    >)
        requires
            max_bytes <= isize::MAX,
        ensures
            exists|assigned: Seq<String>| export_outcome(*self, *r, max_bytes as int, assigned, result),
    {
        let assigned = self.assigned_issue_ids(r);
        let ghost whole = export_text(*self, *r, assigned@);
        proof {
            lemma_byte_len_add(
                opening(*r),
                remaining_text(*self, *r, assigned@, ExportSection::Comments, 0),
            );
        }
        let mut job = match ExportJob::start(r, max_bytes) {
            Ok(job) => job,
            Err(error) => {
                let result = Err(error);
                assert(export_outcome(*self, *r, max_bytes as int, assigned@, result));
                return result;
            },
        };
        let mut section = ExportSection::Comments;
        loop
            invariant
                whole == export_text(*self, *r, assigned@),
                text::sorted_from(assigned@, assigned_ids(*self, *r)),
                job.writer.well_formed(),
                job.writer.limit == max_bytes,
                !job.writer.exhausted,
                job.section == Some(section),
                job.first,
                whole == job.writer.bytes@ + remaining_text(*self, *r, assigned@, section, 0),
            decreases sections_left(section),
        {
            let rows = self.export_rows(r, &assigned, section);
            if let Err(error) = self.feed_section(&mut job, r, &assigned, section, &rows) {
                let result = Err(error);
                assert(export_outcome(*self, *r, max_bytes as int, assigned@, result));
                return result;
            }
            match section.next() {
                Some(next) => {
                    section = next;
                },
                None => {
                    let result = Ok(job.finish());
                    assert(whole =~= job.writer.bytes@);
                    assert(export_outcome(*self, *r, max_bytes as int, assigned@, result));
                    return result;
                },
            }
        }
    }

    /// Feeds the rows of a section to the job, page by page, and ends the section.
    fn feed_section(
        &self,
        job: &mut ExportJob,
        r: &CollectExportRequest,
        assigned: &Vec<String>,
        section: ExportSection,
        rows: &Vec<ExportRow>,
    ) -> (result: Result<(), StorageError>)
        requires
            json_rows(rows@) == section_rows(*self, *r, assigned@, section),
            old(job).writer.well_formed(),
            !old(job).writer.exhausted,
            old(job).section == Some(section),
            old(job).first,
            export_text(*self, *r, assigned@) == old(job).writer.bytes@ + remaining_text(
                *self,
                *r,
                assigned@,
                section,
                0,
            ),
        ensures
            final(job).writer.well_formed(),
            final(job).writer.limit == old(job).writer.limit,
            match result {
                Ok(()) => {
                    &&& !final(job).writer.exhausted
                    &&& final(job).section == following(section)
                    &&& final(job).first
                    &&& export_text(*self, *r, assigned@) == final(job).writer.bytes@
                        + match following(section) {
                        Some(next) => remaining_text(*self, *r, assigned@, next, 0),
                        None => Seq::empty(),
                    }
                },
                Err(error) => is_exhausted(error) && text::byte_len(
                    export_text(*self, *r, assigned@),
                ) > old(job).writer.limit,
            },
    {
        let ghost whole = export_text(*self, *r, assigned@);
        let ghost texts = section_rows(*self, *r, assigned@, section);
        let ghost limit = job.writer.limit;
        let ghost after = match following(section) {
            Some(next) => remaining_text(*self, *r, assigned@, next, 0),
            None => Seq::empty(),
        };
        let mut i: usize = 0;
        let mut count: usize = 0;
        loop
            invariant
                whole == export_text(*self, *r, assigned@),
                texts == section_rows(*self, *r, assigned@, section),
                texts == json_rows(rows@),
                after == (match following(section) {
                    Some(next) => remaining_text(*self, *r, assigned@, next, 0),
                    None => Seq::empty(),
                }),
                i <= rows.len(),
                count <= EXPORT_PAGE_SIZE,
                count <= i,
                job.writer.well_formed(),
                job.writer.limit == limit,
                limit == old(job).writer.limit,
                !job.writer.exhausted,
                job.section == Some(section),
                job.first == (i == 0),
                whole == job.writer.bytes@ + (rows_text(texts, i as int) + (closing(section)
                    + after)),
            decreases rows.len() - i, count,
        {
            let ghost rest = rows_text(texts, i as int) + (closing(section) + after);
            if i < rows.len() && count < EXPORT_PAGE_SIZE as usize {
                let cursor = rows[i].cursor.clone();
                let ghost piece = separator(i == 0) + rows@[i as int].json@;
                let ghost later = rows_text(texts, i + 1) + (closing(section) + after);
                let ghost before = job.writer.bytes@;
                proof {
                    assert(texts[i as int] == rows@[i as int].json@);
                    assert(rest =~= piece + later);
                    assert(whole =~= (before + piece) + later);
                    lemma_byte_len_add(before + piece, later);
                }
                if let Err(error) = job.row(cursor, rows[i].json.as_str()) {
                    return Err(error);
                }
                i = i + 1;
                count = count + 1;
            } else {
                let full = count == EXPORT_PAGE_SIZE as usize;
                let ghost before = job.writer.bytes@;
                proof {
                    if !full {
                        assert(rows_text(texts, i as int) =~= Seq::empty());
                        assert(rest =~= closing(section) + after);
                        assert(whole =~= (before + closing(section)) + after);
                        lemma_byte_len_add(before + closing(section), after);
                    }
                }
                if let Err(error) = job.page_read(count) {
                    return Err(error);
                }
                if !full {
                    return Ok(());
                }
                count = 0;
            }
        }
    }
}

} // verus!
