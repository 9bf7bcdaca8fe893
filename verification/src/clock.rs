//! Instants, calendar dates and fresh identifiers, obtained from the `time` and `uuid` crates.
use crate::failure;
use crate::failure::{runtime, DomainFailure, StorageError};
use crate::text;
use vstd::prelude::*;

verus! {

/// The RFC 3339 form of the instant that lies `unix_nanos` nanoseconds after the Unix epoch, or the
/// message of the error that `time` reports for it.
pub uninterp spec fn rfc3339(unix_nanos: int) -> Result<Seq<char>, Seq<char>>;

/// The Julian day and the display form of the date that an ISO 8601 date text stands for; none
/// where `time` rejects the text.
pub uninterp spec fn iso_date(text: Seq<char>) -> Option<(int, Seq<char>)>;

/// An instant with its RFC 3339 form.
#[derive(Debug, PartialEq, Eq)]
pub struct Timestamp {
    pub unix_nanos: i128,
    pub text: String,
}

impl Clone for Timestamp {
    fn clone(&self) -> (copy: Self)
        ensures
            copy == *self,
    {
        Timestamp { unix_nanos: self.unix_nanos, text: self.text.clone() }
    }
}

/// A calendar date: its Julian day and its display form.
#[derive(Debug, PartialEq, Eq)]
pub struct CalendarDate {
    pub julian_day: i32,
    pub text: String,
}

impl Clone for CalendarDate {
    fn clone(&self) -> (copy: Self)
        ensures
            copy == *self,
    {
        CalendarDate { julian_day: self.julian_day, text: self.text.clone() }
    }
}

/// The optional instant, copied.
pub fn copy_time(value: &Option<Timestamp>) -> (copy: Option<Timestamp>)
    ensures
        copy == *value,
{
    match value {
        Some(value) => Some(value.clone()),
        None => None,
    }
}

/// What an optional instant reads as.
pub open spec fn time_text(value: Option<Timestamp>) -> Option<Seq<char>> {
    match value {
        Some(value) => Some(value.text@),
        None => None,
    }
}

/// What an optional date reads as.
pub open spec fn date_text(value: Option<CalendarDate>) -> Option<Seq<char>> {
    match value {
        Some(value) => Some(value.text@),
        None => None,
    }
}

/// What an optional instant reads as.
pub fn time_string(value: &Option<Timestamp>) -> (result: Option<String>)
    ensures
        text::text_of(result) == time_text(*value),
{
    match value {
        Some(value) => Some(value.text.clone()),
        None => None,
    }
}

/// What an optional date reads as.
pub fn format_date(value: &Option<CalendarDate>) -> (result: Option<String>)
    ensures
        text::text_of(result) == date_text(*value),
{
    match value {
        Some(value) => Some(value.text.clone()),
        None => None,
    }
}

/// Calls `time::OffsetDateTime::format` with `Rfc3339` on the instant at `unix_nanos`.
///
/// Believed of it: the text, or the error message, depends on the instant alone.
#[verifier::external_body]
fn rfc3339_of(unix_nanos: i128) -> (result: Result<String, String>)
    ensures
        match result {
            Ok(text) => rfc3339(unix_nanos as int) == Ok::<Seq<char>, Seq<char>>(text@),
            Err(message) => rfc3339(unix_nanos as int) == Err::<Seq<char>, Seq<char>>(message@),
        },
{
    match time::OffsetDateTime::from_unix_timestamp_nanos(unix_nanos) {
        Ok(instant) => instant.format(&time::format_description::well_known::Rfc3339).map_err(
            |error| error.to_string(),
        ),
        Err(error) => Err(error.to_string()),
    }
}

/// Calls `time::Date::parse` with `Iso8601::DATE`.
///
/// Believed of it: whether the text is accepted, the Julian day of the date and its display form
/// depend on the text alone.
#[verifier::external_body]
fn read_iso_date(value: &str) -> (result: Option<CalendarDate>)
    ensures
        match result {
            Some(date) => iso_date(value@) == Some((date.julian_day as int, date.text@)),
            None => iso_date(value@) is None,
        },
{
    match time::Date::parse(value, &time::format_description::well_known::Iso8601::DATE) {
        Ok(date) => Some(
            CalendarDate { julian_day: date.to_julian_day(), text: date.to_string() },
        ),
        Err(_) => None,
    }
}

/// Calls `uuid::Uuid::new_v4` and renders it in the simple form.
///
/// Believed of it: every outcome is 32 lower-case hexadecimal digits. Nothing is claimed about
/// which ones: they are random.
#[verifier::external_body]
fn random_hex() -> (result: String)
    ensures
        is_hex32(result@),
{
    uuid::Uuid::new_v4().simple().to_string()
}

/// Whether `text` is 32 lower-case hexadecimal digits.
pub open spec fn is_hex32(text: Seq<char>) -> bool {
    &&& text.len() == 32
    &&& forall|i: int|
        0 <= i < 32 ==> ('0' <= #[trigger] text[i] <= '9' || 'a' <= text[i] <= 'f')
}

/// Whether `id` is `prefix`, an underscore and 32 lower-case hexadecimal digits.
pub open spec fn is_catalog_id(id: Seq<char>, prefix: Seq<char>) -> bool {
    exists|hex: Seq<char>| #[trigger] is_hex32(hex) && id == prefix + "_"@ + hex
}

/// The RFC 3339 form of an instant.
pub fn format_time(unix_nanos: i128) -> (result: Result<String, StorageError>)
    ensures
        match rfc3339(unix_nanos as int) {
            Ok(text) => result matches Ok(value) && value@ == text,
            Err(message) => result matches Err(error) && failure::is_runtime(
                error,
                "format timestamp"@,
                message,
            ),
        },
{
    settle_time(rfc3339_of(unix_nanos))
}

/// What becomes of a formatted time: its text, or the failure of the operation.
pub fn settle_time(formatted: Result<String, String>) -> (result: Result<String, StorageError>)
    ensures
        match formatted {
            Ok(text) => result == Ok::<String, StorageError>(text),
            Err(message) => result matches Err(error) && failure::is_runtime(
                error,
                "format timestamp"@,
                message@,
            ),
        },
{
    match formatted {
        Ok(text) => Ok(text),
        Err(message) => Err(runtime("format timestamp", message.as_str())),
    }
}

impl Timestamp {
    /// The instant at `unix_nanos`, with its RFC 3339 form.
    pub fn new(unix_nanos: i128) -> (result: Result<Timestamp, StorageError>)
        ensures
            match rfc3339(unix_nanos as int) {
                Ok(text) => result matches Ok(value) && value.unix_nanos == unix_nanos
                    && value.text@ == text,
                Err(message) => result matches Err(error) && failure::is_runtime(
                    error,
                    "format timestamp"@,
                    message,
                ),
            },
    {
        match format_time(unix_nanos) {
            Ok(text) => Ok(Timestamp { unix_nanos, text }),
            Err(error) => Err(error),
        }
    }
}

/// Whether an optional date text is absent or accepted.
pub open spec fn date_accepted(value: Option<Seq<char>>) -> bool {
    match value {
        Some(text) => iso_date(text) is Some,
        None => true,
    }
}

/// Whether `date` is what the optional date text stands for.
pub open spec fn is_date(value: Option<Seq<char>>, date: Option<CalendarDate>) -> bool {
    match (value, date) {
        (Some(text), Some(date)) => iso_date(text) == Some((date.julian_day as int, date.text@)),
        (None, None) => true,
        _ => false,
    }
}

/// Reads an optional ISO 8601 date.
pub fn parse_date(value: &Option<String>) -> (result: Result<Option<CalendarDate>, DomainFailure>)
    ensures
        match result {
            Ok(date) => date_accepted(text::text_of(*value)) && is_date(
                text::text_of(*value),
                date,
            ),
            Err(failure) => !date_accepted(text::text_of(*value)) && failure
                == DomainFailure::InvalidRequest,
        },
{
    match value {
        Some(value) => settle_date(read_iso_date(value.as_str())),
        None => Ok(None),
    }
}

/// What becomes of a text that was read as a date: the date, or the refusal of the request.
pub fn settle_date(read: Option<CalendarDate>) -> (result: Result<
    Option<CalendarDate>,
    DomainFailure,
>)
    ensures
        result == match read {
            Some(date) => Ok::<Option<CalendarDate>, DomainFailure>(Some(date)),
            None => Err(DomainFailure::InvalidRequest),
        },
{
    match read {
        Some(date) => Ok(Some(date)),
        None => Err(DomainFailure::InvalidRequest),
    }
}

/// A fresh identifier for a catalog entry.
pub fn fresh_catalog_id(prefix: &str) -> (id: String)
    ensures
        is_catalog_id(id@, prefix@),
{
    let hex = random_hex();
    let mut id = prefix.to_owned();
    id.append("_");
    id.append(hex.as_str());
    assert(id@ == prefix@ + "_"@ + hex@);
    id
}

} // verus!
