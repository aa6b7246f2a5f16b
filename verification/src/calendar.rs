//! Calendar dates and instants, and the clock and the date parser behind
//! them.

use crate::error::{ErrorView, LedgerError};
use chrono::Datelike;
use vstd::prelude::*;
use vstd::string::StringExecFns;

verus! {

/// A calendar date: year, month of the year and day of the month.
#[derive(Clone, Copy, Debug, PartialEq, Eq, Structural)]
pub struct Date {
    pub year: i32,
    pub month: u32,
    pub day: u32,
}

/// An instant: whole seconds since the Unix epoch and the nanoseconds past
/// them.
#[derive(Clone, Copy, Debug, PartialEq, Eq, Structural)]
pub struct Timestamp {
    pub seconds: i64,
    pub nanos: u32,
}

/// What `chrono::NaiveDate::parse_from_str` makes of a text under the format
/// `%Y-%m-%d`: the date it reads, or nothing where it refuses the text.
pub uninterp spec fn ymd_parse(text: Seq<char>) -> Option<Date>;

/// `chrono::ParseError`, the refusal that the date parser hands back. It is
/// carried from the parser to the caller and never looked into.
#[verifier::external_type_specification]
#[verifier::external_body]
pub struct ExParseError(chrono::ParseError);

/// Calls `chrono::NaiveDate::parse_from_str` with the format `%Y-%m-%d` and
/// hands the date back by year, month and day. Nothing is proved of the
/// parser: the contract only gives its result the name [`ymd_parse`].
#[verifier::external_body]
fn parse_ymd(text: &str) -> (parsed: Result<Date, chrono::ParseError>)
    ensures
        parsed is Ok <==> ymd_parse(text@) is Some,
        parsed matches Ok(date) ==> ymd_parse(text@) == Some(date),
{
    match chrono::NaiveDate::parse_from_str(text, "%Y-%m-%d") {
        Ok(date) => Ok(Date { year: date.year(), month: date.month(), day: date.day() }),
        Err(refusal) => Err(refusal),
    }
}

/// Calls `chrono::Utc::now` and hands the instant back by seconds and
/// nanoseconds. The clock decides the result, so nothing is claimed of it.
#[verifier::external_body]
pub(crate) fn current_time() -> (now: Timestamp) {
    let now = chrono::Utc::now();
    Timestamp { seconds: now.timestamp(), nanos: now.timestamp_subsec_nanos() }
}

/// Reads a date written as `YYYY-MM-DD`.
///
/// Returns the date where the parser accepts the text. Where it refuses the
/// text, be it for the format or for a day that the calendar lacks, the
/// call fails and names the text.
pub fn parse_date(text: &str) -> (date: Result<Date, LedgerError>)
    ensures
        match ymd_parse(text@) {
            Some(parsed) => date == Ok::<Date, LedgerError>(parsed),
            None => date matches Err(error) && error@ == (ErrorView::InvalidDate { input: text@ }),
        },
{
    match parse_ymd(text) {
        Ok(date) => Ok(date),
        Err(_) => Err(LedgerError::InvalidDate { input: text.to_owned() }),
    }
}

/// What reading an optional date comes to: no date where there is no text,
/// the date where the text is one, and the failure where it is none.
pub open spec fn optional_date(text: Option<Seq<char>>) -> Result<Option<Date>, ErrorView> {
    match text {
        None => Ok(None),
        Some(text) => match ymd_parse(text) {
            Some(date) => Ok(Some(date)),
            None => Err(ErrorView::InvalidDate { input: text }),
        },
    }
}

/// Reads a date written as `YYYY-MM-DD`, where there is one to read.
pub fn parse_optional_date(text: &Option<String>) -> (date: Result<Option<Date>, LedgerError>)
    ensures
        match optional_date(text.deep_view()) {
            Ok(parsed) => date == Ok::<Option<Date>, LedgerError>(parsed),
            Err(reason) => date matches Err(error) && error@ == reason,
        },
{
    match text {
        Some(text) => Ok(Some(parse_date(text.as_str())?)),
        None => Ok(None),
    }
}

/// The first day of a month written as `YYYY-MM`: the month with `-01`
/// behind it, read as a date.
pub fn month_start(month: &str) -> (date: Result<Date, LedgerError>)
    ensures
        match ymd_parse(month@ + "-01"@) {
            Some(parsed) => date == Ok::<Date, LedgerError>(parsed),
            None => date matches Err(error) && error@ == (ErrorView::InvalidDate {
                input: month@ + "-01"@,
            }),
        },
{
    let text = month.to_owned().concat("-01");
    parse_date(text.as_str())
}

} // verus!
