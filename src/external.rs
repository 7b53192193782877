//! The calls into chrono, serde_json and std that the logic relies on, each
//! with the contract that its documentation gives.
use vstd::prelude::*;
use chrono::Datelike;
use chrono::Timelike;
use crate::model::{CalendarDate, Timestamp};

verus! {

/// A JSON value of serde_json, carried through unread.
#[verifier::external_type_specification]
#[verifier::external_body]
pub struct ExJsonValue(serde_json::Value);

/// serde_json's error type.
#[verifier::external_type_specification]
#[verifier::external_body]
pub struct ExJsonError(serde_json::Error);

/// Whether serde_json accepts the text as one JSON document.
pub uninterp spec fn is_json_document(text: Seq<char>) -> bool;

/// The date that chrono reads from the text in its `YYYY-MM-DD` form, if any.
pub uninterp spec fn date_in(text: Seq<char>) -> Option<CalendarDate>;

/// The date and time that chrono reads from the text under the format.
pub uninterp spec fn datetime_in(text: Seq<char>, format: Seq<char>) -> Option<Timestamp>;

/// The text without its leading and trailing white space.
pub uninterp spec fn trimmed(text: Seq<char>) -> Seq<char>;

/// Relies on serde_json::from_str into serde_json::Value: it succeeds exactly
/// on the texts that are one JSON document.
#[verifier::external_body]
pub(crate) fn parse_json_value(text: &str) -> (r: Result<serde_json::Value, serde_json::Error>)
    ensures
        r.is_ok() == is_json_document(text@),
{
    serde_json::from_str::<serde_json::Value>(text)
}

/// Relies on chrono's `FromStr` for `NaiveDate` (the form its serde support
/// reads); a `NaiveDate` always names an existing day.
#[verifier::external_body]
pub(crate) fn parse_date(text: &str) -> (r: Option<CalendarDate>)
    ensures
        r == date_in(text@),
        r matches Some(d) ==> d.wf(),
{
    text.parse::<chrono::NaiveDate>().ok().map(
        |d| CalendarDate { year: d.year(), month: d.month(), day: d.day() },
    )
}

/// Relies on chrono's `NaiveDateTime::parse_from_str`; a `NaiveDateTime`
/// names an existing day, and its `hour`, `minute` and `second` are below
/// 24, 60 and 60.
#[verifier::external_body]
pub(crate) fn parse_datetime(text: &str, format: &str) -> (r: Option<Timestamp>)
    ensures
        r == datetime_in(text@, format@),
        r matches Some(t) ==> t.wf(),
{
    chrono::NaiveDateTime::parse_from_str(text, format).ok().map(
        |t|
            Timestamp {
                date: CalendarDate { year: t.year(), month: t.month(), day: t.day() },
                hour: t.hour(),
                minute: t.minute(),
                second: t.second(),
            },
    )
}

/// Relies on `str::trim`: it drops leading and trailing white space.
#[verifier::external_body]
pub(crate) fn trim_text(text: &str) -> (r: String)
    ensures
        r@ == trimmed(text@),
{
    text.trim().to_string()
}

} // verus!
