//! The records that a run handles.
use vstd::prelude::*;

verus! {

/// Whether `year` is a leap year of the proleptic Gregorian calendar.
pub open spec fn is_leap_year(year: int) -> bool {
    (year % 4 == 0 && year % 100 != 0) || year % 400 == 0
}

/// The number of days of `month` (1 to 12) in `year`.
pub open spec fn days_in_month(year: int, month: int) -> int {
    if month == 2 {
        if is_leap_year(year) { 29 } else { 28 }
    } else if month == 4 || month == 6 || month == 9 || month == 11 {
        30
    } else {
        31
    }
}

/// A day of the proleptic Gregorian calendar.
#[derive(Clone, Copy, Debug, PartialEq, Eq, Structural)]
pub struct CalendarDate {
    pub year: i32,
    pub month: u32,
    pub day: u32,
}

impl CalendarDate {
    /// The fields name an existing day.
    pub open spec fn wf(&self) -> bool {
        &&& 1 <= self.month <= 12
        &&& 1 <= self.day <= days_in_month(self.year as int, self.month as int)
    }
}

/// A date and a time of day, to the second, without a time zone.
#[derive(Clone, Copy, Debug, PartialEq, Eq, Structural)]
pub struct Timestamp {
    pub date: CalendarDate,
    pub hour: u32,
    pub minute: u32,
    pub second: u32,
}

impl Timestamp {
    pub open spec fn wf(&self) -> bool {
        &&& self.date.wf()
        &&& self.hour < 24
        &&& self.minute < 60
        &&& self.second < 60
    }
}

/// One entry of the registry's incident list, as its JSON names it.
/// The dates are still text.
#[derive(Clone, Debug)]
pub struct SummaryFields {
    pub incident_id: i32,
    pub org_publish_date: String,
    pub modified_date: String,
    pub published: i32,
    pub country: String,
    pub incident_text: String,
}

/// The registry's detail document for one incident, as its JSON names it.
#[derive(Clone, Debug)]
pub struct DetailFields {
    pub publish_date: String,
    pub affected_obj: String,
    pub affected_type: String,
    pub description_de: String,
    pub tags: String,
    pub href: String,
    pub reference: String,
}

/// An incident of the list snapshot, with its dates parsed.
#[derive(Clone, Debug)]
pub struct IncidentSummary {
    pub incident_id: i32,
    pub org_publish_date: CalendarDate,
    pub modified_date: Timestamp,
    pub published: i32,
    pub country: String,
    pub incident_text: String,
}

impl IncidentSummary {
    pub open spec fn wf(&self) -> bool {
        self.org_publish_date.wf() && self.modified_date.wf()
    }
}

/// The detail of one incident, with its publish date parsed. `reference`
/// is still the embedded document as text.
#[derive(Clone, Debug)]
pub struct IncidentDetail {
    pub publish_date: CalendarDate,
    pub affected_obj: String,
    pub affected_type: String,
    pub details_text: String,
    pub tags: String,
    pub href: String,
    pub reference: String,
}

impl IncidentDetail {
    pub open spec fn wf(&self) -> bool {
        self.publish_date.wf()
    }
}

/// A summary and its detail, ready to be written as one row. The embedded
/// reference document has been parsed and is kept as an untyped value.
#[derive(Debug)]
pub struct PersistedIncident {
    pub summary: IncidentSummary,
    pub publish_date: CalendarDate,
    pub affected_obj: String,
    pub affected_type: String,
    pub details_text: String,
    pub tags: String,
    pub href: String,
    pub references: serde_json::Value,
}

/// Why the registry's JSON could not be turned into records.
#[derive(Clone, Debug, PartialEq, Eq)]
pub enum ParseError {
    /// The body is not JSON at all.
    InvalidJson(String),
    /// The body is JSON, but a field is missing or has the wrong type.
    WrongShape(String),
    /// A date field does not hold a date in the registry's format; the
    /// offending text.
    InvalidDate(String),
}

} // verus!
