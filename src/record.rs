//! Turning the registry's fields into records, and the checks made before a
//! record or a run may touch the store.
use vstd::prelude::*;
use crate::external::{date_in, datetime_in, is_json_document, parse_date, parse_datetime, parse_json_value};
use crate::model::{DetailFields, IncidentDetail, IncidentSummary, ParseError, PersistedIncident, SummaryFields};

verus! {

/// The textual form of the list's `modifiedDate`, in chrono's notation.
pub const MODIFIED_DATE_FORMAT: &'static str = "%Y-%m-%d %H:%M:%S";

/// The table of incident rows.
pub const INCIDENTS_TABLE: &'static str = "incidents";

/// The append-only table of raw list responses.
pub const HISTORY_TABLE: &'static str = "incident_history";

/// Why one record could not be synchronised. Such a failure is reported
/// with the record's identifier and does not end the run.
#[derive(Clone, Debug, PartialEq, Eq)]
pub enum RecordError {
    /// The detail request failed or did not answer with a success status.
    Fetch(String),
    /// The detail body could not be read as a detail document.
    Parse(ParseError),
    /// The embedded reference document is not JSON.
    InvalidReference,
    /// The store refused the row.
    Storage(String),
}

/// What `summary_from_fields` returns.
pub open spec fn summary_from(f: SummaryFields) -> Result<IncidentSummary, ParseError> {
    match date_in(f.org_publish_date@) {
        None => Err(ParseError::InvalidDate(f.org_publish_date)),
        Some(d) => match datetime_in(f.modified_date@, MODIFIED_DATE_FORMAT@) {
            None => Err(ParseError::InvalidDate(f.modified_date)),
            Some(t) => Ok(
                IncidentSummary {
                    incident_id: f.incident_id,
                    org_publish_date: d,
                    modified_date: t,
                    published: f.published,
                    country: f.country,
                    incident_text: f.incident_text,
                },
            ),
        },
    }
}

/// What `detail_from_fields` returns.
pub open spec fn detail_from(f: DetailFields) -> Result<IncidentDetail, ParseError> {
    match date_in(f.publish_date@) {
        None => Err(ParseError::InvalidDate(f.publish_date)),
        Some(d) => Ok(
            IncidentDetail {
                publish_date: d,
                affected_obj: f.affected_obj,
                affected_type: f.affected_type,
                details_text: f.description_de,
                tags: f.tags,
                href: f.href,
                reference: f.reference,
            },
        ),
    }
}

/// The row written for a summary and its detail, but for the parsed
/// reference document, which is the one thing it adds.
pub open spec fn row_matches(p: PersistedIncident, s: IncidentSummary, d: IncidentDetail) -> bool {
    &&& p.summary == s
    &&& p.publish_date == d.publish_date
    &&& p.affected_obj == d.affected_obj
    &&& p.affected_type == d.affected_type
    &&& p.details_text == d.details_text
    &&& p.tags == d.tags
    &&& p.href == d.href
}

/// Parses the dates of one entry of the incident list.
pub fn summary_from_fields(f: SummaryFields) -> (r: Result<IncidentSummary, ParseError>)
    ensures
        r == summary_from(f),
        r matches Ok(s) ==> s.wf(),
{
    let d = match parse_date(f.org_publish_date.as_str()) {
        None => return Err(ParseError::InvalidDate(f.org_publish_date)),
        Some(d) => d,
    };
    let t = match parse_datetime(f.modified_date.as_str(), MODIFIED_DATE_FORMAT) {
        None => return Err(ParseError::InvalidDate(f.modified_date)),
        Some(t) => t,
    };
    Ok(
        IncidentSummary {
            incident_id: f.incident_id,
            org_publish_date: d,
            modified_date: t,
            published: f.published,
            country: f.country,
            incident_text: f.incident_text,
        },
    )
}

/// The summaries that a list of entries parses to, where every entry parses.
pub open spec fn parsed_summaries(fields: Seq<SummaryFields>) -> Seq<IncidentSummary> {
    fields.map_values(|f: SummaryFields| summary_from(f)->Ok_0)
}

/// Whether the listed tables include both tables that a run writes to.
pub open spec fn has_required_tables(found: Seq<String>) -> bool {
    &&& exists|i: int| 0 <= i < found.len() && found[i]@ == INCIDENTS_TABLE@
    &&& exists|i: int| 0 <= i < found.len() && found[i]@ == HISTORY_TABLE@
}

/// `e` is the error of the first entry of the list that does not parse.
pub open spec fn first_failure(fields: Seq<SummaryFields>, e: ParseError) -> bool {
    exists|i: int|
        0 <= i < fields.len() && summary_from(fields[i]) == Err::<IncidentSummary, ParseError>(e)
            && forall|j: int| 0 <= j < i ==> (#[trigger] summary_from(fields[j])).is_ok()
}

/// Whether every entry of the list parses.
pub open spec fn all_summaries_parse(fields: Seq<SummaryFields>) -> bool {
    forall|i: int| 0 <= i < fields.len() ==> (#[trigger] summary_from(fields[i])).is_ok()
}

/// Parses every entry of the incident list, in order; the first entry that
/// does not parse decides the error.
pub fn summaries_from_fields(fields: Vec<SummaryFields>) -> (r: Result<Vec<IncidentSummary>, ParseError>)
    ensures
        r.is_ok() == all_summaries_parse(fields@),
        r matches Ok(v) ==> v@ == parsed_summaries(fields@),
        r matches Ok(v) ==> v@.len() == fields@.len() && forall|i: int|
            0 <= i < fields@.len() ==> summary_from(fields@[i]) == Ok::<IncidentSummary, ParseError>(
                #[trigger] v@[i],
            ),
        r matches Err(e) ==> first_failure(fields@, e),
{
    let mut rest = fields;
    let mut out: Vec<IncidentSummary> = Vec::new();
    while rest.len() > 0
        invariant
            out@.len() + rest@.len() == fields@.len(),
            rest@ == fields@.subrange(out@.len() as int, fields@.len() as int),
            forall|i: int| 0 <= i < out@.len() ==> summary_from(fields@[i]) == Ok::<IncidentSummary, ParseError>(
                #[trigger] out@[i],
            ),
        decreases rest.len(),
    {
        let f = rest.remove(0);
        let ghost k = out@.len() as int;
        assert(f == fields@[k]);
        match summary_from_fields(f) {
            Err(e) => {
                assert forall|j: int| 0 <= j < k implies (#[trigger] summary_from(fields@[j])).is_ok() by {
                    assert(summary_from(fields@[j]) == Ok::<IncidentSummary, ParseError>(out@[j]));
                }
                return Err(e);
            },
            Ok(s) => {
                out.push(s);
            },
        }
    }
    assert(out@ == parsed_summaries(fields@));
    assert(all_summaries_parse(fields@)) by {
        assert forall|i: int| 0 <= i < fields@.len() implies (#[trigger] summary_from(fields@[i])).is_ok() by {
            assert(summary_from(fields@[i]) == Ok::<IncidentSummary, ParseError>(out@[i]));
        }
    }
    Ok(out)
}

/// Parses the publish date of a detail document.
pub fn detail_from_fields(f: DetailFields) -> (r: Result<IncidentDetail, ParseError>)
    ensures
        r == detail_from(f),
        r matches Ok(d) ==> d.wf(),
{
    let d = match parse_date(f.publish_date.as_str()) {
        None => return Err(ParseError::InvalidDate(f.publish_date)),
        Some(d) => d,
    };
    Ok(
        IncidentDetail {
            publish_date: d,
            affected_obj: f.affected_obj,
            affected_type: f.affected_type,
            details_text: f.description_de,
            tags: f.tags,
            href: f.href,
            reference: f.reference,
        },
    )
}

/// Joins a summary and its detail into the row to write, after checking that
/// the detail's reference field holds a JSON document. A record whose
/// reference is not JSON is refused rather than written with a missing value.
pub fn prepare_record(summary: IncidentSummary, detail: IncidentDetail) -> (r: Result<PersistedIncident, RecordError>)
    ensures
        r.is_ok() == is_json_document(detail.reference@),
        r matches Ok(p) ==> row_matches(p, summary, detail),
        r matches Err(e) ==> e == RecordError::InvalidReference,
{
    match parse_json_value(detail.reference.as_str()) {
        Err(_) => Err(RecordError::InvalidReference),
        Ok(references) => Ok(
            PersistedIncident {
                summary,
                publish_date: detail.publish_date,
                affected_obj: detail.affected_obj,
                affected_type: detail.affected_type,
                details_text: detail.details_text,
                tags: detail.tags,
                href: detail.href,
                references,
            },
        ),
    }
}

/// Whether the listed tables include both tables that a run writes to.
pub fn tables_ready(found: &Vec<String>) -> (r: bool)
    ensures
        r == has_required_tables(found@),
{
    let incidents = INCIDENTS_TABLE.to_owned();
    let history = HISTORY_TABLE.to_owned();
    let mut has_incidents = false;
    let mut has_history = false;
    let mut i: usize = 0;
    while i < found.len()
        invariant
            i <= found@.len(),
            incidents@ == INCIDENTS_TABLE@,
            history@ == HISTORY_TABLE@,
            has_incidents == exists|j: int| 0 <= j < i && found@[j]@ == INCIDENTS_TABLE@,
            has_history == exists|j: int| 0 <= j < i && found@[j]@ == HISTORY_TABLE@,
        decreases found@.len() - i,
    {
        if found[i] == incidents {
            has_incidents = true;
        }
        if found[i] == history {
            has_history = true;
        }
        i = i + 1;
    }
    has_incidents && has_history
}

} // verus!
