use std::collections::HashSet;

use dsgvo_downloader::diff::{collect_ids, new_incidents};
use dsgvo_downloader::model::{
    CalendarDate, DetailFields, IncidentSummary, ParseError, SummaryFields, Timestamp,
};
use dsgvo_downloader::record::{
    detail_from_fields, prepare_record, summaries_from_fields, summary_from_fields, tables_ready,
    RecordError,
};

fn fields(id: i32) -> SummaryFields {
    SummaryFields {
        incident_id: id,
        org_publish_date: "2024-01-15".to_string(),
        modified_date: "2024-01-16 10:20:30".to_string(),
        published: 1,
        country: "DE".to_string(),
        incident_text: format!("incident {}", id),
    }
}

fn summary(id: i32) -> IncidentSummary {
    summary_from_fields(fields(id)).unwrap()
}

fn detail(reference: &str) -> DetailFields {
    DetailFields {
        publish_date: "2024-02-01".to_string(),
        affected_obj: "Hospital".to_string(),
        affected_type: "Health".to_string(),
        description_de: "Beschreibung".to_string(),
        tags: "ransomware,health".to_string(),
        href: "https://example.org/a".to_string(),
        reference: reference.to_string(),
    }
}

fn ids(records: &[IncidentSummary]) -> Vec<i32> {
    records.iter().map(|r| r.incident_id).collect()
}

#[test]
fn new_records_keep_snapshot_order() {
    let existing: HashSet<i32> = [2, 5].into_iter().collect();
    let snapshot = vec![summary(5), summary(1), summary(2), summary(3)];
    let fresh = new_incidents(&existing, snapshot);
    assert_eq!(ids(&fresh), vec![1, 3]);
}

#[test]
fn new_records_ignore_order_of_existing_ids() {
    let a = collect_ids(&vec![3, 1, 2]);
    let b = collect_ids(&vec![2, 3, 1, 1]);
    let left = new_incidents(&a, vec![summary(4), summary(1), summary(5)]);
    let right = new_incidents(&b, vec![summary(4), summary(1), summary(5)]);
    assert_eq!(ids(&left), vec![4, 5]);
    assert_eq!(ids(&left), ids(&right));
}

#[test]
fn new_records_of_empty_store_are_the_snapshot() {
    let existing = collect_ids(&vec![]);
    let fresh = new_incidents(&existing, vec![summary(7), summary(6)]);
    assert_eq!(ids(&fresh), vec![7, 6]);
    let none = new_incidents(&existing, vec![]);
    assert!(none.is_empty());
}

#[test]
fn collected_ids_are_the_stored_ids() {
    let set = collect_ids(&vec![4, 4, 9]);
    assert_eq!(set.len(), 2);
    assert!(set.contains(&4) && set.contains(&9));
}

#[test]
fn summary_dates_are_parsed() {
    let s = summary(1);
    assert_eq!(s.org_publish_date, CalendarDate { year: 2024, month: 1, day: 15 });
    assert_eq!(
        s.modified_date,
        Timestamp { date: CalendarDate { year: 2024, month: 1, day: 16 }, hour: 10, minute: 20, second: 30 }
    );
    assert_eq!(s.country, "DE");
    assert_eq!(s.incident_text, "incident 1");
}

#[test]
fn invalid_publish_date_is_refused() {
    let mut f = fields(1);
    f.org_publish_date = "2024-02-30".to_string();
    let r = summary_from_fields(f);
    assert_eq!(r.unwrap_err(), ParseError::InvalidDate("2024-02-30".to_string()));
}

#[test]
fn modified_date_needs_the_registry_format() {
    let mut f = fields(1);
    f.modified_date = "2024-01-16T10:20:30".to_string();
    let r = summary_from_fields(f);
    assert_eq!(r.unwrap_err(), ParseError::InvalidDate("2024-01-16T10:20:30".to_string()));
}

#[test]
fn first_bad_entry_decides_list_error() {
    let mut bad1 = fields(2);
    bad1.org_publish_date = "yesterday".to_string();
    let mut bad2 = fields(3);
    bad2.modified_date = "never".to_string();
    let r = summaries_from_fields(vec![fields(1), bad1, bad2]);
    assert_eq!(r.unwrap_err(), ParseError::InvalidDate("yesterday".to_string()));
    let ok = summaries_from_fields(vec![fields(1), fields(2)]).unwrap();
    assert_eq!(ids(&ok), vec![1, 2]);
}

#[test]
fn detail_date_is_parsed() {
    let d = detail_from_fields(detail("{}")).unwrap();
    assert_eq!(d.publish_date, CalendarDate { year: 2024, month: 2, day: 1 });
    assert_eq!(d.details_text, "Beschreibung");
    let mut f = detail("{}");
    f.publish_date = "01.02.2024".to_string();
    assert_eq!(detail_from_fields(f).unwrap_err(), ParseError::InvalidDate("01.02.2024".to_string()));
}

#[test]
fn valid_reference_gives_a_row() {
    let d = detail_from_fields(detail(r#"[{"title": "Report", "url": "https://example.org"}]"#)).unwrap();
    let row = prepare_record(summary(3), d).unwrap();
    assert_eq!(row.summary.incident_id, 3);
    assert_eq!(row.tags, "ransomware,health");
    assert!(row.references.is_array());
    assert_eq!(row.references[0]["title"], "Report");
}

#[test]
fn invalid_reference_is_refused() {
    let d = detail_from_fields(detail("not json {")).unwrap();
    let r = prepare_record(summary(3), d);
    assert_eq!(r.unwrap_err(), RecordError::InvalidReference);
}

#[test]
fn both_tables_must_exist() {
    assert!(tables_ready(&vec!["incident_history".to_string(), "incidents".to_string()]));
    assert!(!tables_ready(&vec!["incidents".to_string()]));
    assert!(!tables_ready(&vec!["incidents".to_string(), "incidents".to_string()]));
    assert!(!tables_ready(&vec![]));
}
