use std::collections::HashMap;

use dsgvo_downloader::model::{DetailFields, ParseError, SummaryFields};
use dsgvo_downloader::record::RecordError;
use dsgvo_downloader::sync::{Action, Event, Phase, SetupError, SyncRun};

fn entry(id: i32) -> SummaryFields {
    SummaryFields {
        incident_id: id,
        org_publish_date: "2023-05-02".to_string(),
        modified_date: "2023-05-03 08:00:00".to_string(),
        published: 1,
        country: "DE".to_string(),
        incident_text: format!("text {}", id),
    }
}

fn detail(reference: &str) -> DetailFields {
    DetailFields {
        publish_date: "2023-05-04".to_string(),
        affected_obj: "Office".to_string(),
        affected_type: "Public".to_string(),
        description_de: "Text".to_string(),
        tags: "tag".to_string(),
        href: "https://example.org".to_string(),
        reference: reference.to_string(),
    }
}

/// What a simulated store and registry saw during one run.
struct Trace {
    run: SyncRun,
    archived: Vec<String>,
    fetched: Vec<i32>,
    waits: Vec<u64>,
    inserted: Vec<i32>,
    last: Action,
}

/// Drives a run against an in-memory store holding `existing` and a registry
/// whose list parses to `entries` and whose details are `details`.
fn drive(
    existing: &[i32],
    body: &str,
    entries: Result<Vec<SummaryFields>, ParseError>,
    mut details: HashMap<i32, Result<DetailFields, RecordError>>,
    delay: u64,
) -> Trace {
    let (mut run, mut action) = SyncRun::start(delay);
    let mut entries = Some(entries);
    let mut archived = Vec::new();
    let mut fetched = Vec::new();
    let mut waits = Vec::new();
    let mut inserted = Vec::new();
    loop {
        let event = match action {
            Action::ListTables => Event::TablesListed(Ok(vec![
                "incidents".to_string(),
                "incident_history".to_string(),
            ])),
            Action::LoadIds => Event::IdsLoaded(Ok(existing.to_vec())),
            Action::FetchSnapshot => Event::SnapshotFetched(Ok(body.to_string())),
            Action::Archive(b) => {
                archived.push(b);
                Event::Archived(Ok(()))
            }
            Action::ParseSnapshot(_) => Event::SnapshotParsed(entries.take().unwrap()),
            Action::FetchDetail(id) => {
                fetched.push(id);
                Event::DetailFetched(details.remove(&id).unwrap())
            }
            Action::Store(row) => {
                inserted.push(row.summary.incident_id);
                Event::Stored(Ok(()))
            }
            Action::Wait(ms) => {
                waits.push(ms);
                Event::Waited
            }
            last @ (Action::Finish | Action::Abort(_)) => {
                return Trace { run, archived, fetched, waits, inserted, last };
            }
        };
        action = run.step(event);
    }
}

#[test]
fn scenario_new_three_and_failing_four() {
    let mut details = HashMap::new();
    details.insert(3, Ok(detail("{\"a\": 1}")));
    details.insert(4, Err(RecordError::Fetch("status 500".to_string())));
    let t = drive(&[1, 2], "[...]", Ok(vec![entry(1), entry(2), entry(3), entry(4)]), details, 500);
    assert!(matches!(t.last, Action::Finish));
    assert_eq!(t.run.phase, Phase::Finished);
    assert_eq!(t.inserted, vec![3]);
    assert_eq!(t.run.stored, vec![3]);
    assert_eq!(t.run.failures, vec![(4, RecordError::Fetch("status 500".to_string()))]);
    assert_eq!(t.archived.len(), 1);
    assert_eq!(t.fetched, vec![3, 4]);
}

#[test]
fn second_run_inserts_nothing() {
    let mut details = HashMap::new();
    details.insert(3, Ok(detail("{}")));
    details.insert(4, Ok(detail("[]")));
    let entries = vec![entry(1), entry(2), entry(3), entry(4)];
    let first = drive(&[1, 2], "[]", Ok(entries.clone()), details, 500);
    assert_eq!(first.inserted, vec![3, 4]);
    let mut stored = vec![1, 2];
    stored.extend(first.inserted.iter().copied());
    let second = drive(&stored, "[]", Ok(entries), HashMap::new(), 500);
    assert!(matches!(second.last, Action::Finish));
    assert!(second.inserted.is_empty());
    assert!(second.fetched.is_empty());
    assert_eq!(second.archived.len(), 1);
}

#[test]
fn unparsable_list_is_archived_and_nothing_stored() {
    let body = "  {\"unexpected\": true}\n";
    let t = drive(
        &[],
        body,
        Err(ParseError::WrongShape("expected a sequence".to_string())),
        HashMap::new(),
        500,
    );
    assert_eq!(t.archived, vec!["{\"unexpected\": true}".to_string()]);
    assert!(t.inserted.is_empty());
    match t.last {
        Action::Abort(SetupError::Parse(ParseError::WrongShape(m))) => assert_eq!(m, "expected a sequence"),
        other => panic!("unexpected action {:?}", other),
    }
}

#[test]
fn list_with_bad_date_aborts_after_archive() {
    let mut bad = entry(2);
    bad.modified_date = "2023-05-03".to_string();
    let t = drive(&[], "[]", Ok(vec![entry(1), bad]), HashMap::new(), 500);
    assert_eq!(t.archived.len(), 1);
    assert!(t.fetched.is_empty());
    match t.last {
        Action::Abort(SetupError::Parse(ParseError::InvalidDate(s))) => assert_eq!(s, "2023-05-03"),
        other => panic!("unexpected action {:?}", other),
    }
}

#[test]
fn failed_detail_does_not_stop_siblings() {
    let mut details = HashMap::new();
    details.insert(10, Ok(detail("{}")));
    details.insert(11, Err(RecordError::Fetch("connection reset".to_string())));
    details.insert(12, Ok(detail("{}")));
    let t = drive(&[], "[]", Ok(vec![entry(10), entry(11), entry(12)]), details, 500);
    assert!(matches!(t.last, Action::Finish));
    assert_eq!(t.inserted, vec![10, 12]);
    assert_eq!(t.run.failures.len(), 1);
    assert_eq!(t.run.failures[0].0, 11);
}

#[test]
fn invalid_reference_skips_only_that_record() {
    let mut details = HashMap::new();
    details.insert(10, Ok(detail("{}")));
    details.insert(11, Ok(detail("<html>")));
    details.insert(12, Ok(detail("{\"x\": [1, 2]}")));
    let t = drive(&[], "[]", Ok(vec![entry(10), entry(11), entry(12)]), details, 500);
    assert_eq!(t.inserted, vec![10, 12]);
    assert_eq!(t.run.failures, vec![(11, RecordError::InvalidReference)]);
}

#[test]
fn refused_insert_is_a_record_failure() {
    let (mut run, _) = SyncRun::start(500);
    run.step(Event::TablesListed(Ok(vec!["incidents".to_string(), "incident_history".to_string()])));
    run.step(Event::IdsLoaded(Ok(vec![])));
    run.step(Event::SnapshotFetched(Ok("[]".to_string())));
    run.step(Event::Archived(Ok(())));
    run.step(Event::SnapshotParsed(Ok(vec![entry(5), entry(6)])));
    let a = run.step(Event::DetailFetched(Ok(detail("{}"))));
    assert!(matches!(a, Action::Store(_)));
    let a = run.step(Event::Stored(Err("duplicate key".to_string())));
    assert!(matches!(a, Action::Wait(500)));
    assert_eq!(run.failures, vec![(5, RecordError::Storage("duplicate key".to_string()))]);
    let a = run.step(Event::Waited);
    assert!(matches!(a, Action::FetchDetail(6)));
}

#[test]
fn pauses_between_detail_requests() {
    let mut details = HashMap::new();
    for id in 1..=4 {
        details.insert(id, Ok(detail("{}")));
    }
    let t = drive(&[], "[]", Ok(vec![entry(1), entry(2), entry(3), entry(4)]), details, 750);
    assert_eq!(t.fetched.len(), 4);
    assert_eq!(t.waits, vec![750, 750, 750]);
    assert_eq!(t.run.waits, 3);
    assert_eq!(t.run.fetches, 4);
}

#[test]
fn single_record_needs_no_pause() {
    let mut details = HashMap::new();
    details.insert(1, Ok(detail("{}")));
    let t = drive(&[], "[]", Ok(vec![entry(1)]), details, 500);
    assert!(t.waits.is_empty());
    assert_eq!(t.inserted, vec![1]);
}

#[test]
fn missing_tables_abort_before_any_request() {
    let (mut run, first) = SyncRun::start(500);
    assert!(matches!(first, Action::ListTables));
    let a = run.step(Event::TablesListed(Ok(vec!["incidents".to_string()])));
    assert!(matches!(a, Action::Abort(SetupError::MissingTables)));
    assert_eq!(run.phase, Phase::Aborted);
}

#[test]
fn unreachable_store_and_list_abort() {
    let (mut run, _) = SyncRun::start(500);
    let a = run.step(Event::TablesListed(Err("refused".to_string())));
    assert!(matches!(a, Action::Abort(SetupError::Storage(_))));

    let (mut run, _) = SyncRun::start(500);
    run.step(Event::TablesListed(Ok(vec!["incidents".to_string(), "incident_history".to_string()])));
    let a = run.step(Event::IdsLoaded(Err("timeout".to_string())));
    assert!(matches!(a, Action::Abort(SetupError::Storage(_))));

    let (mut run, _) = SyncRun::start(500);
    run.step(Event::TablesListed(Ok(vec!["incidents".to_string(), "incident_history".to_string()])));
    run.step(Event::IdsLoaded(Ok(vec![])));
    let a = run.step(Event::SnapshotFetched(Err("dns".to_string())));
    assert!(matches!(a, Action::Abort(SetupError::Fetch(_))));
}

#[test]
fn failed_archive_aborts() {
    let (mut run, _) = SyncRun::start(500);
    run.step(Event::TablesListed(Ok(vec!["incidents".to_string(), "incident_history".to_string()])));
    run.step(Event::IdsLoaded(Ok(vec![])));
    let a = run.step(Event::SnapshotFetched(Ok(" [] ".to_string())));
    match a {
        Action::Archive(b) => assert_eq!(b, "[]"),
        other => panic!("unexpected action {:?}", other),
    }
    let a = run.step(Event::Archived(Err("disk full".to_string())));
    assert!(matches!(a, Action::Abort(SetupError::Archive(_))));
    assert!(!run.archived);
}

#[test]
fn unexpected_event_aborts() {
    let (mut run, _) = SyncRun::start(500);
    let a = run.step(Event::Waited);
    assert!(matches!(a, Action::Abort(SetupError::OutOfOrder)));
    assert_eq!(run.phase, Phase::Aborted);
}
