//! One synchronisation run as a state machine.
//!
//! The run never performs I/O itself: each call of `SyncRun::step` takes the
//! outcome of the action it asked for last and answers with the next action.
//! Setup failures end the run with `Action::Abort`; the failure of a single
//! record is recorded with its identifier and the run goes on with the next.
use vstd::prelude::*;
use std::collections::HashSet;
use crate::diff::{collect_ids, new_incidents, new_records};
use crate::external::{is_json_document, trim_text, trimmed};
use crate::model::{DetailFields, IncidentSummary, ParseError, PersistedIncident, SummaryFields};
use crate::record::{
    all_summaries_parse, detail_from, first_failure, detail_from_fields, has_required_tables, parsed_summaries,
    prepare_record, row_matches, summaries_from_fields, summary_from, tables_ready, RecordError,
};

verus! {

/// The pause between detail requests, in milliseconds, below which the
/// registry is likely to block the client.
pub const MIN_DELAY_MS: u64 = 500;

/// Whether a configured pause is below the recommended floor. Such a pause is
/// still used; the caller only warns.
pub fn delay_below_floor(delay_ms: u64) -> (r: bool)
    ensures
        r == (delay_ms < MIN_DELAY_MS),
{
    delay_ms < MIN_DELAY_MS
}

/// Where a run stands: each phase but the last two waits for one event.
#[derive(Clone, Copy, Debug, PartialEq, Eq, Structural)]
pub enum Phase {
    CheckingTables,
    LoadingIds,
    FetchingSnapshot,
    Archiving,
    Parsing,
    FetchingDetail,
    Storing,
    Waiting,
    Finished,
    Aborted,
}

/// A failure that ends the run before or while the snapshot is handled.
#[derive(Clone, Debug, PartialEq, Eq)]
pub enum SetupError {
    /// The store could not be reached or queried.
    Storage(String),
    /// A table that the run writes to does not exist.
    MissingTables,
    /// The incident list could not be fetched.
    Fetch(String),
    /// The incident list could not be parsed.
    Parse(ParseError),
    /// The raw list response could not be archived.
    Archive(String),
    /// An event came that the run was not waiting for.
    OutOfOrder,
}

/// The outcome of the action that the run asked for last.
#[derive(Debug)]
pub enum Event {
    /// The names of the required tables that exist.
    TablesListed(Result<Vec<String>, String>),
    /// The identifiers already stored.
    IdsLoaded(Result<Vec<i32>, String>),
    /// The body of the list response.
    SnapshotFetched(Result<String, String>),
    Archived(Result<(), String>),
    /// The entries of the list response.
    SnapshotParsed(Result<Vec<SummaryFields>, ParseError>),
    /// The detail document of the record in hand.
    DetailFetched(Result<DetailFields, RecordError>),
    Stored(Result<(), String>),
    Waited,
}

/// What the caller is to do next.
#[derive(Debug)]
pub enum Action {
    /// List which of the required tables exist.
    ListTables,
    /// Read the identifiers already stored.
    LoadIds,
    /// Fetch the incident list.
    FetchSnapshot,
    /// Append this raw list body to the archive.
    Archive(String),
    /// Parse this list body into entries.
    ParseSnapshot(String),
    /// Fetch the detail document of this incident.
    FetchDetail(i32),
    /// Insert this row.
    Store(PersistedIncident),
    /// Sleep for this many milliseconds.
    Wait(u64),
    /// The run is over; per-record failures are in `failures`.
    Finish,
    /// The run failed.
    Abort(SetupError),
}

/// The state of one run.
pub struct SyncRun {
    pub phase: Phase,
    /// The pause between two detail requests, in milliseconds.
    pub delay_ms: u64,
    /// The identifiers stored before the run.
    pub existing: HashSet<i32>,
    /// The list body, between its fetch and its parse.
    pub body: String,
    /// The new records not yet begun, in snapshot order.
    pub pending: Vec<IncidentSummary>,
    /// The record whose detail is awaited.
    pub current: Option<IncidentSummary>,
    /// The identifier of the record in hand.
    pub current_id: i32,
    /// The identifiers of the records written, in order.
    pub stored: Vec<i32>,
    /// The records that failed, with why.
    pub failures: Vec<(i32, RecordError)>,
    /// How many detail requests were asked for.
    pub fetches: usize,
    /// How many pauses were asked for.
    pub waits: usize,
    /// Whether the raw list body has been archived.
    pub archived: bool,
    /// All new records of the snapshot, in snapshot order.
    pub new_seq: Ghost<Seq<IncidentSummary>>,
}

/// Whether a run in `phase` is waiting for `event`.
pub open spec fn accepts(phase: Phase, event: Event) -> bool {
    match event {
        Event::TablesListed(_) => phase == Phase::CheckingTables,
        Event::IdsLoaded(_) => phase == Phase::LoadingIds,
        Event::SnapshotFetched(_) => phase == Phase::FetchingSnapshot,
        Event::Archived(_) => phase == Phase::Archiving,
        Event::SnapshotParsed(_) => phase == Phase::Parsing,
        Event::DetailFetched(_) => phase == Phase::FetchingDetail,
        Event::Stored(_) => phase == Phase::Storing,
        Event::Waited => phase == Phase::Waiting,
    }
}

/// What one step does: an event that the run is not waiting for ends it;
/// any other is answered as `responds` says.
pub open spec fn step_spec(run: SyncRun, event: Event, next: SyncRun, action: Action) -> bool {
    &&& next.delay_ms == run.delay_ms
    &&& !(event is SnapshotParsed) ==> next.new_seq == run.new_seq
    &&& !accepts(run.phase, event) ==> run.aborts_with(&next, action, SetupError::OutOfOrder)
    &&& accepts(run.phase, event) ==> run.responds(event, &next, action)
}

impl SyncRun {
    /// How many records have been settled, written or failed.
    pub open spec fn settled(&self) -> int {
        self.stored@.len() as int + self.failures@.len() as int
    }

    /// Whether the phase comes before the snapshot is parsed.
    pub open spec fn before_parse(&self) -> bool {
        ||| self.phase == Phase::CheckingTables
        ||| self.phase == Phase::LoadingIds
        ||| self.phase == Phase::FetchingSnapshot
        ||| self.phase == Phase::Archiving
        ||| self.phase == Phase::Parsing
    }

    /// Whether a record is in hand.
    pub open spec fn in_record(&self) -> bool {
        self.phase == Phase::FetchingDetail || self.phase == Phase::Storing
    }

    pub open spec fn wf(&self) -> bool {
        &&& self.fetches <= self.new_seq@.len() <= usize::MAX
        &&& self.pending@ == self.new_seq@.subrange(self.fetches as int, self.new_seq@.len() as int)
        &&& self.before_parse() ==> {
            &&& self.fetches == 0
            &&& self.waits == 0
            &&& self.settled() == 0
        }
        &&& (self.phase == Phase::Parsing || !self.before_parse()) && self.phase != Phase::Aborted
            ==> self.archived
        &&& self.in_record() ==> {
            &&& 1 <= self.fetches
            &&& self.current_id == self.new_seq@[self.fetches - 1].incident_id
            &&& self.waits + 1 == self.fetches
            &&& self.settled() + 1 == self.fetches
        }
        &&& self.phase == Phase::FetchingDetail ==> self.current == Some(
            self.new_seq@[self.fetches - 1],
        )
        &&& self.phase == Phase::Waiting ==> {
            &&& 1 <= self.fetches < self.new_seq@.len()
            &&& self.waits == self.fetches
            &&& self.settled() == self.fetches
        }
        &&& self.phase == Phase::Finished ==> {
            &&& self.fetches == self.new_seq@.len()
            &&& self.settled() == self.fetches
            &&& self.waits + 1 == self.fetches || (self.fetches == 0 && self.waits == 0)
        }
    }

    /// What follows once the record in hand is settled: a pause where
    /// records remain, else the end of the run.
    pub open spec fn moves_on(&self, next: &SyncRun, action: Action) -> bool {
        if self.pending@.len() > 0 {
            &&& next.phase == Phase::Waiting
            &&& action == Action::Wait(self.delay_ms)
            &&& next.waits == self.waits + 1
        } else {
            &&& next.phase == Phase::Finished
            &&& action == Action::Finish
            &&& next.waits == self.waits
        }
    }

    /// The record in hand.
    pub open spec fn record_in_hand(&self) -> IncidentSummary {
        self.new_seq@[self.fetches - 1]
    }

    /// Records the failure of the record in hand and moves on.
    pub open spec fn fails_record(&self, next: &SyncRun, e: RecordError, action: Action) -> bool {
        &&& next.failures@ == self.failures@.push((self.current_id, e))
        &&& next.stored@ == self.stored@
        &&& next.fetches == self.fetches
        &&& self.moves_on(next, action)
    }

    /// Ends the run with `e`.
    pub open spec fn aborts_with(&self, next: &SyncRun, action: Action, e: SetupError) -> bool {
        &&& next.phase == Phase::Aborted
        &&& action == Action::Abort(e)
        &&& next.stored@ == self.stored@
        &&& next.failures@ == self.failures@
        &&& next.archived == self.archived
    }

    /// How a run that waits for `event` answers it.
    pub open spec fn responds(&self, event: Event, next: &SyncRun, action: Action) -> bool {
        match event {
            Event::TablesListed(Ok(found)) => if has_required_tables(found@) {
                next.phase == Phase::LoadingIds && action == Action::LoadIds
            } else {
                self.aborts_with(next, action, SetupError::MissingTables)
            },
            Event::TablesListed(Err(m)) => self.aborts_with(next, action, SetupError::Storage(m)),
            Event::IdsLoaded(Ok(ids)) => {
                &&& next.phase == Phase::FetchingSnapshot
                &&& action == Action::FetchSnapshot
                &&& next.existing@ == ids@.to_set()
            },
            Event::IdsLoaded(Err(m)) => self.aborts_with(next, action, SetupError::Storage(m)),
            Event::SnapshotFetched(Ok(body)) => {
                &&& next.phase == Phase::Archiving
                &&& next.body@ == trimmed(body@)
                &&& action == Action::Archive(next.body)
            },
            Event::SnapshotFetched(Err(m)) => self.aborts_with(next, action, SetupError::Fetch(m)),
            Event::Archived(Ok(_)) => {
                &&& next.phase == Phase::Parsing
                &&& next.archived
                &&& action == Action::ParseSnapshot(self.body)
            },
            Event::Archived(Err(m)) => self.aborts_with(next, action, SetupError::Archive(m)),
            Event::SnapshotParsed(Ok(fields)) => if all_summaries_parse(fields@) {
                &&& next.new_seq@ == new_records(self.existing@, parsed_summaries(fields@))
                &&& if next.new_seq@.len() > 0 {
                    &&& next.phase == Phase::FetchingDetail
                    &&& next.fetches == 1
                    &&& action == Action::FetchDetail(next.new_seq@[0].incident_id)
                } else {
                    next.phase == Phase::Finished && action == Action::Finish
                }
            } else {
                &&& next.phase == Phase::Aborted
                &&& action matches Action::Abort(SetupError::Parse(e))
                &&& first_failure(fields@, e)
                &&& next.stored@ == self.stored@
            },
            Event::SnapshotParsed(Err(e)) => self.aborts_with(next, action, SetupError::Parse(e)),
            Event::DetailFetched(Ok(f)) => match detail_from(f) {
                Err(pe) => self.fails_record(next, RecordError::Parse(pe), action),
                Ok(d) => if is_json_document(d.reference@) {
                    &&& next.phase == Phase::Storing
                    &&& action matches Action::Store(row)
                    &&& row_matches(row, self.record_in_hand(), d)
                    &&& next.stored@ == self.stored@
                    &&& next.failures@ == self.failures@
                } else {
                    self.fails_record(next, RecordError::InvalidReference, action)
                },
            },
            Event::DetailFetched(Err(e)) => self.fails_record(next, e, action),
            Event::Stored(Ok(_)) => {
                &&& next.stored@ == self.stored@.push(self.current_id)
                &&& next.failures@ == self.failures@
                &&& next.fetches == self.fetches
                &&& self.moves_on(next, action)
            },
            Event::Stored(Err(m)) => self.fails_record(next, RecordError::Storage(m), action),
            Event::Waited => {
                &&& next.phase == Phase::FetchingDetail
                &&& next.fetches == self.fetches + 1
                &&& action == Action::FetchDetail(self.new_seq@[self.fetches as int].incident_id)
            },
        }
    }

    /// Starts a run with the given pause between detail requests; the first
    /// action checks the tables.
    pub fn start(delay_ms: u64) -> (r: (SyncRun, Action))
        ensures
            r.0.wf(),
            r.0.phase == Phase::CheckingTables,
            r.0.delay_ms == delay_ms,
            !r.0.archived,
            r.1 == Action::ListTables,
    {
        let run = SyncRun {
            phase: Phase::CheckingTables,
            delay_ms,
            existing: HashSet::new(),
            body: String::new(),
            pending: Vec::new(),
            current: None,
            current_id: 0,
            stored: Vec::new(),
            failures: Vec::new(),
            fetches: 0,
            waits: 0,
            archived: false,
            new_seq: Ghost(Seq::empty()),
        };
        proof {
            assert(run.pending@ == run.new_seq@.subrange(0, 0));
        }
        (run, Action::ListTables)
    }

    fn abort(&mut self, e: SetupError) -> (action: Action)
        requires
            old(self).wf(),
        ensures
            final(self).wf(),
            old(self).aborts_with(final(self), action, e),
            final(self).delay_ms == old(self).delay_ms,
            final(self).new_seq == old(self).new_seq,
            final(self).existing@ == old(self).existing@,
    {
        self.phase = Phase::Aborted;
        Action::Abort(e)
    }

    /// Settles nothing itself: called once the record in hand has been
    /// counted as written or failed.
    fn move_on(&mut self) -> (action: Action)
        requires
            1 <= old(self).fetches <= old(self).new_seq@.len() <= usize::MAX,
            old(self).pending@ == old(self).new_seq@.subrange(
                old(self).fetches as int,
                old(self).new_seq@.len() as int,
            ),
            old(self).settled() == old(self).fetches,
            old(self).waits + 1 == old(self).fetches,
            old(self).archived,
        ensures
            final(self).wf(),
            old(self).moves_on(final(self), action),
            final(self).delay_ms == old(self).delay_ms,
            final(self).new_seq == old(self).new_seq,
            final(self).stored == old(self).stored,
            final(self).failures == old(self).failures,
            final(self).fetches == old(self).fetches,
            final(self).existing@ == old(self).existing@,
    {
        assert(self.pending@.len() == self.new_seq@.len() - self.fetches);
        if self.pending.len() > 0 {
            self.phase = Phase::Waiting;
            self.waits = self.waits + 1;
            Action::Wait(self.delay_ms)
        } else {
            self.phase = Phase::Finished;
            Action::Finish
        }
    }

    /// Takes the next pending record in hand and asks for its detail.
    fn begin_next(&mut self) -> (action: Action)
        requires
            old(self).fetches < old(self).new_seq@.len() <= usize::MAX,
            old(self).pending@ == old(self).new_seq@.subrange(
                old(self).fetches as int,
                old(self).new_seq@.len() as int,
            ),
            old(self).settled() == old(self).fetches,
            old(self).waits == old(self).fetches,
            old(self).archived,
        ensures
            final(self).wf(),
            final(self).phase == Phase::FetchingDetail,
            final(self).fetches == old(self).fetches + 1,
            action == Action::FetchDetail(old(self).new_seq@[old(self).fetches as int].incident_id),
            final(self).delay_ms == old(self).delay_ms,
            final(self).new_seq == old(self).new_seq,
            final(self).stored == old(self).stored,
            final(self).failures == old(self).failures,
            final(self).waits == old(self).waits,
            final(self).existing@ == old(self).existing@,
    {
        let s = self.pending.remove(0);
        let id = s.incident_id;
        self.current_id = id;
        self.current = Some(s);
        self.fetches = self.fetches + 1;
        self.phase = Phase::FetchingDetail;
        proof {
            assert(self.pending@ == self.new_seq@.subrange(
                self.fetches as int,
                self.new_seq@.len() as int,
            ));
        }
        Action::FetchDetail(id)
    }

    /// Takes the outcome of the last action and returns the next one.
    pub fn step(&mut self, event: Event) -> (action: Action)
        requires
            old(self).wf(),
        ensures
            final(self).wf(),
            step_spec(*old(self), event, *final(self), action),
    {
        match event {
            Event::TablesListed(listed) => {
                if self.phase != Phase::CheckingTables {
                    return self.abort(SetupError::OutOfOrder);
                }
                match listed {
                    Err(m) => self.abort(SetupError::Storage(m)),
                    Ok(found) => if tables_ready(&found) {
                        self.phase = Phase::LoadingIds;
                        Action::LoadIds
                    } else {
                        self.abort(SetupError::MissingTables)
                    },
                }
            },
            Event::IdsLoaded(loaded) => {
                if self.phase != Phase::LoadingIds {
                    return self.abort(SetupError::OutOfOrder);
                }
                match loaded {
                    Err(m) => self.abort(SetupError::Storage(m)),
                    Ok(ids) => {
                        self.existing = collect_ids(&ids);
                        self.phase = Phase::FetchingSnapshot;
                        Action::FetchSnapshot
                    },
                }
            },
            Event::SnapshotFetched(fetched) => {
                if self.phase != Phase::FetchingSnapshot {
                    return self.abort(SetupError::OutOfOrder);
                }
                match fetched {
                    Err(m) => self.abort(SetupError::Fetch(m)),
                    Ok(body) => {
                        self.body = trim_text(body.as_str());
                        self.phase = Phase::Archiving;
                        Action::Archive(self.body.clone())
                    },
                }
            },
            Event::Archived(archived) => {
                if self.phase != Phase::Archiving {
                    return self.abort(SetupError::OutOfOrder);
                }
                match archived {
                    Err(m) => self.abort(SetupError::Archive(m)),
                    Ok(_) => {
                        self.archived = true;
                        self.phase = Phase::Parsing;
                        let mut body = String::new();
                        core::mem::swap(&mut body, &mut self.body);
                        Action::ParseSnapshot(body)
                    },
                }
            },
            Event::SnapshotParsed(parsed) => {
                if self.phase != Phase::Parsing {
                    return self.abort(SetupError::OutOfOrder);
                }
                match parsed {
                    Err(e) => self.abort(SetupError::Parse(e)),
                    Ok(fields) => match summaries_from_fields(fields) {
                        Err(e) => self.abort(SetupError::Parse(e)),
                        Ok(summaries) => {
                            let fresh = new_incidents(&self.existing, summaries);
                            self.new_seq = Ghost(fresh@);
                            self.pending = fresh;
                            proof {
                                assert(self.pending@ == self.new_seq@.subrange(
                                    0,
                                    self.new_seq@.len() as int,
                                ));
                            }
                            if self.pending.len() > 0 {
                                self.begin_next()
                            } else {
                                self.phase = Phase::Finished;
                                Action::Finish
                            }
                        },
                    },
                }
            },
            Event::DetailFetched(fetched) => {
                if self.phase != Phase::FetchingDetail {
                    return self.abort(SetupError::OutOfOrder);
                }
                let current = self.current.take();
                let summary = match current {
                    Some(s) => s,
                    None => {
                        return self.abort(SetupError::OutOfOrder);
                    },
                };
                let id = self.current_id;
                match fetched {
                    Err(e) => {
                        self.failures.push((id, e));
                        self.move_on()
                    },
                    Ok(f) => match detail_from_fields(f) {
                        Err(pe) => {
                            self.failures.push((id, RecordError::Parse(pe)));
                            self.move_on()
                        },
                        Ok(d) => match prepare_record(summary, d) {
                            Err(e) => {
                                self.failures.push((id, e));
                                self.move_on()
                            },
                            Ok(row) => {
                                self.phase = Phase::Storing;
                                Action::Store(row)
                            },
                        },
                    },
                }
            },
            Event::Stored(result) => {
                if self.phase != Phase::Storing {
                    return self.abort(SetupError::OutOfOrder);
                }
                let id = self.current_id;
                match result {
                    Ok(_) => self.stored.push(id),
                    Err(m) => self.failures.push((id, RecordError::Storage(m))),
                }
                self.move_on()
            },
            Event::Waited => {
                if self.phase != Phase::Waiting {
                    return self.abort(SetupError::OutOfOrder);
                }
                self.begin_next()
            },
        }
    }
}

/// The raw list body is archived before it is parsed and before any detail
/// is fetched or any row written.
pub proof fn lemma_archive_precedes_parse(run: SyncRun, event: Event, next: SyncRun, action: Action)
    requires
        run.wf(),
        next.wf(),
        step_spec(run, event, next, action),
        action is ParseSnapshot || action is FetchDetail || action is Store,
    ensures
        next.archived,
{
}

/// Whatever the fetched list body holds, the next action archives it.
pub proof fn lemma_every_body_archived(run: SyncRun, body: String, next: SyncRun, action: Action)
    requires
        run.phase == Phase::FetchingSnapshot,
        step_spec(run, Event::SnapshotFetched(Ok(body)), next, action),
    ensures
        action == Action::Archive(next.body),
        next.body@ == trimmed(body@),
{
}

/// A list that cannot be parsed, after it was archived, ends the run with
/// no row written.
pub proof fn lemma_unparsable_list_writes_nothing(run: SyncRun, event: Event, next: SyncRun, action: Action)
    requires
        run.wf(),
        run.phase == Phase::Parsing,
        step_spec(run, event, next, action),
        event matches Event::SnapshotParsed(parsed) && (parsed is Err || !all_summaries_parse(
            parsed->Ok_0@,
        )),
    ensures
        run.archived,
        next.phase == Phase::Aborted,
        action is Abort,
        next.stored@.len() == 0,
{
}

/// When the detail of the record in hand cannot be fetched, or its row is
/// refused, the record is counted as failed under its identifier, the
/// records written before stay written, and the run goes on with the records
/// after it.
pub proof fn lemma_record_failure_isolated(run: SyncRun, event: Event, next: SyncRun, action: Action)
    requires
        run.wf(),
        next.wf(),
        step_spec(run, event, next, action),
        run.phase == Phase::FetchingDetail && event matches Event::DetailFetched(Err(_))
            || run.phase == Phase::Storing && event matches Event::Stored(Err(_)),
    ensures
        next.phase != Phase::Aborted,
        next.stored@ == run.stored@,
        next.failures@.len() == run.failures@.len() + 1,
        next.failures@.last().0 == run.current_id,
        next.pending@ == run.pending@,
        run.pending@.len() > 0 ==> action == Action::Wait(run.delay_ms),
        run.pending@.len() == 0 ==> action == Action::Finish,
{
}

/// A detail document whose reference field is not JSON gives no row: the
/// record is counted as failed and the run goes on with the records after
/// it.
pub proof fn lemma_invalid_reference_skipped(run: SyncRun, f: DetailFields, next: SyncRun, action: Action)
    requires
        run.wf(),
        next.wf(),
        run.phase == Phase::FetchingDetail,
        step_spec(run, Event::DetailFetched(Ok(f)), next, action),
        detail_from(f) is Ok,
        !is_json_document(f.reference@),
    ensures
        !(action is Store),
        next.phase != Phase::Aborted,
        next.stored@ == run.stored@,
        next.failures@ == run.failures@.push((run.current_id, RecordError::InvalidReference)),
        next.pending@ == run.pending@,
{
}

/// Every detail request but the first is asked for on the event that ends
/// a pause.
pub proof fn lemma_fetch_follows_pause(run: SyncRun, event: Event, next: SyncRun, action: Action)
    requires
        run.wf(),
        step_spec(run, event, next, action),
        action is FetchDetail,
        next.fetches >= 2,
    ensures
        run.phase == Phase::Waiting,
        event is Waited,
{
}

/// A finished run asked for a detail of each new record, and for one pause
/// less than that.
pub proof fn lemma_finished_run_paused(run: SyncRun)
    requires
        run.wf(),
        run.phase == Phase::Finished,
    ensures
        run.fetches == run.new_seq@.len(),
        run.settled() == run.new_seq@.len(),
        run.fetches >= 1 ==> run.waits == run.fetches - 1,
{
}

} // verus!
