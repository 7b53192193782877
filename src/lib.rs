//! Incremental synchronisation of incident records from a remote breach
//! registry into a relational store.
//!
//! The library holds the data model, the set difference that decides which
//! records are new, the per-record preparation (date parsing and validation of
//! the embedded reference document) and the run itself as a state machine:
//! the caller performs each requested action (a query, an HTTP request, a
//! sleep) and reports the outcome back as an event.
pub mod model;
pub mod external;
pub mod diff;
pub mod record;
pub mod sync;
