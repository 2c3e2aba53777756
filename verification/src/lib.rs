//! The concurrency and data-lifetime core of a live sentiment report.
//!
//! A single-producer ingestion pipeline decodes raw stream events, filters
//! them by language, scores them with the external sentiment scorer, and
//! appends them to one shared, lock-guarded, time-evicting window store
//! ([`store`]).  A fixed-size worker pool ([`pool`]) executes
//! request-handling jobs submitted by a connection dispatcher ([`http`]);
//! each job reads an atomic snapshot of the store and assembles the report
//! page ([`www`]) around the externally rendered plot.

pub mod store;
pub mod pool;
pub mod ingest;
pub mod tokens;
pub mod http;
pub mod www;
