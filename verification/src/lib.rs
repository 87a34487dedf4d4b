//! Consumer-side batch ingestion with partial-failure reporting.
//!
//! A queue-triggered consumer receives an ordered batch of messages,
//! hands each one exactly once to a per-use-case handler, and returns a
//! report naming the identifiers of the messages that failed, so that
//! the upstream delivery system redelivers only those. One message's
//! failure never aborts the rest of the batch.

pub mod converse;
pub mod handler;
pub mod laws;
pub mod message;
pub mod payload;
pub mod process;
pub mod report;
pub mod scripted;
pub mod store;
pub mod upsert;
