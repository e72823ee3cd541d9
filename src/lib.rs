//! Orchestration core of an incremental registry-ingestion pipeline: the keyed
//! entity model, the task ledger, and the decisions taken by the index-diff,
//! database-dump and report stages.

pub mod changes;
pub mod dump;
pub mod error;
pub mod export;
pub mod keyed;
pub mod ledger;
pub mod model;
pub mod report;
pub mod text;
pub mod time;
pub mod version;
