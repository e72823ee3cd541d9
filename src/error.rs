use vstd::prelude::*;

verus! {

#[allow(unused_imports)]
use crate::dump::DumpTable;

/// The ways in which the pipeline's stages fail.
#[derive(Debug, Clone, Copy, PartialEq, Eq, Structural)]
pub enum Error {
    /// The deadline passed before the step could begin.
    DeadlineExceeded,
    /// A report write could not be handed to the git thread.
    GitChannelClosed,
    /// The database dump lacks a table that ingestion cannot do without.
    MissingDumpTable(DumpTable),
    /// A task key does not split into `name:version:process:processVersion`.
    MalformedTaskKey,
    /// A task with recorded errors was exported without a statement for them.
    MissingSecondaryStatement,
}

pub type Result<T> = core::result::Result<T, Error>;

} // verus!
