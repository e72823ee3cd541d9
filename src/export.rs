use vstd::prelude::*;

verus! {

use crate::error::{Error, Result};
use crate::keyed::KEY_SEP_CHAR;
use crate::model::{clone_strings, strings_view, StateView, Task, TaskState};
use crate::text::{pieces, split_on};

/// The components of a key, split at each separator.
pub open spec fn fields(s: Seq<char>) -> Seq<Seq<char>> {
    pieces(s, KEY_SEP_CHAR)
}

/// The components of `key`, split at each separator.
pub fn split_key(key: &str) -> (r: Vec<String>)
    ensures
        strings_view(r@) == fields(key@),
{
    split_on(key, KEY_SEP_CHAR)
}

/// The text of the `state` column for a task state.
pub open spec fn state_label_of(s: StateView) -> Seq<char> {
    match s {
        StateView::NotStarted => "NotStarted"@,
        StateView::Complete => "Complete"@,
        StateView::InProgress(_) => "InProgress"@,
        StateView::AttemptsWithFailure(_) => "AttemptsWithFailure"@,
    }
}

/// The errors of a state that are exported beside the task row.
pub open spec fn exported_errors(s: StateView) -> Seq<Seq<char>> {
    match s {
        StateView::InProgress(Some(e)) => e,
        StateView::AttemptsWithFailure(e) => e,
        _ => Seq::empty(),
    }
}

/// Whether a state carries errors to export, even if none.
pub open spec fn has_error_list(s: StateView) -> bool {
    s matches StateView::InProgress(Some(_)) || s is AttemptsWithFailure
}

/// A row of the `tasks` table.
#[derive(Debug, Clone, PartialEq, Eq)]
pub struct TaskRow {
    pub id: i32,
    pub crate_name: String,
    pub crate_version: String,
    pub process: String,
    pub version: String,
    /// Seconds since the Unix epoch, truncated to 32 bits.
    pub stored_at: u32,
    pub state: &'static str,
}

impl TaskState {
    /// The text of the `state` column.
    pub fn label(&self) -> (r: &'static str)
        ensures
            r@ == state_label_of(self@),
    {
        match self {
            TaskState::NotStarted => "NotStarted",
            TaskState::Complete => "Complete",
            TaskState::InProgress(_) => "InProgress",
            TaskState::AttemptsWithFailure(_) => "AttemptsWithFailure",
        }
    }
}

impl Task {
    /// Its row in the tasks table, kept under `key` and numbered `uid`,
    /// and the errors that go to the `task_errors` table under that id.
    /// Fails where `key` is not `name:version:process:processVersion`, and where the
    /// state carries errors but no statement for them exists.
    pub fn sql_rows(&self, key: &str, uid: i32, has_secondary_statement: bool) -> (r: Result<
        (TaskRow, Vec<String>),
    >)
        ensures
            r is Ok <==> (fields(key@).len() == 4 && (has_error_list(self.state@)
                ==> has_secondary_statement)),
            r matches Err(e) ==> (if fields(key@).len() != 4 {
                e == Error::MalformedTaskKey
            } else {
                e == Error::MissingSecondaryStatement
            }),
            r matches Ok((row, errors)) ==> {
                &&& row.id == uid
                &&& row.crate_name@ == fields(key@)[0]
                &&& row.crate_version@ == fields(key@)[1]
                &&& row.process == self.process
                &&& row.version == self.version
                &&& row.stored_at == self.stored_at.since_epoch.secs as u32
                &&& row.state@ == state_label_of(self.state@)
                &&& strings_view(errors@) == exported_errors(self.state@)
            },
    {
        let parts = split_key(key);
        if parts.len() != 4 {
            return Err(Error::MalformedTaskKey);
        }
        let errors = match &self.state {
            TaskState::InProgress(Some(e)) => Some(clone_strings(e)),
            TaskState::AttemptsWithFailure(e) => Some(clone_strings(e)),
            _ => None,
        };
        let errors = match errors {
            Some(e) => {
                if !has_secondary_statement {
                    return Err(Error::MissingSecondaryStatement);
                }
                e
            },
            None => {
                let e: Vec<String> = Vec::new();
                assert(strings_view(e@) =~= Seq::<Seq<char>>::empty());
                e
            },
        };
        let row = TaskRow {
            id: uid,
            crate_name: parts[0].clone(),
            crate_version: parts[1].clone(),
            process: self.process.clone(),
            version: self.version.clone(),
            stored_at: self.stored_at.since_epoch.secs as u32,
            state: self.state.label(),
        };
        Ok((row, errors))
    }
}

} // verus!
