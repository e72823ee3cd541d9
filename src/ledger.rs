use vstd::prelude::*;

verus! {

use crate::model::{clone_strings, merged, StateKind, StateView, Task, TaskState, strings_view};
use crate::time::Timestamp;

/// What a worker does with a unit of work after consulting the ledger.
#[derive(Debug, Clone, Copy, PartialEq, Eq, Structural)]
pub enum ClaimOutcome {
    Proceed,
    Skip,
}

/// The state changes that the ledger admits: work starts from `NotStarted` or from
/// failures, and running work completes or fails.
pub open spec fn may_follow(from: StateKind, to: StateKind) -> bool {
    ||| from == StateKind::NotStarted && to == StateKind::InProgress
    ||| from == StateKind::AttemptsWithFailure && to == StateKind::InProgress
    ||| from == StateKind::InProgress && to == StateKind::Complete
    ||| from == StateKind::InProgress && to == StateKind::AttemptsWithFailure
}

/// The state a claim writes over a row in `state`, stored at `stored_at`; `None` where
/// the claim skips.
pub open spec fn claimed(
    state: StateView,
    stored_at: Timestamp,
    startup: Timestamp,
    max_retries: nat,
) -> Option<StateView> {
    match state {
        StateView::NotStarted => Some(StateView::InProgress(None)),
        StateView::Complete => None,
        StateView::InProgress(prev) => if stored_at.spec_before(startup) {
            Some(StateView::InProgress(prev))
        } else {
            None
        },
        StateView::AttemptsWithFailure(errors) => if errors.len() < max_retries {
            Some(StateView::InProgress(Some(errors)))
        } else {
            None
        },
    }
}

impl Task {
    pub open spec fn spec_can_be_started(self, startup: Timestamp) -> bool {
        match self.state@ {
            StateView::NotStarted => true,
            StateView::AttemptsWithFailure(_) => true,
            StateView::Complete => false,
            StateView::InProgress(_) => self.stored_at.spec_before(startup),
        }
    }

    /// Whether the task may run now: it never ran, it failed before, or its run
    /// was left behind by a process older than this one.
    pub fn can_be_started(&self, startup: Timestamp) -> (r: bool)
        requires
            self.stored_at.wf(),
            startup.wf(),
        ensures
            r == self.spec_can_be_started(startup),
    {
        match &self.state {
            TaskState::NotStarted => true,
            TaskState::AttemptsWithFailure(_) => true,
            TaskState::Complete => false,
            TaskState::InProgress(_) => self.stored_at.before(&startup),
        }
    }
}

/// Decides a claim on the unit whose ledger row is `existing`, and returns the row to
/// write where the worker proceeds.
pub fn claim(
    existing: Option<&Task>,
    process: &str,
    version: &str,
    now: Timestamp,
    startup: Timestamp,
    max_retries: usize,
) -> (r: (ClaimOutcome, Option<Task>))
    requires
        startup.wf(),
        existing matches Some(t) ==> t.stored_at.wf(),
    ensures
        (r.0 == ClaimOutcome::Proceed) <==> r.1 is Some,
        ({
            let target = match existing {
                None => Some(StateView::InProgress(None)),
                Some(t) => claimed(t.state@, t.stored_at, startup, max_retries as nat),
            };
            match r.1 {
                None => target is None,
                Some(row) => {
                    &&& target == Some(row.state@)
                    &&& row.stored_at == now
                    &&& row.process@ == process@
                    &&& row.version@ == version@
                },
            }
        }),
{
    let state = match existing {
        None => Some(TaskState::InProgress(None)),
        Some(t) => match &t.state {
            TaskState::NotStarted => Some(TaskState::InProgress(None)),
            TaskState::Complete => None,
            TaskState::InProgress(prev) => {
                if t.stored_at.before(&startup) {
                    let prev = match prev {
                        None => None,
                        Some(e) => Some(clone_strings(e)),
                    };
                    Some(TaskState::InProgress(prev))
                } else {
                    None
                }
            },
            TaskState::AttemptsWithFailure(errors) => {
                if errors.len() < max_retries {
                    Some(TaskState::InProgress(Some(clone_strings(errors))))
                } else {
                    None
                }
            },
        },
    };
    match state {
        None => (ClaimOutcome::Skip, None),
        Some(state) => (
            ClaimOutcome::Proceed,
            Some(
                Task {
                    stored_at: now,
                    process: process.to_owned(),
                    version: version.to_owned(),
                    state,
                },
            ),
        ),
    }
}

/// Marks running work as done.
pub fn complete(task: &mut Task, now: Timestamp)
    requires
        old(task).state@ is InProgress,
    ensures
        final(task).state@ == StateView::Complete,
        final(task).stored_at == now,
        final(task).process == old(task).process,
        final(task).version == old(task).version,
{
    task.state = TaskState::Complete;
    task.stored_at = now;
}

/// Records that running work failed with `error`, keeping the failures before it.
pub fn fail(task: &mut Task, error: String, now: Timestamp)
    requires
        old(task).state@ is InProgress,
    ensures
        final(task).state@ == merged(old(task).state@, StateView::AttemptsWithFailure(seq![error@])),
        final(task).stored_at == now,
        final(task).process == old(task).process,
        final(task).version == old(task).version,
{
    let ghost e = error;
    let errors = vec![error];
    assert(errors@ =~= seq![e]);
    assert(strings_view(errors@) =~= seq![e@]);
    let failure = TaskState::AttemptsWithFailure(errors);
    task.state.merge_with(&failure);
    task.stored_at = now;
}

/// Every change of state that `claim`, `complete` and `fail` make is one that
/// `may_follow` admits, and a completed task is never claimed again.
pub proof fn lemma_ledger_transitions(
    state: StateView,
    stored_at: Timestamp,
    startup: Timestamp,
    max_retries: nat,
    error: Seq<char>,
)
    ensures
        claimed(state, stored_at, startup, max_retries) matches Some(next) ==> (
        may_follow(state.kind(), next.kind()) || next == state),
        state is Complete ==> claimed(state, stored_at, startup, max_retries) is None,
        state is InProgress ==> may_follow(state.kind(), StateKind::Complete),
        state is InProgress ==> may_follow(
            state.kind(),
            merged(state, StateView::AttemptsWithFailure(seq![error])).kind(),
        ),
{
}

/// Whether a failed download is tried again: only timeout-like failures are, and
/// only while fewer than `max_retries_on_timeout` retries have been made.
pub fn retry_after_failure(retries_made: usize, max_retries_on_timeout: usize, timeout_like: bool) -> (r: bool)
    ensures
        r == (timeout_like && retries_made < max_retries_on_timeout),
{
    timeout_like && retries_made < max_retries_on_timeout
}

} // verus!
