use vstd::prelude::*;

verus! {

use crate::time::{Elapsed, Timestamp};

/// The characters of each string, in order.
pub open spec fn strings_view(v: Seq<String>) -> Seq<Seq<char>> {
    v.map_values(|s: String| s@)
}

/// Appends clones of `src` to `dst`.
pub fn extend_strings(dst: &mut Vec<String>, src: &Vec<String>)
    ensures
        strings_view(final(dst)@) == strings_view(old(dst)@) + strings_view(src@),
{
    let ghost start = dst@;
    let mut i: usize = 0;
    while i < src.len()
        invariant
            i <= src@.len(),
            dst@ == start + src@.take(i as int),
        decreases src@.len() - i,
    {
        dst.push(src[i].clone());
        i = i + 1;
        assert(src@.take(i as int) =~= src@.take(i - 1) + seq![src@[i - 1]]);
    }
    assert(src@.take(i as int) =~= src@);
    assert(strings_view(start + src@) =~= strings_view(start) + strings_view(src@));
}

/// A copy of a list of strings.
pub fn clone_strings(src: &Vec<String>) -> (r: Vec<String>)
    ensures
        strings_view(r@) == strings_view(src@),
{
    let mut r: Vec<String> = Vec::new();
    extend_strings(&mut r, src);
    assert(strings_view(Seq::<String>::empty()) =~= Seq::<Seq<char>>::empty());
    assert(Seq::<Seq<char>>::empty() + strings_view(src@) =~= strings_view(src@));
    r
}

/// A top-level crate and the versions published of it, oldest first.
#[derive(Debug, Clone, Default)]
pub struct Crate {
    /// The versions as written in a manifest, each once, ordered so that the most
    /// recent is last.
    pub versions: Vec<String>,
}

/// Whether an index change publishes a version or yanks it.
#[derive(Debug, Clone, Copy, PartialEq, Eq, Structural)]
pub enum ChangeKind {
    Added,
    Yanked,
}

/// Element counts of the store.
#[derive(Debug, Clone, Copy, Default, PartialEq, Eq, Structural)]
pub struct Counts {
    /// The amount of crate versions stored
    pub crate_versions: u64,
    /// The amount of crates stored
    pub crates: u32,
}

/// Wall-clock time spent on the kinds of computation.
#[derive(Debug, Clone, Copy, PartialEq, Eq, Structural)]
pub struct Durations {
    pub fetch_crate_versions: Elapsed,
}

/// The work performed on one calendar day.
#[derive(Debug, Clone, Copy, PartialEq, Eq, Structural)]
pub struct Context {
    pub counts: Counts,
    pub durations: Durations,
}

impl Context {
    pub open spec fn wf(self) -> bool {
        self.durations.fetch_crate_versions.wf()
    }

    /// Whether the componentwise sum of two records fits their fields.
    pub open spec fn can_add(self, rhs: Context) -> bool {
        &&& self.counts.crate_versions + rhs.counts.crate_versions <= u64::MAX
        &&& self.counts.crates + rhs.counts.crates <= u32::MAX
        &&& self.durations.fetch_crate_versions.can_add(rhs.durations.fetch_crate_versions)
    }

    /// The componentwise sum, with durations in nanoseconds.
    pub open spec fn sum_of(self, rhs: Context, r: Context) -> bool {
        &&& r.counts.crate_versions == self.counts.crate_versions + rhs.counts.crate_versions
        &&& r.counts.crates == self.counts.crates + rhs.counts.crates
        &&& r.durations.fetch_crate_versions.total() == self.durations.fetch_crate_versions.total()
            + rhs.durations.fetch_crate_versions.total()
    }

    /// A record of no work.
    pub fn empty() -> (r: Context)
        ensures
            r.wf(),
            r.counts.crate_versions == 0,
            r.counts.crates == 0,
            r.durations.fetch_crate_versions.total() == 0,
    {
        Context {
            counts: Counts { crate_versions: 0, crates: 0 },
            durations: Durations { fetch_crate_versions: Elapsed::zero() },
        }
    }

    /// The componentwise sum of two records.
    pub fn add(self, rhs: &Context) -> (r: Context)
        requires
            self.wf(),
            rhs.wf(),
            self.can_add(*rhs),
        ensures
            r.wf(),
            self.sum_of(*rhs, r),
    {
        Context {
            counts: Counts {
                crate_versions: self.counts.crate_versions + rhs.counts.crate_versions,
                crates: self.counts.crates + rhs.counts.crates,
            },
            durations: Durations {
                fetch_crate_versions: self.durations.fetch_crate_versions.add(
                    rhs.durations.fetch_crate_versions,
                ),
            },
        }
    }
}

/// A single dependency of a specific crate version.
#[derive(Debug, Clone, PartialEq, Eq)]
pub struct Dependency {
    /// The crate name
    pub name: String,
    /// The version requirement the parent crate places on it
    pub required_version: String,
    /// The cargo features the parent crate enables
    pub features: Vec<String>,
    /// True if this is an optional dependency
    pub optional: bool,
    /// True if default features are enabled
    pub default_features: bool,
    /// The name of the build target
    pub target: Option<String>,
    /// The kind of dependency, usually 'normal' or 'dev'
    pub kind: Option<String>,
    /// The package this crate is contained in
    pub package: Option<String>,
}

/// All that is known about one change to a version of a crate.
#[derive(Debug, Clone)]
pub struct CrateVersion {
    /// The crate name, i.e. `clap`.
    pub name: String,
    /// The kind of change.
    pub kind: ChangeKind,
    /// The semantic version of the crate.
    pub version: String,
    /// The checksum over the crate archive
    pub checksum: String,
    /// Each cargo feature with the expressions it enables
    pub features: std::collections::HashMap<String, Vec<String>>,
    /// All crate dependencies
    pub dependencies: Vec<Dependency>,
}

impl Crate {
    /// The crate record a first sighting of `v` creates: its version alone.
    pub fn from_version(v: &CrateVersion) -> (r: Crate)
        ensures
            r.versions@.len() == 1,
            r.versions@[0]@ == v.version@,
    {
        Crate { versions: vec![v.version.clone()] }
    }
}

#[derive(Debug, Clone, Copy, PartialEq, Eq, Structural)]
pub enum ReportResult {
    Done,
    NotStarted,
}

/// The lifecycle state of a task.
#[derive(Debug, Clone)]
pub enum TaskState {
    /// The task was never started
    NotStarted,
    /// The task tried to run, but failed with these errors
    AttemptsWithFailure(Vec<String>),
    /// The task completed successfully
    Complete,
    /// The task is running, carrying the errors of earlier attempts if there were any.
    /// A row stored before the process started belongs to a dead run.
    InProgress(Option<Vec<String>>),
}

/// A task state with its errors as character sequences.
pub enum StateView {
    NotStarted,
    AttemptsWithFailure(Seq<Seq<char>>),
    Complete,
    InProgress(Option<Seq<Seq<char>>>),
}

/// The kind of a task state, without its errors.
#[derive(Debug, Clone, Copy, PartialEq, Eq, Structural)]
pub enum StateKind {
    NotStarted,
    AttemptsWithFailure,
    Complete,
    InProgress,
}

impl StateView {
    pub open spec fn kind(self) -> StateKind {
        match self {
            StateView::NotStarted => StateKind::NotStarted,
            StateView::AttemptsWithFailure(_) => StateKind::AttemptsWithFailure,
            StateView::Complete => StateKind::Complete,
            StateView::InProgress(_) => StateKind::InProgress,
        }
    }
}

/// The state that merging `other` into `current` yields.
pub open spec fn merged(current: StateView, other: StateView) -> StateView {
    match (current, other) {
        (StateView::AttemptsWithFailure(xs), StateView::AttemptsWithFailure(ys)) => {
            StateView::AttemptsWithFailure(xs + ys)
        },
        (StateView::AttemptsWithFailure(xs), StateView::InProgress(None)) => {
            StateView::InProgress(Some(xs))
        },
        (StateView::InProgress(Some(xs)), StateView::AttemptsWithFailure(ys)) => {
            StateView::AttemptsWithFailure(xs + ys)
        },
        (_, o) => o,
    }
}

/// Whether `other` may be merged into `current`: a running state preloaded with
/// failures is only ever made from failures, never merged onto them.
pub open spec fn can_merge(current: StateView, other: StateView) -> bool {
    !(current is AttemptsWithFailure && other matches StateView::InProgress(Some(_)))
}

impl View for TaskState {
    type V = StateView;

    open spec fn view(&self) -> StateView {
        match self {
            TaskState::NotStarted => StateView::NotStarted,
            TaskState::AttemptsWithFailure(e) => StateView::AttemptsWithFailure(strings_view(e@)),
            TaskState::Complete => StateView::Complete,
            TaskState::InProgress(None) => StateView::InProgress(None),
            TaskState::InProgress(Some(e)) => StateView::InProgress(Some(strings_view(e@))),
        }
    }
}

impl TaskState {
    /// A copy of this state.
    pub fn duplicate(&self) -> (r: TaskState)
        ensures
            r@ == self@,
    {
        match self {
            TaskState::NotStarted => TaskState::NotStarted,
            TaskState::AttemptsWithFailure(e) => TaskState::AttemptsWithFailure(clone_strings(e)),
            TaskState::Complete => TaskState::Complete,
            TaskState::InProgress(None) => TaskState::InProgress(None),
            TaskState::InProgress(Some(e)) => TaskState::InProgress(Some(clone_strings(e))),
        }
    }

    pub fn is_complete(&self) -> (r: bool)
        ensures
            r == (self@ is Complete),
    {
        matches!(self, TaskState::Complete)
    }

    /// Merges `other` into this state: failures accumulate, a retry carries the
    /// failures before it, and otherwise `other` replaces the state.
    pub fn merge_with(&mut self, other: &TaskState)
        requires
            can_merge(old(self)@, other@),
        ensures
            final(self)@ == merged(old(self)@, other@),
    {
        let next = match (&*self, other) {
            (TaskState::AttemptsWithFailure(existing), TaskState::AttemptsWithFailure(new)) => {
                let mut v = clone_strings(existing);
                extend_strings(&mut v, new);
                TaskState::AttemptsWithFailure(v)
            },
            (TaskState::AttemptsWithFailure(existing), TaskState::InProgress(None)) => {
                TaskState::InProgress(Some(clone_strings(existing)))
            },
            (TaskState::InProgress(Some(existing)), TaskState::AttemptsWithFailure(new)) => {
                let mut v = clone_strings(existing);
                extend_strings(&mut v, new);
                TaskState::AttemptsWithFailure(v)
            },
            (_, o) => o.duplicate(),
        };
        *self = next;
    }
}

impl Default for TaskState {
    fn default() -> (r: TaskState)
        ensures
            r@ == StateView::NotStarted,
    {
        TaskState::NotStarted
    }
}

/// Merging failures is associative, and merging `Complete` gives `Complete`,
/// once or twice alike.
pub proof fn lemma_merge_laws(xs: Seq<Seq<char>>, ys: Seq<Seq<char>>, zs: Seq<Seq<char>>, s: StateView)
    ensures
        merged(
            merged(StateView::AttemptsWithFailure(xs), StateView::AttemptsWithFailure(ys)),
            StateView::AttemptsWithFailure(zs),
        ) == merged(
            StateView::AttemptsWithFailure(xs),
            merged(StateView::AttemptsWithFailure(ys), StateView::AttemptsWithFailure(zs)),
        ),
        merged(s, StateView::Complete) == StateView::Complete,
        merged(merged(s, StateView::Complete), StateView::Complete) == merged(s, StateView::Complete),
{
    assert(xs + ys + zs =~= xs + (ys + zs));
}

/// A unit of scheduled work and where it stands.
#[derive(Debug, Clone)]
pub struct Task {
    /// When the row was last written
    pub stored_at: Timestamp,
    /// The kind of work, e.g. `download`
    pub process: String,
    /// The version of the worker
    pub version: String,
    pub state: TaskState,
}

impl Default for Task {
    /// A task that has not started, stored now.
    fn default() -> (r: Task)
        ensures
            r.stored_at.wf(),
            r.process@ == Seq::<char>::empty(),
            r.version@ == Seq::<char>::empty(),
            r.state@ == StateView::NotStarted,
    {
        Task {
            stored_at: crate::time::now(),
            process: String::new(),
            version: String::new(),
            state: TaskState::NotStarted,
        }
    }
}

/// An entry in a tar archive with its most important meta-data.
#[derive(Debug, Clone, PartialEq, Eq)]
pub struct TarHeader {
    /// The normalized path of the entry; not necessarily UTF-8.
    pub path: Vec<u8>,
    /// The size of the file in bytes
    pub size: u64,
    /// The type of entry, as a tar entry type byte
    pub entry_type: u8,
}

/// What a task produced. Variants are only ever appended.
#[derive(Debug, Clone)]
pub enum TaskResult {
    /// A placeholder, the default value
    Empty,
    /// The most interesting information about an unpacked crate
    ExplodedCrate {
        /// Meta data of all entries in the crate
        entries_meta_data: Vec<TarHeader>,
        /// The content of selected files, usually README, license and Cargo files
        selected_entries: Vec<(TarHeader, Vec<u8>)>,
    },
    /// A download and its meta data
    Download {
        kind: String,
        url: String,
        content_length: u32,
        /// The content type, if the server sent one
        content_type: Option<String>,
    },
}

impl Default for TaskResult {
    fn default() -> (r: TaskResult)
        ensures
            r is Empty,
    {
        TaskResult::Empty
    }
}

} // verus!
