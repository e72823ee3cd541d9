use vstd::prelude::*;

verus! {

use crate::model::{Context, Crate, CrateVersion, Task, TaskResult};
use crate::time::{day_of, now, Timestamp, RFC3339_LIMIT_SECS};

/// The character that separates the components of a key.
pub const KEY_SEP_CHAR: char = ':';

pub open spec fn sep() -> Seq<char> {
    seq![KEY_SEP_CHAR]
}

/// Appends the key separator.
pub(crate) fn push_sep(buf: &mut String)
    ensures
        final(buf)@ == old(buf)@ + sep(),
{
    proof {
        reveal_strlit(":");
    }
    buf.append(":");
}

/// A value stored under a key that it determines.
pub trait Keyed {
    /// The key of the value.
    spec fn key_view(&self) -> Seq<char>;

    /// Appends the key to `buf`.
    fn key_buf(&self, buf: &mut String)
        ensures
            final(buf)@ == old(buf)@ + self.key_view(),
    ;

    /// The key on its own.
    fn key(&self) -> (r: String)
        ensures
            r@ == self.key_view(),
    {
        let mut buf = String::new();
        self.key_buf(&mut buf);
        assert(Seq::<char>::empty() + self.key_view() =~= self.key_view());
        buf
    }
}

/// The key of a crate version: `name:version`.
pub open spec fn version_key(name: Seq<char>, version: Seq<char>) -> Seq<char> {
    name + sep() + version
}

/// The fully qualified key of a task on a crate version: `name:version:process:processVersion`.
pub open spec fn task_fq_key(name: Seq<char>, version: Seq<char>, task: Task) -> Seq<char> {
    version_key(name, version) + sep() + task.key_view()
}

impl Keyed for Task {
    open spec fn key_view(&self) -> Seq<char> {
        self.process@ + sep() + self.version@
    }

    fn key_buf(&self, buf: &mut String) {
        buf.append(self.process.as_str());
        push_sep(buf);
        buf.append(self.version.as_str());
        assert(final(buf)@ =~= old(buf)@ + self.key_view());
    }
}

impl Task {
    /// Appends the task's fully qualified key for the crate version `crate_name:crate_version`.
    pub fn fq_key(&self, crate_name: &str, crate_version: &str, buf: &mut String)
        ensures
            final(buf)@ == old(buf)@ + task_fq_key(crate_name@, crate_version@, *self),
    {
        CrateVersion::key_from(crate_name, crate_version, buf);
        push_sep(buf);
        self.key_buf(buf);
        assert(final(buf)@ =~= old(buf)@ + task_fq_key(crate_name@, crate_version@, *self));
    }
}

impl CrateVersion {
    /// Appends the key `name:version`.
    pub fn key_from(name: &str, version: &str, buf: &mut String)
        ensures
            final(buf)@ == old(buf)@ + version_key(name@, version@),
    {
        buf.append(name);
        push_sep(buf);
        buf.append(version);
        assert(final(buf)@ =~= old(buf)@ + version_key(name@, version@));
    }
}

impl Keyed for CrateVersion {
    open spec fn key_view(&self) -> Seq<char> {
        version_key(self.name@, self.version@)
    }

    fn key_buf(&self, buf: &mut String) {
        CrateVersion::key_from(self.name.as_str(), self.version.as_str(), buf)
    }
}

impl Crate {
    /// Appends the key of the crate that `v` is a version of: its name.
    pub fn key_from_version_buf(v: &CrateVersion, buf: &mut String)
        ensures
            final(buf)@ == old(buf)@ + v.name@,
    {
        buf.append(v.name.as_str());
    }
}

/// A result's suffix to its task's key: `:kind` for a download, nothing otherwise.
impl Keyed for TaskResult {
    open spec fn key_view(&self) -> Seq<char> {
        match self {
            TaskResult::Download { kind, .. } => sep() + kind@,
            _ => Seq::empty(),
        }
    }

    fn key_buf(&self, buf: &mut String) {
        match self {
            TaskResult::Download { kind, .. } => {
                push_sep(buf);
                buf.append(kind.as_str());
                assert(final(buf)@ =~= old(buf)@ + self.key_view());
            },
            _ => {
                assert(old(buf)@ + self.key_view() =~= old(buf)@);
            },
        }
    }
}

impl TaskResult {
    /// Appends the result's key: its task's fully qualified key and its own suffix.
    pub fn fq_key(&self, crate_name: &str, crate_version: &str, task: &Task, buf: &mut String)
        ensures
            final(buf)@ == old(buf)@ + task_fq_key(crate_name@, crate_version@, *task)
                + self.key_view(),
    {
        task.fq_key(crate_name, crate_version, buf);
        self.key_buf(buf);
    }
}

/// A download result is stored under its task's key followed by `:kind`.
pub proof fn lemma_download_key(r: TaskResult, crate_name: Seq<char>, crate_version: Seq<char>, task: Task)
    requires
        r is Download,
    ensures
        task_fq_key(crate_name, crate_version, task) + r.key_view() == task_fq_key(
            crate_name,
            crate_version,
            task,
        ) + sep() + r->Download_kind@,
{
    assert(task_fq_key(crate_name, crate_version, task) + r.key_view() =~= task_fq_key(
        crate_name,
        crate_version,
        task,
    ) + sep() + r->Download_kind@);
}

/// The key of the context record of a day: `context/` and the day.
pub open spec fn context_key(day: Seq<char>) -> Seq<char> {
    "context/"@ + day
}

impl Context {
    /// Appends the key of the record for `day` (`YYYY-MM-DD`).
    pub fn key_for_day(day: &str, buf: &mut String)
        ensures
            final(buf)@ == old(buf)@ + context_key(day@),
    {
        buf.append("context/");
        buf.append(day);
        assert(final(buf)@ =~= old(buf)@ + context_key(day@));
    }

    /// Appends the key of the record for the UTC day of `t`. Returns false, leaving
    /// `buf` as it was, where `t` lies in the year 10000 or later.
    pub fn key_buf_at(&self, t: Timestamp, buf: &mut String) -> (r: bool)
        requires
            t.wf(),
        ensures
            r == (t.since_epoch.secs < RFC3339_LIMIT_SECS),
            r ==> final(buf)@ == old(buf)@ + context_key(
                rfc3339_day(t.since_epoch.secs, t.since_epoch.nanos),
            ),
            !r ==> final(buf)@ == old(buf)@,
    {
        match day_of(t) {
            Some(day) => {
                Context::key_for_day(day.as_str(), buf);
                true
            },
            None => false,
        }
    }

    /// Appends the key of today's record, the day read from the clock in UTC.
    /// Returns false, leaving `buf` as it was, where the clock reads the year 10000 or later.
    pub fn key_buf(&self, buf: &mut String) -> (r: bool)
        ensures
            r ==> exists|secs: u64, nanos: u32|
                secs < RFC3339_LIMIT_SECS && final(buf)@ == old(buf)@ + context_key(
                    rfc3339_day(secs, nanos),
                ),
            !r ==> final(buf)@ == old(buf)@,
    {
        let t = now();
        self.key_buf_at(t, buf)
    }
}

pub open spec fn rfc3339_day(secs: u64, nanos: u32) -> Seq<char> {
    crate::time::rfc3339_of(secs, nanos).take(10)
}

} // verus!
