use vstd::prelude::*;

verus! {

use crate::dump::str_eq;
use crate::model::{Context, Counts, Crate, CrateVersion, Durations};
use crate::time::Elapsed;
use crate::version::{lemma_version_le_total, lemma_version_le_transitive, version_le, version_precedes_or_ties};

/// Each version once, ordered so that the most recent is last.
pub open spec fn versions_ordered(vs: Seq<String>) -> bool {
    &&& forall|i: int, j: int|
        0 <= i < j < vs.len() ==> version_le(#[trigger] vs[i]@, #[trigger] vs[j]@)
    &&& forall|i: int, j: int| 0 <= i < j < vs.len() ==> (#[trigger] vs[i])@ != (#[trigger] vs[j])@
}

impl Crate {
    pub open spec fn wf(self) -> bool {
        versions_ordered(self.versions@)
    }

    pub open spec fn has_version(self, v: Seq<char>) -> bool {
        exists|i: int| 0 <= i < self.versions@.len() && (#[trigger] self.versions@[i])@ == v
    }

    /// Whether the versions are each there once and in semantic-version order.
    pub fn is_ordered(&self) -> (r: bool)
        ensures
            r == self.wf(),
    {
        let n = self.versions.len();
        let mut i: usize = 0;
        while i < n
            invariant
                n == self.versions@.len(),
                i <= n,
                forall|a: int, b: int|
                    0 <= a < i && a < b < n ==> version_le(
                        #[trigger] self.versions@[a]@,
                        #[trigger] self.versions@[b]@,
                    ) && self.versions@[a]@ != self.versions@[b]@,
            decreases n - i,
        {
            let mut j: usize = i + 1;
            while j < n
                invariant
                    n == self.versions@.len(),
                    i < n,
                    i + 1 <= j <= n,
                    forall|a: int, b: int|
                        0 <= a < i && a < b < n ==> version_le(
                            #[trigger] self.versions@[a]@,
                            #[trigger] self.versions@[b]@,
                        ) && self.versions@[a]@ != self.versions@[b]@,
                    forall|b: int|
                        i < b < j ==> version_le(self.versions@[i as int]@, #[trigger] self.versions@[b]@)
                            && self.versions@[i as int]@ != self.versions@[b]@,
                decreases n - j,
            {
                if !version_precedes_or_ties(self.versions[i].as_str(), self.versions[j].as_str())
                    || str_eq(
                    self.versions[i].as_str(),
                    self.versions[j].as_str(),
                ) {
                    return false;
                }
                j = j + 1;
            }
            i = i + 1;
        }
        true
    }

    /// Adds `version` unless it is there: after the versions that precede it or tie
    /// with it, before those that follow it. The versions already there keep their order.
    pub fn merge_version(&mut self, version: &str)
        requires
            old(self).wf(),
        ensures
            final(self).wf(),
            final(self).has_version(version@),
            forall|x: Seq<char>| #[trigger]
                final(self).has_version(x) <==> (old(self).has_version(x) || x == version@),
            old(self).has_version(version@) ==> final(self).versions@ == old(self).versions@,
            !old(self).has_version(version@) ==> final(self).versions@.len() == old(
                self,
            ).versions@.len() + 1,
            !old(self).has_version(version@) ==> exists|pos: int|
                0 <= pos <= old(self).versions@.len() && final(self).versions@.take(pos)
                    == old(self).versions@.take(pos) && final(self).versions@[pos]@ == version@
                    && final(self).versions@.skip(pos + 1) == old(self).versions@.skip(pos),
    {
        let n = self.versions.len();
        let mut i: usize = 0;
        while i < n
            invariant
                n == self.versions@.len(),
                self.versions@ == old(self).versions@,
                self.wf(),
                i <= n,
                forall|k: int| 0 <= k < i ==> (#[trigger] self.versions@[k])@ != version@,
            decreases n - i,
        {
            if str_eq(self.versions[i].as_str(), version) {
                return;
            }
            i = i + 1;
        }
        let mut pos: usize = 0;
        while pos < n && version_precedes_or_ties(self.versions[pos].as_str(), version)
            invariant
                n == self.versions@.len(),
                self.versions@ == old(self).versions@,
                self.wf(),
                forall|k: int| 0 <= k < n ==> (#[trigger] self.versions@[k])@ != version@,
                pos <= n,
                forall|k: int|
                    0 <= k < pos ==> version_le((#[trigger] self.versions@[k])@, version@),
            decreases n - pos,
        {
            pos = pos + 1;
        }
        let ghost before = self.versions@;
        self.versions.insert(pos, version.to_owned());
        let ghost after = self.versions@;
        assert(after.take(pos as int) =~= before.take(pos as int));
        assert(after.skip(pos + 1) =~= before.skip(pos as int));
        assert(after[pos as int]@ == version@);
        if pos < n {
            proof {
                lemma_version_le_total(before[pos as int]@, version@);
            }
        }
        assert forall|a: int, b: int| 0 <= a < b < after.len() implies version_le(
            #[trigger] after[a]@,
            #[trigger] after[b]@,
        ) && after[a]@ != after[b]@ by {
            if b < pos {
                assert(after[a] == before[a] && after[b] == before[b]);
            } else if b == pos {
                assert(after[a] == before[a]);
            } else if a == pos {
                assert(after[b] == before[b - 1]);
                if b - 1 > pos {
                    assert(version_le(before[pos as int]@, before[b - 1]@));
                    lemma_version_le_transitive(version@, before[pos as int]@, before[b - 1]@);
                }
            } else if a < pos {
                assert(after[a] == before[a] && after[b] == before[b - 1]);
            } else {
                assert(after[a] == before[a - 1] && after[b] == before[b - 1]);
            }
        }
        assert forall|x: Seq<char>| #[trigger]
            self.has_version(x) <==> (old(self).has_version(x) || x == version@) by {
            if old(self).has_version(x) {
                let k = choose|k: int| 0 <= k < before.len() && (#[trigger] before[k])@ == x;
                if k < pos {
                    assert(after[k] == before[k]);
                } else {
                    assert(after[k + 1] == before[k]);
                }
            }
            if self.has_version(x) && x != version@ {
                let k = choose|k: int| 0 <= k < after.len() && (#[trigger] after[k])@ == x;
                if k < pos {
                    assert(after[k] == before[k]);
                } else {
                    assert(k != pos);
                    assert(after[k] == before[k - 1]);
                }
            }
        }
        assert(after[pos as int]@ == version@);
    }
}


/// The record of a crate after a version of it has been seen: new with that version
/// alone, or the stored record with the version merged in.
pub fn upsert_crate(existing: Option<Crate>, v: &CrateVersion) -> (r: Crate)
    requires
        existing matches Some(c) ==> c.wf(),
    ensures
        r.wf(),
        r.has_version(v.version@),
        existing is None ==> r.versions@.len() == 1,
        existing is None ==> forall|x: Seq<char>| #[trigger] r.has_version(x) <==> x == v.version@,
        existing matches Some(c) ==> forall|x: Seq<char>| #[trigger]
            r.has_version(x) <==> (c.has_version(x) || x == v.version@),
        existing matches Some(c) ==> (c.has_version(v.version@) <==> r.versions@ == c.versions@),
        existing matches Some(c) ==> r.versions@.len() == c.versions@.len() + if c.has_version(
            v.version@,
        ) {
            0int
        } else {
            1int
        },
{
    match existing {
        None => {
            let c = Crate::from_version(v);
            assert(c.versions@[0]@ == v.version@);
            assert forall|x: Seq<char>| #[trigger] c.has_version(x) <==> x == v.version@ by {
                if c.has_version(x) {
                    let k = choose|k: int| 0 <= k < c.versions@.len() && (#[trigger] c.versions@[k])@ == x;
                    assert(k == 0);
                }
            }
            c
        },
        Some(mut c) => {
            c.merge_version(v.version.as_str());
            c
        },
    }
}

/// What one run of the index-diff stage stored.
#[derive(Debug, Clone, Copy, PartialEq, Eq, Structural)]
pub struct ChangeTally {
    pub new_crate_versions: u64,
    pub new_crates: u32,
}

impl ChangeTally {
    pub fn new() -> (r: ChangeTally)
        ensures
            r.new_crate_versions == 0,
            r.new_crates == 0,
    {
        ChangeTally { new_crate_versions: 0, new_crates: 0 }
    }

    /// Counts one stored change, after whose upsert its crate holds
    /// `crate_versions_after` versions: the crate is new where that is one.
    pub fn record(&mut self, crate_versions_after: usize)
        requires
            old(self).new_crate_versions < u64::MAX,
            old(self).new_crates < u32::MAX,
        ensures
            final(self).new_crate_versions == old(self).new_crate_versions + 1,
            final(self).new_crates == old(self).new_crates + if crate_versions_after == 1 {
                1int
            } else {
                0int
            },
    {
        self.new_crate_versions = self.new_crate_versions + 1;
        if crate_versions_after == 1 {
            self.new_crates = self.new_crates + 1;
        }
    }
}

/// The number of ones in `s`.
pub open spec fn count_ones(s: Seq<usize>) -> int
    decreases s.len(),
{
    if s.len() == 0 {
        0
    } else {
        count_ones(s.drop_last()) + if s.last() == 1 { 1int } else { 0int }
    }
}

proof fn lemma_count_ones_bound(s: Seq<usize>)
    ensures
        0 <= count_ones(s) <= s.len(),
    decreases s.len(),
{
    if s.len() > 0 {
        lemma_count_ones_bound(s.drop_last());
    }
}

/// The tally of a run whose changes left their crates with `crate_versions_after`
/// versions each, in order.
pub fn tally_changes(crate_versions_after: &Vec<usize>) -> (r: ChangeTally)
    requires
        crate_versions_after@.len() <= u32::MAX,
    ensures
        r.new_crate_versions == crate_versions_after@.len(),
        r.new_crates == count_ones(crate_versions_after@),
{
    let mut t = ChangeTally::new();
    let mut i: usize = 0;
    while i < crate_versions_after.len()
        invariant
            i <= crate_versions_after@.len() <= u32::MAX,
            t.new_crate_versions == i,
            t.new_crates == count_ones(crate_versions_after@.take(i as int)),
        decreases crate_versions_after@.len() - i,
    {
        proof {
            lemma_count_ones_bound(crate_versions_after@.take(i as int));
            assert(crate_versions_after@.take(i + 1).drop_last() =~= crate_versions_after@.take(
                i as int,
            ));
        }
        t.record(crate_versions_after[i]);
        i = i + 1;
    }
    assert(crate_versions_after@.take(i as int) =~= crate_versions_after@);
    t
}

impl Context {
    /// The record of one run: its tally and the time it took.
    pub fn of_run(tally: ChangeTally, elapsed: Elapsed) -> (r: Context)
        requires
            elapsed.wf(),
        ensures
            r.wf(),
            r.counts.crate_versions == tally.new_crate_versions,
            r.counts.crates == tally.new_crates,
            r.durations.fetch_crate_versions == elapsed,
    {
        Context {
            counts: Counts { crate_versions: tally.new_crate_versions, crates: tally.new_crates },
            durations: Durations { fetch_crate_versions: elapsed },
        }
    }

    /// Adds a run of the index-diff stage to this day's record.
    pub fn record_fetch(&mut self, tally: ChangeTally, elapsed: Elapsed)
        requires
            old(self).wf(),
            elapsed.wf(),
            old(self).can_add(Context::of_run_spec(tally, elapsed)),
        ensures
            final(self).wf(),
            old(self).sum_of(Context::of_run_spec(tally, elapsed), *final(self)),
            final(self).counts.crate_versions >= old(self).counts.crate_versions,
            final(self).counts.crates >= old(self).counts.crates,
    {
        let run = Context::of_run(tally, elapsed);
        *self = self.add(&run);
    }

    pub open spec fn of_run_spec(tally: ChangeTally, elapsed: Elapsed) -> Context {
        Context {
            counts: Counts { crate_versions: tally.new_crate_versions, crates: tally.new_crates },
            durations: Durations { fetch_crate_versions: elapsed },
        }
    }
}

/// Adding any record to a day's record never lowers its counts.
pub proof fn lemma_context_counts_monotone(day: Context, delta: Context, after: Context)
    requires
        day.sum_of(delta, after),
    ensures
        after.counts.crate_versions >= day.counts.crate_versions,
        after.counts.crates >= day.counts.crates,
{
}

/// A run that finds no change stores nothing: its tally is zero and the day's counts
/// stay as they were.
pub proof fn lemma_unchanged_remote_is_noop(day: Context, elapsed: Elapsed, after: Context)
    requires
        day.sum_of(Context::of_run_spec(ChangeTally { new_crate_versions: 0, new_crates: 0 }, elapsed), after),
    ensures
        after.counts == day.counts,
{
}

} // verus!
