use vstd::prelude::*;

verus! {

use crate::error::{Error, Result};

pub const NANOS_PER_SEC: u32 = 1_000_000_000;

/// Seconds at which RFC 3339 formatting runs out of four-digit years.
pub const RFC3339_LIMIT_SECS: u64 = 253_402_300_800;

/// A length of time, kept as whole seconds and the nanoseconds beyond them.
#[derive(Debug, Clone, Copy, PartialEq, Eq, Structural)]
pub struct Elapsed {
    pub secs: u64,
    pub nanos: u32,
}

/// A wall-clock instant, as the time elapsed since the Unix epoch.
#[derive(Debug, Clone, Copy, PartialEq, Eq, Structural)]
pub struct Timestamp {
    pub since_epoch: Elapsed,
}

impl Elapsed {
    pub open spec fn wf(self) -> bool {
        self.nanos < NANOS_PER_SEC
    }

    /// The length in nanoseconds.
    pub open spec fn total(self) -> int {
        self.secs * 1_000_000_000 + self.nanos
    }

    /// Whether the sum's seconds, a carry from the nanoseconds included, fit.
    pub open spec fn can_add(self, other: Elapsed) -> bool {
        self.secs + other.secs + (if self.nanos + other.nanos >= NANOS_PER_SEC {
            1int
        } else {
            0int
        }) <= u64::MAX
    }

    pub fn zero() -> (r: Elapsed)
        ensures
            r.wf(),
            r.total() == 0,
    {
        Elapsed { secs: 0, nanos: 0 }
    }

    /// The sum of two lengths of time.
    pub fn add(self, other: Elapsed) -> (r: Elapsed)
        requires
            self.wf(),
            other.wf(),
            self.can_add(other),
        ensures
            r.wf(),
            r.total() == self.total() + other.total(),
    {
        let n: u32 = self.nanos + other.nanos;
        if n >= NANOS_PER_SEC {
            Elapsed { secs: self.secs + other.secs + 1, nanos: n - NANOS_PER_SEC }
        } else {
            Elapsed { secs: self.secs + other.secs, nanos: n }
        }
    }
}

impl Timestamp {
    pub open spec fn wf(self) -> bool {
        self.since_epoch.wf()
    }

    pub open spec fn spec_before(self, other: Timestamp) -> bool {
        self.since_epoch.total() < other.since_epoch.total()
    }

    /// Whether `self` lies strictly before `other`.
    pub fn before(&self, other: &Timestamp) -> (r: bool)
        requires
            self.wf(),
            other.wf(),
        ensures
            r == self.spec_before(*other),
    {
        self.since_epoch.secs < other.since_epoch.secs || (self.since_epoch.secs
            == other.since_epoch.secs && self.since_epoch.nanos < other.since_epoch.nanos)
    }
}

/// Fails with `DeadlineExceeded` once `now` has reached the deadline; no deadline never fails.
pub fn check(deadline: Option<Timestamp>, now: Timestamp) -> (r: Result<()>)
    requires
        now.wf(),
        deadline matches Some(d) ==> d.wf(),
    ensures
        r is Err <==> (deadline matches Some(d) && !now.spec_before(d)),
        r matches Err(e) ==> e == Error::DeadlineExceeded,
{
    match deadline {
        Some(d) => {
            if now.before(&d) {
                Ok(())
            } else {
                Err(Error::DeadlineExceeded)
            }
        },
        None => Ok(()),
    }
}

/// What RFC 3339 formatting makes of an instant given as seconds and nanoseconds.
pub uninterp spec fn rfc3339_of(secs: u64, nanos: u32) -> Seq<char>;

/// Relies on `humantime::format_rfc3339` and its `Display`: the UTC timestamp
/// `YYYY-MM-DDTHH:MM:SS[.fraction]Z`, which is never shorter than twenty characters.
/// Its `Display` fails (and `to_string` panics) from the year 10000 on.
#[verifier::external_body]
fn format_rfc3339(t: Timestamp) -> (r: String)
    requires
        t.since_epoch.secs < RFC3339_LIMIT_SECS,
        t.wf(),
    ensures
        r@ == rfc3339_of(t.since_epoch.secs, t.since_epoch.nanos),
        r@.len() >= 20,
{
    let d = std::time::Duration::new(t.since_epoch.secs, t.since_epoch.nanos);
    humantime::format_rfc3339(std::time::UNIX_EPOCH + d).to_string()
}

/// Relies on `std::time::SystemTime::now`, read as the time since the Unix epoch
/// (zero for a clock set before it).
#[verifier::external_body]
pub(crate) fn now() -> (r: Timestamp)
    ensures
        r.wf(),
{
    let d = std::time::SystemTime::now().duration_since(std::time::UNIX_EPOCH).unwrap_or_default();
    Timestamp { since_epoch: Elapsed { secs: d.as_secs(), nanos: d.subsec_nanos() } }
}

/// The calendar day (`YYYY-MM-DD`, UTC) of an instant, when it can be formatted.
pub fn day_of(t: Timestamp) -> (r: Option<String>)
    requires
        t.wf(),
    ensures
        r is Some <==> t.since_epoch.secs < RFC3339_LIMIT_SECS,
        r matches Some(s) ==> s@ == rfc3339_of(t.since_epoch.secs, t.since_epoch.nanos).take(10),
{
    if t.since_epoch.secs < RFC3339_LIMIT_SECS {
        let stamp = format_rfc3339(t);
        let day = stamp.as_str().substring_char(0, 10);
        Some(day.to_owned())
    } else {
        None
    }
}

} // verus!
