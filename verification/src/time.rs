//! Points in time, as whole milliseconds since the Unix epoch.
//!
//! The lock rules never read a clock. Every rule that depends on the time
//! takes the instant as an argument, so that two replicas that apply the
//! same command reach the same decision. The one function that does read
//! the clock, [`Timestamp::now`], is for the node that proposes a command
//! and stamps it.

use vstd::prelude::*;

verus! {

/// The last millisecond of the year 9999: the latest instant that an
/// RFC 3339 text with a four-digit year can name.
pub const MAX_TIMESTAMP_MILLIS: i64 = 253_402_300_799_999;

/// Whether `millis` lies between the epoch and the end of the year 9999.
pub open spec fn in_range(millis: int) -> bool {
    0 <= millis <= MAX_TIMESTAMP_MILLIS
}

/// The instant that lies `secs` whole seconds after `millis`.
pub open spec fn after_secs(millis: int, secs: int) -> int {
    millis + 1000 * secs
}

/// The RFC 3339 text of the instant `millis` milliseconds after the epoch,
/// in UTC, as `chrono` writes it.
pub uninterp spec fn rfc3339_text(millis: int) -> Seq<char>;

/// An instant between the epoch and the end of the year 9999, to the
/// millisecond.
#[derive(Clone, Copy, Debug, PartialEq, Eq, Structural)]
pub struct Timestamp {
    millis: i64,
}

impl View for Timestamp {
    type V = int;

    closed spec fn view(&self) -> int {
        self.millis as int
    }
}

impl Timestamp {
    #[verifier::type_invariant]
    spec fn bounded(self) -> bool {
        in_range(self.millis as int)
    }

    /// The timestamp `millis` milliseconds after the epoch, if that is in
    /// range.
    pub fn from_millis(millis: i64) -> (t: Option<Timestamp>)
        ensures
            in_range(millis as int) <==> t.is_some(),
            t matches Some(ts) ==> ts@ == millis,
    {
        if 0 <= millis && millis <= MAX_TIMESTAMP_MILLIS {
            Some(Timestamp { millis })
        } else {
            None
        }
    }

    /// Milliseconds since the epoch.
    pub fn millis(&self) -> (m: i64)
        ensures
            m == self@,
            in_range(m as int),
    {
        proof {
            use_type_invariant(self);
        }
        self.millis
    }

    /// The instant `secs` seconds later, or `None` if that is out of range.
    pub fn checked_add_secs(&self, secs: u64) -> (t: Option<Timestamp>)
        ensures
            in_range(after_secs(self@, secs as int)) <==> t.is_some(),
            t matches Some(ts) ==> ts@ == after_secs(self@, secs as int),
    {
        proof {
            use_type_invariant(self);
        }
        let later: i128 = self.millis as i128 + 1000 * (secs as i128);
        if later <= MAX_TIMESTAMP_MILLIS as i128 {
            Some(Timestamp { millis: later as i64 })
        } else {
            None
        }
    }

    /// Whether `self` is strictly earlier than `other`.
    pub fn is_before(&self, other: &Timestamp) -> (b: bool)
        ensures
            b == (self@ < other@),
    {
        self.millis < other.millis
    }

    /// Whole seconds from `now` until `self`, and zero if `self` is not
    /// later than `now`.
    pub fn secs_after(&self, now: &Timestamp) -> (secs: u64)
        ensures
            secs == secs_between(now@, self@),
    {
        proof {
            use_type_invariant(self);
            use_type_invariant(now);
        }
        if self.millis <= now.millis {
            0
        } else {
            ((self.millis - now.millis) / 1000) as u64
        }
    }

    /// The RFC 3339 text of this instant in UTC.
    pub fn to_rfc3339(&self) -> (text: String)
        ensures
            text@ == rfc3339_text(self@),
    {
        proof {
            use_type_invariant(self);
        }
        format_rfc3339(self.millis)
    }

    /// The current time by the system clock, or `None` if the clock stands
    /// outside the range of a timestamp.
    pub fn now() -> (t: Option<Timestamp>)
        ensures
            t matches Some(ts) ==> in_range(ts@),
    {
        Timestamp::from_millis(system_clock_millis())
    }
}

/// Whole seconds from `from` until `to`, and zero if `to` is not later.
pub open spec fn secs_between(from: int, to: int) -> int {
    if to <= from {
        0
    } else {
        (to - from) / 1000
    }
}

/// `chrono::DateTime::from_timestamp_millis` followed by
/// `DateTime::to_rfc3339`. The first returns a value for every instant in
/// range of a [`Timestamp`]; the text that the second writes depends on that
/// instant alone, and is named [`rfc3339_text`] rather than spelled out.
#[verifier::external_body]
fn format_rfc3339(millis: i64) -> (text: String)
    requires
        in_range(millis as int),
    ensures
        text@ == rfc3339_text(millis as int),
{
    chrono::DateTime::from_timestamp_millis(millis).unwrap().to_rfc3339()
}

/// `chrono::Utc::now` as milliseconds since the epoch
/// (`DateTime::timestamp_millis`). Nothing is promised of the result: it is
/// whatever the system clock says. `Utc::now` does not return if the clock
/// stands before the epoch.
#[verifier::external_body]
fn system_clock_millis() -> i64 {
    chrono::Utc::now().timestamp_millis()
}

} // verus!
