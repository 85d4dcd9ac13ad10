use vstd::prelude::*;

verus! {

/// An instant on the UTC time line, as chrono's `DateTime<Utc>` holds it:
/// whole seconds since the Unix epoch, and the nanoseconds into that second
/// (one billion or more only inside a leap second).
#[derive(Clone, Copy, Debug, PartialEq, Eq, Structural)]
pub struct Timestamp {
    pub secs: i64,
    pub nanos: u32,
}

impl Timestamp {
    /// `self` lies strictly after `other` on the time line.
    pub open spec fn later_than(self, other: Timestamp) -> bool {
        ||| self.secs > other.secs
        ||| (self.secs == other.secs && self.nanos > other.nanos)
    }

    /// Whether `self` lies strictly after `other`.
    pub fn is_after(&self, other: &Timestamp) -> (r: bool)
        ensures
            r == self.later_than(*other),
    {
        self.secs > other.secs || (self.secs == other.secs && self.nanos > other.nanos)
    }
}

/// The first whole second that chrono's `DateTime<Utc>` can hold:
/// 1 January 262144 BCE (year -262143), 00:00:00 UTC.
pub open spec fn earliest_second() -> int {
    -8_334_601_228_800
}

/// The last whole second that chrono's `DateTime<Utc>` can hold:
/// 31 December 262142 CE, 23:59:59 UTC.
pub open spec fn latest_second() -> int {
    8_210_266_876_799
}

/// chrono can represent an instant at second `secs`.
pub open spec fn within_chrono_range(secs: int) -> bool {
    earliest_second() <= secs <= latest_second()
}

/// chrono can add `days` whole days to `at`: `at` is a representable
/// instant outside a leap second, and so is the sum.
pub open spec fn days_addable(at: Timestamp, days: int) -> bool {
    &&& at.nanos < 1_000_000_000
    &&& within_chrono_range(at.secs as int)
    &&& within_chrono_range(at.secs + days * 86400)
}

/// Calls `chrono::Utc::now`. chrono builds that instant from the system
/// clock's distance to the Unix epoch, so the seconds are not negative and
/// the nanoseconds stay below one billion; which instant it is, nothing
/// states; being a `DateTime<Utc>`, it lies within chrono's range. (chrono
/// panics when the system clock stands before the epoch.)
#[verifier::external_body]
pub(crate) fn current_time() -> (t: Timestamp)
    ensures
        t.secs >= 0,
        t.secs <= latest_second(),
        t.nanos < 1_000_000_000,
{
    let t = chrono::Utc::now();
    Timestamp { secs: t.timestamp(), nanos: t.timestamp_subsec_nanos() }
}

/// Adds `days` whole days to `at` with chrono: `TimeDelta::try_days`, then
/// `DateTime::checked_add_signed` on the instant that `DateTime::from_timestamp`
/// makes of `at`. For an instant outside a leap second: `try_days` fails
/// only beyond `i64::MAX` milliseconds, which no sum inside chrono's range
/// reaches, and the other two fail only outside chrono's range (years
/// -262143 to 262142), so chrono answers exactly where the sum lies inside
/// that range; the instant then moves by `days * 86400` seconds and keeps its
/// nanoseconds.
#[verifier::external_body]
pub(crate) fn add_days(at: Timestamp, days: i64) -> (r: Option<Timestamp>)
    ensures
        at.nanos < 1_000_000_000 ==> (r is Some <==> days_addable(at, days as int)),
        at.nanos < 1_000_000_000 ==> (r matches Some(t) ==> {
            &&& t.secs == at.secs + days * 86400
            &&& t.nanos == at.nanos
        }),
{
    let delta = chrono::TimeDelta::try_days(days)?;
    let start = chrono::DateTime::from_timestamp(at.secs, at.nanos)?;
    let end = start.checked_add_signed(delta)?;
    Some(Timestamp { secs: end.timestamp(), nanos: end.timestamp_subsec_nanos() })
}

} // verus!
