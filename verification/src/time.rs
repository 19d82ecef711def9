//! Instants and spans of time as exact integers.

use vstd::prelude::*;

verus! {

/// An instant: whole seconds since the Unix epoch plus a sub-second part.
#[derive(Clone, Copy, Debug, PartialEq, Eq, Structural)]
pub struct Timestamp {
    pub secs: i64,
    pub nanos: u32,
}

/// A non-negative span of time.
#[derive(Clone, Copy, Debug, PartialEq, Eq, Structural)]
pub struct Interval {
    pub secs: u64,
    pub nanos: u32,
}

impl Timestamp {
    /// The instant as nanoseconds since the epoch.
    pub open spec fn as_nanos(self) -> int {
        self.secs as int * 1_000_000_000 + self.nanos as int
    }

    pub fn new(secs: i64, nanos: u32) -> (t: Timestamp)
        ensures
            t == (Timestamp { secs, nanos }),
    {
        Timestamp { secs, nanos }
    }

    fn total(&self) -> (n: i128)
        ensures
            n == self.as_nanos(),
    {
        let secs: i128 = self.secs as i128;
        let nanos: i128 = self.nanos as i128;
        secs * 1_000_000_000 + nanos
    }

    /// Whether this instant lies strictly after `other`.
    pub fn is_after(&self, other: &Timestamp) -> (b: bool)
        ensures
            b == (self.as_nanos() > other.as_nanos()),
    {
        self.total() > other.total()
    }

    /// How many nanoseconds this instant lies after `since`; a negative
    /// number where it lies before.
    pub fn nanos_since(&self, since: &Timestamp) -> (n: i128)
        ensures
            n == self.as_nanos() - since.as_nanos(),
    {
        self.total() - since.total()
    }

    /// Whether strictly more than `span` has passed between `since` and this
    /// instant. An instant that precedes `since` has passed nothing.
    pub fn elapsed_exceeds(&self, since: &Timestamp, span: &Interval) -> (b: bool)
        ensures
            b == (self.as_nanos() - since.as_nanos() > span.as_nanos()),
    {
        self.total() - since.total() > span.total()
    }

    /// Whether strictly less than `span` has passed between `since` and this
    /// instant.
    pub fn elapsed_below(&self, since: &Timestamp, span: &Interval) -> (b: bool)
        ensures
            b == (self.as_nanos() - since.as_nanos() < span.as_nanos()),
    {
        self.total() - since.total() < span.total()
    }
}

impl Interval {
    /// The span in nanoseconds.
    pub open spec fn as_nanos(self) -> int {
        self.secs as int * 1_000_000_000 + self.nanos as int
    }

    pub fn new(secs: u64, nanos: u32) -> (d: Interval)
        ensures
            d == (Interval { secs, nanos }),
    {
        Interval { secs, nanos }
    }

    /// The span of `nanos` nanoseconds.
    pub open spec fn of_nanos(nanos: int) -> Interval {
        Interval {
            secs: (nanos / 1_000_000_000) as u64,
            nanos: (nanos % 1_000_000_000) as u32,
        }
    }

    pub fn from_nanos(nanos: u64) -> (d: Interval)
        ensures
            d == Self::of_nanos(nanos as int),
            d.as_nanos() == nanos,
    {
        Interval { secs: nanos / 1_000_000_000, nanos: (nanos % 1_000_000_000) as u32 }
    }

    pub fn from_secs(secs: u64) -> (d: Interval)
        ensures
            d == (Interval { secs, nanos: 0 }),
            d.as_nanos() == secs as int * 1_000_000_000,
    {
        Interval { secs, nanos: 0 }
    }

    fn total(&self) -> (n: i128)
        ensures
            n == self.as_nanos(),
    {
        let secs: i128 = self.secs as i128;
        let nanos: i128 = self.nanos as i128;
        secs * 1_000_000_000 + nanos
    }
}

/// Whether chrono can hold the instant that lies `secs` seconds and `nanos`
/// nanoseconds after the epoch. It holds the years -262143 to 262142 of the
/// proleptic Gregorian calendar: from the second that lies 8 334 601 228 800
/// seconds before the epoch to the one that lies 8 210 266 876 799 seconds
/// after it. The sub-second part stays below one second, but for a leap
/// second: in the last second of a minute it may be anything below two
/// seconds.
pub open spec fn representable(secs: i64, nanos: u32) -> bool {
    &&& -8_334_601_228_800 <= secs <= 8_210_266_876_799
    &&& (nanos < 1_000_000_000 || (nanos < 2_000_000_000 && secs % 60 == 59))
}

/// `SystemTime::elapsed` of std, asked of `UNIX_EPOCH`: how far the system
/// clock stands from the epoch, as whole seconds and the rest in nanoseconds.
/// The flag tells whether the clock stands at or after the epoch (`Ok`) or
/// before it (`Err`, whose `duration` is the distance). Nothing is claimed of
/// the distance but what std documents of every `Duration`: its sub-second
/// part is below one second.
#[verifier::external_body]
fn clock_distance() -> (reading: (bool, u64, u32))
    ensures
        reading.2 < 1_000_000_000,
{
    match std::time::UNIX_EPOCH.elapsed() {
        Ok(ahead) => (true, ahead.as_secs(), ahead.subsec_nanos()),
        Err(behind) => (false, behind.duration().as_secs(), behind.duration().subsec_nanos()),
    }
}

/// Renders an instant in the machine's time zone as `YYYY-MM-DD hh:mm:ss`,
/// through `chrono::DateTime::from_timestamp`, `with_timezone(&Local)` and
/// `format`. There is a text exactly where `from_timestamp` takes the instant:
/// where its day lies in the years that chrono holds and its sub-second part
/// is one that chrono accepts. The text depends on the time zone of the
/// machine, so nothing is claimed of it.
#[verifier::external_body]
fn local_rendering(secs: i64, nanos: u32) -> (text: Option<String>)
    ensures
        text is Some <==> representable(secs, nanos),
{
    match chrono::DateTime::from_timestamp(secs, nanos) {
        Some(t) => Some(t.with_timezone(&chrono::Local).format("%Y-%m-%d %H:%M:%S").to_string()),
        None => None,
    }
}

impl Timestamp {
    /// Whether the instant can be shown as a date and a time.
    pub open spec fn is_representable(self) -> bool {
        representable(self.secs, self.nanos)
    }

    /// The first instant that a timestamp can hold, in nanoseconds from the
    /// epoch.
    pub open spec fn first_nanos() -> int {
        i64::MIN * 1_000_000_000
    }

    /// The last instant that a timestamp can hold with a sub-second part
    /// below one second, in nanoseconds from the epoch.
    pub open spec fn last_nanos() -> int {
        i64::MAX * 1_000_000_000 + 999_999_999
    }

    /// The instant that lies `secs` seconds and `nanos` nanoseconds from the
    /// epoch, after it where `ahead` holds and before it otherwise, in
    /// nanoseconds from the epoch.
    pub open spec fn distance_nanos(ahead: bool, secs: u64, nanos: u32) -> int {
        if ahead {
            secs * 1_000_000_000 + nanos
        } else {
            -(secs * 1_000_000_000 + nanos)
        }
    }

    /// The instant at a distance from the epoch, with its sub-second part
    /// below one second. A distance beyond what a timestamp can hold gives
    /// the first or the last instant that it can hold.
    pub fn from_epoch_distance(ahead: bool, secs: u64, nanos: u32) -> (t: Timestamp)
        ensures
            t.nanos < 1_000_000_000,
            Self::first_nanos() <= Self::distance_nanos(ahead, secs, nanos) <= Self::last_nanos()
                ==> t.as_nanos() == Self::distance_nanos(ahead, secs, nanos),
            Self::distance_nanos(ahead, secs, nanos) < Self::first_nanos() ==> t.as_nanos()
                == Self::first_nanos(),
            Self::distance_nanos(ahead, secs, nanos) > Self::last_nanos() ==> t.as_nanos()
                == Self::last_nanos(),
    {
        let total: u128 = secs as u128 * 1_000_000_000 + nanos as u128;
        let whole: u128 = total / 1_000_000_000;
        let rest: u32 = (total % 1_000_000_000) as u32;
        if ahead {
            if whole > i64::MAX as u128 {
                Timestamp { secs: i64::MAX, nanos: 999_999_999 }
            } else {
                Timestamp { secs: whole as i64, nanos: rest }
            }
        } else if whole > i64::MAX as u128 {
            Timestamp { secs: i64::MIN, nanos: 0 }
        } else if rest == 0 {
            Timestamp { secs: -(whole as i64), nanos: 0 }
        } else {
            Timestamp { secs: -(whole as i64) - 1, nanos: 1_000_000_000 - rest }
        }
    }

    /// The current instant, by the system clock, with its sub-second part
    /// below one second.
    pub fn now() -> (t: Timestamp)
        ensures
            t.nanos < 1_000_000_000,
    {
        let (ahead, secs, nanos) = clock_distance();
        Timestamp::from_epoch_distance(ahead, secs, nanos)
    }

    /// The instant as local wall-clock time, for messages to people: a date
    /// and a time in the time zone of the machine, for every instant that can
    /// be shown as such, and nothing for any other.
    pub fn to_local_text(&self) -> (text: Option<String>)
        ensures
            text is Some <==> self.is_representable(),
    {
        local_rendering(self.secs, self.nanos)
    }
}

} // verus!
