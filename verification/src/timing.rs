//! Points in time, ranges of time, and the hour arithmetic of the feed.

use vstd::prelude::*;

verus! {

/// Nanoseconds in one second.
pub const NANOS_PER_SECOND: i64 = 1_000_000_000;

/// Seconds in one hour.
pub const SECONDS_PER_HOUR: i64 = 3_600;

/// Seconds in one day.
pub const SECONDS_PER_DAY: i64 = 86_400;

/// Nanoseconds in one hour, the step of the feed's walk.
pub const NANOS_PER_HOUR: i64 = 3_600_000_000_000;

/// Timestamp of the earliest instant that can be represented
/// (midnight of January 1 of the year -262143, UTC).
pub const MIN_TIMESTAMP: i64 = -8_334_601_228_800;

/// Timestamp of the last second that can be represented
/// (the last second of December 31 of the year 262142, UTC).
pub const MAX_TIMESTAMP: i64 = 8_210_266_876_799;

/// A point in time (UTC): whole seconds since the Unix epoch and the
/// nanoseconds into that second.
///
/// Every value lies in the range that a `chrono::DateTime<Utc>` can hold and
/// has fewer than a second's worth of nanoseconds.
#[derive(Clone, Copy, Debug, PartialEq, Eq)]
pub struct Instant {
    secs: i64,
    nanos: u32,
}

/// A half-open range of time `[start, end)`.
#[derive(Clone, Copy, Debug, PartialEq, Eq)]
pub struct TimeRange {
    pub start: Instant,
    pub end: Instant,
}

/// When something happens: at one instant, or from one instant to another.
#[derive(Clone, Copy, Debug, PartialEq, Eq)]
pub enum Timing {
    Instant(Instant),
    Range(TimeRange),
}

/// Adds whole seconds with chrono: `DateTime::<Utc>::from_timestamp(secs,
/// nanos)`, then `DateTime::checked_add_signed` with
/// `TimeDelta::try_seconds(add)`, read back with `timestamp` and
/// `timestamp_subsec_nanos`.
///
/// Trusted, not proved. For a timestamp inside chrono's range and without a
/// leap-second fraction, and for at most a day to add, the contract claims:
/// the result is `add` seconds later with the same fraction of a second, and
/// it is absent exactly when that would lie past the last representable
/// second.
#[verifier::external_body]
fn seconds_later(secs: i64, nanos: u32, add: i64) -> (r: Option<(i64, u32)>)
    requires
        MIN_TIMESTAMP <= secs <= MAX_TIMESTAMP,
        nanos < NANOS_PER_SECOND,
        0 <= add <= SECONDS_PER_DAY,
    ensures
        r is Some <==> secs + add <= MAX_TIMESTAMP,
        r matches Some(t) ==> t.0 == secs + add && t.1 == nanos,
{
    let start = chrono::DateTime::from_timestamp(secs, nanos)?;
    let next = start.checked_add_signed(chrono::TimeDelta::try_seconds(add)?)?;
    Some((next.timestamp(), next.timestamp_subsec_nanos()))
}

impl View for Instant {
    type V = int;

    /// Nanoseconds since the Unix epoch.
    open spec fn view(&self) -> int {
        self.seconds() * NANOS_PER_SECOND + self.subsec_nanos()
    }
}

impl Instant {
    /// Whole seconds since the Unix epoch.
    pub closed spec fn seconds(&self) -> int {
        self.secs as int
    }

    /// Nanoseconds into the second.
    pub closed spec fn subsec_nanos(&self) -> int {
        self.nanos as int
    }

    /// Validity of an instant: inside the representable range, with less than
    /// a second of nanoseconds. Every instant that a program holds is valid.
    #[verifier::type_invariant]
    pub open spec fn wf(&self) -> bool {
        &&& MIN_TIMESTAMP <= self.seconds() <= MAX_TIMESTAMP
        &&& 0 <= self.subsec_nanos() < NANOS_PER_SECOND
    }

    /// The instant that lies `nanos` nanoseconds after the Unix epoch.
    pub closed spec fn at(nanos: int) -> Instant {
        Instant {
            secs: (nanos / (NANOS_PER_SECOND as int)) as i64,
            nanos: (nanos % (NANOS_PER_SECOND as int)) as u32,
        }
    }

    /// The instant at `secs` seconds and `nanos` nanoseconds after the Unix
    /// epoch, where that is a valid instant.
    pub open spec fn spec_new(secs: int, nanos: int) -> Option<Instant> {
        if MIN_TIMESTAMP <= secs <= MAX_TIMESTAMP && 0 <= nanos < NANOS_PER_SECOND {
            Some(Instant::at(secs * NANOS_PER_SECOND + nanos))
        } else {
            None
        }
    }

    /// The instant `hours` hours after this one.
    pub open spec fn plus_hours(&self, hours: int) -> Instant {
        Instant::at(self@ + hours * NANOS_PER_HOUR)
    }

    /// The instant at `secs` seconds and `nanos` nanoseconds after the Unix
    /// epoch, or `None` where that is no valid instant.
    pub fn new(secs: i64, nanos: u32) -> (r: Option<Instant>)
        ensures
            r == Instant::spec_new(secs as int, nanos as int),
            r is Some <==> MIN_TIMESTAMP <= secs <= MAX_TIMESTAMP && nanos < NANOS_PER_SECOND,
            r matches Some(t) ==> t.seconds() == secs && t.subsec_nanos() == nanos && t.wf(),
    {
        if MIN_TIMESTAMP <= secs && secs <= MAX_TIMESTAMP && nanos < 1_000_000_000 {
            Some(Instant { secs, nanos })
        } else {
            None
        }
    }

    /// The instant of a timestamp whose nanoseconds may exceed a second's
    /// worth, as they do where a clock reports a leap second: such a
    /// fraction is folded onto the last nanosecond of its second.
    pub fn from_timestamp(secs: i64, nanos: u32) -> (r: Option<Instant>)
        ensures
            r == Instant::spec_new(
                secs as int,
                if nanos < NANOS_PER_SECOND {
                    nanos as int
                } else {
                    NANOS_PER_SECOND - 1
                },
            ),
    {
        if nanos < 1_000_000_000 {
            Instant::new(secs, nanos)
        } else {
            Instant::new(secs, 999_999_999)
        }
    }

    /// Whole seconds since the Unix epoch.
    pub fn timestamp(&self) -> (r: i64)
        ensures
            r == self.seconds(),
            self.wf(),
    {
        proof {
            use_type_invariant(self);
        }
        self.secs
    }

    /// Nanoseconds into the second.
    pub fn timestamp_subsec_nanos(&self) -> (r: u32)
        ensures
            r == self.subsec_nanos(),
            self.wf(),
    {
        proof {
            use_type_invariant(self);
        }
        self.nanos
    }

    /// Whether this instant is strictly earlier than `other`.
    pub fn is_before(&self, other: &Instant) -> (r: bool)
        ensures
            r == (self@ < other@),
    {
        proof {
            use_type_invariant(self);
            use_type_invariant(other);
        }
        self.secs < other.secs || (self.secs == other.secs && self.nanos < other.nanos)
    }

    /// The instant one hour later, or `None` where that lies past the last
    /// representable second.
    pub fn checked_add_hour(&self) -> (r: Option<Instant>)
        ensures
            self.wf(),
            r is Some <==> self.seconds() + SECONDS_PER_HOUR <= MAX_TIMESTAMP,
            r matches Some(t) ==> t.wf() && t@ == self@ + NANOS_PER_HOUR
                && t.subsec_nanos() == self.subsec_nanos(),
    {
        proof {
            use_type_invariant(self);
        }
        match seconds_later(self.secs, self.nanos, SECONDS_PER_HOUR) {
            Some((secs, nanos)) => Some(Instant { secs, nanos }),
            None => None,
        }
    }
}

impl TimeRange {
    /// Whether `t` lies in the half-open range: at or after its start and
    /// strictly before its end.
    pub open spec fn covers_instant(&self, t: Instant) -> bool {
        self.start@ <= t@ < self.end@
    }

    /// Whether a timing lies inside the range: each instant that the timing
    /// names lies in it.
    pub open spec fn covers(&self, timing: Timing) -> bool {
        match timing {
            Timing::Instant(t) => self.covers_instant(t),
            Timing::Range(r) => self.covers_instant(r.start) && self.covers_instant(r.end),
        }
    }

    /// Whether the instant `t` lies in the range.
    pub fn contains_instant(&self, t: &Instant) -> (r: bool)
        ensures
            r == self.covers_instant(*t),
    {
        !t.is_before(&self.start) && t.is_before(&self.end)
    }

    /// Whether `timing` lies inside the range.
    pub fn contains(&self, timing: &Timing) -> (r: bool)
        ensures
            r == self.covers(*timing),
    {
        match timing {
            Timing::Instant(t) => self.contains_instant(t),
            Timing::Range(r) => self.contains_instant(&r.start) && self.contains_instant(&r.end),
        }
    }
}

/// Nothing lies inside a range that ends where it starts, or before.
pub proof fn lemma_empty_range_covers_nothing(range: TimeRange, timing: Timing)
    requires
        range.end@ <= range.start@,
    ensures
        !range.covers(timing),
{
}

/// A valid instant is the one that lies its own distance after the epoch.
pub proof fn lemma_at_own_view(t: Instant)
    requires
        t.wf(),
    ensures
        Instant::at(t@) == t,
{
}

/// Inside the representable span, `Instant::at` yields a valid instant at
/// the distance asked for.
pub proof fn lemma_at_is_valid(nanos: int)
    requires
        MIN_TIMESTAMP * NANOS_PER_SECOND <= nanos < (MAX_TIMESTAMP + 1) * NANOS_PER_SECOND,
    ensures
        Instant::at(nanos).wf(),
        Instant::at(nanos)@ == nanos,
{
}

/// An instant is rebuilt from its parts: the seconds and the nanoseconds
/// that its getters return make the same instant again.
pub proof fn lemma_instant_rebuilt_from_parts(t: Instant)
    requires
        t.wf(),
    ensures
        Instant::spec_new(t.seconds(), t.subsec_nanos()) == Some(t),
{
}

} // verus!
