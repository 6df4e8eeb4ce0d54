//! Wall-clock times of day and points in time, held as plain integers, with
//! the spans between them, to the nanosecond, that the scheduling rules are
//! built on.

use vstd::prelude::*;

verus! {

/// Seconds in a day.
pub const SECONDS_PER_DAY: u32 = 86_400;

/// Nanoseconds in a second.
pub const NANOS_PER_SECOND: u32 = 1_000_000_000;

/// Largest distance from the Unix epoch, in seconds, that a `Timestamp` may
/// have: 250,000 years of 365 days, a whole number of minutes.
pub const MAX_EPOCH_SECONDS: i64 = 7_884_000_000_000;

/// Whether a second count and a nanosecond count describe a moment of a day.
/// The nanosecond count may run up to just under two seconds, but only within
/// the last second of a minute: that is how a leap second is written.
pub open spec fn clock_fields_valid(second: int, nano: int) -> bool {
    &&& 0 <= second < SECONDS_PER_DAY
    &&& 0 <= nano < 2 * NANOS_PER_SECOND
    &&& nano >= NANOS_PER_SECOND ==> second % 60 == 59
}

/// Whether a second count and a nanosecond count describe a point in time
/// that a `Timestamp` can hold.
pub open spec fn epoch_fields_valid(second: int, nano: int) -> bool {
    &&& -MAX_EPOCH_SECONDS <= second <= MAX_EPOCH_SECONDS
    &&& 0 <= nano < 2 * NANOS_PER_SECOND
    &&& nano >= NANOS_PER_SECOND ==> second % 60 == 59
}

/// The extra second that a difference gains or loses when the earlier of its
/// two ends, by the second count, lies inside a leap second.
pub open spec fn leap_carry(second_a: int, nano_a: int, second_b: int, nano_b: int) -> int {
    if second_a > second_b && nano_b >= NANOS_PER_SECOND {
        1
    } else if second_a < second_b && nano_a >= NANOS_PER_SECOND {
        -1
    } else {
        0
    }
}

/// A signed span of nanoseconds in whole minutes, rounded toward zero.
pub open spec fn whole_minutes(nanos: int) -> int {
    if nanos >= 0 {
        nanos / 60_000_000_000
    } else {
        -((-nanos) / 60_000_000_000)
    }
}

/// A time of day with nanosecond precision.
#[derive(Clone, Copy, Debug, PartialEq, Eq, Structural)]
pub struct TimeOfDay {
    secs: u32,
    nanos: u32,
}

impl TimeOfDay {
    /// Seconds since midnight.
    pub closed spec fn second(self) -> int {
        self.secs as int
    }

    /// Nanoseconds since the start of that second.
    pub closed spec fn nano(self) -> int {
        self.nanos as int
    }

    /// Every time of day is a moment of a day.
    #[verifier::type_invariant]
    pub open spec fn wf(self) -> bool {
        clock_fields_valid(self.second(), self.nano())
    }

    /// The position of this time in the order of the day: times compare as
    /// their positions do.
    pub open spec fn position(self) -> int {
        self.second() * (2 * NANOS_PER_SECOND) + self.nano()
    }

    /// The time with the given fields, if they describe a moment of a day.
    pub fn new(secs: u32, nanos: u32) -> (r: Option<TimeOfDay>)
        ensures
            r is Some <==> clock_fields_valid(secs as int, nanos as int),
            r matches Some(t) ==> t.second() == secs && t.nano() == nanos,
    {
        if secs >= SECONDS_PER_DAY || nanos >= 2 * NANOS_PER_SECOND {
            return None;
        }
        if nanos >= NANOS_PER_SECOND && secs % 60 != 59 {
            return None;
        }
        Some(TimeOfDay { secs, nanos })
    }

    /// The time `hour:minute:00`, if the hour is below 24 and the minute
    /// below 60.
    pub fn from_hm(hour: u32, minute: u32) -> (r: Option<TimeOfDay>)
        ensures
            r is Some <==> hour < 24 && minute < 60,
            r matches Some(t) ==> t.second() == hour * 3600 + minute * 60 && t.nano() == 0,
    {
        if hour >= 24 || minute >= 60 {
            return None;
        }
        Some(TimeOfDay { secs: hour * 3600 + minute * 60, nanos: 0 })
    }

    /// Seconds since midnight.
    pub fn seconds_from_midnight(&self) -> (s: u32)
        ensures
            s == self.second(),
    {
        self.secs
    }

    /// Nanoseconds since the start of the second.
    pub fn subsec_nanos(&self) -> (n: u32)
        ensures
            n == self.nano(),
    {
        self.nanos
    }

    /// Whether this time comes strictly before `other` in the day.
    pub fn is_before(&self, other: &TimeOfDay) -> (b: bool)
        ensures
            b == (self.position() < other.position()),
    {
        proof {
            use_type_invariant(self);
            use_type_invariant(other);
        }
        self.secs < other.secs || (self.secs == other.secs && self.nanos < other.nanos)
    }
}

/// A point in time: seconds since the Unix epoch and nanoseconds within the
/// second.
#[derive(Clone, Copy, Debug, PartialEq, Eq, Structural)]
pub struct Timestamp {
    secs: i64,
    nanos: u32,
}

impl Timestamp {
    /// Seconds since the Unix epoch.
    pub closed spec fn second(self) -> int {
        self.secs as int
    }

    /// Nanoseconds since the start of that second.
    pub closed spec fn nano(self) -> int {
        self.nanos as int
    }

    /// Every timestamp lies within the range.
    #[verifier::type_invariant]
    pub open spec fn wf(self) -> bool {
        epoch_fields_valid(self.second(), self.nano())
    }

    /// The timestamp with the given fields, if they lie in the range that a
    /// `Timestamp` can hold.
    pub fn new(secs: i64, nanos: u32) -> (r: Option<Timestamp>)
        ensures
            r is Some <==> epoch_fields_valid(secs as int, nanos as int),
            r matches Some(t) ==> t.second() == secs && t.nano() == nanos,
    {
        if secs < -MAX_EPOCH_SECONDS || secs > MAX_EPOCH_SECONDS || nanos >= 2 * NANOS_PER_SECOND {
            return None;
        }
        if nanos >= NANOS_PER_SECOND {
            // The limit is a whole number of minutes: adding it keeps the
            // second of the minute and leaves nothing negative to divide.
            let shifted: i64 = secs + MAX_EPOCH_SECONDS;
            if shifted % 60 != 59 {
                return None;
            }
        }
        Some(Timestamp { secs, nanos })
    }

    /// Seconds since the Unix epoch.
    pub fn epoch_seconds(&self) -> (s: i64)
        ensures
            s == self.second(),
    {
        self.secs
    }

    /// Nanoseconds since the start of the second.
    pub fn subsec_nanos(&self) -> (n: u32)
        ensures
            n == self.nano(),
    {
        self.nanos
    }
}

/// The signed span from `earlier` to `later` within one day, in nanoseconds.
pub open spec fn clock_span_nanos(later: TimeOfDay, earlier: TimeOfDay) -> int {
    (later.second() - earlier.second() + leap_carry(
        later.second(),
        later.nano(),
        earlier.second(),
        earlier.nano(),
    )) * NANOS_PER_SECOND + (later.nano() - earlier.nano())
}

/// The signed span from `earlier` to `later`, in nanoseconds. A leap second
/// is carried by the seconds of the day of the two ends.
pub open spec fn stamp_span_nanos(later: Timestamp, earlier: Timestamp) -> int {
    (later.second() - earlier.second() + leap_carry(
        later.second() % (SECONDS_PER_DAY as int),
        later.nano(),
        earlier.second() % (SECONDS_PER_DAY as int),
        earlier.nano(),
    )) * NANOS_PER_SECOND + (later.nano() - earlier.nano())
}

/// Whether `parts` are the whole seconds and the nanoseconds beside them of
/// a span of `nanos` nanoseconds: together they make up the span, the
/// nanoseconds stay under a second, and neither has the sign against the
/// other.
pub open spec fn span_parts(parts: (i64, i32), nanos: int) -> bool {
    &&& parts.0 * NANOS_PER_SECOND + parts.1 == nanos
    &&& -NANOS_PER_SECOND < parts.1 < NANOS_PER_SECOND
    &&& parts.0 > 0 ==> parts.1 >= 0
    &&& parts.0 < 0 ==> parts.1 <= 0
}

/// The span from `earlier` to `later` within one day, as whole seconds and
/// the nanoseconds beside them; both are negative or zero where `later` is
/// the earlier of the two.
///
/// Trusted: the body subtracts two `chrono::NaiveTime` values and hands out
/// `TimeDelta::num_seconds` and `TimeDelta::subsec_nanos` of the difference.
/// The contract claims that the difference is the span of the seconds and
/// nanoseconds, with chrono's adjustment for an end inside a leap second, and
/// that the two parts add up to it with a common sign.
#[verifier::external_body]
pub(crate) fn span_between_times(later: TimeOfDay, earlier: TimeOfDay) -> (parts: (i64, i32))
    requires
        later.wf(),
        earlier.wf(),
    ensures
        span_parts(parts, clock_span_nanos(later, earlier)),
{
    let a = chrono::NaiveTime::from_num_seconds_from_midnight_opt(later.secs, later.nanos).unwrap();
    let b = chrono::NaiveTime::from_num_seconds_from_midnight_opt(earlier.secs, earlier.nanos).unwrap();
    let span = a - b;
    (span.num_seconds(), span.subsec_nanos())
}

/// The span from `earlier` to `later`, as whole seconds and the nanoseconds
/// beside them; both are negative or zero where `later` is the earlier of the
/// two.
///
/// Trusted: the body subtracts two `chrono::DateTime<Utc>` values made by
/// `DateTime::from_timestamp` and hands out `TimeDelta::num_seconds` and
/// `TimeDelta::subsec_nanos` of the difference. The contract claims that the
/// difference is the span of the seconds and nanoseconds, with chrono's
/// adjustment for an end inside a leap second, and that the two parts add up
/// to it with a common sign.
#[verifier::external_body]
pub(crate) fn span_between_stamps(later: Timestamp, earlier: Timestamp) -> (parts: (i64, i32))
    requires
        later.wf(),
        earlier.wf(),
    ensures
        span_parts(parts, stamp_span_nanos(later, earlier)),
{
    let a = chrono::DateTime::from_timestamp(later.secs, later.nanos).unwrap();
    let b = chrono::DateTime::from_timestamp(earlier.secs, earlier.nanos).unwrap();
    let span = a - b;
    (span.num_seconds(), span.subsec_nanos())
}

/// The signed span from `earlier` to `later` within one day, in nanoseconds.
pub fn nanos_between_times(later: TimeOfDay, earlier: TimeOfDay) -> (nanos: i128)
    ensures
        nanos == clock_span_nanos(later, earlier),
{
    proof {
        use_type_invariant(&later);
        use_type_invariant(&earlier);
    }
    let parts = span_between_times(later, earlier);
    parts.0 as i128 * 1_000_000_000 + parts.1 as i128
}

/// The signed span from `earlier` to `later`, in nanoseconds.
pub fn nanos_between_stamps(later: Timestamp, earlier: Timestamp) -> (nanos: i128)
    ensures
        nanos == stamp_span_nanos(later, earlier),
{
    proof {
        use_type_invariant(&later);
        use_type_invariant(&earlier);
    }
    let parts = span_between_stamps(later, earlier);
    parts.0 as i128 * 1_000_000_000 + parts.1 as i128
}

/// What chrono reads from `text` as a time written in `format`: the seconds
/// since midnight and the nanoseconds of the time it finds, or `None` where it
/// finds none.
pub uninterp spec fn parsed_time_fields(text: Seq<char>, format: Seq<char>) -> Option<(u32, u32)>;

/// Reads a time of day from `text`, written as `format` says.
///
/// Trusted: the body calls `chrono::NaiveTime::parse_from_str` and hands out
/// the seconds since midnight and the nanoseconds of the time it returns. The
/// contract names that result, and claims of it what holds of every
/// `NaiveTime`: the seconds lie within the day, and the nanoseconds stay under
/// two seconds and reach one only in the last second of a minute.
#[verifier::external_body]
pub(crate) fn read_time(text: &str, format: &str) -> (r: Option<(u32, u32)>)
    ensures
        r == parsed_time_fields(text@, format@),
        r matches Some(f) ==> clock_fields_valid(f.0 as int, f.1 as int),
{
    match chrono::NaiveTime::parse_from_str(text, format) {
        Ok(t) => Some((
            chrono::Timelike::num_seconds_from_midnight(&t),
            chrono::Timelike::nanosecond(&t),
        )),
        Err(_) => None,
    }
}

} // verus!
