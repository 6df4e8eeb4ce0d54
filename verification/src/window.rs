//! The daily window in which the supervised process is meant to run.

use vstd::prelude::*;
use crate::clock::{
    clock_fields_valid, clock_span_nanos, nanos_between_times, parsed_time_fields, read_time,
    whole_minutes, TimeOfDay, NANOS_PER_SECOND, SECONDS_PER_DAY,
};

verus! {

/// Minutes in a day.
pub const MINUTES_PER_DAY: i64 = 1440;

/// Nanoseconds in a day.
pub const NANOS_PER_DAY: i128 = 86_400_000_000_000;

/// How the two times of a window are written: hours and minutes.
pub const TIME_FORMAT: &'static str = "%H:%M";

/// Whether `now` lies in the window that opens at `start` and closes at
/// `end`.
///
/// A window whose start is not after its end covers `[start, end)` of one
/// day. One whose start is after its end runs over midnight and covers
/// `[start, 24:00)` and `[00:00, end)`. A window whose start and end are equal
/// is empty: no time lies in it.
pub open spec fn in_window_spec(now: TimeOfDay, start: TimeOfDay, end: TimeOfDay) -> bool {
    if start.position() <= end.position() {
        start.position() <= now.position() < end.position()
    } else {
        now.position() >= start.position() || now.position() < end.position()
    }
}

/// The time from `now` until the window closes at `end`, in nanoseconds:
/// the span from `now` to `end`, and a day more where the window runs over
/// midnight and `now` is not yet past it.
pub open spec fn time_left_nanos(now: TimeOfDay, start: TimeOfDay, end: TimeOfDay) -> int {
    if start.position() <= end.position() || now.position() < end.position() {
        clock_span_nanos(end, now)
    } else {
        clock_span_nanos(end, now) + NANOS_PER_DAY
    }
}

/// Whole minutes from `now` until the window closes at `end`: the time left,
/// with what goes beyond a whole minute dropped.
pub open spec fn minutes_left_spec(now: TimeOfDay, start: TimeOfDay, end: TimeOfDay) -> int {
    whole_minutes(time_left_nanos(now, start, end))
}

/// Whether `now` lies in the window from `start` to `end`.
pub fn in_window(now: TimeOfDay, start: TimeOfDay, end: TimeOfDay) -> (inside: bool)
    ensures
        inside == in_window_spec(now, start, end),
{
    if !end.is_before(&start) {
        !now.is_before(&start) && now.is_before(&end)
    } else {
        !now.is_before(&start) || now.is_before(&end)
    }
}

/// The span between two times of one day is less than a day and a second
/// either way.
pub proof fn lemma_clock_span_bounds(later: TimeOfDay, earlier: TimeOfDay)
    requires
        later.wf(),
        earlier.wf(),
    ensures
        -86_401_000_000_000 < clock_span_nanos(later, earlier) < 86_401_000_000_000,
{
}

/// Whole minutes from `now` until the window from `start` to `end` closes.
/// The number says how long the process has left only while `now` lies in
/// the window.
pub fn minutes_left(now: TimeOfDay, start: TimeOfDay, end: TimeOfDay) -> (left: i64)
    ensures
        left == minutes_left_spec(now, start, end),
{
    proof {
        use_type_invariant(&now);
        use_type_invariant(&end);
        lemma_clock_span_bounds(end, now);
    }
    let span: i128 = nanos_between_times(end, now);
    let left: i128 = if !end.is_before(&start) || now.is_before(&end) {
        span
    } else {
        span + NANOS_PER_DAY
    };
    let minutes: i128 = if left >= 0 {
        left / 60_000_000_000
    } else {
        -((-left) / 60_000_000_000)
    };
    minutes as i64
}

/// A daily window: the time at which it opens and the time at which it
/// closes.
#[derive(Clone, Copy, Debug, PartialEq, Eq, Structural)]
pub struct Window {
    pub start: TimeOfDay,
    pub end: TimeOfDay,
}

/// Why a window could not be read.
#[derive(Clone, Copy, Debug, PartialEq, Eq, Structural)]
pub enum WindowError {
    /// The opening time is no time of day.
    InvalidStart,
    /// The opening time is one, the closing time is none.
    InvalidEnd,
}

/// Whether a pair of fields that was read from a text is a time of day.
pub open spec fn fields_give_time(fields: Option<(u32, u32)>) -> bool {
    fields matches Some(f) && clock_fields_valid(f.0 as int, f.1 as int)
}

/// Whether `t` is the time that `fields` describe.
pub open spec fn time_has_fields(t: TimeOfDay, fields: Option<(u32, u32)>) -> bool {
    fields matches Some(f) && t.second() == f.0 && t.nano() == f.1
}

/// Whether `r` is what a window is made into from the fields read for its
/// start and its end: the window of the two times where both are times of
/// day, else the error that names the first one that is not.
pub open spec fn window_outcome(
    start: Option<(u32, u32)>,
    end: Option<(u32, u32)>,
    r: Result<Window, WindowError>,
) -> bool {
    match r {
        Ok(w) => {
            &&& fields_give_time(start)
            &&& fields_give_time(end)
            &&& time_has_fields(w.start, start)
            &&& time_has_fields(w.end, end)
        },
        Err(WindowError::InvalidStart) => !fields_give_time(start),
        Err(WindowError::InvalidEnd) => fields_give_time(start) && !fields_give_time(end),
    }
}

impl WindowError {
    /// The text of the error.
    pub open spec fn message_spec(self) -> Seq<char> {
        match self {
            WindowError::InvalidStart => "Invalid start_time format"@,
            WindowError::InvalidEnd => "Invalid end_time format"@,
        }
    }

    /// The text of the error.
    pub fn message(&self) -> (text: &'static str)
        ensures
            text@ == self.message_spec(),
    {
        match self {
            WindowError::InvalidStart => "Invalid start_time format",
            WindowError::InvalidEnd => "Invalid end_time format",
        }
    }
}

impl Window {
    /// The window of the two times that were read as fields, each the
    /// seconds since midnight and the nanoseconds, or `None` where nothing
    /// was read.
    pub fn from_fields(start: Option<(u32, u32)>, end: Option<(u32, u32)>) -> (r: Result<
        Window,
        WindowError,
    >)
        ensures
            window_outcome(start, end, r),
    {
        let opens = match start {
            Some(f) => TimeOfDay::new(f.0, f.1),
            None => None,
        };
        let closes = match end {
            Some(f) => TimeOfDay::new(f.0, f.1),
            None => None,
        };
        match opens {
            None => Err(WindowError::InvalidStart),
            Some(s) => match closes {
                None => Err(WindowError::InvalidEnd),
                Some(e) => Ok(Window { start: s, end: e }),
            },
        }
    }

    /// Reads a window from its two times, each written as hours and minutes.
    pub fn parse(start: &str, end: &str) -> (r: Result<Window, WindowError>)
        ensures
            window_outcome(
                parsed_time_fields(start@, TIME_FORMAT@),
                parsed_time_fields(end@, TIME_FORMAT@),
                r,
            ),
            r is Ok <==> parsed_time_fields(start@, TIME_FORMAT@) is Some && parsed_time_fields(
                end@,
                TIME_FORMAT@,
            ) is Some,
    {
        let opens = read_time(start, TIME_FORMAT);
        let closes = read_time(end, TIME_FORMAT);
        Window::from_fields(opens, closes)
    }

    /// Whether `now` lies in this window.
    pub fn contains(&self, now: TimeOfDay) -> (inside: bool)
        ensures
            inside == in_window_spec(now, self.start, self.end),
    {
        in_window(now, self.start, self.end)
    }

    /// Whole minutes from `now` until this window closes.
    pub fn minutes_left(&self, now: TimeOfDay) -> (left: i64)
        ensures
            left == minutes_left_spec(now, self.start, self.end),
    {
        minutes_left(now, self.start, self.end)
    }
}

/// A window that opens before it closes holds exactly the times from its
/// start up to, and not including, its end.
pub proof fn lemma_same_day_window(now: TimeOfDay, start: TimeOfDay, end: TimeOfDay)
    requires
        start.position() < end.position(),
    ensures
        in_window_spec(now, start, end) <==> start.position() <= now.position() < end.position(),
{
}

/// A window that opens after it closes holds exactly the times from its
/// start to the end of the day and those from the start of the day up to,
/// and not including, its end.
pub proof fn lemma_overnight_window(now: TimeOfDay, start: TimeOfDay, end: TimeOfDay)
    requires
        now.wf(),
        start.position() > end.position(),
    ensures
        in_window_spec(now, start, end) <==> (start.position() <= now.position() < SECONDS_PER_DAY
            * (2 * NANOS_PER_SECOND)) || (0 <= now.position() < end.position()),
{
}

/// A window that opens and closes at the same time holds no time.
pub proof fn lemma_empty_window(now: TimeOfDay, at: TimeOfDay)
    ensures
        !in_window_spec(now, at, at),
{
}

/// Inside a window the time left is more than nothing and at most a day,
/// each but for less than a leap second: the first where the poll falls into
/// one, the second where the window closes within one. The minutes left are
/// its whole minutes: never negative, never more than a day's, and within a
/// minute below the time left.
pub proof fn lemma_minutes_left_inside(now: TimeOfDay, start: TimeOfDay, end: TimeOfDay)
    requires
        now.wf(),
        start.wf(),
        end.wf(),
        in_window_spec(now, start, end),
    ensures
        -NANOS_PER_SECOND < time_left_nanos(now, start, end) < NANOS_PER_DAY + NANOS_PER_SECOND,
        now.nano() < NANOS_PER_SECOND ==> time_left_nanos(now, start, end) > 0,
        end.nano() < NANOS_PER_SECOND ==> time_left_nanos(now, start, end) <= NANOS_PER_DAY,
        0 <= minutes_left_spec(now, start, end) <= MINUTES_PER_DAY,
        time_left_nanos(now, start, end) >= 0 ==> minutes_left_spec(now, start, end)
            * 60_000_000_000 <= time_left_nanos(now, start, end) < (minutes_left_spec(
            now,
            start,
            end,
        ) + 1) * 60_000_000_000,
{
    lemma_clock_span_bounds(end, now);
}

} // verus!
