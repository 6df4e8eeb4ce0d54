//! The countdown warnings that the supervised process is sent before the
//! window closes.

use vstd::prelude::*;

verus! {

/// A countdown warning, named by the minutes left when it is due.
#[derive(Clone, Copy, Debug, PartialEq, Eq, Structural)]
pub enum Warning {
    TenMinutes,
    FiveMinutes,
    OneMinute,
}

impl Warning {
    /// The minutes left at which the warning is due.
    pub open spec fn threshold(self) -> int {
        match self {
            Warning::TenMinutes => 10,
            Warning::FiveMinutes => 5,
            Warning::OneMinute => 1,
        }
    }

    /// The line that announces the warning to the supervised process.
    pub open spec fn line_spec(self) -> Seq<char> {
        match self {
            Warning::TenMinutes => "say Server will stop in 10 minutes!"@,
            Warning::FiveMinutes => "say Server will stop in 5 minutes!"@,
            Warning::OneMinute => "say Server will stop in 1 minute!"@,
        }
    }

    /// The minutes left at which the warning is due.
    pub fn minutes(&self) -> (m: i64)
        ensures
            m == self.threshold(),
    {
        match self {
            Warning::TenMinutes => 10,
            Warning::FiveMinutes => 5,
            Warning::OneMinute => 1,
        }
    }

    /// The line that announces the warning to the supervised process.
    pub fn line(&self) -> (text: &'static str)
        ensures
            text@ == self.line_spec(),
    {
        match self {
            Warning::TenMinutes => "say Server will stop in 10 minutes!",
            Warning::FiveMinutes => "say Server will stop in 5 minutes!",
            Warning::OneMinute => "say Server will stop in 1 minute!",
        }
    }
}

/// Which warnings the current run of the process has been given.
#[derive(Clone, Copy, Debug, PartialEq, Eq, Structural)]
pub struct WarningFlags {
    pub ten: bool,
    pub five: bool,
    pub one: bool,
}

impl WarningFlags {
    /// The flags of a run that has been given no warning.
    pub open spec fn fresh() -> WarningFlags {
        WarningFlags { ten: false, five: false, one: false }
    }

    /// Whether the run has been given `warning`.
    pub open spec fn has(self, warning: Warning) -> bool {
        match warning {
            Warning::TenMinutes => self.ten,
            Warning::FiveMinutes => self.five,
            Warning::OneMinute => self.one,
        }
    }

    /// These flags with the one of `warning` set.
    pub open spec fn with(self, warning: Warning) -> WarningFlags {
        match warning {
            Warning::TenMinutes => WarningFlags { ten: true, ..self },
            Warning::FiveMinutes => WarningFlags { five: true, ..self },
            Warning::OneMinute => WarningFlags { one: true, ..self },
        }
    }

    /// The flags of a run that has been given no warning.
    pub fn new() -> (flags: WarningFlags)
        ensures
            flags == WarningFlags::fresh(),
    {
        WarningFlags { ten: false, five: false, one: false }
    }

    /// Clears every flag, as a new run of the process begins.
    pub fn reset(&mut self)
        ensures
            *final(self) == WarningFlags::fresh(),
    {
        self.ten = false;
        self.five = false;
        self.one = false;
    }
}

/// The warning that is due with `minutes_left` whole minutes to go: the one
/// whose threshold is exactly `minutes_left`, unless the run has been given it
/// already.
pub open spec fn warning_due(minutes_left: int, flags: WarningFlags) -> Option<Warning> {
    if minutes_left == 10 && !flags.ten {
        Some(Warning::TenMinutes)
    } else if minutes_left == 5 && !flags.five {
        Some(Warning::FiveMinutes)
    } else if minutes_left == 1 && !flags.one {
        Some(Warning::OneMinute)
    } else {
        None
    }
}

/// The flags once `fired` has been given.
pub open spec fn flags_after(flags: WarningFlags, fired: Option<Warning>) -> WarningFlags {
    match fired {
        Some(warning) => flags.with(warning),
        None => flags,
    }
}

/// Decides whether a warning is due with `minutes_left` whole minutes to go,
/// and marks it as given.
pub fn maybe_warn(minutes_left: i64, flags: &mut WarningFlags) -> (fired: Option<Warning>)
    ensures
        fired == warning_due(minutes_left as int, *old(flags)),
        *final(flags) == flags_after(*old(flags), fired),
{
    if minutes_left == 10 && !flags.ten {
        flags.ten = true;
        Some(Warning::TenMinutes)
    } else if minutes_left == 5 && !flags.five {
        flags.five = true;
        Some(Warning::FiveMinutes)
    } else if minutes_left == 1 && !flags.one {
        flags.one = true;
        Some(Warning::OneMinute)
    } else {
        None
    }
}

/// The warnings given, in order, over a run that starts with `flags` and
/// sees the minutes left of `readings`, one reading on each poll.
pub open spec fn announced(flags: WarningFlags, readings: Seq<int>) -> Seq<Warning>
    decreases readings.len(),
{
    if readings.len() == 0 {
        Seq::empty()
    } else {
        let fired = warning_due(readings[0], flags);
        let rest = announced(flags_after(flags, fired), readings.drop_first());
        match fired {
            Some(warning) => seq![warning] + rest,
            None => rest,
        }
    }
}

/// The warnings that a run with `flags` has not been given, the longest
/// notice first.
pub open spec fn outstanding(flags: WarningFlags) -> Seq<Warning> {
    let ten = if flags.ten {
        Seq::<Warning>::empty()
    } else {
        seq![Warning::TenMinutes]
    };
    let five = if flags.five {
        Seq::<Warning>::empty()
    } else {
        seq![Warning::FiveMinutes]
    };
    let one = if flags.one {
        Seq::<Warning>::empty()
    } else {
        seq![Warning::OneMinute]
    };
    ten + five + one
}

/// Whether the minutes left never grow from one reading to the next.
pub open spec fn counts_down(readings: Seq<int>) -> bool {
    forall|i: int, j: int| 0 <= i <= j < readings.len() ==> readings[i] >= readings[j]
}

/// A flag that is set stays set, whatever the reading.
pub proof fn lemma_flags_only_grow(minutes_left: int, flags: WarningFlags, warning: Warning)
    requires
        flags.has(warning),
    ensures
        flags_after(flags, warning_due(minutes_left, flags)).has(warning),
        warning_due(minutes_left, flags) != Some(warning),
{
}

/// On one poll at most one warning is given, its threshold is the reading,
/// and it had not been given before.
pub proof fn lemma_warning_due_exact(minutes_left: int, flags: WarningFlags)
    ensures
        warning_due(minutes_left, flags) matches Some(w) ==> w.threshold() == minutes_left
            && !flags.has(w),
        warning_due(minutes_left, flags) is None <==> forall|w: Warning|
            #[trigger] w.threshold() == minutes_left ==> flags.has(w),
{
    if warning_due(minutes_left, flags) is None {
        assert forall|w: Warning| #[trigger] w.threshold() == minutes_left implies flags.has(w) by {
        }
    } else {
        let w = warning_due(minutes_left, flags).unwrap();
        assert(w.threshold() == minutes_left && !flags.has(w));
    }
}

/// Over a run in which the minutes left only count down and pass through
/// the threshold of every warning not yet given, exactly those warnings are
/// given, each once, the longest notice first, however many readings lie
/// between them.
pub proof fn lemma_countdown_run(flags: WarningFlags, readings: Seq<int>)
    requires
        counts_down(readings),
        !flags.ten ==> readings.contains(10),
        !flags.five ==> readings.contains(5),
        !flags.one ==> readings.contains(1),
    ensures
        announced(flags, readings) == outstanding(flags),
    decreases readings.len(),
{
    if readings.len() == 0 {
        assert(outstanding(flags) =~= Seq::<Warning>::empty());
    } else {
        let head = readings[0];
        let tail = readings.drop_first();
        let fired = warning_due(head, flags);
        let next = flags_after(flags, fired);
        assert(counts_down(tail)) by {
            assert forall|i: int, j: int| 0 <= i <= j < tail.len() implies tail[i] >= tail[j] by {
                assert(tail[i] == readings[i + 1]);
                assert(tail[j] == readings[j + 1]);
            }
        }
        assert forall|v: int| readings.contains(v) implies head >= v && (head != v
            ==> tail.contains(v)) by {
            let k = choose|k: int| 0 <= k < readings.len() && readings[k] == v;
            assert(readings[0] >= readings[k]);
            if head != v {
                assert(tail[k - 1] == v);
            }
        }
        lemma_countdown_run(next, tail);
        assert(announced(flags, readings) =~= outstanding(flags));
    }
}

/// Over a run that begins with no warning given, counts down, and passes
/// through ten, five and one minute left, exactly three warnings are given:
/// the ten-minute, the five-minute and the one-minute warning, in that order.
pub proof fn lemma_three_warnings(readings: Seq<int>)
    requires
        counts_down(readings),
        readings.contains(10),
        readings.contains(5),
        readings.contains(1),
    ensures
        announced(WarningFlags::fresh(), readings) == seq![
            Warning::TenMinutes,
            Warning::FiveMinutes,
            Warning::OneMinute,
        ],
{
    lemma_countdown_run(WarningFlags::fresh(), readings);
    assert(outstanding(WarningFlags::fresh()) =~= seq![
        Warning::TenMinutes,
        Warning::FiveMinutes,
        Warning::OneMinute,
    ]);
}

} // verus!
