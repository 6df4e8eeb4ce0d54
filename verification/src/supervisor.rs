//! The decision taken on every poll: whether to start the process, stop it,
//! warn it, hold back after repeated failures, or leave things as they are.

use vstd::prelude::*;
use crate::clock::{TimeOfDay, Timestamp};
use crate::ledger::{
    lemma_retained_all, lemma_retained_within_horizon, lemma_three_recent_attempts, retained,
    within_horizon, CrashLedger, CRASH_LIMIT, HORIZON_MINUTES,
};
use crate::warning::{flags_after, maybe_warn, warning_due, Warning, WarningFlags};
use crate::window::{in_window_spec, minutes_left_spec, Window};

verus! {

/// Seconds between two polls.
pub const POLL_SECONDS: u64 = 10;

/// Seconds to hold back after a crash loop was found.
pub const COOLDOWN_SECONDS: u64 = 60;

/// What polling the process handle gave.
#[derive(Clone, Copy, Debug, PartialEq, Eq, Structural)]
pub enum Probe {
    /// The process is still running.
    Running,
    /// The process has exited.
    Exited,
    /// The handle could not be polled.
    Failed,
}

/// A status message for the people who watch the process.
#[derive(Clone, Copy, Debug, PartialEq, Eq, Structural)]
pub enum Notice {
    SupervisorStarted,
    Starting,
    StoppingScheduled,
    CrashLoop,
}

/// A line for the input of the supervised process.
#[derive(Clone, Copy, Debug, PartialEq, Eq, Structural)]
pub enum Command {
    /// Asks the process to shut down.
    Stop,
    /// Announces a countdown warning.
    Announce(Warning),
}

/// The one thing to do after a poll.
#[derive(Clone, Copy, Debug, PartialEq, Eq, Structural)]
pub enum Action {
    /// Nothing.
    Idle,
    /// Too many recent start attempts: say so, start nothing, and hold back.
    Cooldown,
    /// Say that the process is starting, start it, and report how that went.
    Spawn,
    /// Say that the process is stopping, ask it to stop, wait until it has
    /// exited, and drop its handle.
    Stop,
    /// Send the process a countdown warning.
    Warn(Warning),
}

impl Notice {
    pub open spec fn text_spec(self) -> Seq<char> {
        match self {
            Notice::SupervisorStarted => "Rusty-Golem started."@,
            Notice::Starting => "Starting Minecraft Server..."@,
            Notice::StoppingScheduled => "Stopping Minecraft Server (Schedule)..."@,
            Notice::CrashLoop => "Watchdog: Server crashed 3 times. Giving up."@,
        }
    }

    /// The text of the message.
    pub fn text(&self) -> (text: &'static str)
        ensures
            text@ == self.text_spec(),
    {
        match self {
            Notice::SupervisorStarted => "Rusty-Golem started.",
            Notice::Starting => "Starting Minecraft Server...",
            Notice::StoppingScheduled => "Stopping Minecraft Server (Schedule)...",
            Notice::CrashLoop => "Watchdog: Server crashed 3 times. Giving up.",
        }
    }
}

impl Command {
    pub open spec fn line_spec(self) -> Seq<char> {
        match self {
            Command::Stop => "stop"@,
            Command::Announce(warning) => warning.line_spec(),
        }
    }

    /// The line to write to the process.
    pub fn line(&self) -> (text: &'static str)
        ensures
            text@ == self.line_spec(),
    {
        match self {
            Command::Stop => "stop",
            Command::Announce(warning) => warning.line(),
        }
    }
}

impl Action {
    /// The status message that goes with the action.
    pub open spec fn notice_spec(self) -> Option<Notice> {
        match self {
            Action::Cooldown => Some(Notice::CrashLoop),
            Action::Spawn => Some(Notice::Starting),
            Action::Stop => Some(Notice::StoppingScheduled),
            Action::Idle | Action::Warn(_) => None,
        }
    }

    /// The line that the action sends to the process.
    pub open spec fn command_spec(self) -> Option<Command> {
        match self {
            Action::Stop => Some(Command::Stop),
            Action::Warn(warning) => Some(Command::Announce(warning)),
            Action::Idle | Action::Cooldown | Action::Spawn => None,
        }
    }

    /// The seconds to sleep once the action is done.
    pub open spec fn pause_spec(self) -> int {
        match self {
            Action::Cooldown => 60,
            _ => 10,
        }
    }

    /// The status message that goes with the action, if it has one.
    pub fn notice(&self) -> (notice: Option<Notice>)
        ensures
            notice == self.notice_spec(),
    {
        match self {
            Action::Cooldown => Some(Notice::CrashLoop),
            Action::Spawn => Some(Notice::Starting),
            Action::Stop => Some(Notice::StoppingScheduled),
            Action::Idle => None,
            Action::Warn(_) => None,
        }
    }

    /// The line that the action sends to the process, if it sends one.
    pub fn command(&self) -> (command: Option<Command>)
        ensures
            command == self.command_spec(),
    {
        match self {
            Action::Stop => Some(Command::Stop),
            Action::Warn(warning) => Some(Command::Announce(*warning)),
            Action::Idle => None,
            Action::Cooldown => None,
            Action::Spawn => None,
        }
    }

    /// The seconds to sleep once the action is done: the cooldown after a
    /// crash loop, the poll interval otherwise.
    pub fn pause_seconds(&self) -> (seconds: u64)
        ensures
            seconds == self.pause_spec(),
    {
        match self {
            Action::Cooldown => COOLDOWN_SECONDS,
            _ => POLL_SECONDS,
        }
    }
}

/// What a supervisor knows between two polls.
pub struct SupervisorState {
    /// The window in which the process is meant to run.
    pub window: Window,
    /// The start attempts that still count, oldest first.
    pub attempts: Seq<Timestamp>,
    /// The warnings given to the current run.
    pub flags: WarningFlags,
    /// Whether a process handle is held.
    pub held: bool,
}

/// Whether the process counts as alive: a handle is held and polling it
/// showed the process running.
pub open spec fn alive_spec(held: bool, probe: Option<Probe>) -> bool {
    held && probe == Some(Probe::Running)
}

/// The state after a poll and the action that the poll calls for.
///
/// A process that is not alive leaves no handle behind. Inside the window it
/// is started, unless three or more start attempts are at most five minutes
/// old: then nothing is started. Outside the window nothing is done. A live
/// process is stopped outside the window; inside it, it is sent the warning
/// that is due, if one is.
pub open spec fn tick_spec(
    pre: SupervisorState,
    now: Timestamp,
    clock: TimeOfDay,
    probe: Option<Probe>,
) -> (SupervisorState, Action) {
    let open = in_window_spec(clock, pre.window.start, pre.window.end);
    if !alive_spec(pre.held, probe) {
        if open {
            let recent = retained(pre.attempts, now, HORIZON_MINUTES as int);
            let post = SupervisorState { attempts: recent, held: false, ..pre };
            if recent.len() >= CRASH_LIMIT {
                (post, Action::Cooldown)
            } else {
                (post, Action::Spawn)
            }
        } else {
            (SupervisorState { held: false, ..pre }, Action::Idle)
        }
    } else {
        if !open {
            (SupervisorState { held: false, ..pre }, Action::Stop)
        } else {
            let left = minutes_left_spec(clock, pre.window.start, pre.window.end);
            let fired = warning_due(left, pre.flags);
            let post = SupervisorState { flags: flags_after(pre.flags, fired), ..pre };
            match fired {
                Some(warning) => (post, Action::Warn(warning)),
                None => (post, Action::Idle),
            }
        }
    }
}

/// The state once a start attempt made at `now` has ended: the attempt is
/// recorded either way, and a process that did start is held, with no warning
/// given yet.
pub open spec fn spawn_finished_spec(pre: SupervisorState, now: Timestamp, started: bool) -> SupervisorState {
    if started {
        SupervisorState {
            attempts: pre.attempts.push(now),
            flags: WarningFlags::fresh(),
            held: true,
            ..pre
        }
    } else {
        SupervisorState { attempts: pre.attempts.push(now), ..pre }
    }
}

/// The supervisor of one process: its window, its record of start attempts,
/// the warnings given to the current run, and whether a process is held.
pub struct Supervisor {
    window: Window,
    ledger: CrashLedger,
    flags: WarningFlags,
    held: bool,
}

impl View for Supervisor {
    type V = SupervisorState;

    closed spec fn view(&self) -> SupervisorState {
        SupervisorState {
            window: self.window,
            attempts: self.ledger@,
            flags: self.flags,
            held: self.held,
        }
    }
}

impl Supervisor {
    /// A supervisor for `window` that holds no process and has seen no start
    /// attempt.
    pub fn new(window: Window) -> (supervisor: Supervisor)
        ensures
            supervisor@ == (SupervisorState {
                window,
                attempts: Seq::<Timestamp>::empty(),
                flags: WarningFlags::fresh(),
                held: false,
            }),
    {
        Supervisor { window, ledger: CrashLedger::new(), flags: WarningFlags::new(), held: false }
    }

    /// Decides what to do on a poll at the point in time `now`, with the
    /// local time of day `clock`. `probe` is what polling the process handle
    /// gave, or `None` where no handle is held.
    pub fn tick(&mut self, now: Timestamp, clock: TimeOfDay, probe: Option<Probe>) -> (action: Action)
        ensures
            (final(self)@, action) == tick_spec(old(self)@, now, clock, probe),
    {
        let running = match probe {
            Some(Probe::Running) => true,
            _ => false,
        };
        let alive = self.held && running;
        let open = self.window.contains(clock);
        if !alive {
            self.held = false;
            if open {
                self.ledger.prune(now, HORIZON_MINUTES);
                if self.ledger.count() >= CRASH_LIMIT {
                    Action::Cooldown
                } else {
                    Action::Spawn
                }
            } else {
                Action::Idle
            }
        } else if !open {
            self.held = false;
            Action::Stop
        } else {
            let left = self.window.minutes_left(clock);
            match maybe_warn(left, &mut self.flags) {
                Some(warning) => Action::Warn(warning),
                None => Action::Idle,
            }
        }
    }

    /// Takes note of how the start attempt made at `now` ended.
    pub fn spawn_finished(&mut self, now: Timestamp, started: bool)
        ensures
            final(self)@ == spawn_finished_spec(old(self)@, now, started),
    {
        self.ledger.record(now);
        if started {
            self.held = true;
            self.flags.reset();
        }
    }

    /// Whether a process handle is held.
    pub fn holds_process(&self) -> (held: bool)
        ensures
            held == self@.held,
    {
        self.held
    }

    /// The window in which the process is meant to run.
    pub fn window(&self) -> (window: Window)
        ensures
            window == self@.window,
    {
        self.window
    }

    /// The warnings given to the current run.
    pub fn flags(&self) -> (flags: WarningFlags)
        ensures
            flags == self@.flags,
    {
        self.flags
    }

    /// The number of start attempts on record.
    pub fn attempts(&self) -> (n: usize)
        ensures
            n == self@.attempts.len(),
    {
        self.ledger.count()
    }
}

/// With three start attempts at most five minutes old, a poll that finds
/// the process not alive inside the window starts nothing: it calls for the
/// cooldown, which carries the one crash-loop message, sends the process
/// nothing and sleeps the cooldown interval. The state keeps no handle.
pub proof fn lemma_crash_loop_holds_back(
    pre: SupervisorState,
    now: Timestamp,
    clock: TimeOfDay,
    probe: Option<Probe>,
    first: int,
    second: int,
    third: int,
)
    requires
        !alive_spec(pre.held, probe),
        in_window_spec(clock, pre.window.start, pre.window.end),
        0 <= first < second < third < pre.attempts.len(),
        within_horizon(now, pre.attempts[first], HORIZON_MINUTES as int),
        within_horizon(now, pre.attempts[second], HORIZON_MINUTES as int),
        within_horizon(now, pre.attempts[third], HORIZON_MINUTES as int),
    ensures
        tick_spec(pre, now, clock, probe).1 == Action::Cooldown,
        !tick_spec(pre, now, clock, probe).0.held,
        Action::Cooldown.notice_spec() == Some(Notice::CrashLoop),
        Action::Cooldown.command_spec() is None,
        Action::Cooldown.pause_spec() == COOLDOWN_SECONDS,
{
    lemma_three_recent_attempts(pre.attempts, now, HORIZON_MINUTES as int, first, second, third);
}

/// A start is called for exactly when the process is not alive, the window
/// is open and fewer than three attempts are at most five minutes old; the
/// cooldown exactly when the process is not alive, the window is open and
/// three or more are. Where a start is called for with three or more
/// attempts on record, one of them is more than five minutes old.
pub proof fn lemma_spawn_conditions(
    pre: SupervisorState,
    now: Timestamp,
    clock: TimeOfDay,
    probe: Option<Probe>,
)
    ensures
        tick_spec(pre, now, clock, probe).1 == Action::Spawn <==> !alive_spec(pre.held, probe)
            && in_window_spec(clock, pre.window.start, pre.window.end) && retained(
            pre.attempts,
            now,
            HORIZON_MINUTES as int,
        ).len() < CRASH_LIMIT,
        tick_spec(pre, now, clock, probe).1 == Action::Cooldown <==> !alive_spec(pre.held, probe)
            && in_window_spec(clock, pre.window.start, pre.window.end) && retained(
            pre.attempts,
            now,
            HORIZON_MINUTES as int,
        ).len() >= CRASH_LIMIT,
        tick_spec(pre, now, clock, probe).1 == Action::Spawn && pre.attempts.len() >= CRASH_LIMIT
            ==> exists|i: int|
            0 <= i < pre.attempts.len() && !within_horizon(
                now,
                #[trigger] pre.attempts[i],
                HORIZON_MINUTES as int,
            ),
{
    if tick_spec(pre, now, clock, probe).1 == Action::Spawn && pre.attempts.len() >= CRASH_LIMIT {
        if forall|i: int|
            0 <= i < pre.attempts.len() ==> within_horizon(
                now,
                #[trigger] pre.attempts[i],
                HORIZON_MINUTES as int,
            ) {
            lemma_retained_all(pre.attempts, now, HORIZON_MINUTES as int);
        }
    }
}

/// Whenever a poll decides on the record of start attempts, the record it
/// leaves holds exactly the attempts that are at most five minutes old, in
/// their order: none of them is older.
pub proof fn lemma_decides_on_recent_attempts(
    pre: SupervisorState,
    now: Timestamp,
    clock: TimeOfDay,
    probe: Option<Probe>,
)
    requires
        tick_spec(pre, now, clock, probe).1 == Action::Spawn || tick_spec(
            pre,
            now,
            clock,
            probe,
        ).1 == Action::Cooldown,
    ensures
        tick_spec(pre, now, clock, probe).0.attempts == retained(
            pre.attempts,
            now,
            HORIZON_MINUTES as int,
        ),
        forall|i: int|
            0 <= i < tick_spec(pre, now, clock, probe).0.attempts.len() ==> within_horizon(
                now,
                #[trigger] tick_spec(pre, now, clock, probe).0.attempts[i],
                HORIZON_MINUTES as int,
            ),
{
    lemma_retained_within_horizon(pre.attempts, now, HORIZON_MINUTES as int);
}

/// A poll stops the process only when it is alive outside the window, warns
/// it only when it is alive inside the window, and leaves a handle held
/// exactly when the process is alive inside the window.
pub proof fn lemma_stop_and_warn_conditions(
    pre: SupervisorState,
    now: Timestamp,
    clock: TimeOfDay,
    probe: Option<Probe>,
)
    ensures
        tick_spec(pre, now, clock, probe).1 == Action::Stop <==> alive_spec(pre.held, probe)
            && !in_window_spec(clock, pre.window.start, pre.window.end),
        tick_spec(pre, now, clock, probe).1 matches Action::Warn(w) ==> alive_spec(pre.held, probe)
            && in_window_spec(clock, pre.window.start, pre.window.end) && w.threshold()
            == minutes_left_spec(clock, pre.window.start, pre.window.end) && !pre.flags.has(w),
        tick_spec(pre, now, clock, probe).0.held <==> alive_spec(pre.held, probe)
            && in_window_spec(clock, pre.window.start, pre.window.end),
        tick_spec(pre, now, clock, probe).0.window == pre.window,
{
}

/// A poll never clears a warning flag: a warning that the run has been
/// given stays given until a process is started anew, which clears them all.
pub proof fn lemma_flags_kept_until_spawn(
    pre: SupervisorState,
    now: Timestamp,
    clock: TimeOfDay,
    probe: Option<Probe>,
    warning: Warning,
)
    ensures
        pre.flags.has(warning) ==> tick_spec(pre, now, clock, probe).0.flags.has(warning),
        spawn_finished_spec(pre, now, true).flags == WarningFlags::fresh(),
        spawn_finished_spec(pre, now, false).flags == pre.flags,
{
}

/// The poll interval is shorter than a minute, so that no whole minute of
/// the countdown passes without a poll.
pub proof fn lemma_poll_within_minute()
    ensures
        POLL_SECONDS < 60,
        forall|action: Action|
            action != Action::Cooldown ==> #[trigger] action.pause_spec() == POLL_SECONDS,
{
}

} // verus!
