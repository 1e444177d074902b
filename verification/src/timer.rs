//! The countdown-session scheduler: phases, run states, and the tick and
//! command surface that drives the Pomodoro cycle.
//!
//! Time is modelled in whole milliseconds. Every mutating call that arms the
//! timer takes the caller's current timestamp, and `tick` computes elapsed
//! time as a delta from the stored anchor, so irregular call cadences still
//! converge to the right remaining time.

use vstd::prelude::*;
use crate::config::TimeConfig;

verus! {

use vstd::arithmetic::div_mod::{
    lemma_add_mod_noop,
    lemma_div_is_ordered,
    lemma_div_multiples_vanish,
    lemma_mod_bound,
    lemma_mod_self_0,
    lemma_small_mod,
};
use vstd::string::StringExecFns;

/// Kinds of session the scheduler cycles through.
#[derive(Clone, Copy, PartialEq, Eq, Structural, Debug)]
pub enum SessionType {
    Work,
    ShortBreak,
    LongBreak,
}

impl SessionType {
    /// The label shown for this session kind.
    pub fn display_text(&self) -> (r: &'static str)
        ensures
            *self is Work ==> r@ == "Work Session"@,
            *self is ShortBreak ==> r@ == "Short Break"@,
            *self is LongBreak ==> r@ == "Long Break"@,
    {
        match self {
            SessionType::Work => "Work Session",
            SessionType::ShortBreak => "Short Break",
            SessionType::LongBreak => "Long Break",
        }
    }

    /// The glyph shown for this session kind.
    pub fn emoji(&self) -> (r: &'static str)
        ensures
            *self is Work ==> r@ == "🍅"@,
            *self is ShortBreak ==> r@ == "☕"@,
            *self is LongBreak ==> r@ == "🏖️"@,
    {
        match self {
            SessionType::Work => "🍅",
            SessionType::ShortBreak => "☕",
            SessionType::LongBreak => "🏖️",
        }
    }
}

/// Run states of the scheduler.
#[derive(Clone, Copy, PartialEq, Eq, Structural, Debug)]
pub enum TimerState {
    /// The current phase is counting down.
    Running,
    /// Counting down is suspended; the remaining time is frozen.
    Paused,
    /// The current phase is loaded but not counting down. This is the
    /// initial state and the state right after any phase completes.
    Stopped,
}

/// The session scheduler. It owns the current phase, the immutable phase
/// budgets, the cycle counters, and the anchor of the last update.
#[derive(Clone, Copy, PartialEq, Eq, Structural, Debug)]
pub struct Timer {
    /// The phase currently loaded.
    pub current_session: SessionType,
    /// Milliseconds left in the current phase; never above the phase budget.
    pub remaining_ms: u64,
    /// Whether the phase is counting down, paused, or stopped.
    pub state: TimerState,
    /// Budget of a work phase, in milliseconds.
    pub work_ms: u64,
    /// Budget of a short break, in milliseconds.
    pub short_break_ms: u64,
    /// Budget of a long break, in milliseconds.
    pub long_break_ms: u64,
    /// Completed work sessions since construction or the last reset.
    pub pomodoros_completed: u32,
    /// Timestamp of the last update; `Some` exactly while running.
    pub last_update_ms: Option<u64>,
    /// Short breaks taken since the last long break.
    pub break_count: u8,
    /// Completed work sessions between long breaks (the cadence).
    pub long_break_after_pomodoros: u8,
}

impl Timer {
    /// The budget of the given phase kind.
    pub open spec fn budget_ms(self, session: SessionType) -> u64 {
        match session {
            SessionType::Work => self.work_ms,
            SessionType::ShortBreak => self.short_break_ms,
            SessionType::LongBreak => self.long_break_ms,
        }
    }

    /// Well-formedness: positive budgets and cadence, remaining time within
    /// the current phase's budget, an anchor exactly while running, and the
    /// break streak in step with the completed-session counter.
    pub open spec fn wf(self) -> bool {
        &&& 1 <= self.work_ms
        &&& 1 <= self.short_break_ms
        &&& 1 <= self.long_break_ms
        &&& 1 <= self.long_break_after_pomodoros
        &&& self.remaining_ms <= self.budget_ms(self.current_session)
        &&& (self.state is Running <==> self.last_update_ms is Some)
        &&& self.break_count as int == self.pomodoros_completed as int
            % self.long_break_after_pomodoros as int
    }

    /// The freshly constructed scheduler for the given budgets and cadence.
    pub open spec fn spec_new(
        work_ms: u64,
        short_break_ms: u64,
        long_break_ms: u64,
        long_break_after_pomodoros: u8,
    ) -> Timer {
        Timer {
            current_session: SessionType::Work,
            remaining_ms: work_ms,
            state: TimerState::Stopped,
            work_ms,
            short_break_ms,
            long_break_ms,
            pomodoros_completed: 0,
            last_update_ms: None,
            break_count: 0,
            long_break_after_pomodoros,
        }
    }

    /// The state after the completion transition: a finished work phase
    /// advances the counter and selects the break kind by the cadence, a
    /// finished break returns to work; the next phase is loaded with its
    /// full budget, stopped and unanchored.
    pub open spec fn spec_completed(self) -> Timer {
        match self.current_session {
            SessionType::Work => {
                let p = (self.pomodoros_completed + 1) as u32;
                if p as int % (self.long_break_after_pomodoros as int) == 0 {
                    Timer {
                        current_session: SessionType::LongBreak,
                        remaining_ms: self.long_break_ms,
                        state: TimerState::Stopped,
                        pomodoros_completed: p,
                        last_update_ms: None,
                        break_count: 0,
                        ..self
                    }
                } else {
                    Timer {
                        current_session: SessionType::ShortBreak,
                        remaining_ms: self.short_break_ms,
                        state: TimerState::Stopped,
                        pomodoros_completed: p,
                        last_update_ms: None,
                        break_count: (self.break_count + 1) as u8,
                        ..self
                    }
                }
            },
            _ => Timer {
                current_session: SessionType::Work,
                remaining_ms: self.work_ms,
                state: TimerState::Stopped,
                last_update_ms: None,
                ..self
            },
        }
    }

    /// The state after `start`: running, with the anchor re-armed at `now_ms`.
    pub open spec fn spec_started(self, now_ms: u64) -> Timer {
        Timer { state: TimerState::Running, last_update_ms: Some(now_ms), ..self }
    }

    /// The state after `pause`: only a running scheduler changes.
    pub open spec fn spec_paused(self) -> Timer {
        if self.state is Running {
            Timer { state: TimerState::Paused, last_update_ms: None, ..self }
        } else {
            self
        }
    }

    /// The state after `resume`: only a paused scheduler changes.
    pub open spec fn spec_resumed(self, now_ms: u64) -> Timer {
        if self.state is Paused {
            self.spec_started(now_ms)
        } else {
            self
        }
    }

    /// The state after `toggle_pause`: running pauses, paused resumes,
    /// stopped starts.
    pub open spec fn spec_toggled(self, now_ms: u64) -> Timer {
        match self.state {
            TimerState::Running => self.spec_paused(),
            TimerState::Paused => self.spec_resumed(now_ms),
            TimerState::Stopped => self.spec_started(now_ms),
        }
    }

    /// The state after `reset`: back to a fresh work phase with the same
    /// configuration.
    pub open spec fn spec_reset(self) -> Timer {
        Timer {
            current_session: SessionType::Work,
            remaining_ms: self.work_ms,
            state: TimerState::Stopped,
            pomodoros_completed: 0,
            last_update_ms: None,
            break_count: 0,
            ..self
        }
    }

    /// Milliseconds elapsed between the stored anchor and `now_ms`, clamped
    /// to zero for a clock reading earlier than the anchor so that the
    /// remaining time can never increase.
    pub open spec fn elapsed_since_anchor(self, now_ms: u64) -> u64 {
        let anchor = self.last_update_ms->0;
        if now_ms >= anchor {
            (now_ms - anchor) as u64
        } else {
            0
        }
    }

    /// Whether a tick at `now_ms` completes the current phase.
    pub open spec fn spec_tick_completes(self, now_ms: u64) -> bool {
        self.state is Running && self.remaining_ms <= self.elapsed_since_anchor(now_ms)
    }

    /// The state after `tick(now_ms)`: no change unless running; otherwise
    /// the elapsed delta is charged against the remaining time, completing
    /// the phase when it is used up.
    pub open spec fn spec_ticked(self, now_ms: u64) -> Timer {
        if self.state is Running {
            let elapsed = self.elapsed_since_anchor(now_ms);
            if self.remaining_ms <= elapsed {
                Timer { remaining_ms: 0, last_update_ms: Some(now_ms), ..self }.spec_completed()
            } else {
                Timer {
                    remaining_ms: (self.remaining_ms - elapsed) as u64,
                    last_update_ms: Some(now_ms),
                    ..self
                }
            }
        } else {
            self
        }
    }

    /// Progress through the current phase in thousandths, rounded down.
    pub open spec fn spec_progress_permille(self) -> int {
        let budget = self.budget_ms(self.current_session) as int;
        (budget - self.remaining_ms) * 1000 / budget
    }

    /// Create a scheduler from a validated configuration: a fresh work phase,
    /// stopped, with both counters at zero.
    pub fn new(config: &TimeConfig) -> (t: Timer)
        requires
            config.valid(),
        ensures
            t.wf(),
            t == Timer::spec_new(
                (config.work_minutes * 60000) as u64,
                (config.small_break_minutes * 60000) as u64,
                (config.long_break_minutes * 60000) as u64,
                config.tomatoes_per_set,
            ),
    {
        let work_ms = config.work_minutes * 60000;
        let short_break_ms = config.small_break_minutes * 60000;
        let long_break_ms = config.long_break_minutes * 60000;
        Timer::with_budgets_ms(work_ms, short_break_ms, long_break_ms, config.tomatoes_per_set)
    }

    /// Create a scheduler directly from millisecond budgets and a cadence.
    pub fn with_budgets_ms(
        work_ms: u64,
        short_break_ms: u64,
        long_break_ms: u64,
        long_break_after_pomodoros: u8,
    ) -> (t: Timer)
        requires
            1 <= work_ms,
            1 <= short_break_ms,
            1 <= long_break_ms,
            1 <= long_break_after_pomodoros,
        ensures
            t.wf(),
            t == Timer::spec_new(work_ms, short_break_ms, long_break_ms, long_break_after_pomodoros),
    {
        proof {
            lemma_small_mod(0, long_break_after_pomodoros as nat);
        }
        Timer {
            current_session: SessionType::Work,
            remaining_ms: work_ms,
            state: TimerState::Stopped,
            work_ms,
            short_break_ms,
            long_break_ms,
            pomodoros_completed: 0,
            last_update_ms: None,
            break_count: 0,
            long_break_after_pomodoros,
        }
    }

    /// Start (or re-arm) the countdown of the current phase at `now_ms`.
    /// Safe to call while already running: the remaining time is unaffected.
    pub fn start(&mut self, now_ms: u64)
        requires
            old(self).wf(),
        ensures
            final(self).wf(),
            *final(self) == old(self).spec_started(now_ms),
    {
        self.state = TimerState::Running;
        self.last_update_ms = Some(now_ms);
    }

    /// Pause a running countdown, freezing the remaining time as of the last
    /// tick. No-op unless running.
    pub fn pause(&mut self)
        requires
            old(self).wf(),
        ensures
            final(self).wf(),
            *final(self) == old(self).spec_paused(),
    {
        if matches!(self.state, TimerState::Running) {
            self.state = TimerState::Paused;
            self.last_update_ms = None;
        }
    }

    /// Resume a paused countdown at `now_ms`. No-op unless paused.
    pub fn resume(&mut self, now_ms: u64)
        requires
            old(self).wf(),
        ensures
            final(self).wf(),
            *final(self) == old(self).spec_resumed(now_ms),
    {
        if matches!(self.state, TimerState::Paused) {
            self.start(now_ms);
        }
    }

    /// The single primary control: pause when running, resume when paused,
    /// start when stopped.
    pub fn toggle_pause(&mut self, now_ms: u64)
        requires
            old(self).wf(),
        ensures
            final(self).wf(),
            *final(self) == old(self).spec_toggled(now_ms),
    {
        match self.state {
            TimerState::Running => self.pause(),
            TimerState::Paused => self.resume(now_ms),
            TimerState::Stopped => self.start(now_ms),
        }
    }

    /// Force immediate completion of the current phase, whatever time is
    /// left and whether or not the countdown is running. Returns the same
    /// completion signal as a natural expiry.
    pub fn skip_session(&mut self) -> (completed: bool)
        requires
            old(self).wf(),
            old(self).current_session is Work ==> old(self).pomodoros_completed < u32::MAX,
        ensures
            final(self).wf(),
            *final(self) == old(self).spec_completed(),
            completed,
            final(self).state is Stopped,
    {
        self.remaining_ms = 0;
        self.complete_session()
    }

    /// Advance the countdown to the clock reading `now_ms`. Returns whether
    /// the current phase just completed. No-op unless running. A reading
    /// earlier than the stored anchor counts as zero elapsed time: the
    /// remaining time never increases.
    pub fn tick(&mut self, now_ms: u64) -> (completed: bool)
        requires
            old(self).wf(),
            old(self).current_session is Work ==> old(self).pomodoros_completed < u32::MAX,
        ensures
            final(self).wf(),
            *final(self) == old(self).spec_ticked(now_ms),
            completed == old(self).spec_tick_completes(now_ms),
            completed ==> final(self).state is Stopped,
            !completed ==> final(self).current_session == old(self).current_session
                && final(self).pomodoros_completed == old(self).pomodoros_completed,
    {
        if !matches!(self.state, TimerState::Running) {
            return false;
        }
        let anchor = match self.last_update_ms {
            Some(a) => a,
            None => {
                return false;
            },
        };
        let elapsed = if now_ms >= anchor {
            now_ms - anchor
        } else {
            0
        };
        if self.remaining_ms <= elapsed {
            self.remaining_ms = 0;
            self.last_update_ms = Some(now_ms);
            self.complete_session()
        } else {
            self.remaining_ms = self.remaining_ms - elapsed;
            self.last_update_ms = Some(now_ms);
            false
        }
    }

    /// The completion transition shared by natural expiry and `skip_session`.
    fn complete_session(&mut self) -> (completed: bool)
        requires
            old(self).wf(),
            old(self).current_session is Work ==> old(self).pomodoros_completed < u32::MAX,
        ensures
            final(self).wf(),
            *final(self) == old(self).spec_completed(),
            completed,
    {
        match self.current_session {
            SessionType::Work => {
                proof {
                    lemma_mod_bound(
                        self.pomodoros_completed as int,
                        self.long_break_after_pomodoros as int,
                    );
                    lemma_mod_succ(
                        self.pomodoros_completed as int,
                        self.long_break_after_pomodoros as int,
                    );
                }
                self.pomodoros_completed = self.pomodoros_completed + 1;
                if self.pomodoros_completed % (self.long_break_after_pomodoros as u32) == 0 {
                    self.current_session = SessionType::LongBreak;
                    self.remaining_ms = self.long_break_ms;
                    self.break_count = 0;
                } else {
                    self.current_session = SessionType::ShortBreak;
                    self.remaining_ms = self.short_break_ms;
                    self.break_count = self.break_count + 1;
                }
            },
            SessionType::ShortBreak | SessionType::LongBreak => {
                self.current_session = SessionType::Work;
                self.remaining_ms = self.work_ms;
            },
        }
        self.state = TimerState::Stopped;
        self.last_update_ms = None;
        true
    }

    /// The remaining time formatted as minutes and seconds, each padded to
    /// two digits; minute counts beyond two digits keep all their digits.
    pub fn get_display_time(&self) -> (s: String)
        ensures
            s@ == spec_display_time(self.remaining_ms),
    {
        let total_seconds = self.remaining_ms / 1000;
        let minutes = total_seconds / 60;
        let seconds = total_seconds % 60;
        let mut s = String::new();
        if minutes < 10 {
            s.append("0");
        }
        let minute_digits = decimal_string(minutes);
        s.append(minute_digits.as_str());
        s.append(":");
        if seconds < 10 {
            s.append("0");
        }
        let second_digits = decimal_string(seconds);
        s.append(second_digits.as_str());
        proof {
            reveal_strlit("0");
            reveal_strlit(":");
            assert("0"@ =~= seq!['0']);
            assert(":"@ =~= seq![':']);
            assert(s@ =~= spec_display_time(self.remaining_ms));
        }
        s
    }

    /// The kind of the current phase.
    pub fn get_session_type(&self) -> (r: SessionType)
        ensures
            r == self.current_session,
    {
        self.current_session
    }

    /// Completed work sessions since construction or the last reset.
    pub fn get_pomodoros_completed(&self) -> (r: u32)
        ensures
            r == self.pomodoros_completed,
    {
        self.pomodoros_completed
    }

    /// The current run state.
    pub fn get_state(&self) -> (r: TimerState)
        ensures
            r == self.state,
    {
        self.state
    }

    /// Whether the countdown is running.
    pub fn is_running(&self) -> (r: bool)
        ensures
            r == (self.state is Running),
    {
        matches!(self.state, TimerState::Running)
    }

    /// Whether the countdown is paused.
    pub fn is_paused(&self) -> (r: bool)
        ensures
            r == (self.state is Paused),
    {
        matches!(self.state, TimerState::Paused)
    }

    /// Whether the countdown is stopped.
    pub fn is_stopped(&self) -> (r: bool)
        ensures
            r == (self.state is Stopped),
    {
        matches!(self.state, TimerState::Stopped)
    }

    /// Progress through the current phase in thousandths: zero right after a
    /// transition, one thousand when the remaining time reaches zero, never
    /// outside that range.
    pub fn get_progress_permille(&self) -> (r: u64)
        requires
            1 <= self.budget_ms(self.current_session),
            self.remaining_ms <= self.budget_ms(self.current_session),
        ensures
            r == self.spec_progress_permille(),
            r <= 1000,
            self.remaining_ms == self.budget_ms(self.current_session) ==> r == 0,
            self.remaining_ms == 0 ==> r == 1000,
    {
        let total = self.get_total_duration();
        let elapsed = total - self.remaining_ms;
        let permille = ((elapsed as u128) * 1000 / (total as u128)) as u64;
        proof {
            let b = total as int;
            let e = elapsed as int;
            lemma_div_is_ordered(e * 1000, b * 1000, b);
            lemma_div_multiples_vanish(1000, b);
            assert(b * 1000 == 1000 * b) by (nonlinear_arith);
            assert(e * 1000 / b <= 1000);
        }
        permille
    }

    /// Return to the constructed state: a fresh work phase, stopped, both
    /// counters cleared, configuration untouched.
    pub fn reset(&mut self)
        requires
            old(self).wf(),
        ensures
            final(self).wf(),
            *final(self) == old(self).spec_reset(),
            final(self).current_session is Work,
            final(self).remaining_ms == old(self).work_ms,
            final(self).state is Stopped,
            final(self).pomodoros_completed == 0,
            final(self).break_count == 0,
            final(self).last_update_ms is None,
    {
        proof {
            lemma_small_mod(0, self.long_break_after_pomodoros as nat);
        }
        self.current_session = SessionType::Work;
        self.remaining_ms = self.work_ms;
        self.state = TimerState::Stopped;
        self.pomodoros_completed = 0;
        self.last_update_ms = None;
        self.break_count = 0;
    }

    /// The full budget of the current phase.
    pub fn get_total_duration(&self) -> (r: u64)
        ensures
            r == self.budget_ms(self.current_session),
    {
        match self.current_session {
            SessionType::Work => self.work_ms,
            SessionType::ShortBreak => self.short_break_ms,
            SessionType::LongBreak => self.long_break_ms,
        }
    }
}

/// The character for a single decimal digit.
pub open spec fn digit_char(d: int) -> char {
    if d == 0 {
        '0'
    } else if d == 1 {
        '1'
    } else if d == 2 {
        '2'
    } else if d == 3 {
        '3'
    } else if d == 4 {
        '4'
    } else if d == 5 {
        '5'
    } else if d == 6 {
        '6'
    } else if d == 7 {
        '7'
    } else if d == 8 {
        '8'
    } else {
        '9'
    }
}

/// The decimal digits of `n`, most significant first, with no leading zero
/// except for `n == 0` itself.
pub open spec fn spec_decimal_digits(n: int) -> Seq<char>
    decreases n,
{
    if n < 10 {
        seq![digit_char(n)]
    } else {
        spec_decimal_digits(n / 10) + seq![digit_char(n % 10)]
    }
}

/// The remaining time as `MM:SS` over whole seconds, both parts padded to at
/// least two digits.
pub open spec fn spec_display_time(remaining_ms: u64) -> Seq<char> {
    let total_seconds = remaining_ms as int / 1000;
    let minutes = total_seconds / 60;
    let seconds = total_seconds % 60;
    (if minutes < 10 {
        seq!['0']
    } else {
        Seq::<char>::empty()
    }) + spec_decimal_digits(minutes) + seq![':'] + (if seconds < 10 {
        seq!['0']
    } else {
        Seq::<char>::empty()
    }) + spec_decimal_digits(seconds)
}

/// The string for a single decimal digit.
fn digit_str(d: u64) -> (r: &'static str)
    requires
        d < 10,
    ensures
        r@ == seq![digit_char(d as int)],
{
    proof {
        reveal_strlit("0");
        reveal_strlit("1");
        reveal_strlit("2");
        reveal_strlit("3");
        reveal_strlit("4");
        reveal_strlit("5");
        reveal_strlit("6");
        reveal_strlit("7");
        reveal_strlit("8");
        reveal_strlit("9");
        assert("0"@ =~= seq!['0']);
        assert("1"@ =~= seq!['1']);
        assert("2"@ =~= seq!['2']);
        assert("3"@ =~= seq!['3']);
        assert("4"@ =~= seq!['4']);
        assert("5"@ =~= seq!['5']);
        assert("6"@ =~= seq!['6']);
        assert("7"@ =~= seq!['7']);
        assert("8"@ =~= seq!['8']);
        assert("9"@ =~= seq!['9']);
    }
    match d {
        0 => "0",
        1 => "1",
        2 => "2",
        3 => "3",
        4 => "4",
        5 => "5",
        6 => "6",
        7 => "7",
        8 => "8",
        _ => "9",
    }
}

/// The decimal representation of `n`.
fn decimal_string(n: u64) -> (s: String)
    ensures
        s@ == spec_decimal_digits(n as int),
    decreases n,
{
    if n < 10 {
        let digit = digit_str(n);
        digit.to_owned()
    } else {
        let mut s = decimal_string(n / 10);
        s.append(digit_str(n % 10));
        s
    }
}

/// The successor's remainder: adding one either steps the remainder by one
/// or wraps it to zero exactly when it would reach the divisor.
proof fn lemma_mod_succ(p: int, n: int)
    requires
        0 <= p,
        1 <= n,
    ensures
        (p + 1) % n == if p % n + 1 == n {
            0int
        } else {
            p % n + 1
        },
{
    lemma_mod_bound(p, n);
    lemma_add_mod_noop(p, 1, n);
    if n == 1 {
        lemma_mod_bound(p + 1, n);
    } else {
        lemma_small_mod(1, n as nat);
        let r = p % n;
        if r + 1 == n {
            lemma_mod_self_0(n);
        } else {
            lemma_small_mod((r + 1) as nat, n as nat);
        }
    }
}

/// For every well-formed scheduler the remaining time lies between zero and
/// the budget of the current phase.
pub proof fn lemma_remaining_within_budget(t: Timer)
    requires
        t.wf(),
    ensures
        0 <= t.remaining_ms <= t.budget_ms(t.current_session),
{
}

/// A completion transition always leaves the scheduler stopped: the next
/// phase is loaded but does not count down until started again.
pub proof fn lemma_completion_stops(t: Timer)
    ensures
        t.spec_completed().state is Stopped,
{
}

/// With a cadence of four, a fresh scheduler that completes four work phases
/// passes through short breaks after the first three and reaches a long
/// break, with four completed sessions, after the fourth.
pub proof fn lemma_long_break_cadence(work_ms: u64, short_break_ms: u64, long_break_ms: u64)
    requires
        1 <= work_ms,
        1 <= short_break_ms,
        1 <= long_break_ms,
    ensures
        ({
            let t0 = Timer::spec_new(work_ms, short_break_ms, long_break_ms, 4);
            let t1 = t0.spec_completed();
            let t2 = t1.spec_completed();
            let t3 = t2.spec_completed();
            let t4 = t3.spec_completed();
            let t5 = t4.spec_completed();
            let t6 = t5.spec_completed();
            let t7 = t6.spec_completed();
            &&& t0.current_session is Work
            &&& t1.current_session is ShortBreak
            &&& t2.current_session is Work
            &&& t3.current_session is ShortBreak
            &&& t4.current_session is Work
            &&& t5.current_session is ShortBreak
            &&& t6.current_session is Work
            &&& t7.current_session is LongBreak
            &&& t7.pomodoros_completed == 4
            &&& t7.remaining_ms == long_break_ms
        }),
{
    let t0 = Timer::spec_new(work_ms, short_break_ms, long_break_ms, 4);
    let t1 = t0.spec_completed();
    assert(t1.current_session is ShortBreak && t1.pomodoros_completed == 1);
    let t2 = t1.spec_completed();
    assert(t2.current_session is Work && t2.pomodoros_completed == 1);
    let t3 = t2.spec_completed();
    assert(t3.current_session is ShortBreak && t3.pomodoros_completed == 2);
    let t4 = t3.spec_completed();
    assert(t4.current_session is Work && t4.pomodoros_completed == 2);
    let t5 = t4.spec_completed();
    assert(t5.current_session is ShortBreak && t5.pomodoros_completed == 3);
    let t6 = t5.spec_completed();
    assert(t6.current_session is Work && t6.pomodoros_completed == 3);
    let t7 = t6.spec_completed();
    assert(t7.current_session is LongBreak && t7.pomodoros_completed == 4);
}

/// Pausing twice in a row has the same effect as pausing once.
pub proof fn lemma_pause_idempotent(t: Timer)
    ensures
        t.spec_paused().spec_paused() == t.spec_paused(),
{
}

/// Starting a scheduler that is already running leaves the remaining time
/// unchanged.
pub proof fn lemma_start_when_running_preserves_remaining(t: Timer, now_ms: u64)
    requires
        t.state is Running,
    ensures
        t.spec_started(now_ms).remaining_ms == t.remaining_ms,
{
}

/// Skipping a freshly started work phase yields exactly the state that a
/// naturally expiring tick yields: same phase, same remaining time, same
/// counters.
pub proof fn lemma_skip_matches_expiry(t: Timer, now_ms: u64)
    requires
        t.wf(),
        t.current_session is Work,
        t.state is Running,
        t.remaining_ms == t.work_ms,
        t.spec_tick_completes(now_ms),
    ensures
        t.spec_ticked(now_ms) == t.spec_completed(),
{
}

/// Progress never decreases as the remaining time runs down: of two
/// schedulers that agree on phase and budgets, the one with less time left
/// is at least as far along.
pub proof fn lemma_progress_monotone(t1: Timer, t2: Timer)
    requires
        t1.wf(),
        t2.wf(),
        t1.current_session == t2.current_session,
        t1.work_ms == t2.work_ms,
        t1.short_break_ms == t2.short_break_ms,
        t1.long_break_ms == t2.long_break_ms,
        t2.remaining_ms <= t1.remaining_ms,
    ensures
        t1.spec_progress_permille() <= t2.spec_progress_permille(),
{
    let b = t1.budget_ms(t1.current_session) as int;
    let e1 = b - t1.remaining_ms;
    let e2 = b - t2.remaining_ms;
    lemma_div_is_ordered(e1 * 1000, e2 * 1000, b);
}

} // verus!
