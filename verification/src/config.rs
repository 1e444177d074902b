//! Configuration data for the scheduler: phase durations and cadence.
//!
//! Loading these values from a file or the command line is the caller's
//! concern; the scheduler only consumes validated plain values.

use vstd::prelude::*;

verus! {

/// General behaviour switches.
#[derive(Clone, Copy, PartialEq, Eq, Structural, Debug)]
pub struct GeneralConfig {
    /// Whether to hide the clock display.
    pub no_clock: bool,
    /// Whether to disable sound notifications.
    pub no_sound: bool,
    /// Whether to show emoji in the UI.
    pub emoji: bool,
}

impl GeneralConfig {
    /// Sound notifications are on unless explicitly disabled.
    pub fn enable_sound(&self) -> (r: bool)
        ensures
            r == !self.no_sound,
    {
        !self.no_sound
    }

    /// Whether the clock display should be hidden.
    pub fn hide_clock(&self) -> (r: bool)
        ensures
            r == self.no_clock,
    {
        self.no_clock
    }
}

/// Phase durations and long-break cadence, in the units a user writes them.
#[derive(Clone, Copy, PartialEq, Eq, Structural, Debug)]
pub struct TimeConfig {
    /// Number of completed work sessions between long breaks.
    pub tomatoes_per_set: u8,
    /// Work session duration in minutes.
    pub work_minutes: u64,
    /// Short break duration in minutes.
    pub small_break_minutes: u64,
    /// Long break duration in minutes.
    pub long_break_minutes: u64,
    /// Alarm duration in seconds.
    pub alarm_seconds: u64,
}

impl TimeConfig {
    /// A configuration the scheduler accepts: every duration is a positive
    /// span whose millisecond count fits in a machine word, and the cadence
    /// is at least one.
    pub open spec fn valid(self) -> bool {
        &&& 1 <= self.tomatoes_per_set
        &&& 1 <= self.work_minutes
        &&& self.work_minutes * 60000 <= u64::MAX
        &&& 1 <= self.small_break_minutes
        &&& self.small_break_minutes * 60000 <= u64::MAX
        &&& 1 <= self.long_break_minutes
        &&& self.long_break_minutes * 60000 <= u64::MAX
    }

    /// Check the configuration before constructing a scheduler from it.
    pub fn is_valid(&self) -> (r: bool)
        ensures
            r == self.valid(),
    {
        self.tomatoes_per_set >= 1 && self.work_minutes >= 1 && self.work_minutes <= u64::MAX / 60000
            && self.small_break_minutes >= 1 && self.small_break_minutes <= u64::MAX / 60000
            && self.long_break_minutes >= 1 && self.long_break_minutes <= u64::MAX / 60000
    }
}

} // verus!
