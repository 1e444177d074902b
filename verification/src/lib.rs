//! A terminal Pomodoro timer's core: a countdown-session scheduler that
//! tracks elapsed wall-clock time against configured phase budgets and
//! cycles between work and break phases on a fixed cadence.
//!
//! The scheduler owns no clock: callers advance it by handing each mutating
//! call a millisecond timestamp, so it stays correct under irregular ticks.

pub mod config;
pub mod timer;
pub mod ui;
