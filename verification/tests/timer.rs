use rustdoro::config::TimeConfig;
use rustdoro::timer::{SessionType, Timer, TimerState};

fn default_time_config() -> TimeConfig {
    TimeConfig {
        tomatoes_per_set: 4,
        work_minutes: 25,
        small_break_minutes: 5,
        long_break_minutes: 10,
        alarm_seconds: 5,
    }
}

#[test]
fn test_timer_creation() {
    let config = default_time_config();
    let timer = Timer::new(&config);
    assert_eq!(timer.get_pomodoros_completed(), 0);
    assert!(timer.is_stopped());
}

#[test]
fn test_new_converts_minutes_to_milliseconds() {
    let config = default_time_config();
    let timer = Timer::new(&config);
    assert_eq!(timer.work_ms, 25 * 60_000);
    assert_eq!(timer.short_break_ms, 5 * 60_000);
    assert_eq!(timer.long_break_ms, 10 * 60_000);
    assert_eq!(timer.remaining_ms, 25 * 60_000);
    assert_eq!(timer.long_break_after_pomodoros, 4);
    assert_eq!(timer.get_session_type(), SessionType::Work);
}

#[test]
fn test_config_validation() {
    let config = default_time_config();
    assert!(config.is_valid());
    let mut zero_cadence = config;
    zero_cadence.tomatoes_per_set = 0;
    assert!(!zero_cadence.is_valid());
    let mut zero_work = config;
    zero_work.work_minutes = 0;
    assert!(!zero_work.is_valid());
    let mut huge_break = config;
    huge_break.small_break_minutes = u64::MAX;
    assert!(!huge_break.is_valid());
}

#[test]
fn test_start_pause_resume() {
    let mut timer = Timer::with_budgets_ms(5000, 1000, 2000, 4);
    assert!(timer.is_stopped());
    timer.start(100);
    assert!(timer.is_running());
    assert_eq!(timer.last_update_ms, Some(100));
    timer.pause();
    assert!(timer.is_paused());
    assert_eq!(timer.last_update_ms, None);
    timer.resume(250);
    assert!(timer.is_running());
    assert_eq!(timer.last_update_ms, Some(250));
}

#[test]
fn test_pause_is_idempotent() {
    let mut timer = Timer::with_budgets_ms(5000, 1000, 2000, 4);
    timer.start(0);
    timer.tick(1200);
    timer.pause();
    let once = timer;
    timer.pause();
    assert_eq!(timer, once);
}

#[test]
fn test_start_while_running_keeps_remaining() {
    let mut timer = Timer::with_budgets_ms(5000, 1000, 2000, 4);
    timer.start(0);
    timer.tick(2000);
    assert_eq!(timer.remaining_ms, 3000);
    timer.start(2500);
    assert_eq!(timer.remaining_ms, 3000);
    assert!(timer.is_running());
}

#[test]
fn test_toggle_pause_cycles_states() {
    let mut timer = Timer::with_budgets_ms(5000, 1000, 2000, 4);
    timer.toggle_pause(10);
    assert!(timer.is_running());
    timer.toggle_pause(20);
    assert!(timer.is_paused());
    timer.toggle_pause(30);
    assert!(timer.is_running());
}

#[test]
fn test_tick_when_not_running_is_a_no_op() {
    let mut timer = Timer::with_budgets_ms(5000, 1000, 2000, 4);
    let before = timer;
    assert!(!timer.tick(99_999));
    assert_eq!(timer, before);
}

#[test]
fn test_tick_counts_down_by_elapsed_delta() {
    let mut timer = Timer::with_budgets_ms(60_000, 1000, 2000, 4);
    timer.start(1000);
    assert!(!timer.tick(1001));
    assert_eq!(timer.remaining_ms, 59_999);
    assert!(!timer.tick(31_001));
    assert_eq!(timer.remaining_ms, 29_999);
    assert_eq!(timer.last_update_ms, Some(31_001));
}

#[test]
fn test_tick_convergence_with_a_late_tick() {
    // Work budget of five seconds; two ticks of three seconds each: the
    // second tick overshoots and must complete the phase cleanly.
    let mut timer = Timer::with_budgets_ms(5000, 1000, 2000, 4);
    timer.start(0);
    assert!(!timer.tick(3000));
    assert_eq!(timer.remaining_ms, 2000);
    assert!(timer.tick(6000));
    assert!(timer.is_stopped());
    assert_eq!(timer.get_session_type(), SessionType::ShortBreak);
    assert_eq!(timer.get_pomodoros_completed(), 1);
    assert_eq!(timer.remaining_ms, 1000);
}

#[test]
fn test_tick_clamps_a_backwards_clock() {
    let mut timer = Timer::with_budgets_ms(5000, 1000, 2000, 4);
    timer.start(1000);
    assert!(!timer.tick(400));
    assert_eq!(timer.remaining_ms, 5000);
    assert_eq!(timer.last_update_ms, Some(400));
}

#[test]
fn test_skip_equals_natural_expiry() {
    let mut skipped = Timer::with_budgets_ms(5000, 1000, 2000, 4);
    let mut expired = Timer::with_budgets_ms(5000, 1000, 2000, 4);
    skipped.start(100);
    expired.start(100);
    assert!(skipped.skip_session());
    assert!(expired.tick(5100));
    assert_eq!(skipped, expired);
}

#[test]
fn test_skip_from_break_returns_to_work() {
    let mut timer = Timer::with_budgets_ms(5000, 1000, 2000, 4);
    timer.skip_session();
    assert_eq!(timer.get_session_type(), SessionType::ShortBreak);
    timer.skip_session();
    assert_eq!(timer.get_session_type(), SessionType::Work);
    assert_eq!(timer.get_pomodoros_completed(), 1);
    assert_eq!(timer.remaining_ms, 5000);
}

#[test]
fn test_long_break_cadence_of_four() {
    let mut timer = Timer::with_budgets_ms(5000, 1000, 2000, 4);
    let mut phases = Vec::new();
    phases.push(timer.get_session_type());
    for _ in 0..7 {
        timer.skip_session();
        phases.push(timer.get_session_type());
    }
    assert_eq!(
        phases,
        vec![
            SessionType::Work,
            SessionType::ShortBreak,
            SessionType::Work,
            SessionType::ShortBreak,
            SessionType::Work,
            SessionType::ShortBreak,
            SessionType::Work,
            SessionType::LongBreak,
        ]
    );
    assert_eq!(timer.get_pomodoros_completed(), 4);
    assert_eq!(timer.remaining_ms, 2000);
    assert_eq!(timer.break_count, 0);
}

#[test]
fn test_cadence_of_one_always_takes_long_breaks() {
    let mut timer = Timer::with_budgets_ms(5000, 1000, 2000, 1);
    timer.skip_session();
    assert_eq!(timer.get_session_type(), SessionType::LongBreak);
    timer.skip_session();
    timer.skip_session();
    assert_eq!(timer.get_session_type(), SessionType::LongBreak);
    assert_eq!(timer.get_pomodoros_completed(), 2);
}

#[test]
fn test_reset_restores_the_constructed_state() {
    let mut timer = Timer::with_budgets_ms(5000, 1000, 2000, 4);
    let fresh = timer;
    timer.start(0);
    timer.tick(1000);
    timer.skip_session();
    timer.start(2000);
    timer.pause();
    timer.skip_session();
    timer.reset();
    assert_eq!(timer, fresh);
    assert_eq!(timer.get_session_type(), SessionType::Work);
    assert_eq!(timer.remaining_ms, 5000);
    assert_eq!(timer.get_state(), TimerState::Stopped);
    assert_eq!(timer.get_pomodoros_completed(), 0);
    assert_eq!(timer.break_count, 0);
}

#[test]
fn test_remaining_never_exceeds_the_phase_budget() {
    let mut timer = Timer::with_budgets_ms(5000, 1000, 2000, 4);
    assert!(timer.remaining_ms <= timer.get_total_duration());
    timer.start(0);
    timer.tick(1500);
    assert!(timer.remaining_ms <= timer.get_total_duration());
    timer.skip_session();
    assert!(timer.remaining_ms <= timer.get_total_duration());
    timer.start(2000);
    timer.tick(10_000);
    assert!(timer.remaining_ms <= timer.get_total_duration());
    timer.reset();
    assert!(timer.remaining_ms <= timer.get_total_duration());
}

#[test]
fn test_progress_permille_bounds_and_values() {
    let mut timer = Timer::with_budgets_ms(1000, 400, 2000, 4);
    assert_eq!(timer.get_progress_permille(), 0);
    timer.start(0);
    timer.tick(250);
    assert_eq!(timer.get_progress_permille(), 250);
    timer.tick(900);
    assert_eq!(timer.get_progress_permille(), 900);
    timer.tick(1000);
    // The phase completed: the next phase starts with zero progress.
    assert_eq!(timer.get_session_type(), SessionType::ShortBreak);
    assert_eq!(timer.get_progress_permille(), 0);
}

#[test]
fn test_display_time_formats_and_pads() {
    let mut timer = Timer::with_budgets_ms(25 * 60_000, 1000, 2000, 4);
    assert_eq!(timer.get_display_time(), "25:00");
    timer.start(0);
    timer.tick(61_000);
    assert_eq!(timer.get_display_time(), "23:59");
    let short = Timer::with_budgets_ms(5000, 1000, 2000, 4);
    assert_eq!(short.get_display_time(), "00:05");
    let sub_second = Timer::with_budgets_ms(999, 1000, 2000, 4);
    assert_eq!(sub_second.get_display_time(), "00:00");
}

#[test]
fn test_display_time_grows_past_two_digit_minutes() {
    let timer = Timer::with_budgets_ms(100 * 60_000, 1000, 2000, 4);
    assert_eq!(timer.get_display_time(), "100:00");
}

#[test]
fn test_session_type_labels() {
    assert_eq!(SessionType::Work.display_text(), "Work Session");
    assert_eq!(SessionType::ShortBreak.display_text(), "Short Break");
    assert_eq!(SessionType::LongBreak.display_text(), "Long Break");
    assert_eq!(SessionType::Work.emoji(), "🍅");
    assert_eq!(SessionType::ShortBreak.emoji(), "☕");
    assert_eq!(SessionType::LongBreak.emoji(), "🏖️");
}

#[test]
fn test_total_duration_follows_the_phase() {
    let mut timer = Timer::with_budgets_ms(5000, 1000, 2000, 4);
    assert_eq!(timer.get_total_duration(), 5000);
    timer.skip_session();
    assert_eq!(timer.get_total_duration(), 1000);
    timer.skip_session();
    timer.skip_session();
    timer.skip_session();
    timer.skip_session();
    timer.skip_session();
    timer.skip_session();
    assert_eq!(timer.get_session_type(), SessionType::LongBreak);
    assert_eq!(timer.get_total_duration(), 2000);
}
