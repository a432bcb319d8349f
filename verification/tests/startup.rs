use breeze::calendar::LocalDate;
use breeze::domain::Severity;
use breeze::ports::{PersistedState, PersistenceError};
use breeze::settings::ScheduleBounds;
use breeze::startup::{debt_of, onboarding_done, restore_plan, DEFAULT_PAUSE, DEFAULT_WORK};
use chrono::{Datelike, NaiveDate};

fn saved_on(recorded_at: u64) -> PersistedState {
    PersistedState {
        work_minutes: DEFAULT_WORK,
        pause_minutes: DEFAULT_PAUSE,
        severity: Severity::Simple,
        served_breaks: 0,
        debt_seconds: 480,
        debt_recorded_at_unix: recorded_at,
        active_days: 0b0111_1111,
        schedule_start: None,
        schedule_end: None,
    }
}

fn date(day: u32) -> LocalDate {
    let naive = NaiveDate::from_ymd_opt(2026, 9, day).unwrap();
    LocalDate::from_days_from_ce(naive.num_days_from_ce()).unwrap()
}

// Noon (UTC) on the 26th and the 25th of September 2026.
const NOON_26: u64 = 1_790_424_000;
const NOON_25: u64 = 1_790_337_600;

#[test]
fn a_debt_recorded_today_comes_back_at_launch() {
    let plan = restore_plan(Some(saved_on(NOON_26)), Some(date(26)), date(26)).unwrap();
    assert_eq!(plan.debt, Some(480));
}

#[test]
fn a_debt_recorded_before_midnight_is_gone_the_next_day() {
    let plan = restore_plan(Some(saved_on(NOON_25)), Some(date(25)), date(26)).unwrap();
    assert!(plan.debt.is_none());
}

#[test]
fn a_debt_of_an_unknown_day_is_gone() {
    assert_eq!(debt_of(&saved_on(NOON_26), None, date(26)), None);
}

#[test]
fn nothing_stored_means_the_defaults() {
    assert!(restore_plan(None, Some(date(26)), date(26)).is_none());
}

#[test]
fn a_schedule_comes_back_only_with_both_bounds() {
    let mut saved = saved_on(NOON_26);
    saved.severity = Severity::Hardcore;
    saved.schedule_start = Some(540);
    let plan = restore_plan(Some(saved), None, date(26)).unwrap();
    assert_eq!(plan.rhythm.schedule, None);
    assert_eq!(plan.severity, Severity::Hardcore);
    saved.schedule_end = Some(1110);
    let plan = restore_plan(Some(saved), None, date(26)).unwrap();
    assert_eq!(
        plan.rhythm.schedule,
        Some(ScheduleBounds {
            start: 540,
            end: 1110
        })
    );
    assert_eq!(plan.rhythm.work_minutes, 50);
    assert_eq!(plan.rhythm.pause_minutes, 10);
    assert_eq!(plan.rhythm.active_days, 0b0111_1111);
}

#[test]
fn an_unreadable_onboarding_flag_counts_as_done() {
    assert!(onboarding_done(Err(PersistenceError("locked".to_owned()))));
    assert!(!onboarding_done(Ok(false)));
    assert!(onboarding_done(Ok(true)));
}
