use breeze::calendar::{LocalDate, LocalNow};
use breeze::domain::{CyclePhase, Instant, Severity, WallClock, Weekday};
use breeze::dto::CycleSnapshot;
use breeze::ticker::{
    catch_up, chime_for_transition, chimes, slept_between, tray_title, SleepReturn, TickMark,
    TitleCache, BREAK_BEGINS_SOUND, BREAK_ENDS_SOUND,
};

const SECOND: u64 = 1_000_000_000;
const NOTICE: u64 = 60 * SECOND;
const IDLE_FREEZE: u64 = 180 * SECOND;
const EPOCH: Instant = Instant { nanos: 0 };

fn at(nanos: u64) -> Instant {
    Instant { nanos }
}

fn wall(secs: u64) -> WallClock {
    WallClock {
        nanos: secs * SECOND,
    }
}

fn cycle() -> CycleSnapshot {
    CycleSnapshot {
        phase: CyclePhase::Working,
        deadline: Some(at(50 * 60 * SECOND)),
        frozen_remaining: None,
        frozen_reason: None,
        veil_mode: None,
        severity: Severity::Simple,
        chosen_severity: Severity::Simple,
        rhythm_pending: false,
        served_breaks: 0,
        debt_minutes: 0,
    }
}

#[test]
fn a_running_countdown_shows_minutes_and_seconds() {
    assert_eq!(tray_title(&cycle(), EPOCH, true), "50:00");
}

#[test]
fn a_frozen_countdown_shows_its_frozen_remaining() {
    let frozen = CycleSnapshot {
        deadline: None,
        frozen_remaining: Some(50 * 60 * SECOND - IDLE_FREEZE),
        ..cycle()
    };
    let later = at(3600 * SECOND);
    assert_eq!(tray_title(&frozen, later, true), "47:00");
}

#[test]
fn an_inactive_cycle_shows_nothing() {
    let resting = CycleSnapshot {
        phase: CyclePhase::Inactive,
        deadline: None,
        ..cycle()
    };
    assert_eq!(tray_title(&resting, EPOCH, true), "");
}

#[test]
fn a_wall_clock_far_ahead_of_the_monotonic_one_means_the_machine_slept() {
    let before = wall(1_000);
    let after = wall(1_000 + 3_600);
    let now = at(250_000_000);
    assert_eq!(
        slept_between(before, EPOCH, after, now),
        Some(3_600 * SECOND)
    );
}

#[test]
fn clocks_that_advance_together_mean_no_sleep() {
    let before = wall(1_000);
    let after = wall(1_300);
    let now = at(300 * SECOND);
    assert_eq!(slept_between(before, EPOCH, after, now), None);
}

#[test]
fn a_wall_clock_set_back_is_never_a_sleep() {
    let before = wall(10_000);
    let after = wall(1_000);
    let now = at(SECOND);
    assert_eq!(slept_between(before, EPOCH, after, now), None);
}

#[test]
fn a_break_shows_its_own_countdown_in_the_menu_bar() {
    let break_at = at(50 * 60 * SECOND + NOTICE);
    let resting = CycleSnapshot {
        phase: CyclePhase::Break,
        deadline: Some(at(break_at.nanos + 10 * 60 * SECOND)),
        ..cycle()
    };
    assert_eq!(resting.phase, CyclePhase::Break);
    assert_eq!(tray_title(&resting, break_at, true), "10:00");
}

#[test]
fn the_icon_only_mode_shows_nothing() {
    assert_eq!(tray_title(&cycle(), EPOCH, false), "");
}

#[test]
fn a_suspended_cycle_shows_nothing_and_long_countdowns_keep_their_minutes() {
    let suspended = CycleSnapshot {
        phase: CyclePhase::Suspended,
        ..cycle()
    };
    assert_eq!(tray_title(&suspended, EPOCH, true), "");
    let long = CycleSnapshot {
        deadline: Some(at((125 * 60 + 7) * SECOND)),
        ..cycle()
    };
    assert_eq!(tray_title(&long, EPOCH, true), "125:07");
}

fn mark(wall_secs: u64, monotonic: Instant, day: i32, minute_of_day: u16) -> TickMark {
    TickMark {
        wall: wall(wall_secs),
        monotonic,
        local: LocalNow {
            date: LocalDate::from_days_from_ce(day).unwrap(),
            weekday: Weekday::Thursday,
            minute_of_day,
        },
    }
}

#[test]
fn crossing_midnight_clears_the_debt_and_a_sleep_is_reported_from_its_start() {
    let previous = mark(1_000, at(5 * SECOND), 739_885, 1_430);
    let current = mark(1_000 + 7_200, at(6 * SECOND), 739_886, 70);
    let plan = catch_up(previous, current);
    assert!(plan.clear_debt);
    assert_eq!(
        plan.sleep,
        Some(SleepReturn {
            began_at: at(5 * SECOND),
            lasted: 7_200 * SECOND,
            now: at(6 * SECOND),
            asleep_weekday: Weekday::Thursday,
            asleep_minute: 1_430,
        })
    );
    let awake = catch_up(previous, mark(1_001, at(6 * SECOND), 739_885, 1_430));
    assert!(!awake.clear_debt);
    assert_eq!(awake.sleep, None);
}

#[test]
fn a_chime_marks_the_bounds_of_a_break() {
    assert_eq!(
        chime_for_transition(CyclePhase::Notice, CyclePhase::Break),
        Some(BREAK_BEGINS_SOUND)
    );
    assert_eq!(
        chime_for_transition(CyclePhase::Break, CyclePhase::Returning),
        Some(BREAK_ENDS_SOUND)
    );
    assert_eq!(
        chime_for_transition(CyclePhase::Working, CyclePhase::Notice),
        None
    );
    assert!(chimes(CyclePhase::Working, CyclePhase::Notice, true));
    assert!(!chimes(CyclePhase::Working, CyclePhase::Notice, false));
    assert!(!chimes(CyclePhase::Break, CyclePhase::Break, true));
}

#[test]
fn the_title_is_set_again_only_when_it_changes() {
    let mut cache = TitleCache::new();
    assert!(cache.refresh("50:00".to_owned()));
    assert!(!cache.refresh("50:00".to_owned()));
    assert!(cache.refresh("49:59".to_owned()));
    assert!(cache.refresh(String::new()));
}
