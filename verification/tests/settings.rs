use breeze::domain::Severity;
use breeze::ports::{PersistedState, PersistenceError};
use breeze::settings::{
    factory_state, flag_or, launch_at_login_enabled, persisted_state, schedule_bounds,
    schedule_choice, settings_dto, update_check_enabled, with_rhythm, RhythmSettings,
    ScheduleBounds, DEFAULT_END, DEFAULT_START,
};

fn failure() -> PersistenceError {
    PersistenceError("disk full".to_owned())
}

fn rhythm(schedule: Option<ScheduleBounds>) -> RhythmSettings {
    RhythmSettings {
        work_minutes: 25,
        pause_minutes: 5,
        active_days: 0b0001_1111,
        schedule,
    }
}

#[test]
fn a_schedule_turned_off_shows_the_bounds_last_entered() {
    assert_eq!(schedule_bounds(Some((480, 1020)), Ok(Some((1, 2)))), (480, 1020));
    assert_eq!(schedule_bounds(None, Ok(Some((600, 900)))), (600, 900));
    assert_eq!(schedule_bounds(None, Ok(None)), (DEFAULT_START, DEFAULT_END));
    assert_eq!(schedule_bounds(None, Err(failure())), (9 * 60, 18 * 60 + 30));
}

#[test]
fn flags_fall_back_to_their_default() {
    assert!(flag_or(Ok(None), true));
    assert!(!flag_or(Ok(Some(false)), true));
    assert!(flag_or(Err(failure()), true));
    assert!(update_check_enabled(Err(failure())));
    assert!(!update_check_enabled(Ok(false)));
    assert!(!launch_at_login_enabled(Err("no agent".to_owned())));
    assert!(launch_at_login_enabled(Ok(true)));
}

#[test]
fn the_settings_show_the_chosen_severity_and_whether_it_waits() {
    let dto = settings_dto(
        rhythm(None),
        Severity::Hardcore,
        Severity::Simple,
        (540, 1110),
        true,
        false,
        true,
        false,
    );
    assert_eq!(dto.severity, "Simple");
    assert_eq!(dto.chosen_severity, "Simple");
    assert!(dto.severity_pending);
    assert!(!dto.schedule_enabled);
    assert_eq!((dto.schedule_start, dto.schedule_end), (540, 1110));
    assert_eq!(dto.work_minutes, 25);
    assert_eq!(dto.active_days, 0b0001_1111);
    assert_eq!(dto.shortcut, "⌥⌘B");
    assert!(dto.update_check && !dto.launch_at_login && dto.sounds && !dto.menubar_text);
}

#[test]
fn the_written_state_caps_the_debt_and_keeps_the_schedule() {
    let state = persisted_state(
        rhythm(Some(ScheduleBounds { start: 540, end: 1110 })),
        Severity::Hardcore,
        12,
        u64::MAX,
        1_790_424_000,
    );
    assert_eq!(state.debt_seconds, u32::MAX);
    assert_eq!(state.schedule_start, Some(540));
    assert_eq!(state.schedule_end, Some(1110));
    assert_eq!(state.severity, Severity::Hardcore);
    assert_eq!(state.served_breaks, 12);
    assert_eq!(persisted_state(rhythm(None), Severity::Simple, 0, 480, 0).debt_seconds, 480);
}

#[test]
fn a_reset_writes_the_default_rhythm_and_simple_but_keeps_the_counters() {
    let current = PersistedState {
        work_minutes: 25,
        pause_minutes: 5,
        severity: Severity::Hardcore,
        served_breaks: 7,
        debt_seconds: 300,
        debt_recorded_at_unix: 42,
        active_days: 1,
        schedule_start: Some(600),
        schedule_end: Some(700),
    };
    let default = RhythmSettings {
        work_minutes: 50,
        pause_minutes: 10,
        active_days: 0b0111_1111,
        schedule: None,
    };
    let factory = factory_state(current, default);
    assert_eq!(factory.severity, Severity::Simple);
    assert_eq!((factory.work_minutes, factory.pause_minutes), (50, 10));
    assert_eq!(factory.schedule_start, None);
    assert_eq!(factory.schedule_end, None);
    assert_eq!(factory.served_breaks, 7);
    assert_eq!(factory.debt_seconds, 300);
    assert_eq!(with_rhythm(current, default).severity, Severity::Hardcore);
}

#[test]
fn an_enabled_schedule_needs_valid_bounds() {
    let bounds = ScheduleBounds { start: 540, end: 1110 };
    assert_eq!(schedule_choice(true, Some(bounds)), Ok(Some(bounds)));
    assert_eq!(schedule_choice(false, Some(bounds)), Ok(None));
    assert_eq!(schedule_choice(false, None), Ok(None));
    assert_eq!(schedule_choice(true, None), Err("invalid-schedule".to_owned()));
}
