//! What the settings window is told, and the states the host writes when settings change.
use crate::domain::Severity;
use crate::dto::{severity_name, severity_text};
use crate::ports::{PersistedState, PersistenceError};
use vstd::prelude::*;

verus! {

/// The start of the schedule offered when none was ever entered: 9:00.
pub const DEFAULT_START: u16 = 540;

/// The end of the schedule offered when none was ever entered: 18:30.
pub const DEFAULT_END: u16 = 1110;

/// The global shortcut that shows the panel, as the settings window names it.
pub const PANEL_SHORTCUT_LABEL: &'static str = "⌥⌘B";

/// The bounds of a schedule, in minutes since midnight.
#[derive(Clone, Copy, PartialEq, Eq, Debug, Structural)]
pub struct ScheduleBounds {
    pub start: u16,
    pub end: u16,
}

/// A rhythm as it is written: minutes of work and pause, active days, optional schedule.
#[derive(Clone, Copy, PartialEq, Eq, Debug, Structural)]
pub struct RhythmSettings {
    pub work_minutes: u16,
    pub pause_minutes: u16,
    /// The active weekdays, one bit per day.
    pub active_days: u8,
    /// The schedule's bounds in minutes since midnight; none when the schedule is off.
    pub schedule: Option<ScheduleBounds>,
}

/// The settings as the settings window shows them.
#[derive(Clone, PartialEq, Eq, Debug)]
pub struct SettingsDto {
    pub work_minutes: u16,
    pub pause_minutes: u16,
    pub severity: &'static str,
    pub chosen_severity: &'static str,
    pub severity_pending: bool,
    pub active_days: u8,
    pub schedule_enabled: bool,
    pub schedule_start: u16,
    pub schedule_end: u16,
    pub update_check: bool,
    pub launch_at_login: bool,
    pub sounds: bool,
    pub menubar_text: bool,
    pub shortcut: &'static str,
}

/// The schedule bounds to show: the active schedule's; when it is off, the last ones
/// entered, so that turning it back on restores them; the defaults when none was entered
/// or they cannot be read.
pub fn schedule_bounds(active: Option<(u16, u16)>, remembered: Result<Option<(u16, u16)>, PersistenceError>) -> (bounds: (u16, u16))
    ensures
        bounds == (match active {
            Some(range) => range,
            None => match remembered {
                Ok(Some(range)) => range,
                _ => (DEFAULT_START, DEFAULT_END),
            },
        }),
{
    if let Some(range) = active {
        return range;
    }
    match remembered {
        Ok(Some(range)) => range,
        _ => (DEFAULT_START, DEFAULT_END),
    }
}

/// A stored flag's value, or `default` when it was never chosen or cannot be read.
pub fn flag_or(read: Result<Option<bool>, PersistenceError>, default: bool) -> (value: bool)
    ensures
        value == (match read {
            Ok(Some(v)) => v,
            _ => default,
        }),
{
    match read {
        Ok(Some(v)) => v,
        _ => default,
    }
}

/// Whether the update check is on: it is unless the store says otherwise.
pub fn update_check_enabled(read: Result<bool, PersistenceError>) -> (enabled: bool)
    ensures
        enabled == (match read {
            Ok(v) => v,
            Err(_) => true,
        }),
{
    match read {
        Ok(v) => v,
        Err(_) => true,
    }
}

/// Whether the host launches at login: off when the system cannot tell.
pub fn launch_at_login_enabled(read: Result<bool, String>) -> (enabled: bool)
    ensures
        enabled == (match read {
            Ok(v) => v,
            Err(_) => false,
        }),
{
    match read {
        Ok(v) => v,
        Err(_) => false,
    }
}

/// The settings window's view: the configured rhythm, the chosen severity (pending when the
/// cycle in progress runs another), the schedule and its bounds, and the comfort flags.
pub fn settings_dto(
    rhythm: RhythmSettings,
    severity: Severity,
    chosen: Severity,
    bounds: (u16, u16),
    update_check: bool,
    launch_at_login: bool,
    sounds: bool,
    menubar_text: bool,
) -> (dto: SettingsDto)
    ensures
        dto.work_minutes == rhythm.work_minutes,
        dto.pause_minutes == rhythm.pause_minutes,
        dto.severity@ == severity_text(chosen),
        dto.chosen_severity@ == severity_text(chosen),
        dto.severity_pending == (chosen != severity),
        dto.active_days == rhythm.active_days,
        dto.schedule_enabled == rhythm.schedule is Some,
        dto.schedule_start == bounds.0,
        dto.schedule_end == bounds.1,
        dto.update_check == update_check,
        dto.launch_at_login == launch_at_login,
        dto.sounds == sounds,
        dto.menubar_text == menubar_text,
        dto.shortcut == PANEL_SHORTCUT_LABEL,
{
    let chosen_name = severity_name(chosen);
    SettingsDto {
        work_minutes: rhythm.work_minutes,
        pause_minutes: rhythm.pause_minutes,
        severity: chosen_name,
        chosen_severity: chosen_name,
        severity_pending: chosen != severity,
        active_days: rhythm.active_days,
        schedule_enabled: rhythm.schedule.is_some(),
        schedule_start: bounds.0,
        schedule_end: bounds.1,
        update_check,
        launch_at_login,
        sounds,
        menubar_text,
        shortcut: PANEL_SHORTCUT_LABEL,
    }
}

/// `state` with the rhythm replaced by `rhythm`, everything else kept.
pub fn with_rhythm(state: PersistedState, rhythm: RhythmSettings) -> (updated: PersistedState)
    ensures
        updated == (PersistedState {
            work_minutes: rhythm.work_minutes,
            pause_minutes: rhythm.pause_minutes,
            active_days: rhythm.active_days,
            schedule_start: match rhythm.schedule {
                Some(range) => Some(range.start),
                None => None,
            },
            schedule_end: match rhythm.schedule {
                Some(range) => Some(range.end),
                None => None,
            },
            ..state
        }),
{
    PersistedState {
        work_minutes: rhythm.work_minutes,
        pause_minutes: rhythm.pause_minutes,
        active_days: rhythm.active_days,
        schedule_start: match rhythm.schedule {
            Some(range) => Some(range.start),
            None => None,
        },
        schedule_end: match rhythm.schedule {
            Some(range) => Some(range.end),
            None => None,
        },
        ..state
    }
}

/// The state as it is written: the configured rhythm and the chosen severity, the counter
/// of served breaks, and the posture debt (capped at the top of `u32` seconds) dated by the
/// wall clock.
pub fn persisted_state(
    rhythm: RhythmSettings,
    chosen: Severity,
    served_breaks: u32,
    debt_seconds: u64,
    recorded_at_unix: u64,
) -> (state: PersistedState)
    ensures
        state.work_minutes == rhythm.work_minutes,
        state.pause_minutes == rhythm.pause_minutes,
        state.severity == chosen,
        state.served_breaks == served_breaks,
        state.debt_seconds == (if debt_seconds <= u32::MAX { debt_seconds as u32 } else { u32::MAX }),
        state.debt_recorded_at_unix == recorded_at_unix,
        state.active_days == rhythm.active_days,
        state.schedule_start == (match rhythm.schedule {
            Some(range) => Some(range.start),
            None => None,
        }),
        state.schedule_end == (match rhythm.schedule {
            Some(range) => Some(range.end),
            None => None,
        }),
{
    let debt: u32 = if debt_seconds <= u32::MAX as u64 {
        debt_seconds as u32
    } else {
        u32::MAX
    };
    let base = PersistedState {
        work_minutes: 0,
        pause_minutes: 0,
        severity: chosen,
        served_breaks,
        debt_seconds: debt,
        debt_recorded_at_unix: recorded_at_unix,
        active_days: 0,
        schedule_start: None,
        schedule_end: None,
    };
    with_rhythm(base, rhythm)
}

/// The factory state written by a reset: the current counters and debt, the default rhythm
/// and the Simple severity.
pub fn factory_state(current: PersistedState, default_rhythm: RhythmSettings) -> (factory: PersistedState)
    ensures
        factory == with_rhythm_spec(PersistedState { severity: Severity::Simple, ..current }, default_rhythm),
{
    with_rhythm(PersistedState { severity: Severity::Simple, ..current }, default_rhythm)
}

/// `state` with the rhythm replaced by `rhythm`.
pub open spec fn with_rhythm_spec(state: PersistedState, rhythm: RhythmSettings) -> PersistedState {
    PersistedState {
        work_minutes: rhythm.work_minutes,
        pause_minutes: rhythm.pause_minutes,
        active_days: rhythm.active_days,
        schedule_start: match rhythm.schedule {
            Some(range) => Some(range.start),
            None => None,
        },
        schedule_end: match rhythm.schedule {
            Some(range) => Some(range.end),
            None => None,
        },
        ..state
    }
}

/// The schedule a `set_schedule` asks for: off when disabled; on with the bounds when they
/// form a valid range (`bounds` holds the range when it is valid); refused with
/// `invalid-schedule` when enabled on invalid bounds.
pub fn schedule_choice(enabled: bool, bounds: Option<ScheduleBounds>) -> (schedule: Result<Option<ScheduleBounds>, String>)
    ensures
        match schedule {
            Ok(s) => s == (if enabled { bounds } else { None }) && (enabled ==> bounds is Some),
            Err(e) => enabled && bounds is None && e@ == "invalid-schedule"@,
        },
{
    if enabled {
        match bounds {
            Some(range) => Ok(Some(range)),
            None => Err(String::from_str("invalid-schedule")),
        }
    } else {
        Ok(None)
    }
}

} // verus!
