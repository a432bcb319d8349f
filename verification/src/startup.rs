//! What the host restores at launch from the stored state.
use crate::calendar::LocalDate;
use crate::domain::Severity;
use crate::ports::PersistedState;
use crate::settings::{RhythmSettings, ScheduleBounds};
use vstd::prelude::*;

verus! {

/// The default work length, in minutes.
pub const DEFAULT_WORK: u16 = 50;

/// The default pause length, in minutes.
pub const DEFAULT_PAUSE: u16 = 10;

/// The posture debt to restore, in seconds: it fades at local midnight, so a debt recorded on
/// another local day than `today` (or on a day that cannot be told) does not come back.
pub fn debt_of(saved: &PersistedState, recorded_on: Option<LocalDate>, today: LocalDate) -> (debt: Option<u64>)
    ensures
        debt == (if recorded_on == Some(today) { Some(saved.debt_seconds as u64) } else { None }),
{
    match recorded_on {
        Some(day) => if day == today {
            Some(saved.debt_seconds as u64)
        } else {
            None
        },
        None => None,
    }
}

/// What a stored state asks the cycle to start with; the cycle itself decides whether the
/// rhythm is acceptable.
#[derive(Clone, Copy, PartialEq, Eq, Debug, Structural)]
pub struct RestorePlan {
    /// The stored rhythm, schedule included only when both bounds were stored.
    pub rhythm: RhythmSettings,
    pub severity: Severity,
    /// The posture debt to restore, in seconds; none when it faded.
    pub debt: Option<u64>,
}

/// The launch plan: nothing stored means the defaults (default rhythm, Simple, no debt);
/// otherwise the stored rhythm and severity, and the debt of today only.
pub fn restore_plan(saved: Option<PersistedState>, recorded_on: Option<LocalDate>, today: LocalDate) -> (plan: Option<RestorePlan>)
    ensures
        match saved {
            None => plan is None,
            Some(s) => plan == Some(RestorePlan {
                rhythm: RhythmSettings {
                    work_minutes: s.work_minutes,
                    pause_minutes: s.pause_minutes,
                    active_days: s.active_days,
                    schedule: match (s.schedule_start, s.schedule_end) {
                        (Some(start), Some(end)) => Some(ScheduleBounds { start, end }),
                        _ => None,
                    },
                },
                severity: s.severity,
                debt: if recorded_on == Some(today) { Some(s.debt_seconds as u64) } else { None },
            }),
        },
{
    match saved {
        None => None,
        Some(s) => {
            let schedule = match (s.schedule_start, s.schedule_end) {
                (Some(start), Some(end)) => Some(ScheduleBounds { start, end }),
                _ => None,
            };
            Some(RestorePlan {
                rhythm: RhythmSettings {
                    work_minutes: s.work_minutes,
                    pause_minutes: s.pause_minutes,
                    active_days: s.active_days,
                    schedule,
                },
                severity: s.severity,
                debt: debt_of(&s, recorded_on, today),
            })
        },
    }
}

/// Whether onboarding was completed: it counts as done when the store cannot tell, so that a
/// failing store never reopens it.
pub fn onboarding_done(read: Result<bool, crate::ports::PersistenceError>) -> (done: bool)
    ensures
        done == (match read {
            Ok(v) => v,
            Err(_) => true,
        }),
{
    match read {
        Ok(v) => v,
        Err(_) => true,
    }
}

} // verus!
