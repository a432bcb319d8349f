//! The decisions of the cycle commands: parsing what the UI sends, naming refusals, and the
//! day context of the panel.
use crate::domain::{CommandError, CyclePhase, NextStart, OffHours, Severity, MINUTES_PER_DAY, SECONDS_PER_MINUTE};
use crate::dto::DayContext;
use crate::local_time::{next_start_label, next_start_text};
use crate::text::same_text;
use vstd::prelude::*;

verus! {

pub open spec fn reason_text(off_hours: OffHours) -> Seq<char> {
    match off_hours {
        OffHours::InactiveDay => "day"@,
        OffHours::OutsideSchedule => "schedule"@,
    }
}

pub open spec fn refusal_text(error: CommandError) -> Seq<char> {
    match error {
        CommandError::BreakDue => "break-due"@,
        CommandError::NotSuspendable => "not-suspendable"@,
        CommandError::NotSuspended => "not-suspended"@,
        CommandError::NotInterruptible => "not-interruptible"@,
        CommandError::LockedApp => "locked-app"@,
    }
}

/// The severity the UI names, `Simple` or `Hardcore`; none for any other name.
pub fn parse_severity(name: &str) -> (severity: Option<Severity>)
    ensures
        severity == (if name@ == "Simple"@ {
            Some(Severity::Simple)
        } else if name@ == "Hardcore"@ {
            Some(Severity::Hardcore)
        } else {
            None
        }),
{
    if same_text(name, "Simple") {
        Some(Severity::Simple)
    } else if same_text(name, "Hardcore") {
        Some(Severity::Hardcore)
    } else {
        None
    }
}

/// Why the cycle rests, as the panel names it: `day` or `schedule`.
pub fn reason_name(off_hours: OffHours) -> (name: &'static str)
    ensures
        name@ == reason_text(off_hours),
{
    match off_hours {
        OffHours::InactiveDay => "day",
        OffHours::OutsideSchedule => "schedule",
    }
}

/// The answer a command gives when the cycle refuses it.
pub fn refusal(error: CommandError) -> (answer: String)
    ensures
        answer@ == refusal_text(error),
{
    let text = match error {
        CommandError::BreakDue => "break-due",
        CommandError::NotSuspendable => "not-suspendable",
        CommandError::NotSuspended => "not-suspended",
        CommandError::NotInterruptible => "not-interruptible",
        CommandError::LockedApp => "locked-app",
    };
    String::from_str(text)
}

/// What the panel is told of the day: the breaks served today always; while the cycle is
/// inactive, why (if it rests for a reason) and, then only, when it starts again.
pub fn day_context(served_today: u32, phase: CyclePhase, off_hours: Option<OffHours>, next_start: NextStart) -> (day: DayContext)
    ensures
        day.served_today == served_today,
        phase != CyclePhase::Inactive ==> day.inactive_reason is None && day.next_start_label is None,
        phase == CyclePhase::Inactive ==> {
            &&& (match off_hours {
                Some(reason) => day.inactive_reason matches Some(name) && name@ == reason_text(reason),
                None => day.inactive_reason is None,
            })
            &&& (match off_hours {
                Some(_) => day.next_start_label matches Some(label) && label@ == next_start_text(next_start),
                None => day.next_start_label is None,
            })
        },
{
    if phase != CyclePhase::Inactive {
        return DayContext { served_today, inactive_reason: None, next_start_label: None };
    }
    match off_hours {
        Some(reason) => DayContext {
            served_today,
            inactive_reason: Some(reason_name(reason)),
            next_start_label: Some(next_start_label(next_start)),
        },
        None => DayContext { served_today, inactive_reason: None, next_start_label: None },
    }
}

/// How long a suspension of `minutes` lasts, in seconds: the request is brought within one
/// minute and one day.
pub fn suspension_seconds(minutes: u64) -> (secs: u64)
    ensures
        secs == (if minutes < 1 { 1 } else if minutes > MINUTES_PER_DAY { MINUTES_PER_DAY } else { minutes }) * SECONDS_PER_MINUTE,
{
    let capped: u64 = if minutes < 1 {
        1
    } else if minutes > MINUTES_PER_DAY {
        MINUTES_PER_DAY
    } else {
        minutes
    };
    capped * SECONDS_PER_MINUTE
}

} // verus!
