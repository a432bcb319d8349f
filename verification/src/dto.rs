//! What the panel and the break surfaces are told of the cycle.
use crate::domain::{CyclePhase, FreezeReason, Instant, Severity, VeilMode, NANOS_PER_SECOND};
use vstd::prelude::*;

verus! {

/// A reading of the cycle, as the scheduler reports it.
#[derive(Clone, Copy, PartialEq, Eq, Debug, Structural)]
pub struct CycleSnapshot {
    pub phase: CyclePhase,
    /// When the running countdown ends; none when it stands still or there is none.
    pub deadline: Option<Instant>,
    /// What a frozen countdown has left, in nanoseconds.
    pub frozen_remaining: Option<u64>,
    pub frozen_reason: Option<FreezeReason>,
    pub veil_mode: Option<VeilMode>,
    /// The severity of the cycle in progress.
    pub severity: Severity,
    /// The severity the user chose, which the next cycle takes.
    pub chosen_severity: Severity,
    pub rhythm_pending: bool,
    pub served_breaks: u32,
    pub debt_minutes: u16,
}

/// A rhythm as the host reads it: minutes of work, then minutes of pause.
#[derive(Clone, Copy, PartialEq, Eq, Debug, Structural)]
pub struct Rhythm {
    pub work_minutes: u16,
    pub pause_minutes: u16,
}

/// The fixed lengths of the phases that do not follow the rhythm, in nanoseconds.
#[derive(Clone, Copy, PartialEq, Eq, Debug, Structural)]
pub struct PhaseLengths {
    /// How long the notice before a break lasts.
    pub notice: u64,
    /// How long the return after a break is held.
    pub return_hold: u64,
}

/// What the cycle's snapshot does not know: the journal and the local calendar.
#[derive(Clone, PartialEq, Eq, Debug, Default)]
pub struct DayContext {
    pub served_today: u32,
    pub inactive_reason: Option<&'static str>,
    pub next_start_label: Option<String>,
}

/// The cycle as the panel shows it.
#[derive(Clone, PartialEq, Eq, Debug)]
pub struct SnapshotDto {
    pub phase: String,
    pub remaining_secs: u64,
    pub total_secs: u64,
    pub break_in_secs: u64,
    pub frozen: bool,
    /// Why the countdown stands still: `idle` or `ignored_app`; none while it runs.
    pub frozen_reason: Option<&'static str>,
    /// How a Simple break is held: `windows` or `fullscreen`; none outside a Simple break.
    pub veil_mode: Option<&'static str>,
    pub severity: String,
    pub chosen_severity: String,
    pub rhythm_pending: bool,
    pub served_breaks: u32,
    pub served_today: u32,
    pub work_minutes: u16,
    pub pause_minutes: u16,
    pub debt_minutes: u16,
    pub inactive_reason: Option<&'static str>,
    pub next_start_label: Option<String>,
}

/// The text of an optional string slice.
pub open spec fn text_of(s: Option<&'static str>) -> Option<Seq<char>> {
    match s {
        Some(t) => Some(t@),
        None => None,
    }
}

pub open spec fn phase_text(phase: CyclePhase) -> Seq<char> {
    match phase {
        CyclePhase::Inactive => "Inactive"@,
        CyclePhase::Working => "Working"@,
        CyclePhase::Notice => "Notice"@,
        CyclePhase::Break => "Break"@,
        CyclePhase::Returning => "Returning"@,
        CyclePhase::Suspended => "Suspended"@,
    }
}

/// The panel tells every phase apart, each by its own name: two phases with the same name
/// are the same phase, and a phase is named `Working`, `Notice`, `Break` and so on exactly
/// when it is that phase; the notice before a break is never named `Working`.
pub proof fn each_phase_has_its_own_name(a: CyclePhase, b: CyclePhase)
    ensures
        phase_text(a) == phase_text(b) ==> a == b,
        phase_text(CyclePhase::Notice) != phase_text(CyclePhase::Working),
        (phase_text(a) == "Inactive"@) == (a == CyclePhase::Inactive),
        (phase_text(a) == "Working"@) == (a == CyclePhase::Working),
        (phase_text(a) == "Notice"@) == (a == CyclePhase::Notice),
        (phase_text(a) == "Break"@) == (a == CyclePhase::Break),
        (phase_text(a) == "Returning"@) == (a == CyclePhase::Returning),
        (phase_text(a) == "Suspended"@) == (a == CyclePhase::Suspended),
{
    lemma_phase_names_differ(a, b);
    lemma_phase_names_differ(CyclePhase::Notice, CyclePhase::Working);
    lemma_phase_names_differ(a, CyclePhase::Inactive);
    lemma_phase_names_differ(a, CyclePhase::Working);
    lemma_phase_names_differ(a, CyclePhase::Notice);
    lemma_phase_names_differ(a, CyclePhase::Break);
    lemma_phase_names_differ(a, CyclePhase::Returning);
    lemma_phase_names_differ(a, CyclePhase::Suspended);
}

proof fn lemma_phase_names_differ(a: CyclePhase, b: CyclePhase)
    ensures
        phase_text(a) == phase_text(b) ==> a == b,
        phase_text(b) == (match b {
            CyclePhase::Inactive => "Inactive"@,
            CyclePhase::Working => "Working"@,
            CyclePhase::Notice => "Notice"@,
            CyclePhase::Break => "Break"@,
            CyclePhase::Returning => "Returning"@,
            CyclePhase::Suspended => "Suspended"@,
        }),
{
    reveal_strlit("Inactive");
    reveal_strlit("Working");
    reveal_strlit("Notice");
    reveal_strlit("Break");
    reveal_strlit("Returning");
    reveal_strlit("Suspended");
    assert(phase_text(CyclePhase::Returning)[0] != phase_text(CyclePhase::Suspended)[0]);
    if phase_text(a) == phase_text(b) && a != b {
        assert(phase_text(a).len() == phase_text(b).len());
        assert(phase_text(a)[0] == phase_text(b)[0]);
    }
}

pub open spec fn freeze_reason_text(reason: FreezeReason) -> Seq<char> {
    match reason {
        FreezeReason::Idle => "idle"@,
        FreezeReason::IgnoredApp => "ignored_app"@,
    }
}

pub open spec fn veil_mode_text(mode: VeilMode) -> Seq<char> {
    match mode {
        VeilMode::Windows => "windows"@,
        VeilMode::FullScreen => "fullscreen"@,
    }
}

pub open spec fn severity_text(severity: Severity) -> Seq<char> {
    match severity {
        Severity::Simple => "Simple"@,
        Severity::Hardcore => "Hardcore"@,
    }
}

/// The full length of a phase, in nanoseconds: the rhythm's work or pause, the fixed notice
/// or return, nothing for the phases without a countdown.
pub open spec fn phase_length(phase: CyclePhase, rhythm: Rhythm, lengths: PhaseLengths) -> nat {
    match phase {
        CyclePhase::Working => rhythm.work_minutes as nat * 60 * NANOS_PER_SECOND as nat,
        CyclePhase::Notice => lengths.notice as nat,
        CyclePhase::Break => rhythm.pause_minutes as nat * 60 * NANOS_PER_SECOND as nat,
        CyclePhase::Returning => lengths.return_hold as nat,
        CyclePhase::Inactive | CyclePhase::Suspended => 0,
    }
}

/// What the countdown has left, in nanoseconds: until its deadline if it runs, its frozen
/// remainder if it stands still, nothing otherwise.
pub open spec fn remaining(snapshot: CycleSnapshot, now: Instant) -> nat {
    match snapshot.deadline {
        Some(deadline) => if deadline.nanos >= now.nanos { (deadline.nanos - now.nanos) as nat } else { 0 },
        None => match snapshot.frozen_remaining {
            Some(frozen) => frozen as nat,
            None => 0,
        },
    }
}

/// Seconds until the next break: the countdown plus the notice while working, the countdown
/// during the notice, zero otherwise (saturating at the top of `u64`).
pub open spec fn break_in(phase: CyclePhase, remaining_secs: nat, notice_secs: nat) -> nat {
    match phase {
        CyclePhase::Working => if remaining_secs + notice_secs <= u64::MAX { remaining_secs + notice_secs } else { u64::MAX as nat },
        CyclePhase::Notice => remaining_secs,
        _ => 0,
    }
}

pub fn phase_name(phase: CyclePhase) -> (name: &'static str)
    ensures
        name@ == phase_text(phase),
{
    match phase {
        CyclePhase::Inactive => "Inactive",
        CyclePhase::Working => "Working",
        CyclePhase::Notice => "Notice",
        CyclePhase::Break => "Break",
        CyclePhase::Returning => "Returning",
        CyclePhase::Suspended => "Suspended",
    }
}

pub fn freeze_reason_name(reason: FreezeReason) -> (name: &'static str)
    ensures
        name@ == freeze_reason_text(reason),
{
    match reason {
        FreezeReason::Idle => "idle",
        FreezeReason::IgnoredApp => "ignored_app",
    }
}

pub fn veil_mode_name(mode: VeilMode) -> (name: &'static str)
    ensures
        name@ == veil_mode_text(mode),
{
    match mode {
        VeilMode::Windows => "windows",
        VeilMode::FullScreen => "fullscreen",
    }
}

pub fn severity_name(severity: Severity) -> (name: &'static str)
    ensures
        name@ == severity_text(severity),
{
    match severity {
        Severity::Simple => "Simple",
        Severity::Hardcore => "Hardcore",
    }
}

/// The full length of `phase`, in nanoseconds.
pub fn phase_total(phase: CyclePhase, rhythm: Rhythm, lengths: PhaseLengths) -> (total: u64)
    ensures
        total == phase_length(phase, rhythm, lengths),
{
    match phase {
        CyclePhase::Working => rhythm.work_minutes as u64 * 60 * NANOS_PER_SECOND,
        CyclePhase::Notice => lengths.notice,
        CyclePhase::Break => rhythm.pause_minutes as u64 * 60 * NANOS_PER_SECOND,
        CyclePhase::Returning => lengths.return_hold,
        CyclePhase::Inactive | CyclePhase::Suspended => 0,
    }
}

/// Seconds until the next break.
pub fn seconds_until_break(phase: CyclePhase, remaining_secs: u64, notice_secs: u64) -> (secs: u64)
    ensures
        secs == break_in(phase, remaining_secs as nat, notice_secs as nat),
{
    match phase {
        CyclePhase::Working => remaining_secs.saturating_add(notice_secs),
        CyclePhase::Notice => remaining_secs,
        _ => 0,
    }
}

/// What the countdown has left at `now`, in nanoseconds: a frozen countdown reports its
/// frozen remainder, never zero.
pub fn remaining_of(snapshot: &CycleSnapshot, now: Instant) -> (left: u64)
    ensures
        left == remaining(*snapshot, now),
{
    match (snapshot.deadline, snapshot.frozen_remaining) {
        (Some(deadline), _) => deadline.elapsed_since(now),
        (None, Some(frozen)) => frozen,
        (None, None) => 0,
    }
}

/// The panel's view of the cycle at `now`. The ring follows the `active` rhythm; the
/// settings show the `configured` one; the day context is carried as is.
pub fn to_dto(
    snapshot: CycleSnapshot,
    now: Instant,
    active: &Rhythm,
    configured: &Rhythm,
    lengths: PhaseLengths,
    day: DayContext,
) -> (dto: SnapshotDto)
    ensures
        dto.phase@ == phase_text(snapshot.phase),
        dto.remaining_secs == remaining(snapshot, now) / NANOS_PER_SECOND as nat,
        dto.total_secs == phase_length(snapshot.phase, *active, lengths) / NANOS_PER_SECOND as nat,
        dto.break_in_secs == break_in(
            snapshot.phase,
            remaining(snapshot, now) / NANOS_PER_SECOND as nat,
            lengths.notice as nat / NANOS_PER_SECOND as nat,
        ),
        dto.frozen == snapshot.frozen_remaining is Some,
        text_of(dto.frozen_reason) == (match snapshot.frozen_reason {
            Some(reason) => Some(freeze_reason_text(reason)),
            None => None,
        }),
        text_of(dto.veil_mode) == (match snapshot.veil_mode {
            Some(mode) => Some(veil_mode_text(mode)),
            None => None,
        }),
        dto.severity@ == severity_text(snapshot.severity),
        dto.chosen_severity@ == severity_text(snapshot.chosen_severity),
        dto.rhythm_pending == snapshot.rhythm_pending,
        dto.served_breaks == snapshot.served_breaks,
        dto.served_today == day.served_today,
        dto.work_minutes == configured.work_minutes,
        dto.pause_minutes == configured.pause_minutes,
        dto.debt_minutes == snapshot.debt_minutes,
        dto.inactive_reason == day.inactive_reason,
        dto.next_start_label == day.next_start_label,
{
    let remaining_secs: u64 = remaining_of(&snapshot, now) / NANOS_PER_SECOND;
    let frozen_reason = match snapshot.frozen_reason {
        Some(reason) => Some(freeze_reason_name(reason)),
        None => None,
    };
    let veil_mode = match snapshot.veil_mode {
        Some(mode) => Some(veil_mode_name(mode)),
        None => None,
    };
    SnapshotDto {
        phase: String::from_str(phase_name(snapshot.phase)),
        remaining_secs,
        total_secs: phase_total(snapshot.phase, *active, lengths) / NANOS_PER_SECOND,
        break_in_secs: seconds_until_break(snapshot.phase, remaining_secs, lengths.notice / NANOS_PER_SECOND),
        frozen: snapshot.frozen_remaining.is_some(),
        frozen_reason,
        veil_mode,
        severity: String::from_str(severity_name(snapshot.severity)),
        chosen_severity: String::from_str(severity_name(snapshot.chosen_severity)),
        rhythm_pending: snapshot.rhythm_pending,
        served_breaks: snapshot.served_breaks,
        served_today: day.served_today,
        work_minutes: configured.work_minutes,
        pause_minutes: configured.pause_minutes,
        debt_minutes: snapshot.debt_minutes,
        inactive_reason: day.inactive_reason,
        next_start_label: day.next_start_label,
    }
}

} // verus!
