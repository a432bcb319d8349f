use breeze::domain::{CyclePhase, FreezeReason, Instant, Severity, VeilMode};
use breeze::dto::{to_dto, CycleSnapshot, DayContext, PhaseLengths, Rhythm, SnapshotDto};

const SECOND: u64 = 1_000_000_000;
// The host's notice before a break and hold after it, as the cycle reports them.
const NOTICE: u64 = 60 * SECOND;
const RETURN_HOLD: u64 = 30 * SECOND;
// After this long without input, a working countdown freezes.
const IDLE_FREEZE: u64 = 180 * SECOND;
const EPOCH: Instant = Instant { nanos: 0 };

fn lengths() -> PhaseLengths {
    PhaseLengths {
        notice: NOTICE,
        return_hold: RETURN_HOLD,
    }
}

fn rhythm() -> Rhythm {
    Rhythm {
        work_minutes: 50,
        pause_minutes: 10,
    }
}

fn at(nanos: u64) -> Instant {
    Instant { nanos }
}

fn working(r: Rhythm, severity: Severity, since: Instant) -> CycleSnapshot {
    CycleSnapshot {
        phase: CyclePhase::Working,
        deadline: Some(at(since.nanos + r.work_minutes as u64 * 60 * SECOND)),
        frozen_remaining: None,
        frozen_reason: None,
        veil_mode: None,
        severity,
        chosen_severity: severity,
        rhythm_pending: false,
        served_breaks: 0,
        debt_minutes: 0,
    }
}

fn dto_of(snapshot: CycleSnapshot, now: Instant, active: &Rhythm, configured: &Rhythm) -> SnapshotDto {
    to_dto(snapshot, now, active, configured, lengths(), DayContext::default())
}

#[test]
fn a_fresh_working_cycle_reports_break_after_work_plus_notice() {
    let r = rhythm();
    let dto = dto_of(working(r, Severity::Simple, EPOCH), EPOCH, &r, &r);
    assert_eq!(dto.phase, "Working");
    assert_eq!(dto.total_secs, 50 * 60);
    assert_eq!(dto.break_in_secs, 50 * 60 + NOTICE / SECOND);
    assert_eq!(dto.severity, "Simple");
    assert!(!dto.frozen);
    assert_eq!(dto.frozen_reason, None);
    assert_eq!(dto.veil_mode, None);
    assert_eq!(dto.work_minutes, 50);
    assert_eq!(dto.pause_minutes, 10);
}

#[test]
fn the_reported_severity_is_the_configured_one_even_while_working() {
    let r = rhythm();
    let dto = dto_of(working(r, Severity::Hardcore, EPOCH), EPOCH, &r, &r);
    assert_eq!(dto.severity, "Hardcore");
    assert_eq!(dto.chosen_severity, "Hardcore");
}

#[test]
fn a_pending_return_to_simple_shows_both_severities() {
    let r = rhythm();
    let snapshot = CycleSnapshot {
        chosen_severity: Severity::Simple,
        ..working(r, Severity::Hardcore, EPOCH)
    };
    let dto = dto_of(snapshot, EPOCH, &r, &r);
    assert_eq!(dto.severity, "Hardcore");
    assert_eq!(dto.chosen_severity, "Simple");
}

#[test]
fn the_ring_follows_the_active_rhythm_while_settings_show_the_configured_one() {
    let active = rhythm();
    let configured = Rhythm {
        work_minutes: 25,
        pause_minutes: 5,
    };
    let snapshot = CycleSnapshot {
        rhythm_pending: true,
        ..working(active, Severity::Simple, EPOCH)
    };
    let dto = dto_of(snapshot, EPOCH, &active, &configured);
    assert_eq!(dto.total_secs, 50 * 60);
    assert_eq!(dto.work_minutes, 25);
    assert_eq!(dto.pause_minutes, 5);
    assert!(dto.rhythm_pending);
}

#[test]
fn a_frozen_countdown_reports_its_frozen_remaining_not_zero() {
    let r = rhythm();
    let froze_at = at(IDLE_FREEZE);
    let snapshot = CycleSnapshot {
        deadline: None,
        frozen_remaining: Some(50 * 60 * SECOND - IDLE_FREEZE),
        frozen_reason: Some(FreezeReason::Idle),
        ..working(r, Severity::Simple, EPOCH)
    };
    let much_later = at(froze_at.nanos + 3600 * SECOND);

    let dto = dto_of(snapshot, much_later, &r, &r);

    let expected = (50 * 60 * SECOND - IDLE_FREEZE) / SECOND;
    assert!(dto.frozen);
    assert_eq!(dto.frozen_reason, Some("idle"));
    assert_eq!(dto.remaining_secs, expected);
    assert_eq!(dto.break_in_secs, expected + NOTICE / SECOND);
}

fn in_break(r: Rhythm, severity: Severity, veil_mode: Option<VeilMode>, break_at: Instant) -> CycleSnapshot {
    CycleSnapshot {
        phase: CyclePhase::Break,
        deadline: Some(at(break_at.nanos + r.pause_minutes as u64 * 60 * SECOND)),
        veil_mode,
        ..working(r, severity, EPOCH)
    }
}

#[test]
fn a_simple_break_reports_how_it_is_veiled() {
    let r = rhythm();
    let break_at = at(50 * 60 * SECOND + NOTICE);
    let windows = in_break(r, Severity::Simple, Some(VeilMode::Windows), break_at);
    assert_eq!(dto_of(windows, break_at, &r, &r).veil_mode, Some("windows"));
    let blind = in_break(r, Severity::Simple, Some(VeilMode::FullScreen), break_at);
    assert_eq!(dto_of(blind, break_at, &r, &r).veil_mode, Some("fullscreen"));
}

#[test]
fn a_hardcore_break_has_no_veil_mode() {
    let r = rhythm();
    let break_at = at(50 * 60 * SECOND + NOTICE);
    let dto = dto_of(in_break(r, Severity::Hardcore, None, break_at), break_at, &r, &r);
    assert_eq!(dto.veil_mode, None);
    assert_eq!(dto.phase, "Break");
    assert_eq!(dto.total_secs, 10 * 60);
    assert_eq!(dto.break_in_secs, 0);
}

#[test]
fn the_day_context_is_carried_as_is() {
    let r = rhythm();
    let dto = to_dto(
        working(r, Severity::Simple, EPOCH),
        EPOCH,
        &r,
        &r,
        lengths(),
        DayContext {
            served_today: 4,
            inactive_reason: Some("schedule"),
            next_start_label: Some("demain 9:00".to_owned()),
        },
    );
    assert_eq!(dto.served_today, 4);
    assert_eq!(dto.inactive_reason, Some("schedule"));
    assert_eq!(dto.next_start_label.as_deref(), Some("demain 9:00"));
}

#[test]
fn a_passed_deadline_reports_zero_and_the_notice_counts_its_own_remaining() {
    let r = rhythm();
    let snapshot = CycleSnapshot {
        phase: CyclePhase::Notice,
        deadline: Some(at(10 * SECOND)),
        ..working(r, Severity::Simple, EPOCH)
    };
    let dto = dto_of(snapshot, at(4 * SECOND), &r, &r);
    assert_eq!(dto.remaining_secs, 6);
    assert_eq!(dto.break_in_secs, 6);
    assert_eq!(dto.total_secs, NOTICE / SECOND);
    let late = dto_of(snapshot, at(11 * SECOND), &r, &r);
    assert_eq!(late.remaining_secs, 0);
}

#[test]
fn phases_without_a_countdown_have_no_length() {
    let r = rhythm();
    for phase in [CyclePhase::Inactive, CyclePhase::Suspended] {
        let snapshot = CycleSnapshot {
            phase,
            deadline: None,
            ..working(r, Severity::Simple, EPOCH)
        };
        let dto = dto_of(snapshot, EPOCH, &r, &r);
        assert_eq!(dto.total_secs, 0);
        assert_eq!(dto.remaining_secs, 0);
        assert_eq!(dto.break_in_secs, 0);
    }
    let returning = CycleSnapshot {
        phase: CyclePhase::Returning,
        ..working(r, Severity::Simple, EPOCH)
    };
    assert_eq!(dto_of(returning, EPOCH, &r, &r).total_secs, 30);
    assert_eq!(dto_of(returning, EPOCH, &r, &r).phase, "Returning");
}
