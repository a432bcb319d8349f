//! The decisions of the ticker: the menu-bar title, sleeps detected between two ticks, what
//! crossing midnight or waking up asks of the cycle, and when to chime.
use crate::calendar::LocalNow;
use crate::domain::{CyclePhase, Instant, WallClock, Weekday, NANOS_PER_SECOND, SECONDS_PER_MINUTE};
use crate::dto::{remaining, remaining_of, CycleSnapshot};
use crate::local_time::{clock_text, lemma_clock_text_reads_back};
use crate::text::{decimal, digits_value, is_digit, push_decimal, push_two_digits, two_digits};
use vstd::prelude::*;

verus! {

/// When the wall clock runs ahead of the monotonic one by more than this between two ticks
/// (nanoseconds, one minute), the machine slept: the monotonic clock does not count sleep.
pub const SLEEP_THRESHOLD: u64 = 60 * NANOS_PER_SECOND;

/// The sound of a break beginning.
pub const BREAK_BEGINS_SOUND: &'static str = "/System/Library/Sounds/Glass.aiff";

/// The sound of a break ending.
pub const BREAK_ENDS_SOUND: &'static str = "/System/Library/Sounds/Ping.aiff";

/// Whether `phase` shows a countdown in the menu bar.
pub open spec fn counts_down(phase: CyclePhase) -> bool {
    phase == CyclePhase::Working || phase == CyclePhase::Notice || phase == CyclePhase::Break
}

/// `M:SS` for a number of seconds: the minutes unpadded, the seconds on two digits.
pub open spec fn countdown_text(secs: nat) -> Seq<char> {
    decimal(secs / 60) + seq![':'] + two_digits(secs % 60)
}

/// The menu-bar title: the countdown of the phases that have one, when the countdown is
/// shown; nothing otherwise (neither outside active hours nor while suspended).
pub open spec fn title_text(snapshot: CycleSnapshot, now: Instant, show_countdown: bool) -> Seq<char> {
    if show_countdown && counts_down(snapshot.phase) {
        countdown_text(remaining(snapshot, now) / NANOS_PER_SECOND as nat)
    } else {
        Seq::empty()
    }
}

/// The wall time slept between two readings, if the wall clock ran ahead of the monotonic
/// clock by more than the threshold; a wall clock set back is never a sleep.
pub open spec fn slept(previous_wall: WallClock, previous: Instant, wall: WallClock, now: Instant) -> Option<nat> {
    let wall_elapsed: nat = if wall.nanos >= previous_wall.nanos { (wall.nanos - previous_wall.nanos) as nat } else { 0 };
    let awake: nat = if now.nanos >= previous.nanos { (now.nanos - previous.nanos) as nat } else { 0 };
    let allowance: nat = if awake + SLEEP_THRESHOLD as nat <= u64::MAX as nat { awake + SLEEP_THRESHOLD as nat } else { u64::MAX as nat };
    if wall_elapsed > allowance { Some(wall_elapsed) } else { None }
}

/// The menu-bar title at `now`.
pub fn tray_title(snapshot: &CycleSnapshot, now: Instant, show_countdown: bool) -> (title: String)
    ensures
        title@ == title_text(*snapshot, now, show_countdown),
{
    let phase = snapshot.phase;
    let counts = phase == CyclePhase::Working || phase == CyclePhase::Notice || phase == CyclePhase::Break;
    if !show_countdown || !counts {
        return String::new();
    }
    let secs: u64 = remaining_of(snapshot, now) / NANOS_PER_SECOND;
    let mut title = String::new();
    push_decimal(&mut title, secs / SECONDS_PER_MINUTE);
    title.append(":");
    proof {
        reveal_strlit(":");
    }
    push_two_digits(&mut title, secs % SECONDS_PER_MINUTE);
    title
}

/// The menu bar counts down while working, during the notice before a break and during the
/// break: with the countdown on, the title of those phases is minutes, a colon and two digits
/// of seconds below sixty, which read back as the whole seconds remaining. Every other phase,
/// and every phase with the countdown off, shows an empty title.
pub proof fn working_notice_and_break_count_down(snapshot: CycleSnapshot, now: Instant, show_countdown: bool)
    ensures
        ({
            let t = title_text(snapshot, now, show_countdown);
            let phase = snapshot.phase;
            let counting = show_countdown && (phase == CyclePhase::Working || phase == CyclePhase::Notice
                || phase == CyclePhase::Break);
            let colon = t.len() - 3;
            &&& counting ==> {
                &&& colon >= 1
                &&& t[colon] == ':'
                &&& forall|j: int| 0 <= j < colon ==> is_digit(#[trigger] t[j])
                &&& is_digit(t[colon + 1]) && is_digit(t[colon + 2])
                &&& digits_value(t.subrange(colon + 1, t.len() as int)) < 60
                &&& digits_value(t.take(colon)) * 60 + digits_value(t.subrange(colon + 1, t.len() as int))
                    == remaining(snapshot, now) / 1_000_000_000
            }
            &&& !counting ==> t.len() == 0
        }),
{
    let secs = remaining(snapshot, now) / NANOS_PER_SECOND as nat;
    lemma_clock_text_reads_back(secs);
    assert(countdown_text(secs) =~= clock_text(secs));
}

/// The wall time slept between two readings, in nanoseconds, if the machine slept.
pub fn slept_between(previous_wall: WallClock, previous: Instant, wall: WallClock, now: Instant) -> (lasted: Option<u64>)
    ensures
        match lasted {
            Some(l) => slept(previous_wall, previous, wall, now) == Some(l as nat),
            None => slept(previous_wall, previous, wall, now) is None,
        },
{
    let wall_elapsed: u64 = wall.saturating_duration_since(previous_wall);
    let awake_elapsed: u64 = now.elapsed_since(previous);
    if wall_elapsed > awake_elapsed.saturating_add(SLEEP_THRESHOLD) {
        Some(wall_elapsed)
    } else {
        None
    }
}

/// A wall clock set back, or standing still, never means the machine slept.
pub proof fn a_wall_clock_set_back_is_never_a_sleep(previous_wall: WallClock, previous: Instant, wall: WallClock, now: Instant)
    requires
        wall.nanos <= previous_wall.nanos,
    ensures
        slept(previous_wall, previous, wall, now) is None,
{
}

/// A sleep is reported exactly when the wall clock went forward by more than the monotonic
/// clock plus one minute (the monotonic time counted as nothing if it went back), and the
/// sleep reported lasts the whole wall time that went by.
pub proof fn a_sleep_is_a_wall_clock_a_minute_ahead(previous_wall: WallClock, previous: Instant, wall: WallClock, now: Instant)
    ensures
        ({
            let awake: int = if now.nanos >= previous.nanos { now.nanos - previous.nanos } else { 0 };
            let ahead = wall.nanos > previous_wall.nanos && wall.nanos - previous_wall.nanos > awake
                + 60_000_000_000;
            &&& ahead ==> slept(previous_wall, previous, wall, now) == Some((wall.nanos - previous_wall.nanos) as nat)
            &&& !ahead ==> slept(previous_wall, previous, wall, now) is None
        }),
{
}

/// One reading of a tick: both clocks and the local calendar, read together.
#[derive(Clone, Copy, PartialEq, Eq, Debug, Structural)]
pub struct TickMark {
    pub wall: WallClock,
    pub monotonic: Instant,
    pub local: LocalNow,
}

/// The return from a sleep, as the scheduler is told of it.
#[derive(Clone, Copy, PartialEq, Eq, Debug, Structural)]
pub struct SleepReturn {
    /// When the absence began: the previous reading of the monotonic clock.
    pub began_at: Instant,
    /// How long the absence lasted, in wall nanoseconds.
    pub lasted: u64,
    /// The monotonic reading on waking.
    pub now: Instant,
    /// The weekday and minute at which the machine went to sleep.
    pub asleep_weekday: Weekday,
    pub asleep_minute: u16,
}

/// What happened since the previous tick and what the scheduler must hear of it.
#[derive(Clone, Copy, PartialEq, Eq, Debug, Structural)]
pub struct CatchUp {
    /// Midnight was crossed: the posture debt is cleared.
    pub clear_debt: bool,
    /// The machine slept: the absence is judged, then active hours are checked again.
    pub sleep: Option<SleepReturn>,
}

/// What the scheduler must hear between two tick readings: the debt clears when the local
/// day changed, and a sleep is reported with its start, length and the calendar at its start.
pub fn catch_up(previous: TickMark, current: TickMark) -> (plan: CatchUp)
    ensures
        plan.clear_debt == (previous.local.date != current.local.date),
        match slept(previous.wall, previous.monotonic, current.wall, current.monotonic) {
            Some(lasted) => plan.sleep == Some(SleepReturn {
                began_at: previous.monotonic,
                lasted: lasted as u64,
                now: current.monotonic,
                asleep_weekday: previous.local.weekday,
                asleep_minute: previous.local.minute_of_day,
            }),
            None => plan.sleep is None,
        },
{
    let clear_debt = previous.local.date != current.local.date;
    let sleep = match slept_between(previous.wall, previous.monotonic, current.wall, current.monotonic) {
        Some(lasted) => Some(SleepReturn {
            began_at: previous.monotonic,
            lasted,
            now: current.monotonic,
            asleep_weekday: previous.local.weekday,
            asleep_minute: previous.local.minute_of_day,
        }),
        None => None,
    };
    CatchUp { clear_debt, sleep }
}

/// The chime of a phase change: one when a break begins, another when it ends, none otherwise.
pub fn chime_for_transition(previous: CyclePhase, current: CyclePhase) -> (sound: Option<&'static str>)
    ensures
        current == CyclePhase::Break ==> sound == Some(BREAK_BEGINS_SOUND),
        current != CyclePhase::Break && previous == CyclePhase::Break ==> sound == Some(BREAK_ENDS_SOUND),
        current != CyclePhase::Break && previous != CyclePhase::Break ==> sound is None,
{
    if current == CyclePhase::Break {
        Some(BREAK_BEGINS_SOUND)
    } else if previous == CyclePhase::Break {
        Some(BREAK_ENDS_SOUND)
    } else {
        None
    }
}

/// Whether a tick chimes: only on a phase change, and only with sounds on.
pub fn chimes(previous: CyclePhase, current: CyclePhase, sounds: bool) -> (chime: bool)
    ensures
        chime == (previous != current && sounds),
{
    previous != current && sounds
}

/// The title last set in the menu bar: it is set again only when it changes.
pub struct TitleCache {
    last: Option<String>,
}

impl TitleCache {
    /// The title last set, if any.
    pub closed spec fn shown(&self) -> Option<Seq<char>> {
        match self.last {
            Some(t) => Some(t@),
            None => None,
        }
    }

    /// No title set yet.
    pub fn new() -> (cache: TitleCache)
        ensures
            cache.shown() is None,
    {
        TitleCache { last: None }
    }

    /// Takes `title` as the next one to show: true if the menu bar must be updated (it
    /// differs from the one shown), and then it is remembered.
    pub fn refresh(&mut self, title: String) -> (changed: bool)
        ensures
            changed == (old(self).shown() != Some(title@)),
            final(self).shown() == Some(title@),
    {
        let same = match &self.last {
            Some(last) => *last == title,
            None => false,
        };
        if same {
            return false;
        }
        self.last = Some(title);
        true
    }
}

} // verus!
