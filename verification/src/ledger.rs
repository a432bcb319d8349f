//! The statistics of the last thirty local days, read from the journal's daily totals.
use crate::calendar::{chrono_iso_date, iso_date, LocalDate, MAX_DAY, MIN_DAY};
use crate::domain::SECONDS_PER_MINUTE;
use crate::ports::LedgerDay;
use vstd::prelude::*;

verus! {

/// How many days the statistics span, today included.
pub const STATS_DAYS: i32 = 30;

/// A journal day as the contracts see it.
pub struct LedgerDayView {
    pub local_date: Seq<char>,
    pub served: u32,
    pub interrupted: u32,
    pub validated: u32,
    pub served_seconds: u64,
    pub emergency_exits: u32,
    pub emergency_unserved_seconds: u64,
}

impl View for LedgerDay {
    type V = LedgerDayView;

    open spec fn view(&self) -> LedgerDayView {
        LedgerDayView {
            local_date: self.local_date@,
            served: self.served,
            interrupted: self.interrupted,
            validated: self.validated,
            served_seconds: self.served_seconds,
            emergency_exits: self.emergency_exits,
            emergency_unserved_seconds: self.emergency_unserved_seconds,
        }
    }
}

/// One day of the statistics.
#[derive(Clone, PartialEq, Eq, Debug)]
pub struct StatsDayDto {
    pub date: String,
    pub served: u32,
    pub interrupted: u32,
    pub validated: u32,
    pub served_minutes: u32,
}

/// The statistics: each day, then the totals of the span.
#[derive(Clone, PartialEq, Eq, Debug)]
pub struct StatsDto {
    pub days: Vec<StatsDayDto>,
    pub served: u32,
    pub interrupted: u32,
    pub validated: u32,
    pub due: u32,
    pub served_minutes: u32,
    pub emergency_exits: u32,
    pub emergency_minutes: u32,
    pub debt_minutes: u32,
}

/// A day with no journal line: every count at zero.
pub open spec fn zero_day(date: Seq<char>) -> LedgerDayView {
    LedgerDayView {
        local_date: date,
        served: 0,
        interrupted: 0,
        validated: 0,
        served_seconds: 0,
        emergency_exits: 0,
        emergency_unserved_seconds: 0,
    }
}

/// The first row dated `date`, or a zero day with that date: a day without a journal line is
/// a day at zero, never a missing day.
pub open spec fn find_day(rows: Seq<LedgerDayView>, date: Seq<char>) -> LedgerDayView
    decreases rows.len(),
{
    if rows.len() == 0 {
        zero_day(date)
    } else if rows[0].local_date == date {
        rows[0]
    } else {
        find_day(rows.drop_first(), date)
    }
}

/// Seconds rounded to the nearest minute (half a minute rounds up, adding saturates), and
/// capped at the top of `u32`.
pub open spec fn rounded_minutes(seconds: nat) -> nat {
    let shifted = if seconds + 30 <= u64::MAX { seconds + 30 } else { u64::MAX as nat };
    if shifted / 60 <= u32::MAX { shifted / 60 } else { u32::MAX as nat }
}

/// The first day of the span ending `today`: 29 days before, or `today` itself when that
/// day lies before chrono's first date.
pub open spec fn first_day_number(today: int) -> int {
    if today - (STATS_DAYS - 1) >= MIN_DAY { today - (STATS_DAYS - 1) } else { today }
}

/// The journal days of the span from day `first`, `count` days long, each found in `rows`.
pub open spec fn window(rows: Seq<LedgerDayView>, first: int, count: nat) -> Seq<LedgerDayView> {
    Seq::new(count, |k: int| find_day(rows, chrono_iso_date((first + k) as i32)))
}

/// The sum of `f` over `days`.
pub open spec fn total(days: Seq<LedgerDayView>, f: spec_fn(LedgerDayView) -> nat) -> nat
    decreases days.len(),
{
    if days.len() == 0 {
        0
    } else {
        total(days.drop_last(), f) + f(days.last())
    }
}

pub open spec fn served_of(d: LedgerDayView) -> nat {
    d.served as nat
}

pub open spec fn interrupted_of(d: LedgerDayView) -> nat {
    d.interrupted as nat
}

pub open spec fn validated_of(d: LedgerDayView) -> nat {
    d.validated as nat
}

pub open spec fn served_seconds_of(d: LedgerDayView) -> nat {
    d.served_seconds as nat
}

pub open spec fn exits_of(d: LedgerDayView) -> nat {
    d.emergency_exits as nat
}

pub open spec fn unserved_seconds_of(d: LedgerDayView) -> nat {
    d.emergency_unserved_seconds as nat
}

/// Whether every total of `days` fits its field: counts in `u32` (their sum too, which is
/// the number of breaks due), seconds in `u64`.
pub open spec fn totals_fit(days: Seq<LedgerDayView>) -> bool {
    &&& total(days, |d| served_of(d)) + total(days, |d| interrupted_of(d)) + total(days, |d| validated_of(d)) <= u32::MAX
    &&& total(days, |d| exits_of(d)) <= u32::MAX
    &&& total(days, |d| served_seconds_of(d)) <= u64::MAX
    &&& total(days, |d| unserved_seconds_of(d)) <= u64::MAX
}

/// The statistics span thirty days ending today, whenever today lies at least 29 days after
/// chrono's first date.
pub proof fn the_stats_span_thirty_days_ending_today(today: int)
    requires
        today - (STATS_DAYS - 1) >= MIN_DAY,
    ensures
        today - first_day_number(today) + 1 == STATS_DAYS,
        first_day_number(today) + (STATS_DAYS - 1) == today,
{
}

/// Seconds rounded to the nearest minute, capped at the top of `u32`.
pub fn minutes_of(seconds: u64) -> (minutes: u32)
    ensures
        minutes == rounded_minutes(seconds as nat),
{
    let m: u64 = seconds.saturating_add(SECONDS_PER_MINUTE / 2) / SECONDS_PER_MINUTE;
    if m <= u32::MAX as u64 {
        m as u32
    } else {
        u32::MAX
    }
}

/// The first day of the thirty ending `today`.
pub fn first_day(today: LocalDate) -> (first: LocalDate)
    ensures
        first.number() == first_day_number(today.number() as int),
{
    let day: i32 = today.days_from_ce();
    if day >= MIN_DAY + (STATS_DAYS - 1) {
        match LocalDate::from_days_from_ce(day - (STATS_DAYS - 1)) {
            Some(first) => first,
            None => today,
        }
    } else {
        today
    }
}

fn find_row(rows: &Vec<LedgerDay>, date: &String) -> (found: Option<usize>)
    ensures
        match found {
            Some(i) => i < rows@.len() && find_day(rows@.map_values(|r: LedgerDay| r@), date@) == rows@[i as int]@,
            None => find_day(rows@.map_values(|r: LedgerDay| r@), date@) == zero_day(date@),
        },
{
    let ghost views = rows@.map_values(|r: LedgerDay| r@);
    let mut i: usize = 0;
    assert(views.skip(0) =~= views);
    while i < rows.len()
        invariant
            i <= rows@.len(),
            views == rows@.map_values(|r: LedgerDay| r@),
            find_day(views, date@) == find_day(views.skip(i as int), date@),
        decreases rows@.len() - i,
    {
        assert(views.skip(i as int)[0] == views[i as int]);
        if rows[i].local_date == *date {
            return Some(i);
        }
        assert(views.skip(i as int).drop_first() =~= views.skip(i + 1));
        i = i + 1;
    }
    assert(views.skip(i as int).len() == 0);
    None
}

/// The journal day named `date` (its ISO name): its first row, or a day at zero.
pub fn day_named(rows: &Vec<LedgerDay>, date: String) -> (day: LedgerDay)
    ensures
        day@ == find_day(rows@.map_values(|r: LedgerDay| r@), date@),
{
    match find_row(rows, &date) {
        Some(i) => rows[i].duplicate(),
        None => LedgerDay {
            local_date: date,
            served: 0,
            interrupted: 0,
            validated: 0,
            served_seconds: 0,
            emergency_exits: 0,
            emergency_unserved_seconds: 0,
        },
    }
}

/// The journal day dated `date`: its first row, or a day at zero.
pub fn day_of(rows: &Vec<LedgerDay>, date: LocalDate) -> (day: LedgerDay)
    ensures
        day@ == find_day(rows@.map_values(|r: LedgerDay| r@), chrono_iso_date(date.number())),
{
    day_named(rows, iso_date(date))
}

/// The breaks served on `date`, as its journal day counts them.
pub fn served_on(rows: &Vec<LedgerDay>, date: LocalDate) -> (served: u32)
    ensures
        served == find_day(rows@.map_values(|r: LedgerDay| r@), chrono_iso_date(date.number())).served,
{
    day_of(rows, date).served
}

impl StatsDayDto {
    /// A journal day as the statistics show it: its served time in rounded minutes.
    pub fn from_day(day: LedgerDay) -> (dto: StatsDayDto)
        ensures
            dto.date@ == day@.local_date,
            dto.served == day.served,
            dto.interrupted == day.interrupted,
            dto.validated == day.validated,
            dto.served_minutes == rounded_minutes(day.served_seconds as nat),
    {
        StatsDayDto {
            served_minutes: minutes_of(day.served_seconds),
            date: day.local_date,
            served: day.served,
            interrupted: day.interrupted,
            validated: day.validated,
        }
    }
}

/// The journal days of the thirty ending `today`, in order, each at zero when the journal
/// has no line for it.
pub fn window_days(today: LocalDate, rows: &Vec<LedgerDay>) -> (days: Vec<LedgerDay>)
    ensures
        days@.map_values(|d: LedgerDay| d@) == window(
            rows@.map_values(|r: LedgerDay| r@),
            first_day_number(today.number() as int),
            (today.number() - first_day_number(today.number() as int) + 1) as nat,
        ),
{
    let first = first_day(today);
    let first_number: i32 = first.days_from_ce();
    let today_number: i32 = today.days_from_ce();
    let count: i32 = today_number - first_number + 1;
    let ghost views = rows@.map_values(|r: LedgerDay| r@);
    let ghost all = window(views, first_number as int, count as nat);
    let mut days: Vec<LedgerDay> = Vec::new();
    let mut k: i32 = 0;
    while k < count
        invariant
            0 <= k <= count <= STATS_DAYS,
            count == today_number - first_number + 1,
            MIN_DAY <= first_number <= today_number <= MAX_DAY,
            views == rows@.map_values(|r: LedgerDay| r@),
            all == window(views, first_number as int, count as nat),
            days@.len() == k,
            days@.map_values(|d: LedgerDay| d@) == all.take(k as int),
        decreases count - k,
    {
        let date = match LocalDate::from_days_from_ce(first_number + k) {
            Some(d) => d,
            None => today,
        };
        assert(date.number() == first_number + k);
        let day = day_of(rows, date);
        assert(day@ == all[k as int]);
        let ghost before = days@;
        days.push(day);
        assert(days@ == before.push(day));
        assert forall|j: int| 0 <= j < k + 1 implies days@.map_values(|d: LedgerDay| d@)[j] == #[trigger] all.take(k + 1)[j] by {
            if j < k {
                assert(days@[j] == before[j]);
                assert(before.map_values(|d: LedgerDay| d@)[j] == all.take(k as int)[j]);
            }
        }
        assert(days@.map_values(|d: LedgerDay| d@) =~= all.take(k + 1));
        k = k + 1;
    }
    assert(all.take(count as int) =~= all);
    days
}

/// The statistics of `days`: each day as shown, then the totals over them, the breaks due
/// being the served, interrupted and validated ones together, and the current debt. None
/// when a total does not fit its field.
pub fn stats_of(days: Vec<LedgerDay>, debt_minutes: u16) -> (stats: Option<StatsDto>)
    requires
        days@.len() <= STATS_DAYS,
    ensures
        ({
            let views = days@.map_values(|d: LedgerDay| d@);
            match stats {
                None => !totals_fit(views),
                Some(s) => {
                    &&& totals_fit(views)
                    &&& s.days@.len() == views.len()
                    &&& forall|k: int| 0 <= k < views.len() ==> {
                        &&& #[trigger] s.days@[k].date@ == views[k].local_date
                        &&& s.days@[k].served == views[k].served
                        &&& s.days@[k].interrupted == views[k].interrupted
                        &&& s.days@[k].validated == views[k].validated
                        &&& s.days@[k].served_minutes == rounded_minutes(views[k].served_seconds as nat)
                    }
                    &&& s.served == total(views, |d| served_of(d))
                    &&& s.interrupted == total(views, |d| interrupted_of(d))
                    &&& s.validated == total(views, |d| validated_of(d))
                    &&& s.due == s.served + s.interrupted + s.validated
                    &&& s.served_minutes == rounded_minutes(total(views, |d| served_seconds_of(d)))
                    &&& s.emergency_exits == total(views, |d| exits_of(d))
                    &&& s.emergency_minutes == rounded_minutes(total(views, |d| unserved_seconds_of(d)))
                    &&& s.debt_minutes == debt_minutes
                }
            }
        }),
{
    let ghost all = days@.map_values(|d: LedgerDay| d@);
    let count: usize = days.len();
    let mut shown: Vec<StatsDayDto> = Vec::new();
    let mut served: u64 = 0;
    let mut interrupted: u64 = 0;
    let mut validated: u64 = 0;
    let mut exits: u64 = 0;
    let mut served_seconds: u128 = 0;
    let mut unserved_seconds: u128 = 0;
    let mut k: usize = 0;
    while k < count
        invariant
            0 <= k <= count <= STATS_DAYS,
            all.len() == count,
            all == days@.map_values(|d: LedgerDay| d@),
            days@.len() == count,
            shown@.len() == k,
            forall|j: int| 0 <= j < k ==> {
                &&& #[trigger] shown@[j].date@ == all[j].local_date
                &&& shown@[j].served == all[j].served
                &&& shown@[j].interrupted == all[j].interrupted
                &&& shown@[j].validated == all[j].validated
                &&& shown@[j].served_minutes == rounded_minutes(all[j].served_seconds as nat)
            },
            served == total(all.take(k as int), |d| served_of(d)),
            interrupted == total(all.take(k as int), |d| interrupted_of(d)),
            validated == total(all.take(k as int), |d| validated_of(d)),
            exits == total(all.take(k as int), |d| exits_of(d)),
            served_seconds == total(all.take(k as int), |d| served_seconds_of(d)),
            unserved_seconds == total(all.take(k as int), |d| unserved_seconds_of(d)),
            served <= k * 0xffff_ffff,
            interrupted <= k * 0xffff_ffff,
            validated <= k * 0xffff_ffff,
            exits <= k * 0xffff_ffff,
            served_seconds <= k * 0xffff_ffff_ffff_ffff,
            unserved_seconds <= k * 0xffff_ffff_ffff_ffff,
        decreases count - k,
    {
        let day = days[k].duplicate();
        assert(day@ == all[k as int]);
        assert(all.take(k + 1).drop_last() =~= all.take(k as int));
        assert(all.take(k + 1).last() == all[k as int]);
        served = served + day.served as u64;
        interrupted = interrupted + day.interrupted as u64;
        validated = validated + day.validated as u64;
        exits = exits + day.emergency_exits as u64;
        served_seconds = served_seconds + day.served_seconds as u128;
        unserved_seconds = unserved_seconds + day.emergency_unserved_seconds as u128;
        shown.push(StatsDayDto::from_day(day));
        k = k + 1;
    }
    assert(all.take(count as int) =~= all);
    if served + interrupted + validated > u32::MAX as u64 || exits > u32::MAX as u64
        || served_seconds > u64::MAX as u128 || unserved_seconds > u64::MAX as u128 {
        return None;
    }
    let served_total: u32 = served as u32;
    let interrupted_total: u32 = interrupted as u32;
    let validated_total: u32 = validated as u32;
    Some(StatsDto {
        days: shown,
        served: served_total,
        interrupted: interrupted_total,
        validated: validated_total,
        due: served_total + interrupted_total + validated_total,
        served_minutes: minutes_of(served_seconds as u64),
        emergency_exits: exits as u32,
        emergency_minutes: minutes_of(unserved_seconds as u64),
        debt_minutes: debt_minutes as u32,
    })
}

/// The statistics of the thirty days ending `today`, from the journal's `rows` and the
/// current debt. Each day of the span appears once, in order, at zero when the journal has
/// no line for it; the totals are the sums over the days, and the breaks due are the
/// served, interrupted and validated ones together. None when a total does not fit its field.
pub fn build_stats(today: LocalDate, rows: &Vec<LedgerDay>, debt_minutes: u16) -> (stats: Option<StatsDto>)
    ensures
        ({
            let first = first_day_number(today.number() as int);
            let days = window(rows@.map_values(|r: LedgerDay| r@), first, (today.number() - first + 1) as nat);
            match stats {
                None => !totals_fit(days),
                Some(s) => {
                    &&& totals_fit(days)
                    &&& s.days@.len() == days.len()
                    &&& forall|k: int| 0 <= k < days.len() ==> {
                        &&& #[trigger] s.days@[k].date@ == days[k].local_date
                        &&& s.days@[k].served == days[k].served
                        &&& s.days@[k].interrupted == days[k].interrupted
                        &&& s.days@[k].validated == days[k].validated
                        &&& s.days@[k].served_minutes == rounded_minutes(days[k].served_seconds as nat)
                    }
                    &&& s.served == total(days, |d| served_of(d))
                    &&& s.interrupted == total(days, |d| interrupted_of(d))
                    &&& s.validated == total(days, |d| validated_of(d))
                    &&& s.due == s.served + s.interrupted + s.validated
                    &&& s.served_minutes == rounded_minutes(total(days, |d| served_seconds_of(d)))
                    &&& s.emergency_exits == total(days, |d| exits_of(d))
                    &&& s.emergency_minutes == rounded_minutes(total(days, |d| unserved_seconds_of(d)))
                    &&& s.debt_minutes == debt_minutes
                }
            }
        }),
{
    let days = window_days(today, rows);
    stats_of(days, debt_minutes)
}

} // verus!
