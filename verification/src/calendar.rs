//! Local calendar days, numbered as chrono numbers them, and their ISO names.
use crate::domain::Weekday;
use vstd::prelude::*;

verus! {

/// The day number (January 1 of year 1 being day 1) of chrono's first date, January 1
/// of year -262143.
pub const MIN_DAY: i32 = -95746129;

/// The day number of chrono's last date, December 31 of year 262142.
pub const MAX_DAY: i32 = 95745399;

/// The `%Y-%m-%d` text that chrono gives the date of day number `day`.
pub uninterp spec fn chrono_iso_date(day: i32) -> Seq<char>;

/// A local calendar day, one that chrono can represent.
#[derive(Clone, Copy, PartialEq, Eq, Debug, Structural)]
pub struct LocalDate {
    day: i32,
}

impl LocalDate {
    #[verifier::type_invariant]
    spec fn in_range(self) -> bool {
        MIN_DAY <= self.day <= MAX_DAY
    }

    /// The day's number, January 1 of year 1 being day 1.
    pub closed spec fn number(self) -> i32 {
        self.day
    }

    /// The day numbered `day`; none outside chrono's range of dates.
    pub fn from_days_from_ce(day: i32) -> (date: Option<LocalDate>)
        ensures
            match date {
                Some(d) => d.number() == day,
                None => !(MIN_DAY <= day <= MAX_DAY),
            },
    {
        if MIN_DAY <= day && day <= MAX_DAY {
            Some(LocalDate { day })
        } else {
            None
        }
    }

    /// The day's number.
    pub fn days_from_ce(self) -> (day: i32)
        ensures
            day == self.number(),
            MIN_DAY <= day <= MAX_DAY,
    {
        proof {
            use_type_invariant(&self);
        }
        self.day
    }
}

/// One reading of the local clock: the day, its weekday and the minute of the day, all
/// taken from the same instant.
#[derive(Clone, Copy, PartialEq, Eq, Debug, Structural)]
pub struct LocalNow {
    pub date: LocalDate,
    pub weekday: Weekday,
    pub minute_of_day: u16,
}

/// The weekday that lies `days_from_monday` days after a Monday.
pub open spec fn weekday_after_monday(days_from_monday: nat) -> Weekday {
    if days_from_monday == 0 {
        Weekday::Monday
    } else if days_from_monday == 1 {
        Weekday::Tuesday
    } else if days_from_monday == 2 {
        Weekday::Wednesday
    } else if days_from_monday == 3 {
        Weekday::Thursday
    } else if days_from_monday == 4 {
        Weekday::Friday
    } else if days_from_monday == 5 {
        Weekday::Saturday
    } else {
        Weekday::Sunday
    }
}

/// The day after `day` in the week, Sunday being followed by Monday.
pub open spec fn day_after(day: Weekday) -> Weekday {
    match day {
        Weekday::Monday => Weekday::Tuesday,
        Weekday::Tuesday => Weekday::Wednesday,
        Weekday::Wednesday => Weekday::Thursday,
        Weekday::Thursday => Weekday::Friday,
        Weekday::Friday => Weekday::Saturday,
        Weekday::Saturday => Weekday::Sunday,
        Weekday::Sunday => Weekday::Monday,
    }
}

/// Counting days from Monday walks the week in order: zero days on is Monday, one more day
/// on is the next day of the week, and the day after the sixth, Sunday, is Monday again; so
/// Saturday is five days on and Sunday six.
pub proof fn days_from_monday_walk_the_week(days_from_monday: nat)
    ensures
        weekday_after_monday(0) == Weekday::Monday,
        days_from_monday < 6 ==> weekday_after_monday(days_from_monday + 1) == day_after(
            weekday_after_monday(days_from_monday),
        ),
        day_after(weekday_after_monday(6)) == Weekday::Monday,
{
}

/// A local reading from its parts as chrono gives them: the day, the days since Monday, the
/// hour and the minute. The minute of the day is `hour * 60 + minute`.
pub fn local_now_of(date: LocalDate, days_from_monday: u32, hour: u32, minute: u32) -> (now: LocalNow)
    requires
        days_from_monday < 7,
        hour < 24,
        minute < 60,
    ensures
        now.date == date,
        now.weekday == weekday_after_monday(days_from_monday as nat),
        now.minute_of_day == hour * 60 + minute,
{
    let weekday = if days_from_monday == 0 {
        Weekday::Monday
    } else if days_from_monday == 1 {
        Weekday::Tuesday
    } else if days_from_monday == 2 {
        Weekday::Wednesday
    } else if days_from_monday == 3 {
        Weekday::Thursday
    } else if days_from_monday == 4 {
        Weekday::Friday
    } else if days_from_monday == 5 {
        Weekday::Saturday
    } else {
        Weekday::Sunday
    };
    LocalNow { date, weekday, minute_of_day: (hour * 60 + minute) as u16 }
}

/// The ISO name of a day, `YYYY-MM-DD`, as chrono formats it with `%Y-%m-%d`.
///
/// Calls `chrono::NaiveDate::from_num_days_from_ce_opt` on the day's number and
/// `NaiveDate::format("%Y-%m-%d")` on the date; the contract claims only that the text is
/// the one chrono gives that day number. The `None` arm is never taken: a `LocalDate`
/// always lies within chrono's range.
#[verifier::external_body]
pub fn iso_date(date: LocalDate) -> (iso: String)
    ensures
        iso@ == chrono_iso_date(date.number()),
{
    match chrono::NaiveDate::from_num_days_from_ce_opt(date.day) {
        Some(naive) => naive.format("%Y-%m-%d").to_string(),
        None => String::new(),
    }
}

} // verus!
