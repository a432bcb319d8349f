//! How the host names days and times of day, in French, as its panel shows them.
use crate::domain::{NextStart, Weekday};
use crate::text::{
    decimal, digits_value, is_digit, lemma_decimal_reads_back, lemma_two_digits_reads_back,
    push_decimal, push_two_digits, two_digits,
};
use vstd::prelude::*;

verus! {

/// Minutes in an hour.
pub const MINUTES_PER_HOUR: u16 = 60;

/// The lowercase French name of a weekday.
pub open spec fn day_text(weekday: Weekday) -> Seq<char> {
    match weekday {
        Weekday::Monday => "lundi"@,
        Weekday::Tuesday => "mardi"@,
        Weekday::Wednesday => "mercredi"@,
        Weekday::Thursday => "jeudi"@,
        Weekday::Friday => "vendredi"@,
        Weekday::Saturday => "samedi"@,
        Weekday::Sunday => "dimanche"@,
    }
}

/// `H:MM` for a minute of the day: the hour unpadded, the minutes on two digits.
pub open spec fn clock_text(minute_of_day: nat) -> Seq<char> {
    decimal(minute_of_day / 60) + seq![':'] + two_digits(minute_of_day % 60)
}

/// A clock text reads back as the minute it was made from: the one colon stands three
/// characters from the end; before it, the hour in decimal digits with no leading zero (but
/// for the hour zero); after it, two digits of minutes below sixty; and hours times sixty
/// plus minutes is the minute of the day.
pub proof fn lemma_clock_text_reads_back(minute_of_day: nat)
    ensures
        ({
            let t = clock_text(minute_of_day);
            let colon = t.len() - 3;
            &&& colon >= 1
            &&& t[colon] == ':'
            &&& forall|j: int| 0 <= j < colon ==> is_digit(#[trigger] t[j])
            &&& is_digit(t[colon + 1]) && is_digit(t[colon + 2])
            &&& digits_value(t.subrange(colon + 1, t.len() as int)) < 60
            &&& digits_value(t.take(colon)) * 60 + digits_value(t.subrange(colon + 1, t.len() as int))
                == minute_of_day
            &&& (t[0] == '0' ==> colon == 1)
        }),
{
    let hours = minute_of_day / 60;
    let minutes = minute_of_day % 60;
    lemma_decimal_reads_back(hours);
    lemma_two_digits_reads_back(minutes);
    let h = decimal(hours);
    let m = two_digits(minutes);
    let t = clock_text(minute_of_day);
    let colon = t.len() - 3;
    assert(t =~= h + seq![':'] + m);
    assert(colon == h.len());
    assert(t.take(colon) =~= h);
    assert(t.subrange(colon + 1, t.len() as int) =~= m);
    assert forall|j: int| 0 <= j < colon implies is_digit(#[trigger] t[j]) by {
        assert(t[j] == h[j]);
    }
    assert(t[colon + 1] == m[0]);
    assert(t[colon + 2] == m[1]);
    assert(t[0] == h[0]);
    assert(minute_of_day == hours * 60 + minutes);
}

/// The label of the next start: the time alone today, `demain` tomorrow, the weekday
/// followed by `prochain` a week away, the weekday otherwise.
pub open spec fn next_start_text(next: NextStart) -> Seq<char> {
    let clock = clock_text(next.minute_of_day as nat);
    if next.days_ahead == 0 {
        clock
    } else if next.days_ahead == 1 {
        "demain "@ + clock
    } else if next.days_ahead == 7 {
        day_text(next.weekday) + " prochain "@ + clock
    } else {
        day_text(next.weekday) + " "@ + clock
    }
}

/// The lowercase French name of a weekday.
pub fn day_name(weekday: Weekday) -> (name: &'static str)
    ensures
        name@ == day_text(weekday),
{
    match weekday {
        Weekday::Monday => "lundi",
        Weekday::Tuesday => "mardi",
        Weekday::Wednesday => "mercredi",
        Weekday::Thursday => "jeudi",
        Weekday::Friday => "vendredi",
        Weekday::Saturday => "samedi",
        Weekday::Sunday => "dimanche",
    }
}

/// `H:MM` for a minute of the day.
pub fn clock_label(minute_of_day: u16) -> (label: String)
    ensures
        label@ == clock_text(minute_of_day as nat),
{
    let mut label = String::new();
    push_decimal(&mut label, (minute_of_day / MINUTES_PER_HOUR) as u64);
    label.append(":");
    proof {
        reveal_strlit(":");
    }
    push_two_digits(&mut label, (minute_of_day % MINUTES_PER_HOUR) as u64);
    label
}

/// The label under which the panel announces when the cycle starts again.
pub fn next_start_label(next: NextStart) -> (label: String)
    ensures
        label@ == next_start_text(next),
{
    let clock = clock_label(next.minute_of_day);
    if next.days_ahead == 0 {
        clock
    } else if next.days_ahead == 1 {
        let mut label = String::from_str("demain ");
        label.append(clock.as_str());
        label
    } else if next.days_ahead == 7 {
        let mut label = String::from_str(day_name(next.weekday));
        label.append(" prochain ");
        label.append(clock.as_str());
        label
    } else {
        let mut label = String::from_str(day_name(next.weekday));
        label.append(" ");
        label.append(clock.as_str());
        label
    }
}

} // verus!
