use breeze::calendar::{iso_date, LocalDate, MAX_DAY, MIN_DAY};
use chrono::{Datelike, NaiveDate};

#[test]
fn dates_are_iso_formatted() {
    let date = NaiveDate::from_ymd_opt(2026, 9, 6).unwrap();
    let day = LocalDate::from_days_from_ce(date.num_days_from_ce()).unwrap();
    assert_eq!(iso_date(day), "2026-09-06");
}

#[test]
fn the_day_range_is_chronos() {
    assert_eq!(NaiveDate::MIN.num_days_from_ce(), MIN_DAY);
    assert_eq!(NaiveDate::MAX.num_days_from_ce(), MAX_DAY);
    assert!(NaiveDate::from_num_days_from_ce_opt(MIN_DAY - 1).is_none());
    assert!(NaiveDate::from_num_days_from_ce_opt(MAX_DAY + 1).is_none());
    assert!(LocalDate::from_days_from_ce(MIN_DAY - 1).is_none());
    assert!(LocalDate::from_days_from_ce(MAX_DAY + 1).is_none());
    assert!(LocalDate::from_days_from_ce(MIN_DAY).is_some());
    assert!(LocalDate::from_days_from_ce(MAX_DAY).is_some());
}

#[test]
fn day_one_is_the_first_of_january_of_year_one() {
    assert_eq!(iso_date(LocalDate::from_days_from_ce(1).unwrap()), "0001-01-01");
}

#[test]
fn the_first_day_is_the_first_of_january_of_year_minus_262143() {
    let first = NaiveDate::from_ymd_opt(-262143, 1, 1).unwrap();
    assert_eq!(first, NaiveDate::MIN);
    assert_eq!(first.num_days_from_ce(), MIN_DAY);
    assert_eq!(MIN_DAY, -95746129);
    let day = LocalDate::from_days_from_ce(MIN_DAY).unwrap();
    assert_eq!(iso_date(day), first.format("%Y-%m-%d").to_string());
}
