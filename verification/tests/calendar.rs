use pico_clock_green::rtc::get_max_day_in_month;
use pico_clock_green::rtc::is_leap_year_opt;
use pico_clock_green::rtc::set_day;
use pico_clock_green::rtc::set_hour;
use pico_clock_green::rtc::set_minute;
use pico_clock_green::rtc::set_month;
use pico_clock_green::rtc::set_year;
use pico_clock_green::rtc::DateTime;

fn at(year: i32, month: u32, day: u32) -> DateTime {
    DateTime { year, month, day, hour: 13, minute: 37, second: 42 }
}

#[test]
fn leap_years() {
    for year in [2024, 2000, 1600, 4, 0, -4, -400, 2400] {
        assert!(is_leap_year_opt(year), "{}", year);
    }
    for year in [2023, 2025, 1900, 2100, 1, -1, -100, -2023, i32::MAX, i32::MIN + 1] {
        assert!(!is_leap_year_opt(year), "{}", year);
    }
    assert!(is_leap_year_opt(i32::MIN));
}

#[test]
fn days_of_the_months() {
    let common = [31, 28, 31, 30, 31, 30, 31, 31, 30, 31, 30, 31];
    for month in 1..=12u32 {
        assert_eq!(get_max_day_in_month(month, false), common[month as usize - 1]);
        let leap = if month == 2 { 29 } else { common[month as usize - 1] };
        assert_eq!(get_max_day_in_month(month, true), leap);
    }
}

#[test]
fn setting_the_time_zeroes_the_seconds() {
    let now = at(2023, 12, 31);
    assert_eq!(set_hour(now, 7), DateTime { hour: 7, second: 0, ..now });
    assert_eq!(set_hour(now, 23), DateTime { hour: 23, second: 0, ..now });
    assert_eq!(set_minute(now, 0), DateTime { minute: 0, second: 0, ..now });
    assert_eq!(set_minute(now, 59), DateTime { minute: 59, second: 0, ..now });
}

#[test]
fn a_day_behind_the_month_becomes_its_last_day() {
    assert_eq!(set_day(at(2023, 2, 10), 29), at(2023, 2, 28));
    assert_eq!(set_day(at(2024, 2, 10), 29), at(2024, 2, 29));
    assert_eq!(set_day(at(2024, 2, 10), 30), at(2024, 2, 29));
    assert_eq!(set_day(at(2023, 4, 10), 31), at(2023, 4, 30));
    assert_eq!(set_day(at(2023, 1, 10), 31), at(2023, 1, 31));
    assert_eq!(set_day(at(2023, 1, 10), 1), at(2023, 1, 1));
    assert_eq!(set_day(at(2023, 1, 10), 99), at(2023, 1, 31));
}

#[test]
fn a_month_without_the_day_gets_its_last_day() {
    assert_eq!(set_month(at(2023, 12, 31), 2), at(2023, 2, 28));
    assert_eq!(set_month(at(2024, 12, 31), 2), at(2024, 2, 29));
    assert_eq!(set_month(at(2023, 12, 31), 4), at(2023, 4, 30));
    assert_eq!(set_month(at(2023, 12, 31), 1), at(2023, 1, 31));
    assert_eq!(set_month(at(2023, 12, 15), 2), at(2023, 2, 15));
}

#[test]
fn a_common_year_has_no_29th_of_february() {
    assert_eq!(set_year(at(2024, 2, 29), 2025), at(2025, 2, 28));
    assert_eq!(set_year(at(2024, 2, 29), 2028), at(2028, 2, 29));
    assert_eq!(set_year(at(2024, 2, 28), 2025), at(2025, 2, 28));
    assert_eq!(set_year(at(2024, 3, 29), 2025), at(2025, 3, 29));
    assert_eq!(set_year(at(2024, 2, 29), 2100), at(2100, 2, 28));
}

#[test]
fn only_dates_that_exist_are_valid() {
    assert!(at(2024, 2, 29).is_valid());
    assert!(!at(2023, 2, 29).is_valid());
    assert!(!at(2023, 4, 31).is_valid());
    assert!(!at(2023, 0, 1).is_valid());
    assert!(!at(2023, 13, 1).is_valid());
    assert!(!at(2023, 1, 0).is_valid());
    assert!(at(2023, 12, 31).is_valid());
    assert!(!DateTime { hour: 24, ..at(2023, 1, 1) }.is_valid());
    assert!(!DateTime { minute: 60, ..at(2023, 1, 1) }.is_valid());
    assert!(!DateTime { second: 60, ..at(2023, 1, 1) }.is_valid());
    assert!(DateTime { hour: 0, minute: 0, second: 0, ..at(-1, 1, 1) }.is_valid());
}
