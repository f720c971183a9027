use rcs3ud::{
    AnyTime, Date, Interval, OperationScheduler, StartOfNextMonthExt, StartTime, TimeOfDay,
    TimesOfDay, UtcDateTime,
};

fn hms(h: u8, m: u8, s: u8) -> TimeOfDay {
    TimeOfDay::from_hms(h, m, s).unwrap()
}

fn interval(start: u8, end: u8) -> Interval {
    Interval { start: hms(start, 0, 0), end: hms(end, 0, 0) }
}

fn date(y: i32, m: u8, d: u8) -> Date {
    Date::from_calendar_date(y, m, d).unwrap()
}

const SPEED: u64 = 5_000_000;

#[test]
fn later_at_night() {
    let time = TimesOfDay::new(vec![interval(22, 6)], 5_000_000).get_start_time(
        UtcDateTime::new(Date::min_value(), hms(15, 0, 0)),
        60 * 60 * 2,
    );
    assert_eq!(time, UtcDateTime::new(Date::min_value(), hms(22, 0, 0)));
}

#[test]
fn now() {
    let time = TimesOfDay::new(vec![interval(22, 6)], 5_000_000).get_start_time(
        UtcDateTime::new(Date::min_value(), hms(23, 0, 0)),
        60 * 60 * 2,
    );
    assert_eq!(time, UtcDateTime::new(Date::min_value(), hms(23, 0, 0)));
}

#[test]
fn tomorrow() {
    let time = TimesOfDay::new(vec![interval(22, 6)], 5_000_000).get_start_time(
        UtcDateTime::new(Date::min_value(), hms(23, 0, 0)),
        60 * 60 * 8,
    );
    assert_eq!(
        time,
        UtcDateTime::new(Date::min_value().next_day().unwrap(), hms(22, 0, 0))
    );
}

#[test]
fn longest_interval() {
    let time = TimesOfDay::new(vec![interval(12, 13), interval(22, 6)], 5_000_000).get_start_time(
        UtcDateTime::new(Date::min_value(), hms(10, 0, 0)),
        60 * 60 * 10,
    );
    assert_eq!(time, UtcDateTime::new(Date::min_value(), hms(22, 0, 0)));
}

#[test]
fn december() {
    assert_eq!(date(2025, 12, 13).start_of_next_month(), date(2026, 1, 1));
}

#[test]
fn july() {
    assert_eq!(date(2025, 7, 2).start_of_next_month(), date(2025, 8, 1));
}

#[test]
fn bytes_two_hours_before_window_start_today() {
    let s = TimesOfDay::new(vec![interval(22, 6)], SPEED);
    let now = UtcDateTime::new(date(2025, 3, 4), hms(15, 0, 0));
    assert_eq!(
        s.start_time(now, 2 * 3600 * SPEED),
        StartTime::Later(UtcDateTime::new(date(2025, 3, 4), hms(22, 0, 0)))
    );
}

#[test]
fn bytes_two_hours_inside_window_start_now() {
    let s = TimesOfDay::new(vec![interval(22, 6)], SPEED);
    let now = UtcDateTime::new(date(2025, 3, 4), hms(23, 0, 0));
    assert_eq!(s.start_time(now, 2 * 3600 * SPEED), StartTime::Later(now));
}

#[test]
fn bytes_eight_hours_start_tomorrow() {
    let s = TimesOfDay::new(vec![interval(22, 6)], SPEED);
    let now = UtcDateTime::new(date(2025, 3, 4), hms(23, 0, 0));
    assert_eq!(
        s.start_time(now, 8 * 3600 * SPEED),
        StartTime::Later(UtcDateTime::new(date(2025, 3, 5), hms(22, 0, 0)))
    );
}

#[test]
fn bytes_ten_hours_longest_interval() {
    let s = TimesOfDay::new(vec![interval(12, 13), interval(22, 6)], SPEED);
    let now = UtcDateTime::new(date(2025, 3, 4), hms(10, 0, 0));
    assert_eq!(
        s.start_time(now, 10 * 3600 * SPEED),
        StartTime::Later(UtcDateTime::new(date(2025, 3, 4), hms(22, 0, 0)))
    );
}

#[test]
fn longest_interval_already_started_goes_to_tomorrow() {
    let s = TimesOfDay::new(vec![interval(12, 13), interval(22, 6)], SPEED);
    let now = UtcDateTime::new(date(2025, 12, 31), hms(22, 30, 0));
    assert_eq!(
        s.get_start_time(now, 10 * 3600),
        UtcDateTime::new(date(2026, 1, 1), hms(22, 0, 0))
    );
}

#[test]
fn equal_lengths_earliest_start_wins() {
    let s = TimesOfDay::new(vec![interval(20, 21), interval(8, 9)], SPEED);
    let now = UtcDateTime::new(date(2025, 3, 4), hms(10, 0, 0));
    // Neither fits three hours; both last one hour: 08:00 comes first.
    assert_eq!(
        s.get_start_time(now, 3 * 3600),
        UtcDateTime::new(date(2025, 3, 5), hms(8, 0, 0))
    );
}

#[test]
fn unsorted_intervals_are_sorted() {
    let s = TimesOfDay::new(vec![interval(20, 23), interval(8, 11)], SPEED);
    let now = UtcDateTime::new(date(2025, 3, 4), hms(1, 0, 0));
    assert_eq!(
        s.get_start_time(now, 3600),
        UtcDateTime::new(date(2025, 3, 4), hms(8, 0, 0))
    );
}

#[test]
fn partial_second_rounds_up() {
    let s = TimesOfDay::new(vec![interval(10, 11)], 1000);
    let now = UtcDateTime::new(date(2025, 3, 4), hms(9, 0, 0));
    // 3600 s exactly fits the hour; one more byte needs 3601 s, which does not.
    assert_eq!(
        s.start_time(now, 3600 * 1000),
        StartTime::Later(UtcDateTime::new(date(2025, 3, 4), hms(10, 0, 0)))
    );
    assert_eq!(
        s.start_time(now, 3600 * 1000 + 1),
        StartTime::Later(UtcDateTime::new(date(2025, 3, 4), hms(10, 0, 0)))
    );
    let late = UtcDateTime::new(date(2025, 3, 4), hms(10, 30, 0));
    assert_eq!(
        s.start_time(late, 3600 * 1000),
        StartTime::Later(UtcDateTime::new(date(2025, 3, 5), hms(10, 0, 0)))
    );
}

#[test]
fn any_time_starts_now() {
    let now = UtcDateTime::new(date(2025, 3, 4), hms(10, 0, 0));
    assert_eq!(AnyTime.start_time(now, 123_456), StartTime::Now);
}

#[test]
fn calendar_dates_checked() {
    assert!(Date::from_calendar_date(2023, 2, 29).is_none());
    assert_eq!(date(2024, 2, 29).day, 29);
    assert!(Date::from_calendar_date(1900, 2, 29).is_none());
    assert!(Date::from_calendar_date(2000, 2, 29).is_some());
    assert!(Date::from_calendar_date(2025, 4, 31).is_none());
    assert!(Date::from_calendar_date(2025, 13, 1).is_none());
    assert!(Date::from_calendar_date(10000, 1, 1).is_none());
    assert!(TimeOfDay::from_hms(24, 0, 0).is_none());
    assert_eq!(hms(1, 2, 3).seconds, 3723);
}

#[test]
fn next_day_crosses_months_and_years() {
    assert_eq!(date(2024, 2, 28).next_day(), Some(date(2024, 2, 29)));
    assert_eq!(date(2023, 2, 28).next_day(), Some(date(2023, 3, 1)));
    assert_eq!(date(2025, 12, 31).next_day(), Some(date(2026, 1, 1)));
    assert_eq!(date(9999, 12, 31).next_day(), None);
}

#[test]
fn start_of_month_after_counts_months() {
    let d = date(2025, 11, 20);
    assert_eq!(d.start_of_month_after(1), Some(date(2025, 12, 1)));
    assert_eq!(d.start_of_month_after(2), Some(date(2026, 1, 1)));
    assert_eq!(d.start_of_month_after(26), Some(date(2028, 1, 1)));
    assert_eq!(date(-5, 3, 1).start_of_month_after(10), Some(date(-4, 1, 1)));
    assert_eq!(date(9999, 11, 2).start_of_month_after(2), None);
    assert_eq!(date(2025, 1, 31).start_of_next_month(), date(2025, 2, 1));
}

#[test]
fn empty_interval_never_fits_today() {
    let s = TimesOfDay::new(vec![interval(10, 10), interval(20, 23)], SPEED);
    let now = UtcDateTime::new(date(2025, 3, 4), hms(11, 0, 0));
    assert_eq!(s.get_start_time(now, 3600), UtcDateTime::new(date(2025, 3, 4), hms(20, 0, 0)));
}

#[test]
fn empty_interval_is_not_long_enough_for_tomorrow() {
    let s = TimesOfDay::new(vec![interval(0, 6), interval(10, 10)], SPEED);
    let now = UtcDateTime::new(date(2025, 3, 4), hms(11, 0, 0));
    assert_eq!(s.get_start_time(now, 5 * 3600), UtcDateTime::new(date(2025, 3, 5), hms(0, 0, 0)));
}

#[test]
fn empty_interval_is_never_the_longest() {
    let s = TimesOfDay::new(vec![interval(10, 10), interval(20, 23)], SPEED);
    let now = UtcDateTime::new(date(2025, 3, 4), hms(11, 0, 0));
    assert_eq!(s.get_start_time(now, 5 * 3600), UtcDateTime::new(date(2025, 3, 4), hms(20, 0, 0)));
}
