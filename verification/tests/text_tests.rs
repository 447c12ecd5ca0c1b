use bottle_zoa::clock::{beijing_date_at, millis, now_date, utc_date_at, utc_now_date};
use bottle_zoa::text::{date_text, decimal_text, signed_decimal_text, two_digit_text};

#[test]
fn decimal_matches_display() {
    for n in [0u128, 7, 10, 99, 100, 2024, 1606870657123, u128::MAX] {
        assert_eq!(decimal_text(n), format!("{}", n));
    }
}

#[test]
fn two_digits_match_zero_padding() {
    for n in [0u32, 5, 9, 10, 31, 100, u32::MAX] {
        assert_eq!(two_digit_text(n), format!("{:02}", n));
    }
}

#[test]
fn signed_decimal_matches_display() {
    for n in [0i32, 5, -5, 2020, -2020, i32::MIN, i32::MAX] {
        assert_eq!(signed_decimal_text(n), format!("{}", n));
    }
}

#[test]
fn dates_are_zero_padded() {
    assert_eq!(date_text(2020, 1, 5), "2020-01-05");
    assert_eq!(date_text(2020, 12, 31), "2020-12-31");
    assert_eq!(date_text(-44, 3, 15), "-44-03-15");
}

#[test]
fn clock_dates_are_calendar_dates() {
    let (year, month, day) = utc_now_date().unwrap();
    assert!(year >= 2020);
    assert!((1..=12).contains(&month));
    assert!((1..=31).contains(&day));
    let (year, month, day) = now_date().unwrap();
    assert!(year >= 2020);
    assert!((1..=12).contains(&month));
    assert!((1..=31).contains(&day));
}

#[test]
fn utc_and_beijing_dates_of_an_instant() {
    // 2020-12-01T16:00:00Z is already 2020-12-02 in Beijing.
    assert_eq!(utc_date_at(1606838400), Some((2020, 12, 1)));
    assert_eq!(beijing_date_at(1606838400), Some((2020, 12, 2)));
    // 2020-12-31T23:59:59Z.
    assert_eq!(utc_date_at(1609459199), Some((2020, 12, 31)));
    assert_eq!(beijing_date_at(1609459199), Some((2021, 1, 1)));
    assert_eq!(utc_date_at(0), Some((1970, 1, 1)));
    assert_eq!(utc_date_at(i64::MAX), None);
}

#[test]
fn milliseconds_of_a_reading() {
    assert_eq!(millis(1606870657, 123_456_789), 1606870657123);
    assert_eq!(millis(0, 999_999_999), 999);
    assert_eq!(millis(u64::MAX, 999_999_999), u64::MAX as u128 * 1000 + 999);
}

/// The civil date of a day count, written out independently of the library.
fn civil_from_days_reference(days: i64) -> (i64, i64, i64) {
    let z = days + 719_468;
    let era = z.div_euclid(146_097);
    let doe = z - era * 146_097;
    let yoe = (doe - doe / 1_460 + doe / 36_524 - doe / 146_096) / 365;
    let doy = doe - (365 * yoe + yoe / 4 - yoe / 100);
    let mp = (5 * doy + 2) / 153;
    let day = doy - (153 * mp + 2) / 5 + 1;
    let month = if mp < 10 { mp + 3 } else { mp - 9 };
    (yoe + era * 400 + if month <= 2 { 1 } else { 0 }, month, day)
}

#[test]
fn dates_follow_the_day_count() {
    let mut secs: i64 = -20_000_000_000;
    while secs <= 253_402_300_799 {
        for (offset, date) in [(0i64, utc_date_at(secs)), (28800, beijing_date_at(secs))] {
            let (y, m, d) = date.unwrap();
            let expected = civil_from_days_reference((secs + offset).div_euclid(86_400));
            assert_eq!((y as i64, m as i64, d as i64), expected, "at {} offset {}", secs, offset);
        }
        secs += 86_399 * 997;
    }
}
