//! Readings of the clock, and the calendar dates of instants.

use vstd::prelude::*;
use chrono::Datelike;

verus! {

#[verifier::external_type_specification]
#[verifier::external_body]
pub struct ExSystemTime(std::time::SystemTime);

/// `std::time::SystemTime::now`: the system clock's current reading. Nothing is
/// claimed of it.
#[verifier::external_body]
fn system_time_now() -> std::time::SystemTime {
    std::time::SystemTime::now()
}

/// `SystemTime::duration_since(UNIX_EPOCH)`: the time elapsed from the Unix epoch
/// to `t`, or `None` where `t` lies before the epoch (the call's error). Nothing
/// is claimed of the duration.
#[verifier::external_body]
fn elapsed_since_unix_epoch(t: &std::time::SystemTime) -> Option<std::time::Duration> {
    match t.duration_since(std::time::UNIX_EPOCH) {
        Ok(d) => Some(d),
        Err(_) => None,
    }
}

/// `Duration::as_secs`: the whole seconds of `d`. Nothing is claimed of the
/// number, since a `Duration` is opaque here.
#[verifier::external_body]
fn whole_secs(d: &std::time::Duration) -> u64 {
    d.as_secs()
}

/// `Duration::subsec_nanos`: the nanoseconds of `d` beyond its whole seconds,
/// which the documentation gives as always less than one billion.
#[verifier::external_body]
fn subsec_nanos(d: &std::time::Duration) -> (n: u32)
    ensures
        n < 1_000_000_000,
{
    d.subsec_nanos()
}

/// The time from the Unix epoch to now, as whole seconds and the nanoseconds
/// beyond them; `None` when the system clock reads a time before the epoch.
/// Which time it is depends on the clock.
pub(crate) fn unix_time_now() -> (r: Option<(u64, u32)>)
    ensures
        r matches Some(t) ==> t.1 < 1_000_000_000,
{
    let now = system_time_now();
    match elapsed_since_unix_epoch(&now) {
        Some(elapsed) => Some((whole_secs(&elapsed), subsec_nanos(&elapsed))),
        None => None,
    }
}

/// The whole milliseconds of a time of `secs` seconds and `nanos` nanoseconds.
pub open spec fn millis_of(secs: u64, nanos: u32) -> nat {
    (secs * 1000 + nanos / 1_000_000) as nat
}

/// The whole milliseconds of a time of `secs` seconds and `nanos` nanoseconds,
/// as `Duration::as_millis` gives them.
pub fn millis(secs: u64, nanos: u32) -> (m: u128)
    ensures
        m == millis_of(secs, nanos),
{
    (secs as u128) * 1000 + (nanos / 1_000_000) as u128
}

/// The proleptic Gregorian date, as (year, month, day), of the day `days` days
/// after 1970-01-01 (before it, where negative): the count is taken to a
/// March-based year within a 400-year era, and the month and day are read off
/// the day of that year.
pub open spec fn civil_from_days(days: int) -> (int, int, int) {
    let z = days + 719_468;
    let era = z / 146_097;
    let doe = z - era * 146_097;
    let yoe = (doe - doe / 1_460 + doe / 36_524 - doe / 146_096) / 365;
    let doy = doe - (365 * yoe + yoe / 4 - yoe / 100);
    let mp = (5 * doy + 2) / 153;
    let day = doy - (153 * mp + 2) / 5 + 1;
    let month = if mp < 10 { mp + 3 } else { mp - 9 };
    let year: int = yoe + era * 400 + if month <= 2 { 1int } else { 0int };
    (year, month, day)
}

/// `date` is the calendar date, in the fixed offset of `offset_secs` seconds
/// east of UTC, of the instant `secs` seconds after the Unix epoch.
pub open spec fn is_date_of_instant(date: (i32, u32, u32), secs: int, offset_secs: int) -> bool {
    civil_from_days((secs + offset_secs) / 86_400) == (date.0 as int, date.1 as int, date.2 as int)
}

/// Calls `chrono::DateTime::from_timestamp(secs, 0)` and, where it gives an
/// instant, moves it into the offset with
/// `with_timezone(&FixedOffset::east_opt(offset_secs))` and returns its `year()`,
/// `month()` and `day()`. chrono's dates are proleptic Gregorian and a fixed
/// offset shifts the instant by `offset_secs` seconds, so the date is
/// [`civil_from_days`] of the whole days from the epoch to the shifted instant.
/// chrono documents month as 1..=12 and day as 1..=31; its source keeps years
/// from -262143 to 262142, so every instant from the epoch to the end of the
/// year 9999 is represented. Where instants far outside that range give `None`
/// is not stated. `east_opt` succeeds exactly for offsets under one day.
#[verifier::external_body]
fn chrono_civil_date(secs: i64, offset_secs: i32) -> (r: Option<(i32, u32, u32)>)
    requires
        -86_400 < offset_secs < 86_400,
    ensures
        r matches Some(d) ==> is_date_of_instant(d, secs as int, offset_secs as int),
        r matches Some(d) ==> 1 <= d.1 <= 12 && 1 <= d.2 <= 31,
        0 <= secs <= 253_402_300_799 ==> r is Some,
{
    match chrono::DateTime::from_timestamp(secs, 0) {
        Some(instant) => {
            let local = instant.with_timezone(&chrono::FixedOffset::east_opt(offset_secs).unwrap());
            Some((local.year(), local.month(), local.day()))
        },
        None => None,
    }
}

/// The date of an instant in a fixed offset is the UTC date of the instant
/// shifted by that offset: a date in Beijing time is the UTC date eight hours
/// later.
pub proof fn law_offset_date_is_shifted_utc_date(date: (i32, u32, u32), secs: int, offset_secs: int)
    ensures
        is_date_of_instant(date, secs, offset_secs) <==> is_date_of_instant(date, secs + offset_secs, 0),
{
}

/// Offset of Beijing time from UTC, in seconds.
pub const BEIJING_OFFSET_SECS: i32 = 28800;

/// The UTC date of the instant `secs` seconds after the Unix epoch.
pub fn utc_date_at(secs: i64) -> (d: Option<(i32, u32, u32)>)
    ensures
        d matches Some(date) ==> is_date_of_instant(date, secs as int, 0),
        d matches Some(date) ==> 1 <= date.1 <= 12 && 1 <= date.2 <= 31,
        0 <= secs <= 253_402_300_799 ==> d is Some,
{
    chrono_civil_date(secs, 0)
}

/// The Beijing (UTC+8) date of the instant `secs` seconds after the Unix epoch.
pub fn beijing_date_at(secs: i64) -> (d: Option<(i32, u32, u32)>)
    ensures
        d matches Some(date) ==> is_date_of_instant(date, secs as int, BEIJING_OFFSET_SECS as int),
        d matches Some(date) ==> 1 <= date.1 <= 12 && 1 <= date.2 <= 31,
        0 <= secs <= 253_402_300_799 ==> d is Some,
{
    chrono_civil_date(secs, BEIJING_OFFSET_SECS)
}

/// The clock's reading in whole seconds since the epoch: `None` before the
/// epoch, and past the seconds an `i64` holds.
pub(crate) fn unix_secs_now() -> (r: Option<i64>)
    ensures
        r matches Some(secs) ==> secs >= 0,
{
    match unix_time_now() {
        Some((secs, _)) => if secs <= i64::MAX as u64 {
            Some(secs as i64)
        } else {
            None
        },
        None => None,
    }
}

/// `date` is the date in the given offset of some instant at or after the epoch.
pub open spec fn date_of_some_instant(date: (i32, u32, u32), offset_secs: i32) -> bool {
    exists|secs: i64| secs >= 0 && #[trigger] is_date_of_instant(date, secs as int, offset_secs as int)
}

/// Today's date in UTC, as (year, month, day): the UTC date of the clock's
/// reading, or `None` where the clock reads a time before the epoch or one
/// chrono cannot represent.
pub fn utc_now_date() -> (date: Option<(i32, u32, u32)>)
    ensures
        date matches Some(d) ==> date_of_some_instant(d, 0) && 1 <= d.1 <= 12 && 1 <= d.2 <= 31,
{
    match unix_secs_now() {
        Some(secs) => utc_date_at(secs),
        None => None,
    }
}

/// Today's date in Beijing time (UTC+8), as (year, month, day): the Beijing
/// date of the clock's reading, or `None` where the clock reads a time before
/// the epoch or one chrono cannot represent.
pub fn now_date() -> (date: Option<(i32, u32, u32)>)
    ensures
        date matches Some(d) ==> date_of_some_instant(d, BEIJING_OFFSET_SECS) && 1 <= d.1 <= 12 && 1 <= d.2 <= 31,
{
    match unix_secs_now() {
        Some(secs) => beijing_date_at(secs),
        None => None,
    }
}

} // verus!
