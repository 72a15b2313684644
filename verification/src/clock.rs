//! The wall clock, read through std, and local-time rendering through chrono.
use vstd::prelude::*;
use crate::text::digit_char;
use std::time::{Duration, SystemTime, UNIX_EPOCH};

verus! {

/// The first and last day, counted from 1970-01-01, of chrono's date range
/// (years -262143 to 262142 of the proleptic Gregorian calendar).
pub open spec fn first_chrono_day() -> int {
    -96_465_292
}

pub open spec fn last_chrono_day() -> int {
    95_026_236
}

/// Whether `chrono::DateTime::from_timestamp(secs, 0)` gives a date: the day
/// the second falls on lies in chrono's date range.
pub open spec fn chrono_represents(secs: int) -> bool {
    first_chrono_day() <= secs / 86_400 <= last_chrono_day()
}

/// The month and day of the date `days` days after 1970-01-01 in the
/// proleptic Gregorian calendar.
pub open spec fn month_day_of(days: int) -> (int, int) {
    let z = days + 719_468;
    let era = z / 146_097;
    let doe = z - era * 146_097;
    let yoe = (doe - doe / 1_460 + doe / 36_524 - doe / 146_096) / 365;
    let doy = doe - (365 * yoe + yoe / 4 - yoe / 100);
    let mp = (5 * doy + 2) / 153;
    let day = doy - (153 * mp + 2) / 5 + 1;
    let month = if mp < 10 {
        mp + 3
    } else {
        mp - 9
    };
    (month, day)
}

/// A number below 100 in two digits.
pub open spec fn two_digits(n: int) -> Seq<char> {
    seq![digit_char(n / 10), digit_char(n % 10)]
}

/// `"%d.%m %H:%M"` of the instant `secs` seconds after the epoch, read on a
/// clock with no offset: day and month of its date, hour and minute of its
/// time of day.
pub open spec fn day_time_text(secs: int) -> Seq<char> {
    let (month, day) = month_day_of(secs / 86_400);
    let seconds_of_day = secs % 86_400;
    two_digits(day) + seq!['.'] + two_digits(month) + seq![' '] + two_digits(seconds_of_day / 3_600)
        + seq![':'] + two_digits((seconds_of_day % 3_600) / 60)
}

/// A local rendering of the instant `secs`: the text of the same instant
/// moved by some time-zone offset, which chrono keeps under a day.
pub open spec fn local_day_time_text(secs: int, text: Seq<char>) -> bool {
    exists|offset: int| -86_400 < offset < 86_400 && text == #[trigger] day_time_text(secs + offset)
}

#[verifier::external_type_specification]
#[verifier::external_body]
pub struct ExSystemTime(SystemTime);

/// Calls `SystemTime::now`. The time depends on the clock, so nothing is
/// claimed of it.
#[verifier::external_body]
fn system_now() -> SystemTime {
    SystemTime::now()
}

/// Calls `SystemTime::duration_since(UNIX_EPOCH)`: the time elapsed since
/// the epoch, or `None` where `time` lies before it (the call's error). The
/// duration depends on `time`, which is opaque here, so nothing more is
/// claimed.
#[verifier::external_body]
fn since_epoch(time: &SystemTime) -> Option<Duration> {
    match time.duration_since(UNIX_EPOCH) {
        Ok(elapsed) => Some(elapsed),
        Err(_) => None,
    }
}

/// Calls `Duration::as_secs`: the whole seconds of a duration, which is
/// opaque here, so nothing is claimed of the number.
#[verifier::external_body]
fn whole_seconds(duration: &Duration) -> u64 {
    duration.as_secs()
}

/// The timestamp for a count of whole seconds since the epoch: `None` where
/// there is no count (the clock reads before the epoch) or it does not fit
/// in `i64`.
pub fn stamp_of(secs: Option<u64>) -> (r: Option<i64>)
    ensures
        r == match secs {
            Some(s) => if s <= i64::MAX {
                Some(s as i64)
            } else {
                None::<i64>
            },
            None => None,
        },
{
    match secs {
        Some(s) => if s <= 9_223_372_036_854_775_807u64 {
            Some(s as i64)
        } else {
            None
        },
        None => None,
    }
}

/// The current time in whole seconds since the Unix epoch, or `None` where
/// the clock reads before the epoch (or beyond `i64`).
pub(crate) fn now_timestamp() -> (r: Option<i64>)
    ensures
        r matches Some(t) ==> t >= 0,
{
    let secs = match since_epoch(&system_now()) {
        Some(elapsed) => Some(whole_seconds(&elapsed)),
        None => None,
    };
    stamp_of(secs)
}

/// Calls `chrono::DateTime::from_timestamp(timestamp, 0)`, moves the date to
/// the machine's local time zone and renders it with `pattern`. `None` exactly
/// when chrono cannot represent the timestamp. The zone's offset depends on
/// the machine; chrono keeps every `FixedOffset` within a day, so the text is
/// that of the instant moved by less than a day. Which offset applies is left
/// unsaid.
#[verifier::external_body]
fn local_day_time(timestamp: i64, pattern: &str) -> (r: Option<String>)
    requires
        pattern@ == "%d.%m %H:%M"@,
    ensures
        r is Some <==> chrono_represents(timestamp as int),
        r matches Some(text) ==> local_day_time_text(timestamp as int, text@),
{
    match chrono::DateTime::from_timestamp(timestamp, 0) {
        Some(date) => Some(date.with_timezone(&chrono::Local).format(pattern).to_string()),
        None => None,
    }
}

/// A timestamp as local `dd.mm HH:MM`, or `неизвестно` where chrono cannot
/// represent it.
pub fn format_datetime(timestamp: i64) -> (r: String)
    ensures
        chrono_represents(timestamp as int) ==> local_day_time_text(timestamp as int, r@),
        !chrono_represents(timestamp as int) ==> r@ == "неизвестно"@,
{
    match local_day_time(timestamp, "%d.%m %H:%M") {
        Some(text) => text,
        None => String::from_str("неизвестно"),
    }
}

} // verus!
