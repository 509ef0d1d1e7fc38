//! Time and chance, as the machine has them.
use vstd::prelude::*;

use crate::text::chars::{slice_text, to_chars};
use crate::text::number::is_digit;

verus! {

/// A point in time of the machine's monotonic clock.
#[verifier::external_type_specification]
#[verifier::external_body]
pub struct ExInstant(std::time::Instant);

/// `std::time::Instant::now` gives the present moment; nothing is said of it.
pub assume_specification[ std::time::Instant::now ]() -> std::time::Instant
;

/// Elapsed time since a moment: `std::time::Instant::elapsed`; nothing is said
/// of it.
pub assume_specification[ std::time::Instant::elapsed ](
    i: &std::time::Instant,
) -> std::time::Duration
;

/// A moment as year, month, day, hour, minute and second: all but the year have
/// two digits each. The year has four digits, or more characters with a sign in
/// front.
pub open spec fn timestamp_text(s: Seq<char>) -> bool {
    &&& s.len() >= 14
    &&& vstd::utf8::is_ascii_chars(s)
    &&& forall|i: int| s.len() - 10 <= i < s.len() ==> is_digit(#[trigger] s[i])
    &&& s.len() == 14 ==> forall|i: int| 0 <= i < 14 ==> is_digit(#[trigger] s[i])
}

/// The local time as `chrono::Local::now` has it, written by `DateTime::format`
/// as year, month, day, hour, minute and second without anything between them.
/// The years 0 to 9999 are written with four digits, others with a sign and at
/// least four. Which moment it is depends on the clock and the time zone, so
/// nothing is said of that.
#[verifier::external_body]
pub(crate) fn now_timestamp() -> (r: String)
    ensures
        timestamp_text(r@),
{
    chrono::Local::now().format("%Y%m%d%H%M%S").to_string()
}

pub open spec fn is_lower_hex(c: char) -> bool {
    '0' <= c <= '9' || 'a' <= c <= 'f'
}

/// A text of `n` lower-case hexadecimal digits.
pub open spec fn hex_text(s: Seq<char>, n: nat) -> bool {
    s.len() == n && forall|i: int| 0 <= i < s.len() ==> is_lower_hex(#[trigger] s[i])
}

/// A fresh random identifier: `uuid::Uuid::new_v4`, written by `Uuid::simple`
/// as 32 lower-case hexadecimal digits. Which digits they are is left to chance.
#[verifier::external_body]
pub(crate) fn random_hex() -> (r: String)
    ensures
        hex_text(r@, 32),
{
    uuid::Uuid::new_v4().simple().to_string()
}

/// A fresh random token of six hexadecimal digits.
pub fn random_token() -> (r: String)
    ensures
        hex_text(r@, 6),
{
    let all = random_hex();
    let v = to_chars(all.as_str());
    let r = slice_text(&v, 0, 6);
    assert forall|i: int| 0 <= i < r@.len() implies is_lower_hex(#[trigger] r@[i]) by {
        assert(r@[i] == all@[i]);
    }
    r
}

pub open spec fn is_leap(year: int) -> bool {
    year % 4 == 0 && (year % 100 != 0 || year % 400 == 0)
}

pub open spec fn month_days(year: int, month: int) -> int {
    if month == 2 {
        if is_leap(year) {
            29
        } else {
            28
        }
    } else if month == 4 || month == 6 || month == 9 || month == 11 {
        30
    } else {
        31
    }
}

/// The days of a year before a month.
pub open spec fn days_before_month(year: int, month: int) -> int
    decreases month,
{
    if month <= 1 {
        0
    } else {
        days_before_month(year, month - 1) + month_days(year, month - 1)
    }
}

/// The days from the first day of the year 1 to the first day of a year.
pub open spec fn days_before_year(year: int) -> int {
    365 * (year - 1) + (year - 1) / 4 - (year - 1) / 100 + (year - 1) / 400
}

/// A day of the calendar and a time of day.
pub open spec fn is_moment(
    year: int,
    month: int,
    day: int,
    hour: int,
    minute: int,
    second: int,
) -> bool {
    1 <= month <= 12 && 1 <= day <= month_days(year, month) && 0 <= hour < 24 && 0 <= minute < 60
        && 0 <= second < 60
}

/// The milliseconds of universal time since the start of 1970.
pub open spec fn epoch_millis(
    year: int,
    month: int,
    day: int,
    hour: int,
    minute: int,
    second: int,
) -> int {
    let days = days_before_year(year) - days_before_year(1970) + days_before_month(year, month)
        + day - 1;
    (((days * 24 + hour) * 60 + minute) * 60 + second) * 1000
}

/// A moment of universal time in milliseconds since the start of 1970: chrono's
/// `NaiveDate::from_ymd_opt`, `NaiveDate::and_hms_opt` and, of the moment as a
/// `DateTime` in `Utc`, `DateTime::timestamp_millis`. There is a moment exactly for
/// the days of the calendar and the times of day, within the years that chrono
/// knows.
#[verifier::external_body]
pub(crate) fn utc_millis(
    year: i32,
    month: u32,
    day: u32,
    hour: u32,
    minute: u32,
    second: u32,
) -> (r: Option<i64>)
    ensures
        -262000 <= year <= 262000 ==> match r {
            Some(ms) => is_moment(
                year as int,
                month as int,
                day as int,
                hour as int,
                minute as int,
                second as int,
            ) && ms == epoch_millis(
                year as int,
                month as int,
                day as int,
                hour as int,
                minute as int,
                second as int,
            ),
            None => !is_moment(
                year as int,
                month as int,
                day as int,
                hour as int,
                minute as int,
                second as int,
            ),
        },
{
    let day = chrono::NaiveDate::from_ymd_opt(year, month, day)?;
    Some(day.and_hms_opt(hour, minute, second)?.and_utc().timestamp_millis())
}

} // verus!
