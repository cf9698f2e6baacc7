//! Unit conversions on fixed-point magnitudes, and date and time texts.
//!
//! Every magnitude is held as an integer count of thousandths of its unit
//! (a temperature of 21.5 degrees is 21500).
use vstd::prelude::*;
use chrono::{NaiveDate, NaiveDateTime};

verus! {

/// The local clock text ("08:30am") of an hour stamp "YYYY-MM-DDTHH:MM"; empty
/// when the stamp does not parse.
pub uninterp spec fn clock_text_of(stamp: Seq<char>) -> Seq<char>;

/// The day text ("Mon 03/15") of a date "YYYY-MM-DD"; empty when the date does
/// not parse.
pub uninterp spec fn day_text_of(date: Seq<char>) -> Seq<char>;

/// The seconds since 1970-01-01T00:00 of an hour stamp "YYYY-MM-DDTHH:MM" read
/// as if it were UTC, when it parses.
pub uninterp spec fn stamp_seconds_of(stamp: Seq<char>) -> Option<i64>;

/// Relies on chrono's `NaiveDateTime::parse_from_str` with "%Y-%m-%dT%H:%M"
/// and `format("%I:%M%P")`: the text depends on the stamp alone.
#[verifier::external_body]
fn format_clock(stamp: &str) -> (r: String)
    ensures
        r@ == clock_text_of(stamp@),
{
    match NaiveDateTime::parse_from_str(stamp, "%Y-%m-%dT%H:%M") {
        Ok(dt) => dt.format("%I:%M%P").to_string(),
        Err(_) => String::new(),
    }
}

/// Relies on chrono's `NaiveDate::parse_from_str` with "%Y-%m-%d" and
/// `format("%a %m/%d")`: the text depends on the date alone.
#[verifier::external_body]
fn format_day(date: &str) -> (r: String)
    ensures
        r@ == day_text_of(date@),
{
    match NaiveDate::parse_from_str(date, "%Y-%m-%d") {
        Ok(d) => d.format("%a %m/%d").to_string(),
        Err(_) => String::new(),
    }
}

/// Relies on chrono's `NaiveDateTime::parse_from_str` with "%Y-%m-%dT%H:%M"
/// and `and_utc().timestamp()`: the seconds depend on the stamp alone.
#[verifier::external_body]
fn stamp_seconds(stamp: &str) -> (r: Option<i64>)
    ensures
        r == stamp_seconds_of(stamp@),
{
    match NaiveDateTime::parse_from_str(stamp, "%Y-%m-%dT%H:%M") {
        Ok(dt) => Some(dt.and_utc().timestamp()),
        Err(_) => None,
    }
}

/// Converts an hour stamp "YYYY-MM-DDTHH:MM" to a clock text such as "08:30am".
pub fn iso8601_to_time(iso8601: String) -> (r: String)
    ensures
        r@ == clock_text_of(iso8601@),
{
    format_clock(iso8601.as_str())
}

/// Converts a date "YYYY-MM-DD" to a day text such as "Mon 03/15".
pub fn iso8601_to_date(iso8601: String) -> (r: String)
    ensures
        r@ == day_text_of(iso8601@),
{
    format_day(iso8601.as_str())
}

/// Reads an hour stamp "YYYY-MM-DDTHH:MM" as seconds since 1970 on the
/// stamp's own clock.
pub fn iso8601_to_seconds(iso8601: &String) -> (r: Option<i64>)
    ensures
        r == stamp_seconds_of(iso8601@),
{
    stamp_seconds(iso8601.as_str())
}

/// Integer division that rounds toward zero, as Rust's `/` does.
pub open spec fn div_toward_zero(a: int, b: int) -> int
    recommends
        b > 0,
{
    if a >= 0 {
        a / b
    } else {
        -((-a) / b)
    }
}

/// Degrees Fahrenheit of degrees Celsius, both in thousandths.
pub open spec fn fahrenheit_of(celsius: int) -> int {
    div_toward_zero(celsius * 9, 5) + 32000
}

/// Miles per hour of kilometres per hour, both in thousandths.
pub open spec fn mph_of(kmh: int) -> int {
    div_toward_zero(kmh * 621371, 1000000)
}

/// Inches of millimetres, both in thousandths.
pub open spec fn inches_of(mm: int) -> int {
    div_toward_zero(mm * 393701, 10000000)
}

/// Converts a temperature in thousandths of a degree Celsius to thousandths of
/// a degree Fahrenheit (F = C * 9 / 5 + 32), rounding toward zero.
pub fn celsius_to_fahrenheit(celsius: i32) -> (r: i64)
    ensures
        r == fahrenheit_of(celsius as int),
{
    let x: i64 = celsius as i64 * 9;
    x / 5 + 32000
}

/// Converts a speed in thousandths of km/h to thousandths of mph
/// (mph = km/h * 0.621371), rounding toward zero.
pub fn kmh_to_mph(kmh: i32) -> (r: i64)
    ensures
        r == mph_of(kmh as int),
{
    let x: i64 = kmh as i64 * 621371;
    x / 1000000
}

/// Converts a length in thousandths of a millimetre to thousandths of an inch
/// (in = mm * 0.0393701), rounding toward zero.
pub fn mm_to_inches(mm: i32) -> (r: i64)
    ensures
        r == inches_of(mm as int),
{
    let x: i64 = mm as i64 * 393701;
    x / 10000000
}

} // verus!
