//! Lookup tables from weather codes to condition codes, icons and descriptions,
//! and from wind directions to compass points.
use vstd::prelude::*;
use vstd::string::*;
use crate::text::text_eq;

verus! {

/// The condition code (in the "01d" style of icon sets) of a weather code.
pub open spec fn condition_code_of(code: i32) -> Seq<char> {
    match code {
        0 => "01d"@,
        1 => "02d"@,
        2 => "03d"@,
        3 => "04d"@,
        45 => "50d"@,
        48 => "50d"@,
        51 => "09d"@,
        53 => "09d"@,
        55 => "09d"@,
        56 => "09n"@,
        57 => "09n"@,
        61 => "10d"@,
        63 => "10d"@,
        65 => "10d"@,
        66 => "13n"@,
        67 => "13n"@,
        71 => "13d"@,
        73 => "13d"@,
        75 => "13d"@,
        77 => "13d"@,
        80 => "09d"@,
        81 => "09d"@,
        82 => "09d"@,
        85 => "13n"@,
        86 => "13n"@,
        95 => "11d"@,
        96 | 99 => "11n"@,
        _ => "unknown"@,
    }
}

/// The human-readable description of a weather code.
pub open spec fn description_of(code: i32) -> Seq<char> {
    match code {
        0 => "Clear sky"@,
        1 => "Mainly clear"@,
        2 => "Partly cloudy"@,
        3 => "Overcast"@,
        45 => "Fog"@,
        48 => "Depositing rime fog"@,
        51 => "Drizzle, light"@,
        53 => "Drizzle, moderate"@,
        55 => "Drizzle, dense"@,
        56 => "Freezing drizzle, light"@,
        57 => "Freezing drizzle, dense"@,
        61 => "Rain, slight"@,
        63 => "Rain, moderate"@,
        65 => "Rain, heavy"@,
        66 => "Freezing rain, light"@,
        67 => "Freezing rain, heavy"@,
        71 => "Snow fall, slight"@,
        73 => "Snow fall, moderate"@,
        75 => "Snow fall, heavy"@,
        77 => "Snow grains"@,
        80 => "Rain showers, slight"@,
        81 => "Rain showers, moderate or heavy"@,
        82 => "Heavy rain showers"@,
        85 => "Snow showers slight to moderate"@,
        86 => "Snow showers heavy"@,
        95 => "Thunderstorm"@,
        96 | 99 => "Thunderstorm with hail"@,
        _ => "Unknown weather code"@,
    }
}

/// The icon of a condition code; a generic glyph when the code is not known.
pub open spec fn icon_of(condition: Seq<char>) -> Seq<char> {
    if condition == "01d"@ {
        "󰖙"@
    } else if condition == "01n"@ {
        "󰖔"@
    } else if condition == "02d"@ || condition == "02n"@ {
        "󰖕"@
    } else if condition == "03d"@ || condition == "03n"@ {
        "󰖐"@
    } else if condition == "04d"@ || condition == "04n"@ {
        "󰖐"@
    } else if condition == "09d"@ || condition == "09n"@ {
        "󰖗"@
    } else if condition == "10d"@ || condition == "10n"@ {
        "󰖖"@
    } else if condition == "11d"@ || condition == "11n"@ {
        "󰖓"@
    } else if condition == "13d"@ || condition == "13n"@ {
        "󰼶"@
    } else if condition == "50d"@ || condition == "50n"@ {
        "\u{e35c}"@
    } else {
        "\u{e374}"@
    }
}

/// The icon of a weather code.
pub open spec fn weather_icon_of(code: i32) -> Seq<char> {
    icon_of(condition_code_of(code))
}

/// Maps a weather code to its condition code, "unknown" when unmapped.
pub fn meteo2openweather_codes(code: i32) -> (r: String)
    ensures
        r@ == condition_code_of(code),
{
    let s = match code {
        0 => "01d",
        1 => "02d",
        2 => "03d",
        3 => "04d",
        45 => "50d",
        48 => "50d",
        51 => "09d",
        53 => "09d",
        55 => "09d",
        56 => "09n",
        57 => "09n",
        61 => "10d",
        63 => "10d",
        65 => "10d",
        66 => "13n",
        67 => "13n",
        71 => "13d",
        73 => "13d",
        75 => "13d",
        77 => "13d",
        80 => "09d",
        81 => "09d",
        82 => "09d",
        85 => "13n",
        86 => "13n",
        95 => "11d",
        96 | 99 => "11n",
        _ => "unknown",
    };
    String::from_str(s)
}

/// Maps a weather code to a description in plain words.
pub fn weather_description(code: i32) -> (r: String)
    ensures
        r@ == description_of(code),
{
    let s = match code {
        0 => "Clear sky",
        1 => "Mainly clear",
        2 => "Partly cloudy",
        3 => "Overcast",
        45 => "Fog",
        48 => "Depositing rime fog",
        51 => "Drizzle, light",
        53 => "Drizzle, moderate",
        55 => "Drizzle, dense",
        56 => "Freezing drizzle, light",
        57 => "Freezing drizzle, dense",
        61 => "Rain, slight",
        63 => "Rain, moderate",
        65 => "Rain, heavy",
        66 => "Freezing rain, light",
        67 => "Freezing rain, heavy",
        71 => "Snow fall, slight",
        73 => "Snow fall, moderate",
        75 => "Snow fall, heavy",
        77 => "Snow grains",
        80 => "Rain showers, slight",
        81 => "Rain showers, moderate or heavy",
        82 => "Heavy rain showers",
        85 => "Snow showers slight to moderate",
        86 => "Snow showers heavy",
        95 => "Thunderstorm",
        96 | 99 => "Thunderstorm with hail",
        _ => "Unknown weather code",
    };
    String::from_str(s)
}

/// Maps a condition code to its icon, a generic glyph when unknown.
pub fn openweather_weather_icon(condition: String) -> (r: String)
    ensures
        r@ == icon_of(condition@),
{
    let c = condition.as_str();
    let s = 
    if text_eq(c, "01d") {
        "󰖙"
    } else if text_eq(c, "01n") {
        "󰖔"
    } else if text_eq(c, "02d") || text_eq(c, "02n") {
        "󰖕"
    } else if text_eq(c, "03d") || text_eq(c, "03n") {
        "󰖐"
    } else if text_eq(c, "04d") || text_eq(c, "04n") {
        "󰖐"
    } else if text_eq(c, "09d") || text_eq(c, "09n") {
        "󰖗"
    } else if text_eq(c, "10d") || text_eq(c, "10n") {
        "󰖖"
    } else if text_eq(c, "11d") || text_eq(c, "11n") {
        "󰖓"
    } else if text_eq(c, "13d") || text_eq(c, "13n") {
        "󰼶"
    } else if text_eq(c, "50d") || text_eq(c, "50n") {
        "\u{e35c}"
    } else {
        "\u{e374}"
    };
    String::from_str(s)
}

/// Maps a weather code to its icon.
pub fn weather_code2icon(code: i32) -> (r: String)
    ensures
        r@ == weather_icon_of(code),
{
    openweather_weather_icon(meteo2openweather_codes(code))
}

/// The compass point of a segment index from 0 to 8, north at both ends.
pub open spec fn compass_point(k: int) -> Seq<char> {
    if k == 0 || k == 8 {
        "N"@
    } else if k == 1 {
        "NE"@
    } else if k == 2 {
        "E"@
    } else if k == 3 {
        "SE"@
    } else if k == 4 {
        "S"@
    } else if k == 5 {
        "SW"@
    } else if k == 6 {
        "W"@
    } else {
        "NW"@
    }
}

/// The nearest 45-degree segment of a direction's magnitude, taken modulo 360
/// (a remainder of 22 degrees or less rounds down, of 23 or more up).
pub open spec fn compass_segment(degrees: int) -> int {
    let m = if degrees < 0 { -degrees } else { degrees };
    (m % 360 + 22) / 45
}

/// The compass point of a wind direction in degrees; a negative direction that
/// does not round to north has none and reads "??".
pub open spec fn compass_of(degrees: int) -> Seq<char> {
    if degrees >= 0 || compass_segment(degrees) == 0 {
        compass_point(compass_segment(degrees))
    } else {
        "??"@
    }
}

/// Converts a wind direction in whole degrees to one of eight compass points.
pub fn degrees2compass(degrees: i32) -> (r: String)
    ensures
        r@ == compass_of(degrees as int),
{
    let a: i64 = degrees as i64;
    let m: u64 = if a < 0 { (0 - a) as u64 } else { a as u64 };
    let k: u64 = (m % 360 + 22) / 45;
    let s = if a < 0 && k != 0 {
        "??"
    } else if k == 0 || k == 8 {
        "N"
    } else if k == 1 {
        "NE"
    } else if k == 2 {
        "E"
    } else if k == 3 {
        "SE"
    } else if k == 4 {
        "S"
    } else if k == 5 {
        "SW"
    } else if k == 6 {
        "W"
    } else {
        "NW"
    };
    String::from_str(s)
}

} // verus!
