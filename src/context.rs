//! The display-ready view of one fetch: conditions in the chosen units, a
//! seven-day projection, a 24-hour window from the current local hour, and
//! when precipitation starts or stops.
use vstd::prelude::*;
use vstd::string::*;
use crate::conversions::{
    celsius_to_fahrenheit, clock_text_of, day_text_of, fahrenheit_of, inches_of, iso8601_to_date,
    iso8601_to_seconds, iso8601_to_time, kmh_to_mph, mm_to_inches, mph_of, stamp_seconds_of,
};
use crate::location::LocationData;
use crate::mappings::{
    compass_of, condition_code_of, degrees2compass, description_of, meteo2openweather_codes,
    weather_code2icon, weather_description, weather_icon_of,
};
use crate::settings::{Settings, Units};
use crate::text::{int_text, int_text_of};
use crate::weather::{Daily, Hourly, Weather};

verus! {

/// Hours in the forward-looking hourly window.
pub const HOURLY_WINDOW: usize = 24;

/// The UTC offset in effect: offsets of a day or more in magnitude are not
/// valid and count as zero.
pub open spec fn offset_in_effect(utc_offset_seconds: i32) -> int {
    if -86400 < utc_offset_seconds < 86400 {
        utc_offset_seconds as int
    } else {
        0
    }
}

/// The first index at or after `i` whose stamp parses and is not earlier than
/// `target` (local seconds); 0 when there is none.
pub open spec fn hour_index_from(times: Seq<String>, target: int, i: int) -> int
    decreases times.len() - i,
{
    if i >= times.len() || i < 0 {
        0
    } else if stamp_seconds_of(times[i]@) is Some && stamp_seconds_of(times[i]@)->0 >= target {
        i
    } else {
        hour_index_from(times, target, i + 1)
    }
}

/// The index of the current hour: the first hour whose local stamp is at or
/// after the local time of `now`, or 0 when no hour is.
pub open spec fn current_hour_index(times: Seq<String>, now: u64, utc_offset_seconds: i32) -> int {
    hour_index_from(times, now + offset_in_effect(utc_offset_seconds), 0)
}

proof fn lemma_hour_index_bound(times: Seq<String>, target: int, i: int)
    requires
        0 <= i,
    ensures
        0 <= hour_index_from(times, target, i),
        times.len() == 0 || hour_index_from(times, target, i) < times.len(),
    decreases times.len() - i,
{
    if i < times.len() {
        lemma_hour_index_bound(times, target, i + 1);
    }
}

/// The end of the hourly window that starts at `start`.
pub open spec fn window_end(len: int, start: int) -> int {
    if start + HOURLY_WINDOW < len {
        start + HOURLY_WINDOW
    } else {
        len
    }
}

/// The first index in `j..stop` whose precipitation is (`wet`) or is not
/// (`!wet`) above zero.
pub open spec fn first_change(p: Seq<i32>, wet: bool, j: int, stop: int) -> Option<int>
    decreases stop - j,
{
    if j >= stop {
        None
    } else if (p[j] > 0) == wet {
        Some(j)
    } else {
        first_change(p, wet, j + 1, stop)
    }
}

/// Whether it precipitates in the hour at `start`.
pub open spec fn wet_at(p: Seq<i32>, start: int) -> bool {
    0 <= start < p.len() && p[start] > 0
}

/// Hours from `start` to a found index.
pub open spec fn hours_after(found: Option<int>, start: int) -> Option<i32> {
    match found {
        Some(j) => Some((j - start) as i32),
        None => None,
    }
}

/// When precipitation starts (when dry now) or stops (when wet now), in hours
/// from the hour at `start`, within the window; the other one is absent.
pub open spec fn precipitation_timing(p: Seq<i32>, start: int) -> (Option<i32>, Option<i32>) {
    let stop = window_end(p.len() as int, start);
    if wet_at(p, start) {
        (None, hours_after(first_change(p, false, start, stop), start))
    } else {
        (hours_after(first_change(p, true, start, stop), start), None)
    }
}

proof fn lemma_first_change_bounds(p: Seq<i32>, wet: bool, j: int, stop: int)
    ensures
        first_change(p, wet, j, stop) is Some ==> j <= first_change(p, wet, j, stop)->0 < stop,
    decreases stop - j,
{
    if j < stop {
        lemma_first_change_bounds(p, wet, j + 1, stop);
    }
}

/// Finds the index of the current hour in the hourly stamps: the first stamp
/// at or after the local time of `current_timestamp` (seconds since 1970, UTC),
/// or 0 when there is none. Stamps that do not parse are passed over.
pub fn find_current_hour_index(
    hourly_times: &Vec<String>,
    current_timestamp: u64,
    utc_offset_seconds: i32,
) -> (r: usize)
    ensures
        r == current_hour_index(hourly_times@, current_timestamp, utc_offset_seconds),
        hourly_times@.len() == 0 || r < hourly_times@.len(),
{
    let offset: i64 = if -86400 < utc_offset_seconds && utc_offset_seconds < 86400 {
        utc_offset_seconds as i64
    } else {
        0
    };
    let target: i128 = current_timestamp as i128 + offset as i128;
    proof {
        lemma_hour_index_bound(hourly_times@, target as int, 0);
    }
    let mut i: usize = 0;
    while i < hourly_times.len()
        invariant
            i <= hourly_times@.len(),
            target == current_timestamp + offset_in_effect(utc_offset_seconds),
            hour_index_from(hourly_times@, target as int, 0) == hour_index_from(
                hourly_times@,
                target as int,
                i as int,
            ),
        decreases hourly_times.len() - i,
    {
        match iso8601_to_seconds(&hourly_times[i]) {
            Some(t) => {
                if t as i128 >= target {
                    return i;
                }
            },
            None => {},
        }
        i = i + 1;
    }
    0
}

/// When precipitation starts or stops within the 24 hours from
/// `current_hour_index`: hours until it starts when it is dry at that hour,
/// until it stops when it is wet; never both.
pub fn calculate_precipitation_timing(hourly: &Hourly, current_hour_index: usize) -> (r: (
    Option<i32>,
    Option<i32>,
))
    ensures
        r == precipitation_timing(hourly.precipitation@, current_hour_index as int),
        !(r.0 is Some && r.1 is Some),
{
    let p = &hourly.precipitation;
    let n = p.len();
    let wet = current_hour_index < n && p[current_hour_index] > 0;
    let stop: usize = if current_hour_index < n && n - current_hour_index > HOURLY_WINDOW {
        current_hour_index + HOURLY_WINDOW
    } else {
        n
    };
    let ghost start = current_hour_index as int;
    let mut j: usize = current_hour_index;
    let mut found: Option<usize> = None;
    while j < stop
        invariant_except_break
            found is None,
        invariant
            n == p@.len(),
            stop == window_end(n as int, start),
            start <= j,
            stop <= n,
            wet == wet_at(p@, start),
            first_change(p@, !wet, start, stop as int) == first_change(p@, !wet, j as int, stop as int),
        ensures
            found is None ==> j >= stop,
            found is Some ==> found->0 == j && j < stop && (p@[j as int] > 0) == !wet,
        decreases stop - j,
    {
        if (p[j] > 0) == !wet {
            found = Some(j);
            break;
        }
        j = j + 1;
    }
    proof {
        lemma_first_change_bounds(p@, !wet, start, stop as int);
    }
    let hours: Option<i32> = match found {
        Some(k) => {
            proof {
                assert(first_change(p@, !wet, j as int, stop as int) == Some(j as int));
            }
            Some((k - current_hour_index) as i32)
        },
        None => None,
    };
    if wet {
        (None, hours)
    } else {
        (hours, None)
    }
}

/// The sentence on precipitation timing: "Stops in N hours" when wet at the
/// current hour and an end is known, "Starts in N hours" when dry and a start
/// is known ("hour" for one), absent otherwise.
pub open spec fn precipitation_sentence(
    start: Option<i32>,
    end: Option<i32>,
    wet: bool,
) -> Option<Seq<char>> {
    let found = if wet { end } else { start };
    match found {
        Some(h) => Some((if wet { "Stops in "@ } else { "Starts in "@ }) + int_text_of(h as int)
            + (if h == 1 { " hour"@ } else { " hours"@ })),
        None => None,
    }
}

/// Describes precipitation timing in words, such as "Starts in 6 hours" or
/// "Stops in 1 hour".
pub fn create_precipitation_description(
    precipitation_start: Option<i32>,
    precipitation_end: Option<i32>,
    hourly: &Hourly,
    current_hour_index: usize,
) -> (r: Option<String>)
    ensures
        r is Some == precipitation_sentence(
            precipitation_start,
            precipitation_end,
            wet_at(hourly.precipitation@, current_hour_index as int),
        ) is Some,
        r is Some ==> r->0@ == precipitation_sentence(
            precipitation_start,
            precipitation_end,
            wet_at(hourly.precipitation@, current_hour_index as int),
        )->0,
{
    let wet = current_hour_index < hourly.precipitation.len()
        && hourly.precipitation[current_hour_index] > 0;
    let found = if wet { precipitation_end } else { precipitation_start };
    match found {
        Some(hours) => {
            let mut text = if wet { String::from_str("Stops in ") } else { String::from_str("Starts in ") };
            let number = int_text(hours);
            text.append(number.as_str());
            if hours == 1 {
                text.append(" hour");
            } else {
                text.append(" hours");
            }
            Some(text)
        },
        None => None,
    }
}

/// A temperature in the chosen units (thousandths of a degree).
pub open spec fn temperature_in(celsius: i32, units: Units) -> i64 {
    if units == Units::Imperial { fahrenheit_of(celsius as int) as i64 } else { celsius as i64 }
}

/// A speed in the chosen units (thousandths of km/h or mph).
pub open spec fn speed_in(kmh: i32, units: Units) -> i64 {
    if units == Units::Imperial { mph_of(kmh as int) as i64 } else { kmh as i64 }
}

/// A precipitation amount in the chosen units (thousandths of mm or inches).
pub open spec fn amount_in(mm: i32, units: Units) -> i64 {
    if units == Units::Imperial { inches_of(mm as int) as i64 } else { mm as i64 }
}

fn temperature_for(celsius: i32, units: Units) -> (r: i64)
    ensures
        r == temperature_in(celsius, units),
{
    if units == Units::Imperial { celsius_to_fahrenheit(celsius) } else { celsius as i64 }
}

fn speed_for(kmh: i32, units: Units) -> (r: i64)
    ensures
        r == speed_in(kmh, units),
{
    if units == Units::Imperial { kmh_to_mph(kmh) } else { kmh as i64 }
}

fn amount_for(mm: i32, units: Units) -> (r: i64)
    ensures
        r == amount_in(mm, units),
{
    if units == Units::Imperial { mm_to_inches(mm) } else { mm as i64 }
}

/// One day of the forecast projection.
#[derive(Debug, Clone)]
pub struct ContextDaily {
    pub date: String,
    pub weather_code: i32,
    pub weather_icon: String,
    pub weather_description: String,
    pub openweather_code: String,
    pub uv_index: i64,
    pub precipitation_sum: i64,
    pub precipitation_hours: i64,
    pub precipitation_chance: i32,
    pub temperature_high: i64,
    pub temperature_low: i64,
}

/// One hour of the forecast window.
#[derive(Debug, Clone)]
pub struct ContextHourly {
    pub time: String,
    pub temperature: i64,
    pub precipitation_probability: i32,
    pub precipitation: i64,
    pub weather_code: i32,
    pub weather_icon: String,
}

/// The display-ready view of one fetch. Magnitudes are thousandths of the
/// unit that the matching `*_unit` field names.
#[derive(Debug, Clone)]
pub struct Context {
    pub city: String,
    pub country: String,
    pub temperature: i64,
    pub temperature_low: i64,
    pub temperature_high: i64,
    pub feels_like: i64,
    pub temperature_unit: String,
    pub wind_speed: i64,
    pub wind_gusts: i64,
    pub wind_speed_unit: String,
    pub wind_direction: i32,
    pub wind_compass: String,
    pub weather_code: i32,
    pub weather_icon: String,
    pub weather_description: String,
    pub openweather_code: String,
    pub humidity: i32,
    pub humidity_unit: String,
    pub pressure: i64,
    pub pressure_unit: String,
    pub sunrise: String,
    pub sunset: String,
    pub uv_index: i64,
    pub precipitation_chance: i32,
    pub precipitation_sum: i64,
    pub precipitation_unit: String,
    pub precipitation_hours: i64,
    pub precipitation_start: Option<i32>,
    pub precipitation_end: Option<i32>,
    pub precipitation_description: Option<String>,
    pub forecast: Vec<ContextDaily>,
    pub hourly: Vec<ContextHourly>,
    pub cache_age: u64,
}

/// The seconds from `created_at` to `now`; zero when `created_at` lies ahead.
pub open spec fn age_at(now: u64, created_at: u64) -> u64 {
    if now >= created_at { (now - created_at) as u64 } else { 0 }
}

impl ContextDaily {
    /// This entry projects day `i` of the daily forecast in the given units.
    pub open spec fn projects(&self, d: Daily, i: int, units: Units) -> bool {
        &&& self.date@ == day_text_of(d.time@[i]@)
        &&& self.weather_code == d.weather_code@[i]
        &&& self.weather_icon@ == weather_icon_of(d.weather_code@[i])
        &&& self.weather_description@ == description_of(d.weather_code@[i])
        &&& self.openweather_code@ == condition_code_of(d.weather_code@[i])
        &&& self.uv_index == d.uv_index_max@[i] as i64
        &&& self.precipitation_sum == amount_in(d.precipitation_sum@[i], units)
        &&& self.precipitation_hours == d.precipitation_hours@[i] as i64
        &&& self.precipitation_chance == d.precipitation_probability_max@[i]
        &&& self.temperature_high == temperature_in(d.temperature_2m_max@[i], units)
        &&& self.temperature_low == temperature_in(d.temperature_2m_min@[i], units)
    }

    /// Both entries hold the same values.
    pub open spec fn same_as(&self, o: ContextDaily) -> bool {
        &&& self.date@ == o.date@
        &&& self.weather_code == o.weather_code
        &&& self.weather_icon@ == o.weather_icon@
        &&& self.weather_description@ == o.weather_description@
        &&& self.openweather_code@ == o.openweather_code@
        &&& self.uv_index == o.uv_index
        &&& self.precipitation_sum == o.precipitation_sum
        &&& self.precipitation_hours == o.precipitation_hours
        &&& self.precipitation_chance == o.precipitation_chance
        &&& self.temperature_high == o.temperature_high
        &&& self.temperature_low == o.temperature_low
    }
}

impl ContextHourly {
    /// This entry projects hour `i` of the hourly forecast in the given units.
    pub open spec fn projects(&self, h: Hourly, i: int, units: Units) -> bool {
        &&& self.time@ == clock_text_of(h.time@[i]@)
        &&& self.temperature == temperature_in(h.temperature_2m@[i], units)
        &&& self.precipitation_probability == h.precipitation_probability@[i]
        &&& self.precipitation == amount_in(h.precipitation@[i], units)
        &&& self.weather_code == h.weather_code@[i]
        &&& self.weather_icon@ == weather_icon_of(h.weather_code@[i])
    }

    /// Both entries hold the same values.
    pub open spec fn same_as(&self, o: ContextHourly) -> bool {
        &&& self.time@ == o.time@
        &&& self.temperature == o.temperature
        &&& self.precipitation_probability == o.precipitation_probability
        &&& self.precipitation == o.precipitation
        &&& self.weather_code == o.weather_code
        &&& self.weather_icon@ == o.weather_icon@
    }
}

/// The unit names of a system: temperature, wind speed, precipitation.
pub open spec fn unit_names(units: Units) -> (Seq<char>, Seq<char>, Seq<char>) {
    if units == Units::Imperial {
        ("\u{b0}F"@, "mph"@, "in"@)
    } else {
        ("\u{b0}C"@, "km/h"@, "mm"@)
    }
}

impl Context {
    /// The current conditions of this context are those of the snapshot and
    /// location, in the given units, at time `now`.
    pub open spec fn current_from(
        &self,
        w: Weather,
        l: LocationData,
        units: Units,
        now: u64,
    ) -> bool {
        let c = w.current;
        let d = w.daily;
        &&& self.city@ == l.city@
        &&& self.country@ == l.country_code@
        &&& self.temperature == temperature_in(c.temperature_2m, units)
        &&& self.temperature_low == temperature_in(d.temperature_2m_min@[0], units)
        &&& self.temperature_high == temperature_in(d.temperature_2m_max@[0], units)
        &&& self.feels_like == temperature_in(c.apparent_temperature, units)
        &&& self.temperature_unit@ == unit_names(units).0
        &&& self.wind_speed == speed_in(c.wind_speed_10m, units)
        &&& self.wind_gusts == speed_in(c.wind_gusts_10m, units)
        &&& self.wind_speed_unit@ == unit_names(units).1
        &&& self.wind_direction == c.wind_direction_10m
        &&& self.wind_compass@ == compass_of(c.wind_direction_10m as int)
        &&& self.weather_code == c.weather_code
        &&& self.weather_icon@ == weather_icon_of(c.weather_code)
        &&& self.weather_description@ == description_of(c.weather_code)
        &&& self.openweather_code@ == condition_code_of(c.weather_code)
        &&& self.humidity == c.relative_humidity_2m
        &&& self.humidity_unit@ == "%"@
        &&& self.pressure == c.pressure_msl as i64
        &&& self.pressure_unit@ == "hPa"@
        &&& self.sunrise@ == clock_text_of(d.sunrise@[0]@)
        &&& self.sunset@ == clock_text_of(d.sunset@[0]@)
        &&& self.uv_index == d.uv_index_max@[0] as i64
        &&& self.precipitation_chance == d.precipitation_probability_max@[0]
        &&& self.precipitation_sum == amount_in(d.precipitation_sum@[0], units)
        &&& self.precipitation_unit@ == unit_names(units).2
        &&& self.precipitation_hours == d.precipitation_hours@[0] as i64
        &&& self.cache_age == age_at(now, w.created_at)
    }

    /// This context is the one built from the snapshot and location, in the
    /// given units, at time `now`.
    pub open spec fn built_from(&self, w: Weather, l: LocationData, units: Units, now: u64) -> bool {
        let start = current_hour_index(w.hourly.time@, now, w.utc_offset_seconds);
        let stop = window_end(w.hourly.time@.len() as int, start);
        let timing = precipitation_timing(w.hourly.precipitation@, start);
        let sentence = precipitation_sentence(
            timing.0,
            timing.1,
            wet_at(w.hourly.precipitation@, start),
        );
        &&& self.current_from(w, l, units, now)
        &&& self.precipitation_start == timing.0
        &&& self.precipitation_end == timing.1
        &&& (self.precipitation_description is Some == sentence is Some)
        &&& (self.precipitation_description is Some ==> self.precipitation_description->0@
            == sentence->0)
        &&& self.forecast@.len() == w.daily.time@.len()
        &&& forall|i: int|
            0 <= i < self.forecast@.len() ==> #[trigger] self.forecast@[i].projects(w.daily, i, units)
        &&& self.hourly@.len() == stop - start
        &&& forall|i: int|
            0 <= i < self.hourly@.len() ==> #[trigger] self.hourly@[i].projects(
                w.hourly,
                start + i,
                units,
            )
    }

    /// Both contexts hold the same values, field for field.
    pub open spec fn same_as(&self, o: Context) -> bool {
        &&& self.city@ == o.city@
        &&& self.country@ == o.country@
        &&& self.temperature == o.temperature
        &&& self.temperature_low == o.temperature_low
        &&& self.temperature_high == o.temperature_high
        &&& self.feels_like == o.feels_like
        &&& self.temperature_unit@ == o.temperature_unit@
        &&& self.wind_speed == o.wind_speed
        &&& self.wind_gusts == o.wind_gusts
        &&& self.wind_speed_unit@ == o.wind_speed_unit@
        &&& self.wind_direction == o.wind_direction
        &&& self.wind_compass@ == o.wind_compass@
        &&& self.weather_code == o.weather_code
        &&& self.weather_icon@ == o.weather_icon@
        &&& self.weather_description@ == o.weather_description@
        &&& self.openweather_code@ == o.openweather_code@
        &&& self.humidity == o.humidity
        &&& self.humidity_unit@ == o.humidity_unit@
        &&& self.pressure == o.pressure
        &&& self.pressure_unit@ == o.pressure_unit@
        &&& self.sunrise@ == o.sunrise@
        &&& self.sunset@ == o.sunset@
        &&& self.uv_index == o.uv_index
        &&& self.precipitation_chance == o.precipitation_chance
        &&& self.precipitation_sum == o.precipitation_sum
        &&& self.precipitation_unit@ == o.precipitation_unit@
        &&& self.precipitation_hours == o.precipitation_hours
        &&& self.precipitation_start == o.precipitation_start
        &&& self.precipitation_end == o.precipitation_end
        &&& (self.precipitation_description is Some == o.precipitation_description is Some)
        &&& (self.precipitation_description is Some ==> self.precipitation_description->0@
            == o.precipitation_description->0@)
        &&& self.forecast@.len() == o.forecast@.len()
        &&& (forall|i: int|
            0 <= i < self.forecast@.len() ==> #[trigger] self.forecast@[i].same_as(o.forecast@[i]))
        &&& self.hourly@.len() == o.hourly@.len()
        &&& (forall|i: int|
            0 <= i < self.hourly@.len() ==> #[trigger] self.hourly@[i].same_as(o.hourly@[i]))
        &&& self.cache_age == o.cache_age
    }
}

impl Context {
    /// Builds the context of a snapshot and a location in the units of the
    /// settings, as of time `now` (seconds since 1970, UTC).
    pub fn build_at(weather: Weather, location: LocationData, settings: Settings, now: u64) -> (r:
        Context)
        requires
            weather.wf(),
        ensures
            r.built_from(weather, location, settings.units, now),
    {
        let units = settings.units;
        let current = &weather.current;
        let daily = &weather.daily;
        let hourly = &weather.hourly;
        let cache_age: u64 = if now >= weather.created_at { now - weather.created_at } else { 0 };

        let mut dailies: Vec<ContextDaily> = Vec::new();
        let mut i: usize = 0;
        while i < daily.time.len()
            invariant
                daily.wf(),
                i <= daily.time@.len(),
                dailies@.len() == i,
                forall|k: int| 0 <= k < i ==> #[trigger] dailies@[k].projects(*daily, k, units),
            decreases daily.time.len() - i,
        {
            let code = daily.weather_code[i];
            let entry = ContextDaily {
                date: iso8601_to_date(daily.time[i].clone()),
                weather_code: code,
                weather_icon: weather_code2icon(code),
                weather_description: weather_description(code),
                openweather_code: meteo2openweather_codes(code),
                uv_index: daily.uv_index_max[i] as i64,
                precipitation_sum: amount_for(daily.precipitation_sum[i], units),
                precipitation_hours: daily.precipitation_hours[i] as i64,
                precipitation_chance: daily.precipitation_probability_max[i],
                temperature_high: temperature_for(daily.temperature_2m_max[i], units),
                temperature_low: temperature_for(daily.temperature_2m_min[i], units),
            };
            dailies.push(entry);
            i = i + 1;
        }

        let start = find_current_hour_index(&hourly.time, now, weather.utc_offset_seconds);
        let n = hourly.time.len();
        let stop: usize = if n > start && n - start > HOURLY_WINDOW {
            start + HOURLY_WINDOW
        } else {
            n
        };
        proof {
            if n == 0 {
                assert(start == 0);
            }
        }
        let mut hourlies: Vec<ContextHourly> = Vec::new();
        let mut j: usize = start;
        while j < stop
            invariant
                hourly.wf(),
                n == hourly.time@.len(),
                stop == window_end(n as int, start as int),
                start <= j <= stop <= n,
                hourlies@.len() == j - start,
                forall|k: int|
                    0 <= k < hourlies@.len() ==> #[trigger] hourlies@[k].projects(
                        *hourly,
                        start + k,
                        units,
                    ),
            decreases stop - j,
        {
            let code = hourly.weather_code[j];
            let entry = ContextHourly {
                time: iso8601_to_time(hourly.time[j].clone()),
                temperature: temperature_for(hourly.temperature_2m[j], units),
                precipitation_probability: hourly.precipitation_probability[j],
                precipitation: amount_for(hourly.precipitation[j], units),
                weather_code: code,
                weather_icon: weather_code2icon(code),
            };
            hourlies.push(entry);
            j = j + 1;
        }

        let (precipitation_start, precipitation_end) = calculate_precipitation_timing(hourly, start);
        let precipitation_description = create_precipitation_description(
            precipitation_start,
            precipitation_end,
            hourly,
            start,
        );
        let imperial = units == Units::Imperial;
        proof {
            reveal_strlit("\u{b0}F");
            reveal_strlit("\u{b0}C");
        }
        Context {
            city: location.city,
            country: location.country_code,
            temperature: temperature_for(current.temperature_2m, units),
            temperature_low: temperature_for(daily.temperature_2m_min[0], units),
            temperature_high: temperature_for(daily.temperature_2m_max[0], units),
            feels_like: temperature_for(current.apparent_temperature, units),
            temperature_unit: String::from_str(if imperial { "\u{b0}F" } else { "\u{b0}C" }),
            wind_speed: speed_for(current.wind_speed_10m, units),
            wind_gusts: speed_for(current.wind_gusts_10m, units),
            wind_speed_unit: String::from_str(if imperial { "mph" } else { "km/h" }),
            wind_direction: current.wind_direction_10m,
            wind_compass: degrees2compass(current.wind_direction_10m),
            weather_code: current.weather_code,
            weather_icon: weather_code2icon(current.weather_code),
            weather_description: weather_description(current.weather_code),
            openweather_code: meteo2openweather_codes(current.weather_code),
            humidity: current.relative_humidity_2m,
            humidity_unit: String::from_str("%"),
            pressure: current.pressure_msl as i64,
            pressure_unit: String::from_str("hPa"),
            sunrise: iso8601_to_time(daily.sunrise[0].clone()),
            sunset: iso8601_to_time(daily.sunset[0].clone()),
            uv_index: daily.uv_index_max[0] as i64,
            precipitation_chance: daily.precipitation_probability_max[0],
            precipitation_sum: amount_for(daily.precipitation_sum[0], units),
            precipitation_unit: String::from_str(if imperial { "in" } else { "mm" }),
            precipitation_hours: daily.precipitation_hours[0] as i64,
            precipitation_start,
            precipitation_end,
            precipitation_description,
            forecast: dailies,
            hourly: hourlies,
            cache_age,
        }
    }

    /// Builds the context of a snapshot and a location in the units of the
    /// settings, as of the time the clock reads during the call.
    pub fn build(weather: Weather, location: LocationData, settings: Settings) -> (r: Context)
        requires
            weather.wf(),
        ensures
            exists|now: u64| r.built_from(weather, location, settings.units, now),
    {
        let now = crate::clock::get_now();
        Self::build_at(weather, location, settings, now)
    }
}

/// Precipitation timing never holds both a start and an end. When the
/// precipitation changes (from dry to wet, or from wet to dry) within the
/// window, exactly one of them is set: a start when it is dry at the current
/// hour, an end when it is wet. When it does not change, both are absent.
pub proof fn lemma_timing_exclusive(c: Context, w: Weather, l: LocationData, units: Units, now: u64)
    requires
        c.built_from(w, l, units, now),
    ensures
        !(c.precipitation_start is Some && c.precipitation_end is Some),
        ({
            let p = w.hourly.precipitation@;
            let start = current_hour_index(w.hourly.time@, now, w.utc_offset_seconds);
            let stop = window_end(p.len() as int, start);
            let changes = first_change(p, !wet_at(p, start), start, stop) is Some;
            &&& changes ==> (c.precipitation_start is Some) != (c.precipitation_end is Some)
            &&& changes && wet_at(p, start) ==> c.precipitation_end is Some
            &&& changes && !wet_at(p, start) ==> c.precipitation_start is Some
            &&& !changes ==> c.precipitation_start is None && c.precipitation_end is None
        }),
{
}

/// Rebuilding from the same snapshot, location and time after toggling the
/// units twice gives a context equal field for field to the first one.
pub proof fn lemma_rebuild_after_double_toggle(
    first: Context,
    again: Context,
    w: Weather,
    l: LocationData,
    units: Units,
    now: u64,
)
    requires
        first.built_from(w, l, units, now),
        again.built_from(w, l, crate::settings::toggled(crate::settings::toggled(units)), now),
    ensures
        first.same_as(again),
{
    assert forall|i: int| 0 <= i < first.forecast@.len() implies #[trigger] first.forecast@[i].same_as(
        again.forecast@[i],
    ) by {
        assert(first.forecast@[i].projects(w.daily, i, units));
        assert(again.forecast@[i].projects(w.daily, i, units));
    }
    assert forall|i: int| 0 <= i < first.hourly@.len() implies #[trigger] first.hourly@[i].same_as(
        again.hourly@[i],
    ) by {
        let start = current_hour_index(w.hourly.time@, now, w.utc_offset_seconds);
        assert(first.hourly@[i].projects(w.hourly, start + i, units));
        assert(again.hourly@[i].projects(w.hourly, start + i, units));
    }
}

} // verus!
