use outside::text::{decimal_text, pad_end, pad_start, rounded_text};
use outside::context::{
    calculate_precipitation_timing, create_precipitation_description, find_current_hour_index,
    Context,
};
use outside::conversions::{
    celsius_to_fahrenheit, iso8601_to_date, iso8601_to_seconds, iso8601_to_time, kmh_to_mph,
    mm_to_inches,
};
use outside::location::LocationData;
use outside::settings::{toggle_units, Settings, Units};
use outside::weather::{Current, Daily, Hourly, Weather};
use outside::weather_display::WeatherDisplay;

/// 2024-01-01T00:00 UTC.
const MIDNIGHT: u64 = 1704067200;

fn hourly_with(precipitation: Vec<i32>) -> Hourly {
    let n = precipitation.len();
    let time = (0..n).map(|i| format!("2024-01-{:02}T{:02}:00", 1 + i / 24, i % 24)).collect();
    Hourly {
        time,
        temperature_2m: (0..n).map(|i| i as i32 * 1000).collect(),
        precipitation_probability: vec![10; n],
        precipitation,
        weather_code: vec![61; n],
    }
}

fn snapshot(precipitation: Vec<i32>) -> Weather {
    let days = 7;
    Weather {
        current: Current {
            apparent_temperature: 18500,
            interval: 900,
            precipitation: 0,
            pressure_msl: 1013200,
            relative_humidity_2m: 64,
            temperature_2m: 20000,
            weather_code: 3,
            wind_direction_10m: 90,
            wind_speed_10m: 10000,
            wind_gusts_10m: 25000,
        },
        timezone: "GMT".to_string(),
        utc_offset_seconds: 0,
        daily: Daily {
            time: (0..days).map(|d| format!("2024-01-{:02}", d + 1)).collect(),
            weather_code: vec![0, 45, 61, 71, 95, 3, 2],
            sunrise: vec!["2024-01-01T08:05".to_string(); days],
            sunset: vec!["2024-01-01T16:40".to_string(); days],
            uv_index_max: vec![1500; days],
            precipitation_sum: vec![2540; days],
            precipitation_hours: vec![3000; days],
            precipitation_probability_max: vec![40; days],
            temperature_2m_max: vec![25000; days],
            temperature_2m_min: vec![-10000; days],
        },
        hourly: hourly_with(precipitation),
        latitude: 525,
        longitude: 134,
        created_at: MIDNIGHT - 120,
    }
}

fn berlin() -> LocationData {
    LocationData {
        city: "Berlin".to_string(),
        country_code: "DE".to_string(),
        latitude: 525,
        longitude: 134,
        location: "Berlin, DE".to_string(),
        created_at: MIDNIGHT,
    }
}

fn settings(units: Units) -> Settings {
    Settings { location: "Berlin, DE".to_string(), units, ..Default::default() }
}

#[test]
fn rain_two_hours_ahead_starts_in_two_hours() {
    let mut p = vec![0, 0, 2100, 2100, 0];
    p.extend(vec![0; 43]);
    let c = Context::build_at(snapshot(p), berlin(), settings(Units::Metric), MIDNIGHT);
    assert_eq!(c.precipitation_start, Some(2));
    assert_eq!(c.precipitation_end, None);
    assert_eq!(c.precipitation_description, Some("Starts in 2 hours".to_string()));
}

#[test]
fn rain_now_stops_after_one_hour() {
    let mut p = vec![500, 0];
    p.extend(vec![0; 46]);
    let c = Context::build_at(snapshot(p), berlin(), settings(Units::Metric), MIDNIGHT);
    assert_eq!(c.precipitation_start, None);
    assert_eq!(c.precipitation_end, Some(1));
    assert_eq!(c.precipitation_description, Some("Stops in 1 hour".to_string()));
}

#[test]
fn no_transition_in_window_leaves_both_absent() {
    let mut p = vec![0; 24];
    p.extend(vec![1000; 24]);
    let c = Context::build_at(snapshot(p), berlin(), settings(Units::Metric), MIDNIGHT);
    assert_eq!(c.precipitation_start, None);
    assert_eq!(c.precipitation_end, None);
    assert_eq!(c.precipitation_description, None);
}

#[test]
fn hourly_window_starts_at_current_local_hour() {
    let w = snapshot(vec![0; 48]);
    assert_eq!(find_current_hour_index(&w.hourly.time, MIDNIGHT + 5 * 3600, 0), 5);
    assert_eq!(find_current_hour_index(&w.hourly.time, MIDNIGHT + 5 * 3600 + 1, 0), 6);
    // Two hours east of UTC: 03:00 UTC is 05:00 local.
    assert_eq!(find_current_hour_index(&w.hourly.time, MIDNIGHT + 3 * 3600, 7200), 5);
    // An offset of a whole day is not valid and counts as zero.
    assert_eq!(find_current_hour_index(&w.hourly.time, MIDNIGHT + 3 * 3600, 86400), 3);
    // Past the last hour: start from the beginning.
    assert_eq!(find_current_hour_index(&w.hourly.time, MIDNIGHT + 100 * 3600, 0), 0);
    let c = Context::build_at(w, berlin(), settings(Units::Metric), MIDNIGHT + 30 * 3600);
    assert_eq!(c.hourly.len(), 18);
    assert_eq!(c.hourly[0].temperature, 30000);
    assert_eq!(c.hourly[0].time, "06:00am");
}

#[test]
fn timing_directly_from_hourly() {
    let h = hourly_with(vec![0, 0, 0, 300]);
    assert_eq!(calculate_precipitation_timing(&h, 0), (Some(3), None));
    assert_eq!(calculate_precipitation_timing(&h, 3), (None, None));
    assert_eq!(calculate_precipitation_timing(&h, 9), (None, None));
    assert_eq!(create_precipitation_description(Some(1), None, &h, 0), Some("Starts in 1 hour".to_string()));
    assert_eq!(create_precipitation_description(None, Some(12), &h, 3), Some("Stops in 12 hours".to_string()));
    assert_eq!(create_precipitation_description(None, Some(12), &h, 0), None);
}

#[test]
fn metric_context_fields() {
    let c = Context::build_at(snapshot(vec![0; 48]), berlin(), settings(Units::Metric), MIDNIGHT);
    assert_eq!(c.city, "Berlin");
    assert_eq!(c.country, "DE");
    assert_eq!(c.temperature, 20000);
    assert_eq!(c.feels_like, 18500);
    assert_eq!(c.temperature_low, -10000);
    assert_eq!(c.temperature_unit, "\u{b0}C");
    assert_eq!(c.wind_speed, 10000);
    assert_eq!(c.wind_speed_unit, "km/h");
    assert_eq!(c.wind_compass, "E");
    assert_eq!(c.weather_description, "Overcast");
    assert_eq!(c.openweather_code, "04d");
    assert_eq!(c.humidity_unit, "%");
    assert_eq!(c.pressure, 1013200);
    assert_eq!(c.sunrise, "08:05am");
    assert_eq!(c.sunset, "04:40pm");
    assert_eq!(c.precipitation_unit, "mm");
    assert_eq!(c.cache_age, 120);
    assert_eq!(c.forecast.len(), 7);
    assert_eq!(c.forecast[0].date, "Mon 01/01");
    assert_eq!(c.forecast[1].weather_description, "Fog");
    assert_eq!(c.hourly.len(), 24);
}

#[test]
fn imperial_context_fields() {
    let c = Context::build_at(snapshot(vec![0; 48]), berlin(), settings(Units::Imperial), MIDNIGHT);
    assert_eq!(c.temperature, 68000);
    assert_eq!(c.temperature_low, 14000);
    assert_eq!(c.temperature_unit, "\u{b0}F");
    assert_eq!(c.wind_speed, 6213);
    assert_eq!(c.wind_speed_unit, "mph");
    assert_eq!(c.precipitation_sum, 100);
    assert_eq!(c.precipitation_unit, "in");
    assert_eq!(c.forecast[0].temperature_high, 77000);
}

#[test]
fn rebuild_after_double_toggle_is_identical() {
    let u = toggle_units(toggle_units(Units::Metric));
    assert_eq!(u, Units::Metric);
    let a = Context::build_at(snapshot(vec![0, 0, 700]), berlin(), settings(Units::Metric), MIDNIGHT);
    let b = Context::build_at(snapshot(vec![0, 0, 700]), berlin(), settings(u), MIDNIGHT);
    assert_eq!(format!("{a:?}"), format!("{b:?}"));
}

#[test]
fn unit_conversions() {
    assert_eq!(celsius_to_fahrenheit(0), 32000);
    assert_eq!(celsius_to_fahrenheit(100000), 212000);
    assert_eq!(celsius_to_fahrenheit(-40000), -40000);
    assert_eq!(celsius_to_fahrenheit(-1), 31999);
    assert_eq!(kmh_to_mph(100000), 62137);
    assert_eq!(mm_to_inches(25400), 1000);
    assert_eq!(mm_to_inches(-25400), -1000);
}

#[test]
fn date_and_time_texts() {
    assert_eq!(iso8601_to_time("2024-03-15T08:30".to_string()), "08:30am");
    assert_eq!(iso8601_to_time("2024-03-15T19:00".to_string()), "07:00pm");
    assert_eq!(iso8601_to_time("not a time".to_string()), "");
    assert_eq!(iso8601_to_date("2024-03-15".to_string()), "Fri 03/15");
    assert_eq!(iso8601_to_seconds(&"1970-01-01T01:00".to_string()), Some(3600));
    assert_eq!(iso8601_to_seconds(&"garbage".to_string()), None);
}

#[test]
fn dashboard_panel_texts() {
    let c = Context::build_at(snapshot(vec![0, 0, 700]), berlin(), settings(Units::Metric), MIDNIGHT);
    assert_eq!(
        WeatherDisplay::format_header_text(&c),
        "Berlin, DE\n\u{f0590} 20\u{b0}C \u{2022} Overcast \u{2022} Feels like 19\u{b0}C"
    );
    assert_eq!(
        WeatherDisplay::format_current_info(&c),
        "Temperature:     20\u{b0}C\nHumidity:        64%\nPressure:        1013.2 hPa\nWind:            10 km/h with gusts up to 25 km/h (E)\nUV Index:        1.5\nPrecipitation:   2.54 mm (40% chance)\n                 Starts in 2 hours\nSun:             08:05am \u{2022} 04:40pm"
    );
    let forecast = WeatherDisplay::format_forecast_text(&c);
    let lines: Vec<&str> = forecast.split('\n').collect();
    assert_eq!(lines.len(), 9);
    assert_eq!(lines[0], "Today      \u{f0599}  -10-25\u{b0}C  Clear sky");
    assert_eq!(lines[1], "Tomorrow   \u{e35c}  -10-25\u{b0}C  Fog");
    assert_eq!(lines[2], "Wed 01/03  \u{f0596}  -10-25\u{b0}C  Rain, slight (40%)");
    assert_eq!(lines[7], "");
    assert_eq!(lines[8], "");
}

#[test]
fn rounding_and_decimals() {
    assert_eq!(rounded_text(18500), "19");
    assert_eq!(rounded_text(18499), "18");
    assert_eq!(rounded_text(-2500), "-3");
    assert_eq!(rounded_text(-300), "-0");
    assert_eq!(decimal_text(1013200), "1013.2");
    assert_eq!(decimal_text(50), "0.05");
    assert_eq!(decimal_text(-1005), "-1.005");
    assert_eq!(decimal_text(7000), "7");
    assert_eq!(pad_end("ab".to_string(), 4), "ab  ");
    assert_eq!(pad_start("ab".to_string(), 4), "  ab");
    assert_eq!(pad_start("abcde".to_string(), 4), "abcde");
}
