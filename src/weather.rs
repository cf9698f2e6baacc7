//! Raw weather snapshots as the weather service reports them, in metric units.
//!
//! Magnitudes are integer counts of thousandths of their unit: degrees
//! Celsius, km/h, mm, hPa, hours, and the UV index.
use vstd::prelude::*;

verus! {

/// How long, in seconds, a weather snapshot stays fresh: ten minutes.
pub const WEATHER_CACHE_SECONDS: u64 = 600;

/// Conditions now.
#[derive(Debug, Clone, Default)]
pub struct Current {
    pub apparent_temperature: i32,
    pub interval: i32,
    pub precipitation: i32,
    pub pressure_msl: i32,
    pub relative_humidity_2m: i32,
    pub temperature_2m: i32,
    pub weather_code: i32,
    pub wind_direction_10m: i32,
    pub wind_speed_10m: i32,
    pub wind_gusts_10m: i32,
}

/// Per-day forecast; index `i` of every field describes the same day.
#[derive(Debug, Clone, Default)]
pub struct Daily {
    pub time: Vec<String>,
    pub weather_code: Vec<i32>,
    pub sunrise: Vec<String>,
    pub sunset: Vec<String>,
    pub uv_index_max: Vec<i32>,
    pub precipitation_sum: Vec<i32>,
    pub precipitation_hours: Vec<i32>,
    pub precipitation_probability_max: Vec<i32>,
    pub temperature_2m_max: Vec<i32>,
    pub temperature_2m_min: Vec<i32>,
}

/// Per-hour forecast, stamped in the location's local time; index `i` of every
/// field describes the same hour.
#[derive(Debug, Clone, Default)]
pub struct Hourly {
    pub time: Vec<String>,
    pub temperature_2m: Vec<i32>,
    pub precipitation_probability: Vec<i32>,
    pub precipitation: Vec<i32>,
    pub weather_code: Vec<i32>,
}

/// A weather snapshot: current conditions, forecasts, the location's UTC
/// offset in seconds, and when the snapshot was made.
#[derive(Debug, Clone, Default)]
pub struct Weather {
    pub current: Current,
    pub timezone: String,
    pub utc_offset_seconds: i32,
    pub daily: Daily,
    pub hourly: Hourly,
    pub latitude: i32,
    pub longitude: i32,
    pub created_at: u64,
}

impl Daily {
    /// The per-day arrays are parallel and not empty.
    pub open spec fn wf(&self) -> bool {
        let n = self.time@.len();
        &&& n > 0
        &&& self.weather_code@.len() == n
        &&& self.sunrise@.len() == n
        &&& self.sunset@.len() == n
        &&& self.uv_index_max@.len() == n
        &&& self.precipitation_sum@.len() == n
        &&& self.precipitation_hours@.len() == n
        &&& self.precipitation_probability_max@.len() == n
        &&& self.temperature_2m_max@.len() == n
        &&& self.temperature_2m_min@.len() == n
    }
}

impl Hourly {
    /// The per-hour arrays are parallel.
    pub open spec fn wf(&self) -> bool {
        let n = self.time@.len();
        &&& self.temperature_2m@.len() == n
        &&& self.precipitation_probability@.len() == n
        &&& self.precipitation@.len() == n
        &&& self.weather_code@.len() == n
    }
}

impl Weather {
    /// The snapshot is valid: its forecast arrays are parallel and the daily
    /// ones are not empty.
    pub open spec fn wf(&self) -> bool {
        self.daily.wf() && self.hourly.wf()
    }

    /// Whether a stored snapshot answers a request for the same coordinates
    /// (in tenths of a degree) at time `now`: it has a creation time and is
    /// younger than ten minutes.
    pub fn is_fresh_for(&self, latitude: i32, longitude: i32, now: u64) -> (r: bool)
        ensures
            r == (self.latitude == latitude && self.longitude == longitude && self.created_at > 0
                && now >= self.created_at && now - self.created_at < WEATHER_CACHE_SECONDS),
    {
        self.latitude == latitude && self.longitude == longitude && self.created_at > 0 && now
            >= self.created_at && now - self.created_at < WEATHER_CACHE_SECONDS
    }
}

} // verus!
