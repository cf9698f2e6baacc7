//! Request addresses of the location and weather services.
use vstd::prelude::*;
use vstd::string::*;
use url::Url;
use crate::text::{digits_of, nat_text};
use crate::unitstrings::UnitStrings;

verus! {

/// The address made of a base address and query pairs (percent-encoded,
/// joined by "&"), when the base parses as an absolute URL.
pub uninterp spec fn url_with_query_of(
    base: Seq<char>,
    params: Seq<(Seq<char>, Seq<char>)>,
) -> Option<Seq<char>>;

/// The text view of query pairs.
pub open spec fn pairs_view(params: Seq<(String, String)>) -> Seq<(Seq<char>, Seq<char>)> {
    params.map_values(|p: (String, String)| (p.0@, p.1@))
}

/// Relies on `url::Url::parse`, then `query_pairs_mut().clear().extend_pairs`
/// and `to_string`: the address depends on the base and the pairs alone, and
/// is absent when the base does not parse.
#[verifier::external_body]
fn encode_url(base: &str, params: &Vec<(String, String)>) -> (r: Option<String>)
    ensures
        r is Some == url_with_query_of(base@, pairs_view(params@)) is Some,
        r is Some ==> r->0@ == url_with_query_of(base@, pairs_view(params@))->0,
{
    let mut url = Url::parse(base).ok()?;
    url.query_pairs_mut().clear().extend_pairs(params.iter());
    Some(url.to_string())
}

/// Builds a request address from a base address and query pairs; none when
/// the base address does not parse.
pub fn builder(base_url: &str, params: Vec<(String, String)>) -> (r: Option<String>)
    ensures
        r is Some == url_with_query_of(base_url@, pairs_view(params@)) is Some,
        r is Some ==> r->0@ == url_with_query_of(base_url@, pairs_view(params@))->0,
{
    encode_url(base_url, &params)
}

/// The decimal text of a coordinate held in tenths of a degree, as a
/// floating-point number prints: "52.5", "-0.5", "13" for 13.0.
pub open spec fn coordinate_text_of(tenths: int) -> Seq<char> {
    let m = if tenths < 0 { -tenths } else { tenths };
    (if tenths < 0 { "-"@ } else { ""@ }) + digits_of((m / 10) as nat) + (if m % 10 != 0 {
        "."@ + digits_of((m % 10) as nat)
    } else {
        ""@
    })
}

/// Writes a coordinate held in tenths of a degree as decimal text.
pub fn coordinate_text(tenths: i32) -> (r: String)
    ensures
        r@ == coordinate_text_of(tenths as int),
{
    let m: u64 = if tenths < 0 { (0 - (tenths as i64)) as u64 } else { tenths as u64 };
    let mut s = if tenths < 0 { String::from_str("-") } else { String::new() };
    let whole = nat_text(m / 10);
    s.append(whole.as_str());
    if m % 10 != 0 {
        let frac = nat_text(m % 10);
        s.append(".");
        s.append(frac.as_str());
    }
    proof {
        reveal_strlit("-");
        reveal_strlit(".");
        reveal_strlit("");
        assert(s@ =~= coordinate_text_of(tenths as int));
    }
    s
}

fn pair(k: &str, v: String) -> (r: (String, String))
    ensures
        r.0@ == k@,
        r.1 == v,
{
    (String::from_str(k), v)
}

/// The query pairs of a weather request for coordinates in tenths of a
/// degree, in the given units.
pub open spec fn weather_params(lat: i32, lon: i32, units: UnitStrings) -> Seq<(Seq<char>, Seq<char>)> {
    seq![
        ("latitude"@, coordinate_text_of(lat as int)),
        ("longitude"@, coordinate_text_of(lon as int)),
        ("timezone"@, "auto"@),
        ("forecast_days"@, "7"@),
        ("current"@, "temperature_2m,relative_humidity_2m,apparent_temperature,wind_speed_10m,wind_direction_10m,wind_gusts_10m,precipitation,weather_code,pressure_msl"@),
        ("daily"@, "sunrise,sunset,weather_code,temperature_2m_max,temperature_2m_min,precipitation_sum,precipitation_hours,precipitation_probability_max,uv_index_max"@),
        ("hourly"@, "temperature_2m,precipitation_probability,precipitation,weather_code"@),
        ("temperature_unit"@, units.temperature@),
        ("wind_speed_unit"@, units.wind_speed@),
        ("precipitation_unit"@, units.precipitation@),
    ]
}

/// The base address of the weather service.
pub const WEATHER_BASE: &'static str = "https://api.open-meteo.com/v1/forecast";

/// The base address of the geocoding service.
pub const GEOCODING_BASE: &'static str = "https://geocoding-api.open-meteo.com/v1/search";

/// The address of a weather request for coordinates in tenths of a degree.
pub fn weather_url(lat: i32, lon: i32, units: &UnitStrings) -> (r: Option<String>)
    ensures
        r is Some == url_with_query_of(WEATHER_BASE@, weather_params(lat, lon, *units)) is Some,
        r is Some ==> r->0@ == url_with_query_of(WEATHER_BASE@, weather_params(lat, lon, *units))->0,
{
    let mut params: Vec<(String, String)> = Vec::new();
    params.push(pair("latitude", coordinate_text(lat)));
    params.push(pair("longitude", coordinate_text(lon)));
    params.push(pair("timezone", String::from_str("auto")));
    params.push(pair("forecast_days", String::from_str("7")));
    params.push(pair("current", String::from_str("temperature_2m,relative_humidity_2m,apparent_temperature,wind_speed_10m,wind_direction_10m,wind_gusts_10m,precipitation,weather_code,pressure_msl")));
    params.push(pair("daily", String::from_str("sunrise,sunset,weather_code,temperature_2m_max,temperature_2m_min,precipitation_sum,precipitation_hours,precipitation_probability_max,uv_index_max")));
    params.push(pair("hourly", String::from_str("temperature_2m,precipitation_probability,precipitation,weather_code")));
    params.push(pair("temperature_unit", units.temperature.clone()));
    params.push(pair("wind_speed_unit", units.wind_speed.clone()));
    params.push(pair("precipitation_unit", units.precipitation.clone()));
    proof {
        assert(pairs_view(params@) =~= weather_params(lat, lon, *units));
    }
    builder(WEATHER_BASE, params)
}

/// The query pairs of a geocoding request for a city and a country code.
pub open spec fn geocoding_params(name: Seq<char>, country_code: Seq<char>) -> Seq<(Seq<char>, Seq<char>)> {
    seq![
        ("name"@, name),
        ("countryCode"@, country_code),
        ("count"@, "10"@),
        ("language"@, "en"@),
        ("format"@, "json"@),
    ]
}

/// The address of a geocoding request for a city and a country code.
pub fn geocoding_url(name: &str, country_code: &str) -> (r: Option<String>)
    ensures
        r is Some == url_with_query_of(GEOCODING_BASE@, geocoding_params(name@, country_code@)) is Some,
        r is Some ==> r->0@ == url_with_query_of(GEOCODING_BASE@, geocoding_params(name@, country_code@))->0,
{
    let mut params: Vec<(String, String)> = Vec::new();
    params.push(pair("name", String::from_str(name)));
    params.push(pair("countryCode", String::from_str(country_code)));
    params.push(pair("count", String::from_str("10")));
    params.push(pair("language", String::from_str("en")));
    params.push(pair("format", String::from_str("json")));
    proof {
        assert(pairs_view(params@) =~= geocoding_params(name@, country_code@));
    }
    builder(GEOCODING_BASE, params)
}

/// The base address of the network-address location service.
pub const IP_LOCATION_BASE: &'static str = "http://ip-api.com/json";

/// The query pairs of a network-address location request.
pub open spec fn ip_location_params() -> Seq<(Seq<char>, Seq<char>)> {
    seq![("fields"@, "33603794"@)]
}

/// The address of a request for the location of this machine's network
/// address.
pub fn ip_location_url() -> (r: Option<String>)
    ensures
        r is Some == url_with_query_of(IP_LOCATION_BASE@, ip_location_params()) is Some,
        r is Some ==> r->0@ == url_with_query_of(IP_LOCATION_BASE@, ip_location_params())->0,
{
    let mut params: Vec<(String, String)> = Vec::new();
    params.push(pair("fields", String::from_str("33603794")));
    proof {
        assert(pairs_view(params@) =~= ip_location_params());
    }
    builder(IP_LOCATION_BASE, params)
}

} // verus!
