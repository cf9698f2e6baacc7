//! The weather-code tables under a second set of names.
use vstd::prelude::*;
use crate::mappings::{
    condition_code_of, description_of, icon_of, meteo2openweather_codes, openweather_weather_icon,
    weather_icon_of,
};

verus! {

/// Maps a weather code to its icon.
pub fn weather_code_to_icon(code: i32) -> (r: String)
    ensures
        r@ == weather_icon_of(code),
{
    owm_weather_icon(meteo_to_owm_code_map(code))
}

/// Maps a condition code to its icon.
pub fn owm_weather_icon(condition: String) -> (r: String)
    ensures
        r@ == icon_of(condition@),
{
    openweather_weather_icon(condition)
}

/// Maps a weather code to its condition code, "unknown" when unmapped.
pub fn meteo_to_owm_code_map(code: i32) -> (r: String)
    ensures
        r@ == condition_code_of(code),
{
    meteo2openweather_codes(code)
}

/// Maps a weather code to a description in plain words.
pub fn weather_description(code: i32) -> (r: String)
    ensures
        r@ == description_of(code),
{
    crate::mappings::weather_description(code)
}

} // verus!
