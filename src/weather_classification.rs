//! Classification of weather codes into broad categories.
use vstd::prelude::*;
use vstd::string::*;

verus! {

/// Broad category of a weather code.
#[derive(Debug, Clone, Copy, PartialEq, Eq, Structural)]
pub enum WeatherCondition {
    Fog,
    Snow,
    Rain,
    Clear,
}

/// The category of a weather code: fog for 40 to 49, snow for 70 to 79,
/// rain for 50 to 69 and 80 to 99, clear otherwise.
pub open spec fn condition_of(code: i32) -> WeatherCondition {
    if 40 <= code <= 49 {
        WeatherCondition::Fog
    } else if 70 <= code <= 79 {
        WeatherCondition::Snow
    } else if (50 <= code <= 69) || (80 <= code <= 99) {
        WeatherCondition::Rain
    } else {
        WeatherCondition::Clear
    }
}

/// The name of the style class of a category, if it has one.
pub open spec fn css_class_of(c: WeatherCondition) -> Option<Seq<char>> {
    match c {
        WeatherCondition::Fog => Some("fog"@),
        WeatherCondition::Snow => Some("snow"@),
        WeatherCondition::Rain => Some("rain"@),
        WeatherCondition::Clear => None,
    }
}

/// Classifies a weather code into a broad category.
pub fn classify_weather(weather_code: i32) -> (r: WeatherCondition)
    ensures
        r == condition_of(weather_code),
{
    if 40 <= weather_code && weather_code <= 49 {
        WeatherCondition::Fog
    } else if 70 <= weather_code && weather_code <= 79 {
        WeatherCondition::Snow
    } else if (50 <= weather_code && weather_code <= 69) || (80 <= weather_code
        && weather_code <= 99) {
        WeatherCondition::Rain
    } else {
        WeatherCondition::Clear
    }
}

/// Whether the weather of a code involves rain or snow.
pub fn has_precipitation(weather_code: i32) -> (r: bool)
    ensures
        r == (condition_of(weather_code) == WeatherCondition::Rain || condition_of(weather_code)
            == WeatherCondition::Snow),
{
    let c = classify_weather(weather_code);
    c == WeatherCondition::Rain || c == WeatherCondition::Snow
}

/// The style class of a weather code: "fog", "snow" or "rain", none when clear.
pub fn get_weather_css_class(weather_code: i32) -> (r: Option<String>)
    ensures
        r.is_some() == css_class_of(condition_of(weather_code)).is_some(),
        r.is_some() ==> r.unwrap()@ == css_class_of(condition_of(weather_code)).unwrap(),
{
    match classify_weather(weather_code) {
        WeatherCondition::Fog => Some(String::from_str("fog")),
        WeatherCondition::Snow => Some(String::from_str("snow")),
        WeatherCondition::Rain => Some(String::from_str("rain")),
        WeatherCondition::Clear => None,
    }
}

} // verus!
