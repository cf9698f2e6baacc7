use outside::lookups::{meteo_to_owm_code_map, owm_weather_icon, weather_code_to_icon};
use outside::mappings::{
    degrees2compass, meteo2openweather_codes, openweather_weather_icon, weather_code2icon,
    weather_description,
};
use outside::settings::{OutputFormat, Units};
use outside::units::Units as UnitNames;
use outside::unitstrings::UnitStrings;
use outside::weather_display::WeatherDisplay;

#[test]
fn condition_codes_of_weather_codes() {
    assert_eq!(meteo2openweather_codes(0), "01d");
    assert_eq!(meteo2openweather_codes(45), "50d");
    assert_eq!(meteo2openweather_codes(66), "13n");
    assert_eq!(meteo2openweather_codes(99), "11n");
    assert_eq!(meteo2openweather_codes(4), "unknown");
    assert_eq!(meteo_to_owm_code_map(61), "10d");
}

#[test]
fn descriptions_of_weather_codes() {
    assert_eq!(weather_description(0), "Clear sky");
    assert_eq!(weather_description(81), "Rain showers, moderate or heavy");
    assert_eq!(weather_description(96), "Thunderstorm with hail");
    assert_eq!(weather_description(1000), "Unknown weather code");
    assert_eq!(outside::lookups::weather_description(3), "Overcast");
}

#[test]
fn icons_of_condition_codes() {
    assert_eq!(openweather_weather_icon("01d".to_string()), "\u{f0599}");
    assert_eq!(openweather_weather_icon("01n".to_string()), "\u{f0594}");
    assert_eq!(openweather_weather_icon("10n".to_string()), "\u{f0596}");
    assert_eq!(openweather_weather_icon("50d".to_string()), "\u{e35c}");
    assert_eq!(openweather_weather_icon("zz".to_string()), "\u{e374}");
    assert_eq!(owm_weather_icon("13d".to_string()), "\u{f0f36}");
    assert_eq!(weather_code2icon(0), "\u{f0599}");
    assert_eq!(weather_code_to_icon(45), "\u{e35c}");
}

#[test]
fn compass_points_of_directions() {
    assert_eq!(degrees2compass(0), "N");
    assert_eq!(degrees2compass(22), "N");
    assert_eq!(degrees2compass(23), "NE");
    assert_eq!(degrees2compass(90), "E");
    assert_eq!(degrees2compass(180), "S");
    assert_eq!(degrees2compass(270), "W");
    assert_eq!(degrees2compass(340), "N");
    assert_eq!(degrees2compass(315), "NW");
    assert_eq!(degrees2compass(360), "N");
    assert_eq!(degrees2compass(405), "NE");
    assert_eq!(degrees2compass(-10), "N");
    assert_eq!(degrees2compass(-90), "??");
}

#[test]
fn unit_names() {
    assert_eq!(Units::Metric.as_str(), "metric");
    assert_eq!(Units::Imperial.as_str(), "imperial");
    let m = Units::Metric.to_unit_strings();
    assert_eq!(m, UnitStrings::metric());
    assert_eq!(m.temperature, "celsius");
    assert_eq!(m.wind_speed, "kmh");
    assert_eq!(m.precipitation, "mm");
    let i = Units::Imperial.to_unit_strings();
    assert_eq!(i.temperature, "fahrenheit");
    assert_eq!(i.wind_speed, "mph");
    assert_eq!(i.precipitation, "inch");
    assert_eq!(UnitNames::imperial().precipitation, "inch");
    assert_eq!(UnitNames::metric().wind_speed, "kmh");
    assert_eq!(OutputFormat::default(), OutputFormat::Tui);
}

#[test]
fn fixed_messages() {
    assert_eq!(WeatherDisplay::format_loading_message(), "Loading weather data...");
    assert_eq!(WeatherDisplay::format_wait_message(), "Please wait...");
    assert_eq!(WeatherDisplay::format_units_switching_message(), "Switching units...");
}
