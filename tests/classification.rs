use outside::weather_classification::{
    classify_weather, get_weather_css_class, has_precipitation, WeatherCondition,
};

#[test]
fn test_classify_weather() {
    assert_eq!(classify_weather(45), WeatherCondition::Fog);
    assert_eq!(classify_weather(75), WeatherCondition::Snow);
    assert_eq!(classify_weather(60), WeatherCondition::Rain);
    assert_eq!(classify_weather(85), WeatherCondition::Rain);
    assert_eq!(classify_weather(0), WeatherCondition::Clear);
    assert_eq!(classify_weather(30), WeatherCondition::Clear);
}

#[test]
fn test_has_precipitation() {
    assert!(!has_precipitation(45)); // fog
    assert!(has_precipitation(75)); // snow
    assert!(has_precipitation(60)); // rain
    assert!(has_precipitation(85)); // rain
    assert!(!has_precipitation(0)); // clear
}

#[test]
fn test_get_weather_css_class() {
    assert_eq!(get_weather_css_class(45), Some("fog".to_string()));
    assert_eq!(get_weather_css_class(75), Some("snow".to_string()));
    assert_eq!(get_weather_css_class(60), Some("rain".to_string()));
    assert_eq!(get_weather_css_class(0), None);
}

#[test]
fn classification_range_edges() {
    assert_eq!(classify_weather(40), WeatherCondition::Fog);
    assert_eq!(classify_weather(49), WeatherCondition::Fog);
    assert_eq!(classify_weather(50), WeatherCondition::Rain);
    assert_eq!(classify_weather(69), WeatherCondition::Rain);
    assert_eq!(classify_weather(70), WeatherCondition::Snow);
    assert_eq!(classify_weather(79), WeatherCondition::Snow);
    assert_eq!(classify_weather(99), WeatherCondition::Rain);
    assert_eq!(classify_weather(100), WeatherCondition::Clear);
    assert_eq!(classify_weather(-1), WeatherCondition::Clear);
}
