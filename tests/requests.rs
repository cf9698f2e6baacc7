use outside::bookmarks::{LocationList, LocationManager};
use outside::location::{lookup_plan, LocationData, LookupPlan};
use outside::state_manager::FetchError;
use outside::unitstrings::UnitStrings;
use outside::urls::{builder, coordinate_text, geocoding_url, ip_location_url, weather_url};

#[test]
fn coordinates_as_text() {
    assert_eq!(coordinate_text(525), "52.5");
    assert_eq!(coordinate_text(130), "13");
    assert_eq!(coordinate_text(-5), "-0.5");
    assert_eq!(coordinate_text(-1224), "-122.4");
    assert_eq!(coordinate_text(0), "0");
}

#[test]
fn request_addresses() {
    let w = weather_url(525, 134, &UnitStrings::imperial()).unwrap();
    assert!(w.starts_with(
        "https://api.open-meteo.com/v1/forecast?latitude=52.5&longitude=13.4&timezone=auto&forecast_days=7&current=temperature_2m%2C"
    ));
    assert!(w.ends_with("&temperature_unit=fahrenheit&wind_speed_unit=mph&precipitation_unit=inch"));
    assert_eq!(
        geocoding_url("New York", "US").unwrap(),
        "https://geocoding-api.open-meteo.com/v1/search?name=New+York&countryCode=US&count=10&language=en&format=json"
    );
    assert_eq!(ip_location_url().unwrap(), "http://ip-api.com/json?fields=33603794");
    assert_eq!(builder("not an address", vec![]), None);
}

#[test]
fn lookup_plans() {
    assert!(matches!(lookup_plan(""), Ok(LookupPlan::ByAddress)));
    match lookup_plan(" new york , us") {
        Ok(LookupPlan::ByName { name, country_code }) => {
            assert_eq!(name, "New York");
            assert_eq!(country_code, "US");
        },
        other => panic!("unexpected {other:?}"),
    }
    assert!(matches!(lookup_plan("Berlin"), Err(FetchError::InvalidLocation)));
}

#[test]
fn resolved_locations_are_normalized() {
    let d = LocationData::resolved("san francisco".to_string(), "us".to_string(), 378, -1224, String::new(), 7);
    assert_eq!(d.city, "San Francisco");
    assert_eq!(d.country_code, "US");
    assert_eq!(d.location, "San Francisco, US");
    assert_eq!(d.created_at, 7);
    let e = LocationData::resolved(String::new(), "de".to_string(), 0, 0, "x".to_string(), 0);
    assert_eq!(e.location, "x");
}

#[test]
fn cached_snapshots_expire() {
    let d = LocationData::resolved("berlin".to_string(), "de".to_string(), 525, 134, String::new(), 1000);
    assert!(d.is_fresh_for("berlin, de", 1000 + 14399));
    assert!(!d.is_fresh_for("berlin, de", 1000 + 14400));
    assert!(!d.is_fresh_for("paris, fr", 1001));
    let mut w = outside::weather::Weather::default();
    w.latitude = 525;
    w.longitude = 134;
    w.created_at = 50;
    assert!(w.is_fresh_for(525, 134, 649));
    assert!(!w.is_fresh_for(525, 134, 650));
    assert!(!w.is_fresh_for(525, 135, 60));
}

#[test]
fn configured_location_labels() {
    let mut m = LocationManager::new(LocationList::new());
    assert_eq!(m.get_current_location_string(""), "Automatic");
    assert_eq!(m.get_current_location_string("paris, fr"), "Paris, FR");
    assert!(m.ensure_location_in_list("Paris, FR".to_string()));
    assert!(!m.ensure_location_in_list("Paris, FR".to_string()));
    assert!(m.add_location("Automatic".to_string()));
    assert_eq!(m.get_location_list().locations.len(), 2);
    assert!(m.remove_location_by_name("Paris, FR"));
    assert_eq!(m.get_location_list().locations, vec!["Automatic"]);
}
