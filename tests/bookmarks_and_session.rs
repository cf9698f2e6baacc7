use outside::bookmarks::{compare_labels, LocationList};
use outside::context::Context;
use outside::location::LocationData;
use outside::settings::{Settings, Units};
use outside::state_manager::{
    data_age_percent, failure_message, location_query, plan_add_bookmark, AddPlan, FetchError,
    ForecastMode, RefreshAction, TuiStateManager,
};
use outside::weather::{Current, Daily, Hourly, Weather};
use std::cmp::Ordering;

const T0: u64 = 1704067200;

fn list(labels: &[&str]) -> LocationList {
    LocationList { locations: labels.iter().map(|s| s.to_string()).collect() }
}

fn weather_at(temperature: i32) -> Weather {
    Weather {
        current: Current { temperature_2m: temperature, ..Default::default() },
        daily: Daily {
            time: vec!["2024-01-01".to_string()],
            weather_code: vec![0],
            sunrise: vec!["2024-01-01T08:00".to_string()],
            sunset: vec!["2024-01-01T16:00".to_string()],
            uv_index_max: vec![0],
            precipitation_sum: vec![0],
            precipitation_hours: vec![0],
            precipitation_probability_max: vec![0],
            temperature_2m_max: vec![0],
            temperature_2m_min: vec![0],
        },
        hourly: Hourly::default(),
        created_at: T0,
        ..Default::default()
    }
}

fn context_for(city: &str, country: &str, temperature: i32, now: u64) -> Context {
    let l = LocationData {
        city: city.to_string(),
        country_code: country.to_string(),
        ..Default::default()
    };
    Context::build_at(weather_at(temperature), l, Settings::default(), now)
}

fn session() -> TuiStateManager {
    let s = Settings { location: "Berlin, DE".to_string(), ..Default::default() };
    TuiStateManager::new(context_for("Berlin", "DE", 5000, T0 + 60), s, T0 + 60)
}

#[test]
fn sorted_view_puts_automatic_first() {
    let l = list(&["Tokyo, JP", "Automatic", "Berlin, DE"]);
    let (ordered, others) = l.get_sorted_locations();
    assert_eq!(ordered, vec!["Automatic", "Berlin, DE", "Tokyo, JP"]);
    assert_eq!(others, vec!["Berlin, DE", "Tokyo, JP"]);
    let (ordered, index) = l.get_sorted_locations_with_index("Tokyo, JP");
    assert_eq!(ordered.len(), 3);
    assert_eq!(index, Some(2));
    assert_eq!(l.get_sorted_locations_with_index("Oslo, NO").1, None);
}

#[test]
fn sorted_view_orders_by_city_then_country() {
    let l = list(&["Paris, US", "London, GB", "Paris, FR", "Zurich"]);
    let (ordered, _) = l.get_sorted_locations();
    assert_eq!(ordered, vec!["London, GB", "Paris, FR", "Paris, US", "Zurich"]);
    assert_eq!(compare_labels(&"Paris, FR".to_string(), &"Paris,US".to_string()), Ordering::Less);
    assert_eq!(compare_labels(&"b".to_string(), &"a, X".to_string()), Ordering::Greater);
}

#[test]
fn adding_twice_keeps_one_copy() {
    let mut l = list(&["Berlin, DE"]);
    assert!(l.add_location("Tokyo, JP".to_string()));
    assert_eq!(l.locations.len(), 2);
    assert!(!l.add_location("Tokyo, JP".to_string()));
    assert_eq!(l.locations, vec!["Berlin, DE", "Tokyo, JP"]);
}

#[test]
fn removing_absent_label_changes_nothing() {
    let mut l = list(&["Berlin, DE", "Tokyo, JP"]);
    assert!(!l.remove_location_by_name("Oslo, NO"));
    assert_eq!(l.locations.len(), 2);
    assert!(l.remove_location_by_name("Berlin, DE"));
    assert_eq!(l.locations, vec!["Tokyo, JP"]);
}

#[test]
fn normalizing_labels() {
    assert_eq!(LocationData::normalize_location_string("new york, us"), "New York, US");
    assert_eq!(LocationData::normalize_location_string("  los angeles ,  us "), "Los Angeles, US");
    assert_eq!(LocationData::normalize_location_string(""), "");
    assert_eq!(LocationData::normalize_location_string("a, b, c"), "a, b, c");
    assert_eq!(LocationData::normalize_city_name("new  york"), "New York");
}

#[test]
fn entering_bookmarks() {
    let l = list(&["Berlin, DE"]);
    assert!(matches!(plan_add_bookmark("", &l), AddPlan::Ignore));
    match plan_add_bookmark("berlin, de", &l) {
        AddPlan::AlreadyPresent(s) => assert_eq!(s, "Berlin, DE"),
        other => panic!("unexpected {other:?}"),
    }
    match plan_add_bookmark("oslo, no", &l) {
        AddPlan::Fetch(s) => assert_eq!(s, "Oslo, NO"),
        other => panic!("unexpected {other:?}"),
    }
    match plan_add_bookmark("Automatic", &l) {
        AddPlan::Fetch(s) => assert_eq!(s, "Automatic"),
        other => panic!("unexpected {other:?}"),
    }
}

#[test]
fn location_queries() {
    assert_eq!(location_query("Automatic"), Ok(String::new()));
    assert_eq!(location_query("Berlin, DE"), Ok("Berlin, DE".to_string()));
    assert_eq!(location_query("Berlin"), Err(FetchError::InvalidLocation));
    assert_eq!(location_query("a, b, c"), Err(FetchError::InvalidLocation));
    assert_eq!(failure_message("X, Y"), "Failed to fetch location data for: X, Y");
}

#[test]
fn new_session_state() {
    let m = session();
    assert_eq!(m.get_current_location(), "Berlin, DE");
    assert!(!m.is_loading());
    assert_eq!(m.get_forecast_mode(), ForecastMode::Daily);
    assert_eq!(m.get_state().weather_created_at, T0);
    let auto = TuiStateManager::new(context_for("Berlin", "DE", 0, T0), Settings::default(), T0);
    assert_eq!(auto.get_current_location(), "Automatic");
}

#[test]
fn refresh_needed_only_after_ten_minutes() {
    let mut m = session();
    m.update_context(context_for("Berlin", "DE", 1000, T0 + 1000), T0 + 1000);
    assert!(!m.needs_refresh(T0 + 1000));
    assert!(!m.needs_refresh(T0 + 1600));
    assert!(m.needs_refresh(T0 + 1601));
    assert!(m.needs_refresh(T0 + 5000));
    assert!(!m.needs_refresh(T0));
    assert!(matches!(m.refresh_action(T0 + 1200), RefreshAction::UpdateAge));
    match m.refresh_action(T0 + 2000) {
        RefreshAction::Fetch(label) => assert_eq!(label, "Berlin, DE"),
        RefreshAction::UpdateAge => panic!("expected a fetch"),
    }
    m.update_cache_age(T0 + 1300);
    assert_eq!(m.get_context().cache_age, 1300);
}

#[test]
fn toggles() {
    let mut m = session();
    assert_eq!(m.toggle_units(), Units::Imperial);
    assert_eq!(m.get_settings().units, Units::Imperial);
    assert_eq!(m.toggle_units(), Units::Metric);
    assert_eq!(m.toggle_forecast_mode(), ForecastMode::Hourly);
    assert_eq!(m.toggle_forecast_mode(), ForecastMode::Daily);
}

#[test]
fn failed_fetch_keeps_context_and_ends_loading() {
    let mut m = session();
    let before = format!("{:?}", m.get_context());
    let r = m.begin_fetch("Tokyo, JP".to_string());
    assert!(m.is_loading());
    assert!(m.fail_fetch(r.id));
    assert!(!m.is_loading());
    assert_eq!(format!("{:?}", m.get_context()), before);
    assert_eq!(m.get_current_location(), "Berlin, DE");
}

#[test]
fn stale_fetch_does_not_revert_selection() {
    let mut m = session();
    let a = m.begin_fetch("Tokyo, JP".to_string());
    let b = m.begin_fetch("Oslo, NO".to_string());
    assert!(m.complete_fetch(b, context_for("Oslo", "NO", 1000, T0 + 100), T0 + 100));
    assert_eq!(m.get_current_location(), "Oslo, NO");
    assert!(!m.complete_fetch(a, context_for("Tokyo", "JP", 9000, T0 + 200), T0 + 200));
    assert_eq!(m.get_current_location(), "Oslo, NO");
    assert_eq!(m.get_context().city, "Oslo");
    assert!(!m.is_loading());
}

#[test]
fn stale_failure_keeps_newer_fetch_loading() {
    let mut m = session();
    let a = m.begin_fetch("Tokyo, JP".to_string());
    let _b = m.begin_fetch("Oslo, NO".to_string());
    assert!(!m.fail_fetch(a.id));
    assert!(m.is_loading());
}

#[test]
fn data_age_bar() {
    assert_eq!(data_age_percent(0), 0);
    assert_eq!(data_age_percent(300), 50);
    assert_eq!(data_age_percent(599), 99);
    assert_eq!(data_age_percent(6000), 100);
}
