//! Session engine and data model of a terminal weather client.

pub mod bookmarks;
pub mod clock;
pub mod context;
pub mod conversions;
pub mod location;
pub mod lookups;
pub mod mappings;
pub mod output;
pub mod settings;
pub mod state_manager;
pub mod text;
pub mod units;
pub mod unitstrings;
pub mod urls;
pub mod weather;
pub mod weather_classification;
pub mod weather_display;
