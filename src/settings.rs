//! User settings that the session engine reads.
use vstd::prelude::*;
use vstd::string::*;
use crate::unitstrings::UnitStrings;

verus! {

/// System of measurement.
#[derive(Debug, Clone, Copy, PartialEq, Eq, Structural, Default)]
pub enum Units {
    #[default]
    Metric,
    Imperial,
}

/// The other system of measurement.
pub open spec fn toggled(u: Units) -> Units {
    match u {
        Units::Metric => Units::Imperial,
        Units::Imperial => Units::Metric,
    }
}

impl Units {
    /// The name of the system in queries: "metric" or "imperial".
    pub fn as_str(&self) -> (r: &'static str)
        ensures
            r@ == (match *self {
                Units::Metric => "metric"@,
                Units::Imperial => "imperial"@,
            }),
    {
        match self {
            Units::Metric => "metric",
            Units::Imperial => "imperial",
        }
    }

    /// The unit names of the system.
    pub fn to_unit_strings(&self) -> (r: UnitStrings)
        ensures
            *self == Units::Metric ==> r.is_metric(),
            *self == Units::Imperial ==> r.is_imperial(),
    {
        match self {
            Units::Metric => UnitStrings::metric(),
            Units::Imperial => UnitStrings::imperial(),
        }
    }
}

/// The system of measurement after one toggle.
pub fn toggle_units(u: Units) -> (r: Units)
    ensures
        r == toggled(u),
{
    match u {
        Units::Metric => Units::Imperial,
        Units::Imperial => Units::Metric,
    }
}

/// Toggling the system of measurement twice gives back the system one started from.
pub proof fn lemma_toggle_twice(u: Units)
    ensures
        toggled(toggled(u)) == u,
{
}

/// Output adapter.
#[derive(Debug, Clone, Copy, PartialEq, Eq, Structural, Default)]
pub enum OutputFormat {
    #[default]
    Tui,
    Simple,
    Detailed,
    Json,
    Waybar,
}

/// Template override of the one-line output.
#[derive(Debug, Clone, Default)]
pub struct SimpleConfig {
    pub template: Option<String>,
}

/// Settings of one run: the location query (empty: detect it from the network
/// address), the system of measurement, the output adapter, and streaming.
#[derive(Debug, Clone, Default)]
pub struct Settings {
    pub location: String,
    pub units: Units,
    pub output: OutputFormat,
    pub stream: bool,
    pub interval: u64,
    pub simple: SimpleConfig,
}

} // verus!
