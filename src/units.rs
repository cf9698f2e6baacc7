//! Unit names, as a record of three strings.
use vstd::prelude::*;
use vstd::string::*;

verus! {

/// Names of the temperature, wind-speed and precipitation units.
#[derive(Debug, Clone, PartialEq, Eq, Default)]
pub struct Units {
    pub temperature: String,
    pub wind_speed: String,
    pub precipitation: String,
}

impl Units {
    /// Whether these are the metric names: celsius, kmh, mm.
    pub open spec fn is_metric(&self) -> bool {
        &&& self.temperature@ == "celsius"@
        &&& self.wind_speed@ == "kmh"@
        &&& self.precipitation@ == "mm"@
    }

    /// Whether these are the imperial names: fahrenheit, mph, inch.
    pub open spec fn is_imperial(&self) -> bool {
        &&& self.temperature@ == "fahrenheit"@
        &&& self.wind_speed@ == "mph"@
        &&& self.precipitation@ == "inch"@
    }

    /// The metric unit names.
    pub fn metric() -> (r: Self)
        ensures
            r.is_metric(),
    {
        Units {
            temperature: String::from_str("celsius"),
            wind_speed: String::from_str("kmh"),
            precipitation: String::from_str("mm"),
        }
    }

    /// The imperial unit names.
    pub fn imperial() -> (r: Self)
        ensures
            r.is_imperial(),
    {
        Units {
            temperature: String::from_str("fahrenheit"),
            wind_speed: String::from_str("mph"),
            precipitation: String::from_str("inch"),
        }
    }
}

} // verus!
