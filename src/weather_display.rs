//! Fixed texts of the dashboard and the marker types of its screen parts.
use vstd::prelude::*;
use vstd::string::*;
use crate::context::{Context, ContextDaily};
use crate::text::{
    decimal_text, decimal_text_of, int_text, int_text_of, pad_end, pad_end_of, pad_start,
    pad_start_of, rounded_text, rounded_text_of,
};
use crate::weather_classification::{condition_of, has_precipitation, WeatherCondition};

verus! {

/// Texts of the weather panels.
#[derive(Debug, Clone, Copy)]
pub struct WeatherDisplay;

/// Builders of the dashboard's widgets.
#[derive(Debug, Clone, Copy)]
pub struct UiComponents;

/// Bindings of keys to dashboard commands.
#[derive(Debug, Clone, Copy)]
pub struct KeyboardHandlers;

impl WeatherDisplay {
    /// The header text while a fetch runs.
    pub fn format_loading_message() -> (r: String)
        ensures
            r@ == "Loading weather data..."@,
    {
        String::from_str("Loading weather data...")
    }

    /// The body text while a fetch runs.
    pub fn format_wait_message() -> (r: String)
        ensures
            r@ == "Please wait..."@,
    {
        String::from_str("Please wait...")
    }

    /// The header text while units are switched.
    pub fn format_units_switching_message() -> (r: String)
        ensures
            r@ == "Switching units..."@,
    {
        String::from_str("Switching units...")
    }
}

/// The header panel: place, then icon, temperature, description and
/// felt temperature.
pub open spec fn header_text_of(c: Context) -> Seq<char> {
    c.city@ + ", "@ + c.country@ + "\n"@ + c.weather_icon@ + " "@ + rounded_text_of(
        c.temperature as int,
    ) + c.temperature_unit@ + " \u{2022} "@ + c.weather_description@ + " \u{2022} Feels like "@
        + rounded_text_of(c.feels_like as int) + c.temperature_unit@
}

/// The current-conditions panel.
pub open spec fn current_info_of(c: Context) -> Seq<char> {
    "Temperature:     "@ + rounded_text_of(c.temperature as int) + c.temperature_unit@
        + "\nHumidity:        "@ + int_text_of(c.humidity as int) + "%\nPressure:        "@
        + decimal_text_of(c.pressure as int) + " hPa\nWind:            "@ + rounded_text_of(
        c.wind_speed as int,
    ) + " "@ + c.wind_speed_unit@ + " with gusts up to "@ + rounded_text_of(c.wind_gusts as int)
        + " "@ + c.wind_speed_unit@ + " ("@ + c.wind_compass@ + ")\nUV Index:        "@
        + decimal_text_of(c.uv_index as int) + "\nPrecipitation:   "@ + decimal_text_of(
        c.precipitation_sum as int,
    ) + " "@ + c.precipitation_unit@ + " ("@ + int_text_of(c.precipitation_chance as int)
        + "% chance)"@ + (match c.precipitation_description {
        Some(d) => "\n                 "@ + d@,
        None => Seq::empty(),
    }) + "\nSun:             "@ + c.sunrise@ + " \u{2022} "@ + c.sunset@
}

/// The name of a forecast day: "Today", "Tomorrow", then its date.
pub open spec fn day_name_of(d: ContextDaily, index: int) -> Seq<char> {
    if index == 0 {
        "Today"@
    } else if index == 1 {
        "Tomorrow"@
    } else {
        d.date@
    }
}

/// The description of a forecast day, with the chance of precipitation when
/// it rains or snows.
pub open spec fn day_description_of(d: ContextDaily) -> Seq<char> {
    let c = condition_of(d.weather_code);
    if c == WeatherCondition::Rain || c == WeatherCondition::Snow {
        d.weather_description@ + " ("@ + int_text_of(d.precipitation_chance as int) + "%)"@
    } else {
        d.weather_description@
    }
}

/// One line of the daily forecast panel.
pub open spec fn day_line_of(d: ContextDaily, index: int, unit: Seq<char>) -> Seq<char> {
    pad_end_of(day_name_of(d, index), 10) + " "@ + d.weather_icon@ + "  "@ + pad_start_of(
        rounded_text_of(d.temperature_low as int),
        2,
    ) + "-"@ + pad_end_of(rounded_text_of(d.temperature_high as int), 2) + unit + "  "@
        + day_description_of(d) + "\n"@
}

/// The first `n` lines of the daily forecast panel.
pub open spec fn forecast_lines_of(days: Seq<ContextDaily>, unit: Seq<char>, n: int) -> Seq<char>
    decreases n,
{
    if n <= 0 {
        Seq::empty()
    } else {
        forecast_lines_of(days, unit, n - 1) + day_line_of(days[n - 1], n - 1, unit)
    }
}

/// The daily forecast panel: one line per day, then an empty line.
pub open spec fn forecast_text_of(c: Context) -> Seq<char> {
    forecast_lines_of(c.forecast@, c.temperature_unit@, c.forecast@.len() as int) + "\n"@
}

impl WeatherDisplay {
    /// The header panel's text.
    pub fn format_header_text(context: &Context) -> (r: String)
        ensures
            r@ == header_text_of(*context),
    {
        let mut s = context.city.clone();
        s.append(", ");
        s.append(context.country.as_str());
        s.append("\n");
        s.append(context.weather_icon.as_str());
        s.append(" ");
        let t = rounded_text(context.temperature);
        s.append(t.as_str());
        s.append(context.temperature_unit.as_str());
        s.append(" \u{2022} ");
        s.append(context.weather_description.as_str());
        s.append(" \u{2022} Feels like ");
        let f = rounded_text(context.feels_like);
        s.append(f.as_str());
        s.append(context.temperature_unit.as_str());
        proof {
            assert(s@ =~= header_text_of(*context));
        }
        s
    }

    /// The current-conditions panel's text.
    pub fn format_current_info(context: &Context) -> (r: String)
        ensures
            r@ == current_info_of(*context),
    {
        let c = context;
        let mut s = String::from_str("Temperature:     ");
        s.append(rounded_text(c.temperature).as_str());
        s.append(c.temperature_unit.as_str());
        s.append("\nHumidity:        ");
        s.append(int_text(c.humidity).as_str());
        s.append("%\nPressure:        ");
        s.append(decimal_text(c.pressure).as_str());
        s.append(" hPa\nWind:            ");
        s.append(rounded_text(c.wind_speed).as_str());
        s.append(" ");
        s.append(c.wind_speed_unit.as_str());
        s.append(" with gusts up to ");
        s.append(rounded_text(c.wind_gusts).as_str());
        s.append(" ");
        s.append(c.wind_speed_unit.as_str());
        s.append(" (");
        s.append(c.wind_compass.as_str());
        s.append(")\nUV Index:        ");
        s.append(decimal_text(c.uv_index).as_str());
        s.append("\nPrecipitation:   ");
        s.append(decimal_text(c.precipitation_sum).as_str());
        s.append(" ");
        s.append(c.precipitation_unit.as_str());
        s.append(" (");
        s.append(int_text(c.precipitation_chance).as_str());
        s.append("% chance)");
        match &c.precipitation_description {
            Some(d) => {
                s.append("\n                 ");
                s.append(d.as_str());
            },
            None => {},
        }
        s.append("\nSun:             ");
        s.append(c.sunrise.as_str());
        s.append(" \u{2022} ");
        s.append(c.sunset.as_str());
        proof {
            assert(s@ =~= current_info_of(*context));
        }
        s
    }

    fn day_line(d: &ContextDaily, index: usize, unit: &str) -> (r: String)
        ensures
            r@ == day_line_of(*d, index as int, unit@),
    {
        let name = if index == 0 {
            String::from_str("Today")
        } else if index == 1 {
            String::from_str("Tomorrow")
        } else {
            d.date.clone()
        };
        let mut s = pad_end(name, 10);
        s.append(" ");
        s.append(d.weather_icon.as_str());
        s.append("  ");
        s.append(pad_start(rounded_text(d.temperature_low), 2).as_str());
        s.append("-");
        s.append(pad_end(rounded_text(d.temperature_high), 2).as_str());
        s.append(unit);
        s.append("  ");
        s.append(d.weather_description.as_str());
        if has_precipitation(d.weather_code) {
            s.append(" (");
            s.append(int_text(d.precipitation_chance).as_str());
            s.append("%)");
        }
        s.append("\n");
        proof {
            assert(s@ =~= day_line_of(*d, index as int, unit@));
        }
        s
    }

    /// The daily forecast panel's text.
    pub fn format_forecast_text(context: &Context) -> (r: String)
        ensures
            r@ == forecast_text_of(*context),
    {
        let mut s = String::new();
        let mut i: usize = 0;
        while i < context.forecast.len()
            invariant
                i <= context.forecast@.len(),
                s@ == forecast_lines_of(context.forecast@, context.temperature_unit@, i as int),
            decreases context.forecast.len() - i,
        {
            let line = Self::day_line(&context.forecast[i], i, context.temperature_unit.as_str());
            s.append(line.as_str());
            i = i + 1;
        }
        s.append("\n");
        s
    }
}

} // verus!
