//! A weather tool that answers with fixed sample data.
use vstd::prelude::*;

use crate::text::owned;

verus! {

/// Reports the weather of a city (sample data).
pub struct WeatherTool;

/// A weather report.
pub struct WeatherReport {
    pub city: String,
    pub temperature: String,
    pub condition: String,
    pub humidity: String,
}

impl WeatherTool {
    /// The tool's name.
    pub fn name(&self) -> (r: &'static str)
        ensures
            r@ == "get_weather"@,
    {
        "get_weather"
    }

    /// The tool's description.
    pub fn description(&self) -> (r: &'static str)
        ensures
            r@ == "Get current weather for a city"@,
    {
        "Get current weather for a city"
    }

    /// The report for the requested city: sunny, 22°C, 45% humidity; without a
    /// city the request is refused.
    pub fn report(&self, city: Option<&str>) -> (r: Result<WeatherReport, String>)
        ensures
            match city {
                Some(c) => r matches Ok(w) && w.city@ == c@ && w.temperature@ == "22°C"@
                    && w.condition@ == "Sunny"@ && w.humidity@ == "45%"@,
                None => r matches Err(msg) && msg@ == "Missing city parameter"@,
            },
    {
        match city {
            Some(c) => Ok(WeatherReport {
                city: owned(c),
                temperature: owned("22°C"),
                condition: owned("Sunny"),
                humidity: owned("45%"),
            }),
            None => Err(owned("Missing city parameter")),
        }
    }
}

} // verus!
