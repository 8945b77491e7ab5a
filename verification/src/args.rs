//! Command-line options: the selected city and the unit selections for
//! temperature, windspeed and clock display.

use vstd::prelude::*;

verus! {

/// The command-line arguments: one or more city names and the three
/// unit selections.
pub struct Args {
    /// The cities to look up; only the first is used.
    pub city: Vec<String>,
    /// The unit used for displaying the temperature.
    pub temperature_unit: TemperatureUnit,
    /// The unit used for displaying the windspeed.
    pub windspeed_unit: WindspeedUnit,
    /// The clock's display mode.
    pub display: ClockDisplay,
}

/// The unit used for displaying the temperature.
#[derive(Debug, Clone, Copy, PartialEq, Eq, Structural)]
pub enum TemperatureUnit {
    Celsius,
    Fahrenheit,
}

/// The unit used for displaying the windspeed.
#[derive(Debug, Clone, Copy, PartialEq, Eq, Structural)]
pub enum WindspeedUnit {
    Kmh,
    Ms,
    Mph,
    Kn,
}

/// The clock's display mode: 12-hour or 24-hour.
#[derive(Debug, Clone, Copy, PartialEq, Eq, Structural)]
pub enum ClockDisplay {
    _12h,
    _24h,
}

/// The lower-case name of a temperature unit, as accepted on the
/// command line and substituted into a request URL.
pub open spec fn spec_temperature_unit_name(u: TemperatureUnit) -> Seq<char> {
    match u {
        TemperatureUnit::Celsius => "celsius"@,
        TemperatureUnit::Fahrenheit => "fahrenheit"@,
    }
}

/// The lower-case name of a windspeed unit.
pub open spec fn spec_windspeed_unit_name(u: WindspeedUnit) -> Seq<char> {
    match u {
        WindspeedUnit::Kmh => "kmh"@,
        WindspeedUnit::Ms => "ms"@,
        WindspeedUnit::Mph => "mph"@,
        WindspeedUnit::Kn => "kn"@,
    }
}

/// The name of a clock display mode.
pub open spec fn spec_clock_display_name(c: ClockDisplay) -> Seq<char> {
    match c {
        ClockDisplay::_12h => "12h"@,
        ClockDisplay::_24h => "24h"@,
    }
}

impl TemperatureUnit {
    /// The unit's lower-case name.
    pub fn as_str(&self) -> (r: &'static str)
        ensures
            r@ == spec_temperature_unit_name(*self),
    {
        match self {
            TemperatureUnit::Celsius => "celsius",
            TemperatureUnit::Fahrenheit => "fahrenheit",
        }
    }
}

impl WindspeedUnit {
    /// The unit's lower-case name.
    pub fn as_str(&self) -> (r: &'static str)
        ensures
            r@ == spec_windspeed_unit_name(*self),
    {
        match self {
            WindspeedUnit::Kmh => "kmh",
            WindspeedUnit::Ms => "ms",
            WindspeedUnit::Mph => "mph",
            WindspeedUnit::Kn => "kn",
        }
    }
}

impl ClockDisplay {
    /// The mode's name.
    pub fn as_str(&self) -> (r: &'static str)
        ensures
            r@ == spec_clock_display_name(*self),
    {
        match self {
            ClockDisplay::_12h => "12h",
            ClockDisplay::_24h => "24h",
        }
    }
}

} // verus!
