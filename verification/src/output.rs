//! The console report: date formatting and the bordered, unit-aware
//! text block. Printing and colouring stay outside the library; the
//! lines are built here, fully specified.

use crate::args::{ClockDisplay, TemperatureUnit, WindspeedUnit};
use crate::geolocation::{Location, LocationModel};
use crate::text::{repeat_str, replace_all, spec_repeat, spec_replace};
use crate::weather::{CurrentWeather, WeatherModel};
use vstd::prelude::*;
use vstd::string::*;

verus! {

/// The date-format pattern a clock display selects.
pub open spec fn spec_clock_pattern(c: ClockDisplay) -> Seq<char> {
    match c {
        ClockDisplay::_12h => "%b %-e, %Y %I:%M %p"@,
        ClockDisplay::_24h => "%b %-e, %Y %H:%M"@,
    }
}

/// The text chrono renders for a unix timestamp in UTC under a
/// date-format pattern: a function of the two arguments alone.
pub uninterp spec fn utc_formatted(secs: u64, pattern: Seq<char>) -> Seq<char>;

/// Relies on chrono's `DateTime::from_timestamp` and `format`: the UTC
/// rendering of a timestamp depends on the timestamp and the pattern
/// alone. The pattern is restricted to the two the library uses, which
/// chrono renders without error.
#[verifier::external_body]
fn chrono_format_utc(secs: u64, pattern: &str) -> (r: String)
    requires
        pattern@ == "%b %-e, %Y %I:%M %p"@ || pattern@ == "%b %-e, %Y %H:%M"@,
    ensures
        r@ == utc_formatted(secs, pattern@),
{
    match chrono::DateTime::<chrono::Utc>::from_timestamp(secs as i64, 0) {
        Some(dt) => dt.format(pattern).to_string(),
        None => String::new(),
    }
}

/// Relies on chrono's `Local` time zone conversion and `format`. The
/// rendering depends on the machine's time zone, so nothing is claimed
/// of it beyond termination without panic on the two patterns the
/// library uses.
#[verifier::external_body]
fn chrono_format_local(secs: u64, pattern: &str) -> (r: String)
    requires
        pattern@ == "%b %-e, %Y %I:%M %p"@ || pattern@ == "%b %-e, %Y %H:%M"@,
{
    match chrono::DateTime::<chrono::Utc>::from_timestamp(secs as i64, 0) {
        Some(dt) => dt.with_timezone(&chrono::Local).format(pattern).to_string(),
        None => String::new(),
    }
}

/// A timestamp rendered in UTC and in the machine's local time zone.
pub struct FormattedDates {
    pub utc: String,
    pub local: String,
}

/// Renders a unix timestamp under the pattern the clock display
/// selects, in UTC and in the machine's local time zone.
pub fn format_date(timestamp: u64, clock_display: &ClockDisplay) -> (r: FormattedDates)
    ensures
        r.utc@ == utc_formatted(timestamp, spec_clock_pattern(*clock_display)),
{
    let format = match clock_display {
        ClockDisplay::_12h => "%b %-e, %Y %I:%M %p",
        ClockDisplay::_24h => "%b %-e, %Y %H:%M",
    };
    FormattedDates {
        utc: chrono_format_utc(timestamp, format),
        local: chrono_format_local(timestamp, format),
    }
}

/// The display suffix of a temperature unit.
pub open spec fn spec_temperature_suffix(t: TemperatureUnit) -> Seq<char> {
    match t {
        TemperatureUnit::Fahrenheit => "°F"@,
        TemperatureUnit::Celsius => "°C"@,
    }
}

/// The display suffix of a windspeed unit.
pub open spec fn spec_windspeed_suffix(w: WindspeedUnit) -> Seq<char> {
    match w {
        WindspeedUnit::Ms => "m/s"@,
        WindspeedUnit::Mph => "Mph"@,
        WindspeedUnit::Kn => "Knots"@,
        WindspeedUnit::Kmh => "Km/h"@,
    }
}

fn temperature_suffix(t: &TemperatureUnit) -> (r: &'static str)
    ensures
        r@ == spec_temperature_suffix(*t),
{
    match t {
        TemperatureUnit::Fahrenheit => "°F",
        TemperatureUnit::Celsius => "°C",
    }
}

fn windspeed_suffix(w: &WindspeedUnit) -> (r: &'static str)
    ensures
        r@ == spec_windspeed_suffix(*w),
{
    match w {
        WindspeedUnit::Ms => "m/s",
        WindspeedUnit::Mph => "Mph",
        WindspeedUnit::Kn => "Knots",
        WindspeedUnit::Kmh => "Km/h",
    }
}

/// The report's header line content.
pub open spec fn spec_report_header(loc: LocationModel) -> Seq<char> {
    "Current Weather Report for "@ + loc.name + ", "@ + loc.country_code
}

/// The ten lines of the weather report for already-validated data: a
/// bordered block with temperature and windspeed carrying their unit
/// suffixes, the city, area, coordinates, the rendered local time with
/// a day/night indicator, and the IANA timezone name with underscores
/// replaced by spaces.
pub open spec fn spec_report_lines(
    w: WeatherModel,
    loc: LocationModel,
    t: TemperatureUnit,
    wu: WindspeedUnit,
    local_time: Seq<char>,
) -> Seq<Seq<char>> {
    let header = spec_report_header(loc);
    let border = spec_repeat("─"@, header.len());
    seq![
        "┌"@ + border + "┐"@,
        "  "@ + header,
        "  Temperature: "@ + w.temperature + " "@ + spec_temperature_suffix(t),
        "  Wind Speed:  "@ + w.windspeed + " "@ + spec_windspeed_suffix(wu),
        "  City:        "@ + loc.name,
        "  Area:        "@ + loc.region + ", "@ + loc.country,
        "  Coordinates: "@ + loc.coordinates.latitude + ", "@ + loc.coordinates.longitude,
        "  Time:        "@ + local_time + " | "@ + (if w.is_day {
            "Day"@
        } else {
            "Night"@
        }),
        "  Timezone:    "@ + spec_replace(loc.timezone, "_"@, " "@),
        "└"@ + border + "┘"@,
    ]
}

/// The weather report renderer.
pub struct WeatherOutput {}

impl WeatherOutput {
    /// Builds the report lines for already-validated data; the caller
    /// supplies the rendered local time, since that depends on the
    /// machine's time zone.
    pub fn build_report(
        weather: &CurrentWeather,
        geo_info: &Location,
        temperature_unit: &TemperatureUnit,
        windspeed_unit: &WindspeedUnit,
        local_time: &str,
    ) -> (r: Vec<String>)
        ensures
            r@.len() == 10,
            forall|i: int|
                0 <= i < 10 ==> r@[i]@ == spec_report_lines(
                    weather@,
                    geo_info@,
                    *temperature_unit,
                    *windspeed_unit,
                    local_time@,
                )[i],
    {
        let mut header = String::from_str("Current Weather Report for ");
        header.append(geo_info.name.as_str());
        header.append(", ");
        header.append(geo_info.country_code.as_str());
        let border = repeat_str("─", header.as_str().unicode_len());

        let mut top = String::from_str("┌");
        top.append(border.as_str());
        top.append("┐");

        let mut header_line = String::from_str("  ");
        header_line.append(header.as_str());

        let mut temperature_line = String::from_str("  Temperature: ");
        temperature_line.append(weather.temperature.as_str());
        temperature_line.append(" ");
        temperature_line.append(temperature_suffix(temperature_unit));

        let mut windspeed_line = String::from_str("  Wind Speed:  ");
        windspeed_line.append(weather.windspeed.as_str());
        windspeed_line.append(" ");
        windspeed_line.append(windspeed_suffix(windspeed_unit));

        let mut city_line = String::from_str("  City:        ");
        city_line.append(geo_info.name.as_str());

        let mut area_line = String::from_str("  Area:        ");
        area_line.append(geo_info.region.as_str());
        area_line.append(", ");
        area_line.append(geo_info.country.as_str());

        let mut coordinates_line = String::from_str("  Coordinates: ");
        coordinates_line.append(geo_info.coordinates.latitude.as_str());
        coordinates_line.append(", ");
        coordinates_line.append(geo_info.coordinates.longitude.as_str());

        let mut time_line = String::from_str("  Time:        ");
        time_line.append(local_time);
        time_line.append(" | ");
        time_line.append(if weather.is_day {
            "Day"
        } else {
            "Night"
        });

        let mut timezone_line = String::from_str("  Timezone:    ");
        let timezone_spaced = replace_all(geo_info.timezone.as_str(), "_", " ");
        timezone_line.append(timezone_spaced.as_str());

        let mut bottom = String::from_str("└");
        bottom.append(border.as_str());
        bottom.append("┘");

        let mut lines: Vec<String> = Vec::new();
        lines.push(top);
        lines.push(header_line);
        lines.push(temperature_line);
        lines.push(windspeed_line);
        lines.push(city_line);
        lines.push(area_line);
        lines.push(coordinates_line);
        lines.push(time_line);
        lines.push(timezone_line);
        lines.push(bottom);
        lines
    }
}

} // verus!
