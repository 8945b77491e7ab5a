//! Weather: current-weather data, validation of the weather API's JSON
//! response, and the weather request URL.

use crate::args::{
    spec_temperature_unit_name, spec_windspeed_unit_name, TemperatureUnit, WindspeedUnit,
};
use crate::config::Config;
use crate::errors::{CustomError, ErrorModel};
use crate::geolocation::{Coordinates, CoordinatesModel};
use crate::json::{
    json_doc_of, key_of, num_repr_of, parse_json, uint_of, JsonData, JsonValue,
};
use crate::text::{replace_all, spec_replace};
use vstd::prelude::*;
use vstd::string::*;

verus! {

/// The current weather: temperature and windspeed as display-ready
/// decimal strings, the day/night flag, and the observation time as
/// unix seconds.
pub struct CurrentWeather {
    pub temperature: String,
    pub windspeed: String,
    pub is_day: bool,
    pub timestamp: u64,
}

/// The mathematical model of [`CurrentWeather`].
pub struct WeatherModel {
    pub temperature: Seq<char>,
    pub windspeed: Seq<char>,
    pub is_day: bool,
    pub timestamp: u64,
}

impl View for CurrentWeather {
    type V = WeatherModel;

    open spec fn view(&self) -> WeatherModel {
        WeatherModel {
            temperature: self.temperature@,
            windspeed: self.windspeed@,
            is_day: self.is_day,
            timestamp: self.timestamp,
        }
    }
}

/// The weather error naming `field`.
pub open spec fn weather_not_found(field: Seq<char>) -> ErrorModel {
    ErrorModel::WeatherInfoNotFound { field }
}

/// The current weather a weather document denotes: the fields of its
/// `current_weather` object, numbers as their canonical decimal text,
/// `is_day` read as nonzero-means-day. A document carrying an error
/// indicator fails naming `current_weather`; a missing or mistyped
/// field fails naming that field, in reading order.
pub open spec fn spec_weather_of(d: JsonData) -> Result<WeatherModel, ErrorModel> {
    if key_of(d, "error"@) == (JsonData::Bool { b: true }) {
        Err(weather_not_found("current_weather"@))
    } else {
        let cw = key_of(d, "current_weather"@);
        if num_repr_of(key_of(cw, "temperature"@)) is None {
            Err(weather_not_found("temperature"@))
        } else if num_repr_of(key_of(cw, "windspeed"@)) is None {
            Err(weather_not_found("windspeed"@))
        } else if uint_of(key_of(cw, "is_day"@)) is None {
            Err(weather_not_found("is_day"@))
        } else if uint_of(key_of(cw, "time"@)) is None {
            Err(weather_not_found("time"@))
        } else {
            Ok(
                WeatherModel {
                    temperature: num_repr_of(key_of(cw, "temperature"@)).unwrap(),
                    windspeed: num_repr_of(key_of(cw, "windspeed"@)).unwrap(),
                    is_day: uint_of(key_of(cw, "is_day"@)).unwrap() != 0,
                    timestamp: uint_of(key_of(cw, "time"@)).unwrap(),
                },
            )
        }
    }
}

/// Whether an executable result carries exactly the modelled one.
pub open spec fn weather_result_models(
    r: Result<CurrentWeather, CustomError>,
    s: Result<WeatherModel, ErrorModel>,
) -> bool {
    match r {
        Ok(w) => s matches Ok(m) && w@ == m,
        Err(e) => s matches Err(em) && e@ == em,
    }
}

/// A weather document with no error indicator whose
/// `current_weather.temperature` is missing or not a number fails
/// naming `temperature`: complete later fields do not mask it.
pub proof fn lemma_weather_missing_temperature(d: JsonData)
    requires
        key_of(d, "error"@) != (JsonData::Bool { b: true }),
        num_repr_of(key_of(key_of(d, "current_weather"@), "temperature"@)) is None,
    ensures
        spec_weather_of(d) == Err::<WeatherModel, ErrorModel>(
            weather_not_found("temperature"@),
        ),
{
}

/// Reads the current weather out of a parsed weather document.
pub fn weather_from_doc(doc: &JsonValue) -> (r: Result<CurrentWeather, CustomError>)
    ensures
        weather_result_models(r, spec_weather_of(doc.model())),
{
    let null = JsonValue::Null;
    if doc.get_or("error", &null).is_true() {
        return Err(
            CustomError::WeatherInfoNotFound(String::from_str("current_weather")),
        );
    }
    let cw = doc.get_or("current_weather", &null);
    let temperature = match cw.get_or("temperature", &null).number_repr() {
        Some(s) => s.clone(),
        None => {
            return Err(CustomError::WeatherInfoNotFound(String::from_str("temperature")));
        },
    };
    let windspeed = match cw.get_or("windspeed", &null).number_repr() {
        Some(s) => s.clone(),
        None => {
            return Err(CustomError::WeatherInfoNotFound(String::from_str("windspeed")));
        },
    };
    let is_day_raw = match cw.get_or("is_day", &null).as_uint() {
        Some(n) => n,
        None => {
            return Err(CustomError::WeatherInfoNotFound(String::from_str("is_day")));
        },
    };
    let timestamp = match cw.get_or("time", &null).as_uint() {
        Some(n) => n,
        None => {
            return Err(CustomError::WeatherInfoNotFound(String::from_str("time")));
        },
    };
    Ok(
        CurrentWeather {
            temperature,
            windspeed,
            is_day: is_day_raw != 0,
            timestamp,
        },
    )
}

/// Validates and extracts the current weather from a weather response
/// body, a prior transport failure passing through unchanged.
///
/// A body that is not valid JSON fails with the parse error; otherwise
/// the result is exactly what [`spec_weather_of`] gives for the
/// document the body denotes.
pub fn deserialize(body: Result<String, CustomError>) -> (r: Result<
    CurrentWeather,
    CustomError,
>)
    ensures
        match body {
            Err(e) => r matches Err(e2) && e2@ == e@,
            Ok(text) => match json_doc_of(text@) {
                None => r matches Err(e2) && e2@ == ErrorModel::ParseError,
                Some(d) => weather_result_models(r, spec_weather_of(d)),
            },
        },
{
    let text = match body {
        Ok(t) => t,
        Err(e) => {
            return Err(e);
        },
    };
    let doc = match parse_json(text.as_str()) {
        Some(d) => d,
        None => {
            return Err(CustomError::ParseError);
        },
    };
    weather_from_doc(&doc)
}

/// The URL of the weather API; placeholders in it are replaced using
/// setters.
pub struct WeatherApiUrl {
    pub url: String,
}

impl WeatherApiUrl {
    /// Instantiate a new `WeatherApiUrl` instance.
    pub fn new(base_url: String) -> (r: Self)
        ensures
            r.url@ == base_url@,
    {
        WeatherApiUrl { url: base_url }
    }

    /// Replaces the coordinates placeholders in the weather API URL
    /// with values.
    pub fn set_coordinates(&mut self, coordinates: &Coordinates)
        ensures
            final(self).url@ == spec_replace(
                spec_replace(old(self).url@, "__LAT__"@, coordinates.latitude@),
                "__LON__"@,
                coordinates.longitude@,
            ),
    {
        let with_lat = replace_all(
            self.url.as_str(),
            "__LAT__",
            coordinates.latitude.as_str(),
        );
        let with_lon = replace_all(
            with_lat.as_str(),
            "__LON__",
            coordinates.longitude.as_str(),
        );
        self.url = with_lon;
    }

    /// Replaces the temperature unit placeholder in the weather API URL
    /// with a value.
    pub fn set_temperature_unit(&mut self, temperature_unit: &TemperatureUnit)
        ensures
            final(self).url@ == spec_replace(
                old(self).url@,
                "__TEMPERATURE_UNIT__"@,
                spec_temperature_unit_name(*temperature_unit),
            ),
    {
        let url = replace_all(
            self.url.as_str(),
            "__TEMPERATURE_UNIT__",
            temperature_unit.as_str(),
        );
        self.url = url;
    }

    /// Replaces the wind speed unit placeholder in the weather API URL
    /// with a value.
    pub fn set_windspeed_unit(&mut self, windspeed_unit: &WindspeedUnit)
        ensures
            final(self).url@ == spec_replace(
                old(self).url@,
                "__WINDSPEED_UNIT__"@,
                spec_windspeed_unit_name(*windspeed_unit),
            ),
    {
        let url = replace_all(
            self.url.as_str(),
            "__WINDSPEED_UNIT__",
            windspeed_unit.as_str(),
        );
        self.url = url;
    }
}

/// The weather request URL a configured template resolves to for given
/// coordinates and units.
pub open spec fn spec_weather_url(
    template: Seq<char>,
    coordinates: CoordinatesModel,
    temperature_unit: TemperatureUnit,
    windspeed_unit: WindspeedUnit,
) -> Seq<char> {
    spec_replace(
        spec_replace(
            spec_replace(
                spec_replace(template, "__LAT__"@, coordinates.latitude),
                "__LON__"@,
                coordinates.longitude,
            ),
            "__TEMPERATURE_UNIT__"@,
            spec_temperature_unit_name(temperature_unit),
        ),
        "__WINDSPEED_UNIT__"@,
        spec_windspeed_unit_name(windspeed_unit),
    )
}

/// Builds the weather request URL for coordinates and units from the
/// configured template.
pub fn weather_request_url(
    coordinates: &Coordinates,
    temperature_unit: &TemperatureUnit,
    windspeed_unit: &WindspeedUnit,
) -> (r: Result<String, CustomError>)
    ensures
        match Config::spec_value_of("weather_api_url"@) {
            Ok(template) => r matches Ok(u) && u@ == spec_weather_url(
                template,
                coordinates@,
                *temperature_unit,
                *windspeed_unit,
            ),
            Err(em) => r matches Err(e) && e@ == em,
        },
{
    let base_url = match Config::get_value("weather_api_url") {
        Ok(u) => u,
        Err(e) => {
            return Err(e);
        },
    };
    let mut api_url = WeatherApiUrl::new(base_url);
    api_url.set_coordinates(coordinates);
    api_url.set_temperature_unit(temperature_unit);
    api_url.set_windspeed_unit(windspeed_unit);
    Ok(api_url.url)
}

} // verus!
