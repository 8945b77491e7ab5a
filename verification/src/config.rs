//! The embedded configuration: URL templates keyed by name.

use crate::errors::{CustomError, ErrorModel};
use crate::json::{has_key_of, json_doc_of, key_of, parse_json, str_of, JsonData};
use crate::text::concat3;
use vstd::prelude::*;

verus! {

/// The embedded configuration document: the URL templates for the
/// geocoding, weather and release-lookup endpoints, and one non-string
/// value.
pub const CONFIG_JSON: &'static str = "{\"geo_api_url\":\"https://geocoding-api.open-meteo.com/v1/search?name=__NAME__&count=1&language=en&format=json\",\"weather_api_url\":\"https://api.open-meteo.com/v1/forecast?latitude=__LAT__&longitude=__LON__&current_weather=true&temperature_unit=__TEMPERATURE_UNIT__&timezone=auto&windspeed_unit=__WINDSPEED_UNIT__&timeformat=unixtime\",\"latest_release_url\":\"https://api.github.com/repos/tnickel-web/weather-wand/releases/latest\",\"test_value\":42}";

/// Access to the configuration store.
pub struct Config;

/// The string value under `key` in the configuration document, or the
/// configuration error naming what went wrong.
pub open spec fn spec_config_value(d: JsonData, key: Seq<char>) -> Result<
    Seq<char>,
    ErrorModel,
> {
    if !has_key_of(d, key) {
        Err(
            ErrorModel::ConfigurationError {
                message: "Invalid JSON format: value '"@ + key + "' not found"@,
            },
        )
    } else if str_of(key_of(d, key)) is None {
        Err(
            ErrorModel::ConfigurationError {
                message: "Value for key "@ + key + " is not a string"@,
            },
        )
    } else {
        Ok(str_of(key_of(d, key)).unwrap())
    }
}

impl Config {
    /// The result `get_value` gives for `key`: the configured string,
    /// or the error the configuration document forces.
    pub open spec fn spec_value_of(key: Seq<char>) -> Result<Seq<char>, ErrorModel> {
        match json_doc_of(CONFIG_JSON@) {
            None => Err(ErrorModel::ParseError),
            Some(d) => spec_config_value(d, key),
        }
    }

    /// The string value under `key` in the configuration document.
    ///
    /// Fails with a configuration error when the key is absent or its
    /// value is not a string, and with a parse error when the document
    /// itself is not valid JSON.
    pub fn get_value(key: &str) -> (r: Result<String, CustomError>)
        ensures
            match Config::spec_value_of(key@) {
                Ok(s) => r matches Ok(v) && v@ == s,
                Err(em) => r matches Err(e) && e@ == em,
            },
    {
        let doc = match parse_json(CONFIG_JSON) {
            Some(d) => d,
            None => {
                return Err(CustomError::ParseError);
            },
        };
        match doc.get(key) {
            None => Err(
                CustomError::ConfigurationError(
                    concat3("Invalid JSON format: value '", key, "' not found"),
                ),
            ),
            Some(v) => match v.as_text() {
                None => Err(
                    CustomError::ConfigurationError(
                        concat3("Value for key ", key, " is not a string"),
                    ),
                ),
                Some(s) => Ok(s.clone()),
            },
        }
    }
}

} // verus!
