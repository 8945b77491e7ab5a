//! The error taxonomy shared by configuration lookup, fetching, and the
//! two response parsers.

use crate::text::concat2;
use vstd::prelude::*;
use vstd::string::*;

verus! {

/// Errors that may occur during weather and geolocation operations.
#[derive(Debug, Clone)]
pub enum CustomError {
    /// A response body could not be parsed as JSON.
    ParseError,
    /// The weather information could not be read; names the missing or
    /// mistyped field.
    WeatherInfoNotFound(String),
    /// The geolocation information could not be read; names the missing
    /// or mistyped field.
    GeolocationNotFound(String),
    /// A network request failed or timed out; carries a description.
    TransportError(String),
    /// A required configuration value was missing or mistyped; carries
    /// the full message.
    ConfigurationError(String),
}

/// The mathematical model of a `CustomError`: the same variants over
/// character sequences.
pub enum ErrorModel {
    ParseError,
    WeatherInfoNotFound { field: Seq<char> },
    GeolocationNotFound { field: Seq<char> },
    TransportError { message: Seq<char> },
    ConfigurationError { message: Seq<char> },
}

impl View for CustomError {
    type V = ErrorModel;

    open spec fn view(&self) -> ErrorModel {
        match self {
            CustomError::ParseError => ErrorModel::ParseError,
            CustomError::WeatherInfoNotFound(f) => ErrorModel::WeatherInfoNotFound {
                field: f@,
            },
            CustomError::GeolocationNotFound(f) => ErrorModel::GeolocationNotFound {
                field: f@,
            },
            CustomError::TransportError(m) => ErrorModel::TransportError { message: m@ },
            CustomError::ConfigurationError(m) => ErrorModel::ConfigurationError {
                message: m@,
            },
        }
    }
}

/// The human-readable diagnostic for an error model.
pub open spec fn spec_message(e: ErrorModel) -> Seq<char> {
    match e {
        ErrorModel::ParseError => "Error parsing JSON"@,
        ErrorModel::WeatherInfoNotFound { field } => "Weather information not found - "@
            + field,
        ErrorModel::GeolocationNotFound { field } => "Geolocation information not found - "@
            + field,
        ErrorModel::TransportError { message } => "Transport error - "@ + message,
        ErrorModel::ConfigurationError { message } => message,
    }
}

impl CustomError {
    /// The human-readable diagnostic, naming the failing stage and,
    /// where available, the specific missing field.
    pub fn message(&self) -> (r: String)
        ensures
            r@ == spec_message(self@),
    {
        match self {
            CustomError::ParseError => String::from_str("Error parsing JSON"),
            CustomError::WeatherInfoNotFound(f) => concat2(
                "Weather information not found - ",
                f.as_str(),
            ),
            CustomError::GeolocationNotFound(f) => concat2(
                "Geolocation information not found - ",
                f.as_str(),
            ),
            CustomError::TransportError(m) => concat2("Transport error - ", m.as_str()),
            CustomError::ConfigurationError(m) => m.clone(),
        }
    }
}

} // verus!
