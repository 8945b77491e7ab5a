//! Geolocation: coordinates and location data, validation of the
//! geocoding API's JSON response, and the geocoding request URL.

use crate::config::Config;
use crate::errors::{CustomError, ErrorModel};
use crate::json::{
    first_of, json_doc_of, key_of, num_repr_of, parse_json, str_of, JsonData, JsonValue,
};
use crate::text::{replace_all, spec_replace};
use vstd::prelude::*;
use vstd::string::*;

verus! {

/// A city's coordinates: latitude and longitude as display-ready
/// decimal strings. They are only ever substituted into a URL and
/// shown, never computed with.
pub struct Coordinates {
    pub latitude: String,
    pub longitude: String,
}

/// The mathematical model of [`Coordinates`].
pub struct CoordinatesModel {
    pub latitude: Seq<char>,
    pub longitude: Seq<char>,
}

impl View for Coordinates {
    type V = CoordinatesModel;

    open spec fn view(&self) -> CoordinatesModel {
        CoordinatesModel { latitude: self.latitude@, longitude: self.longitude@ }
    }
}

/// A resolved location: name, country, region, timezone and
/// coordinates.
pub struct Location {
    pub name: String,
    pub country_code: String,
    pub country: String,
    pub region: String,
    pub timezone: String,
    pub coordinates: Coordinates,
}

/// The mathematical model of a [`Location`].
pub struct LocationModel {
    pub name: Seq<char>,
    pub country_code: Seq<char>,
    pub country: Seq<char>,
    pub region: Seq<char>,
    pub timezone: Seq<char>,
    pub coordinates: CoordinatesModel,
}

impl View for Location {
    type V = LocationModel;

    open spec fn view(&self) -> LocationModel {
        LocationModel {
            name: self.name@,
            country_code: self.country_code@,
            country: self.country@,
            region: self.region@,
            timezone: self.timezone@,
            coordinates: self.coordinates@,
        }
    }
}

/// The geolocation error naming `field`.
pub open spec fn geo_not_found(field: Seq<char>) -> ErrorModel {
    ErrorModel::GeolocationNotFound { field }
}

/// The location a geocoding document denotes: the fields of the first
/// entry of its `results` array, coordinates as their canonical decimal
/// text. A document carrying an error indicator, or whose `results`
/// list is absent, null or empty, fails naming `results`; a missing or
/// mistyped field fails naming that field, in reading order.
pub open spec fn spec_location_of(d: JsonData) -> Result<LocationModel, ErrorModel> {
    let results = key_of(d, "results"@);
    if key_of(d, "error"@) == (JsonData::Bool { b: true }) || results is Null || (
    results matches JsonData::Array { items } && items.len() == 0) {
        Err(geo_not_found("results"@))
    } else {
        let entry = first_of(results);
        if str_of(key_of(entry, "name"@)) is None {
            Err(geo_not_found("name"@))
        } else if str_of(key_of(entry, "timezone"@)) is None {
            Err(geo_not_found("timezone"@))
        } else if str_of(key_of(entry, "country_code"@)) is None {
            Err(geo_not_found("country_code"@))
        } else if num_repr_of(key_of(entry, "latitude"@)) is None {
            Err(geo_not_found("latitude"@))
        } else if num_repr_of(key_of(entry, "longitude"@)) is None {
            Err(geo_not_found("longitude"@))
        } else if str_of(key_of(entry, "admin1"@)) is None {
            Err(geo_not_found("admin1"@))
        } else if str_of(key_of(entry, "country"@)) is None {
            Err(geo_not_found("country"@))
        } else {
            Ok(
                LocationModel {
                    name: str_of(key_of(entry, "name"@)).unwrap(),
                    country_code: str_of(key_of(entry, "country_code"@)).unwrap(),
                    country: str_of(key_of(entry, "country"@)).unwrap(),
                    region: str_of(key_of(entry, "admin1"@)).unwrap(),
                    timezone: str_of(key_of(entry, "timezone"@)).unwrap(),
                    coordinates: CoordinatesModel {
                        latitude: num_repr_of(key_of(entry, "latitude"@)).unwrap(),
                        longitude: num_repr_of(key_of(entry, "longitude"@)).unwrap(),
                    },
                },
            )
        }
    }
}

/// A geocoding document is well formed when it carries no error
/// indicator and its `results` array has a first entry holding all
/// seven fields with the right types.
pub open spec fn geo_doc_well_formed(d: JsonData) -> bool {
    let entry = first_of(key_of(d, "results"@));
    &&& key_of(d, "error"@) != (JsonData::Bool { b: true })
    &&& key_of(d, "results"@) matches JsonData::Array { items } && items.len() > 0
    &&& str_of(key_of(entry, "name"@)) is Some
    &&& str_of(key_of(entry, "timezone"@)) is Some
    &&& str_of(key_of(entry, "country_code"@)) is Some
    &&& num_repr_of(key_of(entry, "latitude"@)) is Some
    &&& num_repr_of(key_of(entry, "longitude"@)) is Some
    &&& str_of(key_of(entry, "admin1"@)) is Some
    &&& str_of(key_of(entry, "country"@)) is Some
}

/// For every well-formed geocoding document, extraction succeeds with a
/// location whose fields exactly match the source values, coordinates
/// as their canonical decimal text.
pub proof fn lemma_geolocation_complete(d: JsonData)
    requires
        geo_doc_well_formed(d),
    ensures
        ({
            let entry = first_of(key_of(d, "results"@));
            spec_location_of(d) == Ok::<LocationModel, ErrorModel>(
                LocationModel {
                    name: str_of(key_of(entry, "name"@)).unwrap(),
                    country_code: str_of(key_of(entry, "country_code"@)).unwrap(),
                    country: str_of(key_of(entry, "country"@)).unwrap(),
                    region: str_of(key_of(entry, "admin1"@)).unwrap(),
                    timezone: str_of(key_of(entry, "timezone"@)).unwrap(),
                    coordinates: CoordinatesModel {
                        latitude: num_repr_of(key_of(entry, "latitude"@)).unwrap(),
                        longitude: num_repr_of(key_of(entry, "longitude"@)).unwrap(),
                    },
                },
            )
        }),
{
}

/// A geocoding document whose `results` list is absent, null or empty
/// fails naming `results`, whatever else it holds.
pub proof fn lemma_geolocation_results_missing(d: JsonData)
    requires
        key_of(d, "results"@) is Null || (key_of(d, "results"@) matches JsonData::Array {
            items,
        } && items.len() == 0),
    ensures
        spec_location_of(d) == Err::<LocationModel, ErrorModel>(geo_not_found("results"@)),
{
}

/// Whether an executable result carries exactly the modelled one.
pub open spec fn location_result_models(
    r: Result<Location, CustomError>,
    s: Result<LocationModel, ErrorModel>,
) -> bool {
    match r {
        Ok(loc) => s matches Ok(m) && loc@ == m,
        Err(e) => s matches Err(em) && e@ == em,
    }
}

/// Reads the location out of a parsed geocoding document.
pub fn location_from_doc(doc: &JsonValue) -> (r: Result<Location, CustomError>)
    ensures
        location_result_models(r, spec_location_of(doc.model())),
{
    let null = JsonValue::Null;
    let results = doc.get_or("results", &null);
    let error_flagged = doc.get_or("error", &null).is_true();
    if error_flagged || results.is_null() || results.is_empty_array() {
        return Err(CustomError::GeolocationNotFound(String::from_str("results")));
    }
    let entry = results.first_or(&null);
    let name = match entry.get_or("name", &null).as_text() {
        Some(s) => s.clone(),
        None => {
            return Err(CustomError::GeolocationNotFound(String::from_str("name")));
        },
    };
    let timezone = match entry.get_or("timezone", &null).as_text() {
        Some(s) => s.clone(),
        None => {
            return Err(CustomError::GeolocationNotFound(String::from_str("timezone")));
        },
    };
    let country_code = match entry.get_or("country_code", &null).as_text() {
        Some(s) => s.clone(),
        None => {
            return Err(
                CustomError::GeolocationNotFound(String::from_str("country_code")),
            );
        },
    };
    let latitude = match entry.get_or("latitude", &null).number_repr() {
        Some(s) => s.clone(),
        None => {
            return Err(CustomError::GeolocationNotFound(String::from_str("latitude")));
        },
    };
    let longitude = match entry.get_or("longitude", &null).number_repr() {
        Some(s) => s.clone(),
        None => {
            return Err(CustomError::GeolocationNotFound(String::from_str("longitude")));
        },
    };
    let region = match entry.get_or("admin1", &null).as_text() {
        Some(s) => s.clone(),
        None => {
            return Err(CustomError::GeolocationNotFound(String::from_str("admin1")));
        },
    };
    let country = match entry.get_or("country", &null).as_text() {
        Some(s) => s.clone(),
        None => {
            return Err(CustomError::GeolocationNotFound(String::from_str("country")));
        },
    };
    Ok(
        Location {
            name,
            country_code,
            country,
            region,
            timezone,
            coordinates: Coordinates { latitude, longitude },
        },
    )
}

/// Validates and extracts a location from a geocoding response body, a
/// prior transport failure passing through unchanged.
///
/// A body that is not valid JSON fails with the parse error; otherwise
/// the result is exactly what [`spec_location_of`] gives for the
/// document the body denotes.
pub fn deserialize(body: Result<String, CustomError>) -> (r: Result<Location, CustomError>)
    ensures
        match body {
            Err(e) => r matches Err(e2) && e2@ == e@,
            Ok(text) => match json_doc_of(text@) {
                None => r matches Err(e2) && e2@ == ErrorModel::ParseError,
                Some(d) => location_result_models(r, spec_location_of(d)),
            },
        },
{
    let text = match body {
        Ok(t) => t,
        Err(e) => {
            return Err(e);
        },
    };
    let doc = match parse_json(text.as_str()) {
        Some(d) => d,
        None => {
            return Err(CustomError::ParseError);
        },
    };
    location_from_doc(&doc)
}

/// The URL of the geolocation API; placeholders in it are replaced
/// using setters.
pub struct GeoApiUrl {
    pub url: String,
}

impl GeoApiUrl {
    /// Instantiate a new `GeoApiUrl` instance.
    pub fn new(base_url: String) -> (r: Self)
        ensures
            r.url@ == base_url@,
    {
        GeoApiUrl { url: base_url }
    }

    /// Replaces the city name placeholder in the geolocation API URL
    /// with a value.
    pub fn set_location(&mut self, location: &str)
        ensures
            final(self).url@ == spec_replace(old(self).url@, "__NAME__"@, location@),
    {
        let url = replace_all(self.url.as_str(), "__NAME__", location);
        self.url = url;
    }
}

/// Builds the geocoding request URL for a city from the configured
/// template.
pub fn geo_request_url(city: &str) -> (r: Result<String, CustomError>)
    ensures
        match Config::spec_value_of("geo_api_url"@) {
            Ok(template) => r matches Ok(u) && u@ == spec_replace(
                template,
                "__NAME__"@,
                city@,
            ),
            Err(em) => r matches Err(e) && e@ == em,
        },
{
    let base_url = match Config::get_value("geo_api_url") {
        Ok(u) => u,
        Err(e) => {
            return Err(e);
        },
    };
    let mut api_url = GeoApiUrl::new(base_url);
    api_url.set_location(city);
    Ok(api_url.url)
}

} // verus!
