use weather_wand::config::Config;
use weather_wand::errors::CustomError;
use weather_wand::geolocation::{deserialize, GeoApiUrl};

#[test]
fn deserialize_creates_correct_location_struct() {
    let json =
        r#"{"results":[{"name":"New York","latitude":40.71427,"longitude":-74.00597,"country_code":"US","timezone":"America/New_York","country":"United States","admin1":"New York"}]}"#.to_string();

    let result = deserialize(Ok(json)).unwrap();

    assert_eq!(result.name, "New York");
    assert_eq!(result.coordinates.latitude, "40.71427");
    assert_eq!(result.coordinates.longitude, "-74.00597");
    assert_eq!(result.country_code, "US");
    assert_eq!(result.timezone, "America/New_York");
    assert_eq!(result.region, "New York");
    assert_eq!(result.country, "United States");
}

#[test]
fn deserialize_throws_error_on_invalid_city_name() {
    // The geolocation API returns the "generationtime_ms" JSON field if the city name is invalid,
    // so we use this to trigger the GeolocationNotFound error.
    let result = deserialize(Ok(r#"{"generationtime_ms": 0.0}"#.to_string()));

    assert!(result.is_err());

    if let Some(err) = result.err() {
        assert!(err.message().contains("Geolocation information not found"));
    }
}

#[test]
fn setters_insert_correct_information_into_url() {
    let mut geo_api_url = GeoApiUrl::new(Config::get_value("geo_api_url").unwrap());

    let expected_url = "https://geocoding-api.open-meteo.com/v1/search?name=New York&count=1&language=en&format=json";

    geo_api_url.set_location("New York");
    let actual_url = &geo_api_url.url;

    assert_eq!(actual_url, expected_url);
}

#[test]
fn deserialize_rejects_empty_results_array() {
    let result = deserialize(Ok(r#"{"results":[]}"#.to_string()));

    match result {
        Err(CustomError::GeolocationNotFound(field)) => assert_eq!(field, "results"),
        _ => panic!("expected GeolocationNotFound naming results"),
    }
}

#[test]
fn deserialize_rejects_error_flagged_document() {
    let result = deserialize(Ok(r#"{"error":true,"results":[{"name":"X"}]}"#.to_string()));

    match result {
        Err(CustomError::GeolocationNotFound(field)) => assert_eq!(field, "results"),
        _ => panic!("expected GeolocationNotFound naming results"),
    }
}

#[test]
fn deserialize_names_first_missing_field() {
    let json = r#"{"results":[{"name":"Paris","timezone":"Europe/Paris","latitude":48.8,"longitude":2.3,"admin1":"Ile-de-France","country":"France"}]}"#;
    let result = deserialize(Ok(json.to_string()));

    match result {
        Err(CustomError::GeolocationNotFound(field)) => assert_eq!(field, "country_code"),
        _ => panic!("expected GeolocationNotFound naming country_code"),
    }
}

#[test]
fn deserialize_rejects_mistyped_latitude() {
    let json = r#"{"results":[{"name":"Paris","timezone":"Europe/Paris","country_code":"FR","latitude":"48.8","longitude":2.3,"admin1":"Ile-de-France","country":"France"}]}"#;
    let result = deserialize(Ok(json.to_string()));

    match result {
        Err(CustomError::GeolocationNotFound(field)) => assert_eq!(field, "latitude"),
        _ => panic!("expected GeolocationNotFound naming latitude"),
    }
}

#[test]
fn deserialize_reports_parse_error_on_invalid_json() {
    let result = deserialize(Ok("this is not json".to_string()));

    assert!(matches!(result, Err(CustomError::ParseError)));
}

#[test]
fn deserialize_passes_transport_error_through() {
    let result = deserialize(Err(CustomError::TransportError("timed out".to_string())));

    match result {
        Err(CustomError::TransportError(message)) => assert_eq!(message, "timed out"),
        _ => panic!("expected the transport error to pass through unchanged"),
    }
}

#[test]
fn coordinates_keep_full_precision() {
    let json = r#"{"results":[{"name":"New York","latitude":40.71427,"longitude":-74.00597,"country_code":"US","timezone":"America/New_York","country":"United States","admin1":"New York"}]}"#;
    let result = deserialize(Ok(json.to_string())).unwrap();

    assert_eq!(result.coordinates.latitude, "40.71427");
    assert_eq!(result.coordinates.longitude, "-74.00597");
}
