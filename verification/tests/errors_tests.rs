use weather_wand::args::{TemperatureUnit, WindspeedUnit};
use weather_wand::errors::CustomError;
use weather_wand::geolocation::{geo_request_url, Coordinates};
use weather_wand::weather::weather_request_url;

#[test]
fn messages_name_the_failing_stage() {
    assert_eq!(
        CustomError::WeatherInfoNotFound("temperature".to_string()).message(),
        "Weather information not found - temperature"
    );
    assert_eq!(
        CustomError::GeolocationNotFound("results".to_string()).message(),
        "Geolocation information not found - results"
    );
    assert_eq!(CustomError::ParseError.message(), "Error parsing JSON");
    assert_eq!(
        CustomError::TransportError("timed out".to_string()).message(),
        "Transport error - timed out"
    );
    assert_eq!(
        CustomError::ConfigurationError("Value for key x is not a string".to_string()).message(),
        "Value for key x is not a string"
    );
}

#[test]
fn geo_request_url_resolves_the_city_placeholder() {
    let url = geo_request_url("Berlin").unwrap();
    assert_eq!(
        url,
        "https://geocoding-api.open-meteo.com/v1/search?name=Berlin&count=1&language=en&format=json"
    );
}

#[test]
fn weather_request_url_resolves_every_placeholder() {
    let coordinates = Coordinates {
        latitude: "52.52437".to_string(),
        longitude: "13.41053".to_string(),
    };
    let url = weather_request_url(&coordinates, &TemperatureUnit::Fahrenheit, &WindspeedUnit::Ms)
        .unwrap();
    assert_eq!(
        url,
        "https://api.open-meteo.com/v1/forecast?latitude=52.52437&longitude=13.41053&current_weather=true&temperature_unit=fahrenheit&timezone=auto&windspeed_unit=ms&timeformat=unixtime"
    );
}
