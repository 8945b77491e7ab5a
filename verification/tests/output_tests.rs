use chrono::{Local, TimeZone, Utc};
use weather_wand::args::{ClockDisplay, TemperatureUnit, WindspeedUnit};
use weather_wand::geolocation::{Coordinates, Location};
use weather_wand::output::{format_date, WeatherOutput};
use weather_wand::weather::CurrentWeather;

#[test]
fn format_date_returns_correctly_formatted_dates() {
    let timestamp = 1672531200;
    assert_eq!(
        "Jan 1, 2023 12:00 AM",
        format_date(timestamp, &ClockDisplay::_12h).utc
    );
    assert_eq!(
        "Jan 1, 2023 00:00",
        format_date(timestamp, &ClockDisplay::_24h).utc
    );

    // Convert UTC to local
    let local_time_12h_expected = Utc
        .timestamp_opt(timestamp as i64, 0)
        .earliest()
        .unwrap()
        .with_timezone(&Local)
        .format("%b %-e, %Y %I:%M %p")
        .to_string();
    assert_eq!(
        local_time_12h_expected,
        format_date(timestamp, &ClockDisplay::_12h).local
    );

    // Convert UTC to local
    let local_time_24h_expected = Utc
        .timestamp_opt(timestamp as i64, 0)
        .earliest()
        .unwrap()
        .with_timezone(&Local)
        .format("%b %-e, %Y %H:%M")
        .to_string();
    assert_eq!(
        local_time_24h_expected,
        format_date(timestamp, &ClockDisplay::_24h).local
    );
}

fn sample_location() -> Location {
    Location {
        name: "New York".to_string(),
        country_code: "US".to_string(),
        country: "United States".to_string(),
        region: "New York".to_string(),
        timezone: "America/New_York".to_string(),
        coordinates: Coordinates {
            latitude: "40.71427".to_string(),
            longitude: "-74.00597".to_string(),
        },
    }
}

#[test]
fn build_report_renders_expected_lines() {
    let weather = CurrentWeather {
        temperature: "8.8".to_string(),
        windspeed: "12.7".to_string(),
        is_day: true,
        timestamp: 1702740600,
    };
    let location = sample_location();

    let lines = WeatherOutput::build_report(
        &weather,
        &location,
        &TemperatureUnit::Celsius,
        &WindspeedUnit::Kmh,
        "Dec 16, 2023 15:50",
    );

    assert_eq!(lines.len(), 10);
    assert_eq!(lines[1], "  Current Weather Report for New York, US");
    assert_eq!(lines[2], "  Temperature: 8.8 °C");
    assert_eq!(lines[3], "  Wind Speed:  12.7 Km/h");
    assert_eq!(lines[4], "  City:        New York");
    assert_eq!(lines[5], "  Area:        New York, United States");
    assert_eq!(lines[6], "  Coordinates: 40.71427, -74.00597");
    assert_eq!(lines[7], "  Time:        Dec 16, 2023 15:50 | Day");
    assert_eq!(lines[8], "  Timezone:    America/New York");
    let header_width = "Current Weather Report for New York, US".chars().count();
    let expected_top: String = std::iter::once('┌')
        .chain(std::iter::repeat('─').take(header_width))
        .chain(std::iter::once('┐'))
        .collect();
    assert_eq!(lines[0], expected_top);
}

#[test]
fn build_report_marks_night_and_fahrenheit() {
    let weather = CurrentWeather {
        temperature: "47.8".to_string(),
        windspeed: "7.9".to_string(),
        is_day: false,
        timestamp: 1702780600,
    };
    let location = sample_location();

    let lines = WeatherOutput::build_report(
        &weather,
        &location,
        &TemperatureUnit::Fahrenheit,
        &WindspeedUnit::Mph,
        "Dec 17, 2023 02:56",
    );

    assert_eq!(lines[2], "  Temperature: 47.8 °F");
    assert_eq!(lines[3], "  Wind Speed:  7.9 Mph");
    assert_eq!(lines[7], "  Time:        Dec 17, 2023 02:56 | Night");
}
