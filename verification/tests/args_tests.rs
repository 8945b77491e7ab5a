use weather_wand::args::{ClockDisplay, TemperatureUnit, WindspeedUnit};

#[test]
fn test_temperature_unit_fmt_formats_correct_strings() {
    assert_eq!(TemperatureUnit::Celsius.as_str(), "celsius");
    assert_eq!(TemperatureUnit::Fahrenheit.as_str(), "fahrenheit");
}

#[test]
fn test_windspeed_unit_fmt_formats_correct_strings() {
    assert_eq!(WindspeedUnit::Kmh.as_str(), "kmh");
    assert_eq!(WindspeedUnit::Ms.as_str(), "ms");
    assert_eq!(WindspeedUnit::Mph.as_str(), "mph");
    assert_eq!(WindspeedUnit::Kn.as_str(), "kn");
}

#[test]
fn clock_display_fmt_formats_correct_strings() {
    assert_eq!(ClockDisplay::_12h.as_str(), "12h");
    assert_eq!(ClockDisplay::_24h.as_str(), "24h");
}
