//! Weather lookup library: URL template resolution, JSON response
//! validation for a geocoding API and a weather API, configuration
//! lookup, report formatting, and release-version comparison.

pub mod args;
pub mod config;
pub mod errors;
pub mod geolocation;
pub mod json;
pub mod output;
pub mod text;
pub mod updater;
pub mod weather;
