//! The dashboard's settings and the request URLs built from them.
use vstd::prelude::*;
use vstd::string::StringExecFns;

use crate::text::{decimal, decimal_string};

verus! {

/// The settings the dashboard runs with.
pub struct ConfigStructure {
    /// Host of the departures API.
    pub source: String,
    /// Stations to cycle through, in order.
    pub station_id: Vec<i32>,
    /// Minutes ahead to ask departures for.
    pub duration: i32,
    /// Ticks between two fetches.
    pub refresh_rate: u64,
    /// Lines to show; empty shows every line.
    pub lines: Vec<String>,
    pub show_cancelled: bool,
}

/// Why a configuration cannot be run.
#[derive(Clone, Copy, Debug, PartialEq, Eq, Structural)]
pub enum ConfigError {
    NoStations,
}

impl ConfigStructure {
    /// A configuration can be run when it names at least one station.
    pub open spec fn valid(&self) -> bool {
        self.station_id@.len() > 0
    }
}

/// Checks that the configuration names at least one station.
pub fn validate_config(config: &ConfigStructure) -> (r: Result<(), ConfigError>)
    ensures
        r is Ok <==> config.valid(),
        r is Err ==> r == Err::<(), ConfigError>(ConfigError::NoStations),
{
    if config.station_id.len() == 0 {
        Err(ConfigError::NoStations)
    } else {
        Ok(())
    }
}

/// The URL of a station's departures for the next `duration` minutes.
pub open spec fn departures_url(source: Seq<char>, station_id: int, duration: int) -> Seq<char> {
    "https://"@ + source + "/stops/"@ + decimal(station_id) + "/departures?duration="@ + decimal(
        duration,
    ) + "&linesOfStops=false&remarks=true&language=en"@
}

/// The URL that describes a station.
pub open spec fn station_url_of(source: Seq<char>, station_id: int) -> Seq<char> {
    "https://"@ + source + "/stops/"@ + decimal(station_id) + "?linesOfStops=false&language=en"@
}

/// Builds the departures URL for a station.
pub fn create_url(source: &str, station_id: i32, duration: i32) -> (r: String)
    ensures
        r@ == departures_url(source@, station_id as int, duration as int),
{
    let id = decimal_string(station_id as i64);
    let d = decimal_string(duration as i64);
    let r = String::from_str("https://").concat(source).concat("/stops/").concat(id.as_str()).concat(
        "/departures?duration=",
    ).concat(d.as_str()).concat("&linesOfStops=false&remarks=true&language=en");
    r
}

/// Builds the URL that describes a station.
pub fn station_url(source: &str, station_id: i32) -> (r: String)
    ensures
        r@ == station_url_of(source@, station_id as int),
{
    let id = decimal_string(station_id as i64);
    String::from_str("https://").concat(source).concat("/stops/").concat(id.as_str()).concat(
        "?linesOfStops=false&language=en",
    )
}

} // verus!
