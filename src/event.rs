use vstd::prelude::*;

use crate::queue::GetTime;

verus! {

/// A coordinate pair, each half held as the bit pattern of an IEEE-754
/// double (`f64::to_bits`). The fusion logic only carries positions from an
/// input to an output, so it never needs their numeric value.
#[derive(Clone, Copy, Debug, PartialEq, Eq, Structural)]
pub struct Location {
    pub lat_bits: u64,
    pub lon_bits: u64,
}

/// A beacon telegram. `line` and `run` are absent on an unresolved telegram.
#[derive(Clone, Copy, Debug, PartialEq, Eq, Structural)]
pub struct R09Telegram {
    pub region: i64,
    pub line: Option<i32>,
    pub run: Option<i32>,
    /// milliseconds since the Unix epoch
    pub time: u64,
    /// raw schedule deviation code, in minutes
    pub delay: Option<i32>,
    pub reporting_point: i32,
    pub destination_number: Option<i32>,
}

/// A raw GPS sample of one vehicle.
#[derive(Clone, Copy, Debug, PartialEq, Eq, Structural)]
pub struct GpsPoint {
    pub region: i64,
    pub line: i32,
    pub run: i32,
    /// milliseconds since the Unix epoch
    pub time: u64,
    pub location: Location,
}

/// The stream a waypoint was derived from.
#[derive(Clone, Copy, Debug, PartialEq, Eq, Structural)]
pub enum WaypointSource {
    R09,
    Gps,
}

/// A fused output record. `reporting_point` and `destination_number` are
/// provenance of an R09 telegram and are absent on a GPS waypoint.
#[derive(Clone, Copy, Debug, PartialEq, Eq, Structural)]
pub struct Waypoint {
    pub id: u64,
    pub source: WaypointSource,
    pub region: i64,
    pub time: u64,
    pub location: Location,
    pub line: i32,
    pub run: i32,
    /// schedule deviation in seconds
    pub delay: Option<i64>,
    pub reporting_point: Option<i32>,
    pub destination_number: Option<i32>,
}

/// Schedule deviation in seconds of a raw delay code given in minutes.
pub open spec fn delay_seconds(code: Option<i32>) -> Option<i64> {
    match code {
        Some(c) => Some((c * 60) as i64),
        None => None,
    }
}

/// The waypoint that a telegram with resolved `line` and `run` yields at `loc`.
pub open spec fn r09_waypoint_spec(t: R09Telegram, loc: Location) -> Option<Waypoint> {
    match (t.line, t.run) {
        (Some(line), Some(run)) => Some(
            Waypoint {
                id: 0,
                source: WaypointSource::R09,
                region: t.region,
                time: t.time,
                location: loc,
                line,
                run,
                delay: delay_seconds(t.delay),
                reporting_point: Some(t.reporting_point),
                destination_number: t.destination_number,
            },
        ),
        _ => None,
    }
}

/// The waypoint that a GPS sample yields, annotated with `delay`.
pub open spec fn gps_waypoint_spec(p: GpsPoint, delay: Option<i64>) -> Waypoint {
    Waypoint {
        id: 0,
        source: WaypointSource::Gps,
        region: p.region,
        time: p.time,
        location: p.location,
        line: p.line,
        run: p.run,
        delay,
        reporting_point: None,
        destination_number: None,
    }
}

/// Converts a raw delay code in minutes into seconds.
pub fn convert_delay(code: Option<i32>) -> (r: Option<i64>)
    ensures
        r == delay_seconds(code),
{
    match code {
        Some(c) => Some(c as i64 * 60),
        None => None,
    }
}

impl Waypoint {
    /// The R09-sourced waypoint of telegram `t` placed at `loc`; `None` when
    /// the telegram lacks its line or run.
    pub fn from_r09(t: &R09Telegram, loc: Location) -> (r: Option<Waypoint>)
        ensures
            r == r09_waypoint_spec(*t, loc),
    {
        match (t.line, t.run) {
            (Some(line), Some(run)) => Some(
                Waypoint {
                    id: 0,
                    source: WaypointSource::R09,
                    region: t.region,
                    time: t.time,
                    location: loc,
                    line,
                    run,
                    delay: convert_delay(t.delay),
                    reporting_point: Some(t.reporting_point),
                    destination_number: t.destination_number,
                },
            ),
            _ => None,
        }
    }

    /// The GPS-sourced waypoint of sample `p`, annotated with `delay`.
    pub fn from_gps(p: &GpsPoint, delay: Option<i64>) -> (r: Waypoint)
        ensures
            r == gps_waypoint_spec(*p, delay),
    {
        Waypoint {
            id: 0,
            source: WaypointSource::Gps,
            region: p.region,
            time: p.time,
            location: p.location,
            line: p.line,
            run: p.run,
            delay,
            reporting_point: None,
            destination_number: None,
        }
    }
}

impl GetTime for R09Telegram {
    open spec fn time_spec(&self) -> u128 {
        self.time as u128
    }

    fn get_time(&self) -> (r: u128) {
        self.time as u128
    }
}

impl GetTime for GpsPoint {
    open spec fn time_spec(&self) -> u128 {
        self.time as u128
    }

    fn get_time(&self) -> (r: u128) {
        self.time as u128
    }
}

} // verus!
