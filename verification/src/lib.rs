//! Client-side model of the Valhalla routing service.
//!
//! The library holds what is asked of the service and what it answers, and
//! the encoding of shapes that both sides use. It sends nothing itself.

use vstd::prelude::*;

pub mod costing;
pub mod elevation;
pub mod matrix;
pub mod number;
pub mod route;
pub mod service;
pub mod shapes;
pub mod status;
pub mod time;

use crate::number::Float;
use crate::time::local_now;

verus! {

/// A point on the map: longitude and latitude, in degrees.
pub type Coordinate = (Float, Float);

/// A code with its meaning in words.
#[derive(Clone, Debug, PartialEq, Eq)]
pub struct CodedDescription {
    /// The code.
    pub code: u64,
    /// What the code means.
    pub description: String,
}

/// Unit of length.
#[derive(Clone, Copy, Debug, PartialEq, Eq, Structural)]
pub enum Units {
    /// Kilometres.
    Metric,
    /// Miles.
    Imperial,
}

impl Default for Units {
    fn default() -> (r: Self)
        ensures
            r == Units::Metric,
    {
        Units::Metric
    }
}

/// What a date and time in a request stands for. The service names each
/// kind by its place in this list, counted from zero.
#[derive(Clone, Copy, Debug, PartialEq, Eq, Structural)]
pub enum MatrixDateTimeType {
    /// Departure now.
    CurrentDeparture,
    /// Departure at the time given.
    SpecifiedDeparture,
    /// Arrival at the time given.
    SpecifiedArrival,
}

/// A date and time by the clock of the place, and what it stands for.
#[derive(Clone, Debug, PartialEq)]
pub struct DateTime {
    /// What the time stands for.
    pub type_: MatrixDateTimeType,
    /// The date and time.
    pub value: chrono::NaiveDateTime,
}

impl DateTime {
    /// Departure now, by the clock of this machine.
    ///
    /// The time is read by `chrono`, which panics where the clock of the
    /// machine stands before 1970 or its time zone cannot be found out.
    pub fn from_current_departure_time() -> (r: Self)
        ensures
            r.type_ == MatrixDateTimeType::CurrentDeparture,
    {
        Self::from_current_departure_at(local_now())
    }

    /// Departure now, where the clock reads `now`.
    pub fn from_current_departure_at(now: chrono::NaiveDateTime) -> (r: Self)
        ensures
            r == (DateTime { type_: MatrixDateTimeType::CurrentDeparture, value: now }),
    {
        DateTime { type_: MatrixDateTimeType::CurrentDeparture, value: now }
    }

    /// Departure at `depart_after`.
    pub fn from_departure_time(depart_after: chrono::NaiveDateTime) -> (r: Self)
        ensures
            r == (DateTime { type_: MatrixDateTimeType::SpecifiedDeparture, value: depart_after }),
    {
        DateTime { type_: MatrixDateTimeType::SpecifiedDeparture, value: depart_after }
    }

    /// Arrival at `arrive_by`.
    pub fn from_arrival_time(arrive_by: chrono::NaiveDateTime) -> (r: Self)
        ensures
            r == (DateTime { type_: MatrixDateTimeType::SpecifiedArrival, value: arrive_by }),
    {
        DateTime { type_: MatrixDateTimeType::SpecifiedArrival, value: arrive_by }
    }
}

/// What the service says when it refuses a request.
#[derive(Clone, Debug, PartialEq, Eq)]
pub struct RemoteError {
    /// Code of the fault within the service.
    pub error_code: isize,
    /// The fault in words.
    pub error: String,
    /// Status code of the answer.
    pub status_code: isize,
    /// Status of the answer in words.
    pub status: String,
}

} // verus!
