//! Times and distances between many places: what is asked of the service,
//! and what it answers.

use crate::costing::auto::AutoCostingOptions;
use crate::costing::Costing;
use crate::number::Float;
use crate::shapes::ShapeFormat;
use crate::{Coordinate, DateTime, Units};
use vstd::prelude::*;
use vstd::std_specs::convert::FromSpecImpl;

verus! {

/// A request for the times and distances from every source to every
/// target. The service wants one source and one target at least.
#[derive(Clone, Debug, PartialEq)]
pub struct Manifest {
    /// The places to arrive at.
    pub targets: Vec<Location>,
    /// The places to start from.
    pub sources: Vec<Location>,
    /// Cost model and its options.
    pub costing: Costing,
    /// Name of the request, which the answer repeats.
    pub id: Option<String>,
    /// Number of places that must be found for the answer to count.
    pub matrix_locations: Option<u32>,
    /// Time of departure or arrival for all places.
    pub date_time: Option<DateTime>,
    /// Whether the answer names source and target with each pair.
    pub verbose: Option<bool>,
    /// How the shape of each connection is written.
    pub shape_format: Option<ShapeFormat>,
}

impl Manifest {
    /// Whether nothing is set: no place, the car as cost model, and no
    /// option.
    pub open spec fn is_unset(self) -> bool {
        &&& self.targets@.len() == 0
        &&& self.sources@.len() == 0
        &&& self.costing == Costing::Auto(AutoCostingOptions::unset())
        &&& self.id is None
        &&& self.matrix_locations is None
        &&& self.date_time is None
        &&& self.verbose is None
        &&& self.shape_format is None
    }

    /// Whether the request names a source and a target.
    pub open spec fn spec_is_complete(&self) -> bool {
        self.sources@.len() > 0 && self.targets@.len() > 0
    }

    /// A request with nothing set, to be filled in by the methods below.
    pub fn builder() -> (r: Self)
        ensures
            r.is_unset(),
    {
        Manifest {
            targets: Vec::new(),
            sources: Vec::new(),
            costing: Costing::Auto(AutoCostingOptions::builder()),
            id: None,
            matrix_locations: None,
            date_time: None,
            verbose: None,
            shape_format: None,
        }
    }

    /// Sets the places to start from and the places to arrive at.
    pub fn sources_to_targets(self, sources: Vec<Location>, targets: Vec<Location>) -> (r: Self)
        ensures
            r == (Manifest { sources, targets, ..self }),
    {
        Manifest { sources, targets, ..self }
    }

    /// Sets the cost model and its options. The service has no matrix for
    /// travel that mixes modes.
    pub fn costing(self, costing: Costing) -> (r: Self)
        ensures
            r == (Manifest { costing, ..self }),
    {
        Manifest { costing, ..self }
    }

    /// Sets the name of the request, which the answer repeats.
    pub fn id(self, id: &str) -> (r: Self)
        ensures
            r.id matches Some(text) && text@ == id@,
            r == (Manifest { id: r.id, ..self }),
    {
        Manifest { id: Some(id.to_owned()), ..self }
    }

    /// Sets the number of places that must be found for the answer to
    /// count, so that a part of the matrix can be had: the nearest or best
    /// `count` places of all.
    pub fn minimum_matrix_locations_count(self, count: u32) -> (r: Self)
        ensures
            r == (Manifest { matrix_locations: Some(count), ..self }),
    {
        Manifest { matrix_locations: Some(count), ..self }
    }

    /// Sets the time of departure or arrival for all places at once: a
    /// departure holds for every source, an arrival for every target.
    pub fn date_time(self, date_time: DateTime) -> (r: Self)
        ensures
            r == (Manifest { date_time: Some(date_time), ..self }),
    {
        Manifest { date_time: Some(date_time), ..self }
    }

    /// Sets whether the answer names source and target with each pair
    /// (`true`), or gives rows of times and rows of distances (`false`).
    pub fn verbose_output(self, verbose: bool) -> (r: Self)
        ensures
            r == (Manifest { verbose: Some(verbose), ..self }),
    {
        Manifest { verbose: Some(verbose), ..self }
    }

    /// Sets how the shape of each connection is written.
    pub fn shape_format(self, shape_format: ShapeFormat) -> (r: Self)
        ensures
            r == (Manifest { shape_format: Some(shape_format), ..self }),
    {
        Manifest { shape_format: Some(shape_format), ..self }
    }

    /// Whether the request names a source and a target.
    #[verifier::when_used_as_spec(spec_is_complete)]
    pub fn is_complete(&self) -> (b: bool)
        ensures
            b == self.spec_is_complete(),
    {
        self.sources.len() > 0 && self.targets.len() > 0
    }
}

impl Default for Manifest {
    /// The request with nothing set.
    fn default() -> (r: Self)
        ensures
            r.is_unset(),
    {
        Self::builder()
    }
}

/// A place of a matrix request.
#[derive(Clone, Copy, Debug, PartialEq)]
pub struct Location {
    /// Latitude in degrees.
    pub lat: Float,
    /// Longitude in degrees.
    pub lon: Float,
    /// Date and time at which the traveller is to be at the place, by the
    /// clock of the place.
    pub date_time: Option<chrono::NaiveDateTime>,
}

impl Location {
    /// The place at the given longitude and latitude in degrees.
    pub fn new(longitude: Float, latitude: Float) -> (r: Self)
        ensures
            r == (Location { lat: latitude, lon: longitude, date_time: None }),
    {
        Location { lat: latitude, lon: longitude, date_time: None }
    }

    /// Sets the date and time at which the traveller is to be at the place.
    /// On a source it is a time of departure, on a target a time of
    /// arrival.
    pub fn date_time(self, date_time: chrono::NaiveDateTime) -> (r: Self)
        ensures
            r == (Location { date_time: Some(date_time), ..self }),
    {
        Location { date_time: Some(date_time), ..self }
    }
}

impl Default for Location {
    /// The place at zero degrees of longitude and of latitude.
    fn default() -> (r: Self)
        ensures
            r == (Location {
                lat: Float::spec_from_bits(0),
                lon: Float::spec_from_bits(0),
                date_time: None,
            }),
    {
        Location::new(Float::from_bits(0), Float::from_bits(0))
    }
}

impl From<Coordinate> for Location {
    /// The place at the given pair of longitude and latitude.
    fn from(value: Coordinate) -> (r: Self) {
        let (longitude, latitude) = value;
        Location::new(longitude, latitude)
    }
}

impl FromSpecImpl<Coordinate> for Location {
    open spec fn obeys_from_spec() -> bool {
        true
    }

    open spec fn from_spec(value: Coordinate) -> Self {
        Location { lat: value.1, lon: value.0, date_time: None }
    }
}

/// A place as a verbose answer repeats it.
#[derive(Clone, Copy, Debug, PartialEq)]
pub struct VerboseLocation {
    /// Latitude in degrees.
    pub lat: Float,
    /// Longitude in degrees.
    pub lon: Float,
    /// Date and time that was set for the place.
    pub date_time: Option<chrono::NaiveDateTime>,
}

impl Default for VerboseLocation {
    /// The place at zero degrees of longitude and of latitude.
    fn default() -> (r: Self)
        ensures
            r == (VerboseLocation {
                lat: Float::spec_from_bits(0),
                lon: Float::spec_from_bits(0),
                date_time: None,
            }),
    {
        VerboseLocation { lat: Float::from_bits(0), lon: Float::from_bits(0), date_time: None }
    }
}

impl From<Location> for VerboseLocation {
    /// The same place, as an answer repeats it.
    fn from(value: Location) -> (r: Self) {
        VerboseLocation { lat: value.lat, lon: value.lon, date_time: value.date_time }
    }
}

impl FromSpecImpl<Location> for VerboseLocation {
    open spec fn obeys_from_spec() -> bool {
        true
    }

    open spec fn from_spec(value: Location) -> Self {
        VerboseLocation { lat: value.lat, lon: value.lon, date_time: value.date_time }
    }
}

impl From<VerboseLocation> for Location {
    /// The same place, as a request names it.
    fn from(value: VerboseLocation) -> (r: Self) {
        Location { lat: value.lat, lon: value.lon, date_time: value.date_time }
    }
}

impl FromSpecImpl<VerboseLocation> for Location {
    open spec fn obeys_from_spec() -> bool {
        true
    }

    open spec fn from_spec(value: VerboseLocation) -> Self {
        Location { lat: value.lat, lon: value.lon, date_time: value.date_time }
    }
}

/// The answer of the service to a matrix request.
#[derive(Clone, Debug)]
pub enum Response {
    /// The answer that names source and target with each pair.
    Verbose(VerboseResponse),
    /// The answer in rows.
    Concise(ConciseResponse),
}

/// The answer that names source and target with each pair.
#[derive(Clone, Debug)]
pub struct VerboseResponse {
    /// Name of the request, where it was given one.
    pub id: Option<String>,
    /// The algorithm that was used.
    pub algorithm: String,
    /// Unit in which distances are given.
    pub units: Units,
    /// Warnings, such as of an option that is no longer in use or of a
    /// value that was cut to its limit.
    pub warnings: Vec<serde_json::Value>,
    /// The places to start from.
    pub sources: Vec<VerboseLocation>,
    /// The places to arrive at.
    pub targets: Vec<VerboseLocation>,
    /// For each source a row with its connection to each target.
    pub sources_to_targets: Vec<Vec<VerboseSourceToTarget>>,
}

/// The answer in rows.
#[derive(Clone, Debug)]
pub struct ConciseResponse {
    /// Name of the request, where it was given one.
    pub id: Option<String>,
    /// The algorithm that was used.
    pub algorithm: String,
    /// Unit in which distances are given.
    pub units: Units,
    /// Warnings, such as of an option that is no longer in use or of a
    /// value that was cut to its limit.
    pub warnings: Vec<serde_json::Value>,
    /// Times and distances, each in rows.
    pub sources_to_targets: ConciseSourceToTargets,
}

/// Times and distances in rows: one row for each source, one entry in it
/// for each target.
#[derive(Clone, Debug, PartialEq)]
pub struct ConciseSourceToTargets {
    /// Time in seconds from each source to each target; zero from a place
    /// to itself.
    pub durations: Vec<Vec<u32>>,
    /// Distance from each source to each target; zero from a place to
    /// itself.
    pub distances: Vec<Vec<Float>>,
}

/// The connection from one source to one target.
#[derive(Clone, Debug, PartialEq)]
pub struct VerboseSourceToTarget {
    /// Distance between the two places.
    pub distance: Float,
    /// Time in seconds between the two places.
    pub time: u32,
    /// Index of the source among the sources.
    pub from_index: usize,
    /// Index of the target among the targets.
    pub to_index: usize,
    /// Name of the time zone of the time below, such as `Europe/Berlin`.
    pub time_zone_name: Option<String>,
    /// Offset of that time zone, such as `+01:00`.
    pub time_zone_offset: Option<String>,
    /// When the traveller arrives at the target, or has to leave the
    /// source, where a time was set and the way is not too long.
    pub date_time: Option<chrono::NaiveDateTime>,
}

} // verus!
