//! Routes: what is asked of the service, and what it answers.

use crate::costing::bicycle::BicycleType;
use crate::costing::pedestrian::PedestrianType;
use crate::costing::Costing;
use crate::number::{Double, Float};
use crate::shapes::ShapePoint;
use crate::{Coordinate, DateTime, Units};
use vstd::prelude::*;
use vstd::std_specs::convert::FromSpecImpl;

verus! {

/// The answer of the service to a route request.
#[derive(Clone, Debug, PartialEq)]
pub struct Response {
    /// The route that was found.
    pub trip: Trip,
}

/// A route, as the service found it.
#[derive(Clone, Debug, PartialEq)]
pub struct Trip {
    /// Status code of the answer.
    pub status: i32,
    /// Status of the answer in words.
    pub status_message: String,
    /// Unit in which lengths are given.
    pub units: Units,
    /// Language of the instructions: the one asked for where the service
    /// has it, else `en-US`.
    pub language: String,
    /// The locations of the request, each with the side of the street
    /// added.
    pub locations: Vec<Location>,
    /// Warnings, such as of an option that is no longer in use or of a
    /// value that was cut to its limit.
    pub warnings: Option<Vec<String>>,
    /// Name of the request, where it was given one.
    pub id: Option<String>,
    /// The legs of the route, one between each two stops.
    pub legs: Vec<Leg>,
    /// Figures for the route as a whole.
    pub summary: Summary,
}

/// Figures for a route or for one leg of it.
#[derive(Clone, Copy, Debug, PartialEq)]
pub struct Summary {
    /// Time in seconds that the way is expected to take.
    pub time: Double,
    /// Length of the way, in the unit of the trip.
    pub length: Double,
    /// Whether some part of the way takes a toll.
    pub has_toll: bool,
    /// Whether some part of the way is a highway.
    pub has_highway: bool,
    /// Whether some part of the way is a ferry.
    pub has_ferry: bool,
    /// Least latitude of the box around the way.
    pub min_lat: Double,
    /// Least longitude of the box around the way.
    pub min_lon: Double,
    /// Greatest latitude of the box around the way.
    pub max_lat: Double,
    /// Greatest longitude of the box around the way.
    pub max_lon: Double,
}

/// How a maneuver is travelled.
#[derive(Clone, Copy, Debug, PartialEq, Eq, Structural)]
pub enum TravelMode {
    /// In a motor vehicle.
    Drive,
    /// On foot.
    Pedestrian,
    /// On a bicycle.
    Bicycle,
    /// By public transport.
    Transit,
}

/// The vehicle or kind of traveller of a maneuver, within its travel mode.
#[derive(Clone, Copy, Debug, PartialEq, Eq, Structural)]
pub enum TravelType {
    /// A motor vehicle.
    Drive(DriveTravelType),
    /// A pedestrian.
    Pedestrian(PedestrianType),
    /// A bicycle.
    Bicycle(BicycleType),
    /// A vehicle of public transport.
    Transit(TransitTravelType),
}

/// Kind of motor vehicle.
#[derive(Clone, Copy, Debug, PartialEq, Eq, Structural)]
pub enum DriveTravelType {
    /// A car.
    Car,
    /// A motorcycle.
    Motorcycle,
    /// A truck.
    Truck,
    /// A motor scooter or moped.
    MotorScooter,
}

/// Kind of car.
#[derive(Clone, Copy, Debug, PartialEq, Eq, Structural)]
pub enum CarTravelType {
    /// A car.
    Car,
}

/// Kind of travel on foot.
#[derive(Clone, Copy, Debug, PartialEq, Eq, Structural)]
pub enum PedestrianTravelType {
    /// Walking.
    Foot,
}

/// Kind of travel by bicycle.
#[derive(Clone, Copy, Debug, PartialEq, Eq, Structural)]
pub enum BicycleTravelType {
    /// On a road bicycle.
    Road,
}

/// Kind of vehicle of public transport.
#[derive(Clone, Copy, Debug, PartialEq, Eq, Structural)]
pub enum TransitTravelType {
    /// A tram.
    Tram,
    /// A metro or subway.
    Metro,
    /// A train.
    Rail,
    /// A bus.
    Bus,
    /// A ferry.
    Ferry,
    /// A cable car.
    CableCar,
    /// A gondola.
    Gondola,
    /// A funicular.
    Funicular,
}

/// What a maneuver does at a bike share station.
#[derive(Clone, Copy, Debug, PartialEq, Eq, Structural)]
pub enum BssManeuverType {
    /// Nothing.
    NoneAction,
    /// A bicycle is rented.
    RentBikeAtBikeShare,
    /// The bicycle is returned.
    ReturnBikeAtBikeShare,
}

/// One leg of a route: the way between two stops.
#[derive(Clone, Debug, PartialEq)]
pub struct Leg {
    /// Figures for the leg.
    pub summary: Summary,
    /// The maneuvers of the leg, in the order in which they are made.
    pub maneuvers: Vec<Maneuver>,
    /// The line of the leg on the map.
    pub shape: Vec<ShapePoint>,
}

/// What is done at a maneuver. The service names each kind by its place in
/// this list, counted from zero.
#[derive(Clone, Copy, Debug, PartialEq, Eq, Structural)]
pub enum ManeuverType {
    /// No maneuver.
    NoManeuver,
    /// The way starts.
    Start,
    /// The way starts to the right.
    StartRight,
    /// The way starts to the left.
    StartLeft,
    /// The way ends.
    Destination,
    /// The way ends on the right.
    DestinationRight,
    /// The way ends on the left.
    DestinationLeft,
    /// The road goes on under another name.
    Becomes,
    /// The way goes straight on.
    Continue,
    /// A slight turn to the right.
    SlightRight,
    /// A turn to the right.
    Right,
    /// A sharp turn to the right.
    SharpRight,
    /// A turn back over the right.
    UturnRight,
    /// A turn back over the left.
    UturnLeft,
    /// A sharp turn to the left.
    SharpLeft,
    /// A turn to the left.
    Left,
    /// A slight turn to the left.
    SlightLeft,
    /// Onto a ramp straight ahead.
    RampStraight,
    /// Onto a ramp on the right.
    RampRight,
    /// Onto a ramp on the left.
    RampLeft,
    /// Off by an exit on the right.
    ExitRight,
    /// Off by an exit on the left.
    ExitLeft,
    /// The way keeps straight at a fork.
    StayStraight,
    /// The way keeps right at a fork.
    StayRight,
    /// The way keeps left at a fork.
    StayLeft,
    /// The road merges into another.
    Merge,
    /// Into a roundabout.
    RoundaboutEnter,
    /// Out of a roundabout.
    RoundaboutExit,
    /// Onto a ferry.
    FerryEnter,
    /// Off a ferry.
    FerryExit,
    /// A ride on public transport.
    Transit,
    /// A change between two vehicles of public transport.
    TransitTransfer,
    /// The traveller stays on the vehicle.
    TransitRemainOn,
    /// Into a station, at the start of a ride.
    TransitConnectionStart,
    /// Through a station, between two rides.
    TransitConnectionTransfer,
    /// Out of a station, at the end of a ride.
    TransitConnectionDestination,
    /// The way goes on behind a station.
    PostTransitConnectionDestination,
    /// The road merges into another from the right.
    MergeRight,
    /// The road merges into another from the left.
    MergeLeft,
    /// Into an elevator.
    ElevatorEnter,
    /// Onto steps.
    StepsEnter,
    /// Onto an escalator.
    EscalatorEnter,
    /// Into a building.
    BuildingEnter,
    /// Out of a building.
    BuildingExit,
}

/// What the signs at a junction say.
#[derive(Clone, Debug, PartialEq, Eq)]
pub struct Sign {
    /// Numbers of the exit, such as `91B`; mostly there is one.
    pub exit_number_elements: Vec<ManeuverSignElement>,
    /// Roads that the exit leads onto, such as `I 95 North`.
    pub exit_branch_elements: Vec<ManeuverSignElement>,
    /// Places that the exit leads towards, such as `New York`.
    pub exit_toward_elements: Vec<ManeuverSignElement>,
    /// Names of the exit, such as `Gettysburg Pike`.
    pub exit_name_elements: Vec<ManeuverSignElement>,
}

impl Sign {
    /// A sign that says nothing.
    pub fn new() -> (sign: Sign)
        ensures
            sign.exit_number_elements@.len() == 0,
            sign.exit_branch_elements@.len() == 0,
            sign.exit_toward_elements@.len() == 0,
            sign.exit_name_elements@.len() == 0,
    {
        Sign {
            exit_number_elements: Vec::new(),
            exit_branch_elements: Vec::new(),
            exit_toward_elements: Vec::new(),
            exit_name_elements: Vec::new(),
        }
    }
}

impl Default for Sign {
    /// A sign that says nothing.
    fn default() -> (sign: Sign)
        ensures
            sign.exit_number_elements@.len() == 0,
            sign.exit_branch_elements@.len() == 0,
            sign.exit_toward_elements@.len() == 0,
            sign.exit_name_elements@.len() == 0,
    {
        Sign::new()
    }
}

/// One piece of text on a sign.
#[derive(Clone, Debug, PartialEq, Eq)]
pub struct ManeuverSignElement {
    /// The text.
    pub text: String,
    /// On how many signs in a row the text stands.
    pub consecutive_count: Option<usize>,
}

/// One maneuver of a leg.
#[derive(Clone, Debug, PartialEq)]
pub struct Maneuver {
    /// What is done.
    pub type_: ManeuverType,
    /// The instruction in writing, such as "Turn right onto Main Street".
    pub instruction: String,
    /// Words to be spoken ahead of the maneuver.
    pub verbal_transition_alert_instruction: Option<String>,
    /// Words to be spoken just before the maneuver.
    pub verbal_pre_transition_instruction: Option<String>,
    /// Words to be spoken just after the maneuver.
    pub verbal_post_transition_instruction: Option<String>,
    /// Names of the street that hold along the whole maneuver.
    pub street_names: Option<Vec<String>>,
    /// Names of the street at the start of the maneuver, where they differ
    /// from those that hold along the whole of it.
    pub begin_street_names: Option<Vec<String>>,
    /// Time in seconds that the maneuver is expected to take.
    pub time: Double,
    /// Length of the maneuver, in the unit of the trip.
    pub length: Double,
    /// Index into the shape of the leg at which the maneuver starts.
    pub begin_shape_index: usize,
    /// Index into the shape of the leg at which the maneuver ends.
    pub end_shape_index: usize,
    /// Whether a toll booth is passed.
    pub toll: Option<bool>,
    /// Whether a highway is taken.
    pub highway: Option<bool>,
    /// Whether some part is unpaved or rough.
    pub rough: Option<bool>,
    /// Whether a gate is passed.
    pub gate: Option<bool>,
    /// Whether a ferry is taken.
    pub ferry: Option<bool>,
    /// What the signs at the junction say.
    pub sign: Option<Sign>,
    /// The exit to take out of a roundabout, counted from where it is
    /// entered.
    pub roundabout_exit_count: Option<i64>,
    /// Time of departure in writing, as for a ride on public transport.
    pub depart_instruction: Option<String>,
    /// Time of departure in words to be spoken.
    pub verbal_depart_instruction: Option<String>,
    /// Time of arrival in writing, as for a ride on public transport.
    pub arrive_instruction: Option<String>,
    /// Time of arrival in words to be spoken.
    pub verbal_arrive_instruction: Option<String>,
    /// The line of public transport that is taken.
    pub transit_info: Option<TransitInfo>,
    /// Whether the words before the maneuver also tell of the next one.
    pub verbal_multi_cue: Option<bool>,
    /// How the maneuver is travelled.
    pub travel_mode: TravelMode,
    /// The vehicle or kind of traveller.
    pub travel_type: TravelType,
    /// What is done at a bike share station.
    pub bss_maneuver_type: Option<BssManeuverType>,
}

/// A line of public transport.
#[derive(Clone, Debug, PartialEq)]
pub struct TransitInfo {
    /// Onestop identifier of the line.
    pub onestop_id: String,
    /// Short name of the line, such as "N".
    pub short_name: String,
    /// Long name of the line, such as "Broadway Express".
    pub long_name: String,
    /// What the vehicle shows as its destination.
    pub headsign: String,
    /// Colour of the line as a number.
    pub color: i32,
    /// Colour of the text of the line as a number in writing.
    pub text_color: String,
    /// The line described in words.
    pub description: String,
    /// Onestop identifier of the operator.
    pub operator_onestop_id: String,
    /// Name of the operator, the short one where there are two.
    pub operator_name: String,
    /// Web address of the operator.
    pub operator_url: String,
    /// The stops of the line that the ride passes.
    pub transit_stops: Vec<TransitStop>,
}

/// Kind of stop. The service names each kind by its place in this list,
/// counted from zero.
#[derive(Clone, Copy, Debug, PartialEq, Eq, Structural)]
pub enum TransitStopType {
    /// A simple stop.
    Stop,
    /// A station.
    Station,
}

/// A stop of a line of public transport.
#[derive(Clone, Debug, PartialEq)]
pub struct TransitStop {
    /// Kind of stop.
    pub type_: TransitStopType,
    /// Name of the stop, such as "14 St - Union Sq".
    pub name: String,
    /// When the vehicle arrives.
    pub arrival_date_time: chrono::NaiveDateTime,
    /// When the vehicle leaves.
    pub departure_date_time: chrono::NaiveDateTime,
    /// Whether the stop stands for a group of stops.
    pub is_parent_stop: bool,
    /// Whether the times are assumed because the timetable is not known.
    pub assumed_schedule: bool,
    /// Latitude of the stop in degrees.
    pub lat: Double,
    /// Longitude of the stop in degrees.
    pub lon: Double,
}

/// How much guidance the answer holds.
#[derive(Clone, Copy, Debug, PartialEq, Eq, Structural)]
pub enum DirectionsType {
    /// Neither maneuvers nor instructions.
    NoDirections,
    /// Maneuvers without instructions.
    Maneuvers,
    /// Maneuvers with instructions.
    Instructions,
}

impl Default for DirectionsType {
    fn default() -> (r: Self)
        ensures
            r == DirectionsType::Instructions,
    {
        DirectionsType::Instructions
    }
}

/// A request for a route.
#[derive(Clone, Debug, PartialEq)]
pub struct Manifest {
    /// Cost model and its options.
    pub costing: Option<Costing>,
    /// Locations to visit, in their order.
    pub locations: Vec<Location>,
    /// Unit in which lengths are given.
    pub units: Option<Units>,
    /// Name of the request, which the answer repeats.
    pub id: Option<String>,
    /// Language of the instructions, as an IETF BCP 47 tag; `en-US` where the
    /// service lacks it.
    pub language: Option<String>,
    /// Amount of guidance in the answer.
    pub directions_type: Option<DirectionsType>,
    /// Number of other routes wanted beside the best; there may be fewer.
    pub alternates: Option<i32>,
    /// Locations whose nearest roads are not taken.
    pub exclude_locations: Option<Vec<Location>>,
    /// Rings inside which no road is taken.
    pub exclude_polygons: Option<Vec<Vec<Coordinate>>>,
    /// Whether the answer holds a linear reference for every edge of the
    /// route.
    pub linear_references: Option<bool>,
    /// Whether the search from both ends is preferred for a route with a time
    /// of departure.
    pub prioritize_bidirectional: Option<bool>,
    /// Whether instructions are given for leaving a roundabout.
    pub roundabout_exits: Option<bool>,
    /// Time of departure or arrival for the route as a whole.
    pub date_time: Option<DateTime>,
}

impl Manifest {
    /// Whether nothing is set: no location and no option.
    pub open spec fn is_unset(self) -> bool {
        &&& self.locations@.len() == 0
        &&& self.costing is None
        &&& self.units is None
        &&& self.id is None
        &&& self.language is None
        &&& self.directions_type is None
        &&& self.alternates is None
        &&& self.exclude_locations is None
        &&& self.exclude_polygons is None
        &&& self.linear_references is None
        &&& self.prioritize_bidirectional is None
        &&& self.roundabout_exits is None
        &&& self.date_time is None
    }

    /// The rings that are set, or none where there is no list of rings.
    pub open spec fn spec_excluded(self) -> Seq<Vec<Coordinate>> {
        match self.exclude_polygons {
            Some(polygons) => polygons@,
            None => Seq::empty(),
        }
    }

    /// A request with nothing set, to be filled in by the methods below.
    pub fn builder() -> (r: Self)
        ensures
            r.is_unset(),
    {
        Manifest {
            costing: None,
            locations: Vec::new(),
            units: None,
            id: None,
            language: None,
            directions_type: None,
            alternates: None,
            exclude_locations: None,
            exclude_polygons: None,
            linear_references: None,
            prioritize_bidirectional: None,
            roundabout_exits: None,
            date_time: None,
        }
    }

    /// Sets the cost model and its options. Where none is set the service
    /// takes the car.
    pub fn costing(self, costing: Costing) -> (r: Self)
        ensures
            r == (Manifest { costing: Some(costing), ..self }),
    {
        Manifest { costing: Some(costing), ..self }
    }

    /// Sets the locations to visit, in their order. The service wants two
    /// at least.
    pub fn locations(self, locations: Vec<Location>) -> (r: Self)
        ensures
            r == (Manifest { locations, ..self }),
    {
        Manifest { locations, ..self }
    }

    /// Sets the unit in which lengths are given.
    pub fn units(self, units: Units) -> (r: Self)
        ensures
            r == (Manifest { units: Some(units), ..self }),
    {
        Manifest { units: Some(units), ..self }
    }

    /// Sets the name of the request, which the answer repeats.
    pub fn id(self, id: &str) -> (r: Self)
        ensures
            r.id matches Some(text) && text@ == id@,
            r == (Manifest { id: r.id, ..self }),
    {
        Manifest { id: Some(id.to_owned()), ..self }
    }

    /// Sets the language of the instructions, as an IETF BCP 47 tag; `en-US`
    /// where the service lacks it.
    pub fn language(self, language: &str) -> (r: Self)
        ensures
            r.language matches Some(text) && text@ == language@,
            r == (Manifest { language: r.language, ..self }),
    {
        Manifest { language: Some(language.to_owned()), ..self }
    }

    /// Sets the amount of guidance in the answer.
    pub fn directions_type(self, directions_type: DirectionsType) -> (r: Self)
        ensures
            r == (Manifest { directions_type: Some(directions_type), ..self }),
    {
        Manifest { directions_type: Some(directions_type), ..self }
    }

    /// Sets the number of other routes wanted beside the best; there may be
    /// fewer.
    pub fn alternates(self, alternates: i32) -> (r: Self)
        ensures
            r == (Manifest { alternates: Some(alternates), ..self }),
    {
        Manifest { alternates: Some(alternates), ..self }
    }

    /// Sets the locations whose nearest roads are not taken.
    pub fn exclude_locations(self, exclude_locations: Vec<Location>) -> (r: Self)
        ensures
            r == (Manifest { exclude_locations: Some(exclude_locations), ..self }),
    {
        Manifest { exclude_locations: Some(exclude_locations), ..self }
    }

    /// Sets the rings inside which no road is taken, in place of any that
    /// were set before. A ring that is not closed is closed by the service.
    pub fn exclude_polygons(self, exclude_polygons: Vec<Vec<Coordinate>>) -> (r: Self)
        ensures
            r == (Manifest { exclude_polygons: Some(exclude_polygons), ..self }),
    {
        Manifest { exclude_polygons: Some(exclude_polygons), ..self }
    }

    /// Adds one ring inside which no road is taken, behind those that were
    /// set before.
    pub fn exclude_polygon(self, exclude_polygon: Vec<Coordinate>) -> (r: Self)
        ensures
            r.exclude_polygons matches Some(polygons) && polygons@ == self.spec_excluded()
                + seq![exclude_polygon],
            r == (Manifest { exclude_polygons: r.exclude_polygons, ..self }),
    {
        let Manifest {
            costing,
            locations,
            units,
            id,
            language,
            directions_type,
            alternates,
            exclude_locations,
            exclude_polygons,
            linear_references,
            prioritize_bidirectional,
            roundabout_exits,
            date_time,
        } = self;
        let mut polygons = match exclude_polygons {
            Some(polygons) => polygons,
            None => Vec::new(),
        };
        polygons.push(exclude_polygon);
        Manifest {
            costing,
            locations,
            units,
            id,
            language,
            directions_type,
            alternates,
            exclude_locations,
            exclude_polygons: Some(polygons),
            linear_references,
            prioritize_bidirectional,
            roundabout_exits,
            date_time,
        }
    }

    /// Asks for a linear reference for every edge of the route.
    pub fn include_linear_references(self) -> (r: Self)
        ensures
            r == (Manifest { linear_references: Some(true), ..self }),
    {
        Manifest { linear_references: Some(true), ..self }
    }

    /// Prefers the search from both ends for a route with a time of
    /// departure. It is faster, and takes times of day into account for the
    /// time of arrival only.
    pub fn prioritize_bidirectional(self) -> (r: Self)
        ensures
            r == (Manifest { prioritize_bidirectional: Some(true), ..self }),
    {
        Manifest { prioritize_bidirectional: Some(true), ..self }
    }

    /// Leaves out the instructions for leaving a roundabout.
    pub fn roundabout_exits(self) -> (r: Self)
        ensures
            r == (Manifest { roundabout_exits: Some(false), ..self }),
    {
        Manifest { roundabout_exits: Some(false), ..self }
    }

    /// Sets the time of departure or arrival for the route as a whole.
    pub fn date_time(self, date_time: DateTime) -> (r: Self)
        ensures
            r == (Manifest { date_time: Some(date_time), ..self }),
    {
        Manifest { date_time: Some(date_time), ..self }
    }
}

impl Default for Manifest {
    /// The request with nothing set.
    fn default() -> (r: Self)
        ensures
            r.is_unset(),
    {
        Self::builder()
    }
}

/// What a location is to the route. The first and the last location are
/// always stops.
#[derive(Clone, Copy, Debug, PartialEq, Eq, Structural)]
pub enum LocationType {
    /// A stop: the route may turn back here, and a leg ends.
    Break,
    /// A point to pass: no turning back, and the leg goes on.
    Through,
    /// A point to pass at which the route may turn back; the leg goes on.
    Via,
    /// A stop at which the route may not turn back.
    BreakThrough,
}

impl Default for LocationType {
    fn default() -> (r: Self)
        ensures
            r == LocationType::Break,
    {
        LocationType::Break
    }
}

/// Side of the road, as seen by one who drives on it.
#[derive(Clone, Copy, Debug, PartialEq, Eq, Structural)]
pub enum Side {
    /// The side on which one drives.
    Same,
    /// The side across the road.
    Opposite,
    /// Whichever side.
    Either,
}

impl Default for Side {
    fn default() -> (r: Self)
        ensures
            r == Side::Either,
    {
        Side::Either
    }
}

/// A place that a route visits or avoids.
#[derive(Clone, Debug, PartialEq)]
pub struct Location {
    /// Latitude in degrees.
    pub latitude: Float,
    /// Longitude in degrees.
    pub longitude: Float,
    /// Latitude in degrees of the point at which the location is shown.
    pub display_lat: Option<Float>,
    /// Longitude in degrees of the point at which the location is shown.
    pub display_lon: Option<Float>,
    /// Name of the street, as a help in finding the road; the service does
    /// not read it yet.
    pub street: Option<String>,
    /// Number of the way in OpenStreetMap, as a help in finding the road; the
    /// service does not read it yet.
    pub way_id: Option<i64>,
    /// Number of junctions that must be in reach of a road for it not to
    /// count as an island.
    pub minimum_reachability: Option<i32>,
    /// Distance in metres within which roads are looked for.
    pub radius: Option<i32>,
    /// Whether the roads found are ranked by their distance from the
    /// location.
    pub rank_candidates: Option<bool>,
    /// Side of the road from which the location is reached.
    pub preferred_side: Option<Side>,
    /// Part that the location plays in the route.
    pub type_: Option<LocationType>,
    /// Direction of travel at the start, in degrees clockwise from north.
    pub heading: Option<u32>,
    /// Number of degrees by which a road may differ from the heading.
    pub heading_tolerance: Option<u32>,
    /// Name of the place, for use in the instructions.
    pub name: Option<String>,
    /// Distance beyond which no road is looked for.
    pub search_cutoff: Option<Float>,
    /// Distance in metres within which the location is put on a junction.
    pub node_snap_tolerance: Option<Float>,
    /// Distance in metres from the middle of the road below which the
    /// location has no side.
    pub street_side_tolerance: Option<Float>,
    /// Distance in metres from the middle of the road beyond which the
    /// location has no side.
    pub street_side_max_distance: Option<Float>,
    /// Class of road below which the preferred side is not heeded.
    pub street_side_cutoff: Option<Float>,
    /// Seconds to wait at the location.
    pub waiting: Option<i64>,
    /// Date and time at which the traveller is to be at the location, by the
    /// clock of the place.
    pub date_time: Option<chrono::NaiveDateTime>,
}

impl Location {
    /// The location at the given point, with nothing else set.
    pub open spec fn at(longitude: Float, latitude: Float) -> Self {
        Location {
            latitude: latitude,
            longitude: longitude,
            display_lat: None,
            display_lon: None,
            street: None,
            way_id: None,
            minimum_reachability: None,
            radius: None,
            rank_candidates: None,
            preferred_side: None,
            type_: None,
            heading: None,
            heading_tolerance: None,
            name: None,
            search_cutoff: None,
            node_snap_tolerance: None,
            street_side_tolerance: None,
            street_side_max_distance: None,
            street_side_cutoff: None,
            waiting: None,
            date_time: None,
        }
    }

    /// The location at the given longitude and latitude in degrees, to be
    /// filled in by the methods below.
    pub fn new(longitude: Float, latitude: Float) -> (r: Self)
        ensures
            r == Self::at(longitude, latitude),
    {
        Location {
            latitude: latitude,
            longitude: longitude,
            display_lat: None,
            display_lon: None,
            street: None,
            way_id: None,
            minimum_reachability: None,
            radius: None,
            rank_candidates: None,
            preferred_side: None,
            type_: None,
            heading: None,
            heading_tolerance: None,
            name: None,
            search_cutoff: None,
            node_snap_tolerance: None,
            street_side_tolerance: None,
            street_side_max_distance: None,
            street_side_cutoff: None,
            waiting: None,
            date_time: None,
        }
    }

    /// Sets the point at which the location is shown, in degrees. It
    /// decides on which side of the street the location lies.
    pub fn display_coordinates(self, display_lat: Float, display_lon: Float) -> (r: Self)
        ensures
            r == (Location {
                display_lat: Some(display_lat),
                display_lon: Some(display_lon),
                ..self
            }),
    {
        Location { display_lat: Some(display_lat), display_lon: Some(display_lon), ..self }
    }

    /// Sets the name of the street, as a help in finding the road; the
    /// service does not read it yet.
    pub fn street_name(self, street: &str) -> (r: Self)
        ensures
            r.street matches Some(text) && text@ == street@,
            r == (Location { street: r.street, ..self }),
    {
        Location { street: Some(street.to_owned()), ..self }
    }

    /// Sets the number of the way in OpenStreetMap, as a help in finding the
    /// road; the service does not read it yet.
    pub fn way_id(self, way_id: i64) -> (r: Self)
        ensures
            r == (Location { way_id: Some(way_id), ..self }),
    {
        Location { way_id: Some(way_id), ..self }
    }

    /// Sets the number of junctions that must be in reach of a road for it
    /// not to count as an island.
    pub fn minimum_reachability(self, minimum_reachability: i32) -> (r: Self)
        ensures
            r == (Location { minimum_reachability: Some(minimum_reachability), ..self }),
    {
        Location { minimum_reachability: Some(minimum_reachability), ..self }
    }

    /// Sets the distance in metres within which roads are looked for.
    pub fn radius(self, radius: i32) -> (r: Self)
        ensures
            r == (Location { radius: Some(radius), ..self }),
    {
        Location { radius: Some(radius), ..self }
    }

    /// Sets whether the roads found are ranked by their distance from the
    /// location.
    pub fn rank_candidates(self, rank_candidates: bool) -> (r: Self)
        ensures
            r == (Location { rank_candidates: Some(rank_candidates), ..self }),
    {
        Location { rank_candidates: Some(rank_candidates), ..self }
    }

    /// Sets the side of the road from which the location is reached.
    pub fn preferred_side(self, preferred_side: Side) -> (r: Self)
        ensures
            r == (Location { preferred_side: Some(preferred_side), ..self }),
    {
        Location { preferred_side: Some(preferred_side), ..self }
    }

    /// Sets the part that the location plays in the route.
    pub fn type_(self, type_: LocationType) -> (r: Self)
        ensures
            r == (Location { type_: Some(type_), ..self }),
    {
        Location { type_: Some(type_), ..self }
    }

    /// Sets the direction of travel at the start, in degrees clockwise from
    /// north.
    pub fn heading(self, heading: u32) -> (r: Self)
        ensures
            r == (Location { heading: Some(heading), ..self }),
    {
        Location { heading: Some(heading), ..self }
    }

    /// Sets the number of degrees by which a road may differ from the
    /// heading.
    pub fn heading_tolerance(self, heading_tolerance: u32) -> (r: Self)
        ensures
            r == (Location { heading_tolerance: Some(heading_tolerance), ..self }),
    {
        Location { heading_tolerance: Some(heading_tolerance), ..self }
    }

    /// Sets the name of the place, for use in the instructions.
    pub fn name(self, name: &str) -> (r: Self)
        ensures
            r.name matches Some(text) && text@ == name@,
            r == (Location { name: r.name, ..self }),
    {
        Location { name: Some(name.to_owned()), ..self }
    }

    /// Sets the distance beyond which no road is looked for.
    pub fn search_cutoff(self, search_cutoff: Float) -> (r: Self)
        ensures
            r == (Location { search_cutoff: Some(search_cutoff), ..self }),
    {
        Location { search_cutoff: Some(search_cutoff), ..self }
    }

    /// Sets the distance in metres within which the location is put on a
    /// junction.
    pub fn node_snap_tolerance(self, node_snap_tolerance: Float) -> (r: Self)
        ensures
            r == (Location { node_snap_tolerance: Some(node_snap_tolerance), ..self }),
    {
        Location { node_snap_tolerance: Some(node_snap_tolerance), ..self }
    }

    /// Sets the distance in metres from the middle of the road below which
    /// the location has no side.
    pub fn street_side_tolerance(self, street_side_tolerance: Float) -> (r: Self)
        ensures
            r == (Location { street_side_tolerance: Some(street_side_tolerance), ..self }),
    {
        Location { street_side_tolerance: Some(street_side_tolerance), ..self }
    }

    /// Sets the distance in metres from the middle of the road beyond which
    /// the location has no side.
    pub fn street_side_max_distance(self, street_side_max_distance: Float) -> (r: Self)
        ensures
            r == (Location { street_side_max_distance: Some(street_side_max_distance), ..self }),
    {
        Location { street_side_max_distance: Some(street_side_max_distance), ..self }
    }

    /// Sets the class of road below which the preferred side is not heeded.
    pub fn street_side_cutoff(self, street_side_cutoff: Float) -> (r: Self)
        ensures
            r == (Location { street_side_cutoff: Some(street_side_cutoff), ..self }),
    {
        Location { street_side_cutoff: Some(street_side_cutoff), ..self }
    }

    /// Sets the time to wait at the location, in whole seconds.
    pub fn waiting_seconds(self, seconds: i64) -> (r: Self)
        ensures
            r == (Location { waiting: Some(seconds), ..self }),
    {
        Location { waiting: Some(seconds), ..self }
    }

    /// Sets the time to wait at the location, as the whole seconds of
    /// `waiting`. It counts at a stop only, and moves the departure back.
    pub fn waiting(self, waiting: chrono::Duration) -> (r: Self)
        ensures
            r.waiting is Some,
            r == (Location { waiting: r.waiting, ..self }),
    {
        let seconds: i64 = waiting.num_seconds();
        self.waiting_seconds(seconds)
    }

    /// Sets the date and time at which the traveller is to be at the
    /// location, by the clock of the place.
    pub fn date_time(self, date_time: chrono::NaiveDateTime) -> (r: Self)
        ensures
            r == (Location { date_time: Some(date_time), ..self }),
    {
        Location { date_time: Some(date_time), ..self }
    }
}

impl Default for Location {
    /// The location at zero degrees of longitude and of latitude.
    fn default() -> (r: Self)
        ensures
            r == Self::at(Float::spec_from_bits(0), Float::spec_from_bits(0)),
    {
        Location::new(Float::from_bits(0), Float::from_bits(0))
    }
}

impl From<Coordinate> for Location {
    /// The location at the given pair of longitude and latitude.
    fn from(value: Coordinate) -> (r: Self) {
        let (longitude, latitude) = value;
        Location::new(longitude, latitude)
    }
}

impl FromSpecImpl<Coordinate> for Location {
    open spec fn obeys_from_spec() -> bool {
        true
    }

    open spec fn from_spec(value: Coordinate) -> Self {
        Location::at(value.0, value.1)
    }
}

impl Maneuver {
    /// Whether the maneuver starts at a point of the shape `shape`.
    pub open spec fn starts_in(&self, shape: Seq<ShapePoint>) -> bool {
        self.begin_shape_index < shape.len()
    }
}

impl Leg {
    /// Whether the leg has a track: it has a maneuver, and the stretch from
    /// the start of its first maneuver to the end of its last lies in its
    /// shape.
    pub open spec fn spec_has_track(&self) -> bool {
        &&& self.maneuvers@.len() > 0
        &&& self.maneuvers@.first().begin_shape_index <= self.maneuvers@.last().end_shape_index
        &&& self.maneuvers@.last().end_shape_index <= self.shape@.len()
    }

    /// The track of the leg: the points of its shape from the start of its
    /// first maneuver up to, and without, the end of its last.
    pub open spec fn track(&self) -> Seq<ShapePoint>
        recommends
            self.spec_has_track(),
    {
        self.shape@.subrange(
            self.maneuvers@.first().begin_shape_index as int,
            self.maneuvers@.last().end_shape_index as int,
        )
    }

    /// Whether every maneuver of the leg starts at a point of its shape.
    pub open spec fn spec_has_starts(&self) -> bool {
        forall|i: int| 0 <= i < self.maneuvers@.len() ==> (#[trigger] self.maneuvers@[i]).starts_in(self.shape@)
    }

    /// The points at which the maneuvers of the leg start, one for each.
    pub open spec fn starts(&self) -> Seq<ShapePoint>
        recommends
            self.spec_has_starts(),
    {
        Seq::new(
            self.maneuvers@.len(),
            |i: int| self.shape@[self.maneuvers@[i].begin_shape_index as int],
        )
    }

    /// Whether the leg has a track.
    #[verifier::when_used_as_spec(spec_has_track)]
    pub fn has_track(&self) -> (b: bool)
        ensures
            b == self.spec_has_track(),
    {
        let n = self.maneuvers.len();
        if n == 0 {
            return false;
        }
        let begin = self.maneuvers[0].begin_shape_index;
        let end = self.maneuvers[n - 1].end_shape_index;
        begin <= end && end <= self.shape.len()
    }

    /// The track of a leg that has one.
    pub fn track_points(&self) -> (points: Vec<ShapePoint>)
        requires
            self.has_track(),
        ensures
            points@ == self.track(),
    {
        let begin = self.maneuvers[0].begin_shape_index;
        let end = self.maneuvers[self.maneuvers.len() - 1].end_shape_index;
        let mut points: Vec<ShapePoint> = Vec::new();
        let mut i: usize = begin;
        while i < end
            invariant
                begin <= i <= end <= self.shape@.len(),
                points@ == self.shape@.subrange(begin as int, i as int),
            decreases end - i,
        {
            points.push(self.shape[i]);
            i += 1;
        }
        points
    }

    /// Whether every maneuver of the leg starts at a point of its shape.
    #[verifier::when_used_as_spec(spec_has_starts)]
    pub fn has_starts(&self) -> (b: bool)
        ensures
            b == self.spec_has_starts(),
    {
        let mut i: usize = 0;
        while i < self.maneuvers.len()
            invariant
                i <= self.maneuvers@.len(),
                forall|k: int| 0 <= k < i ==> (#[trigger] self.maneuvers@[k]).starts_in(self.shape@),
            decreases self.maneuvers.len() - i,
        {
            if self.maneuvers[i].begin_shape_index >= self.shape.len() {
                assert(!self.maneuvers@[i as int].starts_in(self.shape@));
                return false;
            }
            i += 1;
        }
        true
    }

    /// The points at which the maneuvers start, of a leg whose maneuvers
    /// all start in its shape.
    pub fn maneuver_points(&self) -> (points: Vec<ShapePoint>)
        requires
            self.has_starts(),
        ensures
            points@ == self.starts(),
    {
        let mut points: Vec<ShapePoint> = Vec::new();
        let mut i: usize = 0;
        while i < self.maneuvers.len()
            invariant
                self.has_starts(),
                i <= self.maneuvers@.len(),
                points@ == self.starts().take(i as int),
            decreases self.maneuvers.len() - i,
        {
            assert(self.maneuvers@[i as int].starts_in(self.shape@));
            points.push(self.shape[self.maneuvers[i].begin_shape_index]);
            assert(points@ == self.starts().take(i + 1));
            i += 1;
        }
        assert(self.starts().take(i as int) == self.starts());
        points
    }
}

/// The points at which the maneuvers of `legs` start, leg after leg.
pub open spec fn starts_of(legs: Seq<Leg>) -> Seq<ShapePoint>
    decreases legs.len(),
{
    if legs.len() == 0 {
        Seq::empty()
    } else {
        starts_of(legs.drop_last()) + legs.last().starts()
    }
}

impl Trip {
    /// Whether the trip can be drawn: every leg has a track, and every
    /// maneuver starts at a point of the shape of its leg.
    pub open spec fn spec_can_be_drawn(&self) -> bool {
        forall|i: int|
            0 <= i < self.legs@.len() ==> (#[trigger] self.legs@[i]).has_track()
                && self.legs@[i].has_starts()
    }

    /// Whether the trip can be drawn.
    #[verifier::when_used_as_spec(spec_can_be_drawn)]
    pub fn can_be_drawn(&self) -> (b: bool)
        ensures
            b == self.spec_can_be_drawn(),
    {
        let mut i: usize = 0;
        while i < self.legs.len()
            invariant
                i <= self.legs@.len(),
                forall|k: int|
                    0 <= k < i ==> (#[trigger] self.legs@[k]).has_track() && self.legs@[k].has_starts(),
            decreases self.legs.len() - i,
        {
            if !self.legs[i].has_track() || !self.legs[i].has_starts() {
                assert(!(self.legs@[i as int].has_track() && self.legs@[i as int].has_starts()));
                return false;
            }
            i += 1;
        }
        true
    }

    /// The tracks of a trip that can be drawn, one for each leg.
    pub fn track_segments(&self) -> (segments: Vec<Vec<ShapePoint>>)
        requires
            self.can_be_drawn(),
        ensures
            segments@.len() == self.legs@.len(),
            forall|i: int|
                0 <= i < segments@.len() ==> (#[trigger] segments@[i])@ == self.legs@[i].track(),
    {
        let mut segments: Vec<Vec<ShapePoint>> = Vec::new();
        let mut i: usize = 0;
        while i < self.legs.len()
            invariant
                self.can_be_drawn(),
                i <= self.legs@.len(),
                segments@.len() == i,
                forall|k: int| 0 <= k < i ==> (#[trigger] segments@[k])@ == self.legs@[k].track(),
            decreases self.legs.len() - i,
        {
            assert(self.legs@[i as int].has_track());
            segments.push(self.legs[i].track_points());
            i += 1;
        }
        segments
    }

    /// The points at which the maneuvers start, leg after leg, of a trip
    /// that can be drawn.
    pub fn route_points(&self) -> (points: Vec<ShapePoint>)
        requires
            self.can_be_drawn(),
        ensures
            points@ == starts_of(self.legs@),
    {
        let mut points: Vec<ShapePoint> = Vec::new();
        let mut i: usize = 0;
        while i < self.legs.len()
            invariant
                self.can_be_drawn(),
                i <= self.legs@.len(),
                points@ == starts_of(self.legs@.take(i as int)),
            decreases self.legs.len() - i,
        {
            assert(self.legs@[i as int].has_starts());
            let mut more = self.legs[i].maneuver_points();
            points.append(&mut more);
            proof {
                let upto = self.legs@.take(i + 1);
                assert(upto.drop_last() == self.legs@.take(i as int));
                assert(upto.last() == self.legs@[i as int]);
            }
            i += 1;
        }
        assert(self.legs@.take(i as int) == self.legs@);
        points
    }
}

} // verus!
