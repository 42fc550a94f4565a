//! Options for travel by truck.

use crate::number::Float;
use vstd::prelude::*;

verus! {

/// Options for travel by truck.
#[derive(Clone, Debug, PartialEq, Eq)]
pub struct TruckCostingOptions {
    /// Penalty in seconds for turning onto a road that shares no name with
    /// the one left.
    pub maneuver_penalty: Option<Float>,
    /// Seconds added at a gate with undefined or private access.
    pub gate_cost: Option<Float>,
    /// Penalty in seconds for a gate without access information.
    pub gate_penalty: Option<Float>,
    /// Penalty in seconds for a gate or bollard marked private.
    pub private_access_penalty: Option<Float>,
    /// Penalty in seconds for entering a road that is open to destination
    /// traffic only.
    pub destination_only_penalty: Option<Float>,
    /// Seconds added at a toll booth.
    pub toll_booth_cost: Option<Float>,
    /// Penalty in seconds for a toll booth, to keep a route off toll roads.
    pub toll_booth_penalty: Option<Float>,
    /// Seconds added for boarding a ferry.
    pub ferry_cost: Option<Float>,
    /// Readiness to take ferries, from 0 (avoid them) to 1 (prefer them).
    pub use_ferry: Option<Float>,
    /// Readiness to take highways, from 0 (avoid them) to 1 (prefer them).
    pub use_highways: Option<Float>,
    /// Readiness to take toll roads, from 0 (avoid them) to 1 (do not mind
    /// them).
    pub use_tolls: Option<Float>,
    /// Readiness to take living streets, from 0 (avoid them) to 1 (prefer
    /// them).
    pub use_living_streets: Option<Float>,
    /// Readiness to take tracks, from 0 (avoid them) to 1 (prefer them
    /// slightly).
    pub use_tracks: Option<Float>,
    /// Penalty in seconds for turning onto a service road.
    pub service_penalty: Option<Float>,
    /// Factor on the cost of service roads.
    pub service_factor: Option<Float>,
    /// Seconds added at a border between countries.
    pub country_crossing_cost: Option<Float>,
    /// Penalty in seconds for crossing a border between countries.
    pub country_crossing_penalty: Option<Float>,
    /// Whether distance alone decides the cost.
    pub shortest: Option<bool>,
    /// Weight of distance against time, from 0 (time only) to 1 (distance
    /// only).
    pub use_distance: Option<Float>,
    /// Whether the search looks at roads of every class all the way.
    pub disable_hierarchy_pruning: Option<bool>,
    /// Highest speed of the vehicle in km/h, from 10 to 252.
    pub top_speed: Option<Float>,
    /// Speed in km/h assumed on every road, from 1 to 252.
    pub fixed_speed: Option<u32>,
    /// Factor on the cost of a road closed by live traffic, from 1 (no
    /// penalty) to 10.
    pub closure_factor: Option<Float>,
    /// Whether closures from live traffic are ignored.
    pub ignore_closures: Option<bool>,
    /// Whether turn, size and conditional restrictions are ignored.
    pub ignore_restrictions: Option<bool>,
    /// Whether one-way rules are ignored.
    pub ignore_oneways: Option<bool>,
    /// Whether restrictions are ignored that do not bear on the safety of the
    /// vehicle.
    pub ignore_non_vehicular_restrictions: Option<bool>,
    /// Whether access rules of the travel mode are ignored.
    pub ignore_access: Option<bool>,
    /// Length of the truck in metres.
    pub length: Option<Float>,
    /// Weight of the truck in metric tons.
    pub weight: Option<Float>,
    /// Load on one axle of the truck in metric tons.
    pub axle_load: Option<Float>,
    /// Number of axles of the truck.
    pub axle_count: Option<u32>,
    /// Whether the truck carries hazardous goods.
    pub hazmat: Option<bool>,
    /// Penalty in seconds for a road closed to trucks; below 43200 it opens
    /// such roads at that price.
    pub hgv_no_access_penalty: Option<Float>,
    /// Penalty in seconds for turning onto a residential or service road.
    pub low_class_penalty: Option<Float>,
    /// Preference for roads marked as truck routes, from 0 (slight) to 1
    /// (avoid all others).
    pub use_truck_route: Option<Float>,
}

impl TruckCostingOptions {
    /// Options with nothing set.
    pub open spec fn unset() -> Self {
        TruckCostingOptions {
            maneuver_penalty: None,
            gate_cost: None,
            gate_penalty: None,
            private_access_penalty: None,
            destination_only_penalty: None,
            toll_booth_cost: None,
            toll_booth_penalty: None,
            ferry_cost: None,
            use_ferry: None,
            use_highways: None,
            use_tolls: None,
            use_living_streets: None,
            use_tracks: None,
            service_penalty: None,
            service_factor: None,
            country_crossing_cost: None,
            country_crossing_penalty: None,
            shortest: None,
            use_distance: None,
            disable_hierarchy_pruning: None,
            top_speed: None,
            fixed_speed: None,
            closure_factor: None,
            ignore_closures: None,
            ignore_restrictions: None,
            ignore_oneways: None,
            ignore_non_vehicular_restrictions: None,
            ignore_access: None,
            length: None,
            weight: None,
            axle_load: None,
            axle_count: None,
            hazmat: None,
            hgv_no_access_penalty: None,
            low_class_penalty: None,
            use_truck_route: None,
        }
    }

    /// Options with nothing set, to be filled in by the methods below.
    pub fn builder() -> (r: Self)
        ensures
            r == Self::unset(),
    {
        TruckCostingOptions {
            maneuver_penalty: None,
            gate_cost: None,
            gate_penalty: None,
            private_access_penalty: None,
            destination_only_penalty: None,
            toll_booth_cost: None,
            toll_booth_penalty: None,
            ferry_cost: None,
            use_ferry: None,
            use_highways: None,
            use_tolls: None,
            use_living_streets: None,
            use_tracks: None,
            service_penalty: None,
            service_factor: None,
            country_crossing_cost: None,
            country_crossing_penalty: None,
            shortest: None,
            use_distance: None,
            disable_hierarchy_pruning: None,
            top_speed: None,
            fixed_speed: None,
            closure_factor: None,
            ignore_closures: None,
            ignore_restrictions: None,
            ignore_oneways: None,
            ignore_non_vehicular_restrictions: None,
            ignore_access: None,
            length: None,
            weight: None,
            axle_load: None,
            axle_count: None,
            hazmat: None,
            hgv_no_access_penalty: None,
            low_class_penalty: None,
            use_truck_route: None,
        }
    }

    /// Sets the seconds added at a gate with undefined or private access.
    pub fn gate_cost(self, gate_cost: Float) -> (r: Self)
        ensures
            r == (TruckCostingOptions { gate_cost: Some(gate_cost), ..self }),
    {
        TruckCostingOptions { gate_cost: Some(gate_cost), ..self }
    }

    /// Sets the penalty in seconds for a gate without access information.
    pub fn gate_penalty(self, gate_penalty: Float) -> (r: Self)
        ensures
            r == (TruckCostingOptions { gate_penalty: Some(gate_penalty), ..self }),
    {
        TruckCostingOptions { gate_penalty: Some(gate_penalty), ..self }
    }

    /// Sets the penalty in seconds for a gate or bollard marked private.
    pub fn private_access_penalty(self, private_access_penalty: Float) -> (r: Self)
        ensures
            r == (TruckCostingOptions { private_access_penalty: Some(private_access_penalty), ..self }),
    {
        TruckCostingOptions { private_access_penalty: Some(private_access_penalty), ..self }
    }

    /// Sets the penalty in seconds for entering a road that is open to
    /// destination traffic only.
    pub fn destination_only_penalty(self, destination_only_penalty: Float) -> (r: Self)
        ensures
            r == (TruckCostingOptions { destination_only_penalty: Some(destination_only_penalty), ..self }),
    {
        TruckCostingOptions { destination_only_penalty: Some(destination_only_penalty), ..self }
    }

    /// Sets the seconds added at a toll booth.
    pub fn toll_booth_cost(self, toll_booth_cost: Float) -> (r: Self)
        ensures
            r == (TruckCostingOptions { toll_booth_cost: Some(toll_booth_cost), ..self }),
    {
        TruckCostingOptions { toll_booth_cost: Some(toll_booth_cost), ..self }
    }

    /// Sets the penalty in seconds for a toll booth, to keep a route off toll
    /// roads.
    pub fn toll_booth_penalty(self, toll_booth_penalty: Float) -> (r: Self)
        ensures
            r == (TruckCostingOptions { toll_booth_penalty: Some(toll_booth_penalty), ..self }),
    {
        TruckCostingOptions { toll_booth_penalty: Some(toll_booth_penalty), ..self }
    }

    /// Sets the seconds added for boarding a ferry.
    pub fn ferry_cost(self, ferry_cost: Float) -> (r: Self)
        ensures
            r == (TruckCostingOptions { ferry_cost: Some(ferry_cost), ..self }),
    {
        TruckCostingOptions { ferry_cost: Some(ferry_cost), ..self }
    }

    /// Sets the readiness to take ferries, from 0 (avoid them) to 1 (prefer
    /// them).
    pub fn use_ferry(self, use_ferry: Float) -> (r: Self)
        ensures
            r == (TruckCostingOptions { use_ferry: Some(use_ferry), ..self }),
    {
        TruckCostingOptions { use_ferry: Some(use_ferry), ..self }
    }

    /// Sets the readiness to take highways, from 0 (avoid them) to 1 (prefer
    /// them).
    pub fn use_highways(self, use_highways: Float) -> (r: Self)
        ensures
            r == (TruckCostingOptions { use_highways: Some(use_highways), ..self }),
    {
        TruckCostingOptions { use_highways: Some(use_highways), ..self }
    }

    /// Sets the readiness to take toll roads, from 0 (avoid them) to 1 (do
    /// not mind them).
    pub fn use_tolls(self, use_tolls: Float) -> (r: Self)
        ensures
            r == (TruckCostingOptions { use_tolls: Some(use_tolls), ..self }),
    {
        TruckCostingOptions { use_tolls: Some(use_tolls), ..self }
    }

    /// Sets the readiness to take living streets, from 0 (avoid them) to 1
    /// (prefer them).
    pub fn use_living_streets(self, use_living_streets: Float) -> (r: Self)
        ensures
            r == (TruckCostingOptions { use_living_streets: Some(use_living_streets), ..self }),
    {
        TruckCostingOptions { use_living_streets: Some(use_living_streets), ..self }
    }

    /// Sets the readiness to take tracks, from 0 (avoid them) to 1 (prefer
    /// them slightly).
    pub fn use_tracks(self, use_tracks: Float) -> (r: Self)
        ensures
            r == (TruckCostingOptions { use_tracks: Some(use_tracks), ..self }),
    {
        TruckCostingOptions { use_tracks: Some(use_tracks), ..self }
    }

    /// Sets the penalty in seconds for turning onto a service road.
    pub fn service_penalty(self, service_penalty: Float) -> (r: Self)
        ensures
            r == (TruckCostingOptions { service_penalty: Some(service_penalty), ..self }),
    {
        TruckCostingOptions { service_penalty: Some(service_penalty), ..self }
    }

    /// Sets the factor on the cost of service roads.
    pub fn service_factor(self, service_factor: Float) -> (r: Self)
        ensures
            r == (TruckCostingOptions { service_factor: Some(service_factor), ..self }),
    {
        TruckCostingOptions { service_factor: Some(service_factor), ..self }
    }

    /// Sets the seconds added at a border between countries.
    pub fn country_crossing_cost(self, country_crossing_cost: Float) -> (r: Self)
        ensures
            r == (TruckCostingOptions { country_crossing_cost: Some(country_crossing_cost), ..self }),
    {
        TruckCostingOptions { country_crossing_cost: Some(country_crossing_cost), ..self }
    }

    /// Sets the penalty in seconds for crossing a border between countries.
    pub fn country_crossing_penalty(self, country_crossing_penalty: Float) -> (r: Self)
        ensures
            r == (TruckCostingOptions { country_crossing_penalty: Some(country_crossing_penalty), ..self }),
    {
        TruckCostingOptions { country_crossing_penalty: Some(country_crossing_penalty), ..self }
    }

    /// Lets distance alone decide the cost; every other cost and penalty is
    /// then ignored.
    pub fn only_consider_quasi_shortest(self) -> (r: Self)
        ensures
            r == (TruckCostingOptions { shortest: Some(true), ..self }),
    {
        TruckCostingOptions { shortest: Some(true), ..self }
    }

    /// Sets the weight of distance against time, from 0 (time only) to 1
    /// (distance only).
    pub fn use_distance(self, use_distance: Float) -> (r: Self)
        ensures
            r == (TruckCostingOptions { use_distance: Some(use_distance), ..self }),
    {
        TruckCostingOptions { use_distance: Some(use_distance), ..self }
    }

    /// Asks for the search to look at roads of every class all the way, which
    /// finds the best route at the price of a slower answer.
    pub fn disable_hierarchy_pruning(self) -> (r: Self)
        ensures
            r == (TruckCostingOptions { disable_hierarchy_pruning: Some(true), ..self }),
    {
        TruckCostingOptions { disable_hierarchy_pruning: Some(true), ..self }
    }

    /// Sets the highest speed of the vehicle in km/h, from 10 to 252.
    pub fn top_speed(self, top_speed: Float) -> (r: Self)
        ensures
            r == (TruckCostingOptions { top_speed: Some(top_speed), ..self }),
    {
        TruckCostingOptions { top_speed: Some(top_speed), ..self }
    }

    /// Sets the speed in km/h assumed on every road, from 1 to 252.
    pub fn fixed_speed(self, fixed_speed: u32) -> (r: Self)
        ensures
            r == (TruckCostingOptions { fixed_speed: Some(fixed_speed), ..self }),
    {
        TruckCostingOptions { fixed_speed: Some(fixed_speed), ..self }
    }

    /// Sets the factor on the cost of a road closed by live traffic, from 1
    /// (no penalty) to 10.
    pub fn closure_factor(self, closure_factor: Float) -> (r: Self)
        ensures
            r == (TruckCostingOptions { closure_factor: Some(closure_factor), ..self }),
    {
        TruckCostingOptions { closure_factor: Some(closure_factor), ..self }
    }

    /// Ignores closures from live traffic.
    pub fn ignore_closures(self) -> (r: Self)
        ensures
            r == (TruckCostingOptions { ignore_closures: Some(true), ..self }),
    {
        TruckCostingOptions { ignore_closures: Some(true), ..self }
    }

    /// Ignores turn, size and conditional restrictions, as is useful for
    /// matching a recorded track.
    pub fn ignore_restrictions(self) -> (r: Self)
        ensures
            r == (TruckCostingOptions { ignore_restrictions: Some(true), ..self }),
    {
        TruckCostingOptions { ignore_restrictions: Some(true), ..self }
    }

    /// Ignores one-way rules.
    pub fn ignore_oneways(self) -> (r: Self)
        ensures
            r == (TruckCostingOptions { ignore_oneways: Some(true), ..self }),
    {
        TruckCostingOptions { ignore_oneways: Some(true), ..self }
    }

    /// Ignores restrictions but for those on weight and size, which bear on
    /// the safety of the vehicle.
    pub fn ignore_non_vehicular_restrictions(self) -> (r: Self)
        ensures
            r == (TruckCostingOptions { ignore_non_vehicular_restrictions: Some(true), ..self }),
    {
        TruckCostingOptions { ignore_non_vehicular_restrictions: Some(true), ..self }
    }

    /// Ignores the access rules of the travel mode.
    pub fn ignore_access(self) -> (r: Self)
        ensures
            r == (TruckCostingOptions { ignore_access: Some(true), ..self }),
    {
        TruckCostingOptions { ignore_access: Some(true), ..self }
    }

    /// Sets the length of the truck in metres.
    pub fn length(self, length: Float) -> (r: Self)
        ensures
            r == (TruckCostingOptions { length: Some(length), ..self }),
    {
        TruckCostingOptions { length: Some(length), ..self }
    }

    /// Sets the weight of the truck in metric tons.
    pub fn weight(self, weight: Float) -> (r: Self)
        ensures
            r == (TruckCostingOptions { weight: Some(weight), ..self }),
    {
        TruckCostingOptions { weight: Some(weight), ..self }
    }

    /// Sets the load on one axle of the truck in metric tons.
    pub fn axle_load(self, axle_load: Float) -> (r: Self)
        ensures
            r == (TruckCostingOptions { axle_load: Some(axle_load), ..self }),
    {
        TruckCostingOptions { axle_load: Some(axle_load), ..self }
    }

    /// Sets the number of axles of the truck.
    pub fn axle_count(self, axle_count: u32) -> (r: Self)
        ensures
            r == (TruckCostingOptions { axle_count: Some(axle_count), ..self }),
    {
        TruckCostingOptions { axle_count: Some(axle_count), ..self }
    }

    /// States that the truck carries hazardous goods.
    pub fn carries_hazardous_materials(self) -> (r: Self)
        ensures
            r == (TruckCostingOptions { hazmat: Some(true), ..self }),
    {
        TruckCostingOptions { hazmat: Some(true), ..self }
    }

    /// Sets the penalty in seconds for a road closed to trucks; below 43200
    /// it opens such roads at that price.
    pub fn hgv_no_access_penalty(self, hgv_no_access_penalty: Float) -> (r: Self)
        ensures
            r == (TruckCostingOptions { hgv_no_access_penalty: Some(hgv_no_access_penalty), ..self }),
    {
        TruckCostingOptions { hgv_no_access_penalty: Some(hgv_no_access_penalty), ..self }
    }

    /// Sets the penalty in seconds for turning onto a residential or service
    /// road.
    pub fn low_class_penalty(self, low_class_penalty: Float) -> (r: Self)
        ensures
            r == (TruckCostingOptions { low_class_penalty: Some(low_class_penalty), ..self }),
    {
        TruckCostingOptions { low_class_penalty: Some(low_class_penalty), ..self }
    }

    /// Sets the preference for roads marked as truck routes, from 0 (slight)
    /// to 1 (avoid all others).
    pub fn use_truck_route(self, use_truck_route: Float) -> (r: Self)
        ensures
            r == (TruckCostingOptions { use_truck_route: Some(use_truck_route), ..self }),
    {
        TruckCostingOptions { use_truck_route: Some(use_truck_route), ..self }
    }
}

impl Default for TruckCostingOptions {
    /// The options with nothing set.
    fn default() -> (r: Self)
        ensures
            r == Self::unset(),
    {
        Self::builder()
    }
}

} // verus!
