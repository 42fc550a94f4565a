//! Options for travel by motor scooter or moped.

use crate::costing::auto::UsedSpeedSources;
use crate::number::Float;
use vstd::prelude::*;

verus! {

/// Options for travel by motor scooter or moped.
#[derive(Clone, Debug, PartialEq, Eq)]
pub struct MotorScooterCostingOptions {
    /// Penalty in seconds for turning onto a road that shares no name with
    /// the one left.
    pub maneuver_penalty: Option<Float>,
    /// Seconds added at a gate with undefined or private access.
    pub gate_cost: Option<Float>,
    /// Penalty in seconds for a gate without access information.
    pub gate_penalty: Option<Float>,
    /// Penalty in seconds for a gate or bollard marked private.
    pub private_access_penalty: Option<Float>,
    /// Penalty in seconds for entering a road that is open to destination
    /// traffic only.
    pub destination_only_penalty: Option<Float>,
    /// Seconds added at a toll booth.
    pub toll_booth_cost: Option<Float>,
    /// Penalty in seconds for a toll booth, to keep a route off toll roads.
    pub toll_booth_penalty: Option<Float>,
    /// Seconds added for boarding a ferry.
    pub ferry_cost: Option<Float>,
    /// Readiness to take ferries, from 0 (avoid them) to 1 (prefer them).
    pub use_ferry: Option<Float>,
    /// Readiness to take highways, from 0 (avoid them) to 1 (prefer them).
    pub use_highways: Option<Float>,
    /// Readiness to take toll roads, from 0 (avoid them) to 1 (do not mind
    /// them).
    pub use_tolls: Option<Float>,
    /// Readiness to take living streets, from 0 (avoid them) to 1 (prefer
    /// them).
    pub use_living_streets: Option<Float>,
    /// Readiness to take tracks, from 0 (avoid them) to 1 (prefer them
    /// slightly).
    pub use_tracks: Option<Float>,
    /// Penalty in seconds for turning onto a service road.
    pub service_penalty: Option<Float>,
    /// Factor on the cost of service roads.
    pub service_factor: Option<Float>,
    /// Seconds added at a border between countries.
    pub country_crossing_cost: Option<Float>,
    /// Penalty in seconds for crossing a border between countries.
    pub country_crossing_penalty: Option<Float>,
    /// Whether distance alone decides the cost.
    pub shortest: Option<bool>,
    /// Weight of distance against time, from 0 (time only) to 1 (distance
    /// only).
    pub use_distance: Option<Float>,
    /// Whether the search looks at roads of every class all the way.
    pub disable_hierarchy_pruning: Option<bool>,
    /// Highest speed of the vehicle in km/h, from 10 to 252.
    pub top_speed: Option<Float>,
    /// Speed in km/h assumed on every road, from 1 to 252.
    pub fixed_speed: Option<u32>,
    /// Factor on the cost of a road closed by live traffic, from 1 (no
    /// penalty) to 10.
    pub closure_factor: Option<Float>,
    /// Whether closures from live traffic are ignored.
    pub ignore_closures: Option<bool>,
    /// Whether turn, size and conditional restrictions are ignored.
    pub ignore_restrictions: Option<bool>,
    /// Whether one-way rules are ignored.
    pub ignore_oneways: Option<bool>,
    /// Whether restrictions are ignored that do not bear on the safety of the
    /// vehicle.
    pub ignore_non_vehicular_restrictions: Option<bool>,
    /// Whether access rules of the travel mode are ignored.
    pub ignore_access: Option<bool>,
    /// Source of speed data to use, where not all of them.
    pub speed_types: Option<UsedSpeedSources>,
    /// Height of the vehicle in metres.
    pub height: Option<Float>,
    /// Width of the vehicle in metres.
    pub width: Option<Float>,
    /// Whether unpaved roads are kept out of the middle of a route.
    pub exclude_unpaved: Option<bool>,
    /// Whether tolls that take cash only are avoided.
    pub exclude_cash_only_tolls: Option<bool>,
    /// Whether lanes for two or more occupants may be used.
    pub include_hov2: Option<bool>,
    /// Whether lanes for three or more occupants may be used.
    pub include_hov3: Option<bool>,
    /// Whether tolled lanes for several occupants may be used.
    pub include_hot: Option<bool>,
    /// Readiness to ride on primary roads, from 0 (avoid them) to 1 (at ease
    /// on them).
    pub use_primary: Option<Float>,
    /// Readiness to climb hills, from 0 (avoid them) to 1 (do not mind them).
    pub use_hills: Option<Float>,
}

impl MotorScooterCostingOptions {
    /// Options with nothing set.
    pub open spec fn unset() -> Self {
        MotorScooterCostingOptions {
            maneuver_penalty: None,
            gate_cost: None,
            gate_penalty: None,
            private_access_penalty: None,
            destination_only_penalty: None,
            toll_booth_cost: None,
            toll_booth_penalty: None,
            ferry_cost: None,
            use_ferry: None,
            use_highways: None,
            use_tolls: None,
            use_living_streets: None,
            use_tracks: None,
            service_penalty: None,
            service_factor: None,
            country_crossing_cost: None,
            country_crossing_penalty: None,
            shortest: None,
            use_distance: None,
            disable_hierarchy_pruning: None,
            top_speed: None,
            fixed_speed: None,
            closure_factor: None,
            ignore_closures: None,
            ignore_restrictions: None,
            ignore_oneways: None,
            ignore_non_vehicular_restrictions: None,
            ignore_access: None,
            speed_types: None,
            height: None,
            width: None,
            exclude_unpaved: None,
            exclude_cash_only_tolls: None,
            include_hov2: None,
            include_hov3: None,
            include_hot: None,
            use_primary: None,
            use_hills: None,
        }
    }

    /// Options with nothing set, to be filled in by the methods below.
    pub fn builder() -> (r: Self)
        ensures
            r == Self::unset(),
    {
        MotorScooterCostingOptions {
            maneuver_penalty: None,
            gate_cost: None,
            gate_penalty: None,
            private_access_penalty: None,
            destination_only_penalty: None,
            toll_booth_cost: None,
            toll_booth_penalty: None,
            ferry_cost: None,
            use_ferry: None,
            use_highways: None,
            use_tolls: None,
            use_living_streets: None,
            use_tracks: None,
            service_penalty: None,
            service_factor: None,
            country_crossing_cost: None,
            country_crossing_penalty: None,
            shortest: None,
            use_distance: None,
            disable_hierarchy_pruning: None,
            top_speed: None,
            fixed_speed: None,
            closure_factor: None,
            ignore_closures: None,
            ignore_restrictions: None,
            ignore_oneways: None,
            ignore_non_vehicular_restrictions: None,
            ignore_access: None,
            speed_types: None,
            height: None,
            width: None,
            exclude_unpaved: None,
            exclude_cash_only_tolls: None,
            include_hov2: None,
            include_hov3: None,
            include_hot: None,
            use_primary: None,
            use_hills: None,
        }
    }

    /// Sets the seconds added at a gate with undefined or private access.
    pub fn gate_cost(self, gate_cost: Float) -> (r: Self)
        ensures
            r == (MotorScooterCostingOptions { gate_cost: Some(gate_cost), ..self }),
    {
        MotorScooterCostingOptions { gate_cost: Some(gate_cost), ..self }
    }

    /// Sets the penalty in seconds for a gate without access information.
    pub fn gate_penalty(self, gate_penalty: Float) -> (r: Self)
        ensures
            r == (MotorScooterCostingOptions { gate_penalty: Some(gate_penalty), ..self }),
    {
        MotorScooterCostingOptions { gate_penalty: Some(gate_penalty), ..self }
    }

    /// Sets the penalty in seconds for a gate or bollard marked private.
    pub fn private_access_penalty(self, private_access_penalty: Float) -> (r: Self)
        ensures
            r == (MotorScooterCostingOptions { private_access_penalty: Some(private_access_penalty), ..self }),
    {
        MotorScooterCostingOptions { private_access_penalty: Some(private_access_penalty), ..self }
    }

    /// Sets the penalty in seconds for entering a road that is open to
    /// destination traffic only.
    pub fn destination_only_penalty(self, destination_only_penalty: Float) -> (r: Self)
        ensures
            r == (MotorScooterCostingOptions { destination_only_penalty: Some(destination_only_penalty), ..self }),
    {
        MotorScooterCostingOptions { destination_only_penalty: Some(destination_only_penalty), ..self }
    }

    /// Sets the seconds added at a toll booth.
    pub fn toll_booth_cost(self, toll_booth_cost: Float) -> (r: Self)
        ensures
            r == (MotorScooterCostingOptions { toll_booth_cost: Some(toll_booth_cost), ..self }),
    {
        MotorScooterCostingOptions { toll_booth_cost: Some(toll_booth_cost), ..self }
    }

    /// Sets the penalty in seconds for a toll booth, to keep a route off toll
    /// roads.
    pub fn toll_booth_penalty(self, toll_booth_penalty: Float) -> (r: Self)
        ensures
            r == (MotorScooterCostingOptions { toll_booth_penalty: Some(toll_booth_penalty), ..self }),
    {
        MotorScooterCostingOptions { toll_booth_penalty: Some(toll_booth_penalty), ..self }
    }

    /// Sets the seconds added for boarding a ferry.
    pub fn ferry_cost(self, ferry_cost: Float) -> (r: Self)
        ensures
            r == (MotorScooterCostingOptions { ferry_cost: Some(ferry_cost), ..self }),
    {
        MotorScooterCostingOptions { ferry_cost: Some(ferry_cost), ..self }
    }

    /// Sets the readiness to take ferries, from 0 (avoid them) to 1 (prefer
    /// them).
    pub fn use_ferry(self, use_ferry: Float) -> (r: Self)
        ensures
            r == (MotorScooterCostingOptions { use_ferry: Some(use_ferry), ..self }),
    {
        MotorScooterCostingOptions { use_ferry: Some(use_ferry), ..self }
    }

    /// Sets the readiness to take highways, from 0 (avoid them) to 1 (prefer
    /// them).
    pub fn use_highways(self, use_highways: Float) -> (r: Self)
        ensures
            r == (MotorScooterCostingOptions { use_highways: Some(use_highways), ..self }),
    {
        MotorScooterCostingOptions { use_highways: Some(use_highways), ..self }
    }

    /// Sets the readiness to take toll roads, from 0 (avoid them) to 1 (do
    /// not mind them).
    pub fn use_tolls(self, use_tolls: Float) -> (r: Self)
        ensures
            r == (MotorScooterCostingOptions { use_tolls: Some(use_tolls), ..self }),
    {
        MotorScooterCostingOptions { use_tolls: Some(use_tolls), ..self }
    }

    /// Sets the readiness to take living streets, from 0 (avoid them) to 1
    /// (prefer them).
    pub fn use_living_streets(self, use_living_streets: Float) -> (r: Self)
        ensures
            r == (MotorScooterCostingOptions { use_living_streets: Some(use_living_streets), ..self }),
    {
        MotorScooterCostingOptions { use_living_streets: Some(use_living_streets), ..self }
    }

    /// Sets the readiness to take tracks, from 0 (avoid them) to 1 (prefer
    /// them slightly).
    pub fn use_tracks(self, use_tracks: Float) -> (r: Self)
        ensures
            r == (MotorScooterCostingOptions { use_tracks: Some(use_tracks), ..self }),
    {
        MotorScooterCostingOptions { use_tracks: Some(use_tracks), ..self }
    }

    /// Sets the penalty in seconds for turning onto a service road.
    pub fn service_penalty(self, service_penalty: Float) -> (r: Self)
        ensures
            r == (MotorScooterCostingOptions { service_penalty: Some(service_penalty), ..self }),
    {
        MotorScooterCostingOptions { service_penalty: Some(service_penalty), ..self }
    }

    /// Sets the factor on the cost of service roads.
    pub fn service_factor(self, service_factor: Float) -> (r: Self)
        ensures
            r == (MotorScooterCostingOptions { service_factor: Some(service_factor), ..self }),
    {
        MotorScooterCostingOptions { service_factor: Some(service_factor), ..self }
    }

    /// Sets the seconds added at a border between countries.
    pub fn country_crossing_cost(self, country_crossing_cost: Float) -> (r: Self)
        ensures
            r == (MotorScooterCostingOptions { country_crossing_cost: Some(country_crossing_cost), ..self }),
    {
        MotorScooterCostingOptions { country_crossing_cost: Some(country_crossing_cost), ..self }
    }

    /// Sets the penalty in seconds for crossing a border between countries.
    pub fn country_crossing_penalty(self, country_crossing_penalty: Float) -> (r: Self)
        ensures
            r == (MotorScooterCostingOptions { country_crossing_penalty: Some(country_crossing_penalty), ..self }),
    {
        MotorScooterCostingOptions { country_crossing_penalty: Some(country_crossing_penalty), ..self }
    }

    /// Lets distance alone decide the cost; every other cost and penalty is
    /// then ignored.
    pub fn only_consider_quasi_shortest(self) -> (r: Self)
        ensures
            r == (MotorScooterCostingOptions { shortest: Some(true), ..self }),
    {
        MotorScooterCostingOptions { shortest: Some(true), ..self }
    }

    /// Sets the weight of distance against time, from 0 (time only) to 1
    /// (distance only).
    pub fn use_distance(self, use_distance: Float) -> (r: Self)
        ensures
            r == (MotorScooterCostingOptions { use_distance: Some(use_distance), ..self }),
    {
        MotorScooterCostingOptions { use_distance: Some(use_distance), ..self }
    }

    /// Asks for the search to look at roads of every class all the way, which
    /// finds the best route at the price of a slower answer.
    pub fn disable_hierarchy_pruning(self) -> (r: Self)
        ensures
            r == (MotorScooterCostingOptions { disable_hierarchy_pruning: Some(true), ..self }),
    {
        MotorScooterCostingOptions { disable_hierarchy_pruning: Some(true), ..self }
    }

    /// Sets the highest speed of the vehicle in km/h, from 10 to 252.
    pub fn top_speed(self, top_speed: Float) -> (r: Self)
        ensures
            r == (MotorScooterCostingOptions { top_speed: Some(top_speed), ..self }),
    {
        MotorScooterCostingOptions { top_speed: Some(top_speed), ..self }
    }

    /// Sets the speed in km/h assumed on every road, from 1 to 252.
    pub fn fixed_speed(self, fixed_speed: u32) -> (r: Self)
        ensures
            r == (MotorScooterCostingOptions { fixed_speed: Some(fixed_speed), ..self }),
    {
        MotorScooterCostingOptions { fixed_speed: Some(fixed_speed), ..self }
    }

    /// Sets the factor on the cost of a road closed by live traffic, from 1
    /// (no penalty) to 10.
    pub fn closure_factor(self, closure_factor: Float) -> (r: Self)
        ensures
            r == (MotorScooterCostingOptions { closure_factor: Some(closure_factor), ..self }),
    {
        MotorScooterCostingOptions { closure_factor: Some(closure_factor), ..self }
    }

    /// Ignores closures from live traffic.
    pub fn ignore_closures(self) -> (r: Self)
        ensures
            r == (MotorScooterCostingOptions { ignore_closures: Some(true), ..self }),
    {
        MotorScooterCostingOptions { ignore_closures: Some(true), ..self }
    }

    /// Ignores turn, size and conditional restrictions, as is useful for
    /// matching a recorded track.
    pub fn ignore_restrictions(self) -> (r: Self)
        ensures
            r == (MotorScooterCostingOptions { ignore_restrictions: Some(true), ..self }),
    {
        MotorScooterCostingOptions { ignore_restrictions: Some(true), ..self }
    }

    /// Ignores one-way rules.
    pub fn ignore_oneways(self) -> (r: Self)
        ensures
            r == (MotorScooterCostingOptions { ignore_oneways: Some(true), ..self }),
    {
        MotorScooterCostingOptions { ignore_oneways: Some(true), ..self }
    }

    /// Ignores restrictions but for those on weight and size, which bear on
    /// the safety of the vehicle.
    pub fn ignore_non_vehicular_restrictions(self) -> (r: Self)
        ensures
            r == (MotorScooterCostingOptions { ignore_non_vehicular_restrictions: Some(true), ..self }),
    {
        MotorScooterCostingOptions { ignore_non_vehicular_restrictions: Some(true), ..self }
    }

    /// Ignores the access rules of the travel mode.
    pub fn ignore_access(self) -> (r: Self)
        ensures
            r == (MotorScooterCostingOptions { ignore_access: Some(true), ..self }),
    {
        MotorScooterCostingOptions { ignore_access: Some(true), ..self }
    }

    /// Chooses the source of speed data. `All` is what the service does
    /// anyway, so it clears the choice instead of stating it.
    pub fn speed_types(self, speed_types: UsedSpeedSources) -> (r: Self)
        ensures
            speed_types == UsedSpeedSources::All ==> r == (MotorScooterCostingOptions { speed_types: None, ..self }),
            speed_types != UsedSpeedSources::All ==> r == (MotorScooterCostingOptions {
                speed_types: Some(speed_types),
                ..self
            }),
    {
        if speed_types == UsedSpeedSources::All {
            MotorScooterCostingOptions { speed_types: None, ..self }
        } else {
            MotorScooterCostingOptions { speed_types: Some(speed_types), ..self }
        }
    }

    /// Sets the height of the vehicle in metres.
    pub fn height(self, height: Float) -> (r: Self)
        ensures
            r == (MotorScooterCostingOptions { height: Some(height), ..self }),
    {
        MotorScooterCostingOptions { height: Some(height), ..self }
    }

    /// Sets the width of the vehicle in metres.
    pub fn width(self, width: Float) -> (r: Self)
        ensures
            r == (MotorScooterCostingOptions { width: Some(width), ..self }),
    {
        MotorScooterCostingOptions { width: Some(width), ..self }
    }

    /// Keeps unpaved roads out of the middle of a route; it may still start
    /// and end on one.
    pub fn exclude_unpaved(self) -> (r: Self)
        ensures
            r == (MotorScooterCostingOptions { exclude_unpaved: Some(true), ..self }),
    {
        MotorScooterCostingOptions { exclude_unpaved: Some(true), ..self }
    }

    /// Sets whether tolls that take cash only are avoided.
    pub fn exclude_cash_only_tolls(self, exclude_cash_only_tolls: bool) -> (r: Self)
        ensures
            r == (MotorScooterCostingOptions { exclude_cash_only_tolls: Some(exclude_cash_only_tolls), ..self }),
    {
        MotorScooterCostingOptions { exclude_cash_only_tolls: Some(exclude_cash_only_tolls), ..self }
    }

    /// Sets whether lanes for two or more occupants may be used.
    pub fn include_hov2(self, include_hov2: bool) -> (r: Self)
        ensures
            r == (MotorScooterCostingOptions { include_hov2: Some(include_hov2), ..self }),
    {
        MotorScooterCostingOptions { include_hov2: Some(include_hov2), ..self }
    }

    /// Sets whether lanes for three or more occupants may be used.
    pub fn include_hov3(self, include_hov3: bool) -> (r: Self)
        ensures
            r == (MotorScooterCostingOptions { include_hov3: Some(include_hov3), ..self }),
    {
        MotorScooterCostingOptions { include_hov3: Some(include_hov3), ..self }
    }

    /// Sets whether tolled lanes for several occupants may be used.
    pub fn include_hot(self, include_hot: bool) -> (r: Self)
        ensures
            r == (MotorScooterCostingOptions { include_hot: Some(include_hot), ..self }),
    {
        MotorScooterCostingOptions { include_hot: Some(include_hot), ..self }
    }

    /// Sets the readiness to ride on primary roads, from 0 (avoid them) to 1
    /// (at ease on them).
    pub fn use_primary(self, use_primary: Float) -> (r: Self)
        ensures
            r == (MotorScooterCostingOptions { use_primary: Some(use_primary), ..self }),
    {
        MotorScooterCostingOptions { use_primary: Some(use_primary), ..self }
    }

    /// Sets the readiness to climb hills, from 0 (avoid them) to 1 (do not
    /// mind them).
    pub fn use_hills(self, use_hills: Float) -> (r: Self)
        ensures
            r == (MotorScooterCostingOptions { use_hills: Some(use_hills), ..self }),
    {
        MotorScooterCostingOptions { use_hills: Some(use_hills), ..self }
    }
}

impl Default for MotorScooterCostingOptions {
    /// The options with nothing set.
    fn default() -> (r: Self)
        ensures
            r == Self::unset(),
    {
        Self::builder()
    }
}

} // verus!
