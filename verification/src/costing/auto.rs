//! Options for travel by car, bus and taxi.

use crate::number::Float;
use vstd::prelude::*;

verus! {

/// Options for travel by car, and with them by bus and by taxi.
#[derive(Clone, Debug, PartialEq, Eq)]
pub struct AutoCostingOptions {
    /// Penalty in seconds for turning onto a road that shares no name with
    /// the one left.
    pub maneuver_penalty: Option<Float>,
    /// Seconds added at a gate with undefined or private access.
    pub gate_cost: Option<Float>,
    /// Penalty in seconds for a gate without access information.
    pub gate_penalty: Option<Float>,
    /// Penalty in seconds for a gate or bollard marked private.
    pub private_access_penalty: Option<Float>,
    /// Penalty in seconds for entering a road that is open to destination
    /// traffic only.
    pub destination_only_penalty: Option<Float>,
    /// Seconds added at a toll booth.
    pub toll_booth_cost: Option<Float>,
    /// Penalty in seconds for a toll booth, to keep a route off toll roads.
    pub toll_booth_penalty: Option<Float>,
    /// Seconds added for boarding a ferry.
    pub ferry_cost: Option<Float>,
    /// Readiness to take ferries, from 0 (avoid them) to 1 (prefer them).
    pub use_ferry: Option<Float>,
    /// Readiness to take highways, from 0 (avoid them) to 1 (prefer them).
    pub use_highways: Option<Float>,
    /// Readiness to take toll roads, from 0 (avoid them) to 1 (do not mind
    /// them).
    pub use_tolls: Option<Float>,
    /// Readiness to take living streets, from 0 (avoid them) to 1 (prefer
    /// them).
    pub use_living_streets: Option<Float>,
    /// Readiness to take tracks, from 0 (avoid them) to 1 (prefer them
    /// slightly).
    pub use_tracks: Option<Float>,
    /// Penalty in seconds for turning onto a service road.
    pub service_penalty: Option<Float>,
    /// Factor on the cost of service roads.
    pub service_factor: Option<Float>,
    /// Seconds added at a border between countries.
    pub country_crossing_cost: Option<Float>,
    /// Penalty in seconds for crossing a border between countries.
    pub country_crossing_penalty: Option<Float>,
    /// Whether distance alone decides the cost.
    pub shortest: Option<bool>,
    /// Weight of distance against time, from 0 (time only) to 1 (distance
    /// only).
    pub use_distance: Option<Float>,
    /// Whether the search looks at roads of every class all the way.
    pub disable_hierarchy_pruning: Option<bool>,
    /// Highest speed of the vehicle in km/h, from 10 to 252.
    pub top_speed: Option<Float>,
    /// Speed in km/h assumed on every road, from 1 to 252.
    pub fixed_speed: Option<u32>,
    /// Factor on the cost of a road closed by live traffic, from 1 (no
    /// penalty) to 10.
    pub closure_factor: Option<Float>,
    /// Whether closures from live traffic are ignored.
    pub ignore_closures: Option<bool>,
    /// Whether turn, size and conditional restrictions are ignored.
    pub ignore_restrictions: Option<bool>,
    /// Whether one-way rules are ignored.
    pub ignore_oneways: Option<bool>,
    /// Whether restrictions are ignored that do not bear on the safety of the
    /// vehicle.
    pub ignore_non_vehicular_restrictions: Option<bool>,
    /// Whether access rules of the travel mode are ignored.
    pub ignore_access: Option<bool>,
    /// Source of speed data to use, where not all of them.
    pub speed_types: Option<UsedSpeedSources>,
    /// Height of the vehicle in metres.
    pub height: Option<Float>,
    /// Width of the vehicle in metres.
    pub width: Option<Float>,
    /// Whether unpaved roads are kept out of the middle of a route.
    pub exclude_unpaved: Option<bool>,
    /// Whether tolls that take cash only are avoided.
    pub exclude_cash_only_tolls: Option<bool>,
    /// Whether lanes for two or more occupants may be used.
    pub include_hov2: Option<bool>,
    /// Whether lanes for three or more occupants may be used.
    pub include_hov3: Option<bool>,
    /// Whether tolled lanes for several occupants may be used.
    pub include_hot: Option<bool>,
}

impl AutoCostingOptions {
    /// Options with nothing set.
    pub open spec fn unset() -> Self {
        AutoCostingOptions {
            maneuver_penalty: None,
            gate_cost: None,
            gate_penalty: None,
            private_access_penalty: None,
            destination_only_penalty: None,
            toll_booth_cost: None,
            toll_booth_penalty: None,
            ferry_cost: None,
            use_ferry: None,
            use_highways: None,
            use_tolls: None,
            use_living_streets: None,
            use_tracks: None,
            service_penalty: None,
            service_factor: None,
            country_crossing_cost: None,
            country_crossing_penalty: None,
            shortest: None,
            use_distance: None,
            disable_hierarchy_pruning: None,
            top_speed: None,
            fixed_speed: None,
            closure_factor: None,
            ignore_closures: None,
            ignore_restrictions: None,
            ignore_oneways: None,
            ignore_non_vehicular_restrictions: None,
            ignore_access: None,
            speed_types: None,
            height: None,
            width: None,
            exclude_unpaved: None,
            exclude_cash_only_tolls: None,
            include_hov2: None,
            include_hov3: None,
            include_hot: None,
        }
    }

    /// Options with nothing set, to be filled in by the methods below.
    pub fn builder() -> (r: Self)
        ensures
            r == Self::unset(),
    {
        AutoCostingOptions {
            maneuver_penalty: None,
            gate_cost: None,
            gate_penalty: None,
            private_access_penalty: None,
            destination_only_penalty: None,
            toll_booth_cost: None,
            toll_booth_penalty: None,
            ferry_cost: None,
            use_ferry: None,
            use_highways: None,
            use_tolls: None,
            use_living_streets: None,
            use_tracks: None,
            service_penalty: None,
            service_factor: None,
            country_crossing_cost: None,
            country_crossing_penalty: None,
            shortest: None,
            use_distance: None,
            disable_hierarchy_pruning: None,
            top_speed: None,
            fixed_speed: None,
            closure_factor: None,
            ignore_closures: None,
            ignore_restrictions: None,
            ignore_oneways: None,
            ignore_non_vehicular_restrictions: None,
            ignore_access: None,
            speed_types: None,
            height: None,
            width: None,
            exclude_unpaved: None,
            exclude_cash_only_tolls: None,
            include_hov2: None,
            include_hov3: None,
            include_hot: None,
        }
    }

    /// Sets the seconds added at a gate with undefined or private access.
    pub fn gate_cost(self, gate_cost: Float) -> (r: Self)
        ensures
            r == (AutoCostingOptions { gate_cost: Some(gate_cost), ..self }),
    {
        AutoCostingOptions { gate_cost: Some(gate_cost), ..self }
    }

    /// Sets the penalty in seconds for a gate without access information.
    pub fn gate_penalty(self, gate_penalty: Float) -> (r: Self)
        ensures
            r == (AutoCostingOptions { gate_penalty: Some(gate_penalty), ..self }),
    {
        AutoCostingOptions { gate_penalty: Some(gate_penalty), ..self }
    }

    /// Sets the penalty in seconds for a gate or bollard marked private.
    pub fn private_access_penalty(self, private_access_penalty: Float) -> (r: Self)
        ensures
            r == (AutoCostingOptions { private_access_penalty: Some(private_access_penalty), ..self }),
    {
        AutoCostingOptions { private_access_penalty: Some(private_access_penalty), ..self }
    }

    /// Sets the penalty in seconds for entering a road that is open to
    /// destination traffic only.
    pub fn destination_only_penalty(self, destination_only_penalty: Float) -> (r: Self)
        ensures
            r == (AutoCostingOptions { destination_only_penalty: Some(destination_only_penalty), ..self }),
    {
        AutoCostingOptions { destination_only_penalty: Some(destination_only_penalty), ..self }
    }

    /// Sets the seconds added at a toll booth.
    pub fn toll_booth_cost(self, toll_booth_cost: Float) -> (r: Self)
        ensures
            r == (AutoCostingOptions { toll_booth_cost: Some(toll_booth_cost), ..self }),
    {
        AutoCostingOptions { toll_booth_cost: Some(toll_booth_cost), ..self }
    }

    /// Sets the penalty in seconds for a toll booth, to keep a route off toll
    /// roads.
    pub fn toll_booth_penalty(self, toll_booth_penalty: Float) -> (r: Self)
        ensures
            r == (AutoCostingOptions { toll_booth_penalty: Some(toll_booth_penalty), ..self }),
    {
        AutoCostingOptions { toll_booth_penalty: Some(toll_booth_penalty), ..self }
    }

    /// Sets the seconds added for boarding a ferry.
    pub fn ferry_cost(self, ferry_cost: Float) -> (r: Self)
        ensures
            r == (AutoCostingOptions { ferry_cost: Some(ferry_cost), ..self }),
    {
        AutoCostingOptions { ferry_cost: Some(ferry_cost), ..self }
    }

    /// Sets the readiness to take ferries, from 0 (avoid them) to 1 (prefer
    /// them).
    pub fn use_ferry(self, use_ferry: Float) -> (r: Self)
        ensures
            r == (AutoCostingOptions { use_ferry: Some(use_ferry), ..self }),
    {
        AutoCostingOptions { use_ferry: Some(use_ferry), ..self }
    }

    /// Sets the readiness to take highways, from 0 (avoid them) to 1 (prefer
    /// them).
    pub fn use_highways(self, use_highways: Float) -> (r: Self)
        ensures
            r == (AutoCostingOptions { use_highways: Some(use_highways), ..self }),
    {
        AutoCostingOptions { use_highways: Some(use_highways), ..self }
    }

    /// Sets the readiness to take toll roads, from 0 (avoid them) to 1 (do
    /// not mind them).
    pub fn use_tolls(self, use_tolls: Float) -> (r: Self)
        ensures
            r == (AutoCostingOptions { use_tolls: Some(use_tolls), ..self }),
    {
        AutoCostingOptions { use_tolls: Some(use_tolls), ..self }
    }

    /// Sets the readiness to take living streets, from 0 (avoid them) to 1
    /// (prefer them).
    pub fn use_living_streets(self, use_living_streets: Float) -> (r: Self)
        ensures
            r == (AutoCostingOptions { use_living_streets: Some(use_living_streets), ..self }),
    {
        AutoCostingOptions { use_living_streets: Some(use_living_streets), ..self }
    }

    /// Sets the readiness to take tracks, from 0 (avoid them) to 1 (prefer
    /// them slightly).
    pub fn use_tracks(self, use_tracks: Float) -> (r: Self)
        ensures
            r == (AutoCostingOptions { use_tracks: Some(use_tracks), ..self }),
    {
        AutoCostingOptions { use_tracks: Some(use_tracks), ..self }
    }

    /// Sets the penalty in seconds for turning onto a service road.
    pub fn service_penalty(self, service_penalty: Float) -> (r: Self)
        ensures
            r == (AutoCostingOptions { service_penalty: Some(service_penalty), ..self }),
    {
        AutoCostingOptions { service_penalty: Some(service_penalty), ..self }
    }

    /// Sets the factor on the cost of service roads.
    pub fn service_factor(self, service_factor: Float) -> (r: Self)
        ensures
            r == (AutoCostingOptions { service_factor: Some(service_factor), ..self }),
    {
        AutoCostingOptions { service_factor: Some(service_factor), ..self }
    }

    /// Sets the seconds added at a border between countries.
    pub fn country_crossing_cost(self, country_crossing_cost: Float) -> (r: Self)
        ensures
            r == (AutoCostingOptions { country_crossing_cost: Some(country_crossing_cost), ..self }),
    {
        AutoCostingOptions { country_crossing_cost: Some(country_crossing_cost), ..self }
    }

    /// Sets the penalty in seconds for crossing a border between countries.
    pub fn country_crossing_penalty(self, country_crossing_penalty: Float) -> (r: Self)
        ensures
            r == (AutoCostingOptions { country_crossing_penalty: Some(country_crossing_penalty), ..self }),
    {
        AutoCostingOptions { country_crossing_penalty: Some(country_crossing_penalty), ..self }
    }

    /// Lets distance alone decide the cost; every other cost and penalty is
    /// then ignored.
    pub fn only_consider_quasi_shortest(self) -> (r: Self)
        ensures
            r == (AutoCostingOptions { shortest: Some(true), ..self }),
    {
        AutoCostingOptions { shortest: Some(true), ..self }
    }

    /// Sets the weight of distance against time, from 0 (time only) to 1
    /// (distance only).
    pub fn use_distance(self, use_distance: Float) -> (r: Self)
        ensures
            r == (AutoCostingOptions { use_distance: Some(use_distance), ..self }),
    {
        AutoCostingOptions { use_distance: Some(use_distance), ..self }
    }

    /// Asks for the search to look at roads of every class all the way, which
    /// finds the best route at the price of a slower answer.
    pub fn disable_hierarchy_pruning(self) -> (r: Self)
        ensures
            r == (AutoCostingOptions { disable_hierarchy_pruning: Some(true), ..self }),
    {
        AutoCostingOptions { disable_hierarchy_pruning: Some(true), ..self }
    }

    /// Sets the highest speed of the vehicle in km/h, from 10 to 252.
    pub fn top_speed(self, top_speed: Float) -> (r: Self)
        ensures
            r == (AutoCostingOptions { top_speed: Some(top_speed), ..self }),
    {
        AutoCostingOptions { top_speed: Some(top_speed), ..self }
    }

    /// Sets the speed in km/h assumed on every road, from 1 to 252.
    pub fn fixed_speed(self, fixed_speed: u32) -> (r: Self)
        ensures
            r == (AutoCostingOptions { fixed_speed: Some(fixed_speed), ..self }),
    {
        AutoCostingOptions { fixed_speed: Some(fixed_speed), ..self }
    }

    /// Sets the factor on the cost of a road closed by live traffic, from 1
    /// (no penalty) to 10.
    pub fn closure_factor(self, closure_factor: Float) -> (r: Self)
        ensures
            r == (AutoCostingOptions { closure_factor: Some(closure_factor), ..self }),
    {
        AutoCostingOptions { closure_factor: Some(closure_factor), ..self }
    }

    /// Ignores closures from live traffic.
    pub fn ignore_closures(self) -> (r: Self)
        ensures
            r == (AutoCostingOptions { ignore_closures: Some(true), ..self }),
    {
        AutoCostingOptions { ignore_closures: Some(true), ..self }
    }

    /// Ignores turn, size and conditional restrictions, as is useful for
    /// matching a recorded track.
    pub fn ignore_restrictions(self) -> (r: Self)
        ensures
            r == (AutoCostingOptions { ignore_restrictions: Some(true), ..self }),
    {
        AutoCostingOptions { ignore_restrictions: Some(true), ..self }
    }

    /// Ignores one-way rules.
    pub fn ignore_oneways(self) -> (r: Self)
        ensures
            r == (AutoCostingOptions { ignore_oneways: Some(true), ..self }),
    {
        AutoCostingOptions { ignore_oneways: Some(true), ..self }
    }

    /// Ignores restrictions but for those on weight and size, which bear on
    /// the safety of the vehicle.
    pub fn ignore_non_vehicular_restrictions(self) -> (r: Self)
        ensures
            r == (AutoCostingOptions { ignore_non_vehicular_restrictions: Some(true), ..self }),
    {
        AutoCostingOptions { ignore_non_vehicular_restrictions: Some(true), ..self }
    }

    /// Ignores the access rules of the travel mode.
    pub fn ignore_access(self) -> (r: Self)
        ensures
            r == (AutoCostingOptions { ignore_access: Some(true), ..self }),
    {
        AutoCostingOptions { ignore_access: Some(true), ..self }
    }

    /// Chooses the source of speed data. `All` is what the service does
    /// anyway, so it clears the choice instead of stating it.
    pub fn speed_types(self, speed_types: UsedSpeedSources) -> (r: Self)
        ensures
            speed_types == UsedSpeedSources::All ==> r == (AutoCostingOptions { speed_types: None, ..self }),
            speed_types != UsedSpeedSources::All ==> r == (AutoCostingOptions {
                speed_types: Some(speed_types),
                ..self
            }),
    {
        if speed_types == UsedSpeedSources::All {
            AutoCostingOptions { speed_types: None, ..self }
        } else {
            AutoCostingOptions { speed_types: Some(speed_types), ..self }
        }
    }

    /// Sets the height of the vehicle in metres.
    pub fn height(self, height: Float) -> (r: Self)
        ensures
            r == (AutoCostingOptions { height: Some(height), ..self }),
    {
        AutoCostingOptions { height: Some(height), ..self }
    }

    /// Sets the width of the vehicle in metres.
    pub fn width(self, width: Float) -> (r: Self)
        ensures
            r == (AutoCostingOptions { width: Some(width), ..self }),
    {
        AutoCostingOptions { width: Some(width), ..self }
    }

    /// Keeps unpaved roads out of the middle of a route; it may still start
    /// and end on one.
    pub fn exclude_unpaved(self) -> (r: Self)
        ensures
            r == (AutoCostingOptions { exclude_unpaved: Some(true), ..self }),
    {
        AutoCostingOptions { exclude_unpaved: Some(true), ..self }
    }

    /// Sets whether tolls that take cash only are avoided.
    pub fn exclude_cash_only_tolls(self, exclude_cash_only_tolls: bool) -> (r: Self)
        ensures
            r == (AutoCostingOptions { exclude_cash_only_tolls: Some(exclude_cash_only_tolls), ..self }),
    {
        AutoCostingOptions { exclude_cash_only_tolls: Some(exclude_cash_only_tolls), ..self }
    }

    /// Sets whether lanes for two or more occupants may be used.
    pub fn include_hov2(self, include_hov2: bool) -> (r: Self)
        ensures
            r == (AutoCostingOptions { include_hov2: Some(include_hov2), ..self }),
    {
        AutoCostingOptions { include_hov2: Some(include_hov2), ..self }
    }

    /// Sets whether lanes for three or more occupants may be used.
    pub fn include_hov3(self, include_hov3: bool) -> (r: Self)
        ensures
            r == (AutoCostingOptions { include_hov3: Some(include_hov3), ..self }),
    {
        AutoCostingOptions { include_hov3: Some(include_hov3), ..self }
    }

    /// Sets whether tolled lanes for several occupants may be used.
    pub fn include_hot(self, include_hot: bool) -> (r: Self)
        ensures
            r == (AutoCostingOptions { include_hot: Some(include_hot), ..self }),
    {
        AutoCostingOptions { include_hot: Some(include_hot), ..self }
    }
}

impl Default for AutoCostingOptions {
    /// The options with nothing set.
    fn default() -> (r: Self)
        ensures
            r == Self::unset(),
    {
        Self::builder()
    }
}

/// Where the speed assumed on a road comes from.
#[derive(Clone, Copy, Debug, PartialEq, Eq, Structural)]
pub enum UsedSpeedSources {
    /// Every source there is.
    All,
    /// Speeds measured at night, when traffic flows freely.
    Freeflow,
    /// Speeds measured by day, when traffic holds vehicles up.
    Constrained,
    /// Speeds predicted from the history of the road.
    Predicted,
    /// Speeds of the traffic at this moment.
    Current,
}

} // verus!
