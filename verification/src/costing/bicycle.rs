//! Options for travel by bicycle.

use crate::number::Float;
use vstd::prelude::*;

verus! {

/// Kind of bicycle.
#[derive(Clone, Copy, Debug, PartialEq, Eq, Structural)]
pub enum BicycleType {
    /// Light, with narrow tyres, made for speed on paved roads.
    Road,
    /// Made for the city and for paths with a good surface.
    Hybrid,
    /// Like a road bicycle, with wider tyres for rougher ground.
    Cross,
    /// Made for most ground, heavier and slower on paved roads.
    Mountain,
}

impl Default for BicycleType {
    fn default() -> (r: Self)
        ensures
            r == BicycleType::Hybrid,
    {
        BicycleType::Hybrid
    }
}

/// Options for travel by bicycle.
#[derive(Clone, Debug, PartialEq, Eq)]
pub struct BicycleCostingOptions {
    /// Kind of bicycle.
    pub bicycle_type: Option<BicycleType>,
    /// Speed in km/h kept up on smooth, flat roads.
    pub cycling_speed: Option<Float>,
    /// Readiness to share roads with other vehicles, from 0 (avoid them) to 1
    /// (at ease on them).
    pub use_roads: Option<Float>,
    /// Readiness to climb hills, from 0 (avoid them) to 1 (do not mind them).
    pub use_hills: Option<Float>,
    /// Readiness to take ferries, from 0 (avoid them) to 1 (prefer them).
    pub use_ferry: Option<Float>,
    /// Readiness to take living streets, from 0 (avoid them) to 1 (prefer
    /// them).
    pub use_living_streets: Option<Float>,
    /// Wish to keep off surfaces that are bad for the bicycle, from 0
    /// (indifferent) to 1 (never ride them).
    pub avoid_bad_surfaces: Option<Float>,
    /// Seconds it takes to return a rented bicycle.
    pub bss_return_cost: Option<Float>,
    /// Penalty in seconds for returning a rented bicycle.
    pub bss_return_penalty: Option<Float>,
    /// Whether distance alone decides the cost.
    pub shortest: Option<bool>,
    /// Penalty in seconds for turning onto a road that shares no name with
    /// the one left.
    pub maneuver_penalty: Option<Float>,
    /// Seconds added at a gate with undefined or private access.
    pub gate_cost: Option<Float>,
    /// Penalty in seconds for a gate without access information.
    pub gate_penalty: Option<Float>,
    /// Seconds added at a border between countries.
    pub country_crossing_cost: Option<Float>,
    /// Penalty in seconds for crossing a border between countries.
    pub country_crossing_penalty: Option<Float>,
    /// Penalty in seconds for turning onto a service road.
    pub service_penalty: Option<Float>,
}

impl BicycleCostingOptions {
    /// Options with nothing set.
    pub open spec fn unset() -> Self {
        BicycleCostingOptions {
            bicycle_type: None,
            cycling_speed: None,
            use_roads: None,
            use_hills: None,
            use_ferry: None,
            use_living_streets: None,
            avoid_bad_surfaces: None,
            bss_return_cost: None,
            bss_return_penalty: None,
            shortest: None,
            maneuver_penalty: None,
            gate_cost: None,
            gate_penalty: None,
            country_crossing_cost: None,
            country_crossing_penalty: None,
            service_penalty: None,
        }
    }

    /// Options with nothing set, to be filled in by the methods below.
    pub fn builder() -> (r: Self)
        ensures
            r == Self::unset(),
    {
        BicycleCostingOptions {
            bicycle_type: None,
            cycling_speed: None,
            use_roads: None,
            use_hills: None,
            use_ferry: None,
            use_living_streets: None,
            avoid_bad_surfaces: None,
            bss_return_cost: None,
            bss_return_penalty: None,
            shortest: None,
            maneuver_penalty: None,
            gate_cost: None,
            gate_penalty: None,
            country_crossing_cost: None,
            country_crossing_penalty: None,
            service_penalty: None,
        }
    }

    /// Sets the kind of bicycle.
    pub fn bicycle_type(self, bicycle_type: BicycleType) -> (r: Self)
        ensures
            r == (BicycleCostingOptions { bicycle_type: Some(bicycle_type), ..self }),
    {
        BicycleCostingOptions { bicycle_type: Some(bicycle_type), ..self }
    }

    /// Sets the speed in km/h kept up on smooth, flat roads.
    pub fn cycling_speed(self, speed: Float) -> (r: Self)
        ensures
            r == (BicycleCostingOptions { cycling_speed: Some(speed), ..self }),
    {
        BicycleCostingOptions { cycling_speed: Some(speed), ..self }
    }

    /// Sets the readiness to share roads with other vehicles, from 0 (avoid
    /// them) to 1 (at ease on them).
    pub fn use_roads(self, willingness: Float) -> (r: Self)
        ensures
            r == (BicycleCostingOptions { use_roads: Some(willingness), ..self }),
    {
        BicycleCostingOptions { use_roads: Some(willingness), ..self }
    }

    /// Sets the readiness to climb hills, from 0 (avoid them) to 1 (do not
    /// mind them).
    pub fn use_hills(self, willingness: Float) -> (r: Self)
        ensures
            r == (BicycleCostingOptions { use_hills: Some(willingness), ..self }),
    {
        BicycleCostingOptions { use_hills: Some(willingness), ..self }
    }

    /// Sets the readiness to take ferries, from 0 (avoid them) to 1 (prefer
    /// them).
    pub fn use_ferry(self, willingness: Float) -> (r: Self)
        ensures
            r == (BicycleCostingOptions { use_ferry: Some(willingness), ..self }),
    {
        BicycleCostingOptions { use_ferry: Some(willingness), ..self }
    }

    /// Sets the readiness to take living streets, from 0 (avoid them) to 1
    /// (prefer them).
    pub fn use_living_streets(self, willingness: Float) -> (r: Self)
        ensures
            r == (BicycleCostingOptions { use_living_streets: Some(willingness), ..self }),
    {
        BicycleCostingOptions { use_living_streets: Some(willingness), ..self }
    }

    /// Sets the wish to keep off surfaces that are bad for the bicycle, from
    /// 0 (indifferent) to 1 (never ride them).
    pub fn avoid_bad_surfaces(self, willingness: Float) -> (r: Self)
        ensures
            r == (BicycleCostingOptions { avoid_bad_surfaces: Some(willingness), ..self }),
    {
        BicycleCostingOptions { avoid_bad_surfaces: Some(willingness), ..self }
    }

    /// Sets the seconds it takes to return a rented bicycle.
    pub fn bss_return_cost(self, cost: Float) -> (r: Self)
        ensures
            r == (BicycleCostingOptions { bss_return_cost: Some(cost), ..self }),
    {
        BicycleCostingOptions { bss_return_cost: Some(cost), ..self }
    }

    /// Sets the penalty in seconds for returning a rented bicycle.
    pub fn bss_return_penalty(self, penalty: Float) -> (r: Self)
        ensures
            r == (BicycleCostingOptions { bss_return_penalty: Some(penalty), ..self }),
    {
        BicycleCostingOptions { bss_return_penalty: Some(penalty), ..self }
    }

    /// Lets distance alone decide the cost; every other cost and penalty is
    /// then ignored.
    pub fn only_consider_quasi_shortest(self) -> (r: Self)
        ensures
            r == (BicycleCostingOptions { shortest: Some(true), ..self }),
    {
        BicycleCostingOptions { shortest: Some(true), ..self }
    }

    /// Sets the penalty in seconds for turning onto a road that shares no
    /// name with the one left.
    pub fn maneuver_penalty(self, penalty: Float) -> (r: Self)
        ensures
            r == (BicycleCostingOptions { maneuver_penalty: Some(penalty), ..self }),
    {
        BicycleCostingOptions { maneuver_penalty: Some(penalty), ..self }
    }

    /// Sets the seconds added at a gate with undefined or private access.
    pub fn gate_cost(self, cost: Float) -> (r: Self)
        ensures
            r == (BicycleCostingOptions { gate_cost: Some(cost), ..self }),
    {
        BicycleCostingOptions { gate_cost: Some(cost), ..self }
    }

    /// Sets the penalty in seconds for a gate without access information.
    pub fn gate_penalty(self, penalty: Float) -> (r: Self)
        ensures
            r == (BicycleCostingOptions { gate_penalty: Some(penalty), ..self }),
    {
        BicycleCostingOptions { gate_penalty: Some(penalty), ..self }
    }

    /// Sets the seconds added at a border between countries.
    pub fn country_crossing_cost(self, cost: Float) -> (r: Self)
        ensures
            r == (BicycleCostingOptions { country_crossing_cost: Some(cost), ..self }),
    {
        BicycleCostingOptions { country_crossing_cost: Some(cost), ..self }
    }

    /// Sets the penalty in seconds for crossing a border between countries.
    pub fn country_crossing_penalty(self, penalty: Float) -> (r: Self)
        ensures
            r == (BicycleCostingOptions { country_crossing_penalty: Some(penalty), ..self }),
    {
        BicycleCostingOptions { country_crossing_penalty: Some(penalty), ..self }
    }

    /// Sets the penalty in seconds for turning onto a service road.
    pub fn service_penalty(self, penalty: Float) -> (r: Self)
        ensures
            r == (BicycleCostingOptions { service_penalty: Some(penalty), ..self }),
    {
        BicycleCostingOptions { service_penalty: Some(penalty), ..self }
    }
}

impl Default for BicycleCostingOptions {
    /// The options with nothing set.
    fn default() -> (r: Self)
        ensures
            r == Self::unset(),
    {
        Self::builder()
    }
}

} // verus!
