//! Options for travel on foot.

use crate::number::Float;
use vstd::prelude::*;

verus! {

/// Options for travel on foot.
#[derive(Clone, Debug, PartialEq, Eq)]
pub struct PedestrianCostingOptions {
    /// Walking speed in km/h, from 0.5 to 25.
    pub walking_speed: Option<Float>,
    /// Factor on the cost of footways.
    pub walkway_factor: Option<Float>,
    /// Factor on the cost of roads with a sidewalk.
    pub sidewalk_factor: Option<Float>,
    /// Factor on the cost of alleys.
    pub alley_factor: Option<Float>,
    /// Factor on the cost of driveways.
    pub driveway_factor: Option<Float>,
    /// Penalty in seconds for turning onto steps or stairs.
    pub step_penalty: Option<Float>,
    /// Readiness to take ferries, from 0 (avoid them) to 1 (prefer them).
    pub use_ferry: Option<Float>,
    /// Readiness to take living streets, from 0 (avoid them) to 1 (prefer
    /// them).
    pub use_living_streets: Option<Float>,
    /// Readiness to take tracks, from 0 (avoid them) to 1 (prefer them
    /// slightly).
    pub use_tracks: Option<Float>,
    /// Readiness to climb hills, from 0 (avoid them) to 1 (do not mind them).
    pub use_hills: Option<Float>,
    /// Wish for lit streets, from 0 (indifferent) to 1 (avoid unlit streets).
    pub use_lit: Option<Float>,
    /// Penalty in seconds for turning onto a service road.
    pub service_penalty: Option<Float>,
    /// Factor on the cost of service roads.
    pub service_factor: Option<Float>,
    /// Penalty in seconds for entering a road that is open to destination
    /// traffic only.
    pub destination_only_penalty: Option<Float>,
    /// Hardest hiking trail allowed, on the scale from 0 to 6.
    pub max_hiking_difficulty: Option<Float>,
    /// Seconds it takes to rent a bicycle at a bike share station.
    pub bss_rent_cost: Option<Float>,
    /// Penalty in seconds for renting a bicycle at a bike share station.
    pub bss_rent_penalty: Option<Float>,
    /// Whether distance alone decides the cost.
    pub shortest: Option<bool>,
    /// Longest walk allowed for the whole route.
    pub max_distance: Option<Float>,
    /// Longest walk in metres allowed at either end of a transit route.
    pub transit_start_end_max_distance: Option<Float>,
    /// Longest walk in metres allowed between two vehicles.
    pub transit_transfer_max_distance: Option<Float>,
    /// Kind of pedestrian.
    pub type_: Option<PedestrianType>,
    /// Factor on the cost of walking in a route that mixes modes.
    pub mode_factor: Option<Float>,
}

impl PedestrianCostingOptions {
    /// Options with nothing set.
    pub open spec fn unset() -> Self {
        PedestrianCostingOptions {
            walking_speed: None,
            walkway_factor: None,
            sidewalk_factor: None,
            alley_factor: None,
            driveway_factor: None,
            step_penalty: None,
            use_ferry: None,
            use_living_streets: None,
            use_tracks: None,
            use_hills: None,
            use_lit: None,
            service_penalty: None,
            service_factor: None,
            destination_only_penalty: None,
            max_hiking_difficulty: None,
            bss_rent_cost: None,
            bss_rent_penalty: None,
            shortest: None,
            max_distance: None,
            transit_start_end_max_distance: None,
            transit_transfer_max_distance: None,
            type_: None,
            mode_factor: None,
        }
    }

    /// Options with nothing set, to be filled in by the methods below.
    pub fn builder() -> (r: Self)
        ensures
            r == Self::unset(),
    {
        PedestrianCostingOptions {
            walking_speed: None,
            walkway_factor: None,
            sidewalk_factor: None,
            alley_factor: None,
            driveway_factor: None,
            step_penalty: None,
            use_ferry: None,
            use_living_streets: None,
            use_tracks: None,
            use_hills: None,
            use_lit: None,
            service_penalty: None,
            service_factor: None,
            destination_only_penalty: None,
            max_hiking_difficulty: None,
            bss_rent_cost: None,
            bss_rent_penalty: None,
            shortest: None,
            max_distance: None,
            transit_start_end_max_distance: None,
            transit_transfer_max_distance: None,
            type_: None,
            mode_factor: None,
        }
    }

    /// Sets the walking speed in km/h, from 0.5 to 25.
    pub fn walking_speed(self, walking_speed: Float) -> (r: Self)
        ensures
            r == (PedestrianCostingOptions { walking_speed: Some(walking_speed), ..self }),
    {
        PedestrianCostingOptions { walking_speed: Some(walking_speed), ..self }
    }

    /// Sets the factor on the cost of footways.
    pub fn walkway_factor(self, walkway_factor: Float) -> (r: Self)
        ensures
            r == (PedestrianCostingOptions { walkway_factor: Some(walkway_factor), ..self }),
    {
        PedestrianCostingOptions { walkway_factor: Some(walkway_factor), ..self }
    }

    /// Sets the factor on the cost of roads with a sidewalk.
    pub fn sidewalk_factor(self, sidewalk_factor: Float) -> (r: Self)
        ensures
            r == (PedestrianCostingOptions { sidewalk_factor: Some(sidewalk_factor), ..self }),
    {
        PedestrianCostingOptions { sidewalk_factor: Some(sidewalk_factor), ..self }
    }

    /// Sets the factor on the cost of alleys.
    pub fn alley_factor(self, alley_factor: Float) -> (r: Self)
        ensures
            r == (PedestrianCostingOptions { alley_factor: Some(alley_factor), ..self }),
    {
        PedestrianCostingOptions { alley_factor: Some(alley_factor), ..self }
    }

    /// Sets the factor on the cost of driveways.
    pub fn driveway_factor(self, driveway_factor: Float) -> (r: Self)
        ensures
            r == (PedestrianCostingOptions { driveway_factor: Some(driveway_factor), ..self }),
    {
        PedestrianCostingOptions { driveway_factor: Some(driveway_factor), ..self }
    }

    /// Sets the penalty in seconds for turning onto steps or stairs.
    pub fn step_penalty(self, step_penalty: Float) -> (r: Self)
        ensures
            r == (PedestrianCostingOptions { step_penalty: Some(step_penalty), ..self }),
    {
        PedestrianCostingOptions { step_penalty: Some(step_penalty), ..self }
    }

    /// Sets the readiness to take ferries, from 0 (avoid them) to 1 (prefer
    /// them).
    pub fn use_ferry(self, use_ferry: Float) -> (r: Self)
        ensures
            r == (PedestrianCostingOptions { use_ferry: Some(use_ferry), ..self }),
    {
        PedestrianCostingOptions { use_ferry: Some(use_ferry), ..self }
    }

    /// Sets the readiness to take living streets, from 0 (avoid them) to 1
    /// (prefer them).
    pub fn use_living_streets(self, use_living_streets: Float) -> (r: Self)
        ensures
            r == (PedestrianCostingOptions { use_living_streets: Some(use_living_streets), ..self }),
    {
        PedestrianCostingOptions { use_living_streets: Some(use_living_streets), ..self }
    }

    /// Sets the readiness to take tracks, from 0 (avoid them) to 1 (prefer
    /// them slightly).
    pub fn use_tracks(self, use_tracks: Float) -> (r: Self)
        ensures
            r == (PedestrianCostingOptions { use_tracks: Some(use_tracks), ..self }),
    {
        PedestrianCostingOptions { use_tracks: Some(use_tracks), ..self }
    }

    /// Sets the readiness to climb hills, from 0 (avoid them) to 1 (do not
    /// mind them).
    pub fn use_hills(self, use_hills: Float) -> (r: Self)
        ensures
            r == (PedestrianCostingOptions { use_hills: Some(use_hills), ..self }),
    {
        PedestrianCostingOptions { use_hills: Some(use_hills), ..self }
    }

    /// Sets the wish for lit streets, from 0 (indifferent) to 1 (avoid unlit
    /// streets).
    pub fn use_lit(self, use_lit: Float) -> (r: Self)
        ensures
            r == (PedestrianCostingOptions { use_lit: Some(use_lit), ..self }),
    {
        PedestrianCostingOptions { use_lit: Some(use_lit), ..self }
    }

    /// Sets the penalty in seconds for turning onto a service road.
    pub fn service_penalty(self, service_penalty: Float) -> (r: Self)
        ensures
            r == (PedestrianCostingOptions { service_penalty: Some(service_penalty), ..self }),
    {
        PedestrianCostingOptions { service_penalty: Some(service_penalty), ..self }
    }

    /// Sets the factor on the cost of service roads.
    pub fn service_factor(self, service_factor: Float) -> (r: Self)
        ensures
            r == (PedestrianCostingOptions { service_factor: Some(service_factor), ..self }),
    {
        PedestrianCostingOptions { service_factor: Some(service_factor), ..self }
    }

    /// Sets the penalty in seconds for entering a road that is open to
    /// destination traffic only.
    pub fn destination_only_penalty(self, destination_only_penalty: Float) -> (r: Self)
        ensures
            r == (PedestrianCostingOptions { destination_only_penalty: Some(destination_only_penalty), ..self }),
    {
        PedestrianCostingOptions { destination_only_penalty: Some(destination_only_penalty), ..self }
    }

    /// Sets the hardest hiking trail allowed, on the scale from 0 to 6.
    pub fn max_hiking_difficulty(self, max_hiking_difficulty: Float) -> (r: Self)
        ensures
            r == (PedestrianCostingOptions { max_hiking_difficulty: Some(max_hiking_difficulty), ..self }),
    {
        PedestrianCostingOptions { max_hiking_difficulty: Some(max_hiking_difficulty), ..self }
    }

    /// Sets the seconds it takes to rent a bicycle at a bike share station.
    pub fn bss_rent_cost(self, bss_rent_cost: Float) -> (r: Self)
        ensures
            r == (PedestrianCostingOptions { bss_rent_cost: Some(bss_rent_cost), ..self }),
    {
        PedestrianCostingOptions { bss_rent_cost: Some(bss_rent_cost), ..self }
    }

    /// Sets the penalty in seconds for renting a bicycle at a bike share
    /// station.
    pub fn bss_rent_penalty(self, bss_rent_penalty: Float) -> (r: Self)
        ensures
            r == (PedestrianCostingOptions { bss_rent_penalty: Some(bss_rent_penalty), ..self }),
    {
        PedestrianCostingOptions { bss_rent_penalty: Some(bss_rent_penalty), ..self }
    }

    /// Lets distance alone decide the cost; every other cost and penalty is
    /// then ignored.
    pub fn only_consider_quasi_shortest(self) -> (r: Self)
        ensures
            r == (PedestrianCostingOptions { shortest: Some(true), ..self }),
    {
        PedestrianCostingOptions { shortest: Some(true), ..self }
    }

    /// Sets the longest walk allowed for the whole route.
    pub fn max_distance(self, max_distance: Float) -> (r: Self)
        ensures
            r == (PedestrianCostingOptions { max_distance: Some(max_distance), ..self }),
    {
        PedestrianCostingOptions { max_distance: Some(max_distance), ..self }
    }

    /// Sets the longest walk in metres allowed at either end of a transit
    /// route.
    pub fn transit_start_end_max_distance(self, transit_start_end_max_distance: Float) -> (r: Self)
        ensures
            r == (PedestrianCostingOptions { transit_start_end_max_distance: Some(transit_start_end_max_distance), ..self }),
    {
        PedestrianCostingOptions { transit_start_end_max_distance: Some(transit_start_end_max_distance), ..self }
    }

    /// Sets the longest walk in metres allowed between two vehicles.
    pub fn transit_transfer_max_distance(self, transit_transfer_max_distance: Float) -> (r: Self)
        ensures
            r == (PedestrianCostingOptions { transit_transfer_max_distance: Some(transit_transfer_max_distance), ..self }),
    {
        PedestrianCostingOptions { transit_transfer_max_distance: Some(transit_transfer_max_distance), ..self }
    }

    /// Sets the kind of pedestrian.
    pub fn type_(self, type_: PedestrianType) -> (r: Self)
        ensures
            r == (PedestrianCostingOptions { type_: Some(type_), ..self }),
    {
        PedestrianCostingOptions { type_: Some(type_), ..self }
    }

    /// Sets the factor on the cost of walking in a route that mixes modes.
    pub fn mode_factor(self, mode_factor: Float) -> (r: Self)
        ensures
            r == (PedestrianCostingOptions { mode_factor: Some(mode_factor), ..self }),
    {
        PedestrianCostingOptions { mode_factor: Some(mode_factor), ..self }
    }
}

impl Default for PedestrianCostingOptions {
    /// The options with nothing set.
    fn default() -> (r: Self)
        ensures
            r == Self::unset(),
    {
        Self::builder()
    }
}

/// Kind of pedestrian.
#[derive(Clone, Copy, Debug, PartialEq, Eq, Structural)]
pub enum PedestrianType {
    /// A walker who sees.
    Foot,
    /// A walker who does not see, and is told of crossings, stairs and
    /// bridges.
    Blind,
}

impl Default for PedestrianType {
    fn default() -> (r: Self)
        ensures
            r == PedestrianType::Foot,
    {
        PedestrianType::Foot
    }
}

} // verus!
