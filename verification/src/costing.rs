//! Cost models: how the service weighs roads for each way of travelling.

use vstd::prelude::*;

pub mod auto;
pub mod bicycle;
pub mod motor_scooter;
pub mod multimodal;
pub mod pedestrian;
pub mod transit;
pub mod truck;

pub use crate::costing::auto::AutoCostingOptions;
pub use crate::costing::bicycle::BicycleCostingOptions;
pub use crate::costing::motor_scooter::MotorScooterCostingOptions;
pub use crate::costing::multimodal::MultimodalCostingOptions;
pub use crate::costing::pedestrian::PedestrianCostingOptions;
pub use crate::costing::transit::TransitCostingOptions;
pub use crate::costing::truck::TruckCostingOptions;

verus! {

/// The cost model of a request, with its options.
#[derive(Clone, Debug, PartialEq, Eq)]
pub enum Costing {
    /// Driving a car: obeys the rules for cars and prefers roads of a
    /// higher class.
    Auto(AutoCostingOptions),
    /// Riding a bicycle: prefers cycleways and lanes, avoids roads closed to
    /// bicycles.
    Bicycle(BicycleCostingOptions),
    /// Driving a bus: as a car, on roads open to buses.
    Bus(AutoCostingOptions),
    /// Walking and riding a shared bicycle, changing at bike share
    /// stations.
    Bikeshare(BicycleCostingOptions),
    /// Driving a truck: as a car, on roads open to trucks and within the
    /// limits of size and weight.
    Truck(TruckCostingOptions),
    /// Driving a taxi: as a car, preferring lanes open to taxis.
    Taxi(AutoCostingOptions),
    /// Riding a motor scooter or moped: avoids roads of a high class.
    MotorScooter(MotorScooterCostingOptions),
    /// Walking and public transport together.
    Multimodal(MultimodalCostingOptions),
    /// Walking: the shortest way on roads open to pedestrians.
    Pedestrian(PedestrianCostingOptions),
}

/// Whether a fixed speed in whole km/h, where one is set, is one that the
/// service takes: from 1 to 252.
pub fn speed_fits(speed: Option<u32>) -> (b: bool)
    ensures
        b == (speed matches Some(s) ==> 1 <= s <= 252),
{
    match speed {
        None => true,
        Some(s) => 1 <= s && s <= 252,
    }
}

impl Default for Costing {
    /// Driving a car, with no option set.
    fn default() -> (r: Costing)
        ensures
            r == Costing::Auto(AutoCostingOptions::unset()),
    {
        Costing::Auto(AutoCostingOptions::builder())
    }
}

} // verus!
