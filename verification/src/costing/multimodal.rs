//! Options for travel that mixes walking and public transport.

use crate::costing::pedestrian::PedestrianCostingOptions;
use crate::costing::transit::{TransitCostingOptions, TransitCostingOptionsInner};
use vstd::prelude::*;

verus! {

/// Options for travel that mixes walking and public transport.
#[derive(Clone, Debug, PartialEq, Eq)]
pub struct MultimodalCostingOptions {
    /// Options for the parts on foot.
    pub pedestrian: Option<PedestrianCostingOptions>,
    /// Options for the parts by public transport.
    pub transit: Option<TransitCostingOptionsInner>,
}

impl MultimodalCostingOptions {
    /// Options with nothing set.
    pub open spec fn unset() -> Self {
        MultimodalCostingOptions { pedestrian: None, transit: None }
    }

    /// Options with nothing set, to be filled in by the methods below.
    pub fn builder() -> (r: Self)
        ensures
            r == Self::unset(),
    {
        MultimodalCostingOptions { pedestrian: None, transit: None }
    }

    /// Sets the options for the parts by public transport.
    pub fn transit(self, transit: TransitCostingOptions) -> (r: Self)
        ensures
            r == (MultimodalCostingOptions { transit: Some(transit.transit), ..self }),
    {
        MultimodalCostingOptions { transit: Some(transit.transit), ..self }
    }

    /// Sets the options for the parts on foot.
    pub fn pedestrian(self, pedestrian: PedestrianCostingOptions) -> (r: Self)
        ensures
            r == (MultimodalCostingOptions { pedestrian: Some(pedestrian), ..self }),
    {
        MultimodalCostingOptions { pedestrian: Some(pedestrian), ..self }
    }
}

impl Default for MultimodalCostingOptions {
    /// The options with nothing set.
    fn default() -> (r: Self)
        ensures
            r == Self::unset(),
    {
        Self::builder()
    }
}

} // verus!
