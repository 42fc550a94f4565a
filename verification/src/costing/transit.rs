//! Options for travel by public transport.

use crate::number::Float;
use vstd::prelude::*;

verus! {

/// What a filter does with the identifiers it lists.
#[derive(Clone, Copy, Debug, PartialEq, Eq, Structural)]
pub enum Action {
    /// Only the listed identifiers are used.
    Include,
    /// The listed identifiers are left out.
    Exclude,
}

impl Default for Action {
    fn default() -> (a: Action)
        ensures
            a == Action::Include,
    {
        Action::Include
    }
}

/// A list of Onestop identifiers and what to do with them.
#[derive(Clone, Debug, PartialEq, Eq)]
pub struct Filter {
    /// The identifiers, each the name of a feed, an underscore and the
    /// identifier of the object within the feed.
    pub ids: Vec<String>,
    /// Whether the identifiers are let in or kept out.
    pub action: Action,
}

/// The filters of a transit request, by what they select.
#[derive(Clone, Debug, PartialEq, Eq)]
pub struct Filters {
    /// Filter on routes.
    pub routes: Option<Filter>,
    /// Filter on operators.
    pub operators: Option<Filter>,
    /// Filter on stops.
    pub stops: Option<Filter>,
}

impl Filters {
    /// No filter at all.
    pub fn new() -> (f: Filters)
        ensures
            f == (Filters { routes: None, operators: None, stops: None }),
    {
        Filters { routes: None, operators: None, stops: None }
    }

    /// Whether no filter is set.
    pub fn is_empty(&self) -> (empty: bool)
        ensures
            empty <==> self.routes is None && self.operators is None && self.stops is None,
    {
        self.routes.is_none() && self.operators.is_none() && self.stops.is_none()
    }
}

/// The options proper, as they stand under the key `transit`.
#[derive(Clone, Debug, PartialEq, Eq)]
pub struct TransitCostingOptionsInner {
    /// Preference for buses.
    pub use_bus: Option<Float>,
    /// Preference for rail, subway and metro.
    pub use_rail: Option<Float>,
    /// Readiness to change vehicles.
    pub use_transfers: Option<Float>,
    /// Filters on routes, operators and stops.
    pub filters: Option<Filters>,
}

/// Options for travel by public transport.
#[derive(Clone, Debug, PartialEq, Eq)]
pub struct TransitCostingOptions {
    /// The options proper.
    pub transit: TransitCostingOptionsInner,
}

impl Default for Filter {
    /// The filter that lets in what it lists, and lists nothing.
    fn default() -> (f: Filter)
        ensures
            f.ids@.len() == 0,
            f.action == Action::Include,
    {
        Filter { ids: Vec::new(), action: Action::Include }
    }
}

impl Default for Filters {
    /// No filter at all.
    fn default() -> (f: Filters)
        ensures
            f == (Filters { routes: None, operators: None, stops: None }),
    {
        Filters::new()
    }
}

impl Default for TransitCostingOptionsInner {
    /// The options with nothing set.
    fn default() -> (r: Self)
        ensures
            r == (TransitCostingOptionsInner {
                use_bus: None,
                use_rail: None,
                use_transfers: None,
                filters: None,
            }),
    {
        TransitCostingOptionsInner { use_bus: None, use_rail: None, use_transfers: None, filters: None }
    }
}

impl TransitCostingOptionsInner {
    /// The filters that are set, or none where there is no set of filters.
    pub open spec fn filters_or_none(self) -> Filters {
        match self.filters {
            Some(filters) => filters,
            None => Filters { routes: None, operators: None, stops: None },
        }
    }
}

impl TransitCostingOptions {
    /// Options with nothing set.
    pub open spec fn unset() -> Self {
        TransitCostingOptions {
            transit: TransitCostingOptionsInner {
                use_bus: None,
                use_rail: None,
                use_transfers: None,
                filters: None,
            },
        }
    }

    /// Options with nothing set, to be filled in by the methods below.
    pub fn builder() -> (r: Self)
        ensures
            r == Self::unset(),
    {
        TransitCostingOptions {
            transit: TransitCostingOptionsInner {
                use_bus: None,
                use_rail: None,
                use_transfers: None,
                filters: None,
            },
        }
    }

    /// Sets the preference for buses, from 0 (avoid them) to 1 (prefer them
    /// strongly).
    pub fn use_bus(self, use_bus: Float) -> (r: Self)
        ensures
            r == (TransitCostingOptions {
                transit: TransitCostingOptionsInner { use_bus: Some(use_bus), ..self.transit },
            }),
    {
        TransitCostingOptions {
            transit: TransitCostingOptionsInner { use_bus: Some(use_bus), ..self.transit },
        }
    }

    /// Sets the preference for rail, subway and metro, from 0 (avoid them)
    /// to 1 (prefer them strongly).
    pub fn use_rail(self, use_rail: Float) -> (r: Self)
        ensures
            r == (TransitCostingOptions {
                transit: TransitCostingOptionsInner { use_rail: Some(use_rail), ..self.transit },
            }),
    {
        TransitCostingOptions {
            transit: TransitCostingOptionsInner { use_rail: Some(use_rail), ..self.transit },
        }
    }

    /// Sets the readiness to change vehicles, from 0 (avoid it) to 1 (at
    /// ease with it).
    pub fn use_transfers(self, use_transfers: Float) -> (r: Self)
        ensures
            r == (TransitCostingOptions {
                transit: TransitCostingOptionsInner {
                    use_transfers: Some(use_transfers),
                    ..self.transit
                },
            }),
    {
        TransitCostingOptions {
            transit: TransitCostingOptionsInner { use_transfers: Some(use_transfers), ..self.transit },
        }
    }

    /// Sets or replaces the filter on stops. The other two filters, and the
    /// other options, stay as they are.
    pub fn filter_stops(self, ids: Vec<String>, action: Action) -> (r: Self)
        ensures
            r == (TransitCostingOptions {
                transit: TransitCostingOptionsInner {
                    filters: Some(
                        Filters { stops: Some(Filter { ids, action }), ..self.transit.filters_or_none() },
                    ),
                    ..self.transit
                },
            }),
    {
        let TransitCostingOptionsInner { use_bus, use_rail, use_transfers, filters } = self.transit;
        let new_filter = Filter { ids, action };
        let filters = match filters {
            Some(old) => Filters { stops: Some(new_filter), ..old },
            None => Filters { routes: None, operators: None, stops: Some(new_filter) },
        };
        TransitCostingOptions {
            transit: TransitCostingOptionsInner { use_bus, use_rail, use_transfers, filters: Some(filters) },
        }
    }

    /// Sets or replaces the filter on routes. The other two filters, and
    /// the other options, stay as they are.
    pub fn filter_routes(self, ids: Vec<String>, action: Action) -> (r: Self)
        ensures
            r == (TransitCostingOptions {
                transit: TransitCostingOptionsInner {
                    filters: Some(
                        Filters { routes: Some(Filter { ids, action }), ..self.transit.filters_or_none() },
                    ),
                    ..self.transit
                },
            }),
    {
        let TransitCostingOptionsInner { use_bus, use_rail, use_transfers, filters } = self.transit;
        let new_filter = Filter { ids, action };
        let filters = match filters {
            Some(old) => Filters { routes: Some(new_filter), ..old },
            None => Filters { routes: Some(new_filter), operators: None, stops: None },
        };
        TransitCostingOptions {
            transit: TransitCostingOptionsInner { use_bus, use_rail, use_transfers, filters: Some(filters) },
        }
    }

    /// Sets or replaces the filter on operators. The other two filters, and
    /// the other options, stay as they are.
    pub fn filter_operators(self, ids: Vec<String>, action: Action) -> (r: Self)
        ensures
            r == (TransitCostingOptions {
                transit: TransitCostingOptionsInner {
                    filters: Some(
                        Filters {
                            operators: Some(Filter { ids, action }),
                            ..self.transit.filters_or_none()
                        },
                    ),
                    ..self.transit
                },
            }),
    {
        let TransitCostingOptionsInner { use_bus, use_rail, use_transfers, filters } = self.transit;
        let new_filter = Filter { ids, action };
        let filters = match filters {
            Some(old) => Filters { operators: Some(new_filter), ..old },
            None => Filters { routes: None, operators: Some(new_filter), stops: None },
        };
        TransitCostingOptions {
            transit: TransitCostingOptionsInner { use_bus, use_rail, use_transfers, filters: Some(filters) },
        }
    }
}

impl Default for TransitCostingOptions {
    /// The options with nothing set.
    fn default() -> (r: Self)
        ensures
            r == Self::unset(),
    {
        Self::builder()
    }
}

} // verus!
