use valhalla_client::costing::transit::{
    Action, Filter, Filters, TransitCostingOptions, TransitCostingOptionsInner,
};
use valhalla_client::number::Float;

fn float(value: f32) -> Float {
    Float::from_bits(value.to_bits())
}

fn value(number: Option<Float>) -> Option<f32> {
    number.map(|x| f32::from_bits(x.to_bits()))
}

fn ids(names: &[&str]) -> Vec<String> {
    names.iter().map(|name| name.to_string()).collect()
}

#[test]
fn builder_returns_default() {
    assert_eq!(TransitCostingOptions::builder(), TransitCostingOptions::default());
}

#[test]
fn use_bus_sets_value() {
    let opts = TransitCostingOptions::builder().use_bus(float(0.8));
    assert_eq!(value(opts.transit.use_bus), Some(0.8));
}

#[test]
fn use_rail_sets_value() {
    let opts = TransitCostingOptions::builder().use_rail(float(0.9));
    assert_eq!(value(opts.transit.use_rail), Some(0.9));
}

#[test]
fn use_transfers_sets_value() {
    let opts = TransitCostingOptions::builder().use_transfers(float(0.5));
    assert_eq!(value(opts.transit.use_transfers), Some(0.5));
}

#[test]
fn filter_routes_sets_value() {
    let opts =
        TransitCostingOptions::builder().filter_routes(ids(&["NYC_AUR", "NYC_BX"]), Action::Include);
    assert!(opts.transit.filters.is_some());
    let filters = opts.transit.filters.unwrap();
    assert!(filters.routes.is_some());
    let route_filter = filters.routes.unwrap();
    assert_eq!(route_filter.ids, vec!["NYC_AUR", "NYC_BX"]);
    assert_eq!(route_filter.action, Action::Include);
}

#[test]
fn filter_operators_sets_value() {
    let opts = TransitCostingOptions::builder().filter_operators(ids(&["NYC_MTA"]), Action::Exclude);
    assert!(opts.transit.filters.is_some());
    let filters = opts.transit.filters.unwrap();
    assert!(filters.operators.is_some());
    let op_filter = filters.operators.unwrap();
    assert_eq!(op_filter.ids, vec!["NYC_MTA"]);
    assert_eq!(op_filter.action, Action::Exclude);
}

#[test]
fn chaining_works() {
    let opts =
        TransitCostingOptions::builder().use_bus(float(0.7)).use_rail(float(0.9)).use_transfers(float(0.4));
    assert_eq!(value(opts.transit.use_bus), Some(0.7));
    assert_eq!(value(opts.transit.use_rail), Some(0.9));
    assert_eq!(value(opts.transit.use_transfers), Some(0.4));
}

#[test]
fn filter_stops_sets_value() {
    let opts = TransitCostingOptions::builder().filter_stops(ids(&["NYC_127"]), Action::Exclude);
    let filters = opts.transit.filters.unwrap();
    assert_eq!(filters.stops, Some(Filter { ids: ids(&["NYC_127"]), action: Action::Exclude }));
    assert_eq!(filters.routes, None);
    assert_eq!(filters.operators, None);
}

#[test]
fn a_filter_leaves_the_other_filters_and_options_alone() {
    let opts = TransitCostingOptions::builder()
        .use_bus(float(0.25))
        .filter_routes(ids(&["NYC_AUR"]), Action::Include)
        .filter_operators(ids(&["NYC_MTA"]), Action::Exclude)
        .filter_stops(ids(&["NYC_127"]), Action::Include);
    assert_eq!(value(opts.transit.use_bus), Some(0.25));
    assert_eq!(opts.transit.use_rail, None);
    let filters = opts.transit.filters.unwrap();
    assert_eq!(filters.routes, Some(Filter { ids: ids(&["NYC_AUR"]), action: Action::Include }));
    assert_eq!(filters.operators, Some(Filter { ids: ids(&["NYC_MTA"]), action: Action::Exclude }));
    assert_eq!(filters.stops, Some(Filter { ids: ids(&["NYC_127"]), action: Action::Include }));
}

#[test]
fn a_filter_set_twice_keeps_the_later_one() {
    let opts = TransitCostingOptions::builder()
        .filter_routes(ids(&["NYC_AUR"]), Action::Include)
        .filter_routes(ids(&["NYC_BX"]), Action::Exclude);
    let filters = opts.transit.filters.unwrap();
    assert_eq!(filters.routes, Some(Filter { ids: ids(&["NYC_BX"]), action: Action::Exclude }));
}

#[test]
fn filters_are_empty_until_one_is_set() {
    assert!(Filters::new().is_empty());
    let with_routes = Filters {
        routes: Some(Filter { ids: vec![], action: Action::Include }),
        operators: None,
        stops: None,
    };
    assert!(!with_routes.is_empty());
    let with_stops = Filters {
        routes: None,
        operators: None,
        stops: Some(Filter { ids: vec![], action: Action::Include }),
    };
    assert!(!with_stops.is_empty());
    let with_operators = Filters {
        routes: None,
        operators: Some(Filter { ids: vec![], action: Action::Exclude }),
        stops: None,
    };
    assert!(!with_operators.is_empty());
}

#[test]
fn action_defaults_to_include() {
    assert_eq!(Action::default(), Action::Include);
}

#[test]
fn transit_defaults_set_nothing() {
    assert_eq!(TransitCostingOptionsInner::default(), TransitCostingOptions::builder().transit);
    assert_eq!(Filters::default(), Filters::new());
    assert_eq!(Filter::default(), Filter { ids: vec![], action: Action::Include });
}
