use valhalla_client::costing::auto::{AutoCostingOptions, UsedSpeedSources};
use valhalla_client::costing::bicycle::{BicycleCostingOptions, BicycleType};
use valhalla_client::costing::motor_scooter::MotorScooterCostingOptions;
use valhalla_client::costing::multimodal::MultimodalCostingOptions;
use valhalla_client::costing::pedestrian::{PedestrianCostingOptions, PedestrianType};
use valhalla_client::costing::transit::TransitCostingOptions;
use valhalla_client::costing::truck::TruckCostingOptions;
use valhalla_client::costing::{speed_fits, Costing};
use valhalla_client::number::{Double, Float};

fn float(value: f32) -> Float {
    Float::from_bits(value.to_bits())
}

#[test]
fn numbers_keep_their_bits() {
    assert_eq!(Float::from_bits(0x3f4c_cccd).to_bits(), 0x3f4c_cccd);
    assert_eq!(f32::from_bits(float(0.8).to_bits()), 0.8);
    assert_eq!(f64::from_bits(Double::from_bits(2.5f64.to_bits()).to_bits()), 2.5);
    assert_eq!(float(1.5), float(1.5));
    assert_ne!(float(0.0), float(-0.0));
    assert_eq!(Float::from_bits(f32::NAN.to_bits()), Float::from_bits(f32::NAN.to_bits()));
}

#[test]
fn auto_builder_sets_nothing() {
    let opts = AutoCostingOptions::builder();
    assert_eq!(opts, AutoCostingOptions::default());
    assert_eq!(opts.gate_cost, None);
    assert_eq!(opts.shortest, None);
    assert_eq!(opts.speed_types, None);
    assert_eq!(opts.include_hot, None);
}

#[test]
fn auto_setters_set_their_own_field_only() {
    let opts = AutoCostingOptions::builder().gate_cost(float(30.0)).fixed_speed(80).include_hov2(false);
    assert_eq!(opts.gate_cost, Some(float(30.0)));
    assert_eq!(opts.fixed_speed, Some(80));
    assert_eq!(opts.include_hov2, Some(false));
    let rest = AutoCostingOptions { gate_cost: None, fixed_speed: None, include_hov2: None, ..opts };
    assert_eq!(rest, AutoCostingOptions::builder());
}

#[test]
fn auto_flags_are_set_to_true() {
    let opts = AutoCostingOptions::builder()
        .only_consider_quasi_shortest()
        .disable_hierarchy_pruning()
        .ignore_closures()
        .ignore_restrictions()
        .ignore_oneways()
        .ignore_non_vehicular_restrictions()
        .ignore_access()
        .exclude_unpaved();
    assert_eq!(opts.shortest, Some(true));
    assert_eq!(opts.disable_hierarchy_pruning, Some(true));
    assert_eq!(opts.ignore_closures, Some(true));
    assert_eq!(opts.ignore_restrictions, Some(true));
    assert_eq!(opts.ignore_oneways, Some(true));
    assert_eq!(opts.ignore_non_vehicular_restrictions, Some(true));
    assert_eq!(opts.ignore_access, Some(true));
    assert_eq!(opts.exclude_unpaved, Some(true));
}

#[test]
fn speed_types_all_clears_the_choice() {
    let chosen = AutoCostingOptions::builder().speed_types(UsedSpeedSources::Predicted);
    assert_eq!(chosen.speed_types, Some(UsedSpeedSources::Predicted));
    let cleared = chosen.speed_types(UsedSpeedSources::All);
    assert_eq!(cleared.speed_types, None);
    assert_eq!(AutoCostingOptions::builder().speed_types(UsedSpeedSources::All).speed_types, None);
    let scooter = MotorScooterCostingOptions::builder().speed_types(UsedSpeedSources::Current);
    assert_eq!(scooter.speed_types, Some(UsedSpeedSources::Current));
    assert_eq!(scooter.speed_types(UsedSpeedSources::All).speed_types, None);
    for source in [
        UsedSpeedSources::Freeflow,
        UsedSpeedSources::Constrained,
        UsedSpeedSources::Predicted,
        UsedSpeedSources::Current,
    ] {
        assert_eq!(AutoCostingOptions::builder().speed_types(source).speed_types, Some(source));
    }
}

#[test]
fn motor_scooter_has_its_own_options() {
    let opts = MotorScooterCostingOptions::builder().use_primary(float(0.3)).use_hills(float(0.9));
    assert_eq!(opts.use_primary, Some(float(0.3)));
    assert_eq!(opts.use_hills, Some(float(0.9)));
    assert_eq!(opts.use_ferry, None);
    assert_eq!(MotorScooterCostingOptions::builder(), MotorScooterCostingOptions::default());
}

#[test]
fn truck_has_its_own_options() {
    let opts = TruckCostingOptions::builder()
        .length(float(21.64))
        .weight(float(21.77))
        .axle_load(float(9.07))
        .axle_count(5)
        .carries_hazardous_materials()
        .hgv_no_access_penalty(float(43200.0))
        .low_class_penalty(float(30.0))
        .use_truck_route(float(0.5));
    assert_eq!(opts.length, Some(float(21.64)));
    assert_eq!(opts.weight, Some(float(21.77)));
    assert_eq!(opts.axle_load, Some(float(9.07)));
    assert_eq!(opts.axle_count, Some(5));
    assert_eq!(opts.hazmat, Some(true));
    assert_eq!(opts.hgv_no_access_penalty, Some(float(43200.0)));
    assert_eq!(opts.low_class_penalty, Some(float(30.0)));
    assert_eq!(opts.use_truck_route, Some(float(0.5)));
    assert_eq!(opts.top_speed, None);
    assert_eq!(TruckCostingOptions::builder(), TruckCostingOptions::default());
}

#[test]
fn pedestrian_options_are_set() {
    let opts = PedestrianCostingOptions::builder()
        .walking_speed(float(5.1))
        .type_(PedestrianType::Blind)
        .only_consider_quasi_shortest()
        .max_hiking_difficulty(float(3.0));
    assert_eq!(opts.walking_speed, Some(float(5.1)));
    assert_eq!(opts.type_, Some(PedestrianType::Blind));
    assert_eq!(opts.shortest, Some(true));
    assert_eq!(opts.max_hiking_difficulty, Some(float(3.0)));
    assert_eq!(opts.mode_factor, None);
    assert_eq!(PedestrianType::default(), PedestrianType::Foot);
    assert_eq!(PedestrianCostingOptions::builder(), PedestrianCostingOptions::default());
}

#[test]
fn bicycle_options_are_set() {
    let opts = BicycleCostingOptions::builder()
        .bicycle_type(BicycleType::Mountain)
        .cycling_speed(float(16.0))
        .avoid_bad_surfaces(float(0.25))
        .only_consider_quasi_shortest();
    assert_eq!(opts.bicycle_type, Some(BicycleType::Mountain));
    assert_eq!(opts.cycling_speed, Some(float(16.0)));
    assert_eq!(opts.avoid_bad_surfaces, Some(float(0.25)));
    assert_eq!(opts.shortest, Some(true));
    assert_eq!(opts.use_roads, None);
    assert_eq!(BicycleType::default(), BicycleType::Hybrid);
    assert_eq!(BicycleCostingOptions::builder(), BicycleCostingOptions::default());
}

#[test]
fn multimodal_takes_the_options_of_both_modes() {
    let empty = MultimodalCostingOptions::builder();
    assert_eq!(empty, MultimodalCostingOptions::default());
    assert_eq!(empty.pedestrian, None);
    assert_eq!(empty.transit, None);
    let transit = TransitCostingOptions::builder().use_bus(float(0.8));
    let pedestrian = PedestrianCostingOptions::builder().walking_speed(float(4.0));
    let opts = MultimodalCostingOptions::builder().transit(transit.clone()).pedestrian(pedestrian.clone());
    assert_eq!(opts.transit, Some(transit.transit));
    assert_eq!(opts.pedestrian, Some(pedestrian));
}

#[test]
fn multimodal_setters_leave_the_other_mode_alone() {
    let transit = TransitCostingOptions::builder().use_rail(float(1.0));
    let only_transit = MultimodalCostingOptions::builder().transit(transit.clone());
    assert_eq!(only_transit.pedestrian, None);
    assert_eq!(only_transit.transit, Some(transit.transit));
    let pedestrian = PedestrianCostingOptions::builder().use_lit(float(0.5));
    let only_pedestrian = MultimodalCostingOptions::builder().pedestrian(pedestrian.clone());
    assert_eq!(only_pedestrian.transit, None);
    assert_eq!(only_pedestrian.pedestrian, Some(pedestrian));
}

#[test]
fn costing_defaults_to_the_car() {
    assert_eq!(Costing::default(), Costing::Auto(AutoCostingOptions::builder()));
}

#[test]
fn fixed_speed_fits_from_1_to_252() {
    assert!(speed_fits(None));
    assert!(!speed_fits(Some(0)));
    assert!(speed_fits(Some(1)));
    assert!(speed_fits(Some(80)));
    assert!(speed_fits(Some(252)));
    assert!(!speed_fits(Some(253)));
    assert!(!speed_fits(Some(u32::MAX)));
}
