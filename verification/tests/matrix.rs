use valhalla_client::costing::auto::AutoCostingOptions;
use valhalla_client::costing::pedestrian::PedestrianCostingOptions;
use valhalla_client::costing::Costing;
use valhalla_client::matrix::{Location, Manifest, VerboseLocation};
use valhalla_client::number::Float;
use valhalla_client::shapes::ShapeFormat;
use valhalla_client::{DateTime, MatrixDateTimeType};

fn float(value: f32) -> Float {
    Float::from_bits(value.to_bits())
}

fn evening() -> chrono::NaiveDateTime {
    chrono::NaiveDate::from_ymd_opt(2024, 11, 7).unwrap().and_hms_opt(15, 26, 0).unwrap()
}

#[test]
fn matrix_builder_sets_nothing() {
    let manifest = Manifest::builder();
    assert_eq!(manifest, Manifest::default());
    assert!(manifest.sources.is_empty());
    assert!(manifest.targets.is_empty());
    assert_eq!(manifest.costing, Costing::Auto(AutoCostingOptions::builder()));
    assert_eq!(manifest.id, None);
    assert_eq!(manifest.matrix_locations, None);
    assert_eq!(manifest.date_time, None);
    assert_eq!(manifest.verbose, None);
    assert_eq!(manifest.shape_format, None);
    assert!(!manifest.is_complete());
}

#[test]
fn matrix_manifest_takes_its_options() {
    let amsterdam = Location::new(float(4.9041), float(52.3676));
    let utrecht = Location::new(float(5.1214), float(52.0907));
    let rotterdam = Location::new(float(4.47753), float(51.92486));
    let manifest = Manifest::builder()
        .verbose_output(true)
        .sources_to_targets(vec![utrecht], vec![amsterdam, rotterdam])
        .date_time(DateTime::from_arrival_time(evening()))
        .costing(Costing::Pedestrian(PedestrianCostingOptions::builder()))
        .id("matrix")
        .minimum_matrix_locations_count(2)
        .shape_format(ShapeFormat::Polyline5);
    assert_eq!(manifest.sources, vec![utrecht]);
    assert_eq!(manifest.targets, vec![amsterdam, rotterdam]);
    assert_eq!(manifest.verbose, Some(true));
    assert_eq!(
        manifest.date_time,
        Some(DateTime { type_: MatrixDateTimeType::SpecifiedArrival, value: evening() })
    );
    assert_eq!(manifest.costing, Costing::Pedestrian(PedestrianCostingOptions::builder()));
    assert_eq!(manifest.id, Some("matrix".to_string()));
    assert_eq!(manifest.matrix_locations, Some(2));
    assert_eq!(manifest.shape_format, Some(ShapeFormat::Polyline5));
    assert!(manifest.is_complete());
}

#[test]
fn matrix_needs_a_source_and_a_target() {
    let here = Location::new(float(1.0), float(2.0));
    assert!(!Manifest::builder().sources_to_targets(vec![here], vec![]).is_complete());
    assert!(!Manifest::builder().sources_to_targets(vec![], vec![here]).is_complete());
    assert!(Manifest::builder().sources_to_targets(vec![here], vec![here]).is_complete());
}

#[test]
fn matrix_location_reads_longitude_first() {
    let location = Location::new(float(4.9041), float(52.3676));
    assert_eq!(location.lon, float(4.9041));
    assert_eq!(location.lat, float(52.3676));
    assert_eq!(location.date_time, None);
    assert_eq!(Location::from((float(4.9041), float(52.3676))), location);
    assert_eq!(location.date_time(evening()).date_time, Some(evening()));
    assert_eq!(Location::default(), Location::new(float(0.0), float(0.0)));
}

#[test]
fn locations_convert_both_ways() {
    let location = Location::new(float(4.9041), float(52.3676)).date_time(evening());
    let verbose = VerboseLocation::from(location);
    assert_eq!(
        verbose,
        VerboseLocation { lat: float(52.3676), lon: float(4.9041), date_time: Some(evening()) }
    );
    assert_eq!(Location::from(verbose), location);
    assert_eq!(VerboseLocation::default(), VerboseLocation::from(Location::default()));
}
