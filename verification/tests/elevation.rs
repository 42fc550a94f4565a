use valhalla_client::elevation::{HeightPrecision, Manifest, ShapeFormat};
use valhalla_client::number::Double;
use valhalla_client::shapes;
use valhalla_client::shapes::{Precision, ShapePoint};
use valhalla_client::status;
use valhalla_client::time::{naive_date_time_text, MINUTE_PATTERN};

#[test]
fn elevation_builder_sets_nothing() {
    let manifest = Manifest::builder();
    assert_eq!(manifest, Manifest::default());
    assert_eq!(manifest.id, None);
    assert_eq!(manifest.height_precision, None);
    assert_eq!(manifest.range, None);
    assert_eq!(manifest.resample_distance, None);
    assert_eq!(manifest.shape, None);
    assert_eq!(manifest.encoded_polyline, None);
    assert_eq!(manifest.shape_format, None);
    assert!(manifest.is_consistent());
    assert_eq!(manifest.precision(), Precision::Six);
}

#[test]
fn elevation_manifest_takes_encoded_text() {
    let manifest = Manifest::builder()
        .id("some_id")
        .height_precision(HeightPrecision::OneDecimalPlace)
        .include_range()
        .encoded_polyline("polyline")
        .shape_format(ShapeFormat::Polyline6);
    assert_eq!(manifest.id, Some("some_id".to_string()));
    assert_eq!(manifest.height_precision, Some(HeightPrecision::OneDecimalPlace));
    assert_eq!(manifest.range, Some(true));
    assert_eq!(manifest.encoded_polyline, Some("polyline".to_string()));
    assert_eq!(manifest.shape_format, Some(ShapeFormat::Polyline6));
    assert_eq!(manifest.shape, None);
    assert!(manifest.is_consistent());
}

#[test]
fn elevation_manifest_takes_points() {
    let shape = vec![ShapePoint::new(-76_504_916, 40_712_431), ShapePoint::new(-76_605_259, 40_712_275)];
    let manifest = Manifest::builder()
        .shape(shape.clone())
        .resample_distance(Double::from_bits(10.0f64.to_bits()));
    assert_eq!(manifest.shape, Some(shape));
    assert_eq!(manifest.resample_distance, Some(Double::from_bits(10.0f64.to_bits())));
    assert!(manifest.is_consistent());
}

#[test]
fn points_and_encoded_text_together_are_told_apart() {
    let both = Manifest::builder().shape(vec![]).encoded_polyline("??");
    assert!(!both.is_consistent());
    let with_format = Manifest::builder().shape(vec![]).shape_format(ShapeFormat::Polyline5);
    assert!(!with_format.is_consistent());
    let text_only = Manifest::builder().encoded_polyline("??").shape_format(ShapeFormat::Polyline5);
    assert!(text_only.is_consistent());
}

#[test]
fn elevation_precision_follows_the_shape_format() {
    assert_eq!(ShapeFormat::Polyline6.precision(), Precision::Six);
    assert_eq!(ShapeFormat::Polyline5.precision(), Precision::Five);
    assert_eq!(ShapeFormat::default(), ShapeFormat::Polyline6);
    assert_eq!(HeightPrecision::default(), HeightPrecision::ZeroDecimalPlaces);
    let five = Manifest::builder().shape_format(ShapeFormat::Polyline5);
    assert_eq!(five.precision(), Precision::Five);
}

#[test]
fn shape_format_of_a_connection_has_a_precision_where_it_is_text() {
    assert_eq!(shapes::ShapeFormat::Polyline6.precision(), Some(Precision::Six));
    assert_eq!(shapes::ShapeFormat::Polyline5.precision(), Some(Precision::Five));
    assert_eq!(shapes::ShapeFormat::GeoJSON.precision(), None);
    assert_eq!(shapes::ShapeFormat::NoShape.precision(), None);
}

#[test]
fn status_manifest_takes_verbose() {
    assert_eq!(status::Manifest::builder(), status::Manifest::default());
    assert_eq!(status::Manifest::builder().verbose, None);
    assert_eq!(status::Manifest::builder().verbose_output(true).verbose, Some(true));
    assert_eq!(status::Manifest::builder().verbose_output(false).verbose, Some(false));
}

#[test]
fn date_and_time_are_written_to_the_minute() {
    let value = chrono::NaiveDate::from_ymd_opt(2024, 11, 7).unwrap().and_hms_opt(15, 26, 59).unwrap();
    assert_eq!(naive_date_time_text(&Some(value)), Some("2024-11-07T15:26".to_string()));
    assert_eq!(naive_date_time_text(&None), None);
    assert_eq!(MINUTE_PATTERN, "%Y-%m-%dT%H:%M");
    let early = chrono::NaiveDate::from_ymd_opt(987, 1, 2).unwrap().and_hms_opt(3, 4, 5).unwrap();
    assert_eq!(naive_date_time_text(&Some(early)), Some("0987-01-02T03:04".to_string()));
}
