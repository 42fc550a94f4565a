use valhalla_client::shapes::{
    decode, decode_bytes, decode_shape, encode, encode_bytes, grid_of, point_of, PolylineError,
    Precision, ShapePoint,
};

fn micro(degrees: f64) -> i64 {
    (degrees * 1e6).round() as i64
}

fn shape_of(points: &[(f64, f64)]) -> Vec<ShapePoint> {
    points.iter().map(|(lon, lat)| ShapePoint::new(micro(*lon), micro(*lat))).collect()
}

fn degrees(value: i64) -> f64 {
    value as f64 / 1e6
}

const REFERENCE: &str = "_p~iF~ps|U_ulLnnqC_mqNvxq`@";

#[test]
fn empty_text_decodes_to_empty_shape() {
    assert_eq!(decode("", Precision::Five), Ok(vec![]));
    assert_eq!(decode("", Precision::Six), Ok(vec![]));
    assert_eq!(decode_shape(""), Ok(vec![]));
    assert_eq!(decode_bytes(&[], Precision::Six), Ok(vec![]));
}

#[test]
fn empty_shape_encodes_to_empty_text() {
    assert_eq!(encode(&[], Precision::Five), Ok(String::new()));
    assert_eq!(encode(&[], Precision::Six), Ok(String::new()));
    assert_eq!(encode_bytes(&[], Precision::Six), Ok(vec![]));
}

#[test]
fn origin_encodes_to_two_question_marks() {
    let origin = shape_of(&[(0.0, 0.0)]);
    assert_eq!(encode(&origin, Precision::Five), Ok("??".to_string()));
    assert_eq!(encode(&origin, Precision::Six), Ok("??".to_string()));
    assert_eq!(decode("??", Precision::Five), Ok(vec![ShapePoint::new(0, 0)]));
}

#[test]
fn reference_vector_encodes_to_documented_text() {
    let shape = shape_of(&[(-120.2, 38.5), (-120.95, 40.7), (-126.453, 43.252)]);
    assert_eq!(encode(&shape, Precision::Five), Ok(REFERENCE.to_string()));
}

#[test]
fn reference_vector_decodes_to_documented_points() {
    let expected = [(-120.2, 38.5), (-120.95, 40.7), (-126.453, 43.252)];
    let decoded = decode(REFERENCE, Precision::Five).unwrap();
    assert_eq!(decoded.len(), 3);
    for (point, (lon, lat)) in decoded.iter().zip(expected.iter()) {
        assert!((degrees(point.lon) - lon).abs() < 0.00001);
        assert!((degrees(point.lat) - lat).abs() < 0.00001);
    }
    assert_eq!(
        decoded,
        vec![
            ShapePoint::new(-120_200_000, 38_500_000),
            ShapePoint::new(-120_950_000, 40_700_000),
            ShapePoint::new(-126_453_000, 43_252_000),
        ]
    );
}

#[test]
fn latitude_is_written_before_longitude() {
    // one grid step north of the origin, nothing east
    let north = [ShapePoint::new(0, 1)];
    assert_eq!(encode(&north, Precision::Six), Ok("A?".to_string()));
    let east = [ShapePoint::new(1, 0)];
    assert_eq!(encode(&east, Precision::Six), Ok("?A".to_string()));
    assert_eq!(decode("A?", Precision::Six), Ok(vec![ShapePoint::new(0, 1)]));
    assert_eq!(decode("?A", Precision::Six), Ok(vec![ShapePoint::new(1, 0)]));
}

#[test]
fn negative_deltas_are_folded_to_odd_values() {
    // -1 folds to 1, 1 folds to 2, -2 folds to 3
    assert_eq!(encode(&[ShapePoint::new(1, -1)], Precision::Six), Ok("@A".to_string()));
    assert_eq!(encode(&[ShapePoint::new(-2, 0)], Precision::Six), Ok("?B".to_string()));
    assert_eq!(decode("@A", Precision::Six), Ok(vec![ShapePoint::new(1, -1)]));
}

#[test]
fn values_from_sixteen_on_take_a_second_group() {
    // 15 folds to 30, the largest single group; 16 folds to 32 = group 0 flagged, then group 1
    assert_eq!(encode(&[ShapePoint::new(0, 15)], Precision::Six), Ok("]?".to_string()));
    assert_eq!(encode(&[ShapePoint::new(0, 16)], Precision::Six), Ok("_@?".to_string()));
    assert_eq!(decode("_@?", Precision::Six), Ok(vec![ShapePoint::new(0, 16)]));
}

#[test]
fn points_are_written_as_differences() {
    let shape = [ShapePoint::new(5, 7), ShapePoint::new(5, 7), ShapePoint::new(6, 5)];
    // (7, 5), then no movement, then (-2, +1)
    assert_eq!(encode(&shape, Precision::Six), Ok("MI??BA".to_string()));
    assert_eq!(decode("MI??BA", Precision::Six), Ok(shape.to_vec()));
}

#[test]
fn round_trip_is_exact_at_six_digits() {
    let shape = vec![
        ShapePoint::new(4_904_100, 52_367_600),
        ShapePoint::new(5_121_437, 52_090_713),
        ShapePoint::new(-179_999_999, -89_999_999),
        ShapePoint::new(180_000_000, 90_000_000),
        ShapePoint::new(0, 0),
    ];
    let text = encode(&shape, Precision::Six).unwrap();
    assert_eq!(decode(&text, Precision::Six), Ok(shape));
}

#[test]
fn round_trip_is_exact_for_points_on_the_five_digit_grid() {
    let shape = vec![
        ShapePoint::new(4_904_100, 52_367_600),
        ShapePoint::new(-120_950_000, 40_700_000),
        ShapePoint::new(10, -10),
    ];
    let text = encode(&shape, Precision::Five).unwrap();
    assert_eq!(decode(&text, Precision::Five), Ok(shape));
}

#[test]
fn round_trip_stays_within_half_a_step_at_five_digits() {
    let shape = vec![
        ShapePoint::new(5_121_437, 52_090_713),
        ShapePoint::new(-5_121_437, -52_090_713),
        ShapePoint::new(4, -4),
        ShapePoint::new(5, -5),
        ShapePoint::new(15, -15),
    ];
    let text = encode(&shape, Precision::Five).unwrap();
    let back = decode(&text, Precision::Five).unwrap();
    assert_eq!(
        back,
        vec![
            ShapePoint::new(5_121_440, 52_090_710),
            ShapePoint::new(-5_121_440, -52_090_710),
            ShapePoint::new(0, 0),
            ShapePoint::new(10, -10),
            ShapePoint::new(20, -20),
        ]
    );
    for (a, b) in shape.iter().zip(back.iter()) {
        assert!((a.lon - b.lon).abs() <= 5);
        assert!((a.lat - b.lat).abs() <= 5);
        assert!((degrees(a.lon) - degrees(b.lon)).abs() <= 0.5e-5 + 1e-12);
    }
}

#[test]
fn truncated_continuation_is_malformed() {
    let text = encode(&[ShapePoint::new(0, 16)], Precision::Six).unwrap();
    assert_eq!(text, "_@?");
    assert_eq!(decode("_", Precision::Six), Err(PolylineError::MalformedEncoding));
    let cut = &REFERENCE[..REFERENCE.len() - 1];
    assert_eq!(decode(cut, Precision::Five), Err(PolylineError::MalformedEncoding));
    assert_eq!(decode("_p~iF~ps|", Precision::Five), Err(PolylineError::MalformedEncoding));
}

#[test]
fn latitude_without_longitude_is_malformed() {
    assert_eq!(decode("?", Precision::Six), Err(PolylineError::MalformedEncoding));
    assert_eq!(decode("_p~iF", Precision::Five), Err(PolylineError::MalformedEncoding));
    assert_eq!(decode("???", Precision::Five), Err(PolylineError::MalformedEncoding));
}

#[test]
fn bytes_outside_the_alphabet_are_malformed() {
    assert_eq!(decode(">?", Precision::Six), Err(PolylineError::MalformedEncoding));
    assert_eq!(decode("? ", Precision::Six), Err(PolylineError::MalformedEncoding));
    assert_eq!(decode("?\u{7f}", Precision::Six), Err(PolylineError::MalformedEncoding));
    assert_eq!(decode("?\u{e9}", Precision::Six), Err(PolylineError::MalformedEncoding));
    assert_eq!(decode_bytes(&[63, 255], Precision::Six), Err(PolylineError::MalformedEncoding));
    assert_eq!(decode_bytes(&[0, 63], Precision::Six), Err(PolylineError::MalformedEncoding));
    assert_eq!(decode("~?", Precision::Six), Err(PolylineError::MalformedEncoding));
}

#[test]
fn value_beyond_32_bits_is_overflow() {
    // seven groups of all ones: 2^35 - 1
    assert_eq!(decode("~~~~~~^?", Precision::Six), Err(PolylineError::IntegerOverflow));
    // 2^32 exactly: six empty groups, then 4 in the seventh
    assert_eq!(decode("______C?", Precision::Six), Err(PolylineError::IntegerOverflow));
    // an eighth group that is not empty
    assert_eq!(decode("_______@?", Precision::Six), Err(PolylineError::IntegerOverflow));
}

#[test]
fn largest_values_decode() {
    // 2^32 - 1 folds back to -2^31; 2^32 - 2 to 2^31 - 1
    assert_eq!(
        decode("~~~~~~B?", Precision::Six),
        Ok(vec![ShapePoint::new(0, -2_147_483_648)])
    );
    assert_eq!(
        decode("?}~~~~~B", Precision::Six),
        Ok(vec![ShapePoint::new(2_147_483_647, 0)])
    );
    assert_eq!(
        decode("~~~~~~B?", Precision::Five),
        Ok(vec![ShapePoint::new(0, -21_474_836_480)])
    );
}

#[test]
fn empty_high_groups_are_read_as_zero() {
    assert_eq!(decode("_??", Precision::Six), Ok(vec![ShapePoint::new(0, 0)]));
    assert_eq!(decode("A_________?", Precision::Six), Ok(vec![ShapePoint::new(0, 1)]));
}

#[test]
fn running_sum_beyond_32_bits_is_overflow() {
    // latitude 2^31 - 1, then one step further north
    assert_eq!(decode("}~~~~~B?A?", Precision::Six), Err(PolylineError::IntegerOverflow));
    // longitude -2^31, then one step further west
    assert_eq!(decode("?~~~~~~B?@", Precision::Six), Err(PolylineError::IntegerOverflow));
}

#[test]
fn first_fault_from_the_left_decides() {
    // an overflowing latitude, then a cut-off longitude
    assert_eq!(decode("______C_", Precision::Six), Err(PolylineError::IntegerOverflow));
    // a cut-off value that would also overflow
    assert_eq!(decode("~~~~~~~~", Precision::Six), Err(PolylineError::MalformedEncoding));
}

#[test]
fn coordinate_beyond_32_bits_does_not_encode() {
    let far = [ShapePoint::new(2_147_483_648, 0)];
    assert_eq!(encode(&far, Precision::Six), Err(PolylineError::IntegerOverflow));
    assert_eq!(encode_bytes(&far, Precision::Six), Err(PolylineError::IntegerOverflow));
    assert!(encode(&far, Precision::Five).is_ok());
    let farther = [ShapePoint::new(0, i64::MIN)];
    assert_eq!(encode(&farther, Precision::Five), Err(PolylineError::IntegerOverflow));
    assert_eq!(encode(&[ShapePoint::new(i64::MAX, 0)], Precision::Five), Err(PolylineError::IntegerOverflow));
}

#[test]
fn delta_beyond_32_bits_does_not_encode() {
    let jump = [ShapePoint::new(0, 2_147_483_647), ShapePoint::new(0, -2)];
    assert_eq!(encode(&jump, Precision::Six), Err(PolylineError::IntegerOverflow));
    let edge = [ShapePoint::new(0, 2_147_483_647), ShapePoint::new(0, -1)];
    let text = encode(&edge, Precision::Six).unwrap();
    assert_eq!(decode(&text, Precision::Six), Ok(edge.to_vec()));
}

#[test]
fn extreme_grid_coordinates_round_trip() {
    let shape = [ShapePoint::new(-2_147_483_648, 2_147_483_647)];
    let text = encode(&shape, Precision::Six).unwrap();
    assert_eq!(text, "}~~~~~B~~~~~~B");
    assert_eq!(decode(&text, Precision::Six), Ok(shape.to_vec()));
}

#[test]
fn precisions_give_different_text() {
    let shape = shape_of(&[(-120.2, 38.5), (-120.95, 40.7), (-126.453, 43.252)]);
    let five = encode(&shape, Precision::Five).unwrap();
    let six = encode(&shape, Precision::Six).unwrap();
    assert_ne!(five, six);
    assert_eq!(six, "_izlhA~rlgdF_{geC~ywl@_kwzCn`{nI");
    assert_eq!(decode(&five, Precision::Five), Ok(shape.clone()));
    assert_eq!(decode(&six, Precision::Six), Ok(shape));
}

#[test]
fn wrong_precision_is_off_by_a_factor_of_ten() {
    let shape = shape_of(&[(-120.2, 38.5), (-120.95, 40.7)]);
    let six = encode(&shape, Precision::Six).unwrap();
    let misread = decode(&six, Precision::Five).unwrap();
    assert_eq!(
        misread,
        vec![
            ShapePoint::new(-1_202_000_000, 385_000_000),
            ShapePoint::new(-1_209_500_000, 407_000_000),
        ]
    );
    let five = encode(&shape, Precision::Five).unwrap();
    let shrunk = decode(&five, Precision::Six).unwrap();
    assert_eq!(
        shrunk,
        vec![ShapePoint::new(-12_020_000, 3_850_000), ShapePoint::new(-12_095_000, 4_070_000)]
    );
}

#[test]
fn rounding_to_the_grid_is_half_away_from_zero() {
    assert_eq!(grid_of(4, Precision::Five), Some(0));
    assert_eq!(grid_of(5, Precision::Five), Some(1));
    assert_eq!(grid_of(14, Precision::Five), Some(1));
    assert_eq!(grid_of(15, Precision::Five), Some(2));
    assert_eq!(grid_of(-4, Precision::Five), Some(0));
    assert_eq!(grid_of(-5, Precision::Five), Some(-1));
    assert_eq!(grid_of(-15, Precision::Five), Some(-2));
    assert_eq!(grid_of(7, Precision::Six), Some(7));
    assert_eq!(grid_of(21_474_836_474, Precision::Five), Some(2_147_483_647));
    assert_eq!(grid_of(21_474_836_475, Precision::Five), None);
    assert_eq!(grid_of(-21_474_836_484, Precision::Five), Some(-2_147_483_648));
    assert_eq!(grid_of(-21_474_836_485, Precision::Five), None);
    assert_eq!(grid_of(2_147_483_648, Precision::Six), None);
    assert_eq!(grid_of(-2_147_483_649, Precision::Six), None);
}

#[test]
fn grid_points_are_scaled_to_millionths() {
    assert_eq!(point_of(3, -4, Precision::Five), ShapePoint::new(-40, 30));
    assert_eq!(point_of(3, -4, Precision::Six), ShapePoint::new(-4, 3));
}

#[test]
fn precision_has_digits_scale_and_step() {
    assert_eq!(Precision::Five.digits(), 5);
    assert_eq!(Precision::Six.digits(), 6);
    assert_eq!(Precision::Five.scale(), 100_000);
    assert_eq!(Precision::Six.scale(), 1_000_000);
    assert_eq!(Precision::Five.step(), 10);
    assert_eq!(Precision::Six.step(), 1);
    assert_eq!(Precision::default(), Precision::Six);
}
