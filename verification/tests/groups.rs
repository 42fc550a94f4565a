use valhalla_client::shapes::groups::{read_group_at, write_group};
use valhalla_client::shapes::zigzag::{fold, unfold};
use valhalla_client::shapes::{read_delta_at, PolylineError};

#[test]
fn fold_interleaves_signs() {
    assert_eq!(fold(0), 0);
    assert_eq!(fold(-1), 1);
    assert_eq!(fold(1), 2);
    assert_eq!(fold(-2), 3);
    assert_eq!(fold(2), 4);
    assert_eq!(fold(i32::MAX), u32::MAX - 1);
    assert_eq!(fold(i32::MIN), u32::MAX);
}

#[test]
fn unfold_undoes_fold() {
    for d in [0, 1, -1, 2, -2, 15, 16, -16, 3_850_000, -12_020_000, i32::MAX, i32::MIN] {
        assert_eq!(unfold(fold(d)), d);
    }
    assert_eq!(unfold(0), 0);
    assert_eq!(unfold(1), -1);
    assert_eq!(unfold(4), 2);
    assert_eq!(unfold(u32::MAX), i32::MIN);
}

#[test]
fn write_group_appends_least_significant_group_first() {
    let mut out = vec![b'x'];
    write_group(&mut out, 0);
    assert_eq!(out, b"x?");
    write_group(&mut out, 31);
    assert_eq!(out, b"x?^");
    write_group(&mut out, 32);
    assert_eq!(out, b"x?^_@");
    let mut out = Vec::new();
    write_group(&mut out, 7_700_000);
    assert_eq!(out, b"_p~iF");
    let mut out = Vec::new();
    write_group(&mut out, u32::MAX);
    assert_eq!(out, b"~~~~~~B");
}

#[test]
fn read_group_at_reads_one_value_and_reports_the_next_index() {
    assert_eq!(read_group_at(b"_p~iF~ps|U", 0), Ok((7_700_000, 5)));
    assert_eq!(read_group_at(b"_p~iF~ps|U", 5), Ok((24_039_999, 10)));
    assert_eq!(read_group_at(b"??", 1), Ok((0, 2)));
    assert_eq!(read_group_at(b"~~~~~~B", 0), Ok((u32::MAX, 7)));
}

#[test]
fn read_group_at_reports_faults() {
    assert_eq!(read_group_at(b"", 0), Err(PolylineError::MalformedEncoding));
    assert_eq!(read_group_at(b"??", 2), Err(PolylineError::MalformedEncoding));
    assert_eq!(read_group_at(b"??", 9), Err(PolylineError::MalformedEncoding));
    assert_eq!(read_group_at(b"_p~i", 0), Err(PolylineError::MalformedEncoding));
    assert_eq!(read_group_at(b"_p>iF", 0), Err(PolylineError::MalformedEncoding));
    assert_eq!(read_group_at(b"~~~~~~C", 0), Err(PolylineError::IntegerOverflow));
}

#[test]
fn read_delta_at_unfolds_the_value() {
    assert_eq!(read_delta_at(b"_p~iF~ps|U", 0), Ok((3_850_000, 5)));
    assert_eq!(read_delta_at(b"_p~iF~ps|U", 5), Ok((-12_020_000, 10)));
    assert_eq!(read_delta_at(b"_p~iF~ps|", 5), Err(PolylineError::MalformedEncoding));
}
