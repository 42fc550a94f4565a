//! Compact text encoding of coordinate sequences.
//!
//! A shape is written point by point, latitude before longitude. Each
//! coordinate is put on the grid of the chosen precision, the difference to
//! the same coordinate of the point before is folded to a natural number
//! ([`zigzag`]) and written in groups of five bits ([`groups`]). The text
//! carries no mark of its precision: both sides have to know it.
//!
//! Coordinates are fixed-point numbers, in millionths of a degree.

use vstd::prelude::*;
use vstd::string::*;

pub mod groups;
pub mod laws;
pub mod zigzag;

use crate::shapes::groups::{group_bytes, read_group, read_group_at, write_group};
use crate::shapes::zigzag::{fold, unfold, unzigzag, zigzag};

verus! {

/// Why a shape could not be decoded or encoded.
#[derive(Clone, Copy, Debug, PartialEq, Eq, Structural)]
pub enum PolylineError {
    /// The text ends inside a value, ends between the two values of a
    /// point, or holds a byte outside `'?'..='~'`.
    MalformedEncoding,
    /// A value, a delta or a running sum leaves the 32-bit range.
    IntegerOverflow,
}

/// How many decimal digits of a degree an encoded shape keeps.
#[derive(Clone, Copy, Debug, PartialEq, Eq, Structural)]
pub enum Precision {
    /// Five digits: one grid step is a hundred-thousandth of a degree.
    Five,
    /// Six digits: one grid step is a millionth of a degree.
    Six,
}

impl Precision {
    /// Number of decimal digits kept.
    pub open spec fn spec_digits(self) -> u32 {
        match self {
            Precision::Five => 5,
            Precision::Six => 6,
        }
    }

    /// Grid steps per degree, `10^digits`.
    pub open spec fn spec_scale(self) -> u32 {
        match self {
            Precision::Five => 100_000,
            Precision::Six => 1_000_000,
        }
    }

    /// Millionths of a degree per grid step.
    pub open spec fn spec_step(self) -> i64 {
        match self {
            Precision::Five => 10,
            Precision::Six => 1,
        }
    }

    /// Half a grid step in millionths of a degree, rounded down: how far
    /// rounding to the grid can move a coordinate.
    pub open spec fn spec_tolerance(self) -> int {
        match self {
            Precision::Five => 5,
            Precision::Six => 0,
        }
    }

    /// Number of decimal digits kept.
    #[verifier::when_used_as_spec(spec_digits)]
    pub fn digits(self) -> (d: u32)
        ensures
            d == self.spec_digits(),
    {
        match self {
            Precision::Five => 5,
            Precision::Six => 6,
        }
    }

    /// Grid steps per degree.
    #[verifier::when_used_as_spec(spec_scale)]
    pub fn scale(self) -> (f: u32)
        ensures
            f == self.spec_scale(),
    {
        match self {
            Precision::Five => 100_000,
            Precision::Six => 1_000_000,
        }
    }

    /// Millionths of a degree per grid step.
    #[verifier::when_used_as_spec(spec_step)]
    pub fn step(self) -> (s: i64)
        ensures
            s == self.spec_step(),
    {
        match self {
            Precision::Five => 10,
            Precision::Six => 1,
        }
    }
}

/// How the shape of a connection is written in an answer.
#[derive(Clone, Copy, Debug, PartialEq, Eq, Structural)]
pub enum ShapeFormat {
    /// Encoded text at six digits.
    Polyline6,
    /// Encoded text at five digits.
    Polyline5,
    /// A GeoJSON line.
    GeoJSON,
    /// No shape at all.
    NoShape,
}

impl ShapeFormat {
    /// The precision of the encoded text, where the shape is encoded text.
    pub open spec fn spec_precision(self) -> Option<Precision> {
        match self {
            ShapeFormat::Polyline6 => Some(Precision::Six),
            ShapeFormat::Polyline5 => Some(Precision::Five),
            ShapeFormat::GeoJSON => None,
            ShapeFormat::NoShape => None,
        }
    }

    /// The precision of the encoded text, where the shape is encoded text.
    #[verifier::when_used_as_spec(spec_precision)]
    pub fn precision(self) -> (p: Option<Precision>)
        ensures
            p == self.spec_precision(),
    {
        match self {
            ShapeFormat::Polyline6 => Some(Precision::Six),
            ShapeFormat::Polyline5 => Some(Precision::Five),
            ShapeFormat::GeoJSON => None,
            ShapeFormat::NoShape => None,
        }
    }
}

impl Default for Precision {
    /// Six digits, the precision assumed where none was agreed on.
    fn default() -> (p: Precision)
        ensures
            p == Precision::Six,
    {
        Precision::Six
    }
}

/// A point of a shape, in millionths of a degree.
#[derive(Clone, Copy, Debug, PartialEq, Eq, Structural)]
pub struct ShapePoint {
    /// Longitude in millionths of a degree.
    pub lon: i64,
    /// Latitude in millionths of a degree.
    pub lat: i64,
}

impl ShapePoint {
    /// The point at the given longitude and latitude, both in millionths of
    /// a degree.
    pub fn new(lon: i64, lat: i64) -> (p: ShapePoint)
        ensures
            p == (ShapePoint { lon, lat }),
    {
        ShapePoint { lon, lat }
    }
}

/// Whether `v` fits the 32-bit accumulator of the format.
pub open spec fn fits(v: int) -> bool {
    i32::MIN <= v <= i32::MAX
}

/// The grid coordinate nearest to `m` millionths of a degree; halves are
/// rounded away from zero.
pub open spec fn to_grid(m: int, precision: Precision) -> int {
    match precision {
        Precision::Six => m,
        Precision::Five => if m >= 0 {
            (m + 5) / 10
        } else {
            -((5 - m) / 10)
        },
    }
}

/// The grid coordinate `g` in millionths of a degree.
pub open spec fn from_grid(g: int, precision: Precision) -> int {
    match precision {
        Precision::Five => g * 10,
        Precision::Six => g,
    }
}

/// `m` rounded to the grid of `precision`.
pub open spec fn snap(m: int, precision: Precision) -> int {
    from_grid(to_grid(m, precision), precision)
}

/// `point` with both coordinates rounded to the grid of `precision`.
pub open spec fn snap_point(point: ShapePoint, precision: Precision) -> ShapePoint
    recommends
        fits(to_grid(point.lon as int, precision)),
        fits(to_grid(point.lat as int, precision)),
{
    ShapePoint {
        lon: snap(point.lon as int, precision) as i64,
        lat: snap(point.lat as int, precision) as i64,
    }
}

/// Grid latitude of point `i`; the point before the first is the origin.
pub open spec fn grid_lat(shape: Seq<ShapePoint>, i: int, precision: Precision) -> int {
    if 0 <= i < shape.len() {
        to_grid(shape[i].lat as int, precision)
    } else {
        0
    }
}

/// Grid longitude of point `i`; the point before the first is the origin.
pub open spec fn grid_lon(shape: Seq<ShapePoint>, i: int, precision: Precision) -> int {
    if 0 <= i < shape.len() {
        to_grid(shape[i].lon as int, precision)
    } else {
        0
    }
}

/// Whether point `i` can be written: its grid coordinates and their
/// differences to the point before all fit 32 bits.
pub open spec fn encodable_at(shape: Seq<ShapePoint>, i: int, precision: Precision) -> bool {
    &&& fits(grid_lat(shape, i, precision))
    &&& fits(grid_lon(shape, i, precision))
    &&& fits(grid_lat(shape, i, precision) - grid_lat(shape, i - 1, precision))
    &&& fits(grid_lon(shape, i, precision) - grid_lon(shape, i - 1, precision))
}

/// Whether every point of `shape` can be written.
pub open spec fn encodable(shape: Seq<ShapePoint>, precision: Precision) -> bool {
    forall|i: int| 0 <= i < shape.len() ==> encodable_at(shape, i, precision)
}

/// The bytes of point `i`: its latitude delta, then its longitude delta.
pub open spec fn point_bytes(shape: Seq<ShapePoint>, i: int, precision: Precision) -> Seq<u8> {
    group_bytes(zigzag(grid_lat(shape, i, precision) - grid_lat(shape, i - 1, precision)))
        + group_bytes(zigzag(grid_lon(shape, i, precision) - grid_lon(shape, i - 1, precision)))
}

/// The bytes of the first `n` points of `shape`.
pub open spec fn encoded_prefix(shape: Seq<ShapePoint>, n: nat, precision: Precision) -> Seq<u8>
    decreases n,
{
    if n == 0 {
        Seq::empty()
    } else {
        encoded_prefix(shape, (n - 1) as nat, precision) + point_bytes(shape, n - 1, precision)
    }
}

/// What encoding `shape` gives: its bytes, or `IntegerOverflow` where some
/// point cannot be written.
pub open spec fn encode_spec(shape: Seq<ShapePoint>, precision: Precision) -> Result<
    Seq<u8>,
    PolylineError,
> {
    if encodable(shape, precision) {
        Ok(encoded_prefix(shape, shape.len(), precision))
    } else {
        Err(PolylineError::IntegerOverflow)
    }
}

/// Reads one delta at index `i`: the delta and the index behind it.
pub open spec fn read_delta(s: Seq<u8>, i: int) -> Result<(int, int), PolylineError> {
    match read_group(s, i) {
        None => Err(PolylineError::MalformedEncoding),
        Some((v, next)) => if v > u32::MAX {
            Err(PolylineError::IntegerOverflow)
        } else {
            Ok((unzigzag(v), next))
        },
    }
}

/// The point with the given grid coordinates.
pub open spec fn grid_point(lat: int, lon: int, precision: Precision) -> ShapePoint {
    ShapePoint { lon: from_grid(lon, precision) as i64, lat: from_grid(lat, precision) as i64 }
}

/// `head` followed by what `rest` decoded to, or the error of `rest`.
pub open spec fn prepend(head: Seq<ShapePoint>, rest: Result<Seq<ShapePoint>, PolylineError>) -> Result<
    Seq<ShapePoint>,
    PolylineError,
> {
    match rest {
        Ok(points) => Ok(head + points),
        Err(e) => Err(e),
    }
}

/// What decoding gives from index `i` on, where the point before stands at
/// grid coordinates `lat` and `lon`. The first fault met from the left
/// decides the error.
pub open spec fn decode_from(s: Seq<u8>, i: int, lat: int, lon: int, precision: Precision) -> Result<
    Seq<ShapePoint>,
    PolylineError,
>
    decreases s.len() - i,
    via decode_from_decreases
{
    if i >= s.len() {
        Ok(Seq::empty())
    } else {
        match read_delta(s, i) {
            Err(e) => Err(e),
            Ok((dlat, mid)) => if !fits(lat + dlat) {
                Err(PolylineError::IntegerOverflow)
            } else {
                match read_delta(s, mid) {
                    Err(e) => Err(e),
                    Ok((dlon, next)) => if !fits(lon + dlon) {
                        Err(PolylineError::IntegerOverflow)
                    } else {
                        prepend(
                            seq![grid_point(lat + dlat, lon + dlon, precision)],
                            decode_from(s, next, lat + dlat, lon + dlon, precision),
                        )
                    },
                }
            },
        }
    }
}

#[via_fn]
proof fn decode_from_decreases(s: Seq<u8>, i: int, lat: int, lon: int, precision: Precision) {
    if i < s.len() {
        if let Ok((dlat, mid)) = read_delta(s, i) {
            groups::lemma_read_group_extent(s, i);
            if let Ok((dlon, next)) = read_delta(s, mid) {
                groups::lemma_read_group_extent(s, mid);
            }
        }
    }
}

/// What decoding `s` gives: its points, or the first fault met.
pub open spec fn decode_spec(s: Seq<u8>, precision: Precision) -> Result<Seq<ShapePoint>, PolylineError> {
    decode_from(s, 0, 0, 0, precision)
}

/// The text whose characters are the given bytes, one for one.
pub open spec fn text_of(bytes: Seq<u8>) -> Seq<char> {
    Seq::new(bytes.len(), |k: int| bytes[k] as char)
}

/// `String::push` of the standard library: the character is appended at the
/// end, and nothing else changes.
pub assume_specification[ String::push ](text: &mut String, c: char)
    ensures
        final(text)@ == old(text)@.push(c),
;

/// The grid coordinate nearest to `m` millionths of a degree, or `None`
/// where it does not fit 32 bits.
pub fn grid_of(m: i64, precision: Precision) -> (g: Option<i32>)
    ensures
        fits(to_grid(m as int, precision)) ==> g == Some(to_grid(m as int, precision) as i32),
        !fits(to_grid(m as int, precision)) ==> g is None,
{
    match precision {
        Precision::Six => {
            if m < -2_147_483_648 || m > 2_147_483_647 {
                None
            } else {
                Some(m as i32)
            }
        },
        Precision::Five => {
            if m >= 0 {
                if m > 21_474_836_474 {
                    None
                } else {
                    Some(((m + 5) / 10) as i32)
                }
            } else {
                if m < -21_474_836_484 {
                    None
                } else {
                    let magnitude: i64 = (5 - m) / 10;
                    Some((-magnitude) as i32)
                }
            }
        },
    }
}

/// The point with the given grid coordinates.
pub fn point_of(lat: i32, lon: i32, precision: Precision) -> (p: ShapePoint)
    ensures
        p == grid_point(lat as int, lon as int, precision),
{
    match precision {
        Precision::Five => ShapePoint { lon: lon as i64 * 10, lat: lat as i64 * 10 },
        Precision::Six => ShapePoint { lon: lon as i64, lat: lat as i64 },
    }
}

/// Encodes `shape` at `precision` as bytes.
///
/// Each coordinate is rounded to the grid; the result is
/// `IntegerOverflow` where a grid coordinate, or its difference to the
/// point before, does not fit 32 bits.
pub fn encode_bytes(shape: &[ShapePoint], precision: Precision) -> (r: Result<Vec<u8>, PolylineError>)
    ensures
        encode_spec(shape@, precision) matches Ok(bytes) ==> r matches Ok(out) && out@ == bytes,
        encode_spec(shape@, precision) matches Err(e) ==> r matches Err(f) && f == e,
{
    let mut out: Vec<u8> = Vec::new();
    let mut lat: i32 = 0;
    let mut lon: i32 = 0;
    let mut i: usize = 0;
    while i < shape.len()
        invariant
            i <= shape.len(),
            forall|k: int| 0 <= k < i ==> encodable_at(shape@, k, precision),
            out@ == encoded_prefix(shape@, i as nat, precision),
            lat == grid_lat(shape@, i - 1, precision),
            lon == grid_lon(shape@, i - 1, precision),
        decreases shape.len() - i,
    {
        let point: ShapePoint = shape[i];
        let grid_lat: i32 = match grid_of(point.lat, precision) {
            Some(g) => g,
            None => {
                assert(!encodable_at(shape@, i as int, precision));
                return Err(PolylineError::IntegerOverflow);
            },
        };
        let grid_lon: i32 = match grid_of(point.lon, precision) {
            Some(g) => g,
            None => {
                assert(!encodable_at(shape@, i as int, precision));
                return Err(PolylineError::IntegerOverflow);
            },
        };
        let delta_lat: i32 = match grid_lat.checked_sub(lat) {
            Some(d) => d,
            None => {
                assert(!encodable_at(shape@, i as int, precision));
                return Err(PolylineError::IntegerOverflow);
            },
        };
        let delta_lon: i32 = match grid_lon.checked_sub(lon) {
            Some(d) => d,
            None => {
                assert(!encodable_at(shape@, i as int, precision));
                return Err(PolylineError::IntegerOverflow);
            },
        };
        let ghost before = out@;
        write_group(&mut out, fold(delta_lat));
        write_group(&mut out, fold(delta_lon));
        assert(out@ == before + point_bytes(shape@, i as int, precision));
        lat = grid_lat;
        lon = grid_lon;
        i += 1;
    }
    Ok(out)
}

/// Encodes `shape` at `precision` as text.
pub fn encode(shape: &[ShapePoint], precision: Precision) -> (r: Result<String, PolylineError>)
    ensures
        encode_spec(shape@, precision) matches Ok(bytes) ==> r matches Ok(text) && text@ == text_of(
            bytes,
        ),
        encode_spec(shape@, precision) matches Err(e) ==> r matches Err(f) && f == e,
{
    match encode_bytes(shape, precision) {
        Ok(bytes) => {
            let mut text: String = String::new();
            let mut k: usize = 0;
            while k < bytes.len()
                invariant
                    k <= bytes.len(),
                    text@ == text_of(bytes@.take(k as int)),
                decreases bytes.len() - k,
            {
                text.push(bytes[k] as char);
                assert(text@ == text_of(bytes@.take(k + 1)));
                k += 1;
            }
            assert(bytes@.take(k as int) == bytes@);
            Ok(text)
        },
        Err(e) => Err(e),
    }
}

/// Reads one delta at index `start` of `bytes`, and says where the next
/// one starts.
pub fn read_delta_at(bytes: &[u8], start: usize) -> (r: Result<(i32, usize), PolylineError>)
    ensures
        read_delta(bytes@, start as int) matches Ok((delta, next)) ==> r == Ok::<
            (i32, usize),
            PolylineError,
        >((delta as i32, next as usize)) && fits(delta) && start < next <= bytes.len(),
        read_delta(bytes@, start as int) matches Err(e) ==> r == Err::<(i32, usize), PolylineError>(e),
{
    match read_group_at(bytes, start) {
        Ok((folded, next)) => {
            proof {
                groups::lemma_read_group_extent(bytes@, start as int);
            }
            Ok((unfold(folded), next))
        },
        Err(e) => Err(e),
    }
}

/// Decodes the bytes of a shape written at `precision`.
///
/// The whole input is read. The result is `MalformedEncoding` where it ends
/// inside a value or between the latitude and the longitude of a point, or
/// holds a byte outside `'?'..='~'`, and `IntegerOverflow` where a value or
/// a running sum does not fit 32 bits; the first fault from the left
/// decides.
pub fn decode_bytes(bytes: &[u8], precision: Precision) -> (r: Result<Vec<ShapePoint>, PolylineError>)
    ensures
        decode_spec(bytes@, precision) matches Ok(points) ==> r matches Ok(out) && out@ == points,
        decode_spec(bytes@, precision) matches Err(e) ==> r matches Err(f) && f == e,
{
    let mut out: Vec<ShapePoint> = Vec::new();
    let mut lat: i32 = 0;
    let mut lon: i32 = 0;
    let mut i: usize = 0;
    while i < bytes.len()
        invariant
            decode_spec(bytes@, precision) == prepend(
                out@,
                decode_from(bytes@, i as int, lat as int, lon as int, precision),
            ),
        decreases bytes.len() - i,
    {
        let ghost here = decode_from(bytes@, i as int, lat as int, lon as int, precision);
        let (delta_lat, mid) = match read_delta_at(bytes, i) {
            Ok(read) => read,
            Err(e) => {
                assert(here == Err::<Seq<ShapePoint>, PolylineError>(e));
                return Err(e);
            },
        };
        let new_lat: i32 = match lat.checked_add(delta_lat) {
            Some(sum) => sum,
            None => {
                assert(here == Err::<Seq<ShapePoint>, PolylineError>(PolylineError::IntegerOverflow));
                return Err(PolylineError::IntegerOverflow);
            },
        };
        let (delta_lon, next) = match read_delta_at(bytes, mid) {
            Ok(read) => read,
            Err(e) => {
                assert(here == Err::<Seq<ShapePoint>, PolylineError>(e));
                return Err(e);
            },
        };
        let new_lon: i32 = match lon.checked_add(delta_lon) {
            Some(sum) => sum,
            None => {
                assert(here == Err::<Seq<ShapePoint>, PolylineError>(PolylineError::IntegerOverflow));
                return Err(PolylineError::IntegerOverflow);
            },
        };
        let point = point_of(new_lat, new_lon, precision);
        proof {
            let rest = decode_from(bytes@, next as int, new_lat as int, new_lon as int, precision);
            assert(here == prepend(seq![point], rest));
            if let Ok(points) = rest {
                assert(out@ + (seq![point] + points) == out@.push(point) + points);
            }
        }
        out.push(point);
        lat = new_lat;
        lon = new_lon;
        i = next;
    }
    assert(out@ + Seq::<ShapePoint>::empty() == out@);
    Ok(out)
}

/// Decodes the text of a shape written at `precision`.
pub fn decode(encoded: &str, precision: Precision) -> (r: Result<Vec<ShapePoint>, PolylineError>)
    ensures
        decode_spec(encoded.spec_bytes(), precision) matches Ok(points) ==> r matches Ok(out) && out@
            == points,
        decode_spec(encoded.spec_bytes(), precision) matches Err(e) ==> r matches Err(f) && f == e,
{
    decode_bytes(encoded.as_bytes(), precision)
}

/// Decodes the text of a shape written at six digits, the precision of the
/// shapes in a route.
pub fn decode_shape(encoded: &str) -> (r: Result<Vec<ShapePoint>, PolylineError>)
    ensures
        decode_spec(encoded.spec_bytes(), Precision::Six) matches Ok(points) ==> r matches Ok(out)
            && out@ == points,
        decode_spec(encoded.spec_bytes(), Precision::Six) matches Err(e) ==> r matches Err(f) && f
            == e,
{
    decode(encoded, Precision::Six)
}

} // verus!
