//! What holds of encoding and decoding together.

use crate::shapes::groups::{
    group_bytes, is_continuation_byte, is_last_byte, lemma_group_bytes_len, lemma_group_bytes_shape,
    lemma_read_group_bytes, lemma_read_group_extent, lemma_read_group_local,
    lemma_read_group_unfinished, read_group,
};
use crate::shapes::zigzag::{lemma_zigzag_inverse, lemma_zigzag_range, zigzag};
use crate::shapes::{
    decode_from, decode_spec, encodable, encodable_at, encode_spec, encoded_prefix, fits, grid_lat,
    grid_lon, grid_point, prepend, read_delta, snap, snap_point, text_of, to_grid, PolylineError,
    Precision, ShapePoint,
};
use vstd::prelude::*;
use vstd::utf8::{encode_utf8, is_ascii_chars, is_ascii_chars_encode_utf8};

verus! {

/// Whether `m` millionths of a degree lie on the grid of `precision`.
pub open spec fn representable(m: int, precision: Precision) -> bool {
    m % (precision.spec_step() as int) == 0
}

/// `shape` with every point rounded to the grid of `precision`.
pub open spec fn snap_shape(shape: Seq<ShapePoint>, precision: Precision) -> Seq<ShapePoint> {
    Seq::new(shape.len(), |i: int| snap_point(shape[i], precision))
}

/// Rounding to the grid moves a coordinate by at most half a grid step, and
/// leaves a coordinate on the grid where it is.
pub proof fn lemma_snap_close(m: int, precision: Precision)
    ensures
        -precision.spec_tolerance() <= snap(m, precision) - m <= precision.spec_tolerance(),
        representable(m, precision) ==> snap(m, precision) == m,
        to_grid(snap(m, precision), precision) == to_grid(m, precision),
{
}

/// The bytes of the first `k` points open the bytes of the first `n`.
pub proof fn lemma_encoded_prefix_opens(shape: Seq<ShapePoint>, k: nat, n: nat, precision: Precision)
    requires
        k <= n,
    ensures
        encoded_prefix(shape, k, precision).len() <= encoded_prefix(shape, n, precision).len(),
        encoded_prefix(shape, n, precision).subrange(
            0,
            encoded_prefix(shape, k, precision).len() as int,
        ) == encoded_prefix(shape, k, precision),
    decreases n - k,
{
    if k < n {
        lemma_encoded_prefix_opens(shape, k, (n - 1) as nat, precision);
    }
}

/// Encoded bytes are printable ASCII, `'?'..='~'`.
pub proof fn lemma_encoded_printable(shape: Seq<ShapePoint>, n: nat, precision: Precision)
    ensures
        forall|k: int|
            0 <= k < encoded_prefix(shape, n, precision).len() ==> 63 <= #[trigger] encoded_prefix(
                shape,
                n,
                precision,
            )[k] <= 126,
    decreases n,
{
    if n > 0 {
        let before = encoded_prefix(shape, (n - 1) as nat, precision);
        let v = zigzag(grid_lat(shape, n - 1, precision) - grid_lat(shape, n - 2, precision));
        let w = zigzag(grid_lon(shape, n - 1, precision) - grid_lon(shape, n - 2, precision));
        lemma_encoded_printable(shape, (n - 1) as nat, precision);
        lemma_group_bytes_shape(v);
        lemma_group_bytes_shape(w);
        let all = encoded_prefix(shape, n, precision);
        assert(all == before + (group_bytes(v) + group_bytes(w)));
        assert forall|k: int| 0 <= k < all.len() implies 63 <= #[trigger] all[k] <= 126 by {
            if k < before.len() {
                assert(all[k] == before[k]);
            } else if k < before.len() + group_bytes(v).len() {
                let j = k - before.len();
                assert(all[k] == group_bytes(v)[j]);
                assert(is_last_byte(group_bytes(v)[j]) || is_continuation_byte(group_bytes(v)[j]));
            } else {
                let j = k - before.len() - group_bytes(v).len();
                assert(all[k] == group_bytes(w)[j]);
                assert(is_last_byte(group_bytes(w)[j]) || is_continuation_byte(group_bytes(w)[j]));
            }
        }
    }
}

/// A shape that can be encoded takes two to fourteen bytes for each point.
pub proof fn lemma_encoded_len(shape: Seq<ShapePoint>, n: nat, precision: Precision)
    requires
        encodable(shape, precision),
        n <= shape.len(),
    ensures
        2 * n <= encoded_prefix(shape, n, precision).len() <= 14 * n,
    decreases n,
{
    if n > 0 {
        lemma_encoded_len(shape, (n - 1) as nat, precision);
        assert(encodable_at(shape, n - 1, precision));
        let dlat = grid_lat(shape, n - 1, precision) - grid_lat(shape, n - 2, precision);
        let dlon = grid_lon(shape, n - 1, precision) - grid_lon(shape, n - 2, precision);
        lemma_zigzag_range(dlat);
        lemma_zigzag_range(dlon);
        lemma_group_bytes_shape(zigzag(dlat));
        lemma_group_bytes_shape(zigzag(dlon));
        lemma_group_bytes_len(zigzag(dlat));
        lemma_group_bytes_len(zigzag(dlon));
    }
}

/// The text of printable bytes is stored as those bytes.
pub proof fn lemma_text_bytes(bytes: Seq<u8>)
    requires
        forall|k: int| 0 <= k < bytes.len() ==> #[trigger] bytes[k] < 128,
    ensures
        encode_utf8(text_of(bytes)) == bytes,
{
    let text = text_of(bytes);
    assert(is_ascii_chars(text));
    is_ascii_chars_encode_utf8(text);
    assert forall|k: int| 0 <= k < bytes.len() implies encode_utf8(text)[k] == bytes[k] by {
        assert(text[k] as u8 == encode_utf8(text)[k]);
        assert(text[k] == bytes[k] as char);
    }
    assert(encode_utf8(text) =~= bytes);
}

/// Where the bytes of the folded delta `d` stand at index `start`, reading
/// a delta there gives `d` back.
proof fn lemma_read_written_delta(s: Seq<u8>, start: int, d: int)
    requires
        fits(d),
        0 <= start,
        start + group_bytes(zigzag(d)).len() <= s.len(),
        s.subrange(start, start + group_bytes(zigzag(d)).len()) == group_bytes(zigzag(d)),
    ensures
        read_delta(s, start) == Ok::<(int, int), PolylineError>(
            (d, start + group_bytes(zigzag(d)).len()),
        ),
{
    lemma_read_group_bytes(s, start, zigzag(d));
    lemma_zigzag_range(d);
    lemma_zigzag_inverse(d, 0);
}

/// Where the bytes of point `k` stand in the bytes of the whole shape.
proof fn lemma_point_placed(shape: Seq<ShapePoint>, k: nat, precision: Precision)
    requires
        k < shape.len(),
    ensures
        ({
            let s = encoded_prefix(shape, shape.len(), precision);
            let start = encoded_prefix(shape, k, precision).len() as int;
            let a = group_bytes(
                zigzag(grid_lat(shape, k as int, precision) - grid_lat(shape, k - 1, precision)),
            );
            let b = group_bytes(
                zigzag(grid_lon(shape, k as int, precision) - grid_lon(shape, k - 1, precision)),
            );
            &&& start + a.len() + b.len() == encoded_prefix(shape, k + 1, precision).len()
            &&& start + a.len() + b.len() <= s.len()
            &&& s.subrange(start, start + a.len()) == a
            &&& s.subrange(start + a.len(), start + a.len() + b.len()) == b
        }),
{
    let n = shape.len();
    let s = encoded_prefix(shape, n, precision);
    let before = encoded_prefix(shape, k, precision);
    let start = before.len() as int;
    let a = group_bytes(
        zigzag(grid_lat(shape, k as int, precision) - grid_lat(shape, k - 1, precision)),
    );
    let b = group_bytes(
        zigzag(grid_lon(shape, k as int, precision) - grid_lon(shape, k - 1, precision)),
    );
    let upto = encoded_prefix(shape, k + 1, precision);
    lemma_encoded_prefix_opens(shape, k + 1, n, precision);
    assert(upto == before + (a + b));
    let mid = start + a.len();
    let next = mid + b.len();
    assert forall|j: int| 0 <= j < a.len() implies s.subrange(start, mid)[j] == a[j] by {
        assert(s[start + j] == s.subrange(0, next)[start + j]);
        assert(upto[start + j] == a[j]);
    }
    assert(s.subrange(start, mid) =~= a);
    assert forall|j: int| 0 <= j < b.len() implies s.subrange(mid, next)[j] == b[j] by {
        assert(s[mid + j] == s.subrange(0, next)[mid + j]);
        assert(upto[mid + j] == b[j]);
    }
    assert(s.subrange(mid, next) =~= b);
}

/// Decoding the bytes of a shape from the start of point `k` on gives the
/// points from `k` on, each rounded to the grid.
proof fn lemma_decode_encoded_from(shape: Seq<ShapePoint>, k: nat, precision: Precision)
    requires
        encodable(shape, precision),
        k <= shape.len(),
    ensures
        decode_from(
            encoded_prefix(shape, shape.len(), precision),
            encoded_prefix(shape, k, precision).len() as int,
            grid_lat(shape, k - 1, precision),
            grid_lon(shape, k - 1, precision),
            precision,
        ) == Ok::<Seq<ShapePoint>, PolylineError>(snap_shape(shape, precision).skip(k as int)),
    decreases shape.len() - k,
{
    let n = shape.len();
    let s = encoded_prefix(shape, n, precision);
    let start = encoded_prefix(shape, k, precision).len() as int;
    let lat = grid_lat(shape, k - 1, precision);
    let lon = grid_lon(shape, k - 1, precision);
    if k == n {
        assert(snap_shape(shape, precision).skip(k as int) =~= Seq::<ShapePoint>::empty());
    } else {
        assert(encodable_at(shape, k as int, precision));
        let new_lat = grid_lat(shape, k as int, precision);
        let new_lon = grid_lon(shape, k as int, precision);
        let mid = start + group_bytes(zigzag(new_lat - lat)).len();
        let next = mid + group_bytes(zigzag(new_lon - lon)).len();
        lemma_point_placed(shape, k, precision);
        lemma_group_bytes_shape(zigzag(new_lat - lat));
        lemma_read_written_delta(s, start, new_lat - lat);
        lemma_read_written_delta(s, mid, new_lon - lon);
        lemma_decode_encoded_from(shape, k + 1, precision);
        let rest = snap_shape(shape, precision).skip(k as int + 1);
        let point = grid_point(new_lat, new_lon, precision);
        assert(point == snap_point(shape[k as int], precision));
        assert(decode_from(s, next, new_lat, new_lon, precision) == Ok::<
            Seq<ShapePoint>,
            PolylineError,
        >(rest));
        assert(decode_from(s, start, lat, lon, precision) == prepend(
            seq![point],
            decode_from(s, next, new_lat, new_lon, precision),
        ));
        assert(seq![point] + rest =~= snap_shape(shape, precision).skip(k as int));
    }
}

/// Round trip on bytes: where a shape can be encoded, decoding its bytes at
/// the same precision gives every point back, rounded to the grid. No
/// coordinate moves by more than half a grid step, and a coordinate that
/// lies on the grid comes back as it was.
pub proof fn lemma_decode_encode(shape: Seq<ShapePoint>, precision: Precision)
    requires
        encode_spec(shape, precision) is Ok,
    ensures
        decode_spec(encode_spec(shape, precision).unwrap(), precision) == Ok::<
            Seq<ShapePoint>,
            PolylineError,
        >(snap_shape(shape, precision)),
        forall|i: int|
            #![trigger shape[i]]
            0 <= i < shape.len() ==> {
                let back = snap_shape(shape, precision)[i];
                &&& -precision.spec_tolerance() <= back.lat - shape[i].lat <= precision.spec_tolerance()
                &&& -precision.spec_tolerance() <= back.lon - shape[i].lon <= precision.spec_tolerance()
                &&& representable(shape[i].lat as int, precision) ==> back.lat == shape[i].lat
                &&& representable(shape[i].lon as int, precision) ==> back.lon == shape[i].lon
            },
{
    lemma_decode_encoded_from(shape, 0, precision);
    assert(snap_shape(shape, precision).skip(0) == snap_shape(shape, precision));
    assert forall|i: int| #![trigger shape[i]] 0 <= i < shape.len() implies {
        let back = snap_shape(shape, precision)[i];
        &&& -precision.spec_tolerance() <= back.lat - shape[i].lat <= precision.spec_tolerance()
        &&& -precision.spec_tolerance() <= back.lon - shape[i].lon <= precision.spec_tolerance()
        &&& representable(shape[i].lat as int, precision) ==> back.lat == shape[i].lat
        &&& representable(shape[i].lon as int, precision) ==> back.lon == shape[i].lon
    } by {
        assert(encodable_at(shape, i, precision));
        lemma_snap_close(shape[i].lat as int, precision);
        lemma_snap_close(shape[i].lon as int, precision);
    }
}

/// Round trip on text: the text that encoding gives is stored as exactly
/// the encoded bytes, so decoding that text is decoding those bytes.
pub proof fn lemma_decode_encoded_text(shape: Seq<ShapePoint>, precision: Precision)
    requires
        encode_spec(shape, precision) is Ok,
    ensures
        encode_utf8(text_of(encode_spec(shape, precision).unwrap())) == encode_spec(
            shape,
            precision,
        ).unwrap(),
        decode_spec(encode_utf8(text_of(encode_spec(shape, precision).unwrap())), precision) == Ok::<
            Seq<ShapePoint>,
            PolylineError,
        >(snap_shape(shape, precision)),
{
    lemma_encoded_printable(shape, shape.len(), precision);
    lemma_text_bytes(encode_spec(shape, precision).unwrap());
    lemma_decode_encode(shape, precision);
}

/// Cutting the last byte off a text that decodes from `i` on, where the byte
/// before the last announces a further group, leaves a text that does not.
proof fn lemma_truncated_from(s: Seq<u8>, i: int, lat: int, lon: int, precision: Precision)
    requires
        s.len() >= 2,
        is_continuation_byte(s[s.len() - 2]),
        0 <= i < s.len(),
        decode_from(s, i, lat, lon, precision) is Ok,
    ensures
        decode_from(s.drop_last(), i, lat, lon, precision) == Err::<Seq<ShapePoint>, PolylineError>(
            PolylineError::MalformedEncoding,
        ),
    decreases s.len() - i,
{
    let t = s.drop_last();
    let mid = read_group(s, i).unwrap().1;
    lemma_read_group_extent(s, i);
    let next = read_group(s, mid).unwrap().1;
    lemma_read_group_extent(s, mid);
    assert(i < t.len() && mid < t.len());
    lemma_read_group_local(s, t, i);
    if next == s.len() {
        lemma_read_group_unfinished(t, mid);
    } else {
        lemma_read_group_local(s, t, mid);
        let dlat = read_delta(s, i).unwrap().0;
        let dlon = read_delta(s, mid).unwrap().0;
        lemma_truncated_from(s, next, lat + dlat, lon + dlon, precision);
    }
}

/// A cut inside a value is a fault: where a text decodes and its last
/// value takes more than one byte, the text without its last byte is
/// `MalformedEncoding`.
pub proof fn lemma_truncated_is_malformed(s: Seq<u8>, precision: Precision)
    requires
        decode_spec(s, precision) is Ok,
        s.len() >= 2,
        is_continuation_byte(s[s.len() - 2]),
    ensures
        decode_spec(s.drop_last(), precision) == Err::<Seq<ShapePoint>, PolylineError>(
            PolylineError::MalformedEncoding,
        ),
{
    lemma_truncated_from(s, 0, 0, 0, precision);
}

/// A text that ends on a byte that announces a further group does not
/// decode, from whatever index.
proof fn lemma_unfinished_from(s: Seq<u8>, i: int, lat: int, lon: int, precision: Precision)
    requires
        0 <= i < s.len(),
        is_continuation_byte(s.last()),
    ensures
        decode_from(s, i, lat, lon, precision) is Err,
    decreases s.len() - i,
{
    if let Ok((dlat, mid)) = read_delta(s, i) {
        lemma_read_group_extent(s, i);
        if fits(lat + dlat) {
            if let Ok((dlon, next)) = read_delta(s, mid) {
                lemma_read_group_extent(s, mid);
                if fits(lon + dlon) {
                    lemma_unfinished_from(s, next, lat + dlat, lon + dlon, precision);
                }
            }
        }
    }
}

/// No partial result: a text that ends on a byte that announces a further
/// group does not decode, whatever stands before that byte.
pub proof fn lemma_unfinished_text_fails(s: Seq<u8>, precision: Precision)
    requires
        s.len() > 0,
        is_continuation_byte(s.last()),
    ensures
        decode_spec(s, precision) is Err,
{
    lemma_unfinished_from(s, 0, 0, 0, precision);
}

/// A text that decodes from index `i` on holds, from `i` on, only bytes
/// of the two kinds.
proof fn lemma_decoded_from_is_printable(s: Seq<u8>, i: int, lat: int, lon: int, precision: Precision)
    requires
        0 <= i,
        decode_from(s, i, lat, lon, precision) is Ok,
    ensures
        forall|k: int| i <= k < s.len() ==> 63 <= #[trigger] s[k] <= 126,
    decreases s.len() - i,
{
    if i < s.len() {
        let (dlat, mid) = read_delta(s, i).unwrap();
        lemma_read_group_extent(s, i);
        let (dlon, next) = read_delta(s, mid).unwrap();
        lemma_read_group_extent(s, mid);
        lemma_decoded_from_is_printable(s, next, lat + dlat, lon + dlon, precision);
        assert forall|k: int| i <= k < s.len() implies 63 <= #[trigger] s[k] <= 126 by {
            if k < mid {
                assert(is_continuation_byte(s[k]) || is_last_byte(s[k]));
            } else if k < next {
                assert(is_continuation_byte(s[k]) || is_last_byte(s[k]));
            }
        }
    }
}

/// A byte outside `'?'..='~'` anywhere in a text keeps it from decoding.
pub proof fn lemma_foreign_byte_fails(s: Seq<u8>, k: int, precision: Precision)
    requires
        0 <= k < s.len(),
        s[k] < 63 || s[k] > 126,
    ensures
        decode_spec(s, precision) is Err,
{
    if decode_spec(s, precision) is Ok {
        lemma_decoded_from_is_printable(s, 0, 0, 0, precision);
    }
}

/// Number of values that end at index `i` of `s` or behind it: the bytes
/// from `i` on that end a value.
pub open spec fn values_from(s: Seq<u8>, i: int) -> nat
    decreases s.len() - i,
{
    if i < 0 || i >= s.len() {
        0
    } else if is_last_byte(s[i]) {
        1 + values_from(s, i + 1)
    } else {
        values_from(s, i + 1)
    }
}

/// A value that is read holds one byte that ends a value, its last.
proof fn lemma_one_value_read(s: Seq<u8>, i: int)
    requires
        read_group(s, i) is Some,
    ensures
        values_from(s, i) == 1 + values_from(s, read_group(s, i).unwrap().1),
    decreases s.len() - i,
{
    if is_continuation_byte(s[i]) {
        lemma_one_value_read(s, i + 1);
    }
}

/// A text that decodes from index `i` on holds, from `i` on, two values
/// for each point.
proof fn lemma_two_values_from(s: Seq<u8>, i: int, lat: int, lon: int, precision: Precision)
    requires
        0 <= i,
        decode_from(s, i, lat, lon, precision) is Ok,
    ensures
        values_from(s, i) == 2 * decode_from(s, i, lat, lon, precision).unwrap().len(),
    decreases s.len() - i,
{
    if i < s.len() {
        let (dlat, mid) = read_delta(s, i).unwrap();
        lemma_read_group_extent(s, i);
        lemma_one_value_read(s, i);
        let (dlon, next) = read_delta(s, mid).unwrap();
        lemma_read_group_extent(s, mid);
        lemma_one_value_read(s, mid);
        lemma_two_values_from(s, next, lat + dlat, lon + dlon, precision);
    }
}

/// A text that decodes holds exactly two values for each point: as many
/// bytes that end a value as twice the number of points.
pub proof fn lemma_two_values_per_point(s: Seq<u8>, precision: Precision)
    requires
        decode_spec(s, precision) is Ok,
    ensures
        values_from(s, 0) == 2 * decode_spec(s, precision).unwrap().len(),
{
    lemma_two_values_from(s, 0, 0, 0, precision);
}

/// A text that decodes holds two bytes at least for each of its points.
proof fn lemma_decoded_from_len(s: Seq<u8>, i: int, lat: int, lon: int, precision: Precision)
    requires
        0 <= i <= s.len(),
        decode_from(s, i, lat, lon, precision) is Ok,
    ensures
        2 * decode_from(s, i, lat, lon, precision).unwrap().len() <= s.len() - i,
    decreases s.len() - i,
{
    if i < s.len() {
        let (dlat, mid) = read_delta(s, i).unwrap();
        lemma_read_group_extent(s, i);
        let (dlon, next) = read_delta(s, mid).unwrap();
        lemma_read_group_extent(s, mid);
        lemma_decoded_from_len(s, next, lat + dlat, lon + dlon, precision);
    }
}

/// The shape is no longer than half the text: every point takes two bytes
/// at least.
pub proof fn lemma_decoded_len(s: Seq<u8>, precision: Precision)
    requires
        decode_spec(s, precision) is Ok,
    ensures
        2 * decode_spec(s, precision).unwrap().len() <= s.len(),
{
    lemma_decoded_from_len(s, 0, 0, 0, precision);
}

/// Whether `coarse` holds the points of `fine` with every coordinate ten
/// times as large.
pub open spec fn tenfold(coarse: Seq<ShapePoint>, fine: Seq<ShapePoint>) -> bool {
    &&& coarse.len() == fine.len()
    &&& forall|i: int|
        #![trigger coarse[i]]
        #![trigger fine[i]]
        0 <= i < fine.len() ==> coarse[i].lat == 10 * fine[i].lat && coarse[i].lon == 10
            * fine[i].lon
}

/// What a text decodes to at the two precisions, from index `i` on.
proof fn lemma_wrong_precision_from(s: Seq<u8>, i: int, lat: int, lon: int)
    requires
        0 <= i,
    ensures
        match decode_from(s, i, lat, lon, Precision::Six) {
            Err(e) => decode_from(s, i, lat, lon, Precision::Five) == Err::<
                Seq<ShapePoint>,
                PolylineError,
            >(e),
            Ok(fine) => decode_from(s, i, lat, lon, Precision::Five) matches Ok(coarse) && tenfold(
                coarse,
                fine,
            ),
        },
    decreases s.len() - i,
{
    if i < s.len() {
        if let Ok((dlat, mid)) = read_delta(s, i) {
            lemma_read_group_extent(s, i);
            if fits(lat + dlat) {
                if let Ok((dlon, next)) = read_delta(s, mid) {
                    lemma_read_group_extent(s, mid);
                    if fits(lon + dlon) {
                        lemma_wrong_precision_from(s, next, lat + dlat, lon + dlon);
                        let fine_rest = decode_from(s, next, lat + dlat, lon + dlon, Precision::Six);
                        let coarse_rest = decode_from(s, next, lat + dlat, lon + dlon, Precision::Five);
                        if let Ok(fine_tail) = fine_rest {
                            let coarse_tail = coarse_rest.unwrap();
                            let fine = seq![grid_point(lat + dlat, lon + dlon, Precision::Six)] + fine_tail;
                            let coarse = seq![grid_point(lat + dlat, lon + dlon, Precision::Five)]
                                + coarse_tail;
                            assert forall|k: int|
                                #![trigger coarse[k]]
                                #![trigger fine[k]]
                                0 <= k < fine.len() implies coarse[k].lat == 10 * fine[k].lat
                                && coarse[k].lon == 10 * fine[k].lon by {
                                if k > 0 {
                                    assert(coarse[k] == coarse_tail[k - 1]);
                                    assert(fine[k] == fine_tail[k - 1]);
                                }
                            }
                        }
                    }
                }
            }
        }
    }
}

/// The text does not say at which precision it was written. Read at five
/// digits, a text gives every coordinate ten times as large as read at six
/// digits; whether it decodes, and with which fault, is the same for both.
pub proof fn lemma_wrong_precision(s: Seq<u8>)
    ensures
        match decode_spec(s, Precision::Six) {
            Err(e) => decode_spec(s, Precision::Five) == Err::<Seq<ShapePoint>, PolylineError>(e),
            Ok(fine) => decode_spec(s, Precision::Five) matches Ok(coarse) && tenfold(coarse, fine),
        },
{
    lemma_wrong_precision_from(s, 0, 0, 0);
}

/// A shape with a coordinate other than zero is written differently at the
/// two precisions, as bytes and as text.
pub proof fn lemma_precisions_differ(shape: Seq<ShapePoint>, i: int)
    requires
        encode_spec(shape, Precision::Five) is Ok,
        encode_spec(shape, Precision::Six) is Ok,
        0 <= i < shape.len(),
        shape[i].lat != 0 || shape[i].lon != 0,
    ensures
        encode_spec(shape, Precision::Five).unwrap() != encode_spec(shape, Precision::Six).unwrap(),
        text_of(encode_spec(shape, Precision::Five).unwrap()) != text_of(
            encode_spec(shape, Precision::Six).unwrap(),
        ),
{
    let coarse = encode_spec(shape, Precision::Five).unwrap();
    let fine = encode_spec(shape, Precision::Six).unwrap();
    lemma_decode_encoded_text(shape, Precision::Five);
    lemma_decode_encoded_text(shape, Precision::Six);
    if coarse == fine {
        lemma_wrong_precision(fine);
        let at_five = snap_shape(shape, Precision::Five);
        let at_six = snap_shape(shape, Precision::Six);
        assert(tenfold(at_five, at_six));
        assert(at_five[i].lat == 10 * at_six[i].lat);
        assert(at_five[i].lon == 10 * at_six[i].lon);
        assert(encodable_at(shape, i, Precision::Five));
        assert(encodable_at(shape, i, Precision::Six));
        lemma_snap_close(shape[i].lat as int, Precision::Five);
        lemma_snap_close(shape[i].lon as int, Precision::Five);
        assert(false);
    }
}

/// The empty shape and the empty text stand for each other.
pub proof fn lemma_empty(precision: Precision)
    ensures
        encode_spec(Seq::<ShapePoint>::empty(), precision) == Ok::<Seq<u8>, PolylineError>(Seq::empty()),
        decode_spec(Seq::<u8>::empty(), precision) == Ok::<Seq<ShapePoint>, PolylineError>(
            Seq::empty(),
        ),
        text_of(Seq::<u8>::empty()) == Seq::<char>::empty(),
{
}

} // verus!
