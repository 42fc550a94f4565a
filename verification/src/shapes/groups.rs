//! Variable-length values: a natural number is cut into groups of five bits,
//! least significant group first; every group but the last carries the
//! continuation flag, and each group is shifted into printable ASCII.

use crate::shapes::PolylineError;
use vstd::arithmetic::power2::{
    lemma2_to64, lemma2_to64_rest, lemma_pow2_adds, lemma_pow2_strictly_increases, pow2,
};
use vstd::bits::lemma_u64_shl_is_mul;
use vstd::prelude::*;

verus! {

/// Added to every group so that it lands in `'?'..='~'`.
pub const OFFSET: u8 = 63;

/// Flag carried by every group that is followed by another one.
pub const CONTINUATION: u8 = 0x20;

/// Selects the five payload bits of a group.
pub const PAYLOAD_MASK: u8 = 0x1f;

/// Number of payload bits in one group.
pub const PAYLOAD_BITS: u32 = 5;

/// A byte that ends a value.
pub open spec fn is_last_byte(b: u8) -> bool {
    63 <= b < 95
}

/// A byte that announces a further group.
pub open spec fn is_continuation_byte(b: u8) -> bool {
    95 <= b <= 126
}

/// The five payload bits of a byte of either kind.
pub open spec fn payload(b: u8) -> nat {
    ((b - 63) % 32) as nat
}

/// The bytes that stand for `v`.
pub open spec fn group_bytes(v: nat) -> Seq<u8>
    decreases v,
{
    if v < 32 {
        seq![(v + 63) as u8]
    } else {
        seq![(v % 32 + 95) as u8] + group_bytes(v / 32)
    }
}

/// Reads the value that starts at index `i` of `s`: the value and the index
/// just behind its last byte, or `None` where `s` ends before the value does
/// or holds a byte of neither kind.
pub open spec fn read_group(s: Seq<u8>, i: int) -> Option<(nat, int)>
    decreases s.len() - i,
{
    if i < 0 || i >= s.len() {
        None
    } else if is_last_byte(s[i]) {
        Some((payload(s[i]), i + 1))
    } else if is_continuation_byte(s[i]) {
        match read_group(s, i + 1) {
            Some((high, next)) => Some((payload(s[i]) + 32 * high, next)),
            None => None,
        }
    } else {
        None
    }
}

/// What `read_group` gives at `start` once the groups before `i` have been
/// summed up to `low` and the group at `i` weighs `weight`.
pub open spec fn resume(rest: Option<(nat, int)>, low: nat, weight: nat) -> Option<(nat, int)> {
    match rest {
        Some((high, next)) => Some((low + weight * high, next)),
        None => None,
    }
}

/// Every value is written as bytes of the two kinds, continuation bytes
/// first and one last byte at the end.
pub proof fn lemma_group_bytes_shape(v: nat)
    ensures
        group_bytes(v).len() >= 1,
        is_last_byte(group_bytes(v).last()),
        forall|k: int| 0 <= k < group_bytes(v).len() - 1 ==> is_continuation_byte(#[trigger] group_bytes(v)[k]),
    decreases v,
{
    if v >= 32 {
        lemma_group_bytes_shape(v / 32);
        let head = seq![(v % 32 + 95) as u8];
        let tail = group_bytes(v / 32);
        assert(group_bytes(v) == head + tail);
        assert forall|k: int| 0 <= k < group_bytes(v).len() - 1 implies is_continuation_byte(#[trigger] group_bytes(v)[k]) by {
            if k > 0 {
                assert(group_bytes(v)[k] == tail[k - 1]);
            }
        }
    }
}

/// A value below `2^32` takes at most seven bytes.
pub proof fn lemma_group_bytes_len(v: nat)
    requires
        v <= u32::MAX,
    ensures
        group_bytes(v).len() <= 7,
{
    reveal_with_fuel(group_bytes, 8);
}

/// A successful read ends behind a last byte, after continuation bytes only.
pub proof fn lemma_read_group_extent(s: Seq<u8>, i: int)
    requires
        read_group(s, i) is Some,
    ensures
        0 <= i < read_group(s, i).unwrap().1 <= s.len(),
        is_last_byte(s[read_group(s, i).unwrap().1 - 1]),
        forall|k: int| i <= k < read_group(s, i).unwrap().1 - 1 ==> is_continuation_byte(#[trigger] s[k]),
    decreases s.len() - i,
{
    if is_continuation_byte(s[i]) {
        lemma_read_group_extent(s, i + 1);
    }
}

/// Reading sees only the bytes of the value itself.
pub proof fn lemma_read_group_local(s: Seq<u8>, t: Seq<u8>, i: int)
    requires
        read_group(s, i) is Some,
        read_group(s, i).unwrap().1 <= t.len(),
        forall|k: int| i <= k < read_group(s, i).unwrap().1 ==> s[k] == t[k],
    ensures
        read_group(t, i) == read_group(s, i),
    decreases s.len() - i,
{
    lemma_read_group_extent(s, i);
    if is_continuation_byte(s[i]) {
        lemma_read_group_extent(s, i + 1);
        lemma_read_group_local(s, t, i + 1);
    }
}

/// Where the bytes of `v` stand at index `i`, reading gives `v` back.
pub proof fn lemma_read_group_bytes(s: Seq<u8>, i: int, v: nat)
    requires
        0 <= i,
        i + group_bytes(v).len() <= s.len(),
        s.subrange(i, i + group_bytes(v).len()) == group_bytes(v),
    ensures
        read_group(s, i) == Some((v, i + group_bytes(v).len())),
    decreases v,
{
    let g = group_bytes(v);
    assert(s[i] == s.subrange(i, i + g.len())[0]);
    if v >= 32 {
        let tail = group_bytes(v / 32);
        assert(g == seq![(v % 32 + 95) as u8] + tail);
        assert(s.subrange(i + 1, i + 1 + tail.len()) == tail) by {
            assert forall|k: int| 0 <= k < tail.len() implies s.subrange(i + 1, i + 1 + tail.len())[k] == tail[k] by {
                assert(s[i + 1 + k] == s.subrange(i, i + g.len())[k + 1]);
                assert(g[k + 1] == tail[k]);
            }
        }
        lemma_read_group_bytes(s, i + 1, v / 32);
    }
}

/// A run of continuation bytes up to the end of the text is no value.
pub proof fn lemma_read_group_unfinished(s: Seq<u8>, i: int)
    requires
        forall|k: int| i <= k < s.len() ==> is_continuation_byte(#[trigger] s[k]),
    ensures
        read_group(s, i) is None,
    decreases s.len() - i,
{
    if 0 <= i < s.len() {
        lemma_read_group_unfinished(s, i + 1);
    }
}

/// Appends the bytes of `v` to `out`.
pub fn write_group(out: &mut Vec<u8>, v: u32)
    ensures
        final(out)@ == old(out)@ + group_bytes(v as nat),
{
    let mut rest: u32 = v;
    while rest >= 0x20
        invariant
            out@ + group_bytes(rest as nat) == old(out)@ + group_bytes(v as nat),
        decreases rest,
    {
        let low: u32 = rest & 0x1f;
        let high: u32 = rest >> 5;
        assert(low == rest % 32 && high == rest / 32) by (bit_vector)
            requires
                low == rest & 0x1f,
                high == rest >> 5,
        ;
        let flagged: u32 = low | 0x20;
        assert(flagged == low + 32) by (bit_vector)
            requires
                flagged == low | 0x20,
                low < 32,
        ;
        let ghost before = out@;
        out.push((flagged + 63) as u8);
        proof {
            let head = seq![(rest as nat % 32 + 95) as u8];
            assert(group_bytes(rest as nat) == head + group_bytes(high as nat));
            assert(out@ == before + head);
            assert(out@ + group_bytes(high as nat) == before + group_bytes(rest as nat));
        }
        rest = high;
    }
    out.push((rest + 63) as u8);
    assert(group_bytes(rest as nat) == seq![(rest as nat + 63) as u8]);
}

/// Bounds on the weighted payload of one group.
proof fn lemma_weigh(low: nat, weight: nat, chunk: nat)
    by (nonlinear_arith)
    requires
        chunk < 32,
    ensures
        low < weight ==> low + weight * chunk < weight * 32,
        chunk >= 1 ==> weight * chunk >= weight,
{
}

/// Placing a group above the bits already read adds its weighted payload.
proof fn lemma_place(sum: u64, chunk: u64, shift: u32)
    requires
        shift <= 30,
        chunk < 32,
        sum < pow2(shift as nat),
    ensures
        (sum | (chunk << shift)) == sum + pow2(shift as nat) * chunk,
        pow2(shift as nat + 5) == pow2(shift as nat) * 32,
{
    let unit: u64 = 1u64 << shift;
    assert(unit == pow2(shift as nat)) by {
        assert(1u64 << shift == 1u64 << (shift as u64)) by (bit_vector);
        assert(pow2(shift as nat) <= pow2(30)) by {
            if shift < 30 {
                lemma_pow2_strictly_increases(shift as nat, 30);
            }
        }
        lemma2_to64();
        lemma_u64_shl_is_mul(1u64, shift as u64);
    }
    assert((sum | (chunk << shift)) == sum + unit * chunk) by (bit_vector)
        requires
            shift <= 30,
            chunk < 32,
            sum < unit,
            unit == 1u64 << shift,
    ;
    lemma_pow2_adds(shift as nat, 5);
    lemma2_to64();
}

/// Moving one continuation group from the part still to be read to the part
/// already summed leaves the value unchanged.
proof fn lemma_resume_step(rest: Option<(nat, int)>, low: nat, weight: nat, chunk: nat)
    ensures
        resume(resume(rest, chunk, 32), low, weight) == resume(rest, low + weight * chunk, weight * 32),
{
    if let Some((high, next)) = rest {
        assert(low + weight * (chunk + 32 * high) == (low + weight * chunk) + (weight * 32) * high)
            by (nonlinear_arith);
    }
}

/// Reads the value that starts at index `start` of `bytes`, and says where
/// the next one starts.
pub fn read_group_at(bytes: &[u8], start: usize) -> (r: Result<(u32, usize), PolylineError>)
    ensures
        match read_group(bytes@, start as int) {
            None => r == Err::<(u32, usize), PolylineError>(PolylineError::MalformedEncoding),
            Some((v, next)) => if v > u32::MAX {
                r == Err::<(u32, usize), PolylineError>(PolylineError::IntegerOverflow)
            } else {
                r == Ok::<(u32, usize), PolylineError>((v as u32, next as usize))
            },
        },
{
    let mut i: usize = start;
    let mut sum: u64 = 0;
    let mut shift: u32 = 0;
    let mut overflow: bool = false;
    let ghost mut low: nat = 0;
    let ghost mut weight: nat = 1;
    proof {
        lemma2_to64();
        lemma2_to64_rest();
    }
    loop
        invariant_except_break
            read_group(bytes@, start as int) == resume(read_group(bytes@, i as int), low, weight),
            shift <= 35,
            shift % 5 == 0,
            shift < 35 ==> weight == pow2(shift as nat) && low < weight && !overflow,
            shift == 35 ==> weight >= pow2(35),
        invariant
            start <= i,
            !overflow ==> sum == low && low < pow2(35),
            overflow ==> low >= pow2(35),
        ensures
            read_group(bytes@, start as int) == Some((low, i as int)),
        decreases bytes.len() - i,
    {
        if i >= bytes.len() {
            return Err(PolylineError::MalformedEncoding);
        }
        let b: u8 = bytes[i];
        if b < OFFSET || b > 126 {
            return Err(PolylineError::MalformedEncoding);
        }
        let raw: u8 = b - OFFSET;
        let chunk: u64 = (raw & PAYLOAD_MASK) as u64;
        assert(chunk == raw % 32) by (bit_vector)
            requires
                chunk == (raw & 0x1f) as u64,
        ;
        let ghost rest = read_group(bytes@, i + 1);
        proof {
            lemma2_to64();
            lemma2_to64_rest();
            lemma_weigh(low, weight, chunk as nat);
            if raw >= CONTINUATION {
                assert(read_group(bytes@, i as int) == resume(rest, chunk as nat, 32));
                lemma_resume_step(rest, low, weight, chunk as nat);
            }
        }
        if shift < 35 {
            proof {
                lemma_place(sum, chunk, shift);
            }
            sum = sum | (chunk << shift);
            shift += PAYLOAD_BITS;
        } else if chunk != 0 {
            overflow = true;
        }
        proof {
            low = low + weight * chunk as nat;
            weight = weight * 32;
        }
        i += 1;
        if raw < CONTINUATION {
            break;
        }
    }
    proof {
        lemma2_to64_rest();
    }
    if overflow || sum > 0xffff_ffff {
        Err(PolylineError::IntegerOverflow)
    } else {
        Ok((sum as u32, i))
    }
}

} // verus!
