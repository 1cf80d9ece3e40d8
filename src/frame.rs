//! Length-prefixed frames: an 8-byte little-endian payload length followed
//! by the payload, as the host writes arguments into guest memory.
use vstd::prelude::*;
use crate::convert::from_i32;
use crate::convert::from_i64;
use crate::convert::u32_bits;
use crate::convert::u64_bits;
use crate::memory::read_region;
use crate::memory::region_fits;

verus! {

/// Number of bytes in a frame's length prefix.
pub const PREFIX_LEN: usize = 8;

/// Byte `k` (from the least significant) of `n`.
pub open spec fn byte_of(n: u64, k: u64) -> u8 {
    ((n >> (8 * k)) & 0xff) as u8
}

/// The little-endian bytes of `n`.
pub open spec fn le_bytes(n: u64) -> Seq<u8> {
    seq![
        byte_of(n, 0),
        byte_of(n, 1),
        byte_of(n, 2),
        byte_of(n, 3),
        byte_of(n, 4),
        byte_of(n, 5),
        byte_of(n, 6),
        byte_of(n, 7),
    ]
}

/// The integer whose little-endian bytes are `b0` .. `b7`.
pub open spec fn le_value8(b0: u8, b1: u8, b2: u8, b3: u8, b4: u8, b5: u8, b6: u8, b7: u8) -> u64 {
    (b0 as u64) | ((b1 as u64) << 8) | ((b2 as u64) << 16) | ((b3 as u64) << 24) | ((b4 as u64)
        << 32) | ((b5 as u64) << 40) | ((b6 as u64) << 48) | ((b7 as u64) << 56)
}

/// The integer whose little-endian bytes are the first eight of `s`.
pub open spec fn le_value(s: Seq<u8>) -> u64
    recommends
        s.len() >= 8,
{
    le_value8(s[0], s[1], s[2], s[3], s[4], s[5], s[6], s[7])
}

/// The frame that carries `payload`.
pub open spec fn frame_of(payload: Seq<u8>) -> Seq<u8> {
    le_bytes(payload.len() as u64) + payload
}

/// What a reader takes out of `region`: the payload whose length the prefix
/// gives, where the prefix is there and the region holds that many bytes.
pub open spec fn payload_of(region: Seq<u8>) -> Option<Seq<u8>> {
    if region.len() >= 8 && le_value(region) <= region.len() - 8 {
        Some(region.subrange(8, 8 + le_value(region)))
    } else {
        None
    }
}

proof fn lemma_le_value_of_bytes(n: u64)
    ensures
        le_value(le_bytes(n)) == n,
{
    assert(((n >> 0) & 0xff) as u8 as u64 | (((n >> 8) & 0xff) as u8 as u64) << 8 | ((((n >> 16)
        & 0xff) as u8 as u64) << 16) | ((((n >> 24) & 0xff) as u8 as u64) << 24) | ((((n >> 32)
        & 0xff) as u8 as u64) << 32) | ((((n >> 40) & 0xff) as u8 as u64) << 40) | ((((n >> 48)
        & 0xff) as u8 as u64) << 48) | ((((n >> 56) & 0xff) as u8 as u64) << 56) == n)
        by (bit_vector);
}

/// Builds the frame for `payload`: its length as eight little-endian bytes,
/// then the payload itself.
pub fn encode_frame(payload: &[u8]) -> (r: Vec<u8>)
    requires
        payload@.len() + 8 <= usize::MAX,
    ensures
        r@ == frame_of(payload@),
{
    let n: u64 = payload.len() as u64;
    let mut r: Vec<u8> = Vec::new();
    r.push((n & 0xff) as u8);
    r.push(((n >> 8) & 0xff) as u8);
    r.push(((n >> 16) & 0xff) as u8);
    r.push(((n >> 24) & 0xff) as u8);
    r.push(((n >> 32) & 0xff) as u8);
    r.push(((n >> 40) & 0xff) as u8);
    r.push(((n >> 48) & 0xff) as u8);
    r.push(((n >> 56) & 0xff) as u8);
    assert(r@ =~= le_bytes(n)) by {
        assert((n >> 0) == n) by (bit_vector);
    }
    let mut i: usize = 0;
    while i < payload.len()
        invariant
            i <= payload@.len(),
            n == payload@.len(),
            r@ =~= le_bytes(n) + payload@.subrange(0, i as int),
        decreases payload@.len() - i,
    {
        r.push(payload[i]);
        i = i + 1;
        assert(r@ =~= le_bytes(n) + payload@.subrange(0, i as int));
    }
    assert(payload@.subrange(0, i as int) =~= payload@);
    r
}

/// Reads the payload out of a region that starts with a frame. `None` where
/// the region is shorter than the prefix or than the length it announces.
pub fn decode_frame(region: &[u8]) -> (r: Option<Vec<u8>>)
    ensures
        r matches Some(p) ==> payload_of(region@) == Some(p@),
        r is None ==> payload_of(region@) is None,
{
    if region.len() < PREFIX_LEN {
        return None;
    }
    let n: u64 = (region[0] as u64) | ((region[1] as u64) << 8) | ((region[2] as u64) << 16) | ((
    region[3] as u64) << 24) | ((region[4] as u64) << 32) | ((region[5] as u64) << 40) | ((
    region[6] as u64) << 48) | ((region[7] as u64) << 56);
    assert(n == le_value(region@));
    if n > (region.len() - PREFIX_LEN) as u64 {
        return None;
    }
    let end: usize = PREFIX_LEN + n as usize;
    let mut out: Vec<u8> = Vec::new();
    let mut i: usize = PREFIX_LEN;
    while i < end
        invariant
            PREFIX_LEN <= i <= end <= region@.len(),
            out@ =~= region@.subrange(8, i as int),
        decreases end - i,
    {
        out.push(region[i]);
        i = i + 1;
        assert(out@ =~= region@.subrange(8, i as int));
    }
    Some(out)
}

/// The guest's reader of its call arguments: the frame at the boundary
/// pointer `ptr` in `memory` must lie inside it and announce exactly the
/// boundary length `len`; its payload comes back.
pub fn read_arguments(memory: &[u8], ptr: i64, len: i32) -> (r: Option<Vec<u8>>)
    ensures
        r is Some <==> ({
            let p = u64_bits(ptr);
            let n = u32_bits(len);
            &&& region_fits(p as u64, (n + 8) as u64, memory@.len())
            &&& le_value(memory@.subrange(p, p + 8)) == n
        }),
        r matches Some(v) ==> v@ == memory@.subrange(u64_bits(ptr) + 8, u64_bits(ptr) + 8
            + u32_bits(len)),
{
    let p: u64 = from_i64(ptr);
    let n: u32 = from_i32(len);
    let ghost start = p as int;
    match read_region(memory, p, n as u64 + 8) {
        None => None,
        Some(region) => {
            assert(region@.subrange(0, 8) =~= memory@.subrange(start, start + 8));
            assert(le_value(region@) == le_value(memory@.subrange(start, start + 8)));
            match decode_frame(region.as_slice()) {
                None => None,
                Some(payload) => {
                    if payload.len() == n as usize {
                        assert(payload@ =~= memory@.subrange(start + 8, start + 8 + n));
                        Some(payload)
                    } else {
                        None
                    }
                },
            }
        },
    }
}

/// A frame read back yields the payload it was built from.
pub proof fn lemma_frame_round_trip(payload: Seq<u8>)
    requires
        payload.len() <= u64::MAX,
    ensures
        payload_of(frame_of(payload)) == Some(payload),
{
    let n = payload.len() as u64;
    lemma_le_value_of_bytes(n);
    let f = frame_of(payload);
    assert(f.subrange(0, 8) =~= le_bytes(n));
    assert(le_value(f) == le_value(le_bytes(n)));
    assert(f.subrange(8, 8 + n) =~= payload);
}

} // verus!
