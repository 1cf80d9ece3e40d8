//! Bit-for-bit reinterpretation of pointer and length values between the
//! signed integers that cross the call boundary and the unsigned integers
//! used for addressing.
use vstd::prelude::*;

verus! {

/// The unsigned value with the same 64-bit pattern as `v`.
pub open spec fn u64_bits(v: i64) -> int {
    if v < 0 {
        v + 0x1_0000_0000_0000_0000
    } else {
        v as int
    }
}

/// The signed value with the same 64-bit pattern as `v`.
pub open spec fn i64_bits(v: u64) -> int {
    if v > 0x7fff_ffff_ffff_ffff {
        v - 0x1_0000_0000_0000_0000
    } else {
        v as int
    }
}

/// The unsigned value with the same 32-bit pattern as `v`.
pub open spec fn u32_bits(v: i32) -> int {
    if v < 0 {
        v + 0x1_0000_0000
    } else {
        v as int
    }
}

/// The signed value with the same 32-bit pattern as `v`.
pub open spec fn i32_bits(v: u32) -> int {
    if v > 0x7fff_ffff {
        v - 0x1_0000_0000
    } else {
        v as int
    }
}

/// Reads a signed 64-bit pointer from the call boundary as an address.
pub fn from_i64(val: i64) -> (r: u64)
    ensures
        r as int == u64_bits(val),
{
    if val < 0 {
        let m: i64 = val + 0x7fff_ffff_ffff_ffff + 1;
        (m as u64) + 0x8000_0000_0000_0000
    } else {
        val as u64
    }
}

/// Writes an address as a signed 64-bit pointer for the call boundary.
pub fn from_u64(val: u64) -> (r: i64)
    ensures
        r as int == i64_bits(val),
{
    if val > 0x7fff_ffff_ffff_ffff {
        let m: u64 = val - 0x8000_0000_0000_0000;
        (m as i64) - 0x7fff_ffff_ffff_ffff - 1
    } else {
        val as i64
    }
}

/// Writes a length as a signed 32-bit value for the call boundary.
pub fn from_u32(val: u32) -> (r: i32)
    ensures
        r as int == i32_bits(val),
{
    if val > 0x7fff_ffff {
        let m: u32 = val - 0x8000_0000;
        (m as i32) - 0x7fff_ffff - 1
    } else {
        val as i32
    }
}

/// Reads a signed 32-bit length from the call boundary as a size.
pub fn from_i32(val: i32) -> (r: u32)
    ensures
        r as int == u32_bits(val),
{
    if val < 0 {
        let m: i32 = val + 0x7fff_ffff + 1;
        (m as u32) + 0x8000_0000
    } else {
        val as u32
    }
}

/// Turning an address into a signed pointer and back gives the address.
pub proof fn lemma_u64_round_trip(x: u64)
    ensures
        ({
            let s = i64_bits(x);
            &&& i64::MIN <= s <= i64::MAX
            &&& u64_bits(s as i64) == x as int
        }),
{
}

/// Turning a signed pointer into an address and back gives the pointer.
pub proof fn lemma_i64_round_trip(x: i64)
    ensures
        ({
            let u = u64_bits(x);
            &&& 0 <= u <= u64::MAX
            &&& i64_bits(u as u64) == x as int
        }),
{
}

/// Turning a size into a signed length and back gives the size.
pub proof fn lemma_u32_round_trip(x: u32)
    ensures
        ({
            let s = i32_bits(x);
            &&& i32::MIN <= s <= i32::MAX
            &&& u32_bits(s as i32) == x as int
        }),
{
}

/// Turning a signed length into a size and back gives the length.
pub proof fn lemma_i32_round_trip(x: i32)
    ensures
        ({
            let u = u32_bits(x);
            &&& 0 <= u <= u32::MAX
            &&& i32_bits(u as u32) == x as int
        }),
{
}

} // verus!
