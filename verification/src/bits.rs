//! Exact reinterpretation between signed and unsigned integers of one width.
//!
//! The store keeps 64-bit identities in a signed column. Every value crosses
//! that boundary by its bit pattern, so the whole unsigned range survives.

use vstd::prelude::*;

verus! {

/// The unsigned integer that has the same 64 bits as `num`.
pub open spec fn spec_i64_to_u64(num: i64) -> u64 {
    if num >= 0 {
        num as u64
    } else {
        (num + 0x1_0000_0000_0000_0000) as u64
    }
}

/// The signed integer that has the same 64 bits as `num`.
pub open spec fn spec_u64_to_i64(num: u64) -> i64 {
    if num <= 0x7fff_ffff_ffff_ffff {
        num as i64
    } else {
        (num - 0x1_0000_0000_0000_0000) as i64
    }
}

/// The unsigned integer that has the same 32 bits as `num`.
pub open spec fn spec_i32_to_u32(num: i32) -> u32 {
    if num >= 0 {
        num as u32
    } else {
        (num + 0x1_0000_0000) as u32
    }
}

/// The signed integer that has the same 32 bits as `num`.
pub open spec fn spec_u32_to_i32(num: u32) -> i32 {
    if num <= 0x7fff_ffff {
        num as i32
    } else {
        (num - 0x1_0000_0000) as i32
    }
}

/// Reads the bits of a signed 64-bit integer as an unsigned one.
pub fn i64_to_u64(num: i64) -> (res: u64)
    ensures
        res == spec_i64_to_u64(num),
{
    assert(num as u64 == spec_i64_to_u64(num)) by (bit_vector);
    num as u64
}

/// Reads the bits of an unsigned 64-bit integer as a signed one.
pub fn u64_to_i64(num: u64) -> (res: i64)
    ensures
        res == spec_u64_to_i64(num),
{
    assert(num as i64 == spec_u64_to_i64(num)) by (bit_vector);
    num as i64
}

/// Reads the bits of a signed 32-bit integer as an unsigned one.
pub fn i32_to_u32(num: i32) -> (res: u32)
    ensures
        res == spec_i32_to_u32(num),
{
    assert(num as u32 == spec_i32_to_u32(num)) by (bit_vector);
    num as u32
}

/// Reads the bits of an unsigned 32-bit integer as a signed one.
pub fn u32_to_i32(num: u32) -> (res: i32)
    ensures
        res == spec_u32_to_i32(num),
{
    assert(num as i32 == spec_u32_to_i32(num)) by (bit_vector);
    num as i32
}

/// Going to the signed form and back gives the starting value, over the whole
/// unsigned range.
pub proof fn lemma_u64_round_trip(num: u64)
    ensures
        spec_i64_to_u64(spec_u64_to_i64(num)) == num,
{
}

/// Going to the unsigned form and back gives the starting value, over the
/// whole signed range.
pub proof fn lemma_i64_round_trip(num: i64)
    ensures
        spec_u64_to_i64(spec_i64_to_u64(num)) == num,
{
}

/// The 32-bit reinterpretations undo each other in both directions.
pub proof fn lemma_32_round_trip(a: u32, b: i32)
    ensures
        spec_i32_to_u32(spec_u32_to_i32(a)) == a,
        spec_u32_to_i32(spec_i32_to_u32(b)) == b,
{
}

/// Values below 2^63 keep their numeric value across the boundary.
pub proof fn lemma_small_values_unchanged(num: u64)
    requires
        num <= 0x7fff_ffff_ffff_ffff,
    ensures
        spec_u64_to_i64(num) == num,
        spec_i64_to_u64(num as i64) == num,
{
}

} // verus!
