//! Priorities as the provider sends them: IEEE-754 binary32 numbers,
//! carried here as their bit patterns (`f32::to_bits`), with the
//! comparison `>` of the floating-point numbers stated over those bits.
use vstd::prelude::*;

verus! {

/// The bit pattern of `0.0f32`, the priority every search starts from.
pub const ZERO_PRIORITY: u32 = 0;

/// The sign bit of a binary32 bit pattern.
pub open spec fn sign_of(bits: u32) -> int {
    bits as int / 0x8000_0000
}

/// The exponent field of a binary32 bit pattern.
pub open spec fn exponent_of(bits: u32) -> int {
    (bits as int / 0x80_0000) % 0x100
}

/// The fraction field of a binary32 bit pattern.
pub open spec fn fraction_of(bits: u32) -> int {
    bits as int % 0x80_0000
}

/// The bit pattern encodes a NaN: all exponent bits set, fraction not zero.
pub open spec fn is_nan(bits: u32) -> bool {
    exponent_of(bits) == 0xff && fraction_of(bits) != 0
}

/// An integer whose order is the order of the numbers that non-NaN bit
/// patterns encode: the magnitude bits, negated when the sign bit is set
/// (so `+0.0` and `-0.0` both rank 0).
pub open spec fn rank(bits: u32) -> int {
    let magnitude = bits as int % 0x8000_0000;
    if sign_of(bits) == 0 { magnitude } else { -magnitude }
}

/// `a > b` on the binary32 numbers that the bit patterns encode: false
/// whenever either side is NaN.
pub open spec fn priority_gt(a: u32, b: u32) -> bool {
    !is_nan(a) && !is_nan(b) && rank(a) > rank(b)
}

/// `a >= b` on the binary32 numbers that the bit patterns encode: false
/// whenever either side is NaN.
pub open spec fn priority_ge(a: u32, b: u32) -> bool {
    !is_nan(a) && !is_nan(b) && rank(a) >= rank(b)
}

/// Position `i` is what a scan keeps that starts from priority `0.0`, looks
/// only at the eligible positions, and takes a position whenever its
/// priority is greater than the one kept so far: the first eligible
/// position with the greatest priority, which must be greater than `0.0`.
pub open spec fn leads(prios: Seq<u32>, eligible: Seq<bool>, i: int) -> bool {
    &&& 0 <= i < prios.len()
    &&& eligible[i]
    &&& priority_gt(prios[i], ZERO_PRIORITY)
    &&& forall|j: int| 0 <= j < i && eligible[j] ==> !priority_ge(#[trigger] prios[j], prios[i])
    &&& forall|j: int|
        i < j < prios.len() && eligible[j] ==> !priority_gt(#[trigger] prios[j], prios[i])
}

/// No eligible position has a priority greater than `0.0`.
pub open spec fn none_above_zero(prios: Seq<u32>, eligible: Seq<bool>) -> bool {
    forall|j: int| 0 <= j < prios.len() && eligible[j] ==> !priority_gt(#[trigger] prios[j], ZERO_PRIORITY)
}

/// Computes `a > b` for the binary32 numbers whose bit patterns are given.
pub fn priority_greater(a: u32, b: u32) -> (r: bool)
    ensures
        r == priority_gt(a, b),
{
    let a_nan = (a / 0x80_0000) % 0x100 == 0xff && a % 0x80_0000 != 0;
    let b_nan = (b / 0x80_0000) % 0x100 == 0xff && b % 0x80_0000 != 0;
    if a_nan || b_nan {
        return false;
    }
    let a_mag: i64 = (a % 0x8000_0000) as i64;
    let b_mag: i64 = (b % 0x8000_0000) as i64;
    let a_rank: i64 = if a / 0x8000_0000 == 0 { a_mag } else { -a_mag };
    let b_rank: i64 = if b / 0x8000_0000 == 0 { b_mag } else { -b_mag };
    a_rank > b_rank
}

/// `>` on priorities is a strict order, as it is on the binary32 numbers:
/// never `a > a`, never both `a > b` and `b > a`, `a > b > c` gives
/// `a > c`; and `+0.0` and `-0.0` are equal.
pub proof fn lemma_priority_strict_order(a: u32, b: u32, c: u32)
    ensures
        !priority_gt(a, a),
        priority_gt(a, b) ==> !priority_gt(b, a),
        priority_gt(a, b) && priority_gt(b, c) ==> priority_gt(a, c),
        !priority_gt(0x8000_0000, ZERO_PRIORITY) && !priority_gt(ZERO_PRIORITY, 0x8000_0000),
{
}

} // verus!
