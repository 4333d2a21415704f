//! Bit-range access on machine words, through the `bit_field` crate.

use bit_field::BitField;
use vstd::arithmetic::power2::pow2;
use vstd::prelude::*;

verus! {

/// The number held in bits `start..end` of `value`, bit 0 being the least significant.
pub open spec fn bit_range(value: nat, start: nat, end: nat) -> nat {
    (value / pow2(start)) % pow2((end - start) as nat)
}

/// Calls `BitField::get_bits` of `bit_field` on a `usize` with the range `start..end`.
/// Claimed: the result is the number held in those bits. The crate asserts that `start`
/// is below the width, that `end` does not exceed it and that `start <= end`; the
/// `requires` keeps those panics out.
#[verifier::external_body]
pub(crate) fn usize_get_bits(value: usize, start: usize, end: usize) -> (bits: usize)
    requires
        start < usize::BITS,
        start <= end <= usize::BITS,
    ensures
        bits == bit_range(value as nat, start as nat, end as nat),
{
    value.get_bits(start..end)
}

/// Calls `BitField::set_bits` of `bit_field` on a `usize` with the range `start..end`.
/// Claimed: the bits below `start` and from `end` on are kept, and the bits `start..end`
/// then hold `value`. The crate panics on a range out of bounds and on a `value` that does
/// not fit in the range (any nonzero value for an empty range); the `requires` keeps those
/// inputs out.
#[verifier::external_body]
pub(crate) fn usize_set_bits(target: &mut usize, start: usize, end: usize, value: usize)
    requires
        start < usize::BITS,
        start <= end <= usize::BITS,
        (start == end && value == 0) || (start < end && value < pow2((end - start) as nat)),
    ensures
        (*final(target) as nat) % pow2(start as nat) == (*old(target) as nat) % pow2(start as nat),
        (*final(target) as nat) / pow2(end as nat) == (*old(target) as nat) / pow2(end as nat),
        bit_range(*final(target) as nat, start as nat, end as nat) == value,
{
    target.set_bits(start..end, value);
}

/// Calls `BitField::set_bit` of `bit_field` on a `u64`. Claimed: every bit but `bit` is
/// kept, and `bit` becomes 1 when `value` is true and 0 otherwise. The crate panics on a
/// bit index out of bounds; the `requires` keeps it out.
#[verifier::external_body]
pub(crate) fn u64_set_bit(target: &mut u64, bit: usize, value: bool)
    requires
        bit < 64,
    ensures
        (*final(target) as nat) % pow2(bit as nat) == (*old(target) as nat) % pow2(bit as nat),
        (*final(target) as nat) / pow2((bit + 1) as nat) == (*old(target) as nat) / pow2((bit + 1) as nat),
        bit_range(*final(target) as nat, bit as nat, (bit + 1) as nat) == (if value { 1nat } else { 0nat }),
{
    target.set_bit(bit, value);
}

} // verus!
