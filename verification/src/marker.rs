//! The markers at the two ends of a page.
//!
//! A marker is one minimum read of the device. Flash erases to all ones and a
//! write can only clear bits, so a marker counts as set once enough of its
//! bits read as zero. The bar is low on purpose: a write that was cut short
//! still shows, and so does a mark that has lost a bit or two since.

use vstd::prelude::*;

verus! {

/// Number of zero bits from which on a marker counts as set: half a byte,
/// whatever the length of the marker.
pub const HALF_MARKER_BITS: u32 = 4;

/// 1 if the bit at `position` of `byte` is zero, else 0.
pub open spec fn zero_bit(byte: u8, position: u8) -> nat {
    if byte & (1u8 << position) == 0 {
        1
    } else {
        0
    }
}

/// Number of zero bits among the eight bits of `byte`.
pub open spec fn zero_bits_of_byte(byte: u8) -> nat {
    zero_bit(byte, 0) + zero_bit(byte, 1) + zero_bit(byte, 2) + zero_bit(byte, 3) + zero_bit(
        byte,
        4,
    ) + zero_bit(byte, 5) + zero_bit(byte, 6) + zero_bit(byte, 7)
}

/// Number of zero bits in all of `bytes` together.
pub open spec fn zero_bits(bytes: Seq<u8>) -> nat
    decreases bytes.len(),
{
    if bytes.len() == 0 {
        0
    } else {
        zero_bits(bytes.drop_last()) + zero_bits_of_byte(bytes.last())
    }
}

/// Whether a marker that reads as `bytes` is set.
pub open spec fn is_marked(bytes: Seq<u8>) -> bool {
    zero_bits(bytes) >= HALF_MARKER_BITS
}

/// `u8::count_zeros` of the standard library. Taken on trust from its
/// documentation: the result is the number of zeros in the binary
/// representation of the byte.
pub assume_specification[ u8::count_zeros ](byte: u8) -> (zeros: u32)
    ensures
        zeros == zero_bits_of_byte(byte),
;

/// A longer read never holds fewer zero bits than its beginning.
pub proof fn lemma_zero_bits_of_prefix(bytes: Seq<u8>, len: int)
    requires
        0 <= len <= bytes.len(),
    ensures
        zero_bits(bytes.take(len)) <= zero_bits(bytes),
    decreases bytes.len(),
{
    if len == bytes.len() {
        assert(bytes.take(len) =~= bytes);
    } else {
        assert(bytes.take(len) =~= bytes.drop_last().take(len));
        lemma_zero_bits_of_prefix(bytes.drop_last(), len);
    }
}

/// Decides whether a marker is set from the bytes that were read for it.
pub fn marker_is_set(bytes: &[u8]) -> (marked: bool)
    ensures
        marked == is_marked(bytes@),
{
    let mut zeros: u32 = 0;
    let mut seen: usize = 0;
    while seen < bytes.len() && zeros < HALF_MARKER_BITS
        invariant
            seen <= bytes.len(),
            zeros == zero_bits(bytes@.take(seen as int)),
        decreases bytes.len() - seen,
    {
        proof {
            let next = bytes@.take(seen + 1);
            assert(next.drop_last() =~= bytes@.take(seen as int));
            assert(next.last() == bytes@[seen as int]);
        }
        zeros = zeros + bytes[seen].count_zeros();
        seen = seen + 1;
    }
    proof {
        lemma_zero_bits_of_prefix(bytes@, seen as int);
        if seen == bytes.len() {
            assert(bytes@.take(seen as int) =~= bytes@);
        }
    }
    zeros >= HALF_MARKER_BITS
}

} // verus!
