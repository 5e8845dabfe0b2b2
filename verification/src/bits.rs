//! Single bits of a byte, addressed from the left: index 0 is the most
//! significant bit, index 7 the least significant one.

use vstd::prelude::*;

verus! {

/// Whether the bit at `index` (counted from the left) of `byte` is set.
pub open spec fn bit_at(byte: u8, index: u8) -> bool {
    (byte >> (7 - index) as u8) & 1 == 1
}

/// `byte` with the bit at `index` (counted from the left) forced to `set`.
pub open spec fn with_bit(byte: u8, index: u8, set: bool) -> u8 {
    if set {
        byte | (1u8 << (7 - index) as u8)
    } else {
        byte & !(1u8 << (7 - index) as u8)
    }
}

/// Replacing a bit changes that bit and no other.
pub proof fn lemma_with_bit(byte: u8, index: u8, set: bool, other: u8)
    requires
        index < 8,
        other < 8,
    ensures
        bit_at(with_bit(byte, index, set), other) == (if other == index {
            set
        } else {
            bit_at(byte, other)
        }),
{
    let s: u8 = (7 - index) as u8;
    let t: u8 = (7 - other) as u8;
    assert(((byte | (1u8 << s)) >> t) & 1 == (if t == s {
        1u8
    } else {
        (byte >> t) & 1
    })) by (bit_vector)
        requires
            s < 8,
            t < 8,
    ;
    assert(((byte & !(1u8 << s)) >> t) & 1 == (if t == s {
        0u8
    } else {
        (byte >> t) & 1
    })) by (bit_vector)
        requires
            s < 8,
            t < 8,
    ;
}

/// Reads the bit at `bit_index_ltr`, counted from the most significant bit.
pub fn bit_value(byte: u8, bit_index_ltr: usize) -> (set: bool)
    requires
        bit_index_ltr < 8,
    ensures
        set == bit_at(byte, bit_index_ltr as u8),
{
    let shift: u8 = (7 - bit_index_ltr) as u8;
    (byte >> shift) & 0x01 == 1
}

/// Returns `byte` with the bit at `bit_offset_ltr`, counted from the most
/// significant bit, set or cleared.
pub fn byte_with_replaced_bit(byte: u8, bit_offset_ltr: usize, set: bool) -> (replaced: u8)
    requires
        bit_offset_ltr < 8,
    ensures
        replaced == with_bit(byte, bit_offset_ltr as u8, set),
{
    let shift: u8 = (7 - bit_offset_ltr) as u8;
    if set {
        byte | (1u8 << shift)
    } else {
        byte & !(1u8 << shift)
    }
}

/// The byte whose bit at each index `k` (counted from the left) is `bits(k)`.
pub open spec fn pack_bits(bits: spec_fn(u8) -> bool) -> u8 {
    (if bits(0) { 0x80u8 } else { 0 })
        | (if bits(1) { 0x40u8 } else { 0 })
        | (if bits(2) { 0x20u8 } else { 0 })
        | (if bits(3) { 0x10u8 } else { 0 })
        | (if bits(4) { 0x08u8 } else { 0 })
        | (if bits(5) { 0x04u8 } else { 0 })
        | (if bits(6) { 0x02u8 } else { 0 })
        | (if bits(7) { 0x01u8 } else { 0 })
}

/// Each bit of a packed byte is the bit it was packed from.
pub proof fn lemma_pack_bits(bits: spec_fn(u8) -> bool, index: u8)
    requires
        index < 8,
    ensures
        bit_at(pack_bits(bits), index) == bits(index),
{
    let b0 = bits(0);
    let b1 = bits(1);
    let b2 = bits(2);
    let b3 = bits(3);
    let b4 = bits(4);
    let b5 = bits(5);
    let b6 = bits(6);
    let b7 = bits(7);
    let s: u8 = (7 - index) as u8;
    let packed = pack_bits(bits);
    assert((packed >> s) & 1 == 1 <==> (if s == 7 {
        b0
    } else if s == 6 {
        b1
    } else if s == 5 {
        b2
    } else if s == 4 {
        b3
    } else if s == 3 {
        b4
    } else if s == 2 {
        b5
    } else if s == 1 {
        b6
    } else {
        b7
    })) by (bit_vector)
        requires
            s < 8,
            packed == (if b0 { 0x80u8 } else { 0 }) | (if b1 { 0x40u8 } else { 0 }) | (if b2 {
                0x20u8
            } else {
                0
            }) | (if b3 { 0x10u8 } else { 0 }) | (if b4 { 0x08u8 } else { 0 }) | (if b5 {
                0x04u8
            } else {
                0
            }) | (if b6 { 0x02u8 } else { 0 }) | (if b7 { 0x01u8 } else { 0 }),
    ;
}

/// Two bytes that agree on all eight bits are the same byte.
pub proof fn lemma_byte_ext(a: u8, b: u8)
    requires
        forall|k: u8| k < 8 ==> bit_at(a, k) == bit_at(b, k),
    ensures
        a == b,
{
    assert(bit_at(a, 0) == bit_at(b, 0));
    assert(bit_at(a, 1) == bit_at(b, 1));
    assert(bit_at(a, 2) == bit_at(b, 2));
    assert(bit_at(a, 3) == bit_at(b, 3));
    assert(bit_at(a, 4) == bit_at(b, 4));
    assert(bit_at(a, 5) == bit_at(b, 5));
    assert(bit_at(a, 6) == bit_at(b, 6));
    assert(bit_at(a, 7) == bit_at(b, 7));
    assert(a == b) by (bit_vector)
        requires
            ((a >> 7u8) & 1 == 1) == ((b >> 7u8) & 1 == 1),
            ((a >> 6u8) & 1 == 1) == ((b >> 6u8) & 1 == 1),
            ((a >> 5u8) & 1 == 1) == ((b >> 5u8) & 1 == 1),
            ((a >> 4u8) & 1 == 1) == ((b >> 4u8) & 1 == 1),
            ((a >> 3u8) & 1 == 1) == ((b >> 3u8) & 1 == 1),
            ((a >> 2u8) & 1 == 1) == ((b >> 2u8) & 1 == 1),
            ((a >> 1u8) & 1 == 1) == ((b >> 1u8) & 1 == 1),
            ((a >> 0u8) & 1 == 1) == ((b >> 0u8) & 1 == 1),
    ;
}

} // verus!
