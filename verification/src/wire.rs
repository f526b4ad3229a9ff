//! Little-endian encoding of the integer fields.

use vstd::prelude::*;

verus! {

/// The two bytes of `value`, least significant first.
pub open spec fn u16_le(value: u16) -> Seq<u8> {
    seq![(value & 0xff) as u8, (value >> 8) as u8]
}

/// The four bytes of `value`, least significant first.
pub open spec fn u32_le(value: u32) -> Seq<u8> {
    seq![
        (value & 0xff) as u8,
        ((value >> 8) & 0xff) as u8,
        ((value >> 16) & 0xff) as u8,
        ((value >> 24) & 0xff) as u8,
    ]
}

/// The 32-bit word whose little-endian bytes are `b0`, `b1`, `b2`, `b3`.
pub open spec fn le_word(b0: u8, b1: u8, b2: u8, b3: u8) -> u32 {
    (b0 as u32) | ((b1 as u32) << 8) | ((b2 as u32) << 16) | ((b3 as u32) << 24)
}

/// Reading back the bytes of a word gives the word.
pub proof fn lemma_le_word_of_u32_le(value: u32)
    ensures
        u32_le(value).len() == 4,
        le_word(u32_le(value)[0], u32_le(value)[1], u32_le(value)[2], u32_le(value)[3]) == value,
{
    let b0 = (value & 0xff) as u8;
    let b1 = ((value >> 8) & 0xff) as u8;
    let b2 = ((value >> 16) & 0xff) as u8;
    let b3 = ((value >> 24) & 0xff) as u8;
    assert((b0 as u32) | ((b1 as u32) << 8) | ((b2 as u32) << 16) | ((b3 as u32) << 24) == value)
        by (bit_vector)
        requires
            b0 == (value & 0xff) as u8,
            b1 == ((value >> 8) & 0xff) as u8,
            b2 == ((value >> 16) & 0xff) as u8,
            b3 == ((value >> 24) & 0xff) as u8,
    ;
}

/// Appends `value` to `output` as two little-endian bytes.
pub fn put_u16(output: &mut Vec<u8>, value: u16)
    ensures
        final(output)@ == old(output)@ + u16_le(value),
{
    output.push((value & 0xff) as u8);
    output.push((value >> 8) as u8);
    assert(output@ =~= old(output)@ + u16_le(value));
}

/// Appends `value` to `output` as four little-endian bytes.
pub fn put_u32(output: &mut Vec<u8>, value: u32)
    ensures
        final(output)@ == old(output)@ + u32_le(value),
{
    output.push((value & 0xff) as u8);
    output.push(((value >> 8) & 0xff) as u8);
    output.push(((value >> 16) & 0xff) as u8);
    output.push(((value >> 24) & 0xff) as u8);
    assert(output@ =~= old(output)@ + u32_le(value));
}

} // verus!
