//! The integrity checksum of a header: an XOR fold over little-endian
//! 32-bit words, stored in the fourth word of the buffer.

use vstd::prelude::*;
use crate::align::{do_pad, zeros};
use crate::wire::{le_word, lemma_le_word_of_u32_le, u32_le};

verus! {

/// Byte offset of the checksum field.
pub const CHECKSUM_OFFSET: usize = 12;

/// Byte offset just past the checksum field.
pub const CHECKSUM_END: usize = 16;

/// The byte at `index`, or zero beyond the end of `bytes`.
pub open spec fn byte_or_zero(bytes: Seq<u8>, index: int) -> u8 {
    if 0 <= index < bytes.len() {
        bytes[index]
    } else {
        0
    }
}

/// The `k`-th little-endian word of `bytes`; a trailing partial word is
/// extended with zero bytes.
pub open spec fn word_at(bytes: Seq<u8>, k: int) -> u32 {
    le_word(
        byte_or_zero(bytes, 4 * k),
        byte_or_zero(bytes, 4 * k + 1),
        byte_or_zero(bytes, 4 * k + 2),
        byte_or_zero(bytes, 4 * k + 3),
    )
}

/// Number of words that cover `len` bytes, a trailing partial word included.
pub open spec fn word_count(len: nat) -> nat {
    ((len + 3) / 4) as nat
}

/// XOR of the first `count` words of `bytes`.
pub open spec fn xor_fold_prefix(bytes: Seq<u8>, count: nat) -> u32
    decreases count,
{
    if count == 0 {
        0
    } else {
        xor_fold_prefix(bytes, (count - 1) as nat) ^ word_at(bytes, count - 1)
    }
}

/// XOR of all words of `bytes`.
pub open spec fn xor_fold(bytes: Seq<u8>) -> u32 {
    xor_fold_prefix(bytes, word_count(bytes.len()))
}

/// `bytes`, extended with zeros to at least sixteen bytes, with the checksum
/// field replaced by the little-endian bytes of `value`.
pub open spec fn with_checksum_field(bytes: Seq<u8>, value: u32) -> Seq<u8> {
    let full = if bytes.len() < CHECKSUM_END {
        bytes + zeros((CHECKSUM_END - bytes.len()) as nat)
    } else {
        bytes
    };
    full.subrange(0, CHECKSUM_OFFSET as int) + u32_le(value) + full.subrange(
        CHECKSUM_END as int,
        full.len() as int,
    )
}

/// The checksum of `bytes`: the fold of the buffer with its checksum field
/// taken as zero.
pub open spec fn checksum_of(bytes: Seq<u8>) -> u32 {
    xor_fold(with_checksum_field(bytes, 0))
}

/// `bytes` with its own checksum stored in the checksum field.
pub open spec fn sealed(bytes: Seq<u8>) -> Seq<u8> {
    with_checksum_field(bytes, checksum_of(bytes))
}

/// Writing a value into the checksum field keeps the length (once the buffer
/// holds the field) and every byte outside the field.
pub proof fn lemma_with_checksum_field(bytes: Seq<u8>, value: u32)
    ensures
        with_checksum_field(bytes, value).len() == if bytes.len() < CHECKSUM_END {
            CHECKSUM_END as nat
        } else {
            bytes.len()
        },
        forall|i: int|
            0 <= i < with_checksum_field(bytes, value).len() && !(CHECKSUM_OFFSET <= i
                < CHECKSUM_END) ==> #[trigger] with_checksum_field(bytes, value)[i]
                == byte_or_zero(bytes, i),
        forall|i: int|
            0 <= i < 4 ==> #[trigger] with_checksum_field(bytes, value)[CHECKSUM_OFFSET + i]
                == u32_le(value)[i],
        word_at(with_checksum_field(bytes, value), 3) == value,
{
    lemma_le_word_of_u32_le(value);
    let out = with_checksum_field(bytes, value);
    assert(out[12] == u32_le(value)[0]);
    assert(out[13] == u32_le(value)[1]);
    assert(out[14] == u32_le(value)[2]);
    assert(out[15] == u32_le(value)[3]);
}

/// Two buffers that differ only in the checksum field have words that differ
/// only at the field, so their folds differ by the XOR of the two fields.
proof fn lemma_fold_with_field(bytes: Seq<u8>, value: u32, count: nat)
    ensures
        xor_fold_prefix(with_checksum_field(bytes, value), count) == if count <= 3 {
            xor_fold_prefix(with_checksum_field(bytes, 0), count)
        } else {
            xor_fold_prefix(with_checksum_field(bytes, 0), count) ^ value
        },
    decreases count,
{
    let zeroed = with_checksum_field(bytes, 0);
    let stored = with_checksum_field(bytes, value);
    if count > 0 {
        let k = (count - 1) as nat;
        lemma_fold_with_field(bytes, value, k);
        lemma_with_checksum_field(bytes, 0);
        lemma_with_checksum_field(bytes, value);
        let before_zeroed = xor_fold_prefix(zeroed, k);
        let before_stored = xor_fold_prefix(stored, k);
        if k == 3 {
            assert(before_zeroed ^ 0u32 == before_zeroed) by (bit_vector);
        } else {
            assert(word_at(stored, k as int) == word_at(zeroed, k as int));
            let w = word_at(zeroed, k as int);
            assert((before_zeroed ^ value) ^ w == (before_zeroed ^ w) ^ value) by (bit_vector);
        }
    }
}

/// A sealed buffer folds to zero.
pub proof fn lemma_sealed_folds_to_zero(bytes: Seq<u8>)
    ensures
        xor_fold(sealed(bytes)) == 0,
{
    let value = checksum_of(bytes);
    lemma_with_checksum_field(bytes, 0);
    lemma_with_checksum_field(bytes, value);
    lemma_fold_with_field(bytes, value, word_count(sealed(bytes).len()));
    assert(value ^ value == 0u32) by (bit_vector);
}

/// Sealing keeps the length of a buffer that holds the checksum field, and
/// changes no byte outside the field.
pub proof fn lemma_sealed_frame(bytes: Seq<u8>)
    requires
        bytes.len() >= CHECKSUM_END,
    ensures
        sealed(bytes).len() == bytes.len(),
        forall|i: int|
            0 <= i < bytes.len() && !(CHECKSUM_OFFSET <= i < CHECKSUM_END) ==> #[trigger] sealed(
                bytes,
            )[i] == bytes[i],
{
    lemma_with_checksum_field(bytes, checksum_of(bytes));
}

/// Folds `bytes` into one word by XOR over its little-endian 32-bit words. A
/// trailing partial word is extended with zero bytes.
pub fn fold_words(bytes: &[u8]) -> (folded: u32)
    ensures
        folded == xor_fold(bytes@),
{
    let len: usize = bytes.len();
    let mut folded: u32 = 0;
    let mut pos: usize = 0;
    while pos < len
        invariant
            len == bytes@.len(),
            pos <= len,
            pos % 4 == 0 || pos == len,
            folded == xor_fold_prefix(bytes@, word_count(pos as nat)),
        decreases len - pos,
    {
        let remaining: usize = len - pos;
        let b0: u8 = bytes[pos];
        let b1: u8 = if remaining > 1 {
            bytes[pos + 1]
        } else {
            0
        };
        let b2: u8 = if remaining > 2 {
            bytes[pos + 2]
        } else {
            0
        };
        let b3: u8 = if remaining > 3 {
            bytes[pos + 3]
        } else {
            0
        };
        let word: u32 = (b0 as u32) | ((b1 as u32) << 8) | ((b2 as u32) << 16) | ((b3 as u32)
            << 24);
        assert(word == word_at(bytes@, pos as int / 4));
        folded = folded ^ word;
        pos = if remaining > 3 {
            pos + 4
        } else {
            len
        };
    }
    folded
}

/// Computes the checksum of `buffer`, taking its checksum field as zero, and
/// stores it in that field. A buffer too short to hold the field is first
/// extended with zeros.
pub fn inject_checksum(buffer: &mut Vec<u8>)
    ensures
        final(buffer)@ == sealed(old(buffer)@),
        xor_fold(final(buffer)@) == 0,
{
    if buffer.len() < CHECKSUM_END {
        let missing: usize = CHECKSUM_END - buffer.len();
        do_pad(buffer, missing);
    }
    buffer.set(CHECKSUM_OFFSET, 0u8);
    buffer.set(CHECKSUM_OFFSET + 1, 0u8);
    buffer.set(CHECKSUM_OFFSET + 2, 0u8);
    buffer.set(CHECKSUM_OFFSET + 3, 0u8);
    proof {
        lemma_with_checksum_field(old(buffer)@, 0);
        assert(u32_le(0u32)[0] == 0u8 && u32_le(0u32)[1] == 0u8 && u32_le(0u32)[2] == 0u8
            && u32_le(0u32)[3] == 0u8) by (bit_vector);
        assert(buffer@ =~= with_checksum_field(old(buffer)@, 0));
    }
    let checksum: u32 = fold_words(buffer.as_slice());
    buffer.set(CHECKSUM_OFFSET, (checksum & 0xff) as u8);
    buffer.set(CHECKSUM_OFFSET + 1, ((checksum >> 8) & 0xff) as u8);
    buffer.set(CHECKSUM_OFFSET + 2, ((checksum >> 16) & 0xff) as u8);
    buffer.set(CHECKSUM_OFFSET + 3, ((checksum >> 24) & 0xff) as u8);
    proof {
        lemma_with_checksum_field(old(buffer)@, checksum);
        assert(buffer@ =~= sealed(old(buffer)@));
        lemma_sealed_folds_to_zero(old(buffer)@);
    }
}

} // verus!
