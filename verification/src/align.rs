//! Alignment arithmetic and zero padding.

use vstd::prelude::*;

verus! {

/// Number of bytes that must follow `value` bytes to reach the next multiple
/// of `alignment`; zero when `value` is already aligned.
pub open spec fn alignment_gap(value: int, alignment: int) -> int
    recommends
        value >= 0,
        alignment > 0,
{
    if value % alignment != 0 {
        alignment - value % alignment
    } else {
        0
    }
}

/// A run of `count` zero bytes.
pub open spec fn zeros(count: nat) -> Seq<u8> {
    Seq::new(count, |i: int| 0u8)
}

/// Adding the gap to a value yields the smallest aligned value not below it.
pub proof fn lemma_alignment_gap(value: int, alignment: int)
    requires
        value >= 0,
        alignment > 0,
    ensures
        0 <= alignment_gap(value, alignment) < alignment,
        (value + alignment_gap(value, alignment)) % alignment == 0,
        value % alignment == 0 ==> alignment_gap(value, alignment) == 0,
{
    let r = value % alignment;
    let q = value / alignment;
    assert(value == alignment * q + r) by (nonlinear_arith)
        requires
            alignment > 0,
            r == value % alignment,
            q == value / alignment,
    ;
    if r != 0 {
        assert((alignment * (q + 1)) % alignment == 0) by (nonlinear_arith)
            requires
                alignment > 0,
        ;
        assert(value + (alignment - r) == alignment * (q + 1)) by (nonlinear_arith)
            requires
                value == alignment * q + r,
        ;
    }
}

/// How many bytes must be appended after `value` bytes so that the total is a
/// multiple of `alignment`.
pub fn amount_alignment_needed(value: u32, alignment: u32) -> (gap: u32)
    requires
        alignment > 0,
    ensures
        gap == alignment_gap(value as int, alignment as int),
        gap < alignment,
        (value + gap) % (alignment as int) == 0,
{
    proof {
        lemma_alignment_gap(value as int, alignment as int);
    }
    if value % alignment != 0 {
        alignment - (value % alignment)
    } else {
        0
    }
}

/// Appends `length` zero bytes to `output`.
pub fn do_pad(output: &mut Vec<u8>, length: usize)
    ensures
        final(output)@ == old(output)@ + zeros(length as nat),
{
    let mut written: usize = 0;
    while written < length
        invariant
            written <= length,
            output@ == old(output)@ + zeros(written as nat),
        decreases length - written,
    {
        output.push(0u8);
        written = written + 1;
    }
}

} // verus!
