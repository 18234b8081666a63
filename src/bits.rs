//! Single-bit access on bytes: the one mechanism used to pack every flag field.
use vstd::prelude::*;

verus! {

/// Bit `i` of `v`, counting from the least significant bit.
pub open spec fn bit_at(v: u8, i: u8) -> bool {
    (v >> i) & 1u8 == 1u8
}

/// `v` with bit `i` set when `s` holds and cleared otherwise.
pub open spec fn with_bit(v: u8, i: u8, s: bool) -> u8 {
    if s {
        v | (1u8 << i)
    } else {
        v & !(1u8 << i)
    }
}

/// Sets bit `bit` of `*value` to `state`, leaving the other seven bits as they were.
pub fn set_bit_u8(value: &mut u8, bit: u8, state: bool)
    requires
        bit < 8,
    ensures
        *final(value) == with_bit(*old(value), bit, state),
        bit_at(*final(value), bit) == state,
        forall|j: u8| j < 8 && j != bit ==> bit_at(*final(value), j) == bit_at(*old(value), j),
{
    proof {
        lemma_with_bit_changes_only_bit(*value, bit, state);
    }
    if state {
        *value = *value | (1u8 << bit);
    } else {
        *value = *value & !(1u8 << bit);
    }
}

/// Reads bit `bit` of `value`.
pub fn get_bit_u8(value: u8, bit: u8) -> (r: bool)
    requires
        bit < 8,
    ensures
        r == bit_at(value, bit),
{
    (value >> bit) & 1u8 == 1u8
}

/// Writing a bit stores the requested state in that bit and changes no other bit.
pub proof fn lemma_with_bit_changes_only_bit(v: u8, i: u8, s: bool)
    requires
        i < 8,
    ensures
        bit_at(with_bit(v, i, s), i) == s,
        forall|j: u8| j < 8 && j != i ==> #[trigger] bit_at(with_bit(v, i, s), j) == bit_at(v, j),
{
    let w = with_bit(v, i, s);
    if s {
        assert(bit_at(v | (1u8 << i), i)) by (bit_vector)
            requires
                i < 8,
        ;
    } else {
        assert(!bit_at(v & !(1u8 << i), i)) by (bit_vector)
            requires
                i < 8,
        ;
    }
    assert forall|j: u8| j < 8 && j != i implies #[trigger] bit_at(w, j) == bit_at(v, j) by {
        assert(bit_at(v | (1u8 << i), j) == bit_at(v, j)) by (bit_vector)
            requires
                i < 8,
                j < 8,
                j != i,
        ;
        assert(bit_at(v & !(1u8 << i), j) == bit_at(v, j)) by (bit_vector)
            requires
                i < 8,
                j < 8,
                j != i,
        ;
    }
}

/// Writing the same state to the same bit a second time changes nothing.
pub proof fn lemma_with_bit_idempotent(v: u8, i: u8, s: bool)
    requires
        i < 8,
    ensures
        with_bit(with_bit(v, i, s), i, s) == with_bit(v, i, s),
{
    assert((v | (1u8 << i)) | (1u8 << i) == v | (1u8 << i)) by (bit_vector);
    assert((v & !(1u8 << i)) & !(1u8 << i) == v & !(1u8 << i)) by (bit_vector);
}

/// A byte is determined by its eight bits.
pub proof fn lemma_bits_determine_byte(a: u8, b: u8)
    requires
        forall|j: u8| j < 8 ==> bit_at(a, j) == bit_at(b, j),
    ensures
        a == b,
{
    assert(bit_at(a, 0) == bit_at(b, 0));
    assert(bit_at(a, 1) == bit_at(b, 1));
    assert(bit_at(a, 2) == bit_at(b, 2));
    assert(bit_at(a, 3) == bit_at(b, 3));
    assert(bit_at(a, 4) == bit_at(b, 4));
    assert(bit_at(a, 5) == bit_at(b, 5));
    assert(bit_at(a, 6) == bit_at(b, 6));
    assert(bit_at(a, 7) == bit_at(b, 7));
    assert(a == b) by (bit_vector)
        requires
            bit_at(a, 0) == bit_at(b, 0),
            bit_at(a, 1) == bit_at(b, 1),
            bit_at(a, 2) == bit_at(b, 2),
            bit_at(a, 3) == bit_at(b, 3),
            bit_at(a, 4) == bit_at(b, 4),
            bit_at(a, 5) == bit_at(b, 5),
            bit_at(a, 6) == bit_at(b, 6),
            bit_at(a, 7) == bit_at(b, 7),
    ;
}

} // verus!
