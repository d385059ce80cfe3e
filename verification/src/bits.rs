//! Facts about single bits of a 16-bit word.

use vstd::prelude::*;

verus! {

/// Whether bit `i` of `x` is set.
pub open spec fn has_bit(x: u16, i: u16) -> bool {
    (x >> i) & 1u16 == 1u16
}

/// How the bits of `&`, `|`, `!` and a single-bit mask relate to the bits of
/// their operands.
pub proof fn lemma_bit_ops(a: u16, b: u16, i: u16)
    requires
        i < 16,
    ensures
        has_bit(a & b, i) == (has_bit(a, i) && has_bit(b, i)),
        has_bit(a | b, i) == (has_bit(a, i) || has_bit(b, i)),
        has_bit(!a, i) == !has_bit(a, i),
        !has_bit(0u16, i),
{
    assert(has_bit(a & b, i) == (has_bit(a, i) && has_bit(b, i))) by (bit_vector)
        requires
            i < 16,
    ;
    assert(has_bit(a | b, i) == (has_bit(a, i) || has_bit(b, i))) by (bit_vector)
        requires
            i < 16,
    ;
    assert(has_bit(!a, i) == !has_bit(a, i)) by (bit_vector)
        requires
            i < 16,
    ;
    assert(!has_bit(0u16, i)) by (bit_vector);
}

/// The word `1 << j` has exactly bit `j` set.
pub proof fn lemma_single_bit(j: u16, i: u16)
    requires
        i < 16,
        j < 16,
    ensures
        has_bit(1u16 << j, i) == (i == j),
{
    assert(has_bit(1u16 << j, i) == (i == j)) by (bit_vector)
        requires
            i < 16,
            j < 16,
    ;
}

/// Two words with the same bits are equal.
pub proof fn lemma_bits_ext(a: u16, b: u16)
    requires
        forall|i: u16| i < 16 ==> #[trigger] has_bit(a, i) == has_bit(b, i),
    ensures
        a == b,
{
    assert(has_bit(a, 0) == has_bit(b, 0));
    assert(has_bit(a, 1) == has_bit(b, 1));
    assert(has_bit(a, 2) == has_bit(b, 2));
    assert(has_bit(a, 3) == has_bit(b, 3));
    assert(has_bit(a, 4) == has_bit(b, 4));
    assert(has_bit(a, 5) == has_bit(b, 5));
    assert(has_bit(a, 6) == has_bit(b, 6));
    assert(has_bit(a, 7) == has_bit(b, 7));
    assert(has_bit(a, 8) == has_bit(b, 8));
    assert(has_bit(a, 9) == has_bit(b, 9));
    assert(has_bit(a, 10) == has_bit(b, 10));
    assert(has_bit(a, 11) == has_bit(b, 11));
    assert(has_bit(a, 12) == has_bit(b, 12));
    assert(has_bit(a, 13) == has_bit(b, 13));
    assert(has_bit(a, 14) == has_bit(b, 14));
    assert(has_bit(a, 15) == has_bit(b, 15));
    assert(a == b) by (bit_vector)
        requires
            has_bit(a, 0) == has_bit(b, 0),
            has_bit(a, 1) == has_bit(b, 1),
            has_bit(a, 2) == has_bit(b, 2),
            has_bit(a, 3) == has_bit(b, 3),
            has_bit(a, 4) == has_bit(b, 4),
            has_bit(a, 5) == has_bit(b, 5),
            has_bit(a, 6) == has_bit(b, 6),
            has_bit(a, 7) == has_bit(b, 7),
            has_bit(a, 8) == has_bit(b, 8),
            has_bit(a, 9) == has_bit(b, 9),
            has_bit(a, 10) == has_bit(b, 10),
            has_bit(a, 11) == has_bit(b, 11),
            has_bit(a, 12) == has_bit(b, 12),
            has_bit(a, 13) == has_bit(b, 13),
            has_bit(a, 14) == has_bit(b, 14),
            has_bit(a, 15) == has_bit(b, 15),
    ;
}

/// Every bit of `a` is a bit of `b` exactly when `a & !b` is zero.
pub proof fn lemma_subset_bits(a: u16, b: u16)
    ensures
        (a & !b == 0) == (forall|i: u16| i < 16 && #[trigger] has_bit(a, i) ==> has_bit(b, i)),
{
    if a & !b == 0 {
        assert forall|i: u16| i < 16 && #[trigger] has_bit(a, i) implies has_bit(b, i) by {
            lemma_bit_ops(a, !b, i);
            lemma_bit_ops(b, b, i);
        }
    }
    if forall|i: u16| i < 16 && #[trigger] has_bit(a, i) ==> has_bit(b, i) {
        assert forall|i: u16| i < 16 implies #[trigger] has_bit(a & !b, i) == has_bit(0u16, i) by {
            lemma_bit_ops(a, !b, i);
            lemma_bit_ops(b, b, i);
        }
        lemma_bits_ext(a & !b, 0u16);
    }
}

} // verus!
