//! The bit-level meaning of a mask, and the algebra of masks.
//!
//! A flag set is a fixed-width unsigned integer. Its meaning is the set of
//! positions at which it holds a one; the lemmas here tie the usual mask tests
//! to that meaning. A 32-bit mask is read through its zero extension.
use vstd::prelude::*;

verus! {

/// Whether `mask` holds a one at `position`.
pub open spec fn has_bit(mask: u64, position: u64) -> bool {
    (mask >> position) & 1 == 1
}

/// Every position that is set in `other` is set in `mask` as well.
pub open spec fn includes_bits(mask: u64, other: u64) -> bool {
    forall|position: u64| position < 64 && has_bit(other, position) ==> has_bit(mask, position)
}

/// Some position is set in both masks.
pub open spec fn shares_bit(mask: u64, other: u64) -> bool {
    exists|position: u64| position < 64 && has_bit(mask, position) && has_bit(other, position)
}

/// The query behind `includes_any`: a shared position, or nothing asked for.
pub open spec fn includes_any_bits(mask: u64, other: u64) -> bool {
    shares_bit(mask, other) || other == 0
}

/// A mask other than zero holds a one somewhere.
pub proof fn lemma_nonzero_has_bit(mask: u64) -> (position: u64)
    requires
        mask != 0,
    ensures
        position < 64,
        has_bit(mask, position),
    decreases mask,
{
    if mask & 1 == 1 {
        assert((mask >> 0) & 1 == 1) by (bit_vector)
            requires
                mask & 1 == 1,
        ;
        0
    } else {
        let rest = mask >> 1;
        assert(rest != 0 && rest < mask) by (bit_vector)
            requires
                mask != 0,
                mask & 1 != 1,
                rest == mask >> 1,
        ;
        let below = lemma_nonzero_has_bit(rest);
        assert(below < 63 && (mask >> ((below + 1) as u64)) & 1 == 1) by (bit_vector)
            requires
                below < 64,
                (rest >> below) & 1 == 1,
                rest == mask >> 1,
        ;
        (below + 1) as u64
    }
}

/// The mask test `mask & other == other` decides inclusion.
pub proof fn lemma_includes_bits(mask: u64, other: u64)
    ensures
        includes_bits(mask, other) <==> mask & other == other,
{
    if mask & other == other {
        assert forall|position: u64| position < 64 && has_bit(other, position) implies has_bit(
            mask,
            position,
        ) by {
            assert((mask >> position) & 1 == 1) by (bit_vector)
                requires
                    mask & other == other,
                    (other >> position) & 1 == 1,
            ;
        }
    } else {
        let missing = (mask & other) ^ other;
        assert(missing != 0) by (bit_vector)
            requires
                mask & other != other,
                missing == (mask & other) ^ other,
        ;
        let position = lemma_nonzero_has_bit(missing);
        assert((other >> position) & 1 == 1 && (mask >> position) & 1 != 1) by (bit_vector)
            requires
                (missing >> position) & 1 == 1,
                missing == (mask & other) ^ other,
        ;
        assert(has_bit(other, position) && !has_bit(mask, position));
    }
}

/// The mask test `mask & other != 0` decides whether two masks share a position.
pub proof fn lemma_shares_bit(mask: u64, other: u64)
    ensures
        shares_bit(mask, other) <==> mask & other != 0,
{
    if mask & other != 0 {
        let position = lemma_nonzero_has_bit(mask & other);
        assert((mask >> position) & 1 == 1 && (other >> position) & 1 == 1) by (bit_vector)
            requires
                ((mask & other) >> position) & 1 == 1,
        ;
        assert(has_bit(mask, position) && has_bit(other, position));
    } else {
        assert forall|position: u64|
            !(position < 64 && has_bit(mask, position) && has_bit(other, position)) by {
            assert(!((mask >> position) & 1 == 1 && (other >> position) & 1 == 1)) by (bit_vector)
                requires
                    mask & other == 0,
            ;
        }
    }
}

/// OR, AND, XOR and NOT work bit for bit: a position of the result depends on
/// the same position of the operands alone.
pub proof fn law_bit_for_bit(a: u64, b: u64, position: u64)
    requires
        position < 64,
    ensures
        has_bit(a | b, position) <==> has_bit(a, position) || has_bit(b, position),
        has_bit(a & b, position) <==> has_bit(a, position) && has_bit(b, position),
        has_bit(a ^ b, position) <==> has_bit(a, position) != has_bit(b, position),
        has_bit(!a, position) <==> !has_bit(a, position),
{
    assert({
        &&& (((a | b) >> position) & 1 == 1) <==> ((a >> position) & 1 == 1) || ((b >> position)
            & 1 == 1)
        &&& (((a & b) >> position) & 1 == 1) <==> ((a >> position) & 1 == 1) && ((b >> position)
            & 1 == 1)
        &&& (((a ^ b) >> position) & 1 == 1) <==> (((a >> position) & 1 == 1) != ((b >> position)
            & 1 == 1))
        &&& (((!a) >> position) & 1 == 1) <==> !((a >> position) & 1 == 1)
    }) by (bit_vector)
        requires
            position < 64,
    ;
}

/// The empty mask includes itself and nothing else.
pub proof fn lemma_empty_includes(other: u64)
    ensures
        includes_bits(0, other) <==> other == 0,
{
    lemma_includes_bits(0, other);
    assert((0u64 & other == other) <==> other == 0) by (bit_vector);
}

/// The mask of all bits includes every mask.
pub proof fn lemma_all_includes(other: u64)
    ensures
        includes_bits(u64::MAX, other),
{
    lemma_includes_bits(u64::MAX, other);
    assert(0xffff_ffff_ffff_ffffu64 & other == other) by (bit_vector);
}

/// The 32-bit mask of all bits includes every 32-bit mask.
pub proof fn lemma_all_includes_u32(other: u32)
    ensures
        includes_bits(u32::MAX as u64, other as u64),
{
    lemma_includes_bits(u32::MAX as u64, other as u64);
    assert(0xffff_ffffu64 & (other as u64) == other as u64) by (bit_vector);
}

/// The empty mask shares a position with no mask.
pub proof fn lemma_empty_shares_nothing(other: u64)
    ensures
        !shares_bit(0, other),
        !shares_bit(other, 0),
{
    lemma_shares_bit(0, other);
    lemma_shares_bit(other, 0);
    assert(0u64 & other == 0 && other & 0u64 == 0) by (bit_vector);
}

/// OR, AND and XOR of 64-bit masks do not depend on the order of their operands.
pub proof fn lemma_commutative_u64(a: u64, b: u64)
    by (bit_vector)
    ensures
        a | b == b | a,
        a & b == b & a,
        a ^ b == b ^ a,
{
}

/// OR, AND and XOR of 64-bit masks do not depend on how they are grouped.
pub proof fn lemma_associative_u64(a: u64, b: u64, c: u64)
    by (bit_vector)
    ensures
        (a | b) | c == a | (b | c),
        (a & b) & c == a & (b & c),
        (a ^ b) ^ c == a ^ (b ^ c),
{
}

/// De Morgan's laws for 64-bit masks.
pub proof fn lemma_de_morgan_u64(a: u64, b: u64)
    by (bit_vector)
    ensures
        !(a | b) == !a & !b,
        !(a & b) == !a | !b,
{
}

/// A 64-bit mask and its complement make up all bits and share none.
pub proof fn lemma_complement_u64(a: u64)
    by (bit_vector)
    ensures
        a | !a == 0xffff_ffff_ffff_ffffu64,
        a & !a == 0,
{
}

/// OR, AND and XOR of 32-bit masks do not depend on the order of their operands.
pub proof fn lemma_commutative_u32(a: u32, b: u32)
    by (bit_vector)
    ensures
        a | b == b | a,
        a & b == b & a,
        a ^ b == b ^ a,
{
}

/// OR, AND and XOR of 32-bit masks do not depend on how they are grouped.
pub proof fn lemma_associative_u32(a: u32, b: u32, c: u32)
    by (bit_vector)
    ensures
        (a | b) | c == a | (b | c),
        (a & b) & c == a & (b & c),
        (a ^ b) ^ c == a ^ (b ^ c),
{
}

/// De Morgan's laws for 32-bit masks.
pub proof fn lemma_de_morgan_u32(a: u32, b: u32)
    by (bit_vector)
    ensures
        !(a | b) == !a & !b,
        !(a & b) == !a | !b,
{
}

/// The mask tests on 32-bit masks agree with those on their zero extensions.
pub proof fn lemma_widen_u32(a: u32, b: u32)
    by (bit_vector)
    ensures
        (a & b == b) <==> ((a as u64) & (b as u64) == (b as u64)),
        (a & b != 0) <==> ((a as u64) & (b as u64) != 0),
        (b == 0) <==> (b as u64 == 0),
{
}

} // verus!
