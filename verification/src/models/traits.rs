//! Traits shared by the models.
use crate::bits::{
    includes_any_bits, includes_bits, lemma_all_includes, lemma_empty_includes,
    lemma_empty_shares_nothing,
};
use core::fmt::Debug;
use core::ops::{BitAnd, BitOr, BitXor, Not};
use vstd::prelude::*;

verus! {

/// What every bit-flag set offers: the gateway intents, the permissions, the
/// user flags.
pub trait BitFlag: PartialEq + Copy + Debug + BitOr + BitAnd + BitXor + Not {
    /// The mask of the set, zero-extended to 64 bits.
    spec fn mask(self) -> u64;

    /// Whether this set holds every flag of `other`. The empty set is included
    /// in every set.
    fn includes(self, other: Self) -> (r: bool)
        ensures
            r == includes_bits(self.mask(), other.mask()),
    ;

    /// Whether this set holds at least one flag of `other`. An empty `other`
    /// asks for nothing, and the answer is then `true`.
    fn includes_any(self, other: Self) -> (r: bool)
        ensures
            r == includes_any_bits(self.mask(), other.mask()),
    ;
}

/// The empty set includes the empty set, and no set that holds a flag.
pub proof fn law_empty_includes<T: BitFlag>(empty: T, other: T)
    requires
        empty.mask() == 0,
    ensures
        includes_bits(empty.mask(), empty.mask()),
        other.mask() != 0 ==> !includes_bits(empty.mask(), other.mask()),
{
    lemma_empty_includes(empty.mask());
    lemma_empty_includes(other.mask());
}

/// The set of all flags of a 64-bit kind includes every set of that kind.
pub proof fn law_all_includes<T: BitFlag>(all: T, other: T)
    requires
        all.mask() == u64::MAX,
    ensures
        includes_bits(all.mask(), other.mask()),
{
    lemma_all_includes(other.mask());
}

/// Asking for any flag of the empty set succeeds on every set, the empty one
/// and the full one too; asking the empty set for any flag of a set that
/// holds one fails.
pub proof fn law_includes_any_empty<T: BitFlag>(empty: T, other: T)
    requires
        empty.mask() == 0,
    ensures
        includes_any_bits(empty.mask(), empty.mask()),
        includes_any_bits(other.mask(), empty.mask()),
        other.mask() != 0 ==> !includes_any_bits(empty.mask(), other.mask()),
{
    lemma_empty_shares_nothing(other.mask());
}

} // verus!
