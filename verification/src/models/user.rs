//! Users and what Discord says of them.
use crate::bits::{
    includes_bits, lemma_all_includes_u32, lemma_associative_u32, lemma_commutative_u32,
    lemma_de_morgan_u32, lemma_includes_bits, lemma_shares_bit, lemma_widen_u32,
};
use crate::color::Color;
use crate::locale::Locale;
use crate::error::Error;
use crate::models::traits::BitFlag;
use crate::snowflake::{Snowflakable, Snowflake};
use crate::utilities::serde::{
    decoded_u32, deserialize_u32, encoded_u32, serialize_u32, WireValue,
};
use core::cmp::Ordering;
use core::ops::{BitAnd, BitAndAssign, BitOr, BitOrAssign, BitXor, BitXorAssign, Not};
use vstd::prelude::*;
use vstd::std_specs::ops::{BitAndSpec, BitOrSpec, BitXorSpec, NotSpec};

verus! {

/// A Discord user.
#[derive(Debug, PartialEq, Clone)]
pub struct User {
    pub id: Snowflake<User>,
    /// The username.
    pub name: String,
    /// Shown as `username#discriminator` in the app.
    pub discriminator: u16,
    /// The hash of the avatar.
    pub avatar: Option<String>,
    pub bot: bool,
    pub system: bool,
    pub mfa_enabled: bool,
    pub banner: Option<String>,
    pub accent_color: Option<Color>,
    pub locale: Locale,
    /// Whether the email of the user has been verified.
    pub email_verified: bool,
    pub email: Option<String>,
    pub flags: Userflags,
    /// The premium type of the user.
    pub nitro_subscription: NitroSubscription,
}

/// The flags of a [`User`]. On the client side these are the badges.
///
/// A set of flags is a 32-bit mask, one bit per flag. Every bit pattern is a
/// valid set.
#[derive(Debug, Clone, Copy, PartialEq, Eq, Structural, Ord)]
pub struct Userflags(pub u32);

#[allow(non_snake_case)]
impl Userflags {
    /// Gives an empty set of user flags.
    pub fn EMPTY() -> (r: Self)
        ensures
            r.0 == 0,
    {
        Userflags(0)
    }

    /// The STAFF user flag.
    pub fn STAFF() -> (r: Self)
        ensures
            r.0 == 1u32 << 0,
    {
        Self(1 << 0)
    }

    /// The PARTNER user flag.
    pub fn PARTNER() -> (r: Self)
        ensures
            r.0 == 1u32 << 1,
    {
        Self(1 << 1)
    }

    /// The HYPESQUAD user flag.
    pub fn HYPESQUAD() -> (r: Self)
        ensures
            r.0 == 1u32 << 2,
    {
        Self(1 << 2)
    }

    /// The BUG_HUNTER_LEVEL_1 user flag.
    pub fn BUG_HUNTER_LEVEL_1() -> (r: Self)
        ensures
            r.0 == 1u32 << 3,
    {
        Self(1 << 3)
    }

    /// The HYPESQUAD_ONLINE_HOUSE_1 user flag.
    pub fn HYPESQUAD_ONLINE_HOUSE_1() -> (r: Self)
        ensures
            r.0 == 1u32 << 6,
    {
        Self(1 << 6)
    }

    /// An alias to the [`Userflags::HYPESQUAD_ONLINE_HOUSE_1`] user flag.
    pub fn HYPESQUAD_BRAVERY() -> (r: Self)
        ensures
            r.0 == 1u32 << 6,
    {
        Self::HYPESQUAD_ONLINE_HOUSE_1()
    }

    /// The HYPESQUAD_ONLINE_HOUSE_2 user flag.
    pub fn HYPESQUAD_ONLINE_HOUSE_2() -> (r: Self)
        ensures
            r.0 == 1u32 << 7,
    {
        Self(1 << 7)
    }

    /// An alias to the [`Userflags::HYPESQUAD_ONLINE_HOUSE_2`] user flag.
    pub fn HYPESQUAD_BRILLIANCE() -> (r: Self)
        ensures
            r.0 == 1u32 << 7,
    {
        Self::HYPESQUAD_ONLINE_HOUSE_2()
    }

    /// The HYPESQUAD_ONLINE_HOUSE_3 user flag.
    pub fn HYPESQUAD_ONLINE_HOUSE_3() -> (r: Self)
        ensures
            r.0 == 1u32 << 8,
    {
        Self(1 << 8)
    }

    /// An alias to the [`Userflags::HYPESQUAD_ONLINE_HOUSE_3`] user flag.
    pub fn HYPESQUAD_BALANCE() -> (r: Self)
        ensures
            r.0 == 1u32 << 8,
    {
        Self::HYPESQUAD_ONLINE_HOUSE_3()
    }

    /// The PREMIUM_EARLY_SUPPORTER user flag.
    pub fn PREMIUM_EARLY_SUPPORTER() -> (r: Self)
        ensures
            r.0 == 1u32 << 9,
    {
        Self(1 << 9)
    }

    /// An alias to the [`Userflags::PREMIUM_EARLY_SUPPORTER`] user flag.
    pub fn EARLY_SUPPORTER() -> (r: Self)
        ensures
            r.0 == 1u32 << 9,
    {
        Self::PREMIUM_EARLY_SUPPORTER()
    }

    /// The TEAM_PSEUDO_USER user flag.
    pub fn TEAM_PSEUDO_USER() -> (r: Self)
        ensures
            r.0 == 1u32 << 10,
    {
        Self(1 << 10)
    }

    /// The BUG_HUNTER_LEVEL_2 user flag.
    pub fn BUG_HUNTER_LEVEL_2() -> (r: Self)
        ensures
            r.0 == 1u32 << 14,
    {
        Self(1 << 14)
    }

    /// The VERIFIED_BOT user flag.
    pub fn VERIFIED_BOT() -> (r: Self)
        ensures
            r.0 == 1u32 << 16,
    {
        Self(1 << 16)
    }

    /// The VERIFIED_DEVELOPER user flag.
    pub fn VERIFIED_DEVELOPER() -> (r: Self)
        ensures
            r.0 == 1u32 << 17,
    {
        Self(1 << 17)
    }

    /// The CERTIFIED_MODERATOR user flag.
    pub fn CERTIFIED_MODERATOR() -> (r: Self)
        ensures
            r.0 == 1u32 << 18,
    {
        Self(1 << 18)
    }

    /// The BOT_HTTP_INTERACTIONS user flag.
    pub fn BOT_HTTP_INTERACTIONS() -> (r: Self)
        ensures
            r.0 == 1u32 << 19,
    {
        Self(1 << 19)
    }

}

/// The premium subscription of a user. Discord numbers them 0, 1 and 2.
#[derive(Debug, PartialEq, Eq, Structural, Clone, Copy)]
pub enum NitroSubscription {
    /// No subscription.
    NoSubscription,
    Classic,
    Nitro,
}

impl NitroSubscription {
    /// The number of the subscription in the Discord API.
    pub fn value(self) -> (r: u8)
        ensures
            r == match self {
                NitroSubscription::NoSubscription => 0u8,
                NitroSubscription::Classic => 1u8,
                NitroSubscription::Nitro => 2u8,
            },
    {
        match self {
            NitroSubscription::NoSubscription => 0,
            NitroSubscription::Classic => 1,
            NitroSubscription::Nitro => 2,
        }
    }
}

impl Snowflakable for User {
    fn id(&self) -> (r: Snowflake<Self>)
        ensures
            r@ == self.id@,
    {
        self.id
    }
}

/// `|` is the union of two sets of the same kind, bit for bit.
impl BitOr for Userflags {
    type Output = Userflags;

    fn bitor(self, other: Userflags) -> (r: Userflags)
        ensures
            r.0 == self.0 | other.0,
    {
        Userflags(self.0 | other.0)
    }
}

impl vstd::std_specs::ops::BitOrSpecImpl for Userflags {
    open spec fn obeys_bitor_spec() -> bool {
        true
    }

    open spec fn bitor_req(self, other: Userflags) -> bool {
        true
    }

    open spec fn bitor_spec(self, other: Userflags) -> Userflags {
        Userflags(self.0 | other.0)
    }
}

/// `&` is the intersection of two sets of the same kind, bit for bit.
impl BitAnd for Userflags {
    type Output = Userflags;

    fn bitand(self, other: Userflags) -> (r: Userflags)
        ensures
            r.0 == self.0 & other.0,
    {
        Userflags(self.0 & other.0)
    }
}

impl vstd::std_specs::ops::BitAndSpecImpl for Userflags {
    open spec fn obeys_bitand_spec() -> bool {
        true
    }

    open spec fn bitand_req(self, other: Userflags) -> bool {
        true
    }

    open spec fn bitand_spec(self, other: Userflags) -> Userflags {
        Userflags(self.0 & other.0)
    }
}

/// `^` is the symmetric difference of two sets of the same kind, bit for bit.
impl BitXor for Userflags {
    type Output = Userflags;

    fn bitxor(self, other: Userflags) -> (r: Userflags)
        ensures
            r.0 == self.0 ^ other.0,
    {
        Userflags(self.0 ^ other.0)
    }
}

impl vstd::std_specs::ops::BitXorSpecImpl for Userflags {
    open spec fn obeys_bitxor_spec() -> bool {
        true
    }

    open spec fn bitxor_req(self, other: Userflags) -> bool {
        true
    }

    open spec fn bitxor_spec(self, other: Userflags) -> Userflags {
        Userflags(self.0 ^ other.0)
    }
}

/// `!` complements every bit of the mask, the reserved ones too.
impl Not for Userflags {
    type Output = Userflags;

    fn not(self) -> (r: Userflags)
        ensures
            r.0 == !self.0,
    {
        Userflags(!self.0)
    }
}

impl vstd::std_specs::ops::NotSpecImpl for Userflags {
    open spec fn obeys_not_spec() -> bool {
        true
    }

    open spec fn not_req(self) -> bool {
        true
    }

    open spec fn not_spec(self) -> Userflags {
        Userflags(!self.0)
    }
}

impl BitOrAssign for Userflags {
    fn bitor_assign(&mut self, other: Userflags)
        ensures
            final(self).0 == old(self).0 | other.0,
    {
        self.0 |= other.0;
    }
}

impl BitAndAssign for Userflags {
    fn bitand_assign(&mut self, other: Userflags)
        ensures
            final(self).0 == old(self).0 & other.0,
    {
        self.0 &= other.0;
    }
}

impl BitXorAssign for Userflags {
    fn bitxor_assign(&mut self, other: Userflags)
        ensures
            final(self).0 == old(self).0 ^ other.0,
    {
        self.0 ^= other.0;
    }
}

impl From<u32> for Userflags {
    fn from(i: u32) -> (r: Userflags)
        ensures
            r.0 == i,
    {
        Userflags(i)
    }
}

impl vstd::std_specs::convert::FromSpecImpl<u32> for Userflags {
    open spec fn obeys_from_spec() -> bool {
        true
    }

    open spec fn from_spec(i: u32) -> Userflags {
        Userflags(i)
    }
}

impl From<Userflags> for u32 {
    fn from(f: Userflags) -> (r: u32)
        ensures
            r == f.0,
    {
        f.0
    }
}

impl vstd::std_specs::convert::FromSpecImpl<Userflags> for u32 {
    open spec fn obeys_from_spec() -> bool {
        true
    }

    open spec fn from_spec(f: Userflags) -> u32 {
        f.0
    }
}

/// Sets of the same kind are ordered by their masks.
impl PartialOrd for Userflags {
    fn partial_cmp(&self, other: &Self) -> (r: Option<Ordering>)
        ensures
            r == if self.0 < other.0 {
                Some(Ordering::Less)
            } else if self.0 == other.0 {
                Some(Ordering::Equal)
            } else {
                Some(Ordering::Greater)
            },
    {
        if self.0 < other.0 {
            Some(Ordering::Less)
        } else if self.0 == other.0 {
            Some(Ordering::Equal)
        } else {
            Some(Ordering::Greater)
        }
    }
}

impl vstd::std_specs::cmp::PartialOrdSpecImpl for Userflags {
    open spec fn obeys_partial_cmp_spec() -> bool {
        true
    }

    open spec fn partial_cmp_spec(&self, other: &Self) -> Option<Ordering> {
        if self.0 < other.0 {
            Some(Ordering::Less)
        } else if self.0 == other.0 {
            Some(Ordering::Equal)
        } else {
            Some(Ordering::Greater)
        }
    }
}

impl Userflags {
    /// The wire form of the set: that of its mask.
    pub fn serialize(&self) -> (r: WireValue)
        ensures
            r@ == encoded_u32(self.0),
    {
        serialize_u32(&self.0)
    }

    /// Reads a set from the wire, in either form of its mask.
    pub fn deserialize(wire: &WireValue) -> (r: Result<Self, Error>)
        ensures
            match decoded_u32(wire@) {
                Ok(bits) => r == Ok::<Self, Error>(Userflags(bits)),
                Err(e) => r == Err::<Self, Error>(e),
            },
    {
        match deserialize_u32(wire) {
            Ok(bits) => Ok(Userflags(bits)),
            Err(e) => Err(e),
        }
    }
}

impl BitFlag for Userflags {
    open spec fn mask(self) -> u64 {
        self.0 as u64
    }

    fn includes(self, other: Self) -> (r: bool)
        ensures
            r == (self.0 & other.0 == other.0),
    {
        proof {
            lemma_widen_u32(self.0, other.0);
            lemma_includes_bits(self.0 as u64, other.0 as u64);
        }
        (self.0 & other.0) == other.0
    }

    fn includes_any(self, other: Self) -> (r: bool)
        ensures
            r == (self.0 & other.0 != 0 || other.0 == 0),
    {
        proof {
            lemma_widen_u32(self.0, other.0);
            lemma_shares_bit(self.0 as u64, other.0 as u64);
        }
        (self.0 & other.0) != 0 || other.0 == 0
    }
}

/// OR, AND and XOR give the same set whichever operand comes first.
pub proof fn law_commutative(a: Userflags, b: Userflags)
    ensures
        a.bitor_spec(b) == b.bitor_spec(a),
        a.bitand_spec(b) == b.bitand_spec(a),
        a.bitxor_spec(b) == b.bitxor_spec(a),
{
    lemma_commutative_u32(a.0, b.0);
}

/// OR, AND and XOR give the same set however three operands are grouped.
pub proof fn law_associative(a: Userflags, b: Userflags, c: Userflags)
    ensures
        a.bitor_spec(b).bitor_spec(c) == a.bitor_spec(b.bitor_spec(c)),
        a.bitand_spec(b).bitand_spec(c) == a.bitand_spec(b.bitand_spec(c)),
        a.bitxor_spec(b).bitxor_spec(c) == a.bitxor_spec(b.bitxor_spec(c)),
{
    lemma_associative_u32(a.0, b.0, c.0);
}

/// De Morgan: the complement of a union is the intersection of the
/// complements, and the complement of an intersection is their union.
pub proof fn law_de_morgan(a: Userflags, b: Userflags)
    ensures
        a.bitor_spec(b).not_spec() == a.not_spec().bitand_spec(b.not_spec()),
        a.bitand_spec(b).not_spec() == a.not_spec().bitor_spec(b.not_spec()),
{
    lemma_de_morgan_u32(a.0, b.0);
}

/// The set of all 32 flags includes every set of user flags.
pub proof fn law_all_includes(other: Userflags)
    ensures
        includes_bits(Userflags(u32::MAX).mask(), other.mask()),
{
    lemma_all_includes_u32(other.0);
}

} // verus!
