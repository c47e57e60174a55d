//! Gateway intents: which groups of events a connection asks the gateway for.
use crate::bits::{
    lemma_associative_u64, lemma_commutative_u64, lemma_complement_u64, lemma_de_morgan_u64,
    lemma_includes_bits, lemma_shares_bit,
};
use crate::error::Error;
use crate::models::traits::BitFlag;
use crate::utilities::serde::{
    decoded_u64, deserialize_u64, encoded_u64, serialize_u64, WireValue,
};
use core::cmp::Ordering;
use core::ops::{BitAnd, BitAndAssign, BitOr, BitOrAssign, BitXor, BitXorAssign, Not};
use vstd::prelude::*;
use vstd::std_specs::ops::{BitAndSpec, BitOrSpec, BitXorSpec, NotSpec};

verus! {

/// The gateway intents that are specified for a connection to Discord.
///
/// A set of intents is a 64-bit mask, one bit per intent. Every bit pattern is
/// a valid set: bits that no named intent stands for are kept as they are.
#[derive(Debug, Clone, Copy, PartialEq, Eq, Structural, Ord)]
pub struct Intents(pub u64);

#[allow(non_snake_case)]
impl Intents {
    /// The mask of the intents that are defined as privileged: `GUILD_MEMBERS`
    /// and `GUILD_PRESENCES`.
    pub open spec fn privileged_mask() -> u64 {
        (1u64 << 1) | (1u64 << 8)
    }

    /// Gives all intents.
    pub fn ALL() -> (r: Self)
        ensures
            r.0 == u64::MAX,
    {
        Self(u64::MAX)
    }

    /// Gives an empty set of intents.
    pub fn EMPTY() -> (r: Self)
        ensures
            r.0 == 0,
    {
        Self(0)
    }

    /// The GUILDS intent.
    ///
    /// This intent enables the following events:
    /// `GUILD_CREATE`,
    /// `GUILD_DELETE`,
    /// `GUILD_ROLE_CREATE`,
    /// `GUILD_ROLE_UPDATE`,
    /// `GUILD_ROLE_DELETE`.
    pub fn GUILDS() -> (r: Self)
        ensures
            r.0 == 1u64 << 0,
    {
        Self(1 << 0)
    }

    /// The GUILD_MEMBERS intent.
    ///
    /// This is a privileged intent: it has to be enabled for the application in
    /// the Discord developer portal.
    ///
    /// This intent enables the following events:
    /// `GUILD_MEMBER_ADD`,
    /// `GUILD_MEMBER_UPDATE`,
    /// `GUILD_MEMBER_REMOVE`,
    /// `THREAD_MEMBERS_UPDATE`.
    pub fn GUILD_MEMBERS() -> (r: Self)
        ensures
            r.0 == 1u64 << 1,
    {
        Self(1 << 1)
    }

    /// The GUILD_BANS intent.
    pub fn GUILD_BANS() -> (r: Self)
        ensures
            r.0 == 1u64 << 2,
    {
        Self(1 << 2)
    }

    /// The GUILD_EMOJIS_AND_STICKERS intent.
    pub fn GUILD_EMOJIS_AND_STICKERS() -> (r: Self)
        ensures
            r.0 == 1u64 << 3,
    {
        Self(1 << 3)
    }

    /// The GUILD_INTEGRATIONS intent.
    pub fn GUILD_INTEGRATIONS() -> (r: Self)
        ensures
            r.0 == 1u64 << 4,
    {
        Self(1 << 4)
    }

    /// The GUILD_WEBHOOKS intent.
    pub fn GUILD_WEBHOOKS() -> (r: Self)
        ensures
            r.0 == 1u64 << 5,
    {
        Self(1 << 5)
    }

    /// The GUILD_INVITES intent.
    pub fn GUILD_INVITES() -> (r: Self)
        ensures
            r.0 == 1u64 << 6,
    {
        Self(1 << 6)
    }

    /// The GUILD_VOICE_STATES intent.
    pub fn GUILD_VOICE_STATES() -> (r: Self)
        ensures
            r.0 == 1u64 << 7,
    {
        Self(1 << 7)
    }

    /// The GUILD_PRESENCES intent.
    ///
    /// This is a privileged intent: it has to be enabled for the application in
    /// the Discord developer portal.
    pub fn GUILD_PRESENCES() -> (r: Self)
        ensures
            r.0 == 1u64 << 8,
    {
        Self(1 << 8)
    }

    /// The GUILD_MESSAGES intent.
    pub fn GUILD_MESSAGES() -> (r: Self)
        ensures
            r.0 == 1u64 << 9,
    {
        Self(1 << 9)
    }

    /// The GUILD_MESSAGE_REACTIONS intent.
    pub fn GUILD_MESSAGE_REACTIONS() -> (r: Self)
        ensures
            r.0 == 1u64 << 10,
    {
        Self(1 << 10)
    }

    /// The GUILD_MESSAGE_TYPING intent.
    pub fn GUILD_MESSAGE_TYPING() -> (r: Self)
        ensures
            r.0 == 1u64 << 11,
    {
        Self(1 << 11)
    }

    /// The DIRECT_MESSAGES intent.
    pub fn DIRECT_MESSAGES() -> (r: Self)
        ensures
            r.0 == 1u64 << 12,
    {
        Self(1 << 12)
    }

    /// The DIRECT_MESSAGE_REACTIONS intent.
    pub fn DIRECT_MESSAGE_REACTIONS() -> (r: Self)
        ensures
            r.0 == 1u64 << 13,
    {
        Self(1 << 13)
    }

    /// The DIRECT_MESSAGE_TYPING intent.
    pub fn DIRECT_MESSAGE_TYPING() -> (r: Self)
        ensures
            r.0 == 1u64 << 14,
    {
        Self(1 << 14)
    }

    /// The MESSAGE_CONTENT intent.
    pub fn MESSAGE_CONTENT() -> (r: Self)
        ensures
            r.0 == 1u64 << 15,
    {
        Self(1 << 15)
    }

    /// The GUILD_SCHEDULED_EVENTS intent.
    pub fn GUILD_SCHEDULED_EVENTS() -> (r: Self)
        ensures
            r.0 == 1u64 << 16,
    {
        Self(1 << 16)
    }

    /// The AUTO_MODERATION_CONFIGURATION intent.
    pub fn AUTO_MODERATION_CONFIGURATION() -> (r: Self)
        ensures
            r.0 == 1u64 << 20,
    {
        Self(1 << 20)
    }

    /// The AUTO_MODERATION_EXECUTION intent.
    pub fn AUTO_MODERATION_EXECUTION() -> (r: Self)
        ensures
            r.0 == 1u64 << 21,
    {
        Self(1 << 21)
    }

    /// Gives the intents that are defined as privileged.
    pub fn privileged() -> (r: Self)
        ensures
            r.0 == Self::privileged_mask(),
    {
        Self((1 << 1) | (1 << 8))
    }

    /// Gives the intents that are not defined as privileged: the complement of
    /// [`Intents::privileged`], reserved bits included.
    pub fn non_privileged() -> (r: Self)
        ensures
            r.0 == !Self::privileged_mask(),
    {
        Self(!((1 << 1) | (1 << 8)))
    }

    /// Creates a new set of intents with the bits specified.
    pub fn new(x: u64) -> (r: Self)
        ensures
            r.0 == x,
    {
        Self(x)
    }
}

impl Default for Intents {
    /// Gives the default, non-privileged intents. For an empty set, use
    /// [`Intents::EMPTY`].
    fn default() -> (r: Self)
        ensures
            r.0 == !Intents::privileged_mask(),
    {
        Intents::non_privileged()
    }
}

/// `|` is the union of two sets of the same kind, bit for bit.
impl BitOr for Intents {
    type Output = Intents;

    fn bitor(self, other: Intents) -> (r: Intents)
        ensures
            r.0 == self.0 | other.0,
    {
        Intents(self.0 | other.0)
    }
}

impl vstd::std_specs::ops::BitOrSpecImpl for Intents {
    open spec fn obeys_bitor_spec() -> bool {
        true
    }

    open spec fn bitor_req(self, other: Intents) -> bool {
        true
    }

    open spec fn bitor_spec(self, other: Intents) -> Intents {
        Intents(self.0 | other.0)
    }
}

/// `&` is the intersection of two sets of the same kind, bit for bit.
impl BitAnd for Intents {
    type Output = Intents;

    fn bitand(self, other: Intents) -> (r: Intents)
        ensures
            r.0 == self.0 & other.0,
    {
        Intents(self.0 & other.0)
    }
}

impl vstd::std_specs::ops::BitAndSpecImpl for Intents {
    open spec fn obeys_bitand_spec() -> bool {
        true
    }

    open spec fn bitand_req(self, other: Intents) -> bool {
        true
    }

    open spec fn bitand_spec(self, other: Intents) -> Intents {
        Intents(self.0 & other.0)
    }
}

/// `^` is the symmetric difference of two sets of the same kind, bit for bit.
impl BitXor for Intents {
    type Output = Intents;

    fn bitxor(self, other: Intents) -> (r: Intents)
        ensures
            r.0 == self.0 ^ other.0,
    {
        Intents(self.0 ^ other.0)
    }
}

impl vstd::std_specs::ops::BitXorSpecImpl for Intents {
    open spec fn obeys_bitxor_spec() -> bool {
        true
    }

    open spec fn bitxor_req(self, other: Intents) -> bool {
        true
    }

    open spec fn bitxor_spec(self, other: Intents) -> Intents {
        Intents(self.0 ^ other.0)
    }
}

/// `!` complements every bit of the mask, the reserved ones too.
impl Not for Intents {
    type Output = Intents;

    fn not(self) -> (r: Intents)
        ensures
            r.0 == !self.0,
    {
        Intents(!self.0)
    }
}

impl vstd::std_specs::ops::NotSpecImpl for Intents {
    open spec fn obeys_not_spec() -> bool {
        true
    }

    open spec fn not_req(self) -> bool {
        true
    }

    open spec fn not_spec(self) -> Intents {
        Intents(!self.0)
    }
}

impl BitOrAssign for Intents {
    fn bitor_assign(&mut self, other: Intents)
        ensures
            final(self).0 == old(self).0 | other.0,
    {
        self.0 |= other.0;
    }
}

impl BitAndAssign for Intents {
    fn bitand_assign(&mut self, other: Intents)
        ensures
            final(self).0 == old(self).0 & other.0,
    {
        self.0 &= other.0;
    }
}

impl BitXorAssign for Intents {
    fn bitxor_assign(&mut self, other: Intents)
        ensures
            final(self).0 == old(self).0 ^ other.0,
    {
        self.0 ^= other.0;
    }
}

impl From<u64> for Intents {
    fn from(i: u64) -> (r: Intents)
        ensures
            r.0 == i,
    {
        Intents(i)
    }
}

impl vstd::std_specs::convert::FromSpecImpl<u64> for Intents {
    open spec fn obeys_from_spec() -> bool {
        true
    }

    open spec fn from_spec(i: u64) -> Intents {
        Intents(i)
    }
}

impl From<Intents> for u64 {
    fn from(f: Intents) -> (r: u64)
        ensures
            r == f.0,
    {
        f.0
    }
}

impl vstd::std_specs::convert::FromSpecImpl<Intents> for u64 {
    open spec fn obeys_from_spec() -> bool {
        true
    }

    open spec fn from_spec(f: Intents) -> u64 {
        f.0
    }
}

/// Sets of the same kind are ordered by their masks.
impl PartialOrd for Intents {
    fn partial_cmp(&self, other: &Self) -> (r: Option<Ordering>)
        ensures
            r == if self.0 < other.0 {
                Some(Ordering::Less)
            } else if self.0 == other.0 {
                Some(Ordering::Equal)
            } else {
                Some(Ordering::Greater)
            },
    {
        if self.0 < other.0 {
            Some(Ordering::Less)
        } else if self.0 == other.0 {
            Some(Ordering::Equal)
        } else {
            Some(Ordering::Greater)
        }
    }
}

impl vstd::std_specs::cmp::PartialOrdSpecImpl for Intents {
    open spec fn obeys_partial_cmp_spec() -> bool {
        true
    }

    open spec fn partial_cmp_spec(&self, other: &Self) -> Option<Ordering> {
        if self.0 < other.0 {
            Some(Ordering::Less)
        } else if self.0 == other.0 {
            Some(Ordering::Equal)
        } else {
            Some(Ordering::Greater)
        }
    }
}

impl Intents {
    /// The wire form of the set: that of its mask.
    pub fn serialize(&self) -> (r: WireValue)
        ensures
            r@ == encoded_u64(self.0),
    {
        serialize_u64(&self.0)
    }

    /// Reads a set from the wire, in either form of its mask.
    pub fn deserialize(wire: &WireValue) -> (r: Result<Self, Error>)
        ensures
            match decoded_u64(wire@) {
                Ok(bits) => r == Ok::<Self, Error>(Intents(bits)),
                Err(e) => r == Err::<Self, Error>(e),
            },
    {
        match deserialize_u64(wire) {
            Ok(bits) => Ok(Intents(bits)),
            Err(e) => Err(e),
        }
    }
}

impl BitFlag for Intents {
    open spec fn mask(self) -> u64 {
        self.0
    }

    fn includes(self, other: Self) -> (r: bool)
        ensures
            r == (self.0 & other.0 == other.0),
    {
        proof {
            lemma_includes_bits(self.0, other.0);
        }
        (self.0 & other.0) == other.0
    }

    fn includes_any(self, other: Self) -> (r: bool)
        ensures
            r == (self.0 & other.0 != 0 || other.0 == 0),
    {
        proof {
            lemma_shares_bit(self.0, other.0);
        }
        (self.0 & other.0) != 0 || other.0 == 0
    }
}

/// OR, AND and XOR give the same set whichever operand comes first.
pub proof fn law_commutative(a: Intents, b: Intents)
    ensures
        a.bitor_spec(b) == b.bitor_spec(a),
        a.bitand_spec(b) == b.bitand_spec(a),
        a.bitxor_spec(b) == b.bitxor_spec(a),
{
    lemma_commutative_u64(a.0, b.0);
}

/// OR, AND and XOR give the same set however three operands are grouped.
pub proof fn law_associative(a: Intents, b: Intents, c: Intents)
    ensures
        a.bitor_spec(b).bitor_spec(c) == a.bitor_spec(b.bitor_spec(c)),
        a.bitand_spec(b).bitand_spec(c) == a.bitand_spec(b.bitand_spec(c)),
        a.bitxor_spec(b).bitxor_spec(c) == a.bitxor_spec(b.bitxor_spec(c)),
{
    lemma_associative_u64(a.0, b.0, c.0);
}

/// De Morgan: the complement of a union is the intersection of the
/// complements, and the complement of an intersection is their union.
pub proof fn law_de_morgan(a: Intents, b: Intents)
    ensures
        a.bitor_spec(b).not_spec() == a.not_spec().bitand_spec(b.not_spec()),
        a.bitand_spec(b).not_spec() == a.not_spec().bitor_spec(b.not_spec()),
{
    lemma_de_morgan_u64(a.0, b.0);
}

/// The privileged and the non-privileged intents together are all intents, and
/// no intent is both.
pub proof fn law_privileged_partition()
    ensures
        Intents(Intents::privileged_mask()).bitor_spec(Intents(!Intents::privileged_mask()))
            == Intents(u64::MAX),
        Intents(Intents::privileged_mask()).bitand_spec(Intents(!Intents::privileged_mask()))
            == Intents(0),
{
    lemma_complement_u64(Intents::privileged_mask());
}

} // verus!
