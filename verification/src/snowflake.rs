//! Snowflakes: the identifiers of everything on Discord.
use crate::error::{Error, ParseIntError};
use crate::timestamp::Timestamp;
use crate::utilities::decimal::{
    decimal_text, format_u64, format_u64_padded, parse_u64, parsed_u64, zero_padded,
};
use crate::utilities::serde::{decoded_u64, deserialize_u64, encoded_u64, serialize_u64, WireValue};
use core::cmp::Ordering;
use core::marker::PhantomData;
use core::str::FromStr;
use vstd::prelude::*;

verus! {

/// The first millisecond of 2015 in unix milliseconds: the instant from which
/// a snowflake counts its own.
pub const DISCORD_EPOCH: u64 = 1420070400000;

/// The number of characters of a snowflake's padded text.
pub const PADDED_WIDTH: usize = 19;

/// A Discord snowflake, the identifier of an entity of kind `S`.
///
/// It is a 64-bit number, unique across Discord but for child objects that
/// share the identifier of their parent. Its upper 42 bits hold the
/// millisecond at which it was made, counted from [`DISCORD_EPOCH`]. The kind
/// is known to the compiler only: two snowflakes are equal where their numbers
/// are, and snowflakes of different kinds do not meet unless one is
/// [converted](Snowflake::convert).
pub type Snowflake<S> = Tagged<PhantomData<S>>;

/// A 64-bit number under a tag `K` that takes no room.
///
/// The tag of a [`Snowflake`] is the `PhantomData` of its kind and not the
/// kind itself: an entity holds its own snowflake, and a structure cannot be
/// a type argument of one of its own fields in any other way.
#[derive(Debug, Eq, Ord)]
pub struct Tagged<K>(u64, K);

/// Something that is tied to a snowflake of its own kind.
pub trait Snowflakable {
    /// The snowflake of this entity.
    fn id(&self) -> Snowflake<Self> where Self: Sized;
}

impl<K> View for Tagged<K> {
    type V = u64;

    /// The number of the snowflake.
    closed spec fn view(&self) -> u64 {
        self.0
    }
}

impl<T> Snowflake<T> where T: Snowflakable {
    /// What [`Snowflake::to_time`] gives.
    pub closed spec fn spec_to_time(self) -> Timestamp {
        Timestamp::new(((self.0 >> 22) + DISCORD_EPOCH) as u64)
    }

    /// The snowflake of the number `s`.
    pub closed spec fn spec_new(s: u64) -> Self {
        Tagged(s, PhantomData)
    }

    /// Constructs a new snowflake, given the number itself. Every number is
    /// that of a snowflake.
    #[verifier::when_used_as_spec(spec_new)]
    pub fn new(s: u64) -> (r: Self)
        ensures
            r@ == s,
            r == Self::spec_new(s),
    {
        Tagged(s, PhantomData)
    }

    /// The instant at which the snowflake was made: its number shifted right
    /// by 22 bits, which drops the worker, process and sequence bits, counted
    /// in milliseconds from [`DISCORD_EPOCH`].
    pub fn to_time(&self) -> (r: Timestamp)
        ensures
            r@ == (self@ >> 22) + DISCORD_EPOCH,
            r == self.spec_to_time(),
    {
        proof {
            self.lemma_to_time();
        }
        Timestamp::new((self.0 >> 22) + DISCORD_EPOCH)
    }

    /// The same number as the snowflake of an entity of kind `U`.
    pub fn convert<U>(&self) -> (r: Snowflake<U>) where U: Snowflakable
        ensures
            r@ == self@,
    {
        Snowflake::<U>::new(self.0)
    }

    /// Reads a snowflake from its decimal text. Leading zeros are accepted.
    pub fn from_str(s: &str) -> (r: Result<Self, ParseIntError>)
        ensures
            match parsed_u64(s@) {
                Ok(n) => r matches Ok(id) && id@ == n,
                Err(e) => r matches Err(err) && err == e,
            },
    {
        match parse_u64(s) {
            Ok(n) => Ok(Snowflake::new(n)),
            Err(e) => Err(e),
        }
    }

    /// The decimal text of the snowflake, as short as it can be.
    pub fn to_string(&self) -> (r: String)
        ensures
            r@ == decimal_text(self@ as nat),
    {
        format_u64(self.0)
    }

    /// The decimal text of the snowflake with zeros in front, up to
    /// [`PADDED_WIDTH`] characters.
    pub fn to_padded_string(&self) -> (r: String)
        ensures
            r@ == zero_padded(decimal_text(self@ as nat), PADDED_WIDTH as nat),
    {
        format_u64_padded(self.0, PADDED_WIDTH)
    }

    /// The wire form of the snowflake: that of its number.
    pub fn serialize(&self) -> (r: WireValue)
        ensures
            r@ == encoded_u64(self@),
    {
        serialize_u64(&self.0)
    }

    /// Reads a snowflake from the wire, in either form of its number.
    pub fn deserialize(wire: &WireValue) -> (r: Result<Self, Error>)
        ensures
            match decoded_u64(wire@) {
                Ok(n) => r matches Ok(id) && id@ == n,
                Err(e) => r matches Err(err) && err == e,
            },
    {
        match deserialize_u64(wire) {
            Ok(n) => Ok(Snowflake::new(n)),
            Err(e) => Err(e),
        }
    }

    /// The snowflake made of a number has that number.
    pub proof fn law_new(s: u64)
        ensures
            Self::new(s)@ == s,
    {
    }

    /// Two snowflakes of one kind are the same where their numbers are: the
    /// kind adds nothing to the value.
    pub proof fn law_same_number(a: Snowflake<T>, b: Snowflake<T>)
        ensures
            a@ == b@ <==> a == b,
    {
        assert(a.1 == PhantomData::<T>);
        assert(b.1 == PhantomData::<T>);
    }

    /// The instant of a snowflake in unix milliseconds.
    pub proof fn lemma_to_time(self)
        ensures
            self.spec_to_time()@ == (self@ >> 22) + DISCORD_EPOCH,
            DISCORD_EPOCH <= self.spec_to_time()@ <= 5818116911103,
    {
        let number = self.0;
        let millis = number >> 22;
        assert(millis <= 0x3ff_ffff_ffff) by (bit_vector)
            requires
                millis == number >> 22,
        ;
        Timestamp::lemma_new((millis + DISCORD_EPOCH) as u64);
    }
}

impl<K: Copy> Clone for Tagged<K> {
    fn clone(&self) -> (r: Self)
        ensures
            r == *self,
    {
        Tagged(self.0, self.1)
    }
}

impl<K: Copy> Copy for Tagged<K> {

}

impl<T> From<u64> for Snowflake<T> where T: Snowflakable {
    fn from(s: u64) -> (r: Snowflake<T>)
        ensures
            r@ == s,
    {
        Tagged(s, PhantomData)
    }
}

impl<T> vstd::std_specs::convert::FromSpecImpl<u64> for Snowflake<T> where T: Snowflakable {
    open spec fn obeys_from_spec() -> bool {
        true
    }

    open spec fn from_spec(s: u64) -> Snowflake<T> {
        Snowflake::new(s)
    }
}

impl<T> From<Snowflake<T>> for u64 where T: Snowflakable {
    fn from(s: Snowflake<T>) -> (r: u64)
        ensures
            r == s@,
    {
        s.0
    }
}

impl<T> vstd::std_specs::convert::FromSpecImpl<Snowflake<T>> for u64 where T: Snowflakable {
    open spec fn obeys_from_spec() -> bool {
        true
    }

    open spec fn from_spec(s: Snowflake<T>) -> u64 {
        s@
    }
}

impl<T> FromStr for Snowflake<T> where T: Snowflakable {
    type Err = ParseIntError;

    fn from_str(s: &str) -> (r: Result<Self, ParseIntError>)
        ensures
            match parsed_u64(s@) {
                Ok(n) => r matches Ok(id) && id@ == n,
                Err(e) => r matches Err(err) && err == e,
            },
    {
        Snowflake::from_str(s)
    }
}

/// Two numbers under a tag are equal where the numbers are.
impl<K> PartialEq for Tagged<K> {
    fn eq(&self, other: &Self) -> (r: bool)
        ensures
            r == (self@ == other@),
    {
        self.0 == other.0
    }
}

impl<K> vstd::std_specs::cmp::PartialEqSpecImpl for Tagged<K> {
    open spec fn obeys_eq_spec() -> bool {
        true
    }

    open spec fn eq_spec(&self, other: &Self) -> bool {
        self@ == other@
    }
}

/// Numbers under a tag are ordered as the numbers are. For snowflakes this is
/// nearly the order in which they were made: the instant comes first in the
/// number, and two snowflakes of one instant are told apart by the rest.
impl<K> PartialOrd for Tagged<K> {
    fn partial_cmp(&self, rhs: &Self) -> (r: Option<Ordering>)
        ensures
            r == if self@ > rhs@ {
                Some(Ordering::Greater)
            } else if self@ == rhs@ {
                Some(Ordering::Equal)
            } else {
                Some(Ordering::Less)
            },
    {
        if self.0 > rhs.0 {
            Some(Ordering::Greater)
        } else if self.0 == rhs.0 {
            Some(Ordering::Equal)
        } else {
            Some(Ordering::Less)
        }
    }
}

impl<K> vstd::std_specs::cmp::PartialOrdSpecImpl for Tagged<K> {
    open spec fn obeys_partial_cmp_spec() -> bool {
        true
    }

    open spec fn partial_cmp_spec(&self, rhs: &Self) -> Option<Ordering> {
        if self@ > rhs@ {
            Some(Ordering::Greater)
        } else if self@ == rhs@ {
            Some(Ordering::Equal)
        } else {
            Some(Ordering::Less)
        }
    }
}

} // verus!
