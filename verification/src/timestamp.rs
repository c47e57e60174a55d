//! Points in time, as Discord counts them.
use crate::snowflake::{Snowflakable, Snowflake, DISCORD_EPOCH};
use vstd::prelude::*;

verus! {

/// A point in time: a number of milliseconds since the first of January 1970
/// UTC, known as "unix milliseconds".
#[derive(Debug, PartialEq, Eq, Structural, PartialOrd, Clone, Copy)]
pub struct Timestamp(u64);

impl View for Timestamp {
    type V = u64;

    /// The unix milliseconds of the timestamp.
    closed spec fn view(&self) -> u64 {
        self.0
    }
}

impl Timestamp {
    /// The timestamp of `s` unix milliseconds.
    pub closed spec fn spec_new(s: u64) -> Timestamp {
        Timestamp(s)
    }

    /// Constructs a new timestamp from an amount of unix milliseconds.
    #[verifier::when_used_as_spec(spec_new)]
    pub fn new(s: u64) -> (r: Self)
        ensures
            r@ == s,
            r == Self::spec_new(s),
    {
        Self(s)
    }

    /// Constructs a new timestamp from an amount of unix seconds, which has to
    /// be one that a `u64` can hold in milliseconds.
    pub fn from_unix_secs(s: u64) -> (r: Self)
        requires
            s * 1000 <= u64::MAX,
        ensures
            r@ == s * 1000,
    {
        Self(s * 1000)
    }

    /// Retrieves a timestamp's unix milliseconds.
    pub fn to_unix_millis(&self) -> (r: u64)
        ensures
            r == self@,
    {
        self.0
    }

    /// Retrieves a timestamp's unix seconds, rounded down.
    pub fn to_unix_seconds(&self) -> (r: u64)
        ensures
            r == self@ / 1000,
    {
        self.0 / 1000
    }

    /// The timestamp made of an amount of unix milliseconds has that amount.
    pub proof fn lemma_new(s: u64)
        ensures
            Timestamp::new(s)@ == s,
    {
    }

    /// Two timestamps of the same unix milliseconds are the same timestamp.
    pub proof fn law_same_millis(a: Timestamp, b: Timestamp)
        ensures
            a@ == b@ <==> a == b,
    {
    }
}

impl<T> From<Snowflake<T>> for Timestamp where T: Snowflakable {
    fn from(s: Snowflake<T>) -> (r: Timestamp)
        ensures
            r@ == (s@ >> 22) + DISCORD_EPOCH,
    {
        s.to_time()
    }
}

impl<T> vstd::std_specs::convert::FromSpecImpl<Snowflake<T>> for Timestamp where T: Snowflakable {
    open spec fn obeys_from_spec() -> bool {
        true
    }

    open spec fn from_spec(s: Snowflake<T>) -> Timestamp {
        s.spec_to_time()
    }
}

} // verus!
