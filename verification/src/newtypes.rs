//! Single-field wrappers that give a bare integer a unit. Neither checks
//! anything: every value of the integer type is a valid value of the wrapper.

use vstd::prelude::*;
use vstd::std_specs::convert::FromSpecImpl;
use crate::text::{decimal, decimal_text, signed_decimal, signed_decimal_text};

verus! {

/// A duration in whole minutes.
#[derive(Clone, Copy, Debug, Hash, PartialEq, Eq, Ord, Structural)]
pub struct Minutes(pub u32);

impl Minutes {
    /// The wrapper that the wire integer `n` decodes to.
    pub open spec fn decoded(n: u32) -> Minutes {
        Minutes(n)
    }

    /// The wire integer that this wrapper encodes to.
    pub open spec fn encoded(self) -> u32 {
        self.0
    }

    /// Wraps an integer taken from the wire.
    pub fn decode(n: u32) -> (m: Minutes)
        ensures
            m == Minutes::decoded(n),
    {
        Minutes(n)
    }

    /// The integer to put on the wire.
    pub fn encode(self) -> (n: u32)
        ensures
            n == self.encoded(),
    {
        self.0
    }

    /// The text of this duration: the decimal numeral of the count, and
    /// nothing else.
    pub fn to_text(self) -> (r: String)
        ensures
            r@ == decimal(self.0 as nat),
    {
        decimal_text(self.0 as u64)
    }
}

/// Decoding an integer and encoding the result gives the integer back.
pub proof fn law_minutes_round_trip(n: u32)
    ensures
        Minutes::decoded(n).encoded() == n,
{
}

/// Encoding a duration and decoding the result gives the duration back.
pub proof fn law_minutes_encode_decode(m: Minutes)
    ensures
        Minutes::decoded(m.encoded()) == m,
{
}

/// A moment as seconds since the Unix epoch; negative before it.
#[derive(Clone, Copy, Debug, Hash, PartialEq, Eq, Ord, Structural)]
pub struct UnixTimestamp(pub i64);

impl UnixTimestamp {
    /// The wrapper that the wire integer `n` decodes to.
    pub open spec fn decoded(n: i64) -> UnixTimestamp {
        UnixTimestamp(n)
    }

    /// The wire integer that this wrapper encodes to.
    pub open spec fn encoded(self) -> i64 {
        self.0
    }

    /// Wraps an integer taken from the wire.
    pub fn decode(n: i64) -> (t: UnixTimestamp)
        ensures
            t == UnixTimestamp::decoded(n),
    {
        UnixTimestamp(n)
    }

    /// The integer to put on the wire.
    pub fn encode(self) -> (n: i64)
        ensures
            n == self.encoded(),
    {
        self.0
    }

    /// The text of this moment: the decimal numeral of the seconds, with a
    /// minus sign before the epoch.
    pub fn to_text(self) -> (r: String)
        ensures
            r@ == signed_decimal(self.0 as int),
    {
        signed_decimal_text(self.0)
    }
}

impl From<UnixTimestamp> for i64 {
    /// The bare seconds, for code that knows nothing of the wrapper.
    fn from(t: UnixTimestamp) -> (n: i64) {
        t.0
    }
}

impl FromSpecImpl<UnixTimestamp> for i64 {
    open spec fn obeys_from_spec() -> bool {
        true
    }

    open spec fn from_spec(t: UnixTimestamp) -> i64 {
        t.0
    }
}

/// Decoding an integer and encoding the result gives the integer back.
pub proof fn law_timestamp_round_trip(n: i64)
    ensures
        UnixTimestamp::decoded(n).encoded() == n,
{
}

/// Encoding a moment and decoding the result gives the moment back.
pub proof fn law_timestamp_encode_decode(t: UnixTimestamp)
    ensures
        UnixTimestamp::decoded(t.encoded()) == t,
{
}

} // verus!
