//! Gateway intents: the bitmask by which a client declares which event
//! categories it wants streamed.

use vstd::prelude::*;

verus! {

/// A set of gateway intents, one bit each. The bits are handed to the
/// gateway as they are. The associated constants are the bits of the single
/// intents; combine them with `|` and [`Intents::from_bits_retain`].
#[derive(Clone, Copy, Debug, PartialEq, Eq, Hash, Structural)]
pub struct Intents {
    bits: u64,
}

impl Intents {
    pub const GUILDS: u64 = 0x1;

    pub const GUILD_MEMBERS: u64 = 0x2;

    pub const GUILD_MODERATION: u64 = 0x4;

    pub const GUILD_EXPRESSIONS: u64 = 0x8;

    pub const GUILD_INTEGRATIONS: u64 = 0x10;

    pub const GUILD_WEBHOOKS: u64 = 0x20;

    pub const GUILD_INVITES: u64 = 0x40;

    pub const GUILD_VOICE_STATES: u64 = 0x80;

    pub const GUILD_PRESENCES: u64 = 0x100;

    pub const GUILD_MESSAGES: u64 = 0x200;

    pub const GUILD_MESSAGE_REACTIONS: u64 = 0x400;

    pub const GUILD_MESSAGE_TYPING: u64 = 0x800;

    pub const DIRECT_MESSAGES: u64 = 0x1000;

    pub const DIRECT_MESSAGE_REACTIONS: u64 = 0x2000;

    pub const DIRECT_MESSAGE_TYPING: u64 = 0x4000;

    pub const MESSAGE_CONTENT: u64 = 0x8000;

    pub const GUILD_SCHEDULED_EVENTS: u64 = 0x10000;

    pub const AUTO_MODERATION_CONFIGURATION: u64 = 0x100000;

    pub const AUTO_MODERATION_EXECUTION: u64 = 0x200000;

    /// Every bit that names an intent.
    pub const ALL: u64 = 0x31ffff;

    /// The bitmask.
    pub closed spec fn spec_bits(&self) -> u64 {
        self.bits
    }

    /// The bitmask.
    #[verifier::when_used_as_spec(spec_bits)]
    pub fn bits(&self) -> (r: u64)
        ensures
            r == self.spec_bits(),
    {
        self.bits
    }

    /// No intent at all.
    pub fn empty() -> (r: Intents)
        ensures
            r.bits() == 0,
    {
        Intents { bits: 0 }
    }

    /// The set with exactly the given bits, known or not.
    pub fn from_bits_retain(bits: u64) -> (r: Intents)
        ensures
            r.bits() == bits,
    {
        Intents { bits }
    }

    /// The set with the given bits, without those that name no intent.
    pub fn from_bits_truncate(bits: u64) -> (r: Intents)
        ensures
            r.bits() == bits & Intents::ALL,
    {
        Intents { bits: bits & Intents::ALL }
    }

    /// Whether no intent is set.
    pub fn is_empty(&self) -> (r: bool)
        ensures
            r == (self.bits() == 0),
    {
        self.bits == 0
    }

    /// Every intent of either set.
    pub fn union(self, other: Intents) -> (r: Intents)
        ensures
            r.bits() == self.bits() | other.bits(),
    {
        Intents { bits: self.bits | other.bits }
    }

    /// The intents that both sets hold.
    pub fn intersection(self, other: Intents) -> (r: Intents)
        ensures
            r.bits() == self.bits() & other.bits(),
    {
        Intents { bits: self.bits & other.bits }
    }

    /// The intents of this set that `other` does not hold.
    pub fn difference(self, other: Intents) -> (r: Intents)
        ensures
            r.bits() == self.bits() & !other.bits(),
    {
        Intents { bits: self.bits & !other.bits }
    }

    /// Whether every intent of `other` is in this set.
    pub fn contains(&self, other: Intents) -> (r: bool)
        ensures
            r == (self.bits() & other.bits() == other.bits()),
    {
        self.bits & other.bits == other.bits
    }

    /// Whether the two sets share an intent.
    pub fn intersects(&self, other: Intents) -> (r: bool)
        ensures
            r == (self.bits() & other.bits() != 0),
    {
        self.bits & other.bits != 0
    }
}

/// A union holds both of its parts, and holds whatever holds both.
pub proof fn lemma_union_is_least_upper_bound(a: u64, b: u64, c: u64)
    ensures
        (a | b) & a == a,
        (a | b) & b == b,
        (c & a == a && c & b == b) ==> c & (a | b) == (a | b),
        a | b == b | a,
        a | 0 == a,
{
    assert((a | b) & a == a) by (bit_vector);
    assert((a | b) & b == b) by (bit_vector);
    assert((c & a == a && c & b == b) ==> c & (a | b) == (a | b)) by (bit_vector);
    assert(a | b == b | a) by (bit_vector);
    assert(a | 0 == a) by (bit_vector);
}

/// Truncating keeps what has a meaning, drops the rest, and changes nothing
/// the second time.
pub proof fn lemma_truncate_is_idempotent(bits: u64, all: u64)
    ensures
        (bits & all) & all == bits & all,
        (bits & all) & !all == 0,
        bits & !all == 0 ==> bits & all == bits,
{
    assert((bits & all) & all == bits & all) by (bit_vector);
    assert((bits & all) & !all == 0) by (bit_vector);
    assert(bits & !all == 0 ==> bits & all == bits) by (bit_vector);
}

/// What a difference keeps is in the first set and not in the second.
pub proof fn lemma_difference_is_disjoint(a: u64, b: u64)
    ensures
        (a & !b) & b == 0,
        a & (a & !b) == (a & !b),
        (a & !b) | (a & b) == a,
{
    assert((a & !b) & b == 0) by (bit_vector);
    assert(a & (a & !b) == (a & !b)) by (bit_vector);
    assert((a & !b) | (a & b) == a) by (bit_vector);
}

} // verus!
