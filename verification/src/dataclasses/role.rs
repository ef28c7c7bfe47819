use crate::dataclasses::common::HexCode;
use crate::dataclasses::snowflake::Snowflake;
use vstd::prelude::*;

verus! {

#[derive(Clone, Debug, PartialEq, Eq)]
pub struct Role {
    pub id: Snowflake,
    pub name: String,
    pub color: HexCode,
    /// Whether this role is pinned in the user listing.
    pub hoist: bool,
    pub icon: Option<String>,
    pub unicode_emoji: Option<String>,
    pub position: u8,
    pub permissions: String,
    pub managed: bool,
    pub mentionable: bool,
    pub tags: Option<RoleTags>,
    pub flags: RoleFlags,
}

/// Tags with type null represent booleans: present and `null` where they
/// are true, absent where they are false.
#[derive(Clone, Copy, Debug, PartialEq, Eq)]
pub struct RoleTags {
    pub bot_id: Option<Snowflake>,
    pub integration_id: Option<Snowflake>,
    pub premium_subscriber: Option<Option<bool>>,
    pub subscription_listing_id: Option<Snowflake>,
    pub available_for_purchase: Option<Option<bool>>,
    pub guild_connections: Option<Option<bool>>,
}

/// Flags of a role. `IN_PROMPT`: the role can be selected by members in an
/// onboarding prompt.
#[derive(Clone, Copy, Debug, PartialEq, Eq, Hash, Structural)]
pub struct RoleFlags {
    bits: u8,
}

impl RoleFlags {
    pub const IN_PROMPT: u8 = 0x1;

    /// Every bit that has a meaning.
    pub const ALL: u8 = 0x1;

    /// The bitmask.
    pub closed spec fn spec_bits(&self) -> u8 {
        self.bits
    }

    /// The bitmask.
    #[verifier::when_used_as_spec(spec_bits)]
    pub fn bits(&self) -> (r: u8)
        ensures
            r == self.spec_bits(),
    {
        self.bits
    }

    /// No bit set.
    pub fn empty() -> (r: RoleFlags)
        ensures
            r.bits() == 0,
    {
        RoleFlags { bits: 0 }
    }

    /// Every bit set that has a meaning.
    pub fn all() -> (r: RoleFlags)
        ensures
            r.bits() == RoleFlags::ALL,
    {
        RoleFlags { bits: RoleFlags::ALL }
    }

    /// The set with exactly these bits, or `None` where one of them has
    /// no meaning.
    pub fn from_bits(bits: u8) -> (r: Option<RoleFlags>)
        ensures
            bits & !RoleFlags::ALL == 0 <==> r is Some,
            r matches Some(v) ==> v.bits() == bits,
    {
        if bits & !RoleFlags::ALL == 0 {
            Some(RoleFlags { bits })
        } else {
            None
        }
    }

    /// The set with these bits, without those that have no meaning.
    pub fn from_bits_truncate(bits: u8) -> (r: RoleFlags)
        ensures
            r.bits() == bits & RoleFlags::ALL,
    {
        RoleFlags { bits: bits & RoleFlags::ALL }
    }

    /// Whether no bit is set.
    pub fn is_empty(&self) -> (r: bool)
        ensures
            r == (self.bits() == 0),
    {
        self.bits == 0
    }

    /// Whether every bit of `other` is set here too.
    pub fn contains(&self, other: RoleFlags) -> (r: bool)
        ensures
            r == (self.bits() & other.bits() == other.bits()),
    {
        self.bits & other.bits == other.bits
    }

    /// The bits of either set.
    pub fn union(self, other: RoleFlags) -> (r: RoleFlags)
        ensures
            r.bits() == self.bits() | other.bits(),
    {
        RoleFlags { bits: self.bits | other.bits }
    }
}

} // verus!
