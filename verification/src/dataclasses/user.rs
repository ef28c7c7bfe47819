use ijson::IValue;
use vstd::prelude::*;

verus! {

/// Represents a user object.
#[derive(Clone, Debug, PartialEq)]
pub struct User {
    pub id: String,
    pub username: String,
    /// The user's Discord-tag.
    pub discriminator: String,
    /// The user's display name, if it is set. For bots, this is the
    /// application name.
    pub global_name: Option<String>,
    /// The user's avatar hash.
    pub avatar: Option<String>,
    /// Whether the user belongs to an OAuth2 application.
    pub is_bot: Option<bool>,
    /// Whether the user is an Official Discord System user.
    pub is_system: Option<bool>,
    /// Whether the user has two factor enabled on their account.
    pub mfa_enabled: Option<bool>,
    /// The user's banner hash.
    pub banner: Option<String>,
    /// The user's banner color, as the integer of its hexadecimal code.
    pub accent_color: Option<u32>,
    /// The user's chosen language option.
    pub locale: Option<String>,
    /// Whether the email on this account has been verified.
    pub verified: Option<bool>,
    /// The flags on the user's account.
    pub flags: Option<UserFlags>,
    /// The type of Nitro subscription on the user's account.
    pub premium_type: Option<PremiumType>,
    /// The public flags on the user's account.
    pub public_flags: Option<UserFlags>,
    /// Data for the user's avatar decoration.
    pub avatar_decoration_data: Option<IValue>,
}

/// Represents the Nitro subscription type.
#[derive(Clone, Copy, Debug, PartialEq, Eq, Hash, Structural)]
pub enum PremiumType {
    NoPremium,
    NitroClassic,
    Nitro,
    NitroBasic,
}

impl PremiumType {
    /// The number that stands for this variant on the wire.
    pub open spec fn spec_code(self) -> u8 {
        match self {
            PremiumType::NoPremium => 1,
            PremiumType::NitroClassic => 2,
            PremiumType::Nitro => 3,
            PremiumType::NitroBasic => 4,
        }
    }

    /// The number that stands for this variant on the wire.
    #[verifier::when_used_as_spec(spec_code)]
    pub fn code(self) -> (r: u8)
        ensures
            r == self.spec_code(),
    {
        match self {
            PremiumType::NoPremium => 1,
            PremiumType::NitroClassic => 2,
            PremiumType::Nitro => 3,
            PremiumType::NitroBasic => 4,
        }
    }

    /// The variant that a number stands for, or `None` where it stands
    /// for none.
    pub fn from_code(code: u8) -> (r: Option<PremiumType>)
        ensures
            match r {
                Some(v) => v.code() == code,
                None => forall|v: PremiumType| #[trigger] v.code() != code,
            },
    {
        if code == 1 {
            Some(PremiumType::NoPremium)
        } else if code == 2 {
            Some(PremiumType::NitroClassic)
        } else if code == 3 {
            Some(PremiumType::Nitro)
        } else if code == 4 {
            Some(PremiumType::NitroBasic)
        } else {
            None
        }
    }
}

/// No two variants of [`PremiumType`] share a number, so a variant is found
/// again from its number.
pub proof fn lemma_premium_type_code_is_injective(a: PremiumType, b: PremiumType)
    requires
        a.code() == b.code(),
    ensures
        a == b,
{
}

/// The flags on a user's account.
#[derive(Clone, Copy, Debug, PartialEq, Eq, Hash, Structural)]
pub struct UserFlags {
    bits: u64,
}

impl UserFlags {
    pub const STAFF: u64 = 0x1;

    pub const PARTNER: u64 = 0x2;

    pub const HYPESQUAD: u64 = 0x4;

    pub const BUG_HUNTER_LEVEL_1: u64 = 0x8;

    pub const HYPESQUAD_ONLINE_HOUSE_1: u64 = 0x40;

    pub const HYPESQUAD_ONLINE_HOUSE_2: u64 = 0x80;

    pub const HYPESQUAD_ONLINE_HOUSE_3: u64 = 0x100;

    pub const PREMIUM_EARLY_SUPPORTER: u64 = 0x200;

    pub const TEAM_PSEUDO_USER: u64 = 0x400;

    pub const BUG_HUNTER_LEVEL_2: u64 = 0x4000;

    pub const VERIFIED_BOT: u64 = 0x10000;

    pub const VERIFIED_DEVELOPER: u64 = 0x20000;

    pub const CERTIFIED_MODERATOR: u64 = 0x40000;

    pub const BOT_HTTP_INTERACTIONS: u64 = 0x80000;

    pub const ACTIVE_DEVELOPER: u64 = 0x400000;

    /// Every bit that has a meaning.
    pub const ALL: u64 = 0x4f47cf;

    /// The bitmask.
    pub closed spec fn spec_bits(&self) -> u64 {
        self.bits
    }

    /// The bitmask.
    #[verifier::when_used_as_spec(spec_bits)]
    pub fn bits(&self) -> (r: u64)
        ensures
            r == self.spec_bits(),
    {
        self.bits
    }

    /// No bit set.
    pub fn empty() -> (r: UserFlags)
        ensures
            r.bits() == 0,
    {
        UserFlags { bits: 0 }
    }

    /// Every bit set that has a meaning.
    pub fn all() -> (r: UserFlags)
        ensures
            r.bits() == UserFlags::ALL,
    {
        UserFlags { bits: UserFlags::ALL }
    }

    /// The set with exactly these bits, or `None` where one of them has
    /// no meaning.
    pub fn from_bits(bits: u64) -> (r: Option<UserFlags>)
        ensures
            bits & !UserFlags::ALL == 0 <==> r is Some,
            r matches Some(v) ==> v.bits() == bits,
    {
        if bits & !UserFlags::ALL == 0 {
            Some(UserFlags { bits })
        } else {
            None
        }
    }

    /// The set with these bits, without those that have no meaning.
    pub fn from_bits_truncate(bits: u64) -> (r: UserFlags)
        ensures
            r.bits() == bits & UserFlags::ALL,
    {
        UserFlags { bits: bits & UserFlags::ALL }
    }

    /// Whether no bit is set.
    pub fn is_empty(&self) -> (r: bool)
        ensures
            r == (self.bits() == 0),
    {
        self.bits == 0
    }

    /// Whether every bit of `other` is set here too.
    pub fn contains(&self, other: UserFlags) -> (r: bool)
        ensures
            r == (self.bits() & other.bits() == other.bits()),
    {
        self.bits & other.bits == other.bits
    }

    /// The bits of either set.
    pub fn union(self, other: UserFlags) -> (r: UserFlags)
        ensures
            r.bits() == self.bits() | other.bits(),
    {
        UserFlags { bits: self.bits | other.bits }
    }
}

} // verus!
