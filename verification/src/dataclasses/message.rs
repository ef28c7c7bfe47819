use crate::dataclasses::channel::ChannelType;
use crate::dataclasses::common::HexCode;
use crate::dataclasses::role::Role;
use crate::dataclasses::snowflake::Snowflake;
use crate::dataclasses::user::User;
use vstd::prelude::*;

verus! {

/// Flags of a message.
#[derive(Clone, Copy, Debug, PartialEq, Eq, Hash, Structural)]
pub struct MessageFlags {
    bits: u64,
}

impl MessageFlags {
    pub const CROSSPOSTED: u64 = 0x1;

    pub const IS_CROSSPOST: u64 = 0x2;

    pub const SUPPRESS_EMBEDS: u64 = 0x4;

    pub const SOURCE_MESSAGE_DELETED: u64 = 0x8;

    pub const URGENT: u64 = 0x10;

    pub const HAS_THREAD: u64 = 0x20;

    pub const EPHEMERAL: u64 = 0x40;

    pub const LOADING: u64 = 0x80;

    pub const FAILED_TO_MENTION_SOME_ROLES_IN_THREAD: u64 = 0x100;

    pub const SUPPRESS_NOTIFICATIONS: u64 = 0x1000;

    pub const IS_VOICE_MESSAGE: u64 = 0x2000;

    pub const HAS_SNAPSHOT: u64 = 0x4000;

    /// Every bit that has a meaning.
    pub const ALL: u64 = 0x71ff;

    /// The bitmask.
    pub closed spec fn spec_bits(&self) -> u64 {
        self.bits
    }

    /// The bitmask.
    #[verifier::when_used_as_spec(spec_bits)]
    pub fn bits(&self) -> (r: u64)
        ensures
            r == self.spec_bits(),
    {
        self.bits
    }

    /// No bit set.
    pub fn empty() -> (r: MessageFlags)
        ensures
            r.bits() == 0,
    {
        MessageFlags { bits: 0 }
    }

    /// Every bit set that has a meaning.
    pub fn all() -> (r: MessageFlags)
        ensures
            r.bits() == MessageFlags::ALL,
    {
        MessageFlags { bits: MessageFlags::ALL }
    }

    /// The set with exactly these bits, or `None` where one of them has
    /// no meaning.
    pub fn from_bits(bits: u64) -> (r: Option<MessageFlags>)
        ensures
            bits & !MessageFlags::ALL == 0 <==> r is Some,
            r matches Some(v) ==> v.bits() == bits,
    {
        if bits & !MessageFlags::ALL == 0 {
            Some(MessageFlags { bits })
        } else {
            None
        }
    }

    /// The set with these bits, without those that have no meaning.
    pub fn from_bits_truncate(bits: u64) -> (r: MessageFlags)
        ensures
            r.bits() == bits & MessageFlags::ALL,
    {
        MessageFlags { bits: bits & MessageFlags::ALL }
    }

    /// Whether no bit is set.
    pub fn is_empty(&self) -> (r: bool)
        ensures
            r == (self.bits() == 0),
    {
        self.bits == 0
    }

    /// Whether every bit of `other` is set here too.
    pub fn contains(&self, other: MessageFlags) -> (r: bool)
        ensures
            r == (self.bits() & other.bits() == other.bits()),
    {
        self.bits & other.bits == other.bits
    }

    /// The bits of either set.
    pub fn union(self, other: MessageFlags) -> (r: MessageFlags)
        ensures
            r.bits() == self.bits() | other.bits(),
    {
        MessageFlags { bits: self.bits | other.bits }
    }
}

/// A value by which a sent message is recognised again.
#[derive(Clone, Debug, PartialEq, Eq)]
pub enum Nounce {
    Str(String),
    Integer(u64),
}

/// The kind of a message.
#[derive(Clone, Copy, Debug, PartialEq, Eq, Hash, Structural)]
pub enum MessageType {
    Default,
    RecipientAdd,
    RecipientRemove,
    Call,
    ChannelNameChange,
    ChannelIconChange,
    ChannelPinnedMessage,
    UserJoin,
    GuildBoost,
    GuildBoostTier1,
    GuildBoostTier2,
    GuildBoostTier3,
    ChannelFollowAdd,
    GuildDiscoveryDisqualified,
    GuildDiscoveryRequalified,
    GuildDiscoveryGracePeriodInitialWarning,
    GuildDiscoveryGracePeriodFinalWarning,
    ThreadCreated,
    Reply,
    ChatInputCommand,
    ThreadStarterMessage,
    GuildInviteReminder,
    ContextMenuCommand,
    AutoModerationAction,
    RoleSubscriptionPurchase,
    InteractionPremiumUpsell,
    StageStart,
    StageEnd,
    StageSpeaker,
    StageTopic,
    GuildApplicationPremiumSubscription,
    GuildIncidentAlertModeEnabled,
    GuildIncidentAlertModeDisabled,
    GuildIncidentReportRaid,
    GuildIncidentReportFalseAlarm,
    PurchaseNotification,
    PollResult,
}

impl MessageType {
    /// The number that stands for this variant on the wire.
    pub open spec fn spec_code(self) -> u8 {
        match self {
            MessageType::Default => 0,
            MessageType::RecipientAdd => 1,
            MessageType::RecipientRemove => 2,
            MessageType::Call => 3,
            MessageType::ChannelNameChange => 4,
            MessageType::ChannelIconChange => 5,
            MessageType::ChannelPinnedMessage => 6,
            MessageType::UserJoin => 7,
            MessageType::GuildBoost => 8,
            MessageType::GuildBoostTier1 => 9,
            MessageType::GuildBoostTier2 => 10,
            MessageType::GuildBoostTier3 => 11,
            MessageType::ChannelFollowAdd => 12,
            MessageType::GuildDiscoveryDisqualified => 14,
            MessageType::GuildDiscoveryRequalified => 15,
            MessageType::GuildDiscoveryGracePeriodInitialWarning => 16,
            MessageType::GuildDiscoveryGracePeriodFinalWarning => 17,
            MessageType::ThreadCreated => 18,
            MessageType::Reply => 19,
            MessageType::ChatInputCommand => 20,
            MessageType::ThreadStarterMessage => 21,
            MessageType::GuildInviteReminder => 22,
            MessageType::ContextMenuCommand => 23,
            MessageType::AutoModerationAction => 24,
            MessageType::RoleSubscriptionPurchase => 25,
            MessageType::InteractionPremiumUpsell => 26,
            MessageType::StageStart => 27,
            MessageType::StageEnd => 28,
            MessageType::StageSpeaker => 29,
            MessageType::StageTopic => 31,
            MessageType::GuildApplicationPremiumSubscription => 32,
            MessageType::GuildIncidentAlertModeEnabled => 36,
            MessageType::GuildIncidentAlertModeDisabled => 37,
            MessageType::GuildIncidentReportRaid => 38,
            MessageType::GuildIncidentReportFalseAlarm => 39,
            MessageType::PurchaseNotification => 44,
            MessageType::PollResult => 46,
        }
    }

    /// The number that stands for this variant on the wire.
    #[verifier::when_used_as_spec(spec_code)]
    pub fn code(self) -> (r: u8)
        ensures
            r == self.spec_code(),
    {
        match self {
            MessageType::Default => 0,
            MessageType::RecipientAdd => 1,
            MessageType::RecipientRemove => 2,
            MessageType::Call => 3,
            MessageType::ChannelNameChange => 4,
            MessageType::ChannelIconChange => 5,
            MessageType::ChannelPinnedMessage => 6,
            MessageType::UserJoin => 7,
            MessageType::GuildBoost => 8,
            MessageType::GuildBoostTier1 => 9,
            MessageType::GuildBoostTier2 => 10,
            MessageType::GuildBoostTier3 => 11,
            MessageType::ChannelFollowAdd => 12,
            MessageType::GuildDiscoveryDisqualified => 14,
            MessageType::GuildDiscoveryRequalified => 15,
            MessageType::GuildDiscoveryGracePeriodInitialWarning => 16,
            MessageType::GuildDiscoveryGracePeriodFinalWarning => 17,
            MessageType::ThreadCreated => 18,
            MessageType::Reply => 19,
            MessageType::ChatInputCommand => 20,
            MessageType::ThreadStarterMessage => 21,
            MessageType::GuildInviteReminder => 22,
            MessageType::ContextMenuCommand => 23,
            MessageType::AutoModerationAction => 24,
            MessageType::RoleSubscriptionPurchase => 25,
            MessageType::InteractionPremiumUpsell => 26,
            MessageType::StageStart => 27,
            MessageType::StageEnd => 28,
            MessageType::StageSpeaker => 29,
            MessageType::StageTopic => 31,
            MessageType::GuildApplicationPremiumSubscription => 32,
            MessageType::GuildIncidentAlertModeEnabled => 36,
            MessageType::GuildIncidentAlertModeDisabled => 37,
            MessageType::GuildIncidentReportRaid => 38,
            MessageType::GuildIncidentReportFalseAlarm => 39,
            MessageType::PurchaseNotification => 44,
            MessageType::PollResult => 46,
        }
    }

    /// The variant that a number stands for, or `None` where it stands
    /// for none.
    pub fn from_code(code: u8) -> (r: Option<MessageType>)
        ensures
            match r {
                Some(v) => v.code() == code,
                None => forall|v: MessageType| #[trigger] v.code() != code,
            },
    {
        if code == 0 {
            Some(MessageType::Default)
        } else if code == 1 {
            Some(MessageType::RecipientAdd)
        } else if code == 2 {
            Some(MessageType::RecipientRemove)
        } else if code == 3 {
            Some(MessageType::Call)
        } else if code == 4 {
            Some(MessageType::ChannelNameChange)
        } else if code == 5 {
            Some(MessageType::ChannelIconChange)
        } else if code == 6 {
            Some(MessageType::ChannelPinnedMessage)
        } else if code == 7 {
            Some(MessageType::UserJoin)
        } else if code == 8 {
            Some(MessageType::GuildBoost)
        } else if code == 9 {
            Some(MessageType::GuildBoostTier1)
        } else if code == 10 {
            Some(MessageType::GuildBoostTier2)
        } else if code == 11 {
            Some(MessageType::GuildBoostTier3)
        } else if code == 12 {
            Some(MessageType::ChannelFollowAdd)
        } else if code == 14 {
            Some(MessageType::GuildDiscoveryDisqualified)
        } else if code == 15 {
            Some(MessageType::GuildDiscoveryRequalified)
        } else if code == 16 {
            Some(MessageType::GuildDiscoveryGracePeriodInitialWarning)
        } else if code == 17 {
            Some(MessageType::GuildDiscoveryGracePeriodFinalWarning)
        } else if code == 18 {
            Some(MessageType::ThreadCreated)
        } else if code == 19 {
            Some(MessageType::Reply)
        } else if code == 20 {
            Some(MessageType::ChatInputCommand)
        } else if code == 21 {
            Some(MessageType::ThreadStarterMessage)
        } else if code == 22 {
            Some(MessageType::GuildInviteReminder)
        } else if code == 23 {
            Some(MessageType::ContextMenuCommand)
        } else if code == 24 {
            Some(MessageType::AutoModerationAction)
        } else if code == 25 {
            Some(MessageType::RoleSubscriptionPurchase)
        } else if code == 26 {
            Some(MessageType::InteractionPremiumUpsell)
        } else if code == 27 {
            Some(MessageType::StageStart)
        } else if code == 28 {
            Some(MessageType::StageEnd)
        } else if code == 29 {
            Some(MessageType::StageSpeaker)
        } else if code == 31 {
            Some(MessageType::StageTopic)
        } else if code == 32 {
            Some(MessageType::GuildApplicationPremiumSubscription)
        } else if code == 36 {
            Some(MessageType::GuildIncidentAlertModeEnabled)
        } else if code == 37 {
            Some(MessageType::GuildIncidentAlertModeDisabled)
        } else if code == 38 {
            Some(MessageType::GuildIncidentReportRaid)
        } else if code == 39 {
            Some(MessageType::GuildIncidentReportFalseAlarm)
        } else if code == 44 {
            Some(MessageType::PurchaseNotification)
        } else if code == 46 {
            Some(MessageType::PollResult)
        } else {
            None
        }
    }
}

/// No two variants of [`MessageType`] share a number, so a variant is found
/// again from its number.
pub proof fn lemma_message_type_code_is_injective(a: MessageType, b: MessageType)
    requires
        a.code() == b.code(),
    ensures
        a == b,
{
}

/// Rich content embedded in a message.
#[derive(Clone, Debug, PartialEq, Eq)]
pub struct Embed {
    pub title: Option<String>,
    pub type_: Option<EmbedType>,
    pub description: Option<String>,
    pub url: Option<String>,
    pub timestamp: Option<String>,
    pub color: Option<HexCode>,
    pub footer: Option<EmbedFooter>,
    pub image: Option<EmbedImage>,
    pub thumbnail: Option<EmbedThumbnail>,
    pub video: Option<EmbedVideo>,
    pub provider: Option<EmbedProvider>,
    pub author: Option<EmbedAuthor>,
    pub fields: Option<Vec<EmbedField>>,
}

/// The kind of an embed.
#[derive(Clone, Copy, Debug, PartialEq, Eq, Hash, Structural)]
pub enum EmbedType {
    Rich,
    Image,
    Video,
    Gifv,
    Article,
    Link,
    PollResult,
}

impl EmbedType {
    /// The word that stands for this variant on the wire.
    pub open spec fn spec_name(self) -> Seq<char> {
        match self {
            EmbedType::Rich => "rich"@,
            EmbedType::Image => "image"@,
            EmbedType::Video => "video"@,
            EmbedType::Gifv => "gifv"@,
            EmbedType::Article => "article"@,
            EmbedType::Link => "link"@,
            EmbedType::PollResult => "poll_result"@,
        }
    }

    /// The word that stands for this variant on the wire.
    pub fn name(self) -> (r: &'static str)
        ensures
            r@ == self.spec_name(),
    {
        match self {
            EmbedType::Rich => "rich",
            EmbedType::Image => "image",
            EmbedType::Video => "video",
            EmbedType::Gifv => "gifv",
            EmbedType::Article => "article",
            EmbedType::Link => "link",
            EmbedType::PollResult => "poll_result",
        }
    }

    /// The variant that a word stands for, or `None` where it stands for
    /// none.
    pub fn from_name(name: &str) -> (r: Option<EmbedType>)
        ensures
            match r {
                Some(v) => v.spec_name() == name@,
                None => name@ != "rich"@ && name@ != "image"@ && name@ != "video"@ && name@ != "gifv"@ && name@ != "article"@ && name@ != "link"@ && name@ != "poll_result"@,
            },
    {
        let word = String::from_str(name);
        if word == String::from_str("rich") {
            Some(EmbedType::Rich)
        } else if word == String::from_str("image") {
            Some(EmbedType::Image)
        } else if word == String::from_str("video") {
            Some(EmbedType::Video)
        } else if word == String::from_str("gifv") {
            Some(EmbedType::Gifv)
        } else if word == String::from_str("article") {
            Some(EmbedType::Article)
        } else if word == String::from_str("link") {
            Some(EmbedType::Link)
        } else if word == String::from_str("poll_result") {
            Some(EmbedType::PollResult)
        } else {
            None
        }
    }
}

#[derive(Clone, Debug, PartialEq, Eq)]
pub struct EmbedFooter {
    pub text: String,
    pub icon_url: Option<String>,
    pub proxy_icon_url: Option<String>,
}

#[derive(Clone, Debug, PartialEq, Eq)]
pub struct EmbedImage {
    pub url: String,
    pub proxy_url: Option<String>,
    pub height: Option<usize>,
    pub width: Option<usize>,
}

#[derive(Clone, Debug, PartialEq, Eq)]
pub struct EmbedProvider {
    pub name: Option<String>,
    pub url: Option<String>,
}

#[derive(Clone, Debug, PartialEq, Eq)]
pub struct EmbedAuthor {
    pub name: String,
    pub url: Option<String>,
    pub icon_url: Option<String>,
    pub proxy_icon_url: Option<String>,
}

#[derive(Clone, Debug, PartialEq, Eq)]
pub struct EmbedField {
    pub name: String,
    pub value: String,
    pub inline: bool,
}

#[derive(Clone, Debug, PartialEq, Eq)]
pub struct EmbedThumbnail {
    pub url: String,
    pub proxy_url: Option<String>,
    pub height: Option<usize>,
    pub width: Option<usize>,
}

#[derive(Clone, Debug, PartialEq, Eq)]
pub struct EmbedVideo {
    pub url: String,
    pub proxy_url: Option<String>,
    pub height: Option<usize>,
    pub width: Option<usize>,
}

#[derive(Clone, Debug, PartialEq)]
pub struct Reaction {
    pub count: usize,
    pub count_details: ReactionDetails,
    pub me: bool,
    pub me_burst: bool,
    pub emoji: Emoji,
    /// HEX colors used for super reaction.
    pub burst_colors: Vec<HexCode>,
}

#[derive(Clone, Copy, Debug, PartialEq, Eq)]
pub struct ReactionDetails {
    pub burst: usize,
    pub normal: usize,
}

#[derive(Clone, Debug, PartialEq)]
pub struct Emoji {
    pub id: Option<String>,
    pub name: Option<String>,
    pub roles: Option<Vec<Role>>,
    pub user: Option<User>,
    /// Whether this emoji must be wrapped in colons.
    pub requires_colons: Option<bool>,
    pub managed: Option<bool>,
    pub animated: Option<bool>,
    /// Whether this emoji can be used; may be false due to loss of Server
    /// Boosts.
    pub available: Option<bool>,
}

#[derive(Clone, Debug, PartialEq, Eq)]
pub struct MessageActivity {
    pub type_: MessageActivityType,
    pub party_id: Option<String>,
}

/// What a message invites to.
#[derive(Clone, Copy, Debug, PartialEq, Eq, Hash, Structural)]
pub enum MessageActivityType {
    Join,
    Spectate,
    Listen,
    JoinRequest,
}

impl MessageActivityType {
    /// The number that stands for this variant on the wire.
    pub open spec fn spec_code(self) -> u8 {
        match self {
            MessageActivityType::Join => 1,
            MessageActivityType::Spectate => 2,
            MessageActivityType::Listen => 3,
            MessageActivityType::JoinRequest => 5,
        }
    }

    /// The number that stands for this variant on the wire.
    #[verifier::when_used_as_spec(spec_code)]
    pub fn code(self) -> (r: u8)
        ensures
            r == self.spec_code(),
    {
        match self {
            MessageActivityType::Join => 1,
            MessageActivityType::Spectate => 2,
            MessageActivityType::Listen => 3,
            MessageActivityType::JoinRequest => 5,
        }
    }

    /// The variant that a number stands for, or `None` where it stands
    /// for none.
    pub fn from_code(code: u8) -> (r: Option<MessageActivityType>)
        ensures
            match r {
                Some(v) => v.code() == code,
                None => forall|v: MessageActivityType| #[trigger] v.code() != code,
            },
    {
        if code == 1 {
            Some(MessageActivityType::Join)
        } else if code == 2 {
            Some(MessageActivityType::Spectate)
        } else if code == 3 {
            Some(MessageActivityType::Listen)
        } else if code == 5 {
            Some(MessageActivityType::JoinRequest)
        } else {
            None
        }
    }
}

/// No two variants of [`MessageActivityType`] share a number, so a variant is found
/// again from its number.
pub proof fn lemma_message_activity_type_code_is_injective(a: MessageActivityType, b: MessageActivityType)
    requires
        a.code() == b.code(),
    ensures
        a == b,
{
}

/// Which mentions in a message may notify someone.
#[derive(Clone, Debug, PartialEq, Eq)]
pub struct AllowedMention {
    pub parse: Vec<AllowedMentionType>,
    pub roles: Option<Vec<Snowflake>>,
    pub users: Option<Vec<Snowflake>>,
}

/// A class of mentions.
#[derive(Clone, Copy, Debug, PartialEq, Eq, Hash, Structural)]
pub enum AllowedMentionType {
    Roles,
    Users,
    Everyone,
}

impl AllowedMentionType {
    /// The word that stands for this variant on the wire.
    pub open spec fn spec_name(self) -> Seq<char> {
        match self {
            AllowedMentionType::Roles => "roles"@,
            AllowedMentionType::Users => "users"@,
            AllowedMentionType::Everyone => "everyone"@,
        }
    }

    /// The word that stands for this variant on the wire.
    pub fn name(self) -> (r: &'static str)
        ensures
            r@ == self.spec_name(),
    {
        match self {
            AllowedMentionType::Roles => "roles",
            AllowedMentionType::Users => "users",
            AllowedMentionType::Everyone => "everyone",
        }
    }

    /// The variant that a word stands for, or `None` where it stands for
    /// none.
    pub fn from_name(name: &str) -> (r: Option<AllowedMentionType>)
        ensures
            match r {
                Some(v) => v.spec_name() == name@,
                None => name@ != "roles"@ && name@ != "users"@ && name@ != "everyone"@,
            },
    {
        let word = String::from_str(name);
        if word == String::from_str("roles") {
            Some(AllowedMentionType::Roles)
        } else if word == String::from_str("users") {
            Some(AllowedMentionType::Users)
        } else if word == String::from_str("everyone") {
            Some(AllowedMentionType::Everyone)
        } else {
            None
        }
    }
}

#[derive(Clone, Debug, PartialEq, Eq)]
pub struct MessageReference {
    pub type_: MessageReferenceType,
    pub message_id: Option<String>,
    /// Required for forwards.
    pub channel_id: Option<String>,
    pub guild_id: Option<String>,
    pub fail_if_not_exists: Option<bool>,
}

/// What a message reference stands for.
#[derive(Clone, Copy, Debug, PartialEq, Eq, Hash, Structural)]
pub enum MessageReferenceType {
    /// Coupled message field: `referenced_message`.
    Default,
    /// Coupled message field: `message_snapshot`.
    Forward,
}

impl MessageReferenceType {
    /// The number that stands for this variant on the wire.
    pub open spec fn spec_code(self) -> u8 {
        match self {
            MessageReferenceType::Default => 0,
            MessageReferenceType::Forward => 1,
        }
    }

    /// The number that stands for this variant on the wire.
    #[verifier::when_used_as_spec(spec_code)]
    pub fn code(self) -> (r: u8)
        ensures
            r == self.spec_code(),
    {
        match self {
            MessageReferenceType::Default => 0,
            MessageReferenceType::Forward => 1,
        }
    }

    /// The variant that a number stands for, or `None` where it stands
    /// for none.
    pub fn from_code(code: u8) -> (r: Option<MessageReferenceType>)
        ensures
            match r {
                Some(v) => v.code() == code,
                None => forall|v: MessageReferenceType| #[trigger] v.code() != code,
            },
    {
        if code == 0 {
            Some(MessageReferenceType::Default)
        } else if code == 1 {
            Some(MessageReferenceType::Forward)
        } else {
            None
        }
    }
}

/// No two variants of [`MessageReferenceType`] share a number, so a variant is found
/// again from its number.
pub proof fn lemma_message_reference_type_code_is_injective(a: MessageReferenceType, b: MessageReferenceType)
    requires
        a.code() == b.code(),
    ensures
        a == b,
{
}

#[derive(Clone, Debug, PartialEq, Eq)]
pub struct ChannelMention {
    pub id: String,
    pub guild_id: String,
    pub type_: ChannelType,
    pub name: String,
}

} // verus!
