use crate::dataclasses::snowflake::Snowflake;
use crate::dataclasses::user::User;
use vstd::prelude::*;

verus! {

/// A channel of any kind, as the API hands it out. Which fields are there
/// depends on the kind; see [`Channel::into_text_channel`] and
/// [`Channel::into_voice_channel`].
#[derive(Clone, Debug, PartialEq)]
pub struct Channel {
    pub id: Snowflake,
    pub type_: ChannelType,
    pub guild_id: Option<Snowflake>,
    pub position: Option<u16>,
    pub permission_overwrites: Option<Vec<Overwrite>>,
    pub name: Option<String>,
    /// The channel topic.
    pub topic: Option<String>,
    pub nsfw: Option<bool>,
    pub last_message_id: Option<Snowflake>,
    pub bitrate: Option<usize>,
    pub user_limit: Option<usize>,
    pub rate_limit_per_user: Option<usize>,
    pub recipients: Option<Vec<User>>,
    pub icon: Option<String>,
    pub owner_id: Option<Snowflake>,
    pub application_id: Option<Snowflake>,
    pub managed: Option<bool>,
    /// For guild channels: id of the parent category; for threads: id of the
    /// text channel this thread was created in.
    pub parent_id: Option<String>,
    pub last_pin_timestamp: Option<String>,
    pub rtc_region: Option<String>,
    pub video_quality_mode: Option<VideoQualityMode>,
    pub message_count: Option<usize>,
    /// An approximate count of users in a thread; stops counting at 50.
    pub member_count: Option<u8>,
    pub thread_metadata: Option<ThreadMetadata>,
    pub default_auto_archive_duration: Option<AutoArchiveDuration>,
    pub permissions: Option<String>,
    pub flags: Option<ChannelFlags>,
    /// Number of messages ever sent in a thread.
    pub total_message_sent: Option<usize>,
    pub available_tags: Option<Vec<ForumTag>>,
    pub applied_tags: Option<Vec<String>>,
    pub default_reaction_emoji: Option<DefaultForumReactionEmoji>,
    pub default_thread_rate_limit_per_user: Option<usize>,
    pub default_sort_order: Option<ForumSortOrder>,
    pub default_forum_layout: Option<ForumLayout>,
}

/// A text channel of a guild.
#[derive(Clone, Debug, PartialEq)]
pub struct TextChannel {
    pub id: Snowflake,
    pub guild_id: Snowflake,
    pub position: u16,
    pub permission_overwrites: Vec<Overwrite>,
    pub name: String,
    pub topic: Option<String>,
    pub nsfw: bool,
    pub last_message_id: Option<Snowflake>,
    pub rate_limit_per_user: Option<usize>,
    pub last_pin_timestamp: Option<String>,
    pub permissions: Option<String>,
    pub flags: Option<ChannelFlags>,
}

/// A voice channel of a guild.
#[derive(Clone, Debug, PartialEq)]
pub struct VoiceChannel {
    pub id: Snowflake,
    pub guild_id: Snowflake,
    pub position: u16,
    pub permission_overwrites: Vec<Overwrite>,
    pub name: String,
    pub bitrate: Option<usize>,
    pub user_limit: Option<usize>,
    pub rtc_region: Option<String>,
    pub video_quality_mode: Option<VideoQualityMode>,
    pub permissions: Option<String>,
    pub flags: Option<ChannelFlags>,
}

impl Channel {
    /// Whether the channel has everything a guild channel must have: guild
    /// id, position, permission overwrites and name.
    pub open spec fn spec_is_guild_channel(&self) -> bool {
        self.guild_id is Some && self.position is Some && self.permission_overwrites is Some
            && self.name is Some
    }

    /// The channel as a text channel: the fields that a text channel has,
    /// taken over as they are. `None` where the guild id, the position, the
    /// permission overwrites, the name or the NSFW flag is missing.
    pub fn into_text_channel(self) -> (r: Option<TextChannel>)
        ensures
            self.spec_is_guild_channel() && self.nsfw is Some <==> r is Some,
            r matches Some(t) ==> t == (TextChannel {
                id: self.id,
                guild_id: self.guild_id->Some_0,
                position: self.position->Some_0,
                permission_overwrites: self.permission_overwrites->Some_0,
                name: self.name->Some_0,
                topic: self.topic,
                nsfw: self.nsfw->Some_0,
                last_message_id: self.last_message_id,
                rate_limit_per_user: self.rate_limit_per_user,
                last_pin_timestamp: self.last_pin_timestamp,
                permissions: self.permissions,
                flags: self.flags,
            }),
    {
        match (self.guild_id, self.position, self.permission_overwrites, self.name, self.nsfw) {
            (Some(guild_id), Some(position), Some(permission_overwrites), Some(name), Some(nsfw)) => {
                Some(
                    TextChannel {
                        id: self.id,
                        guild_id,
                        position,
                        permission_overwrites,
                        name,
                        topic: self.topic,
                        nsfw,
                        last_message_id: self.last_message_id,
                        rate_limit_per_user: self.rate_limit_per_user,
                        last_pin_timestamp: self.last_pin_timestamp,
                        permissions: self.permissions,
                        flags: self.flags,
                    },
                )
            },
            _ => None,
        }
    }

    /// The channel as a voice channel: the fields that a voice channel
    /// has, taken over as they are. `None` where the guild id, the
    /// position, the permission overwrites or the name is missing.
    pub fn into_voice_channel(self) -> (r: Option<VoiceChannel>)
        ensures
            self.spec_is_guild_channel() <==> r is Some,
            r matches Some(v) ==> v == (VoiceChannel {
                id: self.id,
                guild_id: self.guild_id->Some_0,
                position: self.position->Some_0,
                permission_overwrites: self.permission_overwrites->Some_0,
                name: self.name->Some_0,
                bitrate: self.bitrate,
                user_limit: self.user_limit,
                rtc_region: self.rtc_region,
                video_quality_mode: self.video_quality_mode,
                permissions: self.permissions,
                flags: self.flags,
            }),
    {
        match (self.guild_id, self.position, self.permission_overwrites, self.name) {
            (Some(guild_id), Some(position), Some(permission_overwrites), Some(name)) => {
                Some(
                    VoiceChannel {
                        id: self.id,
                        guild_id,
                        position,
                        permission_overwrites,
                        name,
                        bitrate: self.bitrate,
                        user_limit: self.user_limit,
                        rtc_region: self.rtc_region,
                        video_quality_mode: self.video_quality_mode,
                        permissions: self.permissions,
                        flags: self.flags,
                    },
                )
            },
            _ => None,
        }
    }
}

#[derive(Clone, Copy, Debug, PartialEq, Eq)]
pub struct Thread;

/// The kind of a channel.
#[derive(Clone, Copy, Debug, PartialEq, Eq, Hash, Structural)]
pub struct ChannelType {
    bits: u64,
}

impl ChannelType {
    pub const GUILD_TEXT: u64 = 0x1;

    pub const DM: u64 = 0x2;

    pub const GUILD_VOICE: u64 = 0x4;

    pub const GROUP_DM: u64 = 0x8;

    pub const GUILD_CATEGORY: u64 = 0x10;

    pub const GUILD_ANNOUNCEMENT: u64 = 0x20;

    pub const ANNOUNCEMENT_THREAD: u64 = 0x400;

    pub const PUBLIC_THREAD: u64 = 0x800;

    pub const PRIVATE_THREAD: u64 = 0x1000;

    pub const GUILD_STAGE_VOICE: u64 = 0x2000;

    pub const GUILD_DIRECTORY: u64 = 0x4000;

    pub const GUILD_FORUM: u64 = 0x8000;

    pub const GUILD_MEDIA: u64 = 0x10000;

    /// Every bit that has a meaning.
    pub const ALL: u64 = 0x1fc3f;

    /// The bitmask.
    pub closed spec fn spec_bits(&self) -> u64 {
        self.bits
    }

    /// The bitmask.
    #[verifier::when_used_as_spec(spec_bits)]
    pub fn bits(&self) -> (r: u64)
        ensures
            r == self.spec_bits(),
    {
        self.bits
    }

    /// No bit set.
    pub fn empty() -> (r: ChannelType)
        ensures
            r.bits() == 0,
    {
        ChannelType { bits: 0 }
    }

    /// Every bit set that has a meaning.
    pub fn all() -> (r: ChannelType)
        ensures
            r.bits() == ChannelType::ALL,
    {
        ChannelType { bits: ChannelType::ALL }
    }

    /// The set with exactly these bits, or `None` where one of them has
    /// no meaning.
    pub fn from_bits(bits: u64) -> (r: Option<ChannelType>)
        ensures
            bits & !ChannelType::ALL == 0 <==> r is Some,
            r matches Some(v) ==> v.bits() == bits,
    {
        if bits & !ChannelType::ALL == 0 {
            Some(ChannelType { bits })
        } else {
            None
        }
    }

    /// The set with these bits, without those that have no meaning.
    pub fn from_bits_truncate(bits: u64) -> (r: ChannelType)
        ensures
            r.bits() == bits & ChannelType::ALL,
    {
        ChannelType { bits: bits & ChannelType::ALL }
    }

    /// Whether no bit is set.
    pub fn is_empty(&self) -> (r: bool)
        ensures
            r == (self.bits() == 0),
    {
        self.bits == 0
    }

    /// Whether every bit of `other` is set here too.
    pub fn contains(&self, other: ChannelType) -> (r: bool)
        ensures
            r == (self.bits() & other.bits() == other.bits()),
    {
        self.bits & other.bits == other.bits
    }

    /// The bits of either set.
    pub fn union(self, other: ChannelType) -> (r: ChannelType)
        ensures
            r.bits() == self.bits() | other.bits(),
    {
        ChannelType { bits: self.bits | other.bits }
    }
}

/// Flags of a channel.
#[derive(Clone, Copy, Debug, PartialEq, Eq, Hash, Structural)]
pub struct ChannelFlags {
    bits: u64,
}

impl ChannelFlags {
    pub const PINNED: u64 = 0x2;

    pub const REQUIRED_TAG: u64 = 0x10;

    pub const HIDE_MEDIA_DOWNLOAD_OPTIONS: u64 = 0x8000;

    /// Every bit that has a meaning.
    pub const ALL: u64 = 0x8012;

    /// The bitmask.
    pub closed spec fn spec_bits(&self) -> u64 {
        self.bits
    }

    /// The bitmask.
    #[verifier::when_used_as_spec(spec_bits)]
    pub fn bits(&self) -> (r: u64)
        ensures
            r == self.spec_bits(),
    {
        self.bits
    }

    /// No bit set.
    pub fn empty() -> (r: ChannelFlags)
        ensures
            r.bits() == 0,
    {
        ChannelFlags { bits: 0 }
    }

    /// Every bit set that has a meaning.
    pub fn all() -> (r: ChannelFlags)
        ensures
            r.bits() == ChannelFlags::ALL,
    {
        ChannelFlags { bits: ChannelFlags::ALL }
    }

    /// The set with exactly these bits, or `None` where one of them has
    /// no meaning.
    pub fn from_bits(bits: u64) -> (r: Option<ChannelFlags>)
        ensures
            bits & !ChannelFlags::ALL == 0 <==> r is Some,
            r matches Some(v) ==> v.bits() == bits,
    {
        if bits & !ChannelFlags::ALL == 0 {
            Some(ChannelFlags { bits })
        } else {
            None
        }
    }

    /// The set with these bits, without those that have no meaning.
    pub fn from_bits_truncate(bits: u64) -> (r: ChannelFlags)
        ensures
            r.bits() == bits & ChannelFlags::ALL,
    {
        ChannelFlags { bits: bits & ChannelFlags::ALL }
    }

    /// Whether no bit is set.
    pub fn is_empty(&self) -> (r: bool)
        ensures
            r == (self.bits() == 0),
    {
        self.bits == 0
    }

    /// Whether every bit of `other` is set here too.
    pub fn contains(&self, other: ChannelFlags) -> (r: bool)
        ensures
            r == (self.bits() & other.bits() == other.bits()),
    {
        self.bits & other.bits == other.bits
    }

    /// The bits of either set.
    pub fn union(self, other: ChannelFlags) -> (r: ChannelFlags)
        ensures
            r.bits() == self.bits() | other.bits(),
    {
        ChannelFlags { bits: self.bits | other.bits }
    }
}

/// A permission overwrite for one role or member.
#[derive(Clone, Copy, Debug, PartialEq, Eq)]
pub struct Overwrite {
    /// Role or user ID.
    pub id: Snowflake,
    pub type_: OverwriteType,
    pub allow: Permissions,
    pub deny: Permissions,
}

/// Whom a permission overwrite is for.
#[derive(Clone, Copy, Debug, PartialEq, Eq, Hash, Structural)]
pub enum OverwriteType {
    Role,
    Member,
}

impl OverwriteType {
    /// The number that stands for this variant on the wire.
    pub open spec fn spec_code(self) -> u8 {
        match self {
            OverwriteType::Role => 0,
            OverwriteType::Member => 1,
        }
    }

    /// The number that stands for this variant on the wire.
    #[verifier::when_used_as_spec(spec_code)]
    pub fn code(self) -> (r: u8)
        ensures
            r == self.spec_code(),
    {
        match self {
            OverwriteType::Role => 0,
            OverwriteType::Member => 1,
        }
    }

    /// The variant that a number stands for, or `None` where it stands
    /// for none.
    pub fn from_code(code: u8) -> (r: Option<OverwriteType>)
        ensures
            match r {
                Some(v) => v.code() == code,
                None => forall|v: OverwriteType| #[trigger] v.code() != code,
            },
    {
        if code == 0 {
            Some(OverwriteType::Role)
        } else if code == 1 {
            Some(OverwriteType::Member)
        } else {
            None
        }
    }
}

/// No two variants of [`OverwriteType`] share a number, so a variant is found
/// again from its number.
pub proof fn lemma_overwrite_type_code_is_injective(a: OverwriteType, b: OverwriteType)
    requires
        a.code() == b.code(),
    ensures
        a == b,
{
}

/// A set of permissions.
#[derive(Clone, Copy, Debug, PartialEq, Eq, Hash, Structural)]
pub struct Permissions {
    bits: u64,
}

impl Permissions {
    pub const CREATE_INSTANT_INVITE: u64 = 0x1;

    pub const KICK_MEMBERS: u64 = 0x2;

    pub const BAN_MEMBERS: u64 = 0x4;

    pub const ADMINISTRATOR: u64 = 0x8;

    pub const MANAGE_CHANNELS: u64 = 0x10;

    pub const MANAGE_GUILD: u64 = 0x20;

    pub const ADD_REACTIONS: u64 = 0x40;

    pub const VIEW_AUDIT_LOG: u64 = 0x80;

    pub const PRIORITY_SPEAKER: u64 = 0x100;

    pub const STREAM: u64 = 0x200;

    pub const VIEW_CHANNEL: u64 = 0x400;

    pub const SEND_MESSAGES: u64 = 0x800;

    pub const SEND_TTS_MESSAGES: u64 = 0x1000;

    pub const MANAGE_MESSAGES: u64 = 0x2000;

    pub const EMBED_LINKS: u64 = 0x4000;

    pub const ATTACH_FILES: u64 = 0x8000;

    pub const READ_MESSAGE_HISTORY: u64 = 0x10000;

    pub const MENTION_EVERYONE: u64 = 0x20000;

    pub const USE_EXTERNAL_EMOJIS: u64 = 0x40000;

    pub const VIEW_GUILD_INSIGHTS: u64 = 0x80000;

    pub const CONNECT: u64 = 0x100000;

    pub const SPEAK: u64 = 0x200000;

    pub const MUTE_MEMBERS: u64 = 0x400000;

    pub const DEAFEN_MEMBERS: u64 = 0x800000;

    pub const MOVE_MEMBERS: u64 = 0x1000000;

    pub const USE_VAD: u64 = 0x2000000;

    pub const CHANGE_NICKNAME: u64 = 0x4000000;

    pub const MANAGE_NICKNAMES: u64 = 0x8000000;

    pub const MANAGE_ROLES: u64 = 0x10000000;

    pub const MANAGE_WEBHOOKS: u64 = 0x20000000;

    pub const MANAGE_GUILD_EXPRESSIONS: u64 = 0x40000000;

    pub const USE_APPLICATION_COMMANDS: u64 = 0x80000000;

    pub const REQUEST_TO_SPEAK: u64 = 0x100000000;

    pub const MANAGE_EVENTS: u64 = 0x200000000;

    pub const MANAGE_THREADS: u64 = 0x400000000;

    pub const CREATE_PUBLIC_THREADS: u64 = 0x800000000;

    pub const CREATE_PRIVATE_THREADS: u64 = 0x1000000000;

    pub const USE_EXTERNAL_STICKERS: u64 = 0x2000000000;

    pub const SEND_MESSAGES_IN_THREADS: u64 = 0x4000000000;

    pub const USE_EMBEDDED_ACTIVITIES: u64 = 0x8000000000;

    pub const MODERATE_MEMBERS: u64 = 0x10000000000;

    pub const VIEW_CREATOR_MONETIZATION_ANALYTICS: u64 = 0x20000000000;

    pub const USE_SOUNDBOARD: u64 = 0x40000000000;

    pub const CREATE_GUILD_EXPRESSIONS: u64 = 0x80000000000;

    pub const CREATE_EVENTS: u64 = 0x100000000000;

    pub const USE_EXTERNAL_SOUNDS: u64 = 0x200000000000;

    pub const SEND_VOICE_MESSAGES: u64 = 0x400000000000;

    pub const SEND_POLLS: u64 = 0x2000000000000;

    pub const USE_EXTERNAL_APPS: u64 = 0x4000000000000;

    /// Every bit that has a meaning.
    pub const ALL: u64 = 0x67fffffffffff;

    /// The bitmask.
    pub closed spec fn spec_bits(&self) -> u64 {
        self.bits
    }

    /// The bitmask.
    #[verifier::when_used_as_spec(spec_bits)]
    pub fn bits(&self) -> (r: u64)
        ensures
            r == self.spec_bits(),
    {
        self.bits
    }

    /// No bit set.
    pub fn empty() -> (r: Permissions)
        ensures
            r.bits() == 0,
    {
        Permissions { bits: 0 }
    }

    /// Every bit set that has a meaning.
    pub fn all() -> (r: Permissions)
        ensures
            r.bits() == Permissions::ALL,
    {
        Permissions { bits: Permissions::ALL }
    }

    /// The set with exactly these bits, or `None` where one of them has
    /// no meaning.
    pub fn from_bits(bits: u64) -> (r: Option<Permissions>)
        ensures
            bits & !Permissions::ALL == 0 <==> r is Some,
            r matches Some(v) ==> v.bits() == bits,
    {
        if bits & !Permissions::ALL == 0 {
            Some(Permissions { bits })
        } else {
            None
        }
    }

    /// The set with these bits, without those that have no meaning.
    pub fn from_bits_truncate(bits: u64) -> (r: Permissions)
        ensures
            r.bits() == bits & Permissions::ALL,
    {
        Permissions { bits: bits & Permissions::ALL }
    }

    /// Whether no bit is set.
    pub fn is_empty(&self) -> (r: bool)
        ensures
            r == (self.bits() == 0),
    {
        self.bits == 0
    }

    /// Whether every bit of `other` is set here too.
    pub fn contains(&self, other: Permissions) -> (r: bool)
        ensures
            r == (self.bits() & other.bits() == other.bits()),
    {
        self.bits & other.bits == other.bits
    }

    /// The bits of either set.
    pub fn union(self, other: Permissions) -> (r: Permissions)
        ensures
            r.bits() == self.bits() | other.bits(),
    {
        Permissions { bits: self.bits | other.bits }
    }
}

impl Permissions {
    /// No permission.
    pub fn none() -> (r: Permissions)
        ensures
            r.bits() == 0,
    {
        Permissions::empty()
    }

    /// What is left of a set of permissions once `deny` is taken away and
    /// `allow` is added: how one overwrite changes them.
    pub fn overwritten(self, allow: Permissions, deny: Permissions) -> (r: Permissions)
        ensures
            r.bits() == (self.bits() & !deny.bits()) | allow.bits(),
    {
        Permissions { bits: (self.bits & !deny.bits) | allow.bits }
    }
}

/// The camera video quality of a voice channel.
#[derive(Clone, Copy, Debug, PartialEq, Eq, Hash, Structural)]
pub enum VideoQualityMode {
    Auto,
    /// 720p
    Full,
}

impl VideoQualityMode {
    /// The number that stands for this variant on the wire.
    pub open spec fn spec_code(self) -> u8 {
        match self {
            VideoQualityMode::Auto => 1,
            VideoQualityMode::Full => 2,
        }
    }

    /// The number that stands for this variant on the wire.
    #[verifier::when_used_as_spec(spec_code)]
    pub fn code(self) -> (r: u8)
        ensures
            r == self.spec_code(),
    {
        match self {
            VideoQualityMode::Auto => 1,
            VideoQualityMode::Full => 2,
        }
    }

    /// The variant that a number stands for, or `None` where it stands
    /// for none.
    pub fn from_code(code: u8) -> (r: Option<VideoQualityMode>)
        ensures
            match r {
                Some(v) => v.code() == code,
                None => forall|v: VideoQualityMode| #[trigger] v.code() != code,
            },
    {
        if code == 1 {
            Some(VideoQualityMode::Auto)
        } else if code == 2 {
            Some(VideoQualityMode::Full)
        } else {
            None
        }
    }
}

/// No two variants of [`VideoQualityMode`] share a number, so a variant is found
/// again from its number.
pub proof fn lemma_video_quality_mode_code_is_injective(a: VideoQualityMode, b: VideoQualityMode)
    requires
        a.code() == b.code(),
    ensures
        a == b,
{
}

#[derive(Clone, Debug, PartialEq, Eq)]
pub struct ThreadMetadata {
    pub archived: bool,
    pub auto_archive_duration: u64,
    pub archive_timestamp: String,
    pub locked: bool,
    pub invitable: Option<bool>,
    pub create_timestamp: Option<String>,
}

/// After how many minutes without activity a thread is archived.
#[derive(Clone, Copy, Debug, PartialEq, Eq, Hash, Structural)]
pub enum AutoArchiveDuration {
    OneHour,
    OneDay,
    ThreeDays,
    OneWeek,
}

impl AutoArchiveDuration {
    /// The number that stands for this variant on the wire.
    pub open spec fn spec_code(self) -> u16 {
        match self {
            AutoArchiveDuration::OneHour => 60,
            AutoArchiveDuration::OneDay => 1440,
            AutoArchiveDuration::ThreeDays => 4320,
            AutoArchiveDuration::OneWeek => 10080,
        }
    }

    /// The number that stands for this variant on the wire.
    #[verifier::when_used_as_spec(spec_code)]
    pub fn code(self) -> (r: u16)
        ensures
            r == self.spec_code(),
    {
        match self {
            AutoArchiveDuration::OneHour => 60,
            AutoArchiveDuration::OneDay => 1440,
            AutoArchiveDuration::ThreeDays => 4320,
            AutoArchiveDuration::OneWeek => 10080,
        }
    }

    /// The variant that a number stands for, or `None` where it stands
    /// for none.
    pub fn from_code(code: u16) -> (r: Option<AutoArchiveDuration>)
        ensures
            match r {
                Some(v) => v.code() == code,
                None => forall|v: AutoArchiveDuration| #[trigger] v.code() != code,
            },
    {
        if code == 60 {
            Some(AutoArchiveDuration::OneHour)
        } else if code == 1440 {
            Some(AutoArchiveDuration::OneDay)
        } else if code == 4320 {
            Some(AutoArchiveDuration::ThreeDays)
        } else if code == 10080 {
            Some(AutoArchiveDuration::OneWeek)
        } else {
            None
        }
    }
}

/// No two variants of [`AutoArchiveDuration`] share a number, so a variant is found
/// again from its number.
pub proof fn lemma_auto_archive_duration_code_is_injective(a: AutoArchiveDuration, b: AutoArchiveDuration)
    requires
        a.code() == b.code(),
    ensures
        a == b,
{
}

#[derive(Clone, Debug, PartialEq, Eq)]
pub struct ForumTag {
    pub id: Snowflake,
    pub name: String,
    pub moderated: bool,
    pub emoji_id: Option<Snowflake>,
    pub emoji_name: Option<String>,
}

#[derive(Clone, Debug, PartialEq, Eq)]
pub struct DefaultForumReactionEmoji {
    pub emoji_id: Option<Snowflake>,
    pub emoji_name: Option<String>,
}

/// How the posts of a forum are ordered.
#[derive(Clone, Copy, Debug, PartialEq, Eq, Hash, Structural)]
pub enum ForumSortOrder {
    LatestActivity,
    CreationDate,
}

impl ForumSortOrder {
    /// The number that stands for this variant on the wire.
    pub open spec fn spec_code(self) -> u8 {
        match self {
            ForumSortOrder::LatestActivity => 0,
            ForumSortOrder::CreationDate => 1,
        }
    }

    /// The number that stands for this variant on the wire.
    #[verifier::when_used_as_spec(spec_code)]
    pub fn code(self) -> (r: u8)
        ensures
            r == self.spec_code(),
    {
        match self {
            ForumSortOrder::LatestActivity => 0,
            ForumSortOrder::CreationDate => 1,
        }
    }

    /// The variant that a number stands for, or `None` where it stands
    /// for none.
    pub fn from_code(code: u8) -> (r: Option<ForumSortOrder>)
        ensures
            match r {
                Some(v) => v.code() == code,
                None => forall|v: ForumSortOrder| #[trigger] v.code() != code,
            },
    {
        if code == 0 {
            Some(ForumSortOrder::LatestActivity)
        } else if code == 1 {
            Some(ForumSortOrder::CreationDate)
        } else {
            None
        }
    }
}

/// No two variants of [`ForumSortOrder`] share a number, so a variant is found
/// again from its number.
pub proof fn lemma_forum_sort_order_code_is_injective(a: ForumSortOrder, b: ForumSortOrder)
    requires
        a.code() == b.code(),
    ensures
        a == b,
{
}

/// How the posts of a forum are laid out.
#[derive(Clone, Copy, Debug, PartialEq, Eq, Hash, Structural)]
pub enum ForumLayout {
    NotSet,
    ListView,
    GalleryView,
}

impl ForumLayout {
    /// The number that stands for this variant on the wire.
    pub open spec fn spec_code(self) -> u8 {
        match self {
            ForumLayout::NotSet => 0,
            ForumLayout::ListView => 1,
            ForumLayout::GalleryView => 2,
        }
    }

    /// The number that stands for this variant on the wire.
    #[verifier::when_used_as_spec(spec_code)]
    pub fn code(self) -> (r: u8)
        ensures
            r == self.spec_code(),
    {
        match self {
            ForumLayout::NotSet => 0,
            ForumLayout::ListView => 1,
            ForumLayout::GalleryView => 2,
        }
    }

    /// The variant that a number stands for, or `None` where it stands
    /// for none.
    pub fn from_code(code: u8) -> (r: Option<ForumLayout>)
        ensures
            match r {
                Some(v) => v.code() == code,
                None => forall|v: ForumLayout| #[trigger] v.code() != code,
            },
    {
        if code == 0 {
            Some(ForumLayout::NotSet)
        } else if code == 1 {
            Some(ForumLayout::ListView)
        } else if code == 2 {
            Some(ForumLayout::GalleryView)
        } else {
            None
        }
    }
}

/// No two variants of [`ForumLayout`] share a number, so a variant is found
/// again from its number.
pub proof fn lemma_forum_layout_code_is_injective(a: ForumLayout, b: ForumLayout)
    requires
        a.code() == b.code(),
    ensures
        a == b,
{
}

} // verus!
