pub mod channel;
pub mod common;
pub mod guild;
pub mod message;
pub mod role;
pub mod snowflake;
pub mod traits;
pub mod user;

pub use channel::{
    AutoArchiveDuration, Channel, ChannelFlags, ChannelType, DefaultForumReactionEmoji,
    ForumLayout, ForumSortOrder, ForumTag, Overwrite, OverwriteType, Permissions, TextChannel,
    Thread, ThreadMetadata, VideoQualityMode, VoiceChannel,
};
pub use common::HexCode;
pub use guild::PartialGuild;
pub use message::{
    AllowedMention, AllowedMentionType, ChannelMention, Embed, EmbedAuthor, EmbedField,
    EmbedFooter, EmbedImage, EmbedProvider, EmbedThumbnail, EmbedType, EmbedVideo, Emoji,
    MessageActivity, MessageActivityType, MessageFlags, MessageReference, MessageReferenceType,
    MessageType, Nounce, Reaction, ReactionDetails,
};
pub use role::{Role, RoleFlags, RoleTags};
pub use snowflake::Snowflake;
pub use traits::Mentionable;
pub use user::{PremiumType, User, UserFlags};
