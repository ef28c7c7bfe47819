use omu::dataclasses::{
    AllowedMentionType, AutoArchiveDuration, Channel, ChannelFlags, ChannelType, EmbedType,
    ForumLayout, ForumSortOrder, HexCode, MessageActivityType, MessageFlags, MessageReferenceType,
    MessageType, Overwrite, OverwriteType, Permissions, PremiumType, RoleFlags, Snowflake,
    UserFlags, VideoQualityMode,
};
use omu::gateway::intents::Intents;

fn channel(id: u64) -> Channel {
    Channel {
        id: Snowflake::new(id),
        type_: ChannelType::from_bits_truncate(ChannelType::GUILD_TEXT),
        guild_id: None,
        position: None,
        permission_overwrites: None,
        name: None,
        topic: None,
        nsfw: None,
        last_message_id: None,
        bitrate: None,
        user_limit: None,
        rate_limit_per_user: None,
        recipients: None,
        icon: None,
        owner_id: None,
        application_id: None,
        managed: None,
        parent_id: None,
        last_pin_timestamp: None,
        rtc_region: None,
        video_quality_mode: None,
        message_count: None,
        member_count: None,
        thread_metadata: None,
        default_auto_archive_duration: None,
        permissions: None,
        flags: None,
        total_message_sent: None,
        available_tags: None,
        applied_tags: None,
        default_reaction_emoji: None,
        default_thread_rate_limit_per_user: None,
        default_sort_order: None,
        default_forum_layout: None,
    }
}

#[test]
fn snowflake_holds_its_id() {
    assert_eq!(Snowflake::new(175928847299117063).as_u64(), 175928847299117063);
    assert_eq!(Snowflake::new(0).as_u64(), 0);
    assert_eq!(Snowflake::new(7), Snowflake::new(7));
    assert_ne!(Snowflake::new(7), Snowflake::new(8));
}

#[test]
fn snowflake_is_written_in_decimal() {
    assert_eq!(Snowflake::new(0).to_string(), "0");
    assert_eq!(Snowflake::new(9).to_string(), "9");
    assert_eq!(Snowflake::new(10).to_string(), "10");
    assert_eq!(Snowflake::new(175928847299117063).to_string(), "175928847299117063");
    assert_eq!(Snowflake::new(u64::MAX).to_string(), "18446744073709551615");
}

#[test]
fn snowflake_mentions() {
    let id = Snowflake::new(80351110224678912);
    assert_eq!(id.mention_user(), "<@80351110224678912>");
    assert_eq!(id.mention_role(), "<@&80351110224678912>");
    assert_eq!(id.mention_channel(), "<#80351110224678912>");
    assert_eq!(Snowflake::new(0).mention_user(), "<@0>");
    assert_eq!(Snowflake::new(u64::MAX).mention_channel(), "<#18446744073709551615>");
}

#[test]
fn snowflake_is_read_from_decimal_text() {
    assert_eq!(Snowflake::parse("0"), Some(Snowflake::new(0)));
    assert_eq!(Snowflake::parse("175928847299117063"), Some(Snowflake::new(175928847299117063)));
    assert_eq!(Snowflake::parse("18446744073709551615"), Some(Snowflake::new(u64::MAX)));
    assert_eq!(Snowflake::parse("18446744073709551616"), None);
    assert_eq!(Snowflake::parse(""), None);
    assert_eq!(Snowflake::parse("12a"), None);
    assert_eq!(Snowflake::parse("-1"), None);
    assert_eq!(Snowflake::parse(" 1"), None);
    assert_eq!(Snowflake::parse("1.0"), None);
}

#[test]
fn snowflake_text_round_trip() {
    for id in [0u64, 1, 9, 10, 99, 100, 4194304, 175928847299117063, u64::MAX - 1, u64::MAX] {
        let s = Snowflake::new(id);
        assert_eq!(Snowflake::parse(&s.to_string()), Some(s));
    }
}

#[test]
fn snowflake_from_a_parser_result() {
    assert_eq!(Snowflake::from_parsed(Some(5)), Some(Snowflake::new(5)));
    assert_eq!(Snowflake::from_parsed(None), None);
}

#[test]
fn wire_codes_of_small_enums() {
    assert_eq!(OverwriteType::Role.code(), 0);
    assert_eq!(OverwriteType::Member.code(), 1);
    assert_eq!(OverwriteType::from_code(1), Some(OverwriteType::Member));
    assert_eq!(OverwriteType::from_code(2), None);
    assert_eq!(VideoQualityMode::Auto.code(), 1);
    assert_eq!(VideoQualityMode::Full.code(), 2);
    assert_eq!(VideoQualityMode::from_code(0), None);
    assert_eq!(AutoArchiveDuration::OneHour.code(), 60);
    assert_eq!(AutoArchiveDuration::OneDay.code(), 1440);
    assert_eq!(AutoArchiveDuration::ThreeDays.code(), 4320);
    assert_eq!(AutoArchiveDuration::OneWeek.code(), 10080);
    assert_eq!(AutoArchiveDuration::from_code(1440), Some(AutoArchiveDuration::OneDay));
    assert_eq!(AutoArchiveDuration::from_code(61), None);
    assert_eq!(ForumSortOrder::from_code(1), Some(ForumSortOrder::CreationDate));
    assert_eq!(ForumLayout::GalleryView.code(), 2);
    assert_eq!(ForumLayout::from_code(3), None);
    assert_eq!(MessageActivityType::JoinRequest.code(), 5);
    assert_eq!(MessageActivityType::from_code(4), None);
    assert_eq!(MessageReferenceType::from_code(1), Some(MessageReferenceType::Forward));
    assert_eq!(PremiumType::NoPremium.code(), 1);
    assert_eq!(PremiumType::NitroBasic.code(), 4);
    assert_eq!(PremiumType::from_code(0), None);
}

#[test]
fn message_type_codes_round_trip_and_have_gaps() {
    assert_eq!(MessageType::Default.code(), 0);
    assert_eq!(MessageType::Reply.code(), 19);
    assert_eq!(MessageType::StageTopic.code(), 31);
    assert_eq!(MessageType::PollResult.code(), 46);
    let mut known = 0;
    for code in 0..=255u8 {
        match MessageType::from_code(code) {
            Some(kind) => {
                assert_eq!(kind.code(), code);
                known += 1;
            }
            None => {}
        }
    }
    assert_eq!(known, 37);
    for gap in [13u8, 30, 33, 34, 35, 40, 41, 42, 43, 45, 47] {
        assert_eq!(MessageType::from_code(gap), None);
    }
}

#[test]
fn wire_names() {
    assert_eq!(EmbedType::Rich.name(), "rich");
    assert_eq!(EmbedType::PollResult.name(), "poll_result");
    assert_eq!(EmbedType::from_name("gifv"), Some(EmbedType::Gifv));
    assert_eq!(EmbedType::from_name("Rich"), None);
    assert_eq!(AllowedMentionType::Everyone.name(), "everyone");
    assert_eq!(AllowedMentionType::from_name("roles"), Some(AllowedMentionType::Roles));
    assert_eq!(AllowedMentionType::from_name("users"), Some(AllowedMentionType::Users));
    assert_eq!(AllowedMentionType::from_name("nobody"), None);
    for kind in [EmbedType::Rich, EmbedType::Image, EmbedType::Video, EmbedType::Gifv,
        EmbedType::Article, EmbedType::Link, EmbedType::PollResult]
    {
        assert_eq!(EmbedType::from_name(kind.name()), Some(kind));
    }
}

#[test]
fn permissions_are_a_bitmask() {
    assert_eq!(Permissions::ADMINISTRATOR, 1 << 3);
    assert_eq!(Permissions::USE_EXTERNAL_APPS, 1 << 50);
    assert_eq!(Permissions::ALL, 0x67fffffffffff);
    assert_eq!(Permissions::all().bits(), Permissions::ALL);
    assert_eq!(Permissions::none().bits(), 0);
    assert!(Permissions::empty().is_empty());
    assert_eq!(Permissions::from_bits_truncate(u64::MAX).bits(), Permissions::ALL);
    assert_eq!(Permissions::from_bits_truncate((1 << 47) | 8).bits(), 8);
    assert_eq!(Permissions::from_bits(1 << 47), None);
    assert_eq!(Permissions::from_bits(9).unwrap().bits(), 9);
    let mods = Permissions::from_bits_truncate(Permissions::KICK_MEMBERS | Permissions::BAN_MEMBERS);
    let kick = Permissions::from_bits_truncate(Permissions::KICK_MEMBERS);
    assert!(mods.contains(kick));
    assert!(!kick.contains(mods));
    assert_eq!(kick.union(mods), mods);
}

#[test]
fn an_overwrite_takes_away_before_it_adds() {
    let base = Permissions::from_bits_truncate(
        Permissions::VIEW_CHANNEL | Permissions::SEND_MESSAGES | Permissions::ADD_REACTIONS,
    );
    let overwrite = Overwrite {
        id: Snowflake::new(1),
        type_: OverwriteType::Role,
        allow: Permissions::from_bits_truncate(Permissions::ATTACH_FILES | Permissions::SEND_MESSAGES),
        deny: Permissions::from_bits_truncate(Permissions::SEND_MESSAGES | Permissions::ADD_REACTIONS),
    };
    let result = base.overwritten(overwrite.allow, overwrite.deny);
    assert_eq!(
        result.bits(),
        Permissions::VIEW_CHANNEL | Permissions::SEND_MESSAGES | Permissions::ATTACH_FILES
    );
}

#[test]
fn other_flag_sets_know_their_bits() {
    assert_eq!(ChannelType::ALL, 0x1fc3f);
    assert_eq!(ChannelType::from_bits_truncate(1 << 6).bits(), 0);
    assert_eq!(ChannelFlags::ALL, (1 << 1) | (1 << 4) | (1 << 15));
    assert_eq!(MessageFlags::ALL, 0x71ff);
    assert_eq!(RoleFlags::ALL, 1);
    assert_eq!(RoleFlags::from_bits_truncate(255).bits(), 1);
    assert_eq!(UserFlags::from_bits(1 << 4), None);
    assert_eq!(UserFlags::from_bits_truncate(UserFlags::VERIFIED_BOT | (1 << 4)).bits(), 1 << 16);
    assert_eq!(UserFlags::all().bits(), 0x4f47cf);
}

#[test]
fn intents_are_a_bitmask() {
    assert_eq!(Intents::GUILDS, 1);
    assert_eq!(Intents::GUILD_MESSAGES, 1 << 9);
    assert_eq!(Intents::MESSAGE_CONTENT, 1 << 15);
    assert_eq!(Intents::empty().bits(), 0);
    assert!(Intents::empty().is_empty());
    let a = Intents::from_bits_retain(Intents::GUILDS | Intents::DIRECT_MESSAGES);
    let b = Intents::from_bits_retain(Intents::GUILD_MESSAGES | Intents::DIRECT_MESSAGES);
    assert_eq!(a.union(b).bits(), 1 | (1 << 9) | (1 << 12));
    assert_eq!(a.intersection(b).bits(), 1 << 12);
    assert_eq!(a.difference(b).bits(), 1);
    assert!(a.union(b).contains(a));
    assert!(!a.contains(b));
    assert!(a.intersects(b));
    assert!(!a.intersects(Intents::from_bits_retain(Intents::GUILD_MEMBERS)));
    assert_eq!(Intents::from_bits_retain(1 << 63).bits(), 1 << 63);
    assert_eq!(Intents::from_bits_truncate(u64::MAX).bits(), Intents::ALL);
    assert_eq!(Intents::ALL, 0x31ffff);
}

#[test]
fn colours() {
    assert_eq!(HexCode::new(0xff00aa), Some(HexCode { value: 0xff00aa }));
    assert_eq!(HexCode::new(0x1000000), None);
    assert_eq!(HexCode::from_rgb(255, 0, 170).value, 0xff00aa);
    assert_eq!(HexCode::from_rgb(0, 0, 0).value, 0);
    assert_eq!(HexCode::from_rgb(255, 255, 255).value, HexCode::MAX);
}

#[test]
fn a_channel_becomes_a_text_channel() {
    let mut c = channel(5);
    assert!(c.clone().into_text_channel().is_none());
    c.guild_id = Some(Snowflake::new(9));
    c.position = Some(3);
    c.permission_overwrites = Some(vec![]);
    c.name = Some("general".to_string());
    assert!(c.clone().into_text_channel().is_none());
    assert!(c.clone().into_voice_channel().is_some());
    c.nsfw = Some(false);
    c.topic = Some("talk".to_string());
    c.rate_limit_per_user = Some(5);
    let text = c.clone().into_text_channel().unwrap();
    assert_eq!(text.id, Snowflake::new(5));
    assert_eq!(text.guild_id, Snowflake::new(9));
    assert_eq!(text.position, 3);
    assert_eq!(text.name, "general");
    assert_eq!(text.topic, Some("talk".to_string()));
    assert!(!text.nsfw);
    assert_eq!(text.rate_limit_per_user, Some(5));
    assert!(text.permission_overwrites.is_empty());
}

#[test]
fn a_channel_becomes_a_voice_channel() {
    let mut c = channel(6);
    c.guild_id = Some(Snowflake::new(9));
    c.position = Some(1);
    c.name = Some("voice".to_string());
    assert!(c.clone().into_voice_channel().is_none());
    c.permission_overwrites = Some(vec![Overwrite {
        id: Snowflake::new(1),
        type_: OverwriteType::Member,
        allow: Permissions::empty(),
        deny: Permissions::all(),
    }]);
    c.bitrate = Some(64000);
    c.video_quality_mode = Some(VideoQualityMode::Full);
    let voice = c.into_voice_channel().unwrap();
    assert_eq!(voice.id, Snowflake::new(6));
    assert_eq!(voice.bitrate, Some(64000));
    assert_eq!(voice.user_limit, None);
    assert_eq!(voice.video_quality_mode, Some(VideoQualityMode::Full));
    assert_eq!(voice.permission_overwrites.len(), 1);
}
