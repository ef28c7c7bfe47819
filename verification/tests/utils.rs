use omu::dataclasses::{AllowedMention, AllowedMentionType, Nounce, Snowflake};
use omu::http::client::{
    authorization, channel_url, create_message_url, default_base, is_rate_limited, user_agent,
};
use omu::http::http_messages::{CreateMessage, PrepareCreateMessageBuilder};
use omu::macros::{event_name, metadata_fn_name, slash_argument, slash_name, HandlerError};
use omu::utils::AllowedMentionsBuilder;

#[test]
fn an_empty_builder_allows_nothing() {
    let m = AllowedMentionsBuilder::empty().build();
    assert_eq!(m, AllowedMention { parse: vec![], roles: None, users: None });
}

#[test]
fn builders_for_roles_and_users() {
    let roles = vec![Snowflake::new(1), Snowflake::new(2)];
    assert_eq!(
        AllowedMentionsBuilder::roles(roles.clone()).build(),
        AllowedMention { parse: vec![AllowedMentionType::Roles], roles: Some(roles.clone()), users: None }
    );
    assert_eq!(
        AllowedMentionsBuilder::users(roles.clone()).build(),
        AllowedMention { parse: vec![AllowedMentionType::Users], roles: None, users: Some(roles.clone()) }
    );
    let both = AllowedMentionsBuilder::empty()
        .with_users(vec![Snowflake::new(3)])
        .with_roles(roles.clone())
        .build();
    assert_eq!(
        both,
        AllowedMention { parse: vec![], roles: Some(roles), users: Some(vec![Snowflake::new(3)]) }
    );
}

#[test]
fn enabling_adds_once_and_keeps_the_order() {
    let mut b = AllowedMentionsBuilder::empty();
    b.enable_users();
    b.enable_everyone();
    b.enable_users();
    b.enable_roles();
    b.enable_everyone();
    assert_eq!(
        b.build().parse,
        vec![AllowedMentionType::Users, AllowedMentionType::Everyone, AllowedMentionType::Roles]
    );
}

#[test]
fn disabling_removes_every_occurrence() {
    let given = AllowedMention {
        parse: vec![
            AllowedMentionType::Roles,
            AllowedMentionType::Users,
            AllowedMentionType::Roles,
            AllowedMentionType::Everyone,
            AllowedMentionType::Roles,
        ],
        roles: Some(vec![Snowflake::new(1)]),
        users: None,
    };
    let mut b = AllowedMentionsBuilder::from(given);
    b.disable_roles();
    let m = b.build();
    assert_eq!(m.parse, vec![AllowedMentionType::Users, AllowedMentionType::Everyone]);
    assert_eq!(m.roles, Some(vec![Snowflake::new(1)]));
    let mut b = AllowedMentionsBuilder::from(m);
    b.disable_roles();
    b.disable_everyone();
    b.disable_users();
    b.disable_users();
    assert_eq!(b.build().parse, vec![]);
}

#[test]
fn enable_and_disable_by_kind() {
    let mut b = AllowedMentionsBuilder::roles(vec![]);
    b.enable(AllowedMentionType::Roles);
    b.enable(AllowedMentionType::Users);
    b.disable(AllowedMentionType::Roles);
    assert_eq!(b.build().parse, vec![AllowedMentionType::Users]);
}

#[test]
fn a_message_is_built_field_by_field() {
    let channel = Snowflake::new(80351110224678912);
    let b = PrepareCreateMessageBuilder::new(channel);
    assert_eq!(b.channel_id(), channel);
    assert_eq!(b.path(), "/channels/80351110224678912/messages");
    let (id, empty) = b.build();
    assert_eq!(id, channel);
    assert_eq!(
        empty,
        CreateMessage {
            content: None,
            nounce: None,
            tts: None,
            embeds: None,
            allowed_mentions: None,
            message_reference: None,
        }
    );
    assert!(!empty.has_body());
    let (_, message) = PrepareCreateMessageBuilder::new(channel)
        .content("hello".to_string())
        .tts(true)
        .nounce(Nounce::Integer(7))
        .allowed_mentions(AllowedMentionsBuilder::empty().build())
        .embeds(vec![])
        .build();
    assert_eq!(message.content, Some("hello".to_string()));
    assert_eq!(message.tts, Some(true));
    assert_eq!(message.nounce, Some(Nounce::Integer(7)));
    assert_eq!(message.embeds, Some(vec![]));
    assert_eq!(message.message_reference, None);
    assert!(message.has_body());
    let (_, blank) = PrepareCreateMessageBuilder::new(channel).content(String::new()).build();
    assert!(!blank.has_body());
}

#[test]
fn metadata_functions_are_named_after_the_handler() {
    assert_eq!(metadata_fn_name("ping"), "__omu_ping_metadata");
    assert_eq!(metadata_fn_name(""), "__omu__metadata");
}

#[test]
fn slash_commands_are_named_by_argument_or_by_function() {
    assert_eq!(slash_argument(&vec![]), Ok(None));
    assert_eq!(
        slash_argument(&vec![("name".to_string(), "pong".to_string())]),
        Ok(Some("pong".to_string()))
    );
    assert_eq!(
        slash_argument(&vec![
            ("name".to_string(), "a".to_string()),
            ("name".to_string(), "b".to_string())
        ]),
        Ok(Some("b".to_string()))
    );
    assert_eq!(
        slash_argument(&vec![
            ("name".to_string(), "a".to_string()),
            ("description".to_string(), "b".to_string()),
            ("name".to_string(), "c".to_string())
        ]),
        Err(HandlerError::UnsupportedProperty)
    );
    assert_eq!(slash_name(Some("pong".to_string()), "ping", true), Ok("pong".to_string()));
    assert_eq!(slash_name(None, "ping", true), Ok("ping".to_string()));
    assert_eq!(slash_name(None, "ping", false), Err(HandlerError::HandlerMustBeAsync));
    assert_eq!(slash_name(Some("x".to_string()), "ping", false), Err(HandlerError::HandlerMustBeAsync));
}

#[test]
fn event_handlers_name_one_supported_event() {
    assert_eq!(event_name(&vec!["ready".to_string()], true), Ok("ready".to_string()));
    assert_eq!(event_name(&vec![], true), Err(HandlerError::EventNameNotSet));
    assert_eq!(event_name(&vec![], false), Err(HandlerError::EventNameNotSet));
    assert_eq!(
        event_name(&vec!["message".to_string()], true),
        Err(HandlerError::UnsupportedEventName("message".to_string()))
    );
    assert_eq!(
        event_name(&vec!["message".to_string(), "ready".to_string()], true),
        Err(HandlerError::UnsupportedEventName("message".to_string()))
    );
    assert_eq!(
        event_name(&vec!["ready".to_string(), "ready".to_string()], true),
        Err(HandlerError::EventNameAlreadySet("ready".to_string()))
    );
    assert_eq!(event_name(&vec!["ready".to_string()], false), Err(HandlerError::HandlerMustBeAsync));
}

#[test]
fn builder_calls_can_be_chained() {
    let mut b = AllowedMentionsBuilder::empty();
    b.enable_roles().enable_users().disable_roles().enable_everyone();
    assert_eq!(b.build().parse, vec![AllowedMentionType::Users, AllowedMentionType::Everyone]);
}

#[test]
fn requests_go_to_the_api() {
    assert_eq!(default_base(), "https://discord.com/api/v10");
    assert!(user_agent().starts_with("DiscordBot ("));
    assert_eq!(authorization("abc.def"), "Bot abc.def");
    assert_eq!(authorization(""), "Bot ");
    assert_eq!(
        create_message_url(default_base(), "80351110224678912"),
        "https://discord.com/api/v10/channels/80351110224678912/messages"
    );
    assert_eq!(
        channel_url("http://localhost", &Snowflake::new(42)),
        "http://localhost/channels/42"
    );
    assert!(is_rate_limited(429));
    assert!(!is_rate_limited(200));
    assert!(!is_rate_limited(428));
}
