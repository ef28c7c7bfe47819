use ijson::IValue;
use omu::gateway::event::RawGatewayEvent;
use omu::gateway::event_data::{
    DispatchData, GatewayEvent, HelloData, MessageCreateData, ReadyData,
};
use omu::GatewayError;

fn json(text: &str) -> IValue {
    serde_json::from_str::<IValue>(text).unwrap()
}

fn dispatch(name: &str, sequence: u64, data: &str) -> RawGatewayEvent {
    RawGatewayEvent {
        op_code: 0,
        data: Some(json(data)),
        sequence: Some(sequence),
        t: Some(name.to_string()),
    }
}

#[test]
fn hello_gives_the_heartbeat_interval() {
    let e = RawGatewayEvent::decode(r#"{"op":10,"d":{"heartbeat_interval":41250}}"#).unwrap();
    assert_eq!(
        e.get_event_data(),
        Ok(GatewayEvent::Hello(HelloData { heartbeat_interval: 41250 }))
    );
}

#[test]
fn hello_without_a_usable_interval_is_malformed() {
    for data in [r#"{}"#, r#"{"heartbeat_interval":"41250"}"#, r#"{"heartbeat_interval":-5}"#,
        r#"{"heartbeat_interval":1.5}"#, r#"{"heartbeat_interval":null}"#, r#"[41250]"#, "41250"]
    {
        let e = RawGatewayEvent { op_code: 10, data: Some(json(data)), sequence: None, t: None };
        assert_eq!(e.get_event_data(), Err(GatewayError::MalformedPayload), "{}", data);
    }
    let e = RawGatewayEvent { op_code: 10, data: None, sequence: None, t: None };
    assert_eq!(e.get_event_data(), Err(GatewayError::MissingPayload));
}

#[test]
fn heartbeat_request_and_acknowledgement_need_no_payload() {
    let e = RawGatewayEvent { op_code: 1, data: None, sequence: None, t: None };
    assert_eq!(e.get_event_data(), Ok(GatewayEvent::Heartbeat));
    let e = RawGatewayEvent { op_code: 1, data: Some(json("3")), sequence: None, t: None };
    assert_eq!(e.get_event_data(), Ok(GatewayEvent::Heartbeat));
    let e = RawGatewayEvent { op_code: 11, data: None, sequence: None, t: None };
    assert_eq!(e.get_event_data(), Ok(GatewayEvent::HeartbeatAcknowledgement));
}

#[test]
fn unknown_op_code_is_reported_with_its_payload() {
    let e = RawGatewayEvent { op_code: 99, data: Some(json(r#"{"x":1}"#)), sequence: None, t: None };
    assert_eq!(
        e.get_event_data(),
        Err(GatewayError::UnknownOpCode { op: 99, raw_payload: Some(json(r#"{"x":1}"#)) })
    );
    let e = RawGatewayEvent { op_code: 7, data: None, sequence: None, t: None };
    assert_eq!(e.get_event_data(), Err(GatewayError::UnknownOpCode { op: 7, raw_payload: None }));
    let e = RawGatewayEvent { op_code: 2, data: None, sequence: None, t: None };
    assert_eq!(e.get_event_data(), Err(GatewayError::UnknownOpCode { op: 2, raw_payload: None }));
}

#[test]
fn ready_is_read_from_its_payload() {
    let payload = r#"{"v":10,"session_id":"abc","resume_gateway_url":"wss://resume",
        "shard":[3,8],"user":{"id":"1"},"guilds":[],"application":{"id":"2"}}"#;
    let e = dispatch("READY", 1, payload);
    assert_eq!(
        e.get_event_data(),
        Ok(GatewayEvent::Ready(ReadyData {
            version: 10,
            session_id: "abc".to_string(),
            resume_gateway_url: "wss://resume".to_string(),
            shard: Some((3, 8)),
            payload: json(payload),
        }))
    );
}

#[test]
fn ready_without_shard_has_none() {
    let payload = r#"{"v":255,"session_id":"","resume_gateway_url":"u"}"#;
    match dispatch("READY", 1, payload).get_event_data() {
        Ok(GatewayEvent::Ready(ready)) => {
            assert_eq!(ready.version, 255);
            assert_eq!(ready.session_id, "");
            assert_eq!(ready.shard, None);
        }
        other => panic!("{:?}", other),
    }
}

#[test]
fn ready_with_a_wrong_shape_is_malformed() {
    for payload in [
        r#"{"session_id":"a","resume_gateway_url":"u"}"#,
        r#"{"v":256,"session_id":"a","resume_gateway_url":"u"}"#,
        r#"{"v":10,"resume_gateway_url":"u"}"#,
        r#"{"v":10,"session_id":"a"}"#,
        r#"{"v":10,"session_id":7,"resume_gateway_url":"u"}"#,
        r#"{"v":10,"session_id":"a","resume_gateway_url":"u","shard":[1,2,3]}"#,
        r#"{"v":10,"session_id":"a","resume_gateway_url":"u","shard":"0/1"}"#,
        r#"["READY"]"#,
    ] {
        assert_eq!(
            dispatch("READY", 1, payload).get_event_data(),
            Err(GatewayError::MalformedPayload),
            "{}",
            payload
        );
    }
}

#[test]
fn message_create_names_its_guild() {
    let payload = r#"{"guild_id":"613425648685547541","content":"hello"}"#;
    assert_eq!(
        dispatch("MESSAGE_CREATE", 2, payload).get_event_data(),
        Ok(GatewayEvent::MessageCreate(MessageCreateData {
            guild_id: Some("613425648685547541".to_string()),
            payload: json(payload),
        }))
    );
    let payload = r#"{"content":"direct"}"#;
    assert_eq!(
        dispatch("MESSAGE_CREATE", 3, payload).get_event_data(),
        Ok(GatewayEvent::MessageCreate(MessageCreateData { guild_id: None, payload: json(payload) }))
    );
    let payload = r#"{"guild_id":null}"#;
    assert_eq!(
        dispatch("MESSAGE_CREATE", 3, payload).get_event_data(),
        Ok(GatewayEvent::MessageCreate(MessageCreateData { guild_id: None, payload: json(payload) }))
    );
}

#[test]
fn message_create_with_a_wrong_shape_is_malformed() {
    for payload in [r#"{"guild_id":5}"#, r#"[]"#, r#""text""#, "1"] {
        assert_eq!(
            dispatch("MESSAGE_CREATE", 2, payload).get_event_data(),
            Err(GatewayError::MalformedPayload),
            "{}",
            payload
        );
    }
}

#[test]
fn unknown_dispatch_names_are_passed_on() {
    let payload = r#"{"guild_id":"9","anything":[1,2]}"#;
    assert_eq!(
        dispatch("GUILD_CREATE", 4, payload).get_event_data(),
        Ok(GatewayEvent::Dispatch(DispatchData {
            name: "GUILD_CREATE".to_string(),
            guild_id: Some("9".to_string()),
            payload: json(payload),
        }))
    );
    for payload in [r#"{"guild_id":5}"#, "[]", "17", r#"{}"#] {
        assert_eq!(
            dispatch("SOMETHING_NEW", 4, payload).get_event_data(),
            Ok(GatewayEvent::Dispatch(DispatchData {
                name: "SOMETHING_NEW".to_string(),
                guild_id: None,
                payload: json(payload),
            }))
        );
    }
}

#[test]
fn dispatch_names_are_case_sensitive() {
    match dispatch("ready", 1, "{}").get_event_data() {
        Ok(GatewayEvent::Dispatch(d)) => assert_eq!(d.name, "ready"),
        other => panic!("{:?}", other),
    }
}

#[test]
fn dispatch_needs_a_name_and_a_payload() {
    let e = RawGatewayEvent { op_code: 0, data: Some(json("{}")), sequence: Some(1), t: None };
    assert_eq!(e.get_event_data(), Err(GatewayError::MissingEventName));
    let e = RawGatewayEvent { op_code: 0, data: None, sequence: Some(1), t: None };
    assert_eq!(e.get_event_data(), Err(GatewayError::MissingEventName));
    let e = RawGatewayEvent { op_code: 0, data: None, sequence: Some(1), t: Some("READY".to_string()) };
    assert_eq!(e.get_event_data(), Err(GatewayError::MissingPayload));
}

#[test]
fn decode_errors_are_recoverable_and_session_errors_are_not() {
    assert!(GatewayError::UnknownOpCode { op: 99, raw_payload: None }.is_recoverable());
    assert!(GatewayError::MalformedEnvelope.is_recoverable());
    assert!(GatewayError::MalformedPayload.is_recoverable());
    assert!(GatewayError::MissingEventName.is_recoverable());
    assert!(GatewayError::MissingPayload.is_recoverable());
    assert!(GatewayError::UnsupportedFrame.is_recoverable());
    assert!(GatewayError::NoData.is_recoverable());
    assert!(!GatewayError::LivenessTimeout.is_recoverable());
    assert!(!GatewayError::UnexpectedHandshakeEvent { op: 0 }.is_recoverable());
    assert!(!GatewayError::AlreadyDisconnected.is_recoverable());
    assert!(!GatewayError::InvalidShardCount.is_recoverable());
    assert!(!GatewayError::InvalidPhase.is_recoverable());
    assert!(!GatewayError::Unencodable.is_recoverable());
    assert!(!GatewayError::InvalidIdentify.is_recoverable());
}
