use ijson::IValue;
use omu::gateway::event::{Frame, Identify, IdentifyConnectionProperty, RawGatewayEvent};
use omu::GatewayError;

fn value(text: &str) -> IValue {
    serde_json::from_str::<IValue>(text).unwrap()
}

fn properties() -> IdentifyConnectionProperty {
    IdentifyConnectionProperty {
        os: "linux".to_string(),
        browser: "rust".to_string(),
        device: "rust".to_string(),
    }
}

#[test]
fn decode_reads_a_dispatch_envelope() {
    let e = RawGatewayEvent::decode(r#"{"op":0,"t":"READY","s":1,"d":{"v":10}}"#).unwrap();
    assert_eq!(e.op_code, 0);
    assert_eq!(e.sequence, Some(1));
    assert_eq!(e.t, Some("READY".to_string()));
    assert_eq!(e.data, Some(value(r#"{"v":10}"#)));
    assert!(e.is_well_formed());
}

#[test]
fn decode_reads_null_and_absent_members_as_none() {
    let e = RawGatewayEvent::decode(r#"{"op":11,"d":null,"s":null,"t":null}"#).unwrap();
    assert_eq!(e, RawGatewayEvent { op_code: 11, data: None, sequence: None, t: None });
    let e = RawGatewayEvent::decode(r#"{"op":11}"#).unwrap();
    assert_eq!(e, RawGatewayEvent { op_code: 11, data: None, sequence: None, t: None });
}

#[test]
fn decode_keeps_sequence_and_name_on_dispatch_only() {
    let e = RawGatewayEvent::decode(r#"{"op":1,"d":7,"s":5,"t":"X"}"#).unwrap();
    assert_eq!(e.op_code, 1);
    assert_eq!(e.sequence, None);
    assert_eq!(e.t, None);
    assert_eq!(e.data, Some(IValue::from(7u64)));
    assert!(e.is_well_formed());
}

#[test]
fn decode_rejects_what_is_no_envelope() {
    let bad = [
        "",
        "not json",
        "[1,2]",
        "7",
        "null",
        r#"{"d":{}}"#,
        r#"{"op":null}"#,
        r#"{"op":"0"}"#,
        r#"{"op":-1}"#,
        r#"{"op":1.5}"#,
        r#"{"op":4294967296}"#,
        r#"{"op":0,"s":"1"}"#,
        r#"{"op":0,"s":-1}"#,
        r#"{"op":0,"t":5}"#,
        r#"{"op":0,"t":["READY"]}"#,
        r#"{"op":0"#,
    ];
    for text in bad {
        assert_eq!(RawGatewayEvent::decode(text), Err(GatewayError::MalformedEnvelope), "{}", text);
    }
}

#[test]
fn decode_accepts_the_largest_op_code() {
    let e = RawGatewayEvent::decode(r#"{"op":4294967295}"#).unwrap();
    assert_eq!(e.op_code, u32::MAX);
}

#[test]
fn from_value_reads_a_parsed_object() {
    let v = value(r#"{"op":10,"d":{"heartbeat_interval":41250}}"#);
    let e = RawGatewayEvent::from_value(&v).unwrap();
    assert_eq!(e.op_code, 10);
    assert_eq!(e.data, Some(value(r#"{"heartbeat_interval":41250}"#)));
    assert_eq!(RawGatewayEvent::from_value(&value("[]")), Err(GatewayError::MalformedEnvelope));
    assert_eq!(RawGatewayEvent::from_value(&value(r#""op""#)), Err(GatewayError::MalformedEnvelope));
}

#[test]
fn heartbeat_encodes_as_the_protocol_says() {
    assert_eq!(
        RawGatewayEvent::new_heartbeat(None).encode(),
        Ok(r#"{"op":1,"d":null}"#.to_string())
    );
    assert_eq!(
        RawGatewayEvent::new_heartbeat(Some(42)).encode(),
        Ok(r#"{"op":1,"d":42}"#.to_string())
    );
    assert_eq!(
        RawGatewayEvent::new_heartbeat(Some(u64::MAX)).encode(),
        Ok(r#"{"op":1,"d":18446744073709551615}"#.to_string())
    );
}

#[test]
fn heartbeat_envelope_has_op_one() {
    let e = RawGatewayEvent::new_heartbeat(Some(3));
    assert_eq!(e.op_code, 1);
    assert_eq!(e.data, Some(IValue::from(3u64)));
    assert_eq!(e.sequence, None);
    assert_eq!(e.t, None);
    let e = RawGatewayEvent::new_heartbeat(None);
    assert_eq!(e.data, None);
}

#[test]
fn to_value_lists_present_members_only() {
    let e = RawGatewayEvent {
        op_code: 0,
        data: Some(value(r#"{"a":1}"#)),
        sequence: Some(9),
        t: Some("X".to_string()),
    };
    assert_eq!(e.to_value(), value(r#"{"op":0,"d":{"a":1},"s":9,"t":"X"}"#));
    assert_eq!(e.encode(), Ok(r#"{"op":0,"d":{"a":1},"s":9,"t":"X"}"#.to_string()));
    let e = RawGatewayEvent { op_code: 11, data: None, sequence: None, t: None };
    assert_eq!(e.to_value(), value(r#"{"op":11,"d":null}"#));
}

#[test]
fn envelopes_survive_encoding_and_decoding() {
    let envelopes = vec![
        RawGatewayEvent::new_heartbeat(None),
        RawGatewayEvent::new_heartbeat(Some(77)),
        RawGatewayEvent { op_code: 11, data: None, sequence: None, t: None },
        RawGatewayEvent {
            op_code: 0,
            data: Some(value(r#"{"content":"hi \"there\" é","n":[1,2,3]}"#)),
            sequence: Some(12),
            t: Some("MESSAGE_CREATE".to_string()),
        },
        RawGatewayEvent { op_code: 0, data: Some(value("[]")), sequence: None, t: None },
        RawGatewayEvent { op_code: 99, data: Some(value("true")), sequence: None, t: None },
    ];
    for e in envelopes {
        assert!(e.is_well_formed());
        let text = e.encode().unwrap();
        assert_eq!(RawGatewayEvent::decode(&text), Ok(e));
    }
}

#[test]
fn is_well_formed_wants_sequence_and_name_on_dispatch_only() {
    let e = RawGatewayEvent { op_code: 1, data: None, sequence: Some(1), t: None };
    assert!(!e.is_well_formed());
    let e = RawGatewayEvent { op_code: 1, data: None, sequence: None, t: Some("X".to_string()) };
    assert!(!e.is_well_formed());
    let e = RawGatewayEvent { op_code: 0, data: None, sequence: Some(1), t: Some("X".to_string()) };
    assert!(e.is_well_formed());
    let e = RawGatewayEvent { op_code: 2, data: Some(IValue::NULL), sequence: None, t: None };
    assert!(!e.is_well_formed());
}

#[test]
fn identify_carries_every_field() {
    let e = RawGatewayEvent::new_identify(
        "secret",
        properties(),
        Some(false),
        Some(50),
        Some((1, 2)),
        None,
        Some(513),
    );
    assert_eq!(e.op_code, 2);
    assert_eq!(e.sequence, None);
    assert_eq!(e.t, None);
    let expected = value(
        r#"{"token":"secret","properties":{"os":"linux","browser":"rust","device":"rust"},
            "compress":false,"large_threshold":50,"presence":null,"intents":513,"shard":[1,2]}"#,
    );
    assert_eq!(e.data, Some(expected));
}

#[test]
fn identify_without_options_has_nulls_and_no_shard() {
    let e = RawGatewayEvent::new_identify("t", properties(), None, None, None, None, None);
    let expected = value(
        r#"{"token":"t","properties":{"os":"linux","browser":"rust","device":"rust"},
            "compress":null,"large_threshold":null,"presence":null,"intents":0}"#,
    );
    assert_eq!(e.data, Some(expected));
    let data = e.data.unwrap();
    assert!(data.get("shard").is_none());
}

#[test]
fn identify_passes_presence_on() {
    let presence = value(r#"{"status":"online","afk":false}"#);
    let e = RawGatewayEvent::new_identify(
        "t",
        properties(),
        Some(true),
        Some(250),
        None,
        Some(presence.clone()),
        Some(1),
    );
    let data = e.data.unwrap();
    assert_eq!(data.get("presence"), Some(&presence));
    assert_eq!(data.get("compress"), Some(&IValue::from(true)));
    assert_eq!(data.get("large_threshold"), Some(&IValue::from(250u64)));
}

#[test]
fn identify_round_trip_reproduces_token_intents_and_shard() {
    let cases: Vec<(&str, Option<u64>, Option<(u64, u64)>)> = vec![
        ("secret", Some(513), Some((1, 2))),
        ("", None, None),
        ("tök\"en\\ with \n escapes", Some(u64::MAX), Some((0, 1))),
        ("x", Some(0), Some((u64::MAX - 1, u64::MAX))),
    ];
    for (token, intents, shard) in cases {
        let sent = RawGatewayEvent::new_identify(
            token,
            properties(),
            Some(false),
            Some(50),
            shard,
            None,
            intents,
        );
        let text = sent.encode().unwrap();
        let received = RawGatewayEvent::decode(&text).unwrap();
        assert_eq!(received, sent);
        let summary = received.identify_summary().unwrap();
        assert_eq!(summary.token, token);
        assert_eq!(summary.intents, intents.unwrap_or(0));
        assert_eq!(summary.shard, shard);
    }
}

#[test]
fn identify_summary_is_for_identify_envelopes_only() {
    assert_eq!(RawGatewayEvent::new_heartbeat(Some(1)).identify_summary(), None);
    let no_token = RawGatewayEvent {
        op_code: 2,
        data: Some(value(r#"{"intents":1}"#)),
        sequence: None,
        t: None,
    };
    assert_eq!(no_token.identify_summary(), None);
    let bad_shard = RawGatewayEvent {
        op_code: 2,
        data: Some(value(r#"{"token":"t","intents":1,"shard":[1]}"#)),
        sequence: None,
        t: None,
    };
    assert_eq!(bad_shard.identify_summary(), None);
    let bad_shard = RawGatewayEvent {
        op_code: 2,
        data: Some(value(r#"{"token":"t","intents":1,"shard":[1,"2"]}"#)),
        sequence: None,
        t: None,
    };
    assert_eq!(bad_shard.identify_summary(), None);
    let no_payload = RawGatewayEvent { op_code: 2, data: None, sequence: None, t: None };
    assert_eq!(no_payload.identify_summary(), None);
    let not_an_object =
        RawGatewayEvent { op_code: 2, data: Some(value("[1]")), sequence: None, t: None };
    assert_eq!(not_an_object.identify_summary(), None);
}

#[test]
fn identify_configuration_is_validated() {
    let config = Identify {
        token: "t".to_string(),
        properties: properties(),
        compress: None,
        large_threshold: Some(50),
        shard: Some((0, 1)),
        presence: None,
        intents: Some(1),
    };
    assert_eq!(config.validate(), Ok(()));
    let envelope = config.clone().into_envelope().unwrap();
    assert_eq!(envelope.identify_summary().unwrap().shard, Some((0, 1)));

    let mut low = config.clone();
    low.large_threshold = Some(49);
    assert_eq!(low.validate(), Err(GatewayError::InvalidIdentify));
    assert_eq!(low.into_envelope(), Err(GatewayError::InvalidIdentify));
    let mut high = config.clone();
    high.large_threshold = Some(251);
    assert_eq!(high.validate(), Err(GatewayError::InvalidIdentify));
    let mut edge = config.clone();
    edge.large_threshold = Some(250);
    assert_eq!(edge.validate(), Ok(()));
    let mut shard = config.clone();
    shard.shard = Some((2, 2));
    assert_eq!(shard.validate(), Err(GatewayError::InvalidIdentify));
    let mut open = config;
    open.large_threshold = None;
    open.shard = None;
    assert_eq!(open.validate(), Ok(()));
}

#[test]
fn frames_carry_envelopes_as_text() {
    let e = RawGatewayEvent::new_heartbeat(Some(5));
    assert_eq!(e.to_frame(), Ok(Frame::Text(r#"{"op":1,"d":5}"#.to_string())));
    assert_eq!(RawGatewayEvent::from_frame(&Frame::Text(r#"{"op":1,"d":5}"#.to_string())), Ok(e.clone()));
    assert_eq!(RawGatewayEvent::from_frame(&Frame::Raw(r#"{"op":1,"d":5}"#.to_string())), Ok(e));
}

#[test]
fn frames_of_other_kinds_are_unsupported() {
    let frames = vec![
        Frame::Binary(vec![1, 2, 3]),
        Frame::Ping(vec![]),
        Frame::Pong(vec![9]),
        Frame::Close(None),
        Frame::Close(Some((1000, "bye".to_string()))),
    ];
    for frame in frames {
        assert_eq!(RawGatewayEvent::from_frame(&frame), Err(GatewayError::UnsupportedFrame));
    }
    assert_eq!(
        RawGatewayEvent::from_frame(&Frame::Text("nope".to_string())),
        Err(GatewayError::MalformedEnvelope)
    );
}
