use ijson::IValue;
use omu::gateway::event::RawGatewayEvent;
use omu::gateway::event_data::GatewayEvent;
use omu::gateway::session::{
    first_heartbeat_delay, Gateway, Jitter, Reaction, Status, Tick,
};
use omu::{GatewayError, Intents};

fn json(text: &str) -> IValue {
    serde_json::from_str::<IValue>(text).unwrap()
}

fn hello(interval: u64) -> RawGatewayEvent {
    RawGatewayEvent::decode(&format!(r#"{{"op":10,"d":{{"heartbeat_interval":{}}}}}"#, interval))
        .unwrap()
}

fn dispatch(name: &str, sequence: u64) -> RawGatewayEvent {
    RawGatewayEvent {
        op_code: 0,
        data: Some(json(r#"{"k":"v"}"#)),
        sequence: Some(sequence),
        t: Some(name.to_string()),
    }
}

fn ack() -> RawGatewayEvent {
    RawGatewayEvent { op_code: 11, data: None, sequence: None, t: None }
}

fn live() -> Gateway {
    let mut g = Gateway::new();
    assert_eq!(g.open(), Ok(()));
    assert_eq!(g.receive(&hello(41250)), Reaction::Identify);
    assert_eq!(g.identified(), Ok(()));
    assert_eq!(g.run(), Ok(41250));
    g
}

#[test]
fn a_new_session_is_disconnected() {
    let g = Gateway::new();
    assert_eq!(g.status(), Status::Disconnected);
    assert_eq!(g.heartbeat_interval(), None);
    assert_eq!(g.last_sequence_number(), None);
    assert_eq!(g.sharding(), None);
    assert!(!g.pending_heartbeat_ack());
}

#[test]
fn hello_first_leads_to_authenticated() {
    let mut g = Gateway::new();
    assert_eq!(g.open(), Ok(()));
    assert_eq!(g.status(), Status::Handshaking);
    assert_eq!(g.receive(&hello(41250)), Reaction::Identify);
    assert_eq!(g.status(), Status::Handshaking);
    assert_eq!(g.heartbeat_interval(), Some(41250));
    assert_eq!(g.identified(), Ok(()));
    assert_eq!(g.status(), Status::Authenticated);
    assert_eq!(g.run(), Ok(41250));
    assert_eq!(g.status(), Status::Live);
}

#[test]
fn anything_but_hello_first_is_a_protocol_violation() {
    for envelope in [dispatch("READY", 1), ack(), RawGatewayEvent::new_heartbeat(None),
        RawGatewayEvent { op_code: 99, data: None, sequence: None, t: None }]
    {
        let mut g = Gateway::new();
        g.open().unwrap();
        let op = envelope.op_code;
        assert_eq!(
            g.receive(&envelope),
            Reaction::Fatal(GatewayError::UnexpectedHandshakeEvent { op })
        );
        assert_eq!(g.status(), Status::Closed);
        assert_eq!(g.identified(), Err(GatewayError::InvalidPhase));
        assert_eq!(g.run(), Err(GatewayError::InvalidPhase));
        assert_eq!(g.open(), Err(GatewayError::InvalidPhase));
        assert_eq!(g.receive(&hello(1000)), Reaction::Fatal(GatewayError::AlreadyDisconnected));
        assert_eq!(g.heartbeat_tick(), Tick::Idle);
        assert_eq!(g.status(), Status::Closed);
    }
}

#[test]
fn an_unreadable_hello_is_dropped_during_the_handshake() {
    let mut g = Gateway::new();
    g.open().unwrap();
    let broken = RawGatewayEvent { op_code: 10, data: Some(json("{}")), sequence: None, t: None };
    assert_eq!(g.receive(&broken), Reaction::Dropped(GatewayError::MalformedPayload));
    assert_eq!(g.status(), Status::Handshaking);
    assert_eq!(g.identified(), Err(GatewayError::InvalidPhase));
    assert_eq!(g.receive(&hello(5)), Reaction::Identify);
    assert_eq!(g.identified(), Ok(()));
}

#[test]
fn transitions_out_of_order_are_refused() {
    let mut g = Gateway::new();
    assert_eq!(g.identified(), Err(GatewayError::InvalidPhase));
    assert_eq!(g.run(), Err(GatewayError::InvalidPhase));
    assert_eq!(g.receive(&hello(1)), Reaction::Fatal(GatewayError::AlreadyDisconnected));
    assert_eq!(g.status(), Status::Disconnected);
    g.open().unwrap();
    assert_eq!(g.open(), Err(GatewayError::InvalidPhase));
    assert_eq!(g.identified(), Err(GatewayError::InvalidPhase));
    assert_eq!(g.run(), Err(GatewayError::InvalidPhase));
    assert_eq!(g.status(), Status::Handshaking);
}

#[test]
fn dispatch_envelopes_move_the_cursor_and_are_delivered_in_order() {
    let mut g = live();
    let mut delivered = Vec::new();
    for (i, s) in [3u64, 4, 9, 10, 250].iter().enumerate() {
        let name = format!("EVENT_{}", i);
        match g.receive(&dispatch(&name, *s)) {
            Reaction::Deliver(GatewayEvent::Dispatch(d)) => delivered.push(d.name),
            other => panic!("{:?}", other),
        }
        assert_eq!(g.last_sequence_number(), Some(*s));
    }
    assert_eq!(delivered, vec!["EVENT_0", "EVENT_1", "EVENT_2", "EVENT_3", "EVENT_4"]);
    assert_eq!(g.last_sequence_number(), Some(250));
    assert_eq!(g.status(), Status::Live);
}

#[test]
fn the_cursor_never_goes_back() {
    let mut g = live();
    g.receive(&dispatch("A", 10));
    g.receive(&dispatch("B", 4));
    assert_eq!(g.last_sequence_number(), Some(10));
    g.receive(&dispatch("C", 10));
    assert_eq!(g.last_sequence_number(), Some(10));
    let without = RawGatewayEvent {
        op_code: 0,
        data: Some(json("{}")),
        sequence: None,
        t: Some("D".to_string()),
    };
    assert!(matches!(g.receive(&without), Reaction::Deliver(_)));
    assert_eq!(g.last_sequence_number(), Some(10));
    g.receive(&dispatch("E", 11));
    assert_eq!(g.last_sequence_number(), Some(11));
}

#[test]
fn a_failed_dispatch_still_moves_the_cursor() {
    let mut g = live();
    g.receive(&dispatch("A", 1));
    let broken = RawGatewayEvent {
        op_code: 0,
        data: Some(json(r#"{"v":"ten"}"#)),
        sequence: Some(2),
        t: Some("READY".to_string()),
    };
    assert_eq!(g.receive(&broken), Reaction::Dropped(GatewayError::MalformedPayload));
    assert_eq!(g.last_sequence_number(), Some(2));
    assert_eq!(g.status(), Status::Live);
    let nameless = RawGatewayEvent { op_code: 0, data: None, sequence: Some(3), t: None };
    assert_eq!(g.receive(&nameless), Reaction::Dropped(GatewayError::MissingEventName));
    assert_eq!(g.last_sequence_number(), Some(3));
    assert!(matches!(g.receive(&dispatch("B", 4)), Reaction::Deliver(_)));
    assert_eq!(g.last_sequence_number(), Some(4));
}

#[test]
fn unknown_op_code_leaves_a_live_session_live() {
    let mut g = live();
    g.receive(&dispatch("A", 1));
    let unknown = RawGatewayEvent { op_code: 99, data: Some(json("[1]")), sequence: None, t: None };
    assert_eq!(
        g.receive(&unknown),
        Reaction::Dropped(GatewayError::UnknownOpCode { op: 99, raw_payload: Some(json("[1]")) })
    );
    assert_eq!(g.status(), Status::Live);
    assert_eq!(g.last_sequence_number(), Some(1));
    assert!(matches!(g.receive(&dispatch("B", 2)), Reaction::Deliver(_)));
    assert_eq!(g.last_sequence_number(), Some(2));
}

#[test]
fn hello_after_the_handshake_is_dropped() {
    let mut g = live();
    assert_eq!(g.receive(&hello(1)), Reaction::Dropped(GatewayError::InvalidPhase));
    assert_eq!(g.heartbeat_interval(), Some(41250));
    assert_eq!(g.status(), Status::Live);
}

#[test]
fn a_heartbeat_request_is_answered_at_once() {
    let mut g = live();
    let request = RawGatewayEvent { op_code: 1, data: None, sequence: None, t: None };
    assert_eq!(g.receive(&request), Reaction::Heartbeat(RawGatewayEvent::new_heartbeat(None)));
    g.receive(&dispatch("A", 8));
    assert_eq!(g.receive(&request), Reaction::Heartbeat(RawGatewayEvent::new_heartbeat(Some(8))));
    assert!(!g.pending_heartbeat_ack());
}

#[test]
fn dispatch_may_arrive_before_the_session_runs() {
    let mut g = Gateway::new();
    g.open().unwrap();
    g.receive(&hello(1000));
    g.identified().unwrap();
    assert!(matches!(g.receive(&dispatch("READY_IS_EARLY", 1)), Reaction::Deliver(_)));
    assert_eq!(g.last_sequence_number(), Some(1));
    assert_eq!(g.status(), Status::Authenticated);
    assert_eq!(g.run(), Ok(1000));
}

#[test]
fn heartbeats_carry_the_cursor_and_wait_for_their_acknowledgement() {
    let mut g = live();
    assert_eq!(g.heartbeat_tick(), Tick::Send(RawGatewayEvent::new_heartbeat(None)));
    assert!(g.pending_heartbeat_ack());
    assert_eq!(g.receive(&ack()), Reaction::Acknowledged);
    assert!(!g.pending_heartbeat_ack());
    g.receive(&dispatch("A", 17));
    assert_eq!(g.heartbeat_tick(), Tick::Send(RawGatewayEvent::new_heartbeat(Some(17))));
    assert_eq!(g.heartbeat(), RawGatewayEvent::new_heartbeat(Some(17)));
    assert_eq!(g.receive(&ack()), Reaction::Acknowledged);
    assert!(matches!(g.heartbeat_tick(), Tick::Send(_)));
    assert_eq!(g.status(), Status::Live);
}

#[test]
fn a_missed_acknowledgement_times_out_before_the_next_heartbeat() {
    let mut g = live();
    assert!(matches!(g.heartbeat_tick(), Tick::Send(_)));
    g.receive(&dispatch("A", 1));
    g.receive(&RawGatewayEvent { op_code: 99, data: None, sequence: None, t: None });
    g.receive(&RawGatewayEvent { op_code: 1, data: None, sequence: None, t: None });
    match g.heartbeat_tick() {
        Tick::TimedOut(close) => {
            assert_eq!(close.code, 1000);
            assert_eq!(close.reason, "Disconnected");
        }
        other => panic!("{:?}", other),
    }
    assert_eq!(g.status(), Status::Closing);
    assert_eq!(g.heartbeat_tick(), Tick::Idle);
    assert_eq!(g.receive(&ack()), Reaction::Fatal(GatewayError::AlreadyDisconnected));
    assert_eq!(g.heartbeat_tick(), Tick::Idle);
    g.finish_close();
    assert_eq!(g.status(), Status::Closed);
    assert_eq!(g.heartbeat_tick(), Tick::Idle);
}

#[test]
fn ticks_as_results() {
    let mut g = live();
    assert_eq!(g.heartbeat_tick().into_result(), Ok(Some(RawGatewayEvent::new_heartbeat(None))));
    assert_eq!(g.heartbeat_tick().into_result(), Err(GatewayError::LivenessTimeout));
    assert_eq!(g.heartbeat_tick().into_result(), Ok(None));
}

#[test]
fn ticks_outside_a_live_session_do_nothing() {
    let mut g = Gateway::new();
    assert_eq!(g.heartbeat_tick(), Tick::Idle);
    g.open().unwrap();
    assert_eq!(g.heartbeat_tick(), Tick::Idle);
    g.receive(&hello(10));
    g.identified().unwrap();
    assert_eq!(g.heartbeat_tick(), Tick::Idle);
    assert!(!g.pending_heartbeat_ack());
}

#[test]
fn disconnect_closes_once() {
    let mut g = live();
    let close = g.disconnect().unwrap();
    assert_eq!(close.code, 1000);
    assert_eq!(close.reason, "Disconnected");
    assert_eq!(g.status(), Status::Closing);
    assert_eq!(g.disconnect(), Err(GatewayError::AlreadyDisconnected));
    g.finish_close();
    assert_eq!(g.status(), Status::Closed);
    assert_eq!(g.disconnect(), Err(GatewayError::AlreadyDisconnected));
    assert_eq!(g.status(), Status::Closed);
    g.finish_close();
    assert_eq!(g.status(), Status::Closed);
}

#[test]
fn disconnect_before_connecting_is_an_error() {
    let mut g = Gateway::new();
    assert_eq!(g.disconnect(), Err(GatewayError::AlreadyDisconnected));
    assert_eq!(g.status(), Status::Disconnected);
    g.open().unwrap();
    assert!(g.disconnect().is_ok());
    assert_eq!(g.status(), Status::Closing);
}

#[test]
fn finish_close_only_ends_a_closing_session() {
    let mut g = live();
    g.finish_close();
    assert_eq!(g.status(), Status::Live);
}

#[test]
fn transport_failure_closes() {
    let mut g = live();
    let close = g.fail().unwrap();
    assert_eq!(close.code, 1000);
    assert_eq!(g.status(), Status::Closing);
    assert_eq!(g.fail(), None);
    assert_eq!(g.status(), Status::Closed);
    let mut g = Gateway::new();
    g.open().unwrap();
    assert_eq!(g.fail(), None);
    assert_eq!(g.status(), Status::Closed);
    let mut g = Gateway::new();
    assert_eq!(g.fail(), None);
    assert_eq!(g.status(), Status::Closed);
}

#[test]
fn the_transport_is_usable_while_connected() {
    let mut g = Gateway::new();
    assert_eq!(g.ensure_connected(), Err(GatewayError::AlreadyDisconnected));
    g.open().unwrap();
    assert_eq!(g.ensure_connected(), Ok(()));
    g.receive(&hello(1));
    g.identified().unwrap();
    assert_eq!(g.ensure_connected(), Ok(()));
    g.run().unwrap();
    assert_eq!(g.ensure_connected(), Ok(()));
    g.disconnect().unwrap();
    assert_eq!(g.ensure_connected(), Ok(()));
    g.finish_close();
    assert_eq!(g.ensure_connected(), Err(GatewayError::AlreadyDisconnected));
}

#[test]
fn sharding_is_set_before_connecting() {
    let g = Gateway::new().with_guild_sharding(4194304 * 5, 4).unwrap();
    assert_eq!(g.sharding(), Some((1, 4)));
    assert_eq!(g.status(), Status::Disconnected);
    assert_eq!(
        Gateway::new().with_guild_sharding(123456789, 0),
        Err(GatewayError::InvalidShardCount)
    );
    let mut g = Gateway::new();
    g.open().unwrap();
    assert_eq!(g.with_guild_sharding(1, 2), Err(GatewayError::InvalidPhase));
    assert_eq!(g.with_guild_sharding(1, 0), Err(GatewayError::InvalidShardCount));
    let g = Gateway::new().with_guild_sharding(123456789, 10).unwrap();
    assert_eq!(g.sharding(), Some(((123456789u64 >> 22) % 10, 10)));
}

#[test]
fn authenticate_builds_the_identify_envelope() {
    let g = Gateway::new().with_guild_sharding(4194304, 2).unwrap();
    let intents = Intents::from_bits_retain(Intents::GUILDS | Intents::GUILD_MESSAGES);
    let e = g.authenticate("some token", Some(intents));
    assert_eq!(e.op_code, 2);
    let expected = json(
        r#"{"token":"some token","properties":{"os":"linux","browser":"rust","device":"rust"},
            "compress":false,"large_threshold":50,"presence":null,"intents":513,"shard":[1,2]}"#,
    );
    assert_eq!(e.data, Some(expected));
    let e = Gateway::new().authenticate("t", None);
    let summary = e.identify_summary().unwrap();
    assert_eq!(summary.intents, 0);
    assert_eq!(summary.shard, None);
    assert_eq!(summary.token, "t");
}

#[test]
fn run_falls_back_to_the_default_period_only_without_a_greeting() {
    let mut g = Gateway::new();
    g.open().unwrap();
    g.receive(&hello(0));
    g.identified().unwrap();
    assert_eq!(g.run(), Ok(0));
}

#[test]
fn the_first_heartbeat_is_jittered() {
    let half = Jitter::new(1, 2).unwrap();
    assert_eq!(first_heartbeat_delay(41250, half), 20625);
    assert_eq!(first_heartbeat_delay(41251, half), 20625);
    assert_eq!(first_heartbeat_delay(41250, Jitter::none()), 0);
    assert_eq!(first_heartbeat_delay(0, half), 0);
    let almost = Jitter::new(u32::MAX - 1, u32::MAX).unwrap();
    assert_eq!(first_heartbeat_delay(u64::MAX, almost), 18446744069414584318);
    assert!(first_heartbeat_delay(1, almost) < 1);
    assert_eq!(first_heartbeat_delay(41250, Jitter::new(999, 1000).unwrap()), 41208);
    assert_eq!(first_heartbeat_delay(1000, Jitter::from_sample(4_000_250_000)), 250);
}

#[test]
fn jitter_is_a_fraction_below_one() {
    assert_eq!(Jitter::new(1, 1), None);
    assert_eq!(Jitter::new(2, 1), None);
    assert_eq!(Jitter::new(0, 0), None);
    let j = Jitter::new(3, 4).unwrap();
    assert_eq!(j.numerator(), 3);
    assert_eq!(j.denominator(), 4);
    let j = Jitter::from_sample(u32::MAX);
    assert_eq!(j.numerator(), 967295);
    assert_eq!(j.denominator(), 1000000);
    assert_eq!(Jitter::none().numerator(), 0);
}
