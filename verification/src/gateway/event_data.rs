//! The typed events that envelopes decode into.

use crate::error::{ErrorView, GatewayError};
use crate::gateway::event::{
    text_of, EnvelopeView, RawGatewayEvent, OP_DISPATCH, OP_HEARTBEAT, OP_HEARTBEAT_ACK, OP_HELLO,
};
use crate::json::{
    is_object, json_tree, optional_number, optional_pair, optional_text, read_number,
    read_optional_pair, read_text, JsonTree,
};
use ijson::IValue;
use vstd::prelude::*;

verus! {

/// One decoded gateway event.
#[derive(Clone, Debug, PartialEq)]
pub enum GatewayEvent {
    /// The session is established (dispatch `READY`).
    Ready(ReadyData),
    /// The server's greeting (op 10).
    Hello(HelloData),
    /// A message was posted (dispatch `MESSAGE_CREATE`).
    MessageCreate(MessageCreateData),
    /// A dispatch event this client has no dedicated variant for.
    Dispatch(DispatchData),
    /// The server acknowledged a heartbeat (op 11).
    HeartbeatAcknowledgement,
    /// The server asks for a heartbeat right away (op 1).
    Heartbeat,
}

/// What `READY` tells the session engine. The entities that come with it
/// (user, guilds, application) stay in `payload`.
#[derive(Clone, Debug, PartialEq)]
pub struct ReadyData {
    pub version: u8,
    pub session_id: String,
    pub resume_gateway_url: String,
    pub shard: Option<(u64, u64)>,
    pub payload: IValue,
}

#[derive(Clone, Copy, Debug, PartialEq, Eq, Structural)]
pub struct HelloData {
    pub heartbeat_interval: u64,
}

/// A `MESSAGE_CREATE` dispatch: the guild it belongs to, if any, and the
/// message itself, still undecoded, in `payload`.
#[derive(Clone, Debug, PartialEq)]
pub struct MessageCreateData {
    pub guild_id: Option<String>,
    pub payload: IValue,
}

/// A dispatch event by name, with its payload untouched.
#[derive(Clone, Debug, PartialEq)]
pub struct DispatchData {
    pub name: String,
    pub guild_id: Option<String>,
    pub payload: IValue,
}

/// A [`GatewayEvent`] as the contracts see it.
pub enum EventView {
    Ready {
        version: u8,
        session_id: Seq<char>,
        resume_gateway_url: Seq<char>,
        shard: Option<(u64, u64)>,
        payload: JsonTree,
    },
    Hello { heartbeat_interval: u64 },
    MessageCreate { guild_id: Option<Seq<char>>, payload: JsonTree },
    Dispatch { name: Seq<char>, guild_id: Option<Seq<char>>, payload: JsonTree },
    HeartbeatAcknowledgement,
    Heartbeat,
}

impl View for GatewayEvent {
    type V = EventView;

    open spec fn view(&self) -> EventView {
        match *self {
            GatewayEvent::Ready(d) => EventView::Ready {
                version: d.version,
                session_id: d.session_id@,
                resume_gateway_url: d.resume_gateway_url@,
                shard: d.shard,
                payload: json_tree(d.payload),
            },
            GatewayEvent::Hello(d) => EventView::Hello { heartbeat_interval: d.heartbeat_interval },
            GatewayEvent::MessageCreate(d) => EventView::MessageCreate {
                guild_id: text_of(d.guild_id),
                payload: json_tree(d.payload),
            },
            GatewayEvent::Dispatch(d) => EventView::Dispatch {
                name: d.name@,
                guild_id: text_of(d.guild_id),
                payload: json_tree(d.payload),
            },
            GatewayEvent::HeartbeatAcknowledgement => EventView::HeartbeatAcknowledgement,
            GatewayEvent::Heartbeat => EventView::Heartbeat,
        }
    }
}

/// The guild a payload names: `Some(None)` where the payload is an object
/// without a `guild_id`, `None` where it is no object or its `guild_id` is
/// no string.
pub open spec fn guild_of(tree: JsonTree) -> Option<Option<Seq<char>>> {
    match tree {
        JsonTree::Record(m) => optional_text(m, "guild_id"@),
        _ => None,
    }
}

/// The `READY` event in a payload: an object with a protocol version `v`
/// that fits in a byte, a `session_id`, a `resume_gateway_url` and, if any,
/// a well-shaped `shard` pair.
pub open spec fn ready_of(tree: JsonTree) -> Option<EventView> {
    match tree {
        JsonTree::Record(m) => match (
            optional_number(m, "v"@),
            optional_text(m, "session_id"@),
            optional_text(m, "resume_gateway_url"@),
            optional_pair(m, "shard"@),
        ) {
            (Some(Some(v)), Some(Some(session_id)), Some(Some(url)), Some(shard)) => if v <= 255 {
                Some(
                    EventView::Ready {
                        version: v as u8,
                        session_id,
                        resume_gateway_url: url,
                        shard,
                        payload: tree,
                    },
                )
            } else {
                None
            },
            _ => None,
        },
        _ => None,
    }
}

/// The greeting in a payload: an object with an unsigned
/// `heartbeat_interval`.
pub open spec fn hello_of(tree: JsonTree) -> Option<u64> {
    match tree {
        JsonTree::Record(m) => match optional_number(m, "heartbeat_interval"@) {
            Some(Some(n)) => Some(n),
            _ => None,
        },
        _ => None,
    }
}

/// The dispatch event named `name` in a payload. `READY` and
/// `MESSAGE_CREATE` must have their shape; any other name is passed on as
/// it is and never fails.
pub open spec fn dispatch_of(name: Seq<char>, tree: JsonTree) -> Result<EventView, ErrorView> {
    if name == "READY"@ {
        match ready_of(tree) {
            Some(ev) => Ok(ev),
            None => Err(ErrorView::MalformedPayload),
        }
    } else if name == "MESSAGE_CREATE"@ {
        match guild_of(tree) {
            Some(guild_id) => Ok(EventView::MessageCreate { guild_id, payload: tree }),
            None => Err(ErrorView::MalformedPayload),
        }
    } else {
        Ok(
            EventView::Dispatch {
                name,
                guild_id: match guild_of(tree) {
                    Some(g) => g,
                    None => None,
                },
                payload: tree,
            },
        )
    }
}

/// The event that an envelope carries, by op code.
pub open spec fn event_of(e: EnvelopeView) -> Result<EventView, ErrorView> {
    if e.op == OP_DISPATCH {
        match (e.name, e.data) {
            (None, _) => Err(ErrorView::MissingEventName),
            (Some(_), None) => Err(ErrorView::MissingPayload),
            (Some(name), Some(tree)) => dispatch_of(name, tree),
        }
    } else if e.op == OP_HEARTBEAT {
        Ok(EventView::Heartbeat)
    } else if e.op == OP_HELLO {
        match e.data {
            None => Err(ErrorView::MissingPayload),
            Some(tree) => match hello_of(tree) {
                Some(n) => Ok(EventView::Hello { heartbeat_interval: n }),
                None => Err(ErrorView::MalformedPayload),
            },
        }
    } else if e.op == OP_HEARTBEAT_ACK {
        Ok(EventView::HeartbeatAcknowledgement)
    } else {
        Err(ErrorView::UnknownOpCode { op: e.op, raw_payload: e.data })
    }
}

fn is_named(name: &String, literal: &str) -> (r: bool)
    ensures
        r == (name@ == literal@),
{
    let other = String::from_str(literal);
    *name == other
}

fn read_guild(data: &IValue) -> (r: Result<Option<String>, ()>)
    ensures
        match guild_of(json_tree(*data)) {
            Some(g) => r matches Ok(x) && text_of(x) == g,
            None => r is Err,
        },
{
    if !is_object(data) {
        return Err(());
    }
    read_text(data, "guild_id")
}

fn read_ready(data: &IValue) -> (r: Option<ReadyData>)
    ensures
        match ready_of(json_tree(*data)) {
            Some(ev) => r matches Some(d) && GatewayEvent::Ready(d)@ == ev,
            None => r is None,
        },
{
    if !is_object(data) {
        return None;
    }
    let v = match read_number(data, "v") {
        Ok(Some(v)) => v,
        _ => {
            return None;
        },
    };
    let session_id = match read_text(data, "session_id") {
        Ok(Some(s)) => s,
        _ => {
            return None;
        },
    };
    let resume_gateway_url = match read_text(data, "resume_gateway_url") {
        Ok(Some(s)) => s,
        _ => {
            return None;
        },
    };
    let shard = match read_optional_pair(data, "shard") {
        Ok(p) => p,
        Err(_) => {
            return None;
        },
    };
    if v > 255 {
        return None;
    }
    Some(
        ReadyData {
            version: v as u8,
            session_id,
            resume_gateway_url,
            shard,
            payload: data.clone(),
        },
    )
}

fn read_hello(data: &IValue) -> (r: Option<u64>)
    ensures
        r == hello_of(json_tree(*data)),
{
    if !is_object(data) {
        return None;
    }
    match read_number(data, "heartbeat_interval") {
        Ok(Some(n)) => Some(n),
        _ => None,
    }
}

fn read_dispatch(name: &String, data: &IValue) -> (r: Result<GatewayEvent, GatewayError>)
    ensures
        match dispatch_of(name@, json_tree(*data)) {
            Ok(ev) => r matches Ok(x) && x@ == ev,
            Err(err) => r matches Err(x) && x@ == err,
        },
{
    if is_named(name, "READY") {
        match read_ready(data) {
            Some(d) => Ok(GatewayEvent::Ready(d)),
            None => Err(GatewayError::MalformedPayload),
        }
    } else if is_named(name, "MESSAGE_CREATE") {
        match read_guild(data) {
            Ok(guild_id) => Ok(
                GatewayEvent::MessageCreate(MessageCreateData { guild_id, payload: data.clone() }),
            ),
            Err(_) => Err(GatewayError::MalformedPayload),
        }
    } else {
        let guild_id = match read_guild(data) {
            Ok(g) => g,
            Err(_) => None,
        };
        Ok(
            GatewayEvent::Dispatch(
                DispatchData { name: name.clone(), guild_id, payload: data.clone() },
            ),
        )
    }
}

impl RawGatewayEvent {
    /// Decodes the envelope into a typed event, by op code:
    ///
    /// * 0 (dispatch) needs an event name and a payload; `READY` and
    ///   `MESSAGE_CREATE` get their own variant, every other name becomes a
    ///   [`GatewayEvent::Dispatch`];
    /// * 1 is a heartbeat request, 11 a heartbeat acknowledgement;
    /// * 10 is the greeting and needs a payload with the heartbeat
    ///   interval;
    /// * every other op code is a [`GatewayError::UnknownOpCode`] that
    ///   carries the op code and the payload.
    ///
    /// The result is exactly [`event_of`] of this envelope.
    pub fn get_event_data(&self) -> (r: Result<GatewayEvent, GatewayError>)
        ensures
            match event_of(self@) {
                Ok(ev) => r matches Ok(x) && x@ == ev,
                Err(err) => r matches Err(x) && x@ == err,
            },
    {
        if self.op_code == OP_DISPATCH {
            match (&self.t, &self.data) {
                (None, _) => Err(GatewayError::MissingEventName),
                (Some(_), None) => Err(GatewayError::MissingPayload),
                (Some(name), Some(data)) => read_dispatch(name, data),
            }
        } else if self.op_code == OP_HEARTBEAT {
            Ok(GatewayEvent::Heartbeat)
        } else if self.op_code == OP_HELLO {
            match &self.data {
                None => Err(GatewayError::MissingPayload),
                Some(data) => match read_hello(data) {
                    Some(n) => Ok(GatewayEvent::Hello(HelloData { heartbeat_interval: n })),
                    None => Err(GatewayError::MalformedPayload),
                },
            }
        } else if self.op_code == OP_HEARTBEAT_ACK {
            Ok(GatewayEvent::HeartbeatAcknowledgement)
        } else {
            let raw_payload = match &self.data {
                Some(d) => Some(d.clone()),
                None => None,
            };
            Err(GatewayError::UnknownOpCode { op: self.op_code, raw_payload })
        }
    }
}

} // verus!
