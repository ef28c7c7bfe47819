//! The wire envelope and its codec.

use crate::error::{tree_of, GatewayError};
use crate::json::{
    field, from_bool, from_items, from_members, from_text, from_u64, is_object,
    json_tree, null, optional_number, optional_pair, optional_text, parse, parsed_json, present,
    put, read_number, read_optional_pair, read_text, render, rendered_json, JsonTree,
};
use ijson::IValue;
use vstd::prelude::*;

verus! {

/// Op code of a dispatch envelope.
pub const OP_DISPATCH: u32 = 0;

/// Op code of a heartbeat, in either direction.
pub const OP_HEARTBEAT: u32 = 1;

/// Op code of the identify envelope.
pub const OP_IDENTIFY: u32 = 2;

/// Op code of the server's greeting.
pub const OP_HELLO: u32 = 10;

/// Op code of the server's heartbeat acknowledgement.
pub const OP_HEARTBEAT_ACK: u32 = 11;

/// One protocol message: `{"op": .., "d": .., "s": .., "t": ..}`.
///
/// `sequence` and `t` belong to dispatch envelopes (op 0) only; see
/// [`RawGatewayEvent::spec_is_well_formed`].
#[derive(Clone, Debug, PartialEq)]
pub struct RawGatewayEvent {
    pub op_code: u32,
    pub data: Option<IValue>,
    pub sequence: Option<u64>,
    pub t: Option<String>,
}

/// An envelope as the contracts see it: the payload by its contents, the
/// event name by its characters.
pub struct EnvelopeView {
    pub op: u32,
    pub data: Option<JsonTree>,
    pub sequence: Option<u64>,
    pub name: Option<Seq<char>>,
}

/// The characters of an optional string.
pub open spec fn text_of(s: Option<String>) -> Option<Seq<char>> {
    match s {
        Some(t) => Some(t@),
        None => None,
    }
}

impl View for RawGatewayEvent {
    type V = EnvelopeView;

    open spec fn view(&self) -> EnvelopeView {
        EnvelopeView {
            op: self.op_code,
            data: tree_of(self.data),
            sequence: self.sequence,
            name: text_of(self.t),
        }
    }
}

impl EnvelopeView {
    /// Sequence number and event name appear on dispatch envelopes only,
    /// and a payload that is present is not `null`.
    pub open spec fn is_well_formed(self) -> bool {
        &&& self.op != OP_DISPATCH ==> self.sequence is None && self.name is None
        &&& !(self.data matches Some(JsonTree::Null))
    }
}

/// The envelope that a JSON value spells, or `None` where it spells none.
///
/// The value must be an object whose `op` is a number that fits in 32 bits.
/// `d`, `s` and `t` may be absent or `null`; if present, `s` must be an
/// unsigned number and `t` a string. Outside dispatch envelopes `s` and `t`
/// are not read.
pub open spec fn envelope_of_tree(tree: JsonTree) -> Option<EnvelopeView> {
    match tree {
        JsonTree::Record(members) => match (
            optional_number(members, "op"@),
            optional_number(members, "s"@),
            optional_text(members, "t"@),
        ) {
            (Some(Some(op)), Some(sequence), Some(name)) => if op <= u32::MAX {
                Some(
                    EnvelopeView {
                        op: op as u32,
                        data: field(members, "d"@),
                        sequence: if op == OP_DISPATCH {
                            sequence
                        } else {
                            None
                        },
                        name: if op == OP_DISPATCH {
                            name
                        } else {
                            None
                        },
                    },
                )
            } else {
                None
            },
            _ => None,
        },
        _ => None,
    }
}

/// The JSON object that an envelope is written as: `op` and `d` always
/// (`d` as `null` without a payload), `s` and `t` only where present.
pub open spec fn envelope_tree(e: EnvelopeView) -> JsonTree {
    let base = Map::<Seq<char>, JsonTree>::empty().insert(
        "op"@,
        JsonTree::Number(Some(e.op as u64)),
    ).insert(
        "d"@,
        match e.data {
            Some(d) => d,
            None => JsonTree::Null,
        },
    );
    let with_sequence = match e.sequence {
        Some(s) => base.insert("s"@, JsonTree::Number(Some(s))),
        None => base,
    };
    JsonTree::Record(
        match e.name {
            Some(t) => with_sequence.insert("t"@, JsonTree::Text(t)),
            None => with_sequence,
        },
    )
}

/// One message of the transport, by kind.
#[derive(Clone, Debug, PartialEq, Eq)]
pub enum Frame {
    Text(String),
    Binary(Vec<u8>),
    Ping(Vec<u8>),
    Pong(Vec<u8>),
    /// A close frame: close code and reason, if the peer gave any.
    Close(Option<(u16, String)>),
    /// A raw frame, by its text.
    Raw(String),
}

/// Whether `text` is what the JSON writer makes of some value that holds
/// the envelope `e`; with `None` for `text`, whether the writer refuses
/// such a value.
pub open spec fn is_rendering_of(text: Option<Seq<char>>, e: EnvelopeView) -> bool {
    exists|v: IValue| #[trigger] json_tree(v) == envelope_tree(e) && rendered_json(v) == text
}

/// The envelope that a frame carries.
pub open spec fn frame_envelope(frame: Frame) -> Result<EnvelopeView, GatewayError> {
    match frame {
        Frame::Text(text) | Frame::Raw(text) => match decoded(text@) {
            Some(e) => Ok(e),
            None => Err(GatewayError::MalformedEnvelope),
        },
        _ => Err(GatewayError::UnsupportedFrame),
    }
}

/// The envelope that a frame's text spells.
pub open spec fn decoded(text: Seq<char>) -> Option<EnvelopeView> {
    match parsed_json(text) {
        Some(tree) => envelope_of_tree(tree),
        None => None,
    }
}

impl RawGatewayEvent {
    pub open spec fn spec_is_well_formed(&self) -> bool {
        self@.is_well_formed()
    }

    /// Whether the envelope keeps to the shape of the protocol: sequence
    /// number and event name on dispatch envelopes only.
    pub fn is_well_formed(&self) -> (r: bool)
        ensures
            r == self.spec_is_well_formed(),
    {
        let plain = self.op_code == OP_DISPATCH || (self.sequence.is_none() && self.t.is_none());
        let payload = match &self.data {
            Some(d) => !crate::json::is_null(d),
            None => true,
        };
        plain && payload
    }

    /// Reads an envelope out of a parsed JSON value.
    ///
    /// Succeeds exactly where [`envelope_of_tree`] defines an envelope for
    /// the value's contents, and fails with
    /// [`GatewayError::MalformedEnvelope`] everywhere else.
    pub fn from_value(v: &IValue) -> (r: Result<RawGatewayEvent, GatewayError>)
        ensures
            match envelope_of_tree(json_tree(*v)) {
                Some(e) => r matches Ok(x) && x@ == e,
                None => r matches Err(GatewayError::MalformedEnvelope),
            },
            r matches Ok(x) ==> x.spec_is_well_formed(),
    {
        if !is_object(v) {
            return Err(GatewayError::MalformedEnvelope);
        }
        let op = match read_number(v, "op") {
            Ok(Some(n)) => n,
            _ => {
                return Err(GatewayError::MalformedEnvelope);
            },
        };
        let sequence = match read_number(v, "s") {
            Ok(s) => s,
            Err(_) => {
                return Err(GatewayError::MalformedEnvelope);
            },
        };
        let t = match read_text(v, "t") {
            Ok(t) => t,
            Err(_) => {
                return Err(GatewayError::MalformedEnvelope);
            },
        };
        if op > 0xffff_ffff {
            return Err(GatewayError::MalformedEnvelope);
        }
        let data = match present(v, "d") {
            Some(d) => Some(d.clone()),
            None => None,
        };
        if op == 0 {
            Ok(RawGatewayEvent { op_code: op as u32, data, sequence, t })
        } else {
            Ok(RawGatewayEvent { op_code: op as u32, data, sequence: None, t: None })
        }
    }

    /// Decodes the text of one inbound frame.
    ///
    /// Succeeds exactly where the text is a JSON document that spells an
    /// envelope ([`decoded`]); every other text is a
    /// [`GatewayError::MalformedEnvelope`].
    pub fn decode(text: &str) -> (r: Result<RawGatewayEvent, GatewayError>)
        ensures
            match decoded(text@) {
                Some(e) => r matches Ok(x) && x@ == e,
                None => r matches Err(GatewayError::MalformedEnvelope),
            },
            r matches Ok(x) ==> x.spec_is_well_formed(),
    {
        match parse(text) {
            Ok(v) => RawGatewayEvent::from_value(&v),
            Err(_) => Err(GatewayError::MalformedEnvelope),
        }
    }

    /// The JSON value that this envelope is written as.
    pub fn to_value(&self) -> (r: IValue)
        ensures
            json_tree(r) == envelope_tree(self@),
    {
        let mut entries: Vec<(String, IValue)> = Vec::new();
        assert(crate::json::record_of(entries@) == Map::<Seq<char>, JsonTree>::empty());
        put(&mut entries, "op", from_u64(self.op_code as u64));
        let d = match &self.data {
            Some(d) => d.clone(),
            None => null(),
        };
        put(&mut entries, "d", d);
        match self.sequence {
            Some(s) => {
                put(&mut entries, "s", from_u64(s));
            },
            None => {},
        }
        match &self.t {
            Some(t) => {
                put(&mut entries, "t", from_text(t.as_str()));
            },
            None => {},
        }
        from_members(entries)
    }

    /// Encodes the envelope as the text of one outbound frame: the JSON
    /// text of a value whose contents are [`envelope_tree`] of this
    /// envelope. Fails with [`GatewayError::Unencodable`] only where the
    /// JSON writer refuses that value.
    pub fn encode(&self) -> (r: Result<String, GatewayError>)
        ensures
            match r {
                Ok(s) => is_rendering_of(Some(s@), self@),
                Err(e) => e == GatewayError::Unencodable && is_rendering_of(None, self@),
            },
    {
        let v = self.to_value();
        match render(&v) {
            Ok(s) => Ok(s),
            Err(_) => Err(GatewayError::Unencodable),
        }
    }

    /// Reads the envelope that a frame carries. Text frames and raw frames
    /// are decoded as [`RawGatewayEvent::decode`] does; every other kind
    /// of frame is a [`GatewayError::UnsupportedFrame`].
    pub fn from_frame(frame: &Frame) -> (r: Result<RawGatewayEvent, GatewayError>)
        ensures
            match frame_envelope(*frame) {
                Ok(e) => r matches Ok(x) && x@ == e,
                Err(err) => r == Err::<RawGatewayEvent, GatewayError>(err),
            },
            r matches Ok(x) ==> x.spec_is_well_formed(),
    {
        match frame {
            Frame::Text(text) => RawGatewayEvent::decode(text.as_str()),
            Frame::Raw(text) => RawGatewayEvent::decode(text.as_str()),
            _ => Err(GatewayError::UnsupportedFrame),
        }
    }

    /// The text frame that carries this envelope.
    pub fn to_frame(&self) -> (r: Result<Frame, GatewayError>)
        ensures
            match r {
                Ok(frame) => frame matches Frame::Text(s) && is_rendering_of(Some(s@), self@),
                Err(e) => e == GatewayError::Unencodable && is_rendering_of(None, self@),
            },
    {
        match self.encode() {
            Ok(s) => Ok(Frame::Text(s)),
            Err(e) => Err(e),
        }
    }

    /// The heartbeat envelope: op 1, carrying the last sequence number seen
    /// or `null` where none was.
    pub fn new_heartbeat(last_sequence: Option<u64>) -> (r: RawGatewayEvent)
        ensures
            r@ == heartbeat_envelope(last_sequence),
            r.spec_is_well_formed(),
    {
        let data = match last_sequence {
            Some(s) => Some(from_u64(s)),
            None => None,
        };
        RawGatewayEvent { op_code: OP_HEARTBEAT, data, sequence: None, t: None }
    }
}

/// The heartbeat envelope for a given resumption cursor.
pub open spec fn heartbeat_envelope(last_sequence: Option<u64>) -> EnvelopeView {
    EnvelopeView {
        op: OP_HEARTBEAT,
        data: match last_sequence {
            Some(s) => Some(JsonTree::Number(Some(s))),
            None => None,
        },
        sequence: None,
        name: None,
    }
}

/// Reading back what was written gives the envelope that was written, for
/// every well-formed envelope.
pub proof fn lemma_envelope_round_trip(e: EnvelopeView)
    requires
        e.is_well_formed(),
    ensures
        envelope_of_tree(envelope_tree(e)) == Some(e),
{
    reveal_strlit("op");
    reveal_strlit("d");
    reveal_strlit("s");
    reveal_strlit("t");
    let members = envelope_tree(e)->Record_0;
    assert("op"@ != "d"@ && "op"@ != "s"@ && "op"@ != "t"@) by {
        assert("op"@.len() == 2);
    }
    assert("d"@ != "s"@ && "d"@ != "t"@ && "s"@ != "t"@) by {
        assert("d"@[0] == 'd' && "s"@[0] == 's' && "t"@[0] == 't');
    }
    assert(members.contains_key("op"@));
    assert(members["op"@] == JsonTree::Number(Some(e.op as u64)));
    assert(optional_number(members, "op"@) == Some(Some(e.op as u64)));
    assert(optional_number(members, "s"@) == Some(e.sequence));
    assert(optional_text(members, "t"@) == Some(e.name));
    assert(field(members, "d"@) == e.data);
    let back = envelope_of_tree(envelope_tree(e))->Some_0;
    assert(back.op == e.op);
    assert(back.sequence == e.sequence);
    assert(back.name == e.name);
}

/// Client metadata sent with the identify envelope.
#[derive(Clone, Debug, PartialEq, Eq)]
pub struct IdentifyConnectionProperty {
    /// The operating system.
    pub os: String,
    /// The library name.
    pub browser: String,
    /// The library name.
    pub device: String,
}

/// What an identify envelope is made from, as the contracts see it.
pub struct IdentifyView {
    pub token: Seq<char>,
    pub os: Seq<char>,
    pub browser: Seq<char>,
    pub device: Seq<char>,
    pub compress: Option<bool>,
    pub large_threshold: Option<u8>,
    pub shard: Option<(u64, u64)>,
    pub presence: Option<JsonTree>,
    pub intents: u64,
}

/// A flag, or `null` without one.
pub open spec fn flag_tree(b: Option<bool>) -> JsonTree {
    match b {
        Some(b) => JsonTree::Bool(b),
        None => JsonTree::Null,
    }
}

/// A small number, or `null` without one.
pub open spec fn threshold_tree(n: Option<u8>) -> JsonTree {
    match n {
        Some(n) => JsonTree::Number(Some(n as u64)),
        None => JsonTree::Null,
    }
}

/// The `[shard_id, num_shards]` array.
pub open spec fn shard_tree(shard: (u64, u64)) -> JsonTree {
    JsonTree::List(seq![JsonTree::Number(Some(shard.0)), JsonTree::Number(Some(shard.1))])
}

/// The `properties` object of the identify payload.
pub open spec fn properties_tree(os: Seq<char>, browser: Seq<char>, device: Seq<char>) -> JsonTree {
    JsonTree::Record(
        Map::<Seq<char>, JsonTree>::empty().insert("os"@, JsonTree::Text(os)).insert(
            "browser"@,
            JsonTree::Text(browser),
        ).insert("device"@, JsonTree::Text(device)),
    )
}

/// The payload of the identify envelope: token, properties, compression
/// flag, large threshold, presence and intents always (`null` where an
/// optional one is missing), and the shard pair only where there is one.
pub open spec fn identify_payload(i: IdentifyView) -> JsonTree {
    let base = Map::<Seq<char>, JsonTree>::empty().insert("token"@, JsonTree::Text(i.token)).insert(
        "properties"@,
        properties_tree(i.os, i.browser, i.device),
    ).insert("compress"@, flag_tree(i.compress)).insert(
        "large_threshold"@,
        threshold_tree(i.large_threshold),
    ).insert(
        "presence"@,
        match i.presence {
            Some(p) => p,
            None => JsonTree::Null,
        },
    ).insert("intents"@, JsonTree::Number(Some(i.intents)));
    JsonTree::Record(
        match i.shard {
            Some(pair) => base.insert("shard"@, shard_tree(pair)),
            None => base,
        },
    )
}

/// The identify envelope: op 2 with [`identify_payload`].
pub open spec fn identify_envelope(i: IdentifyView) -> EnvelopeView {
    EnvelopeView { op: OP_IDENTIFY, data: Some(identify_payload(i)), sequence: None, name: None }
}

/// What the server needs to recognise a client: the credentials, the
/// declared intents and the shard it speaks for.
#[derive(Clone, Debug, PartialEq, Eq)]
pub struct IdentifySummary {
    pub token: String,
    pub intents: u64,
    pub shard: Option<(u64, u64)>,
}

/// Token, intents and shard pair of an identify envelope; `None` where the
/// envelope is not an identify envelope with a string token, unsigned
/// intents and, if any, a well-shaped shard pair.
pub open spec fn identify_summary_of(e: EnvelopeView) -> Option<
    (Seq<char>, u64, Option<(u64, u64)>),
> {
    if e.op != OP_IDENTIFY {
        None
    } else {
        match e.data {
            Some(JsonTree::Record(m)) => match (
                optional_text(m, "token"@),
                optional_number(m, "intents"@),
                optional_pair(m, "shard"@),
            ) {
                (Some(Some(token)), Some(Some(intents)), Some(shard)) => Some(
                    (token, intents, shard),
                ),
                _ => None,
            },
            _ => None,
        }
    }
}

impl RawGatewayEvent {
    /// Creates the identify envelope that opens the handshake.
    ///
    /// * `token` - the token of the bot.
    /// * `properties` - the connection properties of the bot.
    /// * `compress` - whether this connection supports compressed packets.
    /// * `large_threshold` - member count above which the gateway stops
    ///   sending offline members of a guild.
    /// * `shard` - `(shard_id, num_shards)`; left out of the payload where
    ///   `None`.
    /// * `presence` - initial presence.
    /// * `intents` - gateway intents; none at all where `None`.
    pub fn new_identify(
        token: &str,
        properties: IdentifyConnectionProperty,
        compress: Option<bool>,
        large_threshold: Option<u8>,
        shard: Option<(u64, u64)>,
        presence: Option<IValue>,
        intents: Option<u64>,
    ) -> (r: RawGatewayEvent)
        ensures
            r@ == identify_envelope(
                IdentifyView {
                    token: token@,
                    os: properties.os@,
                    browser: properties.browser@,
                    device: properties.device@,
                    compress,
                    large_threshold,
                    shard,
                    presence: tree_of(presence),
                    intents: match intents {
                        Some(bits) => bits,
                        None => 0,
                    },
                },
            ),
            r.spec_is_well_formed(),
    {
        let mut props: Vec<(String, IValue)> = Vec::new();
        assert(crate::json::record_of(props@) == Map::<Seq<char>, JsonTree>::empty());
        put(&mut props, "os", from_text(properties.os.as_str()));
        put(&mut props, "browser", from_text(properties.browser.as_str()));
        put(&mut props, "device", from_text(properties.device.as_str()));
        let mut entries: Vec<(String, IValue)> = Vec::new();
        assert(crate::json::record_of(entries@) == Map::<Seq<char>, JsonTree>::empty());
        put(&mut entries, "token", from_text(token));
        put(&mut entries, "properties", from_members(props));
        let compress_value = match compress {
            Some(b) => from_bool(b),
            None => null(),
        };
        put(&mut entries, "compress", compress_value);
        let threshold_value = match large_threshold {
            Some(n) => from_u64(n as u64),
            None => null(),
        };
        put(&mut entries, "large_threshold", threshold_value);
        let presence_value = match presence {
            Some(p) => p,
            None => null(),
        };
        put(&mut entries, "presence", presence_value);
        let bits = match intents {
            Some(bits) => bits,
            None => 0,
        };
        put(&mut entries, "intents", from_u64(bits));
        match shard {
            Some((id, total)) => {
                let mut pair: Vec<IValue> = Vec::new();
                pair.push(from_u64(id));
                pair.push(from_u64(total));
                let array = from_items(pair);
                assert(json_tree(array)->List_0 =~= shard_tree((id, total))->List_0);
                put(&mut entries, "shard", array);
            },
            None => {},
        }
        RawGatewayEvent {
            op_code: OP_IDENTIFY,
            data: Some(from_members(entries)),
            sequence: None,
            t: None,
        }
    }

    /// Reads token, intents and shard pair back out of an identify
    /// envelope.
    pub fn identify_summary(&self) -> (r: Option<IdentifySummary>)
        ensures
            match identify_summary_of(self@) {
                Some((token, intents, shard)) => r matches Some(s) && s.token@ == token
                    && s.intents == intents && s.shard == shard,
                None => r is None,
            },
    {
        if self.op_code != OP_IDENTIFY {
            return None;
        }
        match &self.data {
            None => None,
            Some(d) => {
                if !is_object(d) {
                    return None;
                }
                let token = match read_text(d, "token") {
                    Ok(Some(t)) => t,
                    _ => {
                        return None;
                    },
                };
                let intents = match read_number(d, "intents") {
                    Ok(Some(n)) => n,
                    _ => {
                        return None;
                    },
                };
                let shard = match read_optional_pair(d, "shard") {
                    Ok(p) => p,
                    Err(_) => {
                        return None;
                    },
                };
                Some(IdentifySummary { token, intents, shard })
            },
        }
    }
}

/// The keys of the identify payload are pairwise different.
proof fn lemma_identify_keys()
    ensures
        "token"@ != "properties"@,
        "token"@ != "compress"@,
        "token"@ != "large_threshold"@,
        "token"@ != "presence"@,
        "token"@ != "intents"@,
        "token"@ != "shard"@,
        "intents"@ != "properties"@,
        "intents"@ != "compress"@,
        "intents"@ != "large_threshold"@,
        "intents"@ != "presence"@,
        "intents"@ != "shard"@,
        "shard"@ != "properties"@,
        "shard"@ != "compress"@,
        "shard"@ != "large_threshold"@,
        "shard"@ != "presence"@,
{
    reveal_strlit("token");
    reveal_strlit("properties");
    reveal_strlit("compress");
    reveal_strlit("large_threshold");
    reveal_strlit("presence");
    reveal_strlit("intents");
    reveal_strlit("shard");
    assert("token"@[0] == 't' && "token"@.len() == 5);
    assert("properties"@[0] == 'p' && "properties"@.len() == 10);
    assert("compress"@[0] == 'c');
    assert("large_threshold"@[0] == 'l');
    assert("presence"@[0] == 'p' && "presence"@.len() == 8);
    assert("intents"@[0] == 'i');
    assert("shard"@[0] == 's');
}

/// An identify envelope gives back the token, the intents and the shard
/// pair it was made from: directly, and after being written as JSON and
/// read again.
pub proof fn lemma_identify_round_trip(i: IdentifyView)
    ensures
        identify_summary_of(identify_envelope(i)) == Some((i.token, i.intents, i.shard)),
        identify_envelope(i).is_well_formed(),
        envelope_of_tree(envelope_tree(identify_envelope(i))) == Some(identify_envelope(i)),
{
    lemma_identify_keys();
    let m = identify_payload(i)->Record_0;
    assert(m.contains_key("token"@) && m["token"@] == JsonTree::Text(i.token));
    assert(m.contains_key("intents"@) && m["intents"@] == JsonTree::Number(Some(i.intents)));
    assert(optional_text(m, "token"@) == Some(Some(i.token)));
    assert(optional_number(m, "intents"@) == Some(Some(i.intents)));
    match i.shard {
        Some(pair) => {
            assert(m.contains_key("shard"@) && m["shard"@] == shard_tree(pair));
            assert(crate::json::pair_of(shard_tree(pair)) == Some(pair));
        },
        None => {
            assert(!m.contains_key("shard"@));
        },
    }
    assert(optional_pair(m, "shard"@) == Some(i.shard));
    lemma_envelope_round_trip(identify_envelope(i));
}

/// The smallest `large_threshold` that the gateway takes.
pub const LARGE_THRESHOLD_MIN: u8 = 50;

/// The largest `large_threshold` that the gateway takes.
pub const LARGE_THRESHOLD_MAX: u8 = 250;

/// Everything an identify envelope can say, each optional part by name.
#[derive(Clone, Debug, PartialEq)]
pub struct Identify {
    pub token: String,
    pub properties: IdentifyConnectionProperty,
    pub compress: Option<bool>,
    pub large_threshold: Option<u8>,
    pub shard: Option<(u64, u64)>,
    pub presence: Option<IValue>,
    pub intents: Option<u64>,
}

impl View for Identify {
    type V = IdentifyView;

    open spec fn view(&self) -> IdentifyView {
        IdentifyView {
            token: self.token@,
            os: self.properties.os@,
            browser: self.properties.browser@,
            device: self.properties.device@,
            compress: self.compress,
            large_threshold: self.large_threshold,
            shard: self.shard,
            presence: tree_of(self.presence),
            intents: match self.intents {
                Some(bits) => bits,
                None => 0,
            },
        }
    }
}

impl IdentifyView {
    /// What the gateway accepts: a large threshold from 50 to 250, and a
    /// shard id below the number of shards.
    pub open spec fn is_valid(self) -> bool {
        &&& self.large_threshold matches Some(n) ==> LARGE_THRESHOLD_MIN <= n <= LARGE_THRESHOLD_MAX
        &&& self.shard matches Some(pair) ==> pair.0 < pair.1
    }
}

impl Identify {
    /// Checks the configuration before it is sent: fails with
    /// [`GatewayError::InvalidIdentify`] exactly where it is not
    /// [valid](IdentifyView::is_valid).
    pub fn validate(&self) -> (r: Result<(), GatewayError>)
        ensures
            self@.is_valid() <==> r is Ok,
            r matches Err(e) ==> e == GatewayError::InvalidIdentify,
    {
        let threshold = match self.large_threshold {
            Some(n) => LARGE_THRESHOLD_MIN <= n && n <= LARGE_THRESHOLD_MAX,
            None => true,
        };
        let shard = match self.shard {
            Some((id, total)) => id < total,
            None => true,
        };
        if threshold && shard {
            Ok(())
        } else {
            Err(GatewayError::InvalidIdentify)
        }
    }

    /// The identify envelope of a valid configuration; a configuration that
    /// is not valid gives [`GatewayError::InvalidIdentify`] and no envelope.
    pub fn into_envelope(self) -> (r: Result<RawGatewayEvent, GatewayError>)
        ensures
            match r {
                Ok(envelope) => self@.is_valid() && envelope@ == identify_envelope(self@)
                    && envelope.spec_is_well_formed(),
                Err(e) => !self@.is_valid() && e == GatewayError::InvalidIdentify,
            },
    {
        match self.validate() {
            Err(e) => Err(e),
            Ok(()) => Ok(
                RawGatewayEvent::new_identify(
                    self.token.as_str(),
                    self.properties,
                    self.compress,
                    self.large_threshold,
                    self.shard,
                    self.presence,
                    self.intents,
                ),
            ),
        }
    }
}

} // verus!
