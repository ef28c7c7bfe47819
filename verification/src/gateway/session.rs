//! The session state machine.
//!
//! A [`Gateway`] owns no socket. The caller opens the transport, hands every
//! received envelope to [`Gateway::receive`], calls
//! [`Gateway::heartbeat_tick`] once per heartbeat period, and carries out
//! what comes back. Every transition is a total function of the state and
//! the input, written down in [`SessionState`].

use crate::error::{ErrorView, GatewayError};
use crate::gateway::event::{
    heartbeat_envelope, identify_envelope, EnvelopeView, IdentifyConnectionProperty, IdentifyView,
    RawGatewayEvent, OP_DISPATCH, OP_HELLO,
};
use crate::gateway::event_data::{event_of, EventView, GatewayEvent};
use crate::gateway::intents::Intents;
use crate::gateway::sharding::spec_shard_index;
use vstd::prelude::*;

verus! {

/// Close code of a normal closure.
pub const CLOSE_NORMAL: u16 = 1000;

/// Heartbeat period used where the greeting announced none.
pub const DEFAULT_HEARTBEAT_INTERVAL_MS: u64 = 5000;

/// Member count sent as `large_threshold` when identifying.
pub const LARGE_THRESHOLD: u8 = 50;

/// The phase of a session.
#[derive(Clone, Copy, Debug, PartialEq, Eq, Structural)]
pub enum Status {
    /// No transport yet.
    Disconnected,
    /// Transport open; waiting for the greeting, or for the identify
    /// envelope to go out.
    Handshaking,
    /// Identify sent.
    Authenticated,
    /// Heartbeats running, events flowing.
    Live,
    /// A close frame is on its way.
    Closing,
    /// Over. A closed session is never used again.
    Closed,
}

/// The close frame that ends a session.
#[derive(Clone, Debug, PartialEq, Eq)]
pub struct CloseFrame {
    pub code: u16,
    pub reason: String,
}

/// What the caller has to do after an envelope was received.
#[derive(Clone, Debug, PartialEq)]
pub enum Reaction {
    /// The greeting was accepted: send the identify envelope, then report
    /// it with [`Gateway::identified`].
    Identify,
    /// Hand this event to the consumer.
    Deliver(GatewayEvent),
    /// The server asked for a heartbeat: send this envelope right away.
    Heartbeat(RawGatewayEvent),
    /// A heartbeat acknowledgement was taken note of.
    Acknowledged,
    /// The envelope was dropped; the session goes on.
    Dropped(GatewayError),
    /// The session cannot go on.
    Fatal(GatewayError),
}

/// What the caller has to do after a heartbeat tick.
#[derive(Clone, Debug, PartialEq)]
pub enum Tick {
    /// Send this heartbeat envelope.
    Send(RawGatewayEvent),
    /// The previous heartbeat was never acknowledged: send this close
    /// frame, report [`GatewayError::LivenessTimeout`] and reconnect.
    TimedOut(CloseFrame),
    /// The session is not live: stop ticking.
    Idle,
}

/// A [`Reaction`] as the contracts see it.
pub enum ReactionView {
    Identify,
    Deliver(EventView),
    Heartbeat(EnvelopeView),
    Acknowledged,
    Dropped(ErrorView),
    Fatal(ErrorView),
}

/// A [`Tick`] as the contracts see it.
pub enum TickView {
    Send(EnvelopeView),
    TimedOut,
    Idle,
}

impl View for Reaction {
    type V = ReactionView;

    open spec fn view(&self) -> ReactionView {
        match *self {
            Reaction::Identify => ReactionView::Identify,
            Reaction::Deliver(ev) => ReactionView::Deliver(ev@),
            Reaction::Heartbeat(e) => ReactionView::Heartbeat(e@),
            Reaction::Acknowledged => ReactionView::Acknowledged,
            Reaction::Dropped(err) => ReactionView::Dropped(err@),
            Reaction::Fatal(err) => ReactionView::Fatal(err@),
        }
    }
}

impl Tick {
    /// The tick as a result: the heartbeat to send, if any, or
    /// [`GatewayError::LivenessTimeout`] where the session timed out.
    pub fn into_result(self) -> (r: Result<Option<RawGatewayEvent>, GatewayError>)
        ensures
            match self {
                Tick::Send(envelope) => r == Ok::<Option<RawGatewayEvent>, GatewayError>(
                    Some(envelope),
                ),
                Tick::Idle => r == Ok::<Option<RawGatewayEvent>, GatewayError>(None),
                Tick::TimedOut(_) => r == Err::<Option<RawGatewayEvent>, GatewayError>(
                    GatewayError::LivenessTimeout,
                ),
            },
    {
        match self {
            Tick::Send(envelope) => Ok(Some(envelope)),
            Tick::Idle => Ok(None),
            Tick::TimedOut(_) => Err(GatewayError::LivenessTimeout),
        }
    }
}

impl View for Tick {
    type V = TickView;

    open spec fn view(&self) -> TickView {
        match *self {
            Tick::Send(e) => TickView::Send(e@),
            Tick::TimedOut(_) => TickView::TimedOut,
            Tick::Idle => TickView::Idle,
        }
    }
}

/// The state of one session.
pub struct SessionState {
    pub phase: Status,
    pub heartbeat_interval_ms: Option<u64>,
    pub last_sequence: Option<u64>,
    pub shard: Option<(u64, u64)>,
    pub pending_heartbeat_ack: bool,
}

/// The resumption cursor after a dispatch envelope with sequence number
/// `sequence`: the larger of the two, so that the cursor never goes back.
pub open spec fn advance(last: Option<u64>, sequence: Option<u64>) -> Option<u64> {
    match (last, sequence) {
        (_, None) => last,
        (None, Some(s)) => Some(s),
        (Some(l), Some(s)) => if s >= l {
            Some(s)
        } else {
            Some(l)
        },
    }
}

impl SessionState {
    /// A fresh session: disconnected, nothing seen, nothing pending.
    pub open spec fn initial() -> SessionState {
        SessionState {
            phase: Status::Disconnected,
            heartbeat_interval_ms: None,
            last_sequence: None,
            shard: None,
            pending_heartbeat_ack: false,
        }
    }

    /// What holds of every state that a session can reach.
    pub open spec fn inv(self) -> bool {
        &&& (self.phase is Authenticated || self.phase is Live)
            ==> self.heartbeat_interval_ms is Some
        &&& self.phase is Disconnected ==> self.heartbeat_interval_ms is None
        &&& (self.phase is Disconnected || self.phase is Handshaking) ==> self.last_sequence is None
            && !self.pending_heartbeat_ack
        &&& self.phase is Authenticated ==> !self.pending_heartbeat_ack
        &&& self.shard matches Some(pair) ==> pair.0 < pair.1
    }

    /// Whether envelopes are taken in this phase.
    pub open spec fn is_receiving(self) -> bool {
        self.phase is Handshaking || self.phase is Authenticated || self.phase is Live
    }

    /// Whether the transport is still there to send on or read from.
    pub open spec fn is_connected(self) -> bool {
        self.is_receiving() || self.phase is Closing
    }

    /// Setting the shard pair, before connecting.
    pub open spec fn with_shard(self, guild_id: u64, total_shards: u64) -> Result<
        SessionState,
        GatewayError,
    > {
        if total_shards == 0 {
            Err(GatewayError::InvalidShardCount)
        } else if !(self.phase is Disconnected) {
            Err(GatewayError::InvalidPhase)
        } else {
            Ok(
                SessionState {
                    shard: Some((spec_shard_index(guild_id, total_shards), total_shards)),
                    ..self
                },
            )
        }
    }

    /// The transport was opened.
    pub open spec fn open(self) -> Result<SessionState, GatewayError> {
        if self.phase is Disconnected {
            Ok(SessionState { phase: Status::Handshaking, ..self })
        } else {
            Err(GatewayError::InvalidPhase)
        }
    }

    /// The identify envelope went out.
    pub open spec fn identified(self) -> Result<SessionState, GatewayError> {
        if self.phase is Handshaking && self.heartbeat_interval_ms is Some {
            Ok(SessionState { phase: Status::Authenticated, ..self })
        } else {
            Err(GatewayError::InvalidPhase)
        }
    }

    /// The heartbeat period of this session.
    pub open spec fn period(self) -> u64 {
        match self.heartbeat_interval_ms {
            Some(ms) => ms,
            None => DEFAULT_HEARTBEAT_INTERVAL_MS,
        }
    }

    /// Heartbeats and event delivery start.
    pub open spec fn run(self) -> Result<SessionState, GatewayError> {
        if self.phase is Authenticated {
            Ok(SessionState { phase: Status::Live, ..self })
        } else {
            Err(GatewayError::InvalidPhase)
        }
    }

    /// An envelope arrived during the handshake. Anything but a greeting
    /// ends the session; a greeting that cannot be read is dropped.
    pub open spec fn receive_handshaking(self, e: EnvelopeView) -> (SessionState, ReactionView) {
        if e.op != OP_HELLO {
            (
                SessionState { phase: Status::Closed, ..self },
                ReactionView::Fatal(ErrorView::UnexpectedHandshakeEvent { op: e.op }),
            )
        } else {
            match event_of(e) {
                Ok(EventView::Hello { heartbeat_interval }) => (
                    SessionState { heartbeat_interval_ms: Some(heartbeat_interval), ..self },
                    ReactionView::Identify,
                ),
                Ok(_) => (self, ReactionView::Dropped(ErrorView::MalformedPayload)),
                Err(err) => (self, ReactionView::Dropped(err)),
            }
        }
    }

    /// An envelope arrived after the handshake. A dispatch envelope moves
    /// the resumption cursor whether or not its payload can be read.
    pub open spec fn receive_established(self, e: EnvelopeView) -> (SessionState, ReactionView) {
        let tracked_state = if e.op == OP_DISPATCH {
            SessionState { last_sequence: advance(self.last_sequence, e.sequence), ..self }
        } else {
            self
        };
        match event_of(e) {
            Ok(EventView::Hello { .. }) => (self, ReactionView::Dropped(ErrorView::InvalidPhase)),
            Ok(EventView::Heartbeat) => (
                self,
                ReactionView::Heartbeat(heartbeat_envelope(self.last_sequence)),
            ),
            Ok(EventView::HeartbeatAcknowledgement) => (
                SessionState { pending_heartbeat_ack: false, ..self },
                ReactionView::Acknowledged,
            ),
            Ok(ev) => (tracked_state, ReactionView::Deliver(ev)),
            Err(err) => (tracked_state, ReactionView::Dropped(err)),
        }
    }

    /// An envelope arrived.
    pub open spec fn receive(self, e: EnvelopeView) -> (SessionState, ReactionView) {
        match self.phase {
            Status::Handshaking => self.receive_handshaking(e),
            Status::Authenticated | Status::Live => self.receive_established(e),
            _ => (self, ReactionView::Fatal(ErrorView::AlreadyDisconnected)),
        }
    }

    /// A heartbeat period has passed.
    pub open spec fn tick(self) -> (SessionState, TickView) {
        if !(self.phase is Live) {
            (self, TickView::Idle)
        } else if self.pending_heartbeat_ack {
            (SessionState { phase: Status::Closing, ..self }, TickView::TimedOut)
        } else {
            (
                SessionState { pending_heartbeat_ack: true, ..self },
                TickView::Send(heartbeat_envelope(self.last_sequence)),
            )
        }
    }

    /// The caller asked to disconnect.
    pub open spec fn disconnect(self) -> Result<SessionState, GatewayError> {
        if self.is_receiving() {
            Ok(SessionState { phase: Status::Closing, ..self })
        } else {
            Err(GatewayError::AlreadyDisconnected)
        }
    }

    /// The close frame went out, or the wait for it ran out.
    pub open spec fn finish_close(self) -> SessionState {
        if self.phase is Closing {
            SessionState { phase: Status::Closed, ..self }
        } else {
            self
        }
    }

    /// The transport failed. A live session still tries to say goodbye;
    /// every other one is closed on the spot.
    pub open spec fn fail(self) -> SessionState {
        if self.phase is Live {
            SessionState { phase: Status::Closing, ..self }
        } else {
            SessionState { phase: Status::Closed, ..self }
        }
    }

    /// Receiving a run of envelopes one after another: the state at the
    /// end, and the reactions in the order of arrival.
    pub open spec fn receive_all(self, envelopes: Seq<EnvelopeView>) -> (
        SessionState,
        Seq<ReactionView>,
    )
        decreases envelopes.len(),
    {
        if envelopes.len() == 0 {
            (self, Seq::empty())
        } else {
            let before = self.receive_all(envelopes.drop_last());
            let step = before.0.receive(envelopes.last());
            (step.0, before.1.push(step.1))
        }
    }
}

/// One session with the gateway.
#[derive(Clone, Copy, Debug, PartialEq, Eq)]
pub struct Gateway {
    status: Status,
    heartbeat_interval: Option<u64>,
    sharding: Option<(u64, u64)>,
    last_sequence_number: Option<u64>,
    pending_heartbeat_ack: bool,
}

impl View for Gateway {
    type V = SessionState;

    closed spec fn view(&self) -> SessionState {
        SessionState {
            phase: self.status,
            heartbeat_interval_ms: self.heartbeat_interval,
            last_sequence: self.last_sequence_number,
            shard: self.sharding,
            pending_heartbeat_ack: self.pending_heartbeat_ack,
        }
    }
}

/// The close frame of a normal closure.
pub fn normal_closure() -> (r: CloseFrame)
    ensures
        r.code == CLOSE_NORMAL,
        r.reason@ == "Disconnected"@,
{
    CloseFrame { code: CLOSE_NORMAL, reason: String::from_str("Disconnected") }
}

impl Gateway {
    /// A session that has not connected yet.
    pub fn new() -> (r: Gateway)
        ensures
            r@ == SessionState::initial(),
            r@.inv(),
    {
        Gateway {
            status: Status::Disconnected,
            heartbeat_interval: None,
            sharding: None,
            last_sequence_number: None,
            pending_heartbeat_ack: false,
        }
    }

    /// The phase the session is in.
    pub fn status(&self) -> (r: Status)
        ensures
            r == self@.phase,
    {
        self.status
    }

    /// The heartbeat period that the greeting announced, in milliseconds.
    pub fn heartbeat_interval(&self) -> (r: Option<u64>)
        ensures
            r == self@.heartbeat_interval_ms,
    {
        self.heartbeat_interval
    }

    /// The shard pair `(shard_id, num_shards)`, if the session is sharded.
    pub fn sharding(&self) -> (r: Option<(u64, u64)>)
        ensures
            r == self@.shard,
    {
        self.sharding
    }

    /// The sequence number of the last dispatch envelope: the cursor from
    /// which a later session can resume.
    pub fn last_sequence_number(&self) -> (r: Option<u64>)
        ensures
            r == self@.last_sequence,
    {
        self.last_sequence_number
    }

    /// Whether a scheduled heartbeat is still waiting for its
    /// acknowledgement.
    pub fn pending_heartbeat_ack(&self) -> (r: bool)
        ensures
            r == self@.pending_heartbeat_ack,
    {
        self.pending_heartbeat_ack
    }

    /// Sets the shard pair from a guild id and the number of shards.
    ///
    /// Fails with [`GatewayError::InvalidShardCount`] for zero shards, and
    /// with [`GatewayError::InvalidPhase`] once the session has connected.
    pub fn with_guild_sharding(self, guild_id: u64, total_shards: u64) -> (r: Result<
        Gateway,
        GatewayError,
    >)
        ensures
            match self@.with_shard(guild_id, total_shards) {
                Ok(s) => r matches Ok(g) && g@ == s && (self@.inv() ==> g@.inv()),
                Err(e) => r == Err::<Gateway, GatewayError>(e),
            },
    {
        if total_shards == 0 {
            Err(GatewayError::InvalidShardCount)
        } else if self.status != Status::Disconnected {
            Err(GatewayError::InvalidPhase)
        } else {
            let pair = crate::gateway::sharding::get_sharding(guild_id, total_shards);
            Ok(Gateway { sharding: Some(pair), ..self })
        }
    }

    /// Reports that the transport was opened: the handshake begins.
    pub fn open(&mut self) -> (r: Result<(), GatewayError>)
        ensures
            old(self)@.inv() ==> final(self)@.inv(),
            match old(self)@.open() {
                Ok(s) => r is Ok && final(self)@ == s,
                Err(e) => r == Err::<(), GatewayError>(e) && final(self)@ == old(self)@,
            },
    {
        if self.status == Status::Disconnected {
            self.status = Status::Handshaking;
            Ok(())
        } else {
            Err(GatewayError::InvalidPhase)
        }
    }

    /// Takes one envelope in and says what to do about it:
    /// [`SessionState::receive`], step by step.
    pub fn receive(&mut self, envelope: &RawGatewayEvent) -> (r: Reaction)
        ensures
            old(self)@.inv() ==> final(self)@.inv(),
            final(self)@ == old(self)@.receive(envelope@).0,
            r@ == old(self)@.receive(envelope@).1,
    {
        match self.status {
            Status::Handshaking => {
                if envelope.op_code != OP_HELLO {
                    self.status = Status::Closed;
                    Reaction::Fatal(
                        GatewayError::UnexpectedHandshakeEvent { op: envelope.op_code },
                    )
                } else {
                    match envelope.get_event_data() {
                        Ok(GatewayEvent::Hello(hello)) => {
                            self.heartbeat_interval = Some(hello.heartbeat_interval);
                            Reaction::Identify
                        },
                        Ok(_) => Reaction::Dropped(GatewayError::MalformedPayload),
                        Err(err) => Reaction::Dropped(err),
                    }
                }
            },
            Status::Authenticated | Status::Live => {
                let last = self.last_sequence_number;
                let next = if envelope.op_code == OP_DISPATCH {
                    match (last, envelope.sequence) {
                        (_, None) => last,
                        (None, Some(s)) => Some(s),
                        (Some(l), Some(s)) => if s >= l {
                            Some(s)
                        } else {
                            Some(l)
                        },
                    }
                } else {
                    last
                };
                match envelope.get_event_data() {
                    Ok(GatewayEvent::Hello(_)) => Reaction::Dropped(GatewayError::InvalidPhase),
                    Ok(GatewayEvent::Heartbeat) => Reaction::Heartbeat(
                        RawGatewayEvent::new_heartbeat(last),
                    ),
                    Ok(GatewayEvent::HeartbeatAcknowledgement) => {
                        self.pending_heartbeat_ack = false;
                        Reaction::Acknowledged
                    },
                    Ok(ev) => {
                        self.last_sequence_number = next;
                        Reaction::Deliver(ev)
                    },
                    Err(err) => {
                        self.last_sequence_number = next;
                        Reaction::Dropped(err)
                    },
                }
            },
            _ => Reaction::Fatal(GatewayError::AlreadyDisconnected),
        }
    }

    /// The identify envelope of this session: the token, fixed client
    /// properties, no compression, a large threshold of 50, the session's
    /// shard pair if it has one, no presence, and the intents.
    pub fn authenticate(&self, token: &str, intents: Option<Intents>) -> (r: RawGatewayEvent)
        ensures
            r@ == identify_envelope(
                IdentifyView {
                    token: token@,
                    os: "linux"@,
                    browser: "rust"@,
                    device: "rust"@,
                    compress: Some(false),
                    large_threshold: Some(LARGE_THRESHOLD),
                    shard: self@.shard,
                    presence: None,
                    intents: match intents {
                        Some(i) => i.bits(),
                        None => 0,
                    },
                },
            ),
            r.spec_is_well_formed(),
    {
        let properties = IdentifyConnectionProperty {
            os: String::from_str("linux"),
            browser: String::from_str("rust"),
            device: String::from_str("rust"),
        };
        let bits = match intents {
            Some(i) => Some(i.bits()),
            None => None,
        };
        RawGatewayEvent::new_identify(
            token,
            properties,
            Some(false),
            Some(LARGE_THRESHOLD),
            self.sharding,
            None,
            bits,
        )
    }

    /// Reports that the identify envelope went out.
    pub fn identified(&mut self) -> (r: Result<(), GatewayError>)
        ensures
            old(self)@.inv() ==> final(self)@.inv(),
            match old(self)@.identified() {
                Ok(s) => r is Ok && final(self)@ == s,
                Err(e) => r == Err::<(), GatewayError>(e) && final(self)@ == old(self)@,
            },
    {
        if self.status == Status::Handshaking && self.heartbeat_interval.is_some() {
            self.status = Status::Authenticated;
            Ok(())
        } else {
            Err(GatewayError::InvalidPhase)
        }
    }

    /// Goes live and hands back the heartbeat period in milliseconds, at
    /// which the caller is to call [`Gateway::heartbeat_tick`].
    pub fn run(&mut self) -> (r: Result<u64, GatewayError>)
        ensures
            old(self)@.inv() ==> final(self)@.inv(),
            match old(self)@.run() {
                Ok(s) => r == Ok::<u64, GatewayError>(old(self)@.period()) && final(self)@ == s,
                Err(e) => r == Err::<u64, GatewayError>(e) && final(self)@ == old(self)@,
            },
    {
        if self.status == Status::Authenticated {
            self.status = Status::Live;
            Ok(
                match self.heartbeat_interval {
                    Some(ms) => ms,
                    None => DEFAULT_HEARTBEAT_INTERVAL_MS,
                },
            )
        } else {
            Err(GatewayError::InvalidPhase)
        }
    }

    /// The heartbeat envelope for the current resumption cursor.
    pub fn heartbeat(&self) -> (r: RawGatewayEvent)
        ensures
            r@ == heartbeat_envelope(self@.last_sequence),
            r.spec_is_well_formed(),
    {
        RawGatewayEvent::new_heartbeat(self.last_sequence_number)
    }

    /// One tick of the heartbeat schedule: [`SessionState::tick`].
    ///
    /// A live session whose last scheduled heartbeat was acknowledged sends
    /// the next one. One whose last heartbeat is still unacknowledged has
    /// lost its peer: it starts closing and sends nothing more.
    pub fn heartbeat_tick(&mut self) -> (r: Tick)
        ensures
            old(self)@.inv() ==> final(self)@.inv(),
            final(self)@ == old(self)@.tick().0,
            r@ == old(self)@.tick().1,
            r matches Tick::TimedOut(close) ==> close.code == CLOSE_NORMAL,
    {
        if self.status != Status::Live {
            Tick::Idle
        } else if self.pending_heartbeat_ack {
            self.status = Status::Closing;
            Tick::TimedOut(normal_closure())
        } else {
            self.pending_heartbeat_ack = true;
            Tick::Send(RawGatewayEvent::new_heartbeat(self.last_sequence_number))
        }
    }

    /// Starts closing the session and hands back the close frame to send.
    ///
    /// Fails with [`GatewayError::AlreadyDisconnected`] where there is
    /// nothing to close: before connecting, while closing, and once closed.
    pub fn disconnect(&mut self) -> (r: Result<CloseFrame, GatewayError>)
        ensures
            old(self)@.inv() ==> final(self)@.inv(),
            match old(self)@.disconnect() {
                Ok(s) => r matches Ok(close) && close.code == CLOSE_NORMAL && close.reason@
                    == "Disconnected"@ && final(self)@ == s,
                Err(e) => r == Err::<CloseFrame, GatewayError>(e) && final(self)@ == old(self)@,
            },
    {
        match self.status {
            Status::Handshaking | Status::Authenticated | Status::Live => {
                self.status = Status::Closing;
                Ok(normal_closure())
            },
            _ => Err(GatewayError::AlreadyDisconnected),
        }
    }

    /// Reports that the close frame went out or that the wait for it ran
    /// out: a closing session is closed either way.
    pub fn finish_close(&mut self)
        ensures
            old(self)@.inv() ==> final(self)@.inv(),
            final(self)@ == old(self)@.finish_close(),
    {
        if self.status == Status::Closing {
            self.status = Status::Closed;
        }
    }

    /// Reports a transport failure. A live session starts closing and gets
    /// the close frame to try; any other session is closed.
    pub fn fail(&mut self) -> (r: Option<CloseFrame>)
        ensures
            old(self)@.inv() ==> final(self)@.inv(),
            final(self)@ == old(self)@.fail(),
            old(self)@.phase is Live <==> r is Some,
            r matches Some(close) ==> close.code == CLOSE_NORMAL,
    {
        if self.status == Status::Live {
            self.status = Status::Closing;
            Some(normal_closure())
        } else {
            self.status = Status::Closed;
            None
        }
    }

    /// Whether the transport may be used: fails with
    /// [`GatewayError::AlreadyDisconnected`] before connecting and once
    /// closed.
    pub fn ensure_connected(&self) -> (r: Result<(), GatewayError>)
        ensures
            self@.is_connected() ==> r is Ok,
            !self@.is_connected() ==> r == Err::<(), GatewayError>(
                GatewayError::AlreadyDisconnected,
            ),
    {
        match self.status {
            Status::Disconnected | Status::Closed => Err(GatewayError::AlreadyDisconnected),
            _ => Ok(()),
        }
    }
}

/// A fraction in `[0, 1)`: the part of the first heartbeat period that a
/// session waits before its first heartbeat, so that sessions started
/// together do not beat together.
#[derive(Clone, Copy, Debug, PartialEq, Eq)]
pub struct Jitter {
    numerator: u32,
    denominator: u32,
}

impl Jitter {
    /// The fraction is below one.
    #[verifier::type_invariant]
    closed spec fn below_one(self) -> bool {
        self.numerator < self.denominator
    }

    pub closed spec fn spec_numerator(self) -> u32 {
        self.numerator
    }

    pub closed spec fn spec_denominator(self) -> u32 {
        self.denominator
    }

    /// The fraction `numerator / denominator`, or `None` where that is not
    /// below one (a denominator of zero included).
    pub fn new(numerator: u32, denominator: u32) -> (r: Option<Jitter>)
        ensures
            numerator < denominator <==> r is Some,
            r matches Some(j) ==> j.spec_numerator() == numerator && j.spec_denominator()
                == denominator,
    {
        if numerator < denominator {
            Some(Jitter { numerator, denominator })
        } else {
            None
        }
    }

    /// No jitter: the first heartbeat goes out at once.
    pub fn none() -> (r: Jitter)
        ensures
            r.spec_numerator() == 0,
            r.spec_denominator() == 1,
    {
        Jitter { numerator: 0, denominator: 1 }
    }

    /// The fraction that a uniformly drawn 32-bit number stands for when
    /// it is read in steps of a millionth: `(sample mod 1000000) / 1000000`.
    pub fn from_sample(sample: u32) -> (r: Jitter)
        ensures
            r.spec_numerator() == sample % 1000000,
            r.spec_denominator() == 1000000,
    {
        Jitter { numerator: sample % 1000000, denominator: 1000000 }
    }

    #[verifier::when_used_as_spec(spec_numerator)]
    pub fn numerator(self) -> (r: u32)
        ensures
            r == self.spec_numerator(),
            r < self.spec_denominator(),
    {
        proof {
            use_type_invariant(&self);
        }
        self.numerator
    }

    #[verifier::when_used_as_spec(spec_denominator)]
    pub fn denominator(self) -> (r: u32)
        ensures
            r == self.spec_denominator(),
            r > self.spec_numerator(),
    {
        proof {
            use_type_invariant(&self);
        }
        self.denominator
    }
}

/// How long to wait before the first heartbeat, in milliseconds: the
/// jitter's fraction of the heartbeat period, rounded down. It is always
/// short of a full period.
pub fn first_heartbeat_delay(interval_ms: u64, jitter: Jitter) -> (r: u64)
    ensures
        r == (interval_ms as int * jitter.numerator() as int) / (jitter.denominator() as int),
        r <= interval_ms,
        interval_ms > 0 ==> r < interval_ms,
{
    let n = jitter.numerator();
    let d = jitter.denominator();
    assert(interval_ms as int * n as int <= 0xffff_ffff_ffff_ffff * 0xffff_ffff) by (nonlinear_arith)
        requires
            0 <= interval_ms as int <= 0xffff_ffff_ffff_ffff,
            0 <= n as int <= 0xffff_ffff,
    ;
    let product: u128 = interval_ms as u128 * n as u128;
    proof {
        let i = interval_ms as int;
        assert(i * (n as int) <= i * (d as int - 1)) by (nonlinear_arith)
            requires
                0 <= i,
                0 <= (n as int) <= (d as int) - 1,
        ;
        assert(i * (d as int - 1) == i * (d as int) - i) by (nonlinear_arith);
        assert((i * (d as int) - i) / (d as int) <= i && (i > 0 ==> (i * (d as int) - i) / (
        d as int) < i)) by (nonlinear_arith)
            requires
                0 <= i,
                d as int >= 1,
        ;
        assert((i * (n as int)) / (d as int) <= (i * (d as int) - i) / (d as int))
            by (nonlinear_arith)
            requires
                i * (n as int) <= i * (d as int) - i,
                d as int >= 1,
        ;
    }
    (product / (d as u128)) as u64
}

} // verus!
