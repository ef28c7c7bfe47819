//! A session together with its credentials and its event feed.

use crate::error::{ErrorView, GatewayError};
use crate::gateway::event::{
    frame_envelope, identify_envelope, EnvelopeView, Frame, IdentifyView, RawGatewayEvent,
};
use crate::gateway::event_data::{event_of, EventView, GatewayEvent};
use crate::gateway::feed::{published, EventFeed};
use crate::gateway::intents::Intents;
use crate::gateway::laws::{cursor_le, is_dispatch_run};
use crate::gateway::session::{
    CloseFrame, Gateway, Reaction, ReactionView, SessionState, Tick, CLOSE_NORMAL, LARGE_THRESHOLD,
};
use vstd::prelude::*;

verus! {

/// What the caller has to do after a frame was handled.
#[derive(Clone, Debug, PartialEq)]
pub enum Outcome {
    /// Send this envelope. Where it is the identify envelope, report its
    /// departure with [`Client::identified`].
    Send(RawGatewayEvent),
    /// An event was appended to the feed.
    Published,
    /// Nothing to do.
    Nothing,
    /// The frame was dropped; the session goes on.
    Report(GatewayError),
    /// The session cannot go on.
    Fatal(GatewayError),
}

/// An [`Outcome`] as the contracts see it.
pub enum OutcomeView {
    Send(EnvelopeView),
    Published,
    Nothing,
    Report(ErrorView),
    Fatal(ErrorView),
}

impl View for Outcome {
    type V = OutcomeView;

    open spec fn view(&self) -> OutcomeView {
        match *self {
            Outcome::Send(e) => OutcomeView::Send(e@),
            Outcome::Published => OutcomeView::Published,
            Outcome::Nothing => OutcomeView::Nothing,
            Outcome::Report(err) => OutcomeView::Report(err@),
            Outcome::Fatal(err) => OutcomeView::Fatal(err@),
        }
    }
}

/// The state of a client.
pub struct ClientState {
    pub session: SessionState,
    pub token: Seq<char>,
    pub intents: Option<Intents>,
    pub feed: Seq<EventView>,
    pub capacity: Option<usize>,
}

/// The identify envelope that a session sends for a token and intents.
pub open spec fn session_identify(
    session: SessionState,
    token: Seq<char>,
    intents: Option<Intents>,
) -> EnvelopeView {
    identify_envelope(
        IdentifyView {
            token,
            os: "linux"@,
            browser: "rust"@,
            device: "rust"@,
            compress: Some(false),
            large_threshold: Some(LARGE_THRESHOLD),
            shard: session.shard,
            presence: None,
            intents: match intents {
                Some(i) => i.bits(),
                None => 0,
            },
        },
    )
}

impl ClientState {
    /// An envelope arrived: the session reacts, a delivered event goes to
    /// the end of the feed, and an envelope to send is handed out.
    pub open spec fn receive(self, e: EnvelopeView) -> (ClientState, OutcomeView) {
        let step = self.session.receive(e);
        let moved = ClientState { session: step.0, ..self };
        match step.1 {
            ReactionView::Identify => (
                moved,
                OutcomeView::Send(session_identify(step.0, self.token, self.intents)),
            ),
            ReactionView::Deliver(ev) => (
                ClientState { feed: published(self.feed, self.capacity, ev), ..moved },
                OutcomeView::Published,
            ),
            ReactionView::Heartbeat(envelope) => (moved, OutcomeView::Send(envelope)),
            ReactionView::Acknowledged => (moved, OutcomeView::Nothing),
            ReactionView::Dropped(err) => (moved, OutcomeView::Report(err)),
            ReactionView::Fatal(err) => (moved, OutcomeView::Fatal(err)),
        }
    }

    /// A frame arrived. One that carries no envelope is reported and
    /// changes nothing.
    pub open spec fn handle(self, frame: Frame) -> (ClientState, OutcomeView) {
        match frame_envelope(frame) {
            Ok(e) => self.receive(e),
            Err(err) => (self, OutcomeView::Report(err@)),
        }
    }

    /// A run of envelopes arrived, one after another.
    pub open spec fn receive_all(self, envelopes: Seq<EnvelopeView>) -> ClientState
        decreases envelopes.len(),
    {
        if envelopes.len() == 0 {
            self
        } else {
            self.receive_all(envelopes.drop_last()).receive(envelopes.last()).0
        }
    }
}

/// A gateway client: one [`Gateway`] session, the token and intents it
/// identifies with, and the feed its events are published on.
#[derive(Debug)]
pub struct Client {
    gateway: Gateway,
    token: String,
    intents: Option<Intents>,
    feed: EventFeed,
}

impl View for Client {
    type V = ClientState;

    closed spec fn view(&self) -> ClientState {
        ClientState {
            session: self.gateway@,
            token: self.token@,
            intents: self.intents,
            feed: self.feed@,
            capacity: self.feed.spec_capacity(),
        }
    }
}

impl Client {
    /// The feed is within its capacity.
    pub closed spec fn wf(&self) -> bool {
        self.feed.wf()
    }

    /// A client that has not connected yet, with an unbounded feed.
    pub fn new(token: &str, intents: Option<Intents>) -> (r: Client)
        ensures
            r.wf(),
            r@ == (ClientState {
                session: SessionState::initial(),
                token: token@,
                intents,
                feed: Seq::<EventView>::empty(),
                capacity: None,
            }),
    {
        Client {
            gateway: Gateway::new(),
            token: String::from_str(token),
            intents,
            feed: EventFeed::unbounded(),
        }
    }

    /// Replaces the feed, and with it the back-pressure policy. Events
    /// that wait in the old feed are lost, so this belongs before
    /// [`Client::connect`].
    pub fn with_feed(self, feed: EventFeed) -> (r: Client)
        requires
            feed.wf(),
        ensures
            r.wf(),
            r@ == (ClientState { feed: feed@, capacity: feed.spec_capacity(), ..self@ }),
    {
        Client { gateway: self.gateway, token: self.token, intents: self.intents, feed }
    }

    /// Sets the shard pair of the session, as
    /// [`Gateway::with_guild_sharding`] does.
    pub fn with_guild_sharding(self, guild_id: u64, total_shards: u64) -> (r: Result<
        Client,
        GatewayError,
    >)
        requires
            self.wf(),
        ensures
            match self@.session.with_shard(guild_id, total_shards) {
                Ok(s) => r matches Ok(c) && c.wf() && c@ == (ClientState { session: s, ..self@ }),
                Err(e) => r matches Err(x) && x == e,
            },
    {
        match self.gateway.with_guild_sharding(guild_id, total_shards) {
            Ok(gateway) => Ok(
                Client { gateway, token: self.token, intents: self.intents, feed: self.feed },
            ),
            Err(e) => Err(e),
        }
    }

    /// The session.
    pub fn gateway(&self) -> (r: &Gateway)
        ensures
            r@ == self@.session,
    {
        &self.gateway
    }

    /// How many events wait in the feed.
    pub fn pending_events(&self) -> (r: usize)
        ensures
            r == self@.feed.len(),
    {
        self.feed.len()
    }

    /// Reports that the transport was opened: the handshake begins.
    pub fn connect(&mut self) -> (r: Result<(), GatewayError>)
        requires
            old(self).wf(),
        ensures
            final(self).wf(),
            match old(self)@.session.open() {
                Ok(s) => r is Ok && final(self)@ == (ClientState { session: s, ..old(self)@ }),
                Err(e) => r == Err::<(), GatewayError>(e) && final(self)@ == old(self)@,
            },
    {
        self.gateway.open()
    }

    /// Takes one envelope in: [`ClientState::receive`].
    pub fn receive(&mut self, envelope: &RawGatewayEvent) -> (r: Outcome)
        requires
            old(self).wf(),
        ensures
            final(self).wf(),
            final(self)@ == old(self)@.receive(envelope@).0,
            r@ == old(self)@.receive(envelope@).1,
    {
        match self.gateway.receive(envelope) {
            Reaction::Identify => {
                let intents = self.intents;
                Outcome::Send(self.gateway.authenticate(self.token.as_str(), intents))
            },
            Reaction::Deliver(ev) => {
                let _ = self.feed.publish(ev);
                Outcome::Published
            },
            Reaction::Heartbeat(reply) => Outcome::Send(reply),
            Reaction::Acknowledged => Outcome::Nothing,
            Reaction::Dropped(err) => Outcome::Report(err),
            Reaction::Fatal(err) => Outcome::Fatal(err),
        }
    }

    /// Takes one frame in: [`ClientState::handle`].
    pub fn handle(&mut self, frame: &Frame) -> (r: Outcome)
        requires
            old(self).wf(),
        ensures
            final(self).wf(),
            final(self)@ == old(self)@.handle(*frame).0,
            r@ == old(self)@.handle(*frame).1,
    {
        match RawGatewayEvent::from_frame(frame) {
            Ok(envelope) => self.receive(&envelope),
            Err(err) => Outcome::Report(err),
        }
    }

    /// Reports that the identify envelope went out.
    pub fn identified(&mut self) -> (r: Result<(), GatewayError>)
        requires
            old(self).wf(),
        ensures
            final(self).wf(),
            match old(self)@.session.identified() {
                Ok(s) => r is Ok && final(self)@ == (ClientState { session: s, ..old(self)@ }),
                Err(e) => r == Err::<(), GatewayError>(e) && final(self)@ == old(self)@,
            },
    {
        self.gateway.identified()
    }

    /// Goes live and hands back the heartbeat period in milliseconds.
    pub fn run(&mut self) -> (r: Result<u64, GatewayError>)
        requires
            old(self).wf(),
        ensures
            final(self).wf(),
            match old(self)@.session.run() {
                Ok(s) => r == Ok::<u64, GatewayError>(old(self)@.session.period()) && final(self)@
                    == (ClientState { session: s, ..old(self)@ }),
                Err(e) => r == Err::<u64, GatewayError>(e) && final(self)@ == old(self)@,
            },
    {
        self.gateway.run()
    }

    /// One tick of the heartbeat schedule.
    pub fn heartbeat_tick(&mut self) -> (r: Tick)
        requires
            old(self).wf(),
        ensures
            final(self).wf(),
            final(self)@ == (ClientState { session: old(self)@.session.tick().0, ..old(self)@ }),
            r@ == old(self)@.session.tick().1,
            r matches Tick::TimedOut(close) ==> close.code == CLOSE_NORMAL,
    {
        self.gateway.heartbeat_tick()
    }

    /// The oldest event that waits in the feed, or
    /// [`GatewayError::NoData`] where none does.
    pub fn next(&mut self) -> (r: Result<GatewayEvent, GatewayError>)
        requires
            old(self).wf(),
        ensures
            final(self).wf(),
            match r {
                Ok(ev) => old(self)@.feed.len() > 0 && ev@ == old(self)@.feed[0] && final(self)@
                    == (ClientState { feed: old(self)@.feed.drop_first(), ..old(self)@ }),
                Err(e) => e == GatewayError::NoData && old(self)@.feed.len() == 0 && final(self)@
                    == old(self)@,
            },
    {
        self.feed.next_event()
    }

    /// Starts closing the session and hands back the close frame to send.
    pub fn disconnect(&mut self) -> (r: Result<CloseFrame, GatewayError>)
        requires
            old(self).wf(),
        ensures
            final(self).wf(),
            match old(self)@.session.disconnect() {
                Ok(s) => r matches Ok(close) && close.code == CLOSE_NORMAL && final(self)@ == (
                ClientState { session: s, ..old(self)@ }),
                Err(e) => r == Err::<CloseFrame, GatewayError>(e) && final(self)@ == old(self)@,
            },
    {
        self.gateway.disconnect()
    }

    /// Reports that the close frame went out or that the wait for it ran
    /// out.
    pub fn finish_close(&mut self)
        requires
            old(self).wf(),
        ensures
            final(self).wf(),
            final(self)@ == (ClientState {
                session: old(self)@.session.finish_close(),
                ..old(self)@
            }),
    {
        self.gateway.finish_close()
    }

    /// Reports a transport failure.
    pub fn fail(&mut self) -> (r: Option<CloseFrame>)
        requires
            old(self).wf(),
        ensures
            final(self).wf(),
            final(self)@ == (ClientState { session: old(self)@.session.fail(), ..old(self)@ }),
            old(self)@.session.phase is Live <==> r is Some,
    {
        self.gateway.fail()
    }
}

/// The events of a run of dispatch envelopes, in the order of arrival.
pub open spec fn events_of(envelopes: Seq<EnvelopeView>) -> Seq<EventView> {
    Seq::new(envelopes.len(), |i: int| event_of(envelopes[i])->Ok_0)
}

/// After a run of dispatch envelopes with increasing sequence numbers, an
/// unbounded feed has grown by exactly their events, in the order of
/// arrival, and the cursor is the last sequence number.
pub proof fn lemma_feed_keeps_arrival_order(c: ClientState, envelopes: Seq<EnvelopeView>)
    requires
        c.session.phase is Live || c.session.phase is Authenticated,
        c.capacity is None,
        is_dispatch_run(envelopes),
        envelopes.len() > 0 ==> cursor_le(c.session.last_sequence, envelopes[0].sequence),
    ensures
        c.receive_all(envelopes).feed == c.feed + events_of(envelopes),
        c.receive_all(envelopes).session == c.session.receive_all(envelopes).0,
        c.receive_all(envelopes).capacity is None,
        envelopes.len() > 0 ==> c.receive_all(envelopes).session.last_sequence
            == envelopes.last().sequence,
    decreases envelopes.len(),
{
    if envelopes.len() == 0 {
        assert(c.feed + events_of(envelopes) =~= c.feed);
    } else {
        let front = envelopes.drop_last();
        let e = envelopes.last();
        assert(is_dispatch_run(front)) by {
            assert forall|i: int| 0 <= i < front.len() implies (#[trigger] front[i]).op
                == crate::gateway::event::OP_DISPATCH && event_of(front[i]) is Ok
                && front[i].sequence is Some by {
                assert(front[i] == envelopes[i]);
            }
            assert forall|i: int, j: int| 0 <= i < j < front.len() implies (
            #[trigger] front[i]).sequence->Some_0 < (#[trigger] front[j]).sequence->Some_0 by {
                assert(front[i] == envelopes[i] && front[j] == envelopes[j]);
            }
        }
        if front.len() > 0 {
            assert(front[0] == envelopes[0]);
        }
        lemma_feed_keeps_arrival_order(c, front);
        crate::gateway::laws::lemma_dispatch_run(c.session, front);
        crate::gateway::laws::lemma_dispatch_run(c.session, envelopes);
        let before = c.receive_all(front);
        assert(e == envelopes[envelopes.len() - 1]);
        let step = before.session.receive(e);
        assert(c.session.receive_all(envelopes).1[envelopes.len() - 1] == step.1);
        assert(step.1 == ReactionView::Deliver(event_of(e)->Ok_0));
        assert(events_of(envelopes) =~= events_of(front).push(event_of(e)->Ok_0)) by {
            assert forall|i: int| 0 <= i < front.len() implies events_of(front)[i] == events_of(
                envelopes,
            )[i] by {
                assert(front[i] == envelopes[i]);
            }
        }
        assert(c.feed + events_of(envelopes) =~= (c.feed + events_of(front)).push(
            event_of(e)->Ok_0,
        ));
    }
}

} // verus!
