//! What holds of every session, proved over [`SessionState`].

use crate::error::ErrorView;
use crate::gateway::event::{EnvelopeView, OP_DISPATCH, OP_HEARTBEAT_ACK, OP_HELLO};
use crate::gateway::event_data::{event_of, EventView};
use crate::gateway::session::{ReactionView, SessionState, TickView};
use vstd::prelude::*;

verus! {

/// Everything that can happen to a session.
pub enum Input {
    Shard { guild_id: u64, total_shards: u64 },
    Open,
    Receive(EnvelopeView),
    Identified,
    Run,
    Tick,
    Disconnect,
    FinishClose,
    Fail,
}

/// The state after one input. An input that is refused leaves the state as
/// it was.
pub open spec fn apply(s: SessionState, input: Input) -> SessionState {
    match input {
        Input::Shard { guild_id, total_shards } => match s.with_shard(guild_id, total_shards) {
            Ok(next) => next,
            Err(_) => s,
        },
        Input::Open => match s.open() {
            Ok(next) => next,
            Err(_) => s,
        },
        Input::Receive(e) => s.receive(e).0,
        Input::Identified => match s.identified() {
            Ok(next) => next,
            Err(_) => s,
        },
        Input::Run => match s.run() {
            Ok(next) => next,
            Err(_) => s,
        },
        Input::Tick => s.tick().0,
        Input::Disconnect => match s.disconnect() {
            Ok(next) => next,
            Err(_) => s,
        },
        Input::FinishClose => s.finish_close(),
        Input::Fail => s.fail(),
    }
}

/// The state after a run of inputs.
pub open spec fn apply_all(s: SessionState, inputs: Seq<Input>) -> SessionState
    decreases inputs.len(),
{
    if inputs.len() == 0 {
        s
    } else {
        apply(apply_all(s, inputs.drop_last()), inputs.last())
    }
}

/// `a` is at or before `b` as a resumption cursor.
pub open spec fn cursor_le(a: Option<u64>, b: Option<u64>) -> bool {
    match (a, b) {
        (None, _) => true,
        (Some(_), None) => false,
        (Some(x), Some(y)) => x <= y,
    }
}

/// No input breaks the invariant, and no input moves the resumption
/// cursor back.
pub proof fn lemma_step_keeps_invariant(s: SessionState, input: Input)
    requires
        s.inv(),
    ensures
        apply(s, input).inv(),
        cursor_le(s.last_sequence, apply(s, input).last_sequence),
{
}

/// Every state that a fresh session can reach satisfies the invariant.
pub proof fn lemma_reachable_states(inputs: Seq<Input>)
    ensures
        apply_all(SessionState::initial(), inputs).inv(),
    decreases inputs.len(),
{
    if inputs.len() > 0 {
        lemma_reachable_states(inputs.drop_last());
        lemma_step_keeps_invariant(
            apply_all(SessionState::initial(), inputs.drop_last()),
            inputs.last(),
        );
    }
}

/// The resumption cursor never goes back, whatever happens to the session.
pub proof fn lemma_cursor_is_monotonic(s: SessionState, inputs: Seq<Input>)
    requires
        s.inv(),
    ensures
        apply_all(s, inputs).inv(),
        cursor_le(s.last_sequence, apply_all(s, inputs).last_sequence),
    decreases inputs.len(),
{
    if inputs.len() > 0 {
        lemma_cursor_is_monotonic(s, inputs.drop_last());
        lemma_step_keeps_invariant(apply_all(s, inputs.drop_last()), inputs.last());
    }
}

/// A closed session stays closed.
pub proof fn lemma_closed_is_final(s: SessionState, inputs: Seq<Input>)
    requires
        s.phase is Closed,
    ensures
        apply_all(s, inputs).phase is Closed,
    decreases inputs.len(),
{
    if inputs.len() > 0 {
        lemma_closed_is_final(s, inputs.drop_last());
    }
}

/// A greeting that arrives first in the handshake is answered with the
/// identify envelope, and the session is authenticated once that envelope
/// has gone out.
pub proof fn lemma_hello_first_authenticates(s: SessionState, e: EnvelopeView, interval: u64)
    requires
        s.phase is Handshaking,
        event_of(e) == Ok::<EventView, ErrorView>(EventView::Hello { heartbeat_interval: interval }),
    ensures
        s.receive(e).1 == ReactionView::Identify,
        s.receive(e).0.phase is Handshaking,
        s.receive(e).0.heartbeat_interval_ms == Some(interval),
        s.receive(e).0.identified() matches Ok(next) && next.phase is Authenticated
            && next.heartbeat_interval_ms == Some(interval),
{
}

/// Anything but a greeting in the handshake is a protocol violation: it is
/// reported as fatal, the session is closed, and nothing that happens
/// afterwards brings it to life.
pub proof fn lemma_non_hello_first_is_fatal(s: SessionState, e: EnvelopeView, later: Seq<Input>)
    requires
        s.phase is Handshaking,
        e.op != OP_HELLO,
    ensures
        s.receive(e).1 == ReactionView::Fatal(ErrorView::UnexpectedHandshakeEvent { op: e.op }),
        s.receive(e).0.phase is Closed,
        !(apply_all(s.receive(e).0, later).phase is Live),
{
    lemma_closed_is_final(s.receive(e).0, later);
}

/// Only the handshake leads to a live session: a session is live only if
/// it knows its heartbeat period.
pub proof fn lemma_live_knows_its_period(inputs: Seq<Input>)
    ensures
        apply_all(SessionState::initial(), inputs).phase is Live ==> apply_all(
            SessionState::initial(),
            inputs,
        ).heartbeat_interval_ms is Some,
{
    lemma_reachable_states(inputs);
}

/// Whether `envelopes` is a run of dispatch envelopes that all decode and
/// whose sequence numbers strictly increase.
pub open spec fn is_dispatch_run(envelopes: Seq<EnvelopeView>) -> bool {
    &&& forall|i: int|
        0 <= i < envelopes.len() ==> (#[trigger] envelopes[i]).op == OP_DISPATCH && event_of(
            envelopes[i],
        ) is Ok && envelopes[i].sequence is Some
    &&& forall|i: int, j: int|
        0 <= i < j < envelopes.len() ==> (#[trigger] envelopes[i]).sequence->Some_0 < (
        #[trigger] envelopes[j]).sequence->Some_0
}

/// After a run of dispatch envelopes with increasing sequence numbers the
/// cursor is the last sequence number, and the reactions are the decoded
/// events, one for each envelope, in the order of arrival.
pub proof fn lemma_dispatch_run(s: SessionState, envelopes: Seq<EnvelopeView>)
    requires
        s.phase is Live || s.phase is Authenticated,
        is_dispatch_run(envelopes),
        envelopes.len() > 0 ==> cursor_le(s.last_sequence, envelopes[0].sequence),
    ensures
        s.receive_all(envelopes).0.phase == s.phase,
        s.receive_all(envelopes).0.pending_heartbeat_ack == s.pending_heartbeat_ack,
        s.receive_all(envelopes).1.len() == envelopes.len(),
        forall|i: int|
            0 <= i < envelopes.len() ==> #[trigger] s.receive_all(envelopes).1[i]
                == ReactionView::Deliver(event_of(envelopes[i])->Ok_0),
        envelopes.len() > 0 ==> s.receive_all(envelopes).0.last_sequence
            == envelopes.last().sequence,
        envelopes.len() == 0 ==> s.receive_all(envelopes).0 == s,
    decreases envelopes.len(),
{
    if envelopes.len() > 0 {
        let front = envelopes.drop_last();
        let e = envelopes.last();
        assert(is_dispatch_run(front)) by {
            assert forall|i: int| 0 <= i < front.len() implies (#[trigger] front[i]).op
                == OP_DISPATCH && event_of(front[i]) is Ok && front[i].sequence is Some by {
                assert(front[i] == envelopes[i]);
            }
            assert forall|i: int, j: int| 0 <= i < j < front.len() implies (
            #[trigger] front[i]).sequence->Some_0 < (#[trigger] front[j]).sequence->Some_0 by {
                assert(front[i] == envelopes[i] && front[j] == envelopes[j]);
            }
        }
        if front.len() > 0 {
            assert(front[0] == envelopes[0]);
        }
        lemma_dispatch_run(s, front);
        let before = s.receive_all(front);
        assert(e == envelopes[envelopes.len() - 1]);
        assert(cursor_le(before.0.last_sequence, e.sequence)) by {
            if front.len() > 0 {
                assert(front.last() == envelopes[envelopes.len() - 2]);
            }
        }
        let step = before.0.receive(e);
        assert(step.1 == ReactionView::Deliver(event_of(e)->Ok_0));
        assert(step.0.last_sequence == e.sequence);
        assert forall|i: int| 0 <= i < envelopes.len() implies #[trigger] s.receive_all(
            envelopes,
        ).1[i] == ReactionView::Deliver(event_of(envelopes[i])->Ok_0) by {
            if i < front.len() {
                assert(s.receive_all(envelopes).1[i] == before.1[i]);
                assert(front[i] == envelopes[i]);
            }
        }
    }
}

/// A dispatch envelope whose payload cannot be read still moves the cursor
/// to its sequence number, is reported and not delivered, and leaves the
/// session as able to deliver the next envelope as it was.
pub proof fn lemma_failed_dispatch_advances(s: SessionState, e: EnvelopeView, next: EnvelopeView)
    requires
        s.phase is Live,
        e.op == OP_DISPATCH,
        event_of(e) is Err,
        e.sequence is Some,
        cursor_le(s.last_sequence, e.sequence),
    ensures
        s.receive(e).0 == (SessionState { last_sequence: e.sequence, ..s }),
        s.receive(e).1 == ReactionView::Dropped(event_of(e)->Err_0),
        s.receive(e).0.phase is Live,
        next.op == OP_DISPATCH && event_of(next) is Ok ==> s.receive(e).0.receive(next).1
            == ReactionView::Deliver(event_of(next)->Ok_0),
{
}

/// Whether none of `envelopes` is a heartbeat acknowledgement.
pub open spec fn no_acknowledgement(envelopes: Seq<EnvelopeView>) -> bool {
    forall|i: int| 0 <= i < envelopes.len() ==> (#[trigger] envelopes[i]).op != OP_HEARTBEAT_ACK
}

/// Receiving envelopes that are no acknowledgements leaves a live session
/// live and a pending heartbeat pending.
pub proof fn lemma_pending_stays_pending(s: SessionState, envelopes: Seq<EnvelopeView>)
    requires
        s.phase is Live,
        no_acknowledgement(envelopes),
    ensures
        s.receive_all(envelopes).0.phase is Live,
        s.receive_all(envelopes).0.pending_heartbeat_ack == s.pending_heartbeat_ack,
    decreases envelopes.len(),
{
    if envelopes.len() > 0 {
        let front = envelopes.drop_last();
        assert(no_acknowledgement(front)) by {
            assert forall|i: int| 0 <= i < front.len() implies (#[trigger] front[i]).op
                != OP_HEARTBEAT_ACK by {
                assert(front[i] == envelopes[i]);
            }
        }
        lemma_pending_stays_pending(s, front);
        assert(envelopes.last() == envelopes[envelopes.len() - 1]);
    }
}

/// A scheduled heartbeat that is not acknowledged before the next tick
/// ends the session: that tick sends nothing and signals the timeout, and
/// no later tick sends anything either.
pub proof fn lemma_missed_acknowledgement_times_out(
    s: SessionState,
    between: Seq<EnvelopeView>,
    after: Seq<EnvelopeView>,
)
    requires
        s.phase is Live,
        !s.pending_heartbeat_ack,
        no_acknowledgement(between),
    ensures
        s.tick().1 is Send,
        s.tick().0.receive_all(between).0.tick().1 == TickView::TimedOut,
        s.tick().0.receive_all(between).0.tick().0.phase is Closing,
        s.tick().0.receive_all(between).0.tick().0.receive_all(after).0.tick().1 == TickView::Idle,
{
    let sent = s.tick().0;
    lemma_pending_stays_pending(sent, between);
    let timed_out = sent.receive_all(between).0.tick().0;
    lemma_closing_receives_nothing(timed_out, after);
}

/// A session that is closing takes no envelope in.
pub proof fn lemma_closing_receives_nothing(s: SessionState, envelopes: Seq<EnvelopeView>)
    requires
        s.phase is Closing,
    ensures
        s.receive_all(envelopes).0 == s,
        forall|i: int|
            0 <= i < envelopes.len() ==> #[trigger] s.receive_all(envelopes).1[i]
                == ReactionView::Fatal(ErrorView::AlreadyDisconnected),
        s.receive_all(envelopes).1.len() == envelopes.len(),
    decreases envelopes.len(),
{
    if envelopes.len() > 0 {
        lemma_closing_receives_nothing(s, envelopes.drop_last());
    }
}

/// An acknowledgement in time keeps the session alive: the next tick sends
/// the next heartbeat.
pub proof fn lemma_acknowledged_heartbeat_goes_on(s: SessionState, ack: EnvelopeView)
    requires
        s.phase is Live,
        !s.pending_heartbeat_ack,
        ack.op == OP_HEARTBEAT_ACK,
    ensures
        s.tick().0.receive(ack).1 == ReactionView::Acknowledged,
        s.tick().0.receive(ack).0.tick().1 is Send,
        s.tick().0.receive(ack).0.tick().0.phase is Live,
{
}

/// An envelope with an op code that has no meaning is reported with its
/// op code and payload, and a live session stays as it was.
pub proof fn lemma_unknown_op_is_survived(s: SessionState, e: EnvelopeView)
    requires
        s.phase is Live,
        e.op != OP_DISPATCH,
        e.op != crate::gateway::event::OP_HEARTBEAT,
        e.op != OP_HELLO,
        e.op != OP_HEARTBEAT_ACK,
    ensures
        s.receive(e).1 == ReactionView::Dropped(
            ErrorView::UnknownOpCode { op: e.op, raw_payload: e.data },
        ),
        s.receive(e).0 == s,
{
}

} // verus!
