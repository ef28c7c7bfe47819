use crate::json::{json_tree, JsonTree};
use ijson::IValue;
use vstd::prelude::*;

verus! {

/// Everything the gateway engine can report.
#[derive(Clone, Debug, PartialEq)]
pub enum GatewayError {
    /// A shard count of zero was given.
    InvalidShardCount,
    /// The session has no open transport any more (or never had one).
    AlreadyDisconnected,
    /// The operation does not apply in the session's current phase.
    InvalidPhase,
    /// The first envelope of the handshake was not a Hello.
    UnexpectedHandshakeEvent { op: u32 },
    /// The envelope carries an op code this client has no meaning for.
    UnknownOpCode { op: u32, raw_payload: Option<IValue> },
    /// The frame is not a JSON object with a usable `op`, `s` and `t`.
    MalformedEnvelope,
    /// A dispatch envelope without an event name.
    MissingEventName,
    /// An envelope whose op code needs a payload arrived without one.
    MissingPayload,
    /// The payload of a known event does not have the expected shape.
    MalformedPayload,
    /// The transport handed over a frame that cannot carry an envelope.
    UnsupportedFrame,
    /// The JSON writer refused the envelope.
    Unencodable,
    /// An identify configuration that the gateway would reject.
    InvalidIdentify,
    /// A scheduled heartbeat was never acknowledged.
    LivenessTimeout,
    /// The event feed has nothing to hand out.
    NoData,
}

/// A [`GatewayError`] with its payload replaced by what the payload holds.
pub enum ErrorView {
    InvalidShardCount,
    AlreadyDisconnected,
    InvalidPhase,
    UnexpectedHandshakeEvent { op: u32 },
    UnknownOpCode { op: u32, raw_payload: Option<JsonTree> },
    MalformedEnvelope,
    MissingEventName,
    MissingPayload,
    MalformedPayload,
    UnsupportedFrame,
    Unencodable,
    InvalidIdentify,
    LivenessTimeout,
    NoData,
}

/// The contents of an optional payload.
pub open spec fn tree_of(data: Option<IValue>) -> Option<JsonTree> {
    match data {
        Some(v) => Some(json_tree(v)),
        None => None,
    }
}

impl View for GatewayError {
    type V = ErrorView;

    open spec fn view(&self) -> ErrorView {
        match *self {
            GatewayError::InvalidShardCount => ErrorView::InvalidShardCount,
            GatewayError::AlreadyDisconnected => ErrorView::AlreadyDisconnected,
            GatewayError::InvalidPhase => ErrorView::InvalidPhase,
            GatewayError::UnexpectedHandshakeEvent { op } => ErrorView::UnexpectedHandshakeEvent {
                op,
            },
            GatewayError::UnknownOpCode { op, raw_payload } => ErrorView::UnknownOpCode {
                op,
                raw_payload: tree_of(raw_payload),
            },
            GatewayError::MalformedEnvelope => ErrorView::MalformedEnvelope,
            GatewayError::MissingEventName => ErrorView::MissingEventName,
            GatewayError::MissingPayload => ErrorView::MissingPayload,
            GatewayError::MalformedPayload => ErrorView::MalformedPayload,
            GatewayError::UnsupportedFrame => ErrorView::UnsupportedFrame,
            GatewayError::Unencodable => ErrorView::Unencodable,
            GatewayError::InvalidIdentify => ErrorView::InvalidIdentify,
            GatewayError::LivenessTimeout => ErrorView::LivenessTimeout,
            GatewayError::NoData => ErrorView::NoData,
        }
    }
}

impl GatewayError {
    /// Whether the session survives this error: a single envelope was
    /// dropped and processing goes on.
    pub open spec fn spec_is_recoverable(&self) -> bool {
        match *self {
            GatewayError::UnknownOpCode { .. } => true,
            GatewayError::MalformedEnvelope => true,
            GatewayError::MissingEventName => true,
            GatewayError::MissingPayload => true,
            GatewayError::MalformedPayload => true,
            GatewayError::UnsupportedFrame => true,
            GatewayError::NoData => true,
            _ => false,
        }
    }

    /// Whether the session survives this error. Decode failures on a single
    /// envelope and an empty feed are recoverable; everything that touches
    /// the session's continuity is not.
    #[verifier::when_used_as_spec(spec_is_recoverable)]
    pub fn is_recoverable(&self) -> (r: bool)
        ensures
            r == self.spec_is_recoverable(),
    {
        match self {
            GatewayError::UnknownOpCode { .. } => true,
            GatewayError::MalformedEnvelope => true,
            GatewayError::MissingEventName => true,
            GatewayError::MissingPayload => true,
            GatewayError::MalformedPayload => true,
            GatewayError::UnsupportedFrame => true,
            GatewayError::NoData => true,
            _ => false,
        }
    }
}

} // verus!
