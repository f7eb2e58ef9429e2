//! The typed units that cross the connection: outbound commands, decoded
//! inbound frames, delivered message records, and the control and status
//! values exchanged with the owner of a connection.

use vstd::prelude::*;

use crate::config::Config;

verus! {

/// One outbound protocol unit, produced by the engine and turned into wire
/// bytes by the codec outside the verified core. Immutable once constructed;
/// ownership moves to the write queue.
#[derive(Debug, PartialEq)]
pub enum Cmd {
    /// Protocol magic/version marker, sent first on every connection.
    Magic,
    /// Capability negotiation carrying the local configuration.
    Identify(Config),
    /// Authentication with the configured secret.
    Auth(String),
    /// Subscription to a topic/channel pair.
    Subscribe(String, String),
    /// Grant of delivery credit to the daemon.
    Ready(u32),
    /// Heartbeat reply.
    Nop,
    /// Acknowledgement that the message with this id was processed.
    Finish(String),
    /// Clean-close announcement.
    Close,
}

/// One message delivered to a worker, as decoded by the codec.
#[derive(Clone, Debug, PartialEq)]
pub struct Msg {
    /// Daemon-side timestamp of the delivery.
    pub timestamp: i64,
    /// How many times the daemon has attempted this message; incremented
    /// only by the daemon on redelivery, never locally.
    pub attempts: u16,
    /// Opaque message id, echoed back in a `Cmd::Finish`.
    pub id: String,
    /// Message payload handed to the handler.
    pub body: Vec<u8>,
}

/// One inbound protocol unit, as decoded from the byte stream by the codec
/// outside the verified core. Consumed exactly once by the engine.
#[derive(Debug, PartialEq)]
pub enum Frame {
    /// Liveness probe from the daemon; requires a `Cmd::Nop` reply.
    Heartbeat,
    /// Plain text response acknowledging a negotiation, authentication or
    /// subscription step.
    Response(String),
    /// Error text reported by the daemon.
    Error(String),
    /// One or more delivered messages.
    Messages(Vec<Msg>),
}

/// Failures that end the connection.
#[derive(Clone, Copy, Debug, PartialEq, Eq, Structural)]
pub enum Fatal {
    /// The daemon requires authentication and no secret is configured.
    /// Nothing the protocol offers can recover this; the owner must abort
    /// rather than retry.
    AuthRequired,
    /// A negotiation response could not be decoded. The handshake is a
    /// one-shot sequence, so this tears the connection down.
    MalformedResponse,
}

impl Fatal {
    /// A short description of the failure.
    pub fn as_str(&self) -> (r: &'static str)
        ensures
            *self == Fatal::AuthRequired ==> r@ == "authentication required but no secret configured"@,
            *self == Fatal::MalformedResponse ==> r@ == "malformed negotiation response"@,
    {
        match self {
            Fatal::AuthRequired => "authentication required but no secret configured",
            Fatal::MalformedResponse => "malformed negotiation response",
        }
    }
}

/// Control commands the owner may inject into the reactor from outside.
#[derive(Clone, Copy, Debug, PartialEq, Eq, Structural)]
pub enum ControlMsg {
    /// Tear the connection down cooperatively.
    Close,
    /// Throttle intake: enter the backoff cycle; the reactor's exponential
    /// schedule decides when the recovery probe follows.
    Backoff,
}

/// Connection-status events reported to the owner, so a supervising
/// component can decide whether and how to reconnect.
#[derive(Clone, Copy, Debug, PartialEq, Eq, Structural)]
pub enum ConnStatus {
    Connected,
    /// Carries the last time, in milliseconds, the daemon was seen alive.
    Disconnected(u64),
}

/// The empty payload placed on the worker queue when the connection ends,
/// so that a worker blocked on the queue observes termination instead of
/// waiting forever.
pub fn sentinel_payload() -> (r: Vec<u8>)
    ensures
        r@.len() == 0,
{
    Vec::new()
}

/// A payload placed on the worker queue announces termination exactly when
/// it is empty; anything else is a message for the handler.
pub fn is_sentinel(payload: &Vec<u8>) -> (r: bool)
    ensures
        r == (payload@.len() == 0),
{
    payload.len() == 0
}

} // verus!
