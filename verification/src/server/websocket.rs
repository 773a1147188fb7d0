//! The send side of one signalling socket.
//!
//! Messages for a socket are queued and written by a single writer, so that
//! nothing that produces a message waits for the network. The queue accepts
//! messages for as long as its writer is alive.

use vstd::prelude::*;
use crate::server::error::SignallingError;
use crate::server::protocol::{GrabberMessage, PingMessage, PlayerMessage};
use crate::text::text;

verus! {

/// Seconds between two keepalive pings that the server sends on a socket.
pub const KEEPALIVE_INTERVAL_SECS: u64 = 30;

/// A protocol message for either channel.
#[derive(Debug)]
pub enum Envelope {
    Grabber(GrabberMessage),
    Player(PlayerMessage),
}

/// One frame waiting to be written to the socket.
#[derive(Debug)]
pub enum Frame {
    /// A protocol message, written as JSON text.
    Json(Envelope),
    /// Text written as it is.
    Text(String),
    /// The close frame.
    Close,
}

/// What a socket delivered, or failed to deliver.
#[derive(Debug)]
pub enum Incoming<M> {
    /// A text frame: the message it holds, or why it could not be decoded.
    Text(std::result::Result<M, String>),
    /// A close frame.
    Close,
    /// A ping frame.
    Ping,
    /// Any other frame.
    Other,
    /// Reading from the socket failed.
    Failed(String),
    /// The stream of frames has ended.
    Ended,
    /// No frame arrived in the time allowed.
    TimedOut,
}

/// The send side of a socket.
#[derive(Debug)]
pub struct WsSession {
    pub id: String,
    /// The frames queued and not yet handed to the writer.
    pub outbox: Vec<Frame>,
    /// Whether the writer still takes frames.
    pub connected: bool,
}

/// The error of a send on a queue whose writer is gone.
pub open spec fn queue_error() -> Seq<char> {
    "Failed to queue message: channel closed"@
}

/// The error of a close on a queue whose writer is gone.
pub open spec fn close_error() -> Seq<char> {
    "Failed to send close: channel closed"@
}

/// Whether `message` is the keepalive ping of time `now`.
pub open spec fn is_keepalive(message: PlayerMessage, now: i64) -> bool {
    &&& message.event@ == "PING"@
    &&& message.ping matches Some(ping)
    &&& ping.timestamp == now
    &&& ping.connections_count is None
    &&& ping.stream_types is None
    &&& message.player_auth is None
    &&& message.access_message is None
    &&& message.init_peer is None
    &&& message.offer is None
    &&& message.ice is None
    &&& message.peers_status is None
}

/// The ping that the server sends on every socket at each keepalive
/// interval.
pub fn keepalive_ping(now: i64) -> (message: PlayerMessage)
    ensures
        is_keepalive(message, now),
{
    let mut message = PlayerMessage::bare("PING");
    message.ping = Some(PingMessage { timestamp: now, connections_count: None, stream_types: None });
    message
}

impl WsSession {
    /// Whether this session is `before` with `frame` queued behind what was
    /// queued.
    pub open spec fn queued(&self, before: &WsSession, frame: Frame) -> bool {
        &&& self.id == before.id
        &&& self.connected == before.connected
        &&& self.outbox@ == before.outbox@.push(frame)
    }

    /// The outcome of queueing one frame: it is queued while the writer is
    /// alive, and refused with `error` otherwise.
    pub open spec fn sent(
        &self,
        before: &WsSession,
        frame: Frame,
        outcome: std::result::Result<(), SignallingError>,
        error: Seq<char>,
    ) -> bool {
        if before.connected {
            outcome is Ok && self.queued(before, frame)
        } else {
            &&& *self == *before
            &&& outcome matches Err(SignallingError::WebSocket(m))
            &&& m@ == error
        }
    }

    /// The send side of the socket `id`, with nothing queued.
    pub fn new(id: String) -> (session: Self)
        ensures
            session.id == id,
            session.outbox@.len() == 0,
            session.connected,
    {
        WsSession { id, outbox: Vec::new(), connected: true }
    }

    /// Queues a protocol message.
    pub fn send_json(&mut self, msg: Envelope) -> (outcome: std::result::Result<
        (),
        SignallingError,
    >)
        ensures
            final(self).sent(old(self), Frame::Json(msg), outcome, queue_error()),
    {
        if !self.connected {
            return Err(SignallingError::WebSocket(text("Failed to queue message: channel closed")));
        }
        self.outbox.push(Frame::Json(msg));
        Ok(())
    }

    /// Queues text.
    pub fn send_text(&mut self, text: String) -> (outcome: std::result::Result<
        (),
        SignallingError,
    >)
        ensures
            final(self).sent(old(self), Frame::Text(text), outcome, queue_error()),
    {
        if !self.connected {
            return Err(
                SignallingError::WebSocket(
                    crate::text::text("Failed to queue message: channel closed"),
                ),
            );
        }
        self.outbox.push(Frame::Text(text));
        Ok(())
    }

    /// Queues the close frame.
    pub fn close(&mut self) -> (outcome: std::result::Result<(), SignallingError>)
        ensures
            final(self).sent(old(self), Frame::Close, outcome, close_error()),
    {
        if !self.connected {
            return Err(SignallingError::WebSocket(text("Failed to send close: channel closed")));
        }
        self.outbox.push(Frame::Close);
        Ok(())
    }

    /// Hands the queued frames to the writer, oldest first, and leaves the
    /// queue empty.
    pub fn drain(&mut self) -> (frames: Vec<Frame>)
        ensures
            frames@ == old(self).outbox@,
            final(self).outbox@.len() == 0,
            final(self).id == old(self).id,
            final(self).connected == old(self).connected,
    {
        let mut frames: Vec<Frame> = Vec::new();
        std::mem::swap(&mut frames, &mut self.outbox);
        frames
    }

    /// Records that the writer has stopped: from now on nothing is queued.
    pub fn writer_stopped(&mut self)
        ensures
            !final(self).connected,
            final(self).id == old(self).id,
            final(self).outbox == old(self).outbox,
    {
        self.connected = false;
    }
}

} // verus!
