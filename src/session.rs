use vstd::prelude::*;

use crate::error::Error;
use crate::packet::{message_events, parse_packet, PacketV, Packets};

verus! {

/// Life cycle of one session.
#[derive(Debug, Clone, Copy, PartialEq, Eq, Structural)]
pub enum SessionState {
    Connecting,
    Authenticating,
    Streaming,
    Closed,
}

/// What the transport layer reports to the session.
#[derive(Debug)]
pub enum SessionEvent {
    /// The transport connection is open.
    Connected,
    /// The authentication frame was written.
    AuthSent,
    /// A binary transport message arrived.
    Binary(Vec<u8>),
    /// A text, ping, pong or close message arrived.
    NonBinary,
    /// Reading from the transport failed.
    TransportError,
    /// The transport stream ended, or the caller dropped the session.
    Ended,
}

/// What the session hands to its caller for one event.
#[derive(Debug)]
pub enum SessionOutput {
    /// Nothing to hand out.
    Nothing,
    /// The events of one inbound message.
    Events(Packets),
    /// The outer frame of an inbound message could not be decoded; the
    /// session goes on.
    FrameError(Error),
    /// The transport failed; this is the last item of the session.
    Failed,
}

/// The state that follows `s` on an event of the given kind: connecting,
/// then authenticating, then streaming once the authentication frame is out,
/// without waiting for an answer; a transport failure or end closes the
/// session for good.
pub open spec fn next_state(s: SessionState, e: SessionEvent) -> SessionState {
    match e {
        SessionEvent::TransportError | SessionEvent::Ended => SessionState::Closed,
        SessionEvent::Connected => if s == SessionState::Connecting {
            SessionState::Authenticating
        } else {
            s
        },
        SessionEvent::AuthSent => if s == SessionState::Authenticating {
            SessionState::Streaming
        } else {
            s
        },
        _ => s,
    }
}

/// Advances the session on one transport event. While streaming, a binary
/// message is decoded into its events, or into the error of its outer frame;
/// every other message is passed over. A transport failure is handed out once
/// and closes the session.
pub fn session_step(s: SessionState, e: SessionEvent) -> (r: (SessionState, SessionOutput))
    ensures
        r.0 == next_state(s, e),
        match r.1 {
            SessionOutput::Events(p) => s == SessionState::Streaming && (e matches SessionEvent::Binary(
                m,
            ) && p.wf() && message_events(m@) == Ok::<Seq<PacketV>, Error>(p@)),
            SessionOutput::FrameError(err) => s == SessionState::Streaming && (e matches SessionEvent::Binary(m)
                && message_events(m@) == Err::<Seq<PacketV>, Error>(err)),
            SessionOutput::Failed => s != SessionState::Closed && e is TransportError,
            SessionOutput::Nothing => !(s == SessionState::Streaming && e is Binary) && !(s
                != SessionState::Closed && e is TransportError),
        },
{
    let next = match &e {
        SessionEvent::TransportError | SessionEvent::Ended => SessionState::Closed,
        SessionEvent::Connected => if s == SessionState::Connecting {
            SessionState::Authenticating
        } else {
            s
        },
        SessionEvent::AuthSent => if s == SessionState::Authenticating {
            SessionState::Streaming
        } else {
            s
        },
        _ => s,
    };
    let out = match e {
        SessionEvent::Binary(m) => if s == SessionState::Streaming {
            match parse_packet(m.as_slice()) {
                Ok(p) => SessionOutput::Events(p),
                Err(err) => SessionOutput::FrameError(err),
            }
        } else {
            SessionOutput::Nothing
        },
        SessionEvent::TransportError => if s != SessionState::Closed {
            SessionOutput::Failed
        } else {
            SessionOutput::Nothing
        },
        _ => SessionOutput::Nothing,
    };
    (next, out)
}

} // verus!
