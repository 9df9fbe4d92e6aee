//! The connection session: its lifecycle, and what to do with each inbound
//! frame. The transport itself is driven by the caller, which hands each
//! frame (and each handshake result) to the session and performs what the
//! session answers.
use tungstenite::Error as WsError;
use vstd::prelude::*;

use crate::error::Error;
use crate::json::Json;
use crate::messages::{decodable, decoded_as, Message};
use crate::request::{
    all_have_tokens, subscribe_request, subscribe_text, unsubscribe_request, unsubscribe_text,
    SubscribeInfo,
};

verus! {

/// Close code sent on an explicit disconnect (normal closure).
pub const CLOSE_CODE_NORMAL: u16 = 1000;

/// Lifecycle of the single transport session.
#[derive(Clone, Copy, Debug, PartialEq, Eq, Structural)]
pub enum SessionState {
    /// No transport is held.
    Disconnected,
    /// The handshake succeeded and frames flow.
    Connected,
    /// The peer sent a close frame; nothing more is read until a fresh
    /// connect.
    ClosedByPeer,
}

/// One frame read from the transport, or the end of the transport.
#[derive(Debug)]
pub enum Inbound {
    /// A text frame, parsed as JSON; none where the text is not JSON.
    Text(Option<Json>),
    Ping(Vec<u8>),
    Pong(Vec<u8>),
    Close,
    Binary,
    RawFrame,
    /// The transport ended or failed while reading.
    Ended,
}

/// A keep-alive frame to send back.
#[derive(Debug, PartialEq, Eq)]
pub enum Control {
    Ping(Vec<u8>),
    Pong(Vec<u8>),
}

/// What the caller does with one inbound frame.
#[derive(Debug)]
pub enum Step {
    /// Hand this message to the consumer.
    Deliver(Message),
    /// Send this keep-alive frame and read on.
    Reply(Control),
    /// The payload did not decode: log it and read on.
    Skip,
    /// The peer closed the session: no more messages.
    Closed,
    /// The transport is exhausted: no more messages.
    Exhausted,
    /// The peer sent an unsupported frame kind: a fatal error.
    Violation,
}

/// The kind of a `Step`, without its payload.
#[derive(Clone, Copy, Debug, PartialEq, Eq, Structural)]
pub enum Reaction {
    Deliver,
    Reply,
    Skip,
    Closed,
    Exhausted,
    Violation,
}

impl Step {
    pub open spec fn reaction(&self) -> Reaction {
        match self {
            Step::Deliver(_) => Reaction::Deliver,
            Step::Reply(_) => Reaction::Reply,
            Step::Skip => Reaction::Skip,
            Step::Closed => Reaction::Closed,
            Step::Exhausted => Reaction::Exhausted,
            Step::Violation => Reaction::Violation,
        }
    }
}

/// A text frame that carries a payload that decodes.
pub open spec fn well_formed(i: Inbound) -> bool {
    i matches Inbound::Text(Some(j)) && decodable(j)
}

/// A text frame whose payload is not JSON, or matches no message shape.
pub open spec fn malformed(i: Inbound) -> bool {
    i matches Inbound::Text(t) && !(t matches Some(j) && decodable(j))
}

/// How the session reacts to an inbound frame.
pub open spec fn reaction_to(s: SessionState, i: Inbound) -> Reaction {
    if s != SessionState::Connected {
        Reaction::Exhausted
    } else {
        match i {
            Inbound::Text(t) => if t matches Some(j) && decodable(j) {
                Reaction::Deliver
            } else {
                Reaction::Skip
            },
            Inbound::Ping(_) => Reaction::Reply,
            Inbound::Pong(_) => Reaction::Reply,
            Inbound::Close => Reaction::Closed,
            Inbound::Binary => Reaction::Violation,
            Inbound::RawFrame => Reaction::Violation,
            Inbound::Ended => Reaction::Exhausted,
        }
    }
}

/// The session state after an inbound frame.
pub open spec fn state_after(s: SessionState, i: Inbound) -> SessionState {
    if s != SessionState::Connected {
        s
    } else {
        match i {
            Inbound::Close => SessionState::ClosedByPeer,
            Inbound::Binary => SessionState::Disconnected,
            Inbound::RawFrame => SessionState::Disconnected,
            Inbound::Ended => SessionState::Disconnected,
            _ => s,
        }
    }
}

/// The session with the market-data server. It holds at most one live
/// session at a time.
#[derive(Debug)]
pub struct BinanceApi {
    pub state: SessionState,
}

impl BinanceApi {
    /// A session that is not connected.
    pub fn new() -> (r: Self)
        ensures
            r.state == SessionState::Disconnected,
    {
        BinanceApi { state: SessionState::Disconnected }
    }

    pub fn is_connected(&self) -> (r: bool)
        ensures
            r == (self.state == SessionState::Connected),
    {
        self.state == SessionState::Connected
    }

    /// Records the outcome of a transport handshake. On success the session is
    /// connected, replacing any prior one; on failure it is left as it was and
    /// the transport error is returned.
    pub fn connect(&mut self, handshake: Result<(), WsError>) -> (r: Result<(), Error>)
        ensures
            handshake is Ok ==> r is Ok && final(self).state == SessionState::Connected,
            handshake matches Err(e) ==> (r matches Err(Error::WebSocketError(inner)) && inner == e
                && final(self).state == old(self).state),
    {
        match handshake {
            Ok(()) => {
                self.state = SessionState::Connected;
                Ok(())
            },
            Err(e) => Err(Error::from(e)),
        }
    }

    /// Ends the session. Returns whether a normal-closure frame is to be sent:
    /// only a connected session sends one. Afterwards no transport is held.
    pub fn disconnect(&mut self) -> (send_close: bool)
        ensures
            send_close == (old(self).state == SessionState::Connected),
            final(self).state == SessionState::Disconnected,
    {
        let was_connected = self.state == SessionState::Connected;
        self.state = SessionState::Disconnected;
        was_connected
    }

    /// The reason string of the normal-closure frame.
    pub fn close_reason() -> (r: &'static str)
        ensures
            r@ == "Normal"@,
    {
        "Normal"
    }

    /// Handles one inbound frame. A decodable payload is delivered; one that
    /// does not decode is skipped; a ping is answered with a pong carrying the
    /// same data and a pong with a ping; a close frame ends the session; a
    /// binary or raw frame is a protocol violation. A session that is not
    /// connected yields nothing.
    pub fn next_message(&mut self, frame: Inbound) -> (r: Step)
        ensures
            r.reaction() == reaction_to(old(self).state, frame),
            final(self).state == state_after(old(self).state, frame),
            r matches Step::Deliver(m) ==> (frame matches Inbound::Text(Some(j)) && decoded_as(j, m)),
            old(self).state == SessionState::Connected ==> (frame matches Inbound::Ping(d) ==> (
            r matches Step::Reply(Control::Pong(e)) && e == d)),
            old(self).state == SessionState::Connected ==> (frame matches Inbound::Pong(d) ==> (
            r matches Step::Reply(Control::Ping(e)) && e == d)),
    {
        if self.state != SessionState::Connected {
            return Step::Exhausted;
        }
        match frame {
            Inbound::Text(Some(j)) => match Message::decode(&j) {
                Some(m) => Step::Deliver(m),
                None => Step::Skip,
            },
            Inbound::Text(None) => Step::Skip,
            Inbound::Ping(d) => Step::Reply(Control::Pong(d)),
            Inbound::Pong(d) => Step::Reply(Control::Ping(d)),
            Inbound::Close => {
                self.state = SessionState::ClosedByPeer;
                Step::Closed
            },
            Inbound::Binary => {
                self.state = SessionState::Disconnected;
                Step::Violation
            },
            Inbound::RawFrame => {
                self.state = SessionState::Disconnected;
                Step::Violation
            },
            Inbound::Ended => {
                self.state = SessionState::Disconnected;
                Step::Exhausted
            },
        }
    }

    /// The subscribe request to send for `symbols`, with request id `id`
    /// (1 when none is given). Nothing is to be sent for an empty list; a
    /// non-empty list needs a connected session.
    pub fn subscribe(&self, symbols: &[SubscribeInfo], id: Option<u32>) -> (r: Result<
        Option<String>,
        Error,
    >)
        requires
            all_have_tokens(symbols@),
        ensures
            symbols@.len() == 0 ==> r matches Ok(None),
            symbols@.len() > 0 && self.state != SessionState::Connected ==> r matches Err(
                Error::NotConnected,
            ),
            symbols@.len() > 0 && self.state == SessionState::Connected ==> (r matches Ok(Some(t))
                && subscribe_text(symbols@, id) == Some(t@)),
    {
        if symbols.len() == 0 {
            return Ok(None);
        }
        if self.state != SessionState::Connected {
            return Err(Error::NotConnected);
        }
        Ok(subscribe_request(symbols, id))
    }

    /// The unsubscribe request to send for `symbols`. Nothing is to be sent
    /// for an empty list, nor when the session is not connected.
    pub fn unsubscribe(&self, symbols: &[SubscribeInfo]) -> (r: Option<String>)
        requires
            all_have_tokens(symbols@),
        ensures
            symbols@.len() == 0 || self.state != SessionState::Connected ==> r is None,
            symbols@.len() > 0 && self.state == SessionState::Connected ==> (r matches Some(t)
                && unsubscribe_text(symbols@) == Some(t@)),
    {
        if symbols.len() == 0 || self.state != SessionState::Connected {
            return None;
        }
        unsubscribe_request(symbols)
    }
}

/// A malformed payload between two well-formed ones does not end the stream:
/// it is skipped, the session stays connected, and the next well-formed
/// payload is delivered.
pub proof fn lemma_malformed_payload_skipped(first: Inbound, bad: Inbound, second: Inbound)
    requires
        well_formed(first),
        malformed(bad),
        well_formed(second),
    ensures
        ({
            let s0 = SessionState::Connected;
            let s1 = state_after(s0, first);
            let s2 = state_after(s1, bad);
            &&& reaction_to(s0, first) == Reaction::Deliver
            &&& reaction_to(s1, bad) == Reaction::Skip
            &&& s2 == SessionState::Connected
            &&& reaction_to(s2, second) == Reaction::Deliver
        }),
{
}

} // verus!
