//! Errors surfaced by the library.
use tungstenite::Error as WsError;
use vstd::prelude::*;

verus! {

#[verifier::external_type_specification]
#[verifier::external_body]
pub struct ExWsError(WsError);

#[derive(Debug)]
pub enum Error {
    /// The reconnection supervisor gave up after its last allowed attempt.
    ReconnectionTimeout,
    /// The transport failed to connect, send or receive.
    WebSocketError(WsError),
    /// A request was to be sent while no connection was active.
    NotConnected,
    /// The peer sent a frame kind the client does not support.
    ProtocolViolation,
    /// Context supplied by a caller.
    Custom(String),
}

impl From<WsError> for Error {
    fn from(e: WsError) -> (r: Error)
        ensures
            r matches Error::WebSocketError(inner) && inner == e,
    {
        Error::WebSocketError(e)
    }
}

impl vstd::std_specs::convert::FromSpecImpl<WsError> for Error {
    open spec fn obeys_from_spec() -> bool {
        true
    }

    open spec fn from_spec(e: WsError) -> Error {
        Error::WebSocketError(e)
    }
}

} // verus!
