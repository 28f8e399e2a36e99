//! Client side of a routed publish-subscribe and remote-procedure-call
//! protocol: the session state machine and the engine that matches the
//! router's replies to outstanding requests.

pub mod client;
pub mod foreign;
pub mod handshake;
pub mod laws;
pub mod messages;
pub mod promise;
pub mod session;

pub use messages::{CallError, CallResult, Dict, List, MatchingPolicy, Reason, ID, URI};
use messages::ErrorType;
use rmp_serde::decode::Error as MsgPackError;
use serde_json::Error as JSONError;
use url::ParseError;
use websocket::result::WebSocketError;
use ws::Error as WSError;
use vstd::prelude::*;
use vstd::string::*;

verus! {

pub type WampResult<T> = Result<T, Error>;

/// What went wrong, with the transport's or the codec's own error where one
/// of them reported it.
#[derive(Debug)]
pub enum ErrorKind {
    WebSocketError(WebSocketError),
    WSError(WSError),
    URLError(ParseError),
    /// A message that the current state of the session does not allow.
    UnexpectedMessage(&'static str),
    ConnectionLost,
    JSONError(JSONError),
    MsgPackError(MsgPackError),
    MalformedData,
    /// An operation that the current state of the session does not allow.
    InvalidState(&'static str),
    ErrorReason(ErrorType, ID, Reason),
    /// The router did not welcome the session before the deadline.
    Timeout,
}

#[derive(Debug)]
pub struct Error {
    kind: ErrorKind,
}

impl ErrorKind {
    /// Whether `text` is the description of this kind. For the kinds that
    /// carry a foreign error it is whatever that error displays as.
    pub open spec fn described_by(self, text: String) -> bool {
        match self {
            ErrorKind::WebSocketError(e) => to_string_from_display_ensures::<
                WebSocketError,
            >(&e, text),
            ErrorKind::WSError(e) => to_string_from_display_ensures::<WSError>(&e, text),
            ErrorKind::URLError(e) => to_string_from_display_ensures::<ParseError>(&e, text),
            ErrorKind::UnexpectedMessage(s) => text@ == s@,
            ErrorKind::ConnectionLost => text@ == "Connection Lost"@,
            ErrorKind::JSONError(e) => to_string_from_display_ensures::<JSONError>(
                &e,
                text,
            ),
            ErrorKind::MsgPackError(e) => to_string_from_display_ensures::<
                MsgPackError,
            >(&e, text),
            ErrorKind::MalformedData => text@ == "Malformed Data"@,
            ErrorKind::InvalidState(s) => text@ == s@,
            ErrorKind::ErrorReason(_, _, reason) => text@ == reason.text(),
            ErrorKind::Timeout => text@ == "Connection Timed Out"@,
        }
    }

    pub fn description(&self) -> (text: String)
        ensures
            self.described_by(text),
    {
        match self {
            ErrorKind::WebSocketError(e) => e.to_string(),
            ErrorKind::WSError(e) => e.to_string(),
            ErrorKind::URLError(e) => e.to_string(),
            ErrorKind::UnexpectedMessage(s) => (*s).to_owned(),
            ErrorKind::ConnectionLost => "Connection Lost".to_owned(),
            ErrorKind::JSONError(e) => e.to_string(),
            ErrorKind::MsgPackError(e) => e.to_string(),
            ErrorKind::MalformedData => "Malformed Data".to_owned(),
            ErrorKind::InvalidState(s) => (*s).to_owned(),
            ErrorKind::ErrorReason(_, _, reason) => reason.get_string(),
            ErrorKind::Timeout => "Connection Timed Out".to_owned(),
        }
    }
}

impl Error {
    pub closed spec fn kind(self) -> ErrorKind {
        self.kind
    }

    pub fn new(kind: ErrorKind) -> (e: Error)
        ensures
            e.kind() == kind,
    {
        Error { kind }
    }

    pub fn get_description(&self) -> (text: String)
        ensures
            exists|d: String| #[trigger]
                self.kind().described_by(d) && text@ == "WAMP Error: "@ + d@,
    {
        let d = self.kind.description();
        String::from_str("WAMP Error: ").concat(d.as_str())
    }

    pub fn get_kind(self) -> (kind: ErrorKind)
        ensures
            kind == self.kind(),
    {
        self.kind
    }
}

} // verus!
