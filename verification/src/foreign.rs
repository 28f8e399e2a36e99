//! Types of the transport and codec libraries that values of this crate
//! carry. Each is opaque here: it is moved, stored and handed back.

use rmp_serde::decode::Error as MsgPackError;
use serde_json::Error as JSONError;
use url::ParseError;
use websocket::result::WebSocketError;
use ws::Error as WSError;
use vstd::prelude::*;

verus! {

/// `ws::Error`, what the transport fails with.
#[verifier::external_type_specification]
#[verifier::external_body]
pub struct ExWsError(WSError);

/// `websocket::result::WebSocketError`, what a socket of the `websocket`
/// library fails with.
#[verifier::external_type_specification]
#[verifier::external_body]
pub struct ExWebSocketError(WebSocketError);

/// `url::ParseError`, why an address could not be read.
#[verifier::external_type_specification]
#[verifier::external_body]
pub struct ExUrlParseError(ParseError);

/// `serde_json::Error`, why a text frame is no JSON.
#[verifier::external_type_specification]
#[verifier::external_body]
pub struct ExJsonError(JSONError);

/// `rmp_serde::decode::Error`, why a binary frame is no MessagePack.
#[verifier::external_type_specification]
#[verifier::external_body]
pub struct ExMsgPackError(MsgPackError);

/// `url::Url`, a parsed address.
#[verifier::external_type_specification]
#[verifier::external_body]
pub struct ExUrl(url::Url);

/// `ws::Request`, the request that asks for the upgrade to a WebSocket.
#[verifier::external_type_specification]
#[verifier::external_body]
pub struct ExRequest(ws::Request);

/// `ws::Response`, the server's answer to that request.
#[verifier::external_type_specification]
#[verifier::external_body]
pub struct ExResponse(ws::Response);

/// `ws::util::Timeout`, the handle of an armed timer.
#[verifier::external_type_specification]
#[verifier::external_body]
pub struct ExTimeout(ws::util::Timeout);

} // verus!
