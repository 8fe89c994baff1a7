//! The WebSocket ingestor.
//!
//! The caller connects to [`websocket_url`] of the base address without its
//! final `/` (see [`trim_final_slash`]), sends [`SUBSCRIBE_MESSAGE`] and
//! reads the socket; every read goes through [`on_socket_read`], which says
//! what to deliver and whether to read on. The ingestor does not connect
//! again by itself: that is the multiplexer's decision.

use vstd::prelude::*;
use vstd::string::{StrSliceExecFns, StringExecFns};
use crate::decoder::{decode_websocket_frame, text_payment, Transport};
use crate::json::opt_text;
use crate::text::strip_prefix;

verus! {

/// The text frame that asks the service for updates.
pub const SUBSCRIBE_MESSAGE: &'static str = "subscribe";

/// The base address without one final `/`. An address that names no path is
/// often written with one, and the socket's path brings its own.
pub open spec fn without_final_slash(base: Seq<char>) -> Seq<char> {
    if base.len() > 0 && base.last() == '/' {
        base.drop_last()
    } else {
        base
    }
}

/// Takes one final `/` off the base address, if it has one.
pub fn trim_final_slash(base: &str) -> (r: &str)
    ensures
        r@ == without_final_slash(base@),
{
    let len = base.unicode_len();
    if len > 0 && base.get_char(len - 1) == '/' {
        base.substring_char(0, len - 1)
    } else {
        base
    }
}

/// The base address with its `http` scheme prefix replaced by `ws`, so that
/// `http` becomes `ws` and `https` becomes `wss`. An address that does not
/// begin with `http` is left as it is.
pub open spec fn swapped_scheme(base: Seq<char>) -> Seq<char> {
    if "http"@.is_prefix_of(base) {
        "ws"@ + base.skip("http"@.len() as int)
    } else {
        base
    }
}

/// The address of the socket: the base address with the scheme swapped, the
/// socket's path, and the API key as the last path segment.
pub open spec fn websocket_url_text(base: Seq<char>, api_key: Seq<char>) -> Seq<char> {
    swapped_scheme(base) + "/api/v1/ws/"@ + api_key
}

/// Builds the address of the socket.
pub fn websocket_url(base: &str, api_key: &str) -> (url: String)
    ensures
        url@ == websocket_url_text(base@, api_key@),
{
    let mut url = match strip_prefix(base, "http") {
        Some(rest) => String::from_str("ws").concat(rest),
        None => base.to_owned(),
    };
    url.append("/api/v1/ws/");
    url.append(api_key);
    url
}

/// A message read from the socket, reduced to what the ingestor looks at.
#[derive(Debug)]
pub enum SocketMessage {
    /// A text frame with its text.
    Text(String),
    /// A binary frame.
    Binary,
    /// A ping.
    Ping,
    /// A pong.
    Pong,
    /// A close frame.
    Close,
    /// A raw frame.
    Frame,
}

/// What the caller learned from one read of the socket.
#[derive(Debug)]
pub enum SocketRead {
    /// The read delivered a message.
    Message(SocketMessage),
    /// The read failed.
    Failed,
    /// The socket's stream ended.
    Finished,
}

/// The answer to one read: the payment hash to deliver, if any, and whether
/// the read loop goes on.
#[derive(Debug)]
pub struct SocketStep {
    pub hash: Option<String>,
    pub read_on: bool,
}

/// The payment hash of a message: that of its text for a text frame, none
/// for any other message.
pub open spec fn message_payment(message: SocketMessage) -> Option<Seq<char>> {
    match message {
        SocketMessage::Text(text) => text_payment(Transport::WebSocket, text@),
        _ => None,
    }
}

/// Decodes one message. Only a text frame reaches the decoder, and it is
/// read as one whole JSON document.
pub fn decode_message(message: &SocketMessage) -> (r: Option<String>)
    ensures
        opt_text(r) == message_payment(*message),
{
    match message {
        SocketMessage::Text(text) => decode_websocket_frame(text.as_str()),
        _ => None,
    }
}

/// Answers one read of the socket. A message is decoded and reading goes on.
/// A failed read and the end of the stream stop the loop and deliver nothing.
pub fn on_socket_read(read: &SocketRead) -> (step: SocketStep)
    ensures
        match *read {
            SocketRead::Message(message) => {
                &&& step.read_on
                &&& opt_text(step.hash) == message_payment(message)
            },
            _ => !step.read_on && step.hash is None,
        },
{
    match read {
        SocketRead::Message(message) => SocketStep { hash: decode_message(message), read_on: true },
        _ => SocketStep { hash: None, read_on: false },
    }
}

} // verus!
