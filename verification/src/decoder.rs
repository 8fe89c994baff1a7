//! Transport frame decoders: from one raw line, frame or body to at most one
//! payment hash.
//!
//! A decoder never fails. Input that is not a payment notification of its
//! transport, malformed JSON included, decodes to `None`.

use vstd::prelude::*;
use crate::json::{
    integer_of, member_of, opt_text, parsed_document, read_value, string_member, text_member,
    tree_of, value_integer, value_member, JsonTree,
};
use crate::text::strip_prefix;

verus! {

/// The transport a raw frame came from.
#[derive(Clone, Copy, Debug, PartialEq, Eq, Structural)]
pub enum Transport {
    /// A line of the server-sent-event stream.
    Sse,
    /// A text frame of the WebSocket.
    WebSocket,
    /// The body of a webhook call.
    Webhook,
}

/// The line that announces a payment event on the event stream.
pub open spec fn event_marker() -> Seq<char> {
    "event: payment-received"@
}

/// The prefix of a line that carries an event's data.
pub open spec fn data_marker() -> Seq<char> {
    "data:"@
}

/// The payment hash of an event's data: the string member `payment_hash` of
/// the document.
pub open spec fn sse_payment(doc: JsonTree) -> Option<Seq<char>> {
    text_member(doc, "payment_hash"@)
}

/// The payment hash of a WebSocket frame: the string member `payment_hash` of
/// the member `payment`, where that member also has an integer `amount`
/// greater than zero.
pub open spec fn websocket_payment(doc: JsonTree) -> Option<Seq<char>> {
    match member_of(doc, "payment"@) {
        Some(payment) => match (
            text_member(payment, "payment_hash"@),
            member_of(payment, "amount"@),
        ) {
            (Some(hash), Some(amount)) => match integer_of(amount) {
                Some(sats) => if sats > 0 {
                    Some(hash)
                } else {
                    None
                },
                None => None,
            },
            _ => None,
        },
        None => None,
    }
}

/// The payment named by a webhook body: the string member `checking_id` of
/// the document.
pub open spec fn webhook_payment(doc: JsonTree) -> Option<Seq<char>> {
    text_member(doc, "checking_id"@)
}

/// What a stateless transport's document decodes to.
pub open spec fn document_payment(transport: Transport, doc: JsonTree) -> Option<Seq<char>> {
    match transport {
        Transport::Sse => sse_payment(doc),
        Transport::WebSocket => websocket_payment(doc),
        Transport::Webhook => webhook_payment(doc),
    }
}

/// What a text decodes to when it is read as one JSON document of the given
/// transport; `None` where the text is not JSON.
pub open spec fn text_payment(transport: Transport, text: Seq<char>) -> Option<Seq<char>> {
    match parsed_document(text) {
        Some(doc) => document_payment(transport, doc),
        None => None,
    }
}

/// One step of the event-stream policy: the armed flag after `line`, and the
/// payment hash that the line yields.
///
/// An event marker arms the decoder. A data line met while armed is read as
/// JSON and yields its payment hash. Every line but an event marker disarms.
pub open spec fn sse_step(armed: bool, line: Seq<char>) -> (bool, Option<Seq<char>>) {
    if event_marker().is_prefix_of(line) {
        (true, None)
    } else if armed && data_marker().is_prefix_of(line) {
        (false, text_payment(Transport::Sse, line.skip(data_marker().len() as int)))
    } else {
        (false, None)
    }
}

/// One step of the decoder for any transport. Only the event stream has
/// state; the other two leave the armed flag as it was.
pub open spec fn decode_step(transport: Transport, armed: bool, raw: Seq<char>) -> (
    bool,
    Option<Seq<char>>,
) {
    match transport {
        Transport::Sse => sse_step(armed, raw),
        _ => (armed, text_payment(transport, raw)),
    }
}

/// Extracts the payment hash from the data document of a payment event.
pub fn sse_payment_in(doc: &serde_json::Value) -> (r: Option<String>)
    ensures
        opt_text(r) == sse_payment(tree_of(*doc)),
{
    string_member(doc, "payment_hash")
}

/// Extracts the payment hash from a WebSocket document, provided that its
/// amount is greater than zero.
pub fn websocket_payment_in(doc: &serde_json::Value) -> (r: Option<String>)
    ensures
        opt_text(r) == websocket_payment(tree_of(*doc)),
{
    match value_member(doc, "payment") {
        Some(payment) => {
            let hash = string_member(payment, "payment_hash");
            match (hash, value_member(payment, "amount")) {
                (Some(hash), Some(amount)) => match value_integer(amount) {
                    Some(sats) => if sats > 0 {
                        Some(hash)
                    } else {
                        None
                    },
                    None => None,
                },
                _ => None,
            }
        },
        None => None,
    }
}

/// Extracts the checking id from a webhook document.
pub fn webhook_payment_in(doc: &serde_json::Value) -> (r: Option<String>)
    ensures
        opt_text(r) == webhook_payment(tree_of(*doc)),
{
    string_member(doc, "checking_id")
}

/// Extracts the payment that a parsed document announces on `transport`.
pub fn document_payment_in(transport: Transport, doc: &serde_json::Value) -> (r: Option<String>)
    ensures
        opt_text(r) == document_payment(transport, tree_of(*doc)),
{
    match transport {
        Transport::Sse => sse_payment_in(doc),
        Transport::WebSocket => websocket_payment_in(doc),
        Transport::Webhook => webhook_payment_in(doc),
    }
}

/// Reads `text` as one JSON document and extracts the payment that it
/// announces on `transport`. Text that is not JSON yields `None`.
pub fn decode_text(transport: Transport, text: &str) -> (r: Option<String>)
    ensures
        opt_text(r) == text_payment(transport, text@),
        parsed_document(text@) is None ==> r is None,
{
    match read_value(text) {
        Ok(doc) => document_payment_in(transport, &doc),
        Err(_) => None,
    }
}

/// Decodes one WebSocket text frame.
pub fn decode_websocket_frame(text: &str) -> (r: Option<String>)
    ensures
        opt_text(r) == text_payment(Transport::WebSocket, text@),
{
    decode_text(Transport::WebSocket, text)
}

/// Decodes one webhook body.
pub fn decode_webhook_body(body: &str) -> (r: Option<String>)
    ensures
        opt_text(r) == text_payment(Transport::Webhook, body@),
{
    decode_text(Transport::Webhook, body)
}

/// The frame decoder. Its one bit of state, the armed flag, belongs to the
/// event-stream policy.
#[derive(Clone, Copy, Debug)]
pub struct FrameDecoder {
    armed: bool,
}

impl FrameDecoder {
    /// Whether the last event-stream line was a payment event marker.
    pub closed spec fn armed(&self) -> bool {
        self.armed
    }

    /// A decoder that is not armed.
    pub fn new() -> (r: FrameDecoder)
        ensures
            !r.armed(),
    {
        FrameDecoder { armed: false }
    }

    /// Whether the decoder is armed.
    pub fn is_armed(&self) -> (r: bool)
        ensures
            r == self.armed(),
    {
        self.armed
    }

    /// Feeds one line of the event stream.
    pub fn accept_line(&mut self, line: &str) -> (r: Option<String>)
        ensures
            (final(self).armed(), opt_text(r)) == sse_step(old(self).armed(), line@),
    {
        if strip_prefix(line, "event: payment-received").is_some() {
            self.armed = true;
            return None;
        }
        let was_armed = self.armed;
        self.armed = false;
        if !was_armed {
            return None;
        }
        match strip_prefix(line, "data:") {
            Some(rest) => decode_text(Transport::Sse, rest),
            None => None,
        }
    }

    /// Decodes one raw line, frame or body of `transport`.
    pub fn decode(&mut self, transport: Transport, raw: &str) -> (r: Option<String>)
        ensures
            (final(self).armed(), opt_text(r)) == decode_step(transport, old(self).armed(), raw@),
    {
        match transport {
            Transport::Sse => self.accept_line(raw),
            Transport::WebSocket => decode_text(Transport::WebSocket, raw),
            Transport::Webhook => decode_text(Transport::Webhook, raw),
        }
    }
}

/// A line met while the decoder is not armed yields nothing, a data line
/// included.
pub proof fn law_unarmed_line_yields_nothing(line: Seq<char>)
    ensures
        sse_step(false, line).1 is None,
{
}

/// A data line met while the decoder is armed yields exactly the payment hash
/// of its JSON, and disarms the decoder.
pub proof fn law_armed_data_line_yields_hash(line: Seq<char>, hash: Seq<char>)
    requires
        data_marker().is_prefix_of(line),
        text_payment(Transport::Sse, line.skip(data_marker().len() as int)) == Some(hash),
    ensures
        sse_step(true, line) == (false, Some(hash)),
{
    reveal_strlit("event: payment-received");
    reveal_strlit("data:");
    if event_marker().is_prefix_of(line) {
        assert(event_marker()[0] == line.subrange(0, event_marker().len() as int)[0]);
        assert(data_marker()[0] == line.subrange(0, data_marker().len() as int)[0]);
    }
}

/// A WebSocket document whose amount is zero or negative yields nothing,
/// whether or not it names a payment hash.
pub proof fn law_unpaid_amount_yields_nothing(doc: JsonTree, payment: JsonTree, amount: int)
    requires
        member_of(doc, "payment"@) == Some(payment),
        member_of(payment, "amount"@) == Some(JsonTree::Number(Some(amount))),
        amount <= 0,
    ensures
        websocket_payment(doc) is None,
{
}

/// Text that is not JSON yields nothing on any transport, in either state of
/// the decoder.
pub proof fn law_malformed_json_yields_nothing(transport: Transport, armed: bool, raw: Seq<char>)
    requires
        match transport {
            Transport::Sse => data_marker().is_prefix_of(raw) ==> parsed_document(
                raw.skip(data_marker().len() as int),
            ) is None,
            _ => parsed_document(raw) is None,
        },
    ensures
        decode_step(transport, armed, raw).1 is None,
{
}

/// A frame of a stateless transport decodes to the same payment each time it
/// is fed: a repeated frame is reported again, not dropped as a duplicate.
pub proof fn law_repeated_frame_decodes_again(transport: Transport, armed: bool, raw: Seq<char>)
    requires
        transport != Transport::Sse,
    ensures
        ({
            let first = decode_step(transport, armed, raw);
            let second = decode_step(transport, first.0, raw);
            second == first
        }),
{
}

} // verus!
