//! The webhook receiver: one call in, one status out.

use vstd::prelude::*;
use crate::decoder::{text_payment, webhook_payment, webhook_payment_in, Transport};
use crate::json::{opt_text, parsed_document, read_value, tree_of};

verus! {

/// The status of a call whose body was decoded: `200 OK`.
pub const STATUS_OK: u16 = 200;

/// The status of a call whose body was not decoded: `422 Unprocessable
/// Entity`.
pub const STATUS_UNPROCESSABLE_ENTITY: u16 = 422;

/// The body of a webhook call.
#[derive(Debug, Clone)]
pub struct WebhookRequest {
    /// Checking id
    pub checking_id: String,
}

impl WebhookRequest {
    /// Reads the request from a parsed body: `Some` exactly where the
    /// document is an object with a string member `checking_id`.
    pub fn from_document(doc: &serde_json::Value) -> (r: Option<WebhookRequest>)
        ensures
            match r {
                Some(request) => webhook_payment(tree_of(*doc)) == Some(request.checking_id@),
                None => webhook_payment(tree_of(*doc)) is None,
            },
    {
        match webhook_payment_in(doc) {
            Some(checking_id) => Some(WebhookRequest { checking_id }),
            None => None,
        }
    }
}

/// The answer to a webhook call: the status to respond with, and the
/// identifier to forward into the channel, if any.
#[derive(Debug)]
pub struct WebhookReply {
    pub status: u16,
    pub forward: Option<String>,
}

/// What a reply must be for a given decoded payment.
pub open spec fn reply_for(payment: Option<Seq<char>>, reply: WebhookReply) -> bool {
    &&& opt_text(reply.forward) == payment
    &&& reply.status == if payment is Some {
        STATUS_OK
    } else {
        STATUS_UNPROCESSABLE_ENTITY
    }
}

/// Answers a call whose body has been parsed as JSON.
pub fn handle_invoice(payload: &serde_json::Value) -> (reply: WebhookReply)
    ensures
        reply_for(webhook_payment(tree_of(*payload)), reply),
{
    match WebhookRequest::from_document(payload) {
        Some(request) => WebhookReply { status: STATUS_OK, forward: Some(request.checking_id) },
        None => WebhookReply { status: STATUS_UNPROCESSABLE_ENTITY, forward: None },
    }
}

/// Answers a call from its raw body. A body that is not JSON, or that names
/// no checking id, is answered with `422` and forwards nothing.
pub fn handle_body(body: &str) -> (reply: WebhookReply)
    ensures
        reply_for(text_payment(Transport::Webhook, body@), reply),
        parsed_document(body@) is None ==> reply.status == STATUS_UNPROCESSABLE_ENTITY
            && reply.forward is None,
{
    match read_value(body) {
        Ok(payload) => handle_invoice(&payload),
        Err(_) => WebhookReply { status: STATUS_UNPROCESSABLE_ENTITY, forward: None },
    }
}

} // verus!
