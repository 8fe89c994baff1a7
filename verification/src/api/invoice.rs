//! Invoice related api

use vstd::prelude::*;
use crate::json::{flag_of, member_of, opt_text, parsed_document, read_value, tree_of, value_flag,
    value_member, JsonTree};

verus! {

/// Create invoice response
#[derive(Debug)]
pub struct CreateInvoiceResponse {
    /// Payment hash
    payment_hash: String,
    /// Bolt11
    bolt11: Option<String>,
    /// Payment request, as older versions of the service name the invoice
    payment_request: Option<String>,
}

/// What a create-invoice response holds.
pub ghost struct CreateInvoiceResponseView {
    pub payment_hash: Seq<char>,
    pub bolt11: Option<Seq<char>>,
    pub payment_request: Option<Seq<char>>,
}

impl CreateInvoiceResponseView {
    /// The invoice: the member `bolt11` where the response has one, and the
    /// payment request otherwise.
    pub open spec fn invoice(self) -> Option<Seq<char>> {
        match self.bolt11 {
            Some(invoice) => Some(invoice),
            None => self.payment_request,
        }
    }
}

impl View for CreateInvoiceResponse {
    type V = CreateInvoiceResponseView;

    closed spec fn view(&self) -> CreateInvoiceResponseView {
        CreateInvoiceResponseView {
            payment_hash: self.payment_hash@,
            bolt11: opt_text(self.bolt11),
            payment_request: opt_text(self.payment_request),
        }
    }
}

impl CreateInvoiceResponse {
    /// A response with the given members.
    pub fn new(
        payment_hash: String,
        bolt11: Option<String>,
        payment_request: Option<String>,
    ) -> (r: CreateInvoiceResponse)
        ensures
            r@ == (CreateInvoiceResponseView {
                payment_hash: payment_hash@,
                bolt11: opt_text(bolt11),
                payment_request: opt_text(payment_request),
            }),
    {
        CreateInvoiceResponse { payment_hash, bolt11, payment_request }
    }

    /// Payment hash
    pub fn payment_hash(&self) -> (r: &str)
        ensures
            r@ == self@.payment_hash,
    {
        self.payment_hash.as_str()
    }

    /// Get bolt11 from response
    pub fn bolt11(&self) -> (r: Option<String>)
        ensures
            opt_text(r) == self@.invoice(),
    {
        match &self.bolt11 {
            Some(invoice) => Some(invoice.clone()),
            None => match &self.payment_request {
                Some(request) => Some(request.clone()),
                None => None,
            },
        }
    }
}

/// Pay invoice response
#[derive(Debug, Clone, Hash, PartialEq, Eq)]
pub struct PayInvoiceResponse {
    /// Payment hash
    pub payment_hash: String,
}

/// Create invoice request
#[derive(Debug, Clone, Hash, PartialEq, Eq)]
pub struct CreateInvoiceRequest {
    /// Amount (sat)
    pub amount: u64,
    /// Unit
    pub unit: String,
    /// Memo
    pub memo: Option<String>,
    /// Expiry is in seconds
    pub expiry: Option<u64>,
    /// Webhook url
    pub webhook: Option<String>,
    /// Internal payment
    pub internal: Option<bool>,
    /// Incoming or outgoing payment
    pub out: bool,
}

/// Whether a payment document says that the invoice is paid: its member
/// `paid` is the boolean `true`. A document without that member, or with
/// another kind of value in it, says that it is not.
pub open spec fn paid_in(doc: JsonTree) -> bool {
    match member_of(doc, "paid"@) {
        Some(paid) => flag_of(paid) == Some(true),
        None => false,
    }
}

/// Reads the paid flag of a payment document.
pub fn paid_flag(doc: &serde_json::Value) -> (r: bool)
    ensures
        r == paid_in(tree_of(*doc)),
{
    match value_member(doc, "paid") {
        Some(paid) => match value_flag(paid) {
            Some(flag) => flag,
            None => false,
        },
        None => false,
    }
}

/// Reads the paid flag from the body of a payment response; `None` where
/// the body is not JSON.
pub fn is_invoice_paid(body: &str) -> (r: Option<bool>)
    ensures
        r == match parsed_document(body@) {
            Some(doc) => Some(paid_in(doc)),
            None => None,
        },
{
    match read_value(body) {
        Ok(doc) => Some(paid_flag(&doc)),
        Err(_) => None,
    }
}

} // verus!
