//! The wallet service's interface: its endpoints, its API keys, and the
//! three transports that report a paid invoice.

use vstd::prelude::*;
use vstd::string::StringExecFns;

pub mod invoice;
pub mod paid_invoice_stream;
pub mod payment;
pub mod wallet;
pub mod webhook;
pub mod websocket;

verus! {

/// The status of a response for an unknown resource.
pub const STATUS_NOT_FOUND: u16 = 404;

/// The status of a response to a request whose key was not accepted.
pub const STATUS_UNAUTHORIZED: u16 = 401;

/// The name of the header that carries the API key.
pub const API_KEY_HEADER: &'static str = "X-Api-Key";

/// LNbits api key type
#[derive(Debug, Clone, Copy, Hash, PartialEq, Eq, Structural)]
pub enum LNBitsRequestKey {
    /// Admin api key
    Admin,
    /// Read invoice api key
    InvoiceRead,
}

/// LNbits endpoints
#[derive(Debug, Clone, Hash)]
pub enum LNBitsEndpoint {
    /// Payments endpoint
    Payments,
    /// Decode payments endpoint
    PaymentsDecode,
    /// Payments endpoint with hash
    PaymentHash(String),
    /// Find payments invoice
    PaymentsFindInvoice(String),
    /// Wallet info endpoint
    Wallet,
}

/// The kind of request sent to the service.
#[derive(Debug, Clone, Copy, PartialEq, Eq, Structural)]
pub enum RequestMethod {
    Get,
    Post,
}

/// A response status that a request reports as an error of its own kind.
#[derive(Debug, Clone, Copy, PartialEq, Eq, Structural)]
pub enum RequestError {
    /// The service answered `404`.
    NotFound,
    /// The service answered `401`.
    Unauthorized,
}

impl LNBitsEndpoint {
    /// The endpoint's path below the service's base address.
    pub open spec fn path(self) -> Seq<char> {
        match self {
            LNBitsEndpoint::Payments => "api/v1/payments"@,
            LNBitsEndpoint::PaymentsDecode => "api/v1/payments/decode"@,
            LNBitsEndpoint::PaymentHash(hash) => "api/v1/payments/"@ + hash@,
            LNBitsEndpoint::Wallet => "api/v1/wallet"@,
            LNBitsEndpoint::PaymentsFindInvoice(checking_id) => "api/v1/payments?checking_id="@
                + checking_id@,
        }
    }

    /// Writes the endpoint's path.
    pub fn to_string(&self) -> (r: String)
        ensures
            r@ == self.path(),
    {
        match self {
            LNBitsEndpoint::Payments => String::from_str("api/v1/payments"),
            LNBitsEndpoint::PaymentsDecode => String::from_str("api/v1/payments/decode"),
            LNBitsEndpoint::PaymentHash(hash) => String::from_str("api/v1/payments/").concat(
                hash.as_str(),
            ),
            LNBitsEndpoint::Wallet => String::from_str("api/v1/wallet"),
            LNBitsEndpoint::PaymentsFindInvoice(checking_id) => String::from_str(
                "api/v1/payments?checking_id=",
            ).concat(checking_id.as_str()),
        }
    }
}

/// The key that a request of the given kind carries.
pub fn select_key<'a>(key: LNBitsRequestKey, admin_key: &'a str, invoice_read_key: &'a str) -> (r:
    &'a str)
    ensures
        r == match key {
            LNBitsRequestKey::Admin => admin_key,
            LNBitsRequestKey::InvoiceRead => invoice_read_key,
        },
{
    match key {
        LNBitsRequestKey::Admin => admin_key,
        LNBitsRequestKey::InvoiceRead => invoice_read_key,
    }
}

/// The error that a response status stands for, if any: `404` is
/// [`RequestError::NotFound`] and `401` is [`RequestError::Unauthorized`],
/// for either kind of request. Every other status stands for none.
pub open spec fn status_error(method: RequestMethod, status: u16) -> Option<RequestError> {
    if status == STATUS_NOT_FOUND {
        Some(RequestError::NotFound)
    } else if status == STATUS_UNAUTHORIZED {
        Some(RequestError::Unauthorized)
    } else {
        None
    }
}

/// Checks a response status before the body is read.
pub fn check_status(method: RequestMethod, status: u16) -> (r: Result<(), RequestError>)
    ensures
        match r {
            Ok(_) => status_error(method, status) is None,
            Err(e) => status_error(method, status) == Some(e),
        },
{
    if status == STATUS_NOT_FOUND {
        Err(RequestError::NotFound)
    } else if status == STATUS_UNAUTHORIZED {
        Err(RequestError::Unauthorized)
    } else {
        Ok(())
    }
}

impl RequestError {
    /// The error's message.
    pub fn message(&self) -> (r: &'static str)
        ensures
            r@ == match *self {
                RequestError::NotFound => "Not found"@,
                RequestError::Unauthorized => "Unauthorized"@,
            },
    {
        match self {
            RequestError::NotFound => "Not found",
            RequestError::Unauthorized => "Unauthorized",
        }
    }
}

} // verus!
