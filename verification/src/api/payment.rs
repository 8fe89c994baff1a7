//! Payments

use vstd::prelude::*;
use crate::json::opt_text;

verus! {

/// The RFC 3339 text of the UTC time that lies `seconds` seconds after the
/// start of 1970, as `chrono` writes it; `None` where `chrono` cannot
/// represent that time.
pub uninterp spec fn utc_rfc3339(seconds: i64) -> Option<Seq<char>>;

/// Calls `chrono::TimeZone::timestamp_opt` on `Utc` with no nanoseconds, and
/// `chrono::DateTime::to_rfc3339` on the time it gives. Trusted: the result
/// is [`utc_rfc3339`] of the seconds.
#[verifier::external_body]
pub(crate) fn format_utc(seconds: i64) -> (r: Option<String>)
    ensures
        opt_text(r) == utc_rfc3339(seconds),
{
    match chrono::TimeZone::timestamp_opt(&chrono::Utc, seconds, 0) {
        chrono::LocalResult::Single(time) => Some(time.to_rfc3339()),
        _ => None,
    }
}

/// A time as the service sends it: seconds since the start of 1970, or a
/// text that is already formatted.
#[derive(Debug)]
pub enum TimeValue {
    Unix(u64),
    String(String),
}

/// Why a time could not be read.
#[derive(Debug, Clone, Copy, PartialEq, Eq, Structural)]
pub enum TimeError {
    /// The number of seconds names no representable time.
    InvalidTimestamp,
}

/// The seconds of a timestamp as a signed number: the same bits, so that a
/// timestamp above `i64::MAX` stands for a time before 1970.
pub open spec fn signed_seconds(timestamp: u64) -> i64 {
    if timestamp <= i64::MAX as u64 {
        timestamp as i64
    } else {
        (timestamp - 0x1_0000_0000_0000_0000) as i64
    }
}

/// The text of a time: a formatted text as it is, and a timestamp as its
/// RFC 3339 text in UTC.
pub open spec fn time_text(value: TimeValue) -> Option<Seq<char>> {
    match value {
        TimeValue::Unix(timestamp) => utc_rfc3339(signed_seconds(timestamp)),
        TimeValue::String(text) => Some(text@),
    }
}

/// Reinterprets the timestamp's bits as a signed number.
fn to_signed(timestamp: u64) -> (r: i64)
    ensures
        r == signed_seconds(timestamp),
{
    if timestamp <= i64::MAX as u64 {
        timestamp as i64
    } else {
        let below: u64 = u64::MAX - timestamp;
        -1i64 - (below as i64)
    }
}

/// What a formatted timestamp gives: its text, or an error where there is
/// none.
pub fn timestamp_result(formatted: Option<String>) -> (r: Result<String, TimeError>)
    ensures
        r == match formatted {
            Some(text) => Ok::<String, TimeError>(text),
            None => Err(TimeError::InvalidTimestamp),
        },
{
    match formatted {
        Some(text) => Ok(text),
        None => Err(TimeError::InvalidTimestamp),
    }
}

/// Brings a time into its text form. A timestamp that names no representable
/// time is an error.
pub fn deserialize_time(value: TimeValue) -> (r: Result<String, TimeError>)
    ensures
        match r {
            Ok(text) => time_text(value) == Some(text@),
            Err(e) => time_text(value) is None && e == TimeError::InvalidTimestamp,
        },
{
    match value {
        TimeValue::Unix(timestamp) => timestamp_result(format_utc(to_signed(timestamp))),
        TimeValue::String(text) => Ok(text),
    }
}

/// Payment details
#[derive(Debug)]
pub struct PaymentDetails {
    /// Payment status
    pub status: String,
    /// Checking id
    pub checking_id: String,
    /// Amount
    pub amount: i64,
    /// Fee
    pub fee: i64,
    /// Memo
    pub memo: String,
    /// Time
    pub time: String,
    /// Created at
    pub created_at: String,
    /// Updated at
    pub updated_at: String,
    /// BOLT11
    pub bolt11: String,
    /// Preimage
    pub preimage: Option<String>,
    /// Payment hash
    pub payment_hash: String,
    /// Expiry
    pub expiry: String,
    /// Extra
    pub extra: serde_json::Value,
    /// Wallet id
    pub wallet_id: String,
    /// Webhook
    pub webhook: Option<String>,
    /// Webhook status
    pub webhook_status: Option<String>,
    /// Pending, as older versions of the service report it
    pub pending: Option<bool>,
}

/// Payment
#[derive(Debug)]
pub struct Payment {
    /// Paid
    pub paid: bool,
    /// Preimage
    pub preimage: Option<String>,
    /// Details
    pub details: PaymentDetails,
}

} // verus!
