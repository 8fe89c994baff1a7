//! Wallet related api

use vstd::prelude::*;

verus! {

/// Wallet details
#[derive(Debug)]
pub struct WalletDetails {
    /// Documented as "id" in the API docs, but is actually not sent
    pub id: Option<String>,
    /// Name
    pub name: String,
    /// Balance
    pub balance: i64,
}

} // verus!
