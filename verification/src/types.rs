//! Types used throughout the banking system.
use vstd::prelude::*;

verus! {

/// Client ID type, representing a unique identifier for a client.
pub type ClientId = u16;

/// Transaction ID type, representing a unique identifier for a transaction.
pub type TransactionId = u32;

/// Money type, representing a fixed-point monetary value
/// (ten-thousandths of a currency unit).
pub type Money = i64;

} // verus!
