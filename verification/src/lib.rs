//! Account bookkeeping for a small bank: deposits, withdrawals, disputes,
//! resolutions and chargebacks, each checked against a mathematical model.
mod account;
pub mod laws;
mod state;
mod transaction;
mod types;

pub use account::{amount_or_zero, fits_money, realizes, Account, AccountView, TransactionError};
pub use state::{account_or_opened, keyed_by_client, process, State};
pub use transaction::{Transaction, TransactionType, TransactionView};
pub use types::{ClientId, Money, TransactionId};
