//! Transactions as they arrive from the input stream.
use vstd::prelude::*;

use crate::types::{ClientId, Money, TransactionId};

verus! {

/// Enum representing the type of transaction.
#[derive(Debug, Clone, Copy, PartialEq, Eq, Structural)]
pub enum TransactionType {
    Deposit,
    Withdrawal,
    Dispute,
    Resolve,
    Chargeback,
}

/// The contents of a transaction, as seen by the specifications.
pub struct TransactionView {
    pub tx_type: TransactionType,
    pub client_id: ClientId,
    pub transaction_id: TransactionId,
    pub amount: Option<Money>,
}

/// Represents a banking transaction.
#[derive(Debug, Clone, Copy)]
pub struct Transaction {
    /// The type of transaction (e.g., Deposit, Withdrawal, etc.)
    tx_type: TransactionType,
    /// The unique identifier for the client associated with this transaction.
    client_id: ClientId,
    /// The unique identifier for this transaction.
    transaction_id: TransactionId,
    /// The amount involved in the transaction, if applicable.
    amount: Option<Money>,
}

impl View for Transaction {
    type V = TransactionView;

    closed spec fn view(&self) -> TransactionView {
        TransactionView {
            tx_type: self.tx_type,
            client_id: self.client_id,
            transaction_id: self.transaction_id,
            amount: self.amount,
        }
    }
}

impl Transaction {
    /// Creates a transaction from its parts.
    pub fn new(
        tx_type: TransactionType,
        client_id: ClientId,
        transaction_id: TransactionId,
        amount: Option<Money>,
    ) -> (tx: Self)
        ensures
            tx@ == (TransactionView { tx_type, client_id, transaction_id, amount }),
    {
        Transaction { tx_type, client_id, transaction_id, amount }
    }

    /// Gets the type of the transaction.
    pub fn get_type(&self) -> (t: &TransactionType)
        ensures
            *t == self@.tx_type,
    {
        &self.tx_type
    }

    /// Gets the amount of the transaction, if applicable.
    pub fn get_amount(&self) -> (a: Option<Money>)
        ensures
            a == self@.amount,
    {
        self.amount
    }

    /// Gets the transaction ID.
    pub fn get_transaction_id(&self) -> (id: TransactionId)
        ensures
            id == self@.transaction_id,
    {
        self.transaction_id
    }

    /// Gets the client ID associated with this transaction.
    pub fn get_client_id(&self) -> (id: ClientId)
        ensures
            id == self@.client_id,
    {
        self.client_id
    }
}

} // verus!
