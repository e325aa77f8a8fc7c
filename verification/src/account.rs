//! Account management and transaction processing for a banking system.
use std::collections::{HashMap, HashSet};

use vstd::prelude::*;

use crate::transaction::{Transaction, TransactionType};
use crate::types::{ClientId, Money, TransactionId};

verus! {

broadcast use vstd::std_specs::hash::group_hash_axioms;

/// Errors that can occur during transaction processing.
#[derive(Debug, Clone, Copy, PartialEq, Eq, Structural)]
pub enum TransactionError {
    InsufficientFunds,
    AccountLocked,
    InvalidTransaction,
    AlreadyInDispute,
    NotInDispute,
    NotForThisAccount,
    TransactionDoesNotExist,
}

impl TransactionError {
    /// The message that describes the error.
    pub fn message(&self) -> (m: String)
        ensures
            *self == TransactionError::InsufficientFunds ==> m@
                == "Insufficient funds for transaction"@,
            *self == TransactionError::AccountLocked ==> m@ == "Account is locked"@,
            *self == TransactionError::InvalidTransaction ==> m@ == "Invalid transaction"@,
            *self == TransactionError::AlreadyInDispute ==> m@
                == "Transaction is already in dispute"@,
            *self == TransactionError::NotInDispute ==> m@ == "Transaction not in dispute"@,
            *self == TransactionError::NotForThisAccount ==> m@
                == "Transaction is not for this account"@,
            *self == TransactionError::TransactionDoesNotExist ==> m@
                == "Transaction does not exist"@,
    {
        match self {
            TransactionError::InsufficientFunds => "Insufficient funds for transaction".to_owned(),
            TransactionError::AccountLocked => "Account is locked".to_owned(),
            TransactionError::InvalidTransaction => "Invalid transaction".to_owned(),
            TransactionError::AlreadyInDispute => "Transaction is already in dispute".to_owned(),
            TransactionError::NotInDispute => "Transaction not in dispute".to_owned(),
            TransactionError::NotForThisAccount => "Transaction is not for this account".to_owned(),
            TransactionError::TransactionDoesNotExist => "Transaction does not exist".to_owned(),
        }
    }
}

/// The mathematical state of an account: balances as unbounded integers,
/// the recorded deposits and withdrawals by id, and the ids under dispute.
#[verifier::ext_equal]
pub struct AccountView {
    pub client_id: ClientId,
    pub available: int,
    pub held: int,
    pub total: int,
    pub locked: bool,
    pub transactions: Map<TransactionId, Transaction>,
    pub in_dispute: Set<TransactionId>,
}

/// The amount of a recorded transaction, zero where it has none.
pub open spec fn amount_or_zero(tx: Transaction) -> int {
    match tx@.amount {
        Some(a) => a as int,
        None => 0,
    }
}

/// `i64` can hold `v`.
pub open spec fn fits_money(v: int) -> bool {
    i64::MIN <= v <= i64::MAX
}

impl AccountView {
    /// A freshly opened account of the given client: no money, no history.
    pub open spec fn opened(client_id: ClientId) -> AccountView {
        AccountView {
            client_id,
            available: 0,
            held: 0,
            total: 0,
            locked: false,
            transactions: Map::empty(),
            in_dispute: Set::empty(),
        }
    }

    /// Adds `amount` to the available and total balances.
    pub open spec fn deposit(self, amount: int) -> AccountView {
        AccountView { available: self.available + amount, total: self.total + amount, ..self }
    }

    /// Takes `amount` from the available and total balances, if enough is available.
    pub open spec fn withdraw(self, amount: int) -> Result<AccountView, TransactionError> {
        if self.available >= amount {
            Ok(AccountView { available: self.available - amount, total: self.total - amount, ..self })
        } else {
            Err(TransactionError::InsufficientFunds)
        }
    }

    /// Puts a recorded transaction under dispute: a deposit's amount moves from
    /// available to held; a withdrawal's amount is added to held.
    pub open spec fn dispute(self, id: TransactionId) -> Result<AccountView, TransactionError> {
        if self.in_dispute.contains(id) {
            Err(TransactionError::AlreadyInDispute)
        } else if !self.transactions.contains_key(id) {
            Err(TransactionError::TransactionDoesNotExist)
        } else {
            let tx = self.transactions[id];
            let amount = amount_or_zero(tx);
            match tx@.tx_type {
                TransactionType::Deposit => Ok(
                    AccountView {
                        available: self.available - amount,
                        held: self.held + amount,
                        in_dispute: self.in_dispute.insert(id),
                        ..self
                    },
                ),
                TransactionType::Withdrawal => Ok(
                    AccountView {
                        held: self.held + amount,
                        in_dispute: self.in_dispute.insert(id),
                        ..self
                    },
                ),
                _ => Err(TransactionError::InvalidTransaction),
            }
        }
    }

    /// Ends a dispute in favour of the account holder's record: a deposit's amount
    /// moves back from held to available; a withdrawal's amount leaves held.
    pub open spec fn resolve(self, id: TransactionId) -> Result<AccountView, TransactionError> {
        if !self.in_dispute.contains(id) {
            Err(TransactionError::NotInDispute)
        } else if !self.transactions.contains_key(id) {
            Err(TransactionError::TransactionDoesNotExist)
        } else {
            let tx = self.transactions[id];
            let amount = amount_or_zero(tx);
            match tx@.tx_type {
                TransactionType::Deposit => Ok(
                    AccountView {
                        available: self.available + amount,
                        held: self.held - amount,
                        in_dispute: self.in_dispute.remove(id),
                        ..self
                    },
                ),
                TransactionType::Withdrawal => Ok(
                    AccountView {
                        held: self.held - amount,
                        in_dispute: self.in_dispute.remove(id),
                        ..self
                    },
                ),
                _ => Err(TransactionError::InvalidTransaction),
            }
        }
    }

    /// Reverses a disputed transaction and locks the account: a deposit's amount
    /// leaves held and total; a withdrawal's amount moves from held back to available.
    pub open spec fn chargeback(self, id: TransactionId) -> Result<AccountView, TransactionError> {
        if !self.in_dispute.contains(id) {
            Err(TransactionError::NotInDispute)
        } else if !self.transactions.contains_key(id) {
            Err(TransactionError::TransactionDoesNotExist)
        } else {
            let tx = self.transactions[id];
            let amount = amount_or_zero(tx);
            match tx@.tx_type {
                TransactionType::Deposit => Ok(
                    AccountView {
                        held: self.held - amount,
                        total: self.total - amount,
                        locked: true,
                        in_dispute: self.in_dispute.remove(id),
                        ..self
                    },
                ),
                TransactionType::Withdrawal => Ok(
                    AccountView {
                        available: self.available + amount,
                        held: self.held - amount,
                        locked: true,
                        in_dispute: self.in_dispute.remove(id),
                        ..self
                    },
                ),
                _ => Err(TransactionError::InvalidTransaction),
            }
        }
    }

    /// Keeps `tx` under its id, replacing whatever was kept there.
    pub open spec fn record(self, tx: Transaction) -> AccountView {
        AccountView { transactions: self.transactions.insert(tx@.transaction_id, tx), ..self }
    }

    /// What processing `tx` does to the account: the new state, or the error.
    pub open spec fn apply(self, tx: Transaction) -> Result<AccountView, TransactionError> {
        if tx@.client_id != self.client_id {
            Err(TransactionError::NotForThisAccount)
        } else if self.locked {
            Err(TransactionError::AccountLocked)
        } else {
            match tx@.tx_type {
                TransactionType::Deposit => match tx@.amount {
                    Some(a) => Ok(self.deposit(a as int).record(tx)),
                    None => Err(TransactionError::InvalidTransaction),
                },
                TransactionType::Withdrawal => match tx@.amount {
                    Some(a) => match self.withdraw(a as int) {
                        Ok(after) => Ok(after.record(tx)),
                        Err(e) => Err(e),
                    },
                    None => Err(TransactionError::InvalidTransaction),
                },
                TransactionType::Dispute => self.dispute(tx@.transaction_id),
                TransactionType::Resolve => self.resolve(tx@.transaction_id),
                TransactionType::Chargeback => self.chargeback(tx@.transaction_id),
            }
        }
    }

    /// All three balances can be held in `Money`.
    pub open spec fn balances_fit(self) -> bool {
        &&& fits_money(self.available)
        &&& fits_money(self.held)
        &&& fits_money(self.total)
    }

    /// The balances of a successful outcome can be held in `Money`
    /// (an error leaves the balances as they were).
    pub open spec fn outcome_fits(outcome: Result<AccountView, TransactionError>) -> bool {
        match outcome {
            Ok(after) => after.balances_fit(),
            Err(_) => true,
        }
    }
}

/// An operation that returned `r` took the account from `before` to `after`
/// exactly as `expected` says: to the new state with `Ok`, or leaving it
/// unchanged with the same error.
pub open spec fn realizes(
    before: AccountView,
    after: AccountView,
    r: Result<(), TransactionError>,
    expected: Result<AccountView, TransactionError>,
) -> bool {
    match expected {
        Ok(next) => r == Ok::<(), TransactionError>(()) && after == next,
        Err(e) => r == Err::<(), TransactionError>(e) && after == before,
    }
}

/// Whether `v` can be held in `Money`.
fn within_money(v: i128) -> (ok: bool)
    ensures
        ok == fits_money(v as int),
{
    i64::MIN as i128 <= v && v <= i64::MAX as i128
}

/// Represents a bank account for a client.
pub struct Account {
    /// The unique identifier for the client.
    client_id: ClientId,
    /// The available balance in the account.
    available: Money,
    /// The held amount in the account for disputed transactions.
    held: Money,
    /// The total balance in the account, including available and held amounts.
    total: Money,
    /// Indicates whether the account is locked.
    locked: bool,
    /// A map of transactions associated with this account.
    transactions: HashMap<TransactionId, Transaction>,
    /// A set of transaction IDs that are currently in dispute.
    in_dispute: HashSet<TransactionId>,
}

impl View for Account {
    type V = AccountView;

    closed spec fn view(&self) -> AccountView {
        AccountView {
            client_id: self.client_id,
            available: self.available as int,
            held: self.held as int,
            total: self.total as int,
            locked: self.locked,
            transactions: self.transactions@,
            in_dispute: self.in_dispute@,
        }
    }
}

impl Default for Account {
    /// An account of client 0 with no money and no history.
    fn default() -> (account: Self)
        ensures
            account@ == AccountView::opened(0),
    {
        Account::new(0)
    }
}

impl Account {
    /// Every balance of an account can be held in `Money`.
    pub proof fn lemma_balances_fit(&self)
        ensures
            self@.balances_fit(),
    {
    }

    /// Creates a new account for the given client ID.
    pub fn new(client_id: ClientId) -> (account: Self)
        ensures
            account@ == AccountView::opened(client_id),
    {
        Account {
            client_id,
            available: 0,
            held: 0,
            total: 0,
            locked: false,
            transactions: HashMap::new(),
            in_dispute: HashSet::new(),
        }
    }

    /// The client this account belongs to.
    pub fn client_id(&self) -> (id: ClientId)
        ensures
            id == self@.client_id,
    {
        self.client_id
    }

    /// The available balance.
    pub fn available(&self) -> (m: Money)
        ensures
            m == self@.available,
    {
        self.available
    }

    /// The balance held for disputed transactions.
    pub fn held(&self) -> (m: Money)
        ensures
            m == self@.held,
    {
        self.held
    }

    /// The total balance.
    pub fn total(&self) -> (m: Money)
        ensures
            m == self@.total,
    {
        self.total
    }

    /// Whether the account is locked.
    pub fn locked(&self) -> (b: bool)
        ensures
            b == self@.locked,
    {
        self.locked
    }

    /// Whether processing `transaction` leaves every balance within `Money`;
    /// `process_transaction` may only be called where it does.
    pub fn fits_balances(&self, transaction: &Transaction) -> (ok: bool)
        ensures
            ok == AccountView::outcome_fits(self@.apply(*transaction)),
    {
        if transaction.get_client_id() != self.client_id || self.locked {
            return true;
        }
        let available: i128 = self.available as i128;
        let held: i128 = self.held as i128;
        let total: i128 = self.total as i128;
        let id = transaction.get_transaction_id();
        let (available, held, total): (i128, i128, i128) = match transaction.get_type() {
            TransactionType::Deposit => match transaction.get_amount() {
                Some(a) => (available + a as i128, held, total + a as i128),
                None => return true,
            },
            TransactionType::Withdrawal => match transaction.get_amount() {
                Some(a) => {
                    if self.available >= a {
                        (available - a as i128, held, total - a as i128)
                    } else {
                        return true;
                    }
                },
                None => return true,
            },
            TransactionType::Dispute => {
                if self.in_dispute.contains(&id) {
                    return true;
                }
                match self.transactions.get(&id) {
                    Some(tx) => {
                        let a: i128 = tx.get_amount().unwrap_or(0) as i128;
                        match tx.get_type() {
                            TransactionType::Deposit => (available - a, held + a, total),
                            TransactionType::Withdrawal => (available, held + a, total),
                            _ => return true,
                        }
                    },
                    None => return true,
                }
            },
            TransactionType::Resolve => {
                if !self.in_dispute.contains(&id) {
                    return true;
                }
                match self.transactions.get(&id) {
                    Some(tx) => {
                        let a: i128 = tx.get_amount().unwrap_or(0) as i128;
                        match tx.get_type() {
                            TransactionType::Deposit => (available + a, held - a, total),
                            TransactionType::Withdrawal => (available, held - a, total),
                            _ => return true,
                        }
                    },
                    None => return true,
                }
            },
            TransactionType::Chargeback => {
                if !self.in_dispute.contains(&id) {
                    return true;
                }
                match self.transactions.get(&id) {
                    Some(tx) => {
                        let a: i128 = tx.get_amount().unwrap_or(0) as i128;
                        match tx.get_type() {
                            TransactionType::Deposit => (available, held - a, total - a),
                            TransactionType::Withdrawal => (available + a, held - a, total),
                            _ => return true,
                        }
                    },
                    None => return true,
                }
            },
        };
        within_money(available) && within_money(held) && within_money(total)
    }

    /// Deposits the specified amount into the account.
    pub fn deposit(&mut self, amount: Money)
        requires
            old(self)@.deposit(amount as int).balances_fit(),
        ensures
            final(self)@ == old(self)@.deposit(amount as int),
    {
        self.available = self.available + amount;
        self.total = self.total + amount;
    }

    /// Withdraws the specified amount from the account. Returns an error if there are insufficient funds.
    fn withdraw(&mut self, amount: Money) -> (r: Result<(), TransactionError>)
        requires
            AccountView::outcome_fits(old(self)@.withdraw(amount as int)),
        ensures
            realizes(old(self)@, final(self)@, r, old(self)@.withdraw(amount as int)),
    {
        if self.available >= amount {
            self.available = self.available - amount;
            self.total = self.total - amount;
            Ok(())
        } else {
            Err(TransactionError::InsufficientFunds)
        }
    }

    /// Marks a transaction as disputed. If the transaction is a deposit, it moves the amount from available to held. If it's a withdrawal, it adds the amount to held.
    /// Returns an error if the transaction is already in dispute or if the transaction doesn't exists.
    fn dispute(&mut self, transaction_id: TransactionId) -> (r: Result<(), TransactionError>)
        requires
            AccountView::outcome_fits(old(self)@.dispute(transaction_id)),
        ensures
            realizes(old(self)@, final(self)@, r, old(self)@.dispute(transaction_id)),
    {
        if self.in_dispute.contains(&transaction_id) {
            return Err(TransactionError::AlreadyInDispute);
        }
        match self.transactions.get(&transaction_id) {
            Some(tx) => {
                let tx = *tx;
                match tx.get_type() {
                    TransactionType::Deposit => {
                        self.available = self.available - tx.get_amount().unwrap_or(0);
                        self.held = self.held + tx.get_amount().unwrap_or(0);
                    },
                    TransactionType::Withdrawal => {
                        self.held = self.held + tx.get_amount().unwrap_or(0);
                    },
                    _ => return Err(TransactionError::InvalidTransaction),
                }
                self.in_dispute.insert(transaction_id);
                Ok(())
            },
            None => Err(TransactionError::TransactionDoesNotExist),
        }
    }

    /// Resolves a disputed transaction, moving the amount back to available if it was a deposit, or reducing held if it was a withdrawal.
    /// Returns an error if the transaction is not in dispute or if the transaction doesn't exist.
    fn resolve(&mut self, transaction_id: TransactionId) -> (r: Result<(), TransactionError>)
        requires
            AccountView::outcome_fits(old(self)@.resolve(transaction_id)),
        ensures
            realizes(old(self)@, final(self)@, r, old(self)@.resolve(transaction_id)),
    {
        if !self.in_dispute.contains(&transaction_id) {
            return Err(TransactionError::NotInDispute);
        }
        match self.transactions.get(&transaction_id) {
            Some(tx) => {
                let tx = *tx;
                match tx.get_type() {
                    TransactionType::Deposit => {
                        self.available = self.available + tx.get_amount().unwrap_or(0);
                        self.held = self.held - tx.get_amount().unwrap_or(0);
                    },
                    TransactionType::Withdrawal => {
                        self.held = self.held - tx.get_amount().unwrap_or(0);
                    },
                    _ => return Err(TransactionError::InvalidTransaction),
                }
                self.in_dispute.remove(&transaction_id);
                Ok(())
            },
            None => Err(TransactionError::TransactionDoesNotExist),
        }
    }

    /// Charges back a disputed transaction, locking the account and taking the held amount out of held and total if it was a deposit, or returning the held amount to available if it was a withdrawal.
    /// Returns an error if the transaction is not in dispute or if the transaction doesn't exist.
    fn chargeback(&mut self, transaction_id: TransactionId) -> (r: Result<(), TransactionError>)
        requires
            AccountView::outcome_fits(old(self)@.chargeback(transaction_id)),
        ensures
            realizes(old(self)@, final(self)@, r, old(self)@.chargeback(transaction_id)),
    {
        if !self.in_dispute.contains(&transaction_id) {
            return Err(TransactionError::NotInDispute);
        }
        match self.transactions.get(&transaction_id) {
            Some(tx) => {
                let tx = *tx;
                match tx.get_type() {
                    TransactionType::Deposit => {
                        self.held = self.held - tx.get_amount().unwrap_or(0);
                        self.total = self.total - tx.get_amount().unwrap_or(0);
                    },
                    TransactionType::Withdrawal => {
                        self.available = self.available + tx.get_amount().unwrap_or(0);
                        self.held = self.held - tx.get_amount().unwrap_or(0);
                    },
                    _ => return Err(TransactionError::InvalidTransaction),
                }
                self.locked = true;
                self.in_dispute.remove(&transaction_id);
                Ok(())
            },
            None => Err(TransactionError::TransactionDoesNotExist),
        }
    }

    /// Processes a transaction based on its type.
    /// Returns an error if the account is locked or if the transaction is invalid.
    pub fn process_transaction(&mut self, transaction: Transaction) -> (r: Result<
        (),
        TransactionError,
    >)
        requires
            AccountView::outcome_fits(old(self)@.apply(transaction)),
        ensures
            realizes(old(self)@, final(self)@, r, old(self)@.apply(transaction)),
    {
        if transaction.get_client_id() != self.client_id {
            return Err(TransactionError::NotForThisAccount);
        }
        if self.locked {
            return Err(TransactionError::AccountLocked);
        }
        match transaction.get_type() {
            TransactionType::Deposit => {
                let amount = match transaction.get_amount() {
                    Some(a) => a,
                    None => return Err(TransactionError::InvalidTransaction),
                };
                self.deposit(amount);
                self.transactions.insert(transaction.get_transaction_id(), transaction);
            },
            TransactionType::Withdrawal => {
                let amount = match transaction.get_amount() {
                    Some(a) => a,
                    None => return Err(TransactionError::InvalidTransaction),
                };
                match self.withdraw(amount) {
                    Ok(()) => {},
                    Err(e) => return Err(e),
                }
                self.transactions.insert(transaction.get_transaction_id(), transaction);
            },
            TransactionType::Dispute => {
                match self.dispute(transaction.get_transaction_id()) {
                    Ok(()) => {},
                    Err(e) => return Err(e),
                }
            },
            TransactionType::Resolve => {
                match self.resolve(transaction.get_transaction_id()) {
                    Ok(()) => {},
                    Err(e) => return Err(e),
                }
            },
            TransactionType::Chargeback => {
                match self.chargeback(transaction.get_transaction_id()) {
                    Ok(()) => {},
                    Err(e) => return Err(e),
                }
            },
        }
        Ok(())
    }
}

} // verus!
