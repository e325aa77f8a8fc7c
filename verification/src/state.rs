//! The state of the banking system: every client's account, and the routing
//! of each transaction to the account of its client.
use std::collections::HashMap;

use vstd::prelude::*;

use crate::account::{Account, AccountView, TransactionError};
use crate::transaction::Transaction;
use crate::types::ClientId;

verus! {

broadcast use vstd::std_specs::hash::group_hash_axioms;

/// The account of `client_id` in `accounts`, or a freshly opened one where it has none.
pub open spec fn account_or_opened(
    accounts: Map<ClientId, AccountView>,
    client_id: ClientId,
) -> AccountView {
    if accounts.contains_key(client_id) {
        accounts[client_id]
    } else {
        AccountView::opened(client_id)
    }
}

/// What processing `tx` does to the system: the accounts afterwards, and the outcome.
/// The client's account is opened first where it does not exist, even if the
/// transaction is then refused.
pub open spec fn process(accounts: Map<ClientId, AccountView>, tx: Transaction) -> (
    Map<ClientId, AccountView>,
    Result<(), TransactionError>,
) {
    let client_id = tx@.client_id;
    let before = account_or_opened(accounts, client_id);
    match before.apply(tx) {
        Ok(after) => (accounts.insert(client_id, after), Ok(())),
        Err(e) => (accounts.insert(client_id, before), Err(e)),
    }
}

/// Every account is kept under the id of its own client.
pub open spec fn keyed_by_client(accounts: Map<ClientId, AccountView>) -> bool {
    forall|c: ClientId| #[trigger] accounts.contains_key(c) ==> accounts[c].client_id == c
}

/// Represents the state of the banking system, including all accounts.
pub struct State {
    /// A map of client IDs to their respective accounts.
    accounts: HashMap<ClientId, Account>,
}

impl View for State {
    type V = Map<ClientId, AccountView>;

    closed spec fn view(&self) -> Map<ClientId, AccountView> {
        views(self.accounts@)
    }
}

/// The views of the accounts of a map.
pub open spec fn views(accounts: Map<ClientId, Account>) -> Map<ClientId, AccountView> {
    accounts.map_values(|a: Account| a@)
}

/// Putting an account into the map puts its view into the map of views.
proof fn lemma_view_of_insert(accounts: Map<ClientId, Account>, client_id: ClientId)
    ensures
        forall|account: Account| #[trigger]
            views(accounts.insert(client_id, account)) == views(accounts).insert(
                client_id,
                account@,
            ),
{
    assert forall|account: Account| #[trigger]
        views(accounts.insert(client_id, account)) =~= views(accounts).insert(
            client_id,
            account@,
        ) by {}
}

impl State {
    /// Creates a new instance of `State` with an empty accounts map.
    pub fn new() -> (state: Self)
        ensures
            state@ == Map::<ClientId, AccountView>::empty(),
    {
        let state = State { accounts: HashMap::new() };
        assert(state@ =~= Map::<ClientId, AccountView>::empty());
        state
    }

    /// Retrieves an account by client ID, or creates a new one if it doesn't exist.
    pub fn get_or_create_account(&mut self, client_id: ClientId) -> (account: &mut Account)
        ensures
            account@ == account_or_opened(old(self)@, client_id),
            final(self)@ == old(self)@.insert(client_id, final(account)@),
    {
        proof {
            lemma_view_of_insert(self.accounts@, client_id);
        }
        self.accounts.entry(client_id).or_insert(Account::new(client_id))
    }

    /// Retrieves all accounts in the state.
    pub fn get_all_accounts(&self) -> (accounts: &HashMap<ClientId, Account>)
        ensures
            views(accounts@) == self@,
    {
        &self.accounts
    }

    /// Whether processing `transaction` leaves every balance of its client's
    /// account within `Money`; `process_transaction` may only be called where it does.
    pub fn fits_balances(&self, transaction: &Transaction) -> (ok: bool)
        ensures
            ok == AccountView::outcome_fits(
                account_or_opened(self@, transaction@.client_id).apply(*transaction),
            ),
    {
        match self.accounts.get(&transaction.get_client_id()) {
            Some(account) => account.fits_balances(transaction),
            None => Account::new(transaction.get_client_id()).fits_balances(transaction),
        }
    }

    /// Processes a transaction, updating the account of its client accordingly.
    pub fn process_transaction(&mut self, transaction: Transaction) -> (r: Result<
        (),
        TransactionError,
    >)
        requires
            AccountView::outcome_fits(
                account_or_opened(old(self)@, transaction@.client_id).apply(transaction),
            ),
        ensures
            (final(self)@, r) == process(old(self)@, transaction),
    {
        let account = self.get_or_create_account(transaction.get_client_id());
        account.process_transaction(transaction)
    }
}

} // verus!
