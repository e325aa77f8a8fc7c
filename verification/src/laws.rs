//! What holds of every account across transactions: the bookkeeping
//! invariants, and how disputes, resolutions and chargebacks relate.
use vstd::prelude::*;
use vstd::set::fold::{is_fun_commutative, lemma_fold_empty, lemma_fold_insert};
use vstd::set_lib::lemma_set_empty_equivalency_len;

use crate::account::{amount_or_zero, realizes, AccountView, TransactionError};
use crate::state::{account_or_opened, keyed_by_client, process};
use crate::transaction::{Transaction, TransactionType};
use crate::types::{ClientId, TransactionId};

verus! {

/// The amount that the transaction recorded under `id` contributes to a sum
/// over transactions of kind `kind`: its amount if it is of that kind, else zero.
pub open spec fn share(
    txs: Map<TransactionId, Transaction>,
    kind: TransactionType,
    id: TransactionId,
) -> int {
    if txs.contains_key(id) && txs[id]@.tx_type == kind {
        amount_or_zero(txs[id])
    } else {
        0
    }
}

/// The step of the running sum of `share` over a set of ids.
pub open spec fn add_share(txs: Map<TransactionId, Transaction>, kind: TransactionType) -> spec_fn(
    int,
    TransactionId,
) -> int {
    |acc: int, id: TransactionId| acc + share(txs, kind, id)
}

impl AccountView {
    /// The sum of the amounts of the disputed transactions of kind `kind`.
    pub open spec fn disputed_sum(self, kind: TransactionType) -> int {
        self.in_dispute.fold(0int, add_share(self.transactions, kind))
    }

    /// The account's record is well formed: only deposits and withdrawals
    /// with an amount are kept, each under its own id and for this client,
    /// and only kept transactions are under dispute.
    pub open spec fn valid(self) -> bool {
        &&& self.in_dispute.finite()
        &&& forall|id: TransactionId| #[trigger]
            self.in_dispute.contains(id) ==> self.transactions.contains_key(id)
        &&& forall|id: TransactionId| #[trigger]
            self.transactions.contains_key(id) ==> {
                let tx = self.transactions[id];
                &&& (tx@.tx_type == TransactionType::Deposit || tx@.tx_type
                    == TransactionType::Withdrawal)
                &&& tx@.amount is Some
                &&& tx@.transaction_id == id
                &&& tx@.client_id == self.client_id
            }
    }

    /// The balances agree with the disputes: the held balance is the sum of the
    /// disputed amounts, and, while the account is not locked, the available
    /// balance and the disputed deposits make up the total.
    pub open spec fn balanced(self) -> bool {
        &&& self.held == self.disputed_sum(TransactionType::Deposit) + self.disputed_sum(
            TransactionType::Withdrawal,
        )
        &&& !self.locked ==> self.available + self.disputed_sum(TransactionType::Deposit)
            == self.total
    }
}

/// A deposit or a withdrawal that reuses the id of a transaction under dispute,
/// with another kind or another amount than the one it replaces.
pub open spec fn replaces_disputed(a: AccountView, tx: Transaction) -> bool {
    let id = tx@.transaction_id;
    &&& (tx@.tx_type == TransactionType::Deposit || tx@.tx_type == TransactionType::Withdrawal)
    &&& a.in_dispute.contains(id)
    &&& (a.transactions[id]@.tx_type != tx@.tx_type || amount_or_zero(a.transactions[id])
        != amount_or_zero(tx))
}

proof fn lemma_add_share_commutes(txs: Map<TransactionId, Transaction>, kind: TransactionType)
    ensures
        is_fun_commutative(add_share(txs, kind)),
{
    let f = add_share(txs, kind);
    assert forall|a1: TransactionId, a2: TransactionId, b: int|
        #[trigger] f(f(b, a2), a1) == f(f(b, a1), a2) by {}
}

proof fn lemma_sum_insert(
    s: Set<TransactionId>,
    txs: Map<TransactionId, Transaction>,
    kind: TransactionType,
    id: TransactionId,
)
    requires
        s.finite(),
        !s.contains(id),
    ensures
        s.insert(id).fold(0int, add_share(txs, kind)) == s.fold(0int, add_share(txs, kind)) + share(
            txs,
            kind,
            id,
        ),
{
    lemma_add_share_commutes(txs, kind);
    lemma_fold_insert(s, 0int, add_share(txs, kind), id);
}

proof fn lemma_sum_remove(
    s: Set<TransactionId>,
    txs: Map<TransactionId, Transaction>,
    kind: TransactionType,
    id: TransactionId,
)
    requires
        s.finite(),
        s.contains(id),
    ensures
        s.remove(id).fold(0int, add_share(txs, kind)) == s.fold(0int, add_share(txs, kind)) - share(
            txs,
            kind,
            id,
        ),
{
    lemma_sum_insert(s.remove(id), txs, kind, id);
    assert(s.remove(id).insert(id) =~= s);
}

proof fn lemma_sum_agrees(
    s: Set<TransactionId>,
    t1: Map<TransactionId, Transaction>,
    t2: Map<TransactionId, Transaction>,
    kind: TransactionType,
)
    requires
        s.finite(),
        forall|id: TransactionId| s.contains(id) ==> share(t1, kind, id) == share(t2, kind, id),
    ensures
        s.fold(0int, add_share(t1, kind)) == s.fold(0int, add_share(t2, kind)),
    decreases s.len(),
{
    lemma_set_empty_equivalency_len(s);
    if s.len() == 0 {
        lemma_fold_empty(0int, add_share(t1, kind));
        lemma_fold_empty(0int, add_share(t2, kind));
    } else {
        let x = s.choose();
        lemma_sum_agrees(s.remove(x), t1, t2, kind);
        lemma_sum_remove(s, t1, kind, x);
        lemma_sum_remove(s, t2, kind, x);
    }
}

/// Keeping a deposit or withdrawal that replaces no disputed one differently
/// changes no disputed sum.
proof fn lemma_record_keeps_sums(a: AccountView, tx: Transaction)
    requires
        a.valid(),
        tx@.tx_type == TransactionType::Deposit || tx@.tx_type == TransactionType::Withdrawal,
        !replaces_disputed(a, tx),
    ensures
        a.record(tx).disputed_sum(TransactionType::Deposit) == a.disputed_sum(
            TransactionType::Deposit,
        ),
        a.record(tx).disputed_sum(TransactionType::Withdrawal) == a.disputed_sum(
            TransactionType::Withdrawal,
        ),
{
    let t2 = a.record(tx).transactions;
    assert forall|id: TransactionId| a.in_dispute.contains(id) implies share(
        a.transactions,
        TransactionType::Deposit,
        id,
    ) == share(t2, TransactionType::Deposit, id) && share(
        a.transactions,
        TransactionType::Withdrawal,
        id,
    ) == share(t2, TransactionType::Withdrawal, id) by {
        assert(a.transactions.contains_key(id));
    }
    lemma_sum_agrees(a.in_dispute, a.transactions, t2, TransactionType::Deposit);
    lemma_sum_agrees(a.in_dispute, a.transactions, t2, TransactionType::Withdrawal);
}

/// A freshly opened account is well formed and balanced.
pub proof fn lemma_opened_is_valid_and_balanced(client_id: ClientId)
    ensures
        AccountView::opened(client_id).valid(),
        AccountView::opened(client_id).balanced(),
{
    lemma_fold_empty(0int, add_share(Map::empty(), TransactionType::Deposit));
    lemma_fold_empty(0int, add_share(Map::empty(), TransactionType::Withdrawal));
}

/// Every transaction that an account accepts leaves it well formed.
pub proof fn lemma_apply_keeps_valid(a: AccountView, tx: Transaction)
    requires
        a.valid(),
        a.apply(tx) is Ok,
    ensures
        a.apply(tx)->Ok_0.valid(),
{
    let b = a.apply(tx)->Ok_0;
    assert forall|id: TransactionId| #[trigger] b.in_dispute.contains(id) implies b.transactions.contains_key(id) by {
        if !a.in_dispute.contains(id) {
            assert(id == tx@.transaction_id);
        }
    }
}

/// Unless an accepted deposit or withdrawal replaces a transaction under dispute
/// by another kind or amount, every transaction keeps a well-formed account
/// balanced: held is the sum of the disputed amounts, and an unlocked account's
/// available balance plus its disputed deposits is its total.
pub proof fn lemma_apply_keeps_balanced(a: AccountView, tx: Transaction)
    requires
        a.valid(),
        a.balanced(),
        !(replaces_disputed(a, tx) && a.apply(tx) is Ok),
    ensures
        match a.apply(tx) {
            Ok(b) => b.balanced(),
            Err(_) => true,
        },
{
    let dep = TransactionType::Deposit;
    let wd = TransactionType::Withdrawal;
    let id = tx@.transaction_id;
    if a.apply(tx) is Ok && tx@.client_id == a.client_id && !a.locked {
        match tx@.tx_type {
            TransactionType::Deposit => {
                lemma_record_keeps_sums(a.deposit(amount_or_zero(tx)), tx);
            },
            TransactionType::Withdrawal => {
                lemma_record_keeps_sums(a.withdraw(amount_or_zero(tx))->Ok_0, tx);
            },
            TransactionType::Dispute => {
                lemma_sum_insert(a.in_dispute, a.transactions, dep, id);
                lemma_sum_insert(a.in_dispute, a.transactions, wd, id);
            },
            TransactionType::Resolve => {
                lemma_sum_remove(a.in_dispute, a.transactions, dep, id);
                lemma_sum_remove(a.in_dispute, a.transactions, wd, id);
            },
            TransactionType::Chargeback => {
                lemma_sum_remove(a.in_dispute, a.transactions, dep, id);
                lemma_sum_remove(a.in_dispute, a.transactions, wd, id);
            },
        }
    }
}

/// Resolving a transaction right after disputing it gives back the account as it was.
pub proof fn lemma_resolve_undoes_dispute(a: AccountView, dispute: Transaction, resolve: Transaction)
    requires
        dispute@.tx_type == TransactionType::Dispute,
        resolve@.tx_type == TransactionType::Resolve,
        resolve@.client_id == dispute@.client_id,
        resolve@.transaction_id == dispute@.transaction_id,
        a.apply(dispute) is Ok,
    ensures
        a.apply(dispute)->Ok_0.apply(resolve) == Ok::<AccountView, TransactionError>(a),
{
    lemma_resolve_of_dispute(a, dispute@.transaction_id);
}

/// A dispute never changes the total. Disputing a deposit moves its amount from
/// available to held; disputing a withdrawal adds its amount to held and leaves
/// available as it was.
pub proof fn lemma_dispute_effects(a: AccountView, tx: Transaction)
    requires
        tx@.tx_type == TransactionType::Dispute,
        a.apply(tx) is Ok,
    ensures
        ({
            let b = a.apply(tx)->Ok_0;
            let disputed = a.transactions[tx@.transaction_id];
            let amount = amount_or_zero(disputed);
            &&& a.transactions.contains_key(tx@.transaction_id)
            &&& b.in_dispute == a.in_dispute.insert(tx@.transaction_id)
            &&& b.total == a.total
            &&& b.held == a.held + amount
            &&& disputed@.tx_type == TransactionType::Deposit ==> b.available == a.available
                - amount
            &&& disputed@.tx_type == TransactionType::Withdrawal ==> b.available == a.available
        }),
{
}

/// A chargeback locks the account. Charging back a deposit takes its amount out of
/// held and total; charging back a withdrawal moves its amount from held back to
/// available and leaves the total as it was.
pub proof fn lemma_chargeback_effects(a: AccountView, tx: Transaction)
    requires
        tx@.tx_type == TransactionType::Chargeback,
        a.apply(tx) is Ok,
    ensures
        ({
            let b = a.apply(tx)->Ok_0;
            let disputed = a.transactions[tx@.transaction_id];
            let amount = amount_or_zero(disputed);
            &&& a.in_dispute.contains(tx@.transaction_id)
            &&& b.in_dispute == a.in_dispute.remove(tx@.transaction_id)
            &&& b.locked
            &&& b.held == a.held - amount
            &&& disputed@.tx_type == TransactionType::Deposit ==> b.total == a.total - amount
                && b.available == a.available
            &&& disputed@.tx_type == TransactionType::Withdrawal ==> b.total == a.total
                && b.available == a.available + amount
        }),
{
}

/// A locked account refuses every transaction (with `AccountLocked` when it is
/// for the account's own client), so it stays as it is for good.
pub proof fn lemma_locked_refuses(a: AccountView, tx: Transaction)
    requires
        a.locked,
    ensures
        a.apply(tx) is Err,
        tx@.client_id == a.client_id ==> a.apply(tx) == Err::<AccountView, TransactionError>(
            TransactionError::AccountLocked,
        ),
{
}

/// Each transaction reaches the account of its own client: the system never answers
/// `NotForThisAccount`, the client's account exists afterwards (opened if need be,
/// even when the transaction is refused), every other account stays as it was, and
/// each account stays under its own client's id.
pub proof fn lemma_process_routes_to_client(accounts: Map<ClientId, AccountView>, tx: Transaction)
    requires
        keyed_by_client(accounts),
    ensures
        keyed_by_client(process(accounts, tx).0),
        process(accounts, tx).1 != Err::<(), TransactionError>(
            TransactionError::NotForThisAccount,
        ),
        process(accounts, tx).0.contains_key(tx@.client_id),
        forall|c: ClientId|
            c != tx@.client_id ==> (#[trigger] process(accounts, tx).0.contains_key(c)
                == accounts.contains_key(c)) && (accounts.contains_key(c) ==> process(
                accounts,
                tx,
            ).0[c] == accounts[c]),
{
    let before = account_or_opened(accounts, tx@.client_id);
    assert(before.client_id == tx@.client_id);
}

/// Processing keeps every account of the system well formed.
pub proof fn lemma_process_keeps_accounts_valid(
    accounts: Map<ClientId, AccountView>,
    tx: Transaction,
)
    requires
        forall|c: ClientId| #[trigger] accounts.contains_key(c) ==> accounts[c].valid(),
    ensures
        forall|c: ClientId| #[trigger]
            process(accounts, tx).0.contains_key(c) ==> process(accounts, tx).0[c].valid(),
{
    let before = account_or_opened(accounts, tx@.client_id);
    lemma_opened_is_valid_and_balanced(tx@.client_id);
    if before.apply(tx) is Ok {
        lemma_apply_keeps_valid(before, tx);
    }
}

/// A transaction is refused as not for this account exactly when its client is
/// another, and as `AccountLocked` exactly when it is this client's and the account
/// is locked; an accepted transaction keeps the account's client.
pub proof fn lemma_apply_refusals(a: AccountView, tx: Transaction)
    ensures
        (a.apply(tx) == Err::<AccountView, TransactionError>(TransactionError::NotForThisAccount))
            <==> tx@.client_id != a.client_id,
        (a.apply(tx) == Err::<AccountView, TransactionError>(TransactionError::AccountLocked)) <==> (
        tx@.client_id == a.client_id && a.locked),
        a.apply(tx) is Ok ==> a.apply(tx)->Ok_0.client_id == a.client_id,
{
}

/// On a well-formed account, disputing, resolving and charging back never meet a
/// transaction of the wrong kind: a dispute succeeds exactly when the transaction is
/// kept and not yet disputed, a resolve or a chargeback exactly when it is disputed,
/// and each success leaves the account well formed.
pub proof fn lemma_valid_dispute_outcomes(a: AccountView, id: TransactionId)
    requires
        a.valid(),
    ensures
        a.dispute(id) != Err::<AccountView, TransactionError>(TransactionError::InvalidTransaction),
        a.resolve(id) != Err::<AccountView, TransactionError>(TransactionError::InvalidTransaction),
        a.chargeback(id) != Err::<AccountView, TransactionError>(
            TransactionError::InvalidTransaction,
        ),
        a.dispute(id) is Ok <==> !a.in_dispute.contains(id) && a.transactions.contains_key(id),
        a.resolve(id) is Ok <==> a.in_dispute.contains(id),
        a.chargeback(id) is Ok <==> a.in_dispute.contains(id),
        a.dispute(id) is Ok ==> a.dispute(id)->Ok_0.valid(),
        a.resolve(id) is Ok ==> a.resolve(id)->Ok_0.valid(),
        a.chargeback(id) is Ok ==> a.chargeback(id)->Ok_0.valid(),
{
    if a.transactions.contains_key(id) {
        assert(a.transactions.contains_key(id));
    }
    if a.dispute(id) is Ok {
        let b = a.dispute(id)->Ok_0;
        assert forall|i: TransactionId| #[trigger] b.in_dispute.contains(i) implies b.transactions.contains_key(i) by {
            if i != id {
                assert(a.in_dispute.contains(i));
            }
        }
    }
}

/// Resolving right after a dispute of the same transaction succeeds and gives back
/// the account as it was.
pub proof fn lemma_resolve_of_dispute(a: AccountView, id: TransactionId)
    requires
        a.dispute(id) is Ok,
    ensures
        a.dispute(id)->Ok_0.resolve(id) == Ok::<AccountView, TransactionError>(a),
{
    let b = a.dispute(id)->Ok_0;
    assert(b.in_dispute.remove(id) =~= a.in_dispute);
    assert(b.resolve(id)->Ok_0 =~= a);
}

/// A new system keeps every account under its own client's id, and so does giving
/// out a client's account (the one it holds, or a freshly opened one) as long as
/// what is put back keeps that client.
pub proof fn lemma_accounts_stay_keyed(
    accounts: Map<ClientId, AccountView>,
    client_id: ClientId,
    after: AccountView,
)
    requires
        keyed_by_client(accounts),
        after.client_id == client_id,
    ensures
        keyed_by_client(Map::<ClientId, AccountView>::empty()),
        account_or_opened(accounts, client_id).client_id == client_id,
        keyed_by_client(accounts.insert(client_id, after)),
{
}

/// The amount of the transaction kept under `id`, where it is a deposit or a
/// withdrawal; `None` where nothing of that kind is kept there.
pub open spec fn kept_amount(a: AccountView, id: TransactionId) -> Option<int> {
    if a.transactions.contains_key(id) && (a.transactions[id]@.tx_type
        == TransactionType::Deposit || a.transactions[id]@.tx_type
        == TransactionType::Withdrawal) {
        Some(amount_or_zero(a.transactions[id]))
    } else {
        None
    }
}

/// Withdrawing succeeds exactly when the amount is at most the available balance
/// (held funds cannot be withdrawn); it then takes the amount from available and
/// total and leaves everything else; otherwise it is refused for insufficient funds.
pub proof fn lemma_withdraw_needs_available_funds(a: AccountView, amount: int)
    ensures
        a.withdraw(amount) is Ok <==> a.available >= amount,
        a.available < amount ==> a.withdraw(amount) == Err::<AccountView, TransactionError>(
            TransactionError::InsufficientFunds,
        ),
        a.available >= amount ==> ({
            let b = a.withdraw(amount)->Ok_0;
            &&& b.available == a.available - amount
            &&& b.total == a.total - amount
            &&& b.held == a.held
            &&& b.locked == a.locked
            &&& b.client_id == a.client_id
            &&& b.transactions == a.transactions
            &&& b.in_dispute == a.in_dispute
        }),
{
}

/// A deposit of an amount into an unlocked account of its own client always
/// succeeds, whatever the balances: it adds the amount to available and total,
/// keeps the deposit under its id, and changes nothing else. A deposit without an
/// amount is refused as invalid.
pub proof fn lemma_deposit_law(a: AccountView, tx: Transaction)
    requires
        tx@.tx_type == TransactionType::Deposit,
        tx@.client_id == a.client_id,
        !a.locked,
    ensures
        match tx@.amount {
            Some(x) => a.apply(tx) is Ok && ({
                let b = a.apply(tx)->Ok_0;
                &&& b.available == a.available + x
                &&& b.total == a.total + x
                &&& b.held == a.held
                &&& !b.locked
                &&& b.client_id == a.client_id
                &&& b.transactions == a.transactions.insert(tx@.transaction_id, tx)
                &&& b.in_dispute == a.in_dispute
            }),
            None => a.apply(tx) == Err::<AccountView, TransactionError>(
                TransactionError::InvalidTransaction,
            ),
        },
{
}

/// A withdrawal with an amount from an unlocked account of its own client succeeds
/// exactly when the amount is at most the available balance; it then takes the
/// amount from available and total, keeps the withdrawal under its id, and changes
/// nothing else. Otherwise it is refused for insufficient funds and nothing is kept.
/// A withdrawal without an amount is refused as invalid.
pub proof fn lemma_withdrawal_law(a: AccountView, tx: Transaction)
    requires
        tx@.tx_type == TransactionType::Withdrawal,
        tx@.client_id == a.client_id,
        !a.locked,
    ensures
        match tx@.amount {
            Some(x) => {
                &&& (a.apply(tx) is Ok <==> a.available >= x)
                &&& a.available < x ==> a.apply(tx) == Err::<AccountView, TransactionError>(
                    TransactionError::InsufficientFunds,
                )
                &&& a.available >= x ==> ({
                    let b = a.apply(tx)->Ok_0;
                    &&& b.available == a.available - x
                    &&& b.total == a.total - x
                    &&& b.held == a.held
                    &&& !b.locked
                    &&& b.client_id == a.client_id
                    &&& b.transactions == a.transactions.insert(tx@.transaction_id, tx)
                    &&& b.in_dispute == a.in_dispute
                })
            },
            None => a.apply(tx) == Err::<AccountView, TransactionError>(
                TransactionError::InvalidTransaction,
            ),
        },
{
}

/// A dispute sent to an unlocked account of its own client succeeds exactly when a
/// deposit or withdrawal is kept under its id and not yet disputed, whatever the
/// balances. Then the id goes under dispute and the amount is added to held; a
/// disputed deposit's amount also leaves available; the total, the kept
/// transactions and the lock stay. Otherwise it is refused: already in dispute,
/// or no such transaction.
pub proof fn lemma_dispute_law(a: AccountView, tx: Transaction)
    requires
        tx@.tx_type == TransactionType::Dispute,
        tx@.client_id == a.client_id,
        !a.locked,
    ensures
        ({
            let id = tx@.transaction_id;
            &&& (a.apply(tx) is Ok <==> !a.in_dispute.contains(id) && kept_amount(a, id) is Some)
            &&& a.in_dispute.contains(id) ==> a.apply(tx) == Err::<AccountView, TransactionError>(
                TransactionError::AlreadyInDispute,
            )
            &&& !a.in_dispute.contains(id) && !a.transactions.contains_key(id) ==> a.apply(tx)
                == Err::<AccountView, TransactionError>(TransactionError::TransactionDoesNotExist)
            &&& a.apply(tx) is Ok ==> ({
                let b = a.apply(tx)->Ok_0;
                let x = kept_amount(a, id)->Some_0;
                let deposit = a.transactions[id]@.tx_type == TransactionType::Deposit;
                &&& b.held == a.held + x
                &&& b.available == (if deposit {
                    a.available - x
                } else {
                    a.available
                })
                &&& b.total == a.total
                &&& !b.locked
                &&& b.client_id == a.client_id
                &&& b.transactions == a.transactions
                &&& b.in_dispute == a.in_dispute.insert(id)
            })
        }),
{
}

/// A resolve sent to an unlocked account of its own client succeeds exactly when
/// its id is under dispute and keeps a deposit or withdrawal, whatever the balances.
/// Then the id leaves the dispute and the amount leaves held; a resolved deposit's
/// amount returns to available; the total, the kept transactions and the lock stay.
/// Without a dispute it is refused as not in dispute.
pub proof fn lemma_resolve_law(a: AccountView, tx: Transaction)
    requires
        tx@.tx_type == TransactionType::Resolve,
        tx@.client_id == a.client_id,
        !a.locked,
    ensures
        ({
            let id = tx@.transaction_id;
            &&& (a.apply(tx) is Ok <==> a.in_dispute.contains(id) && kept_amount(a, id) is Some)
            &&& !a.in_dispute.contains(id) ==> a.apply(tx) == Err::<AccountView, TransactionError>(
                TransactionError::NotInDispute,
            )
            &&& a.apply(tx) is Ok ==> ({
                let b = a.apply(tx)->Ok_0;
                let x = kept_amount(a, id)->Some_0;
                let deposit = a.transactions[id]@.tx_type == TransactionType::Deposit;
                &&& b.held == a.held - x
                &&& b.available == (if deposit {
                    a.available + x
                } else {
                    a.available
                })
                &&& b.total == a.total
                &&& !b.locked
                &&& b.client_id == a.client_id
                &&& b.transactions == a.transactions
                &&& b.in_dispute == a.in_dispute.remove(id)
            })
        }),
{
}

/// A chargeback sent to an unlocked account of its own client succeeds exactly
/// when its id is under dispute and keeps a deposit or withdrawal, whatever the
/// balances. Then the account is locked, the id leaves the dispute and the amount
/// leaves held; a charged-back deposit's amount also leaves the total, a
/// charged-back withdrawal's amount returns to available. Without a dispute it is
/// refused as not in dispute.
pub proof fn lemma_chargeback_law(a: AccountView, tx: Transaction)
    requires
        tx@.tx_type == TransactionType::Chargeback,
        tx@.client_id == a.client_id,
        !a.locked,
    ensures
        ({
            let id = tx@.transaction_id;
            &&& (a.apply(tx) is Ok <==> a.in_dispute.contains(id) && kept_amount(a, id) is Some)
            &&& !a.in_dispute.contains(id) ==> a.apply(tx) == Err::<AccountView, TransactionError>(
                TransactionError::NotInDispute,
            )
            &&& a.apply(tx) is Ok ==> ({
                let b = a.apply(tx)->Ok_0;
                let x = kept_amount(a, id)->Some_0;
                let deposit = a.transactions[id]@.tx_type == TransactionType::Deposit;
                &&& b.locked
                &&& b.held == a.held - x
                &&& b.total == (if deposit {
                    a.total - x
                } else {
                    a.total
                })
                &&& b.available == (if deposit {
                    a.available
                } else {
                    a.available + x
                })
                &&& b.client_id == a.client_id
                &&& b.transactions == a.transactions
                &&& b.in_dispute == a.in_dispute.remove(id)
            })
        }),
{
}

/// Processing in the system does to the client's account exactly what the account
/// does itself: afterwards the client's entry is the account's new state on
/// success, and the account as it was (opened if it was missing) on refusal, with
/// the account's own answer.
pub proof fn lemma_process_is_account_step(accounts: Map<ClientId, AccountView>, tx: Transaction)
    ensures
        ({
            let c = tx@.client_id;
            let before = account_or_opened(accounts, c);
            let (after, r) = process(accounts, tx);
            &&& after.contains_key(c)
            &&& after.dom() == accounts.dom().insert(c)
            &&& match before.apply(tx) {
                Ok(b) => r == Ok::<(), TransactionError>(()) && after[c] == b,
                Err(e) => r == Err::<(), TransactionError>(e) && after[c] == before,
            }
        }),
{
    let c = tx@.client_id;
    let (after, r) = process(accounts, tx);
    assert(after.dom() =~= accounts.dom().insert(c));
}

/// In the system, a locked account stays exactly as it is whatever is processed,
/// and refuses its own client's transactions as locked; a chargeback that the
/// system accepts leaves its client's account locked.
pub proof fn lemma_system_lock_is_final(
    accounts: Map<ClientId, AccountView>,
    tx: Transaction,
    c: ClientId,
)
    requires
        keyed_by_client(accounts),
    ensures
        accounts.contains_key(c) && accounts[c].locked ==> process(accounts, tx).0[c]
            == accounts[c],
        accounts.contains_key(c) && accounts[c].locked && tx@.client_id == c ==> process(
            accounts,
            tx,
        ).1 == Err::<(), TransactionError>(TransactionError::AccountLocked),
        tx@.tx_type == TransactionType::Chargeback && process(accounts, tx).1 is Ok ==> process(
            accounts,
            tx,
        ).0[tx@.client_id].locked,
{
}

/// A freshly opened account belongs to its client, holds no money, is not locked,
/// keeps no transaction and has nothing under dispute; the system gives out the
/// account it holds for a client, or such a fresh one where it holds none.
pub proof fn lemma_opened_account_law(accounts: Map<ClientId, AccountView>, c: ClientId)
    ensures
        ({
            let a = AccountView::opened(c);
            &&& a.client_id == c
            &&& a.available == 0 && a.held == 0 && a.total == 0
            &&& !a.locked
            &&& a.transactions.dom().is_empty()
            &&& a.in_dispute.is_empty()
        }),
        accounts.contains_key(c) ==> account_or_opened(accounts, c) == accounts[c],
        !accounts.contains_key(c) ==> account_or_opened(accounts, c) == AccountView::opened(c),
{
}

/// An operation's outcome as the executable functions report it: `Ok` exactly when
/// the model succeeds, with the model's new state; on an error, the same error and
/// the account exactly as before.
pub proof fn lemma_realizes_law(
    before: AccountView,
    after: AccountView,
    r: Result<(), TransactionError>,
    expected: Result<AccountView, TransactionError>,
)
    requires
        realizes(before, after, r, expected),
    ensures
        r is Ok <==> expected is Ok,
        expected is Ok ==> after == expected->Ok_0,
        expected is Err ==> after == before && r == Err::<(), TransactionError>(expected->Err_0),
{
}

/// The overflow condition of processing holds exactly when the transaction is
/// refused, or when every balance of the new state lies between `i64::MIN` and
/// `i64::MAX`.
pub proof fn lemma_outcome_fits_law(outcome: Result<AccountView, TransactionError>)
    ensures
        AccountView::outcome_fits(outcome) <==> (outcome is Err || ({
            let b = outcome->Ok_0;
            &&& -0x8000_0000_0000_0000int <= b.available <= 0x7fff_ffff_ffff_ffffint
            &&& -0x8000_0000_0000_0000int <= b.held <= 0x7fff_ffff_ffff_ffffint
            &&& -0x8000_0000_0000_0000int <= b.total <= 0x7fff_ffff_ffff_ffffint
        })),
{
}

} // verus!
