use bank::{Account, Transaction, TransactionError, TransactionType};

fn tx(t: TransactionType, client: u16, id: u32, amount: Option<i64>) -> Transaction {
    Transaction::new(t, client, id, amount)
}

#[test]
fn transaction_getters_give_back_the_parts() {
    let t = tx(TransactionType::Withdrawal, 9, 77, Some(-3));
    assert_eq!(*t.get_type(), TransactionType::Withdrawal);
    assert_eq!(t.get_client_id(), 9);
    assert_eq!(t.get_transaction_id(), 77);
    assert_eq!(t.get_amount(), Some(-3));
}

#[test]
fn new_account_is_empty() {
    let account = Account::new(5);
    assert_eq!(account.client_id(), 5);
    assert_eq!(account.available(), 0);
    assert_eq!(account.held(), 0);
    assert_eq!(account.total(), 0);
    assert!(!account.locked());
}

#[test]
fn resolve_undoes_dispute_of_withdrawal() {
    let mut account = Account::new(1);
    account.deposit(2000);
    assert!(account.process_transaction(tx(TransactionType::Withdrawal, 1, 2, Some(700))).is_ok());
    assert!(account.process_transaction(tx(TransactionType::Dispute, 1, 2, None)).is_ok());
    assert_eq!(account.available(), 1300);
    assert_eq!(account.held(), 700);
    assert_eq!(account.total(), 1300);
    assert!(account.process_transaction(tx(TransactionType::Resolve, 1, 2, None)).is_ok());
    assert_eq!(account.available(), 1300);
    assert_eq!(account.held(), 0);
    assert_eq!(account.total(), 1300);
    // The dispute can be opened again once resolved.
    assert!(account.process_transaction(tx(TransactionType::Dispute, 1, 2, None)).is_ok());
}

#[test]
fn deposit_dispute_keeps_total() {
    let mut account = Account::new(1);
    assert!(account.process_transaction(tx(TransactionType::Deposit, 1, 2, Some(1000))).is_ok());
    assert!(account.process_transaction(tx(TransactionType::Dispute, 1, 2, None)).is_ok());
    assert_eq!(account.total(), 1000);
    assert_eq!(account.available() + account.held(), 1000);
}

#[test]
fn deposit_chargeback_lowers_total() {
    let mut account = Account::new(1);
    assert!(account.process_transaction(tx(TransactionType::Deposit, 1, 1, Some(300))).is_ok());
    assert!(account.process_transaction(tx(TransactionType::Deposit, 1, 2, Some(1000))).is_ok());
    assert!(account.process_transaction(tx(TransactionType::Dispute, 1, 2, None)).is_ok());
    assert!(account.process_transaction(tx(TransactionType::Chargeback, 1, 2, None)).is_ok());
    assert_eq!(account.total(), 300);
    assert_eq!(account.available(), 300);
    assert_eq!(account.held(), 0);
}

#[test]
fn withdrawal_chargeback_keeps_total() {
    let mut account = Account::new(1);
    account.deposit(2000);
    assert!(account.process_transaction(tx(TransactionType::Withdrawal, 1, 2, Some(1000))).is_ok());
    assert!(account.process_transaction(tx(TransactionType::Dispute, 1, 2, None)).is_ok());
    assert!(account.process_transaction(tx(TransactionType::Chargeback, 1, 2, None)).is_ok());
    assert_eq!(account.total(), 1000);
}

#[test]
fn locked_account_refuses_everything_and_stays() {
    let mut account = Account::new(1);
    assert!(account.process_transaction(tx(TransactionType::Deposit, 1, 2, Some(1000))).is_ok());
    assert!(account.process_transaction(tx(TransactionType::Deposit, 1, 3, Some(50))).is_ok());
    assert!(account.process_transaction(tx(TransactionType::Dispute, 1, 2, None)).is_ok());
    assert!(account.process_transaction(tx(TransactionType::Chargeback, 1, 2, None)).is_ok());
    for t in [
        tx(TransactionType::Deposit, 1, 4, Some(10)),
        tx(TransactionType::Withdrawal, 1, 5, Some(10)),
        tx(TransactionType::Dispute, 1, 3, None),
        tx(TransactionType::Resolve, 1, 2, None),
        tx(TransactionType::Chargeback, 1, 3, None),
    ] {
        assert!(matches!(account.process_transaction(t), Err(TransactionError::AccountLocked)));
    }
    assert!(matches!(
        account.process_transaction(tx(TransactionType::Deposit, 2, 4, Some(10))),
        Err(TransactionError::NotForThisAccount)
    ));
    assert_eq!(account.available(), 50);
    assert_eq!(account.held(), 0);
    assert_eq!(account.total(), 50);
    assert!(account.locked());
}

#[test]
fn errors_leave_the_account_unchanged() {
    let mut account = Account::new(1);
    assert!(account.process_transaction(tx(TransactionType::Deposit, 1, 2, Some(100))).is_ok());
    assert!(matches!(
        account.process_transaction(tx(TransactionType::Withdrawal, 1, 3, Some(101))),
        Err(TransactionError::InsufficientFunds)
    ));
    assert!(matches!(
        account.process_transaction(tx(TransactionType::Deposit, 1, 4, None)),
        Err(TransactionError::InvalidTransaction)
    ));
    assert!(matches!(
        account.process_transaction(tx(TransactionType::Withdrawal, 1, 5, None)),
        Err(TransactionError::InvalidTransaction)
    ));
    // The refused withdrawal was not recorded, so it cannot be disputed.
    assert!(matches!(
        account.process_transaction(tx(TransactionType::Dispute, 1, 3, None)),
        Err(TransactionError::TransactionDoesNotExist)
    ));
    assert_eq!(account.available(), 100);
    assert_eq!(account.total(), 100);
    assert_eq!(account.held(), 0);
    assert!(!account.locked());
}

#[test]
fn resolve_and_chargeback_need_a_dispute() {
    let mut account = Account::new(1);
    assert!(account.process_transaction(tx(TransactionType::Deposit, 1, 2, Some(100))).is_ok());
    assert!(matches!(
        account.process_transaction(tx(TransactionType::Resolve, 1, 2, None)),
        Err(TransactionError::NotInDispute)
    ));
    assert!(matches!(
        account.process_transaction(tx(TransactionType::Chargeback, 1, 2, None)),
        Err(TransactionError::NotInDispute)
    ));
    assert!(!account.locked());
}

#[test]
fn withdrawal_of_exactly_the_available_balance_succeeds() {
    let mut account = Account::new(1);
    assert!(account.process_transaction(tx(TransactionType::Deposit, 1, 2, Some(100))).is_ok());
    assert!(account.process_transaction(tx(TransactionType::Withdrawal, 1, 3, Some(100))).is_ok());
    assert_eq!(account.available(), 0);
    assert_eq!(account.total(), 0);
}

#[test]
fn held_is_sum_of_disputed_amounts() {
    let mut account = Account::new(1);
    account.deposit(5000);
    assert!(account.process_transaction(tx(TransactionType::Deposit, 1, 1, Some(400))).is_ok());
    assert!(account.process_transaction(tx(TransactionType::Withdrawal, 1, 2, Some(900))).is_ok());
    assert!(account.process_transaction(tx(TransactionType::Dispute, 1, 1, None)).is_ok());
    assert!(account.process_transaction(tx(TransactionType::Dispute, 1, 2, None)).is_ok());
    assert_eq!(account.held(), 1300);
    // available + disputed deposits == total
    assert_eq!(account.available() + 400, account.total());
}

#[test]
fn fits_balances_matches_overflow() {
    let mut account = Account::new(1);
    assert!(account.fits_balances(&tx(TransactionType::Deposit, 1, 1, Some(i64::MAX))));
    account.deposit(i64::MAX);
    assert!(!account.fits_balances(&tx(TransactionType::Deposit, 1, 2, Some(1))));
    // Refused transactions never overflow.
    assert!(account.fits_balances(&tx(TransactionType::Deposit, 2, 2, Some(1))));
    assert!(account.fits_balances(&tx(TransactionType::Withdrawal, 1, 3, None)));
    assert!(account.fits_balances(&tx(TransactionType::Withdrawal, 1, 3, Some(5))));
}

#[test]
fn reusing_a_disputed_id_replaces_the_record() {
    let mut account = Account::new(1);
    assert!(account.process_transaction(tx(TransactionType::Deposit, 1, 5, Some(100))).is_ok());
    assert!(account.process_transaction(tx(TransactionType::Dispute, 1, 5, None)).is_ok());
    assert_eq!(account.held(), 100);
    // A new deposit under the same id replaces the kept record.
    assert!(account.process_transaction(tx(TransactionType::Deposit, 1, 5, Some(300))).is_ok());
    assert!(account.process_transaction(tx(TransactionType::Resolve, 1, 5, None)).is_ok());
    assert_eq!(account.available(), 600);
    assert_eq!(account.held(), -200);
    assert_eq!(account.total(), 400);
}

#[test]
fn error_messages() {
    assert_eq!(TransactionError::InsufficientFunds.message(), "Insufficient funds for transaction");
    assert_eq!(TransactionError::AccountLocked.message(), "Account is locked");
    assert_eq!(TransactionError::InvalidTransaction.message(), "Invalid transaction");
    assert_eq!(TransactionError::AlreadyInDispute.message(), "Transaction is already in dispute");
    assert_eq!(TransactionError::NotInDispute.message(), "Transaction not in dispute");
    assert_eq!(TransactionError::NotForThisAccount.message(), "Transaction is not for this account");
    assert_eq!(TransactionError::TransactionDoesNotExist.message(), "Transaction does not exist");
}

#[test]
fn default_account_is_empty_account_of_client_zero() {
    let account = Account::default();
    assert_eq!(account.client_id(), 0);
    assert_eq!(account.available(), 0);
    assert_eq!(account.held(), 0);
    assert_eq!(account.total(), 0);
    assert!(!account.locked());
}
