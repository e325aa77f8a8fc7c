use bank::{Account, Transaction, TransactionError, TransactionType};

#[test]
fn test_wrong_account() {
    let mut account = Account::new(1);
    let transaction = Transaction::new(
        TransactionType::Deposit,
        2, // Different client ID
        1,
        Some(1000),
    );
    assert!(matches!(
        account.process_transaction(transaction),
        Err(TransactionError::NotForThisAccount)
    ));
}

#[test]
fn test_deposit() {
    let mut account = Account::new(1);
    let transaction = Transaction::new(TransactionType::Deposit, 1, 2, Some(1000));
    assert!(account.process_transaction(transaction).is_ok());
    assert_eq!(account.available(), 1000);
    assert_eq!(account.total(), 1000);
}

#[test]
fn test_withdrawal() {
    let mut account = Account::new(1);
    account.deposit(2000);
    let transaction = Transaction::new(TransactionType::Withdrawal, 1, 2, Some(1000));
    assert!(account.process_transaction(transaction).is_ok());
    assert_eq!(account.available(), 1000);
    assert_eq!(account.total(), 1000);
}

#[test]
fn test_withdrawal_insufficient_funds() {
    let mut account = Account::new(1);
    let transaction = Transaction::new(TransactionType::Withdrawal, 1, 2, Some(1000));
    assert!(matches!(
        account.process_transaction(transaction),
        Err(TransactionError::InsufficientFunds)
    ));
}

#[test]
fn test_invalid_dispute() {
    let mut account = Account::new(1);
    let transaction = Transaction::new(TransactionType::Dispute, 1, 2, None);
    assert!(matches!(
        account.process_transaction(transaction),
        Err(TransactionError::TransactionDoesNotExist)
    ));
}

#[test]
fn test_dispute() {
    let mut account = Account::new(1);
    let transaction = Transaction::new(TransactionType::Deposit, 1, 2, Some(1000));
    assert!(account.process_transaction(transaction).is_ok());
    let dispute_tx = Transaction::new(TransactionType::Dispute, 1, 2, None);
    assert!(account.process_transaction(dispute_tx).is_ok());
    assert_eq!(account.available(), 0);
    assert_eq!(account.held(), 1000);
}

#[test]
fn test_double_dispute() {
    let mut account = Account::new(1);
    let transaction = Transaction::new(TransactionType::Deposit, 1, 2, Some(1000));
    assert!(account.process_transaction(transaction).is_ok());
    let dispute_tx = Transaction::new(TransactionType::Dispute, 1, 2, None);
    assert!(account.process_transaction(dispute_tx.clone()).is_ok());
    assert!(matches!(
        account.process_transaction(dispute_tx),
        Err(TransactionError::AlreadyInDispute)
    ));
}

#[test]
fn test_resolve() {
    let mut account = Account::new(1);
    let transaction = Transaction::new(TransactionType::Deposit, 1, 2, Some(1000));
    assert!(account.process_transaction(transaction).is_ok());
    let dispute_tx = Transaction::new(TransactionType::Dispute, 1, 2, None);
    assert!(account.process_transaction(dispute_tx).is_ok());
    let resolve_tx = Transaction::new(TransactionType::Resolve, 1, 2, None);
    assert!(account.process_transaction(resolve_tx).is_ok());
    assert_eq!(account.available(), 1000);
    assert_eq!(account.held(), 0);
}

#[test]
fn test_deposit_chargeback() {
    let mut account = Account::new(1);
    let transaction = Transaction::new(TransactionType::Deposit, 1, 2, Some(1000));
    assert!(account.process_transaction(transaction).is_ok());
    let dispute_tx = Transaction::new(TransactionType::Dispute, 1, 2, None);
    assert!(account.process_transaction(dispute_tx).is_ok());
    let chargeback_tx = Transaction::new(TransactionType::Chargeback, 1, 2, None);
    assert!(account.process_transaction(chargeback_tx).is_ok());
    assert_eq!(account.available(), 0);
    assert_eq!(account.held(), 0);
    assert!(account.locked());
}

#[test]
fn test_withdraw_chargeback() {
    let mut account = Account::new(1);
    account.deposit(2000);
    let transaction = Transaction::new(TransactionType::Withdrawal, 1, 2, Some(1000));
    assert!(account.process_transaction(transaction).is_ok());
    let dispute_tx = Transaction::new(TransactionType::Dispute, 1, 2, None);
    assert!(account.process_transaction(dispute_tx).is_ok());
    let chargeback_tx = Transaction::new(TransactionType::Chargeback, 1, 2, None);
    assert!(account.process_transaction(chargeback_tx).is_ok());
    assert_eq!(account.available(), 2000);
    assert_eq!(account.held(), 0);
    assert!(account.locked());
}
