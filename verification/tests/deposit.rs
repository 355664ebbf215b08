//! Deposit behavior of a `ClientAccount`.

use payments_engine::account::ClientAccount;
use payments_engine::transaction::{Transaction, TransactionOutcome, TransactionType};

/// An amount of currency units in ten-thousandths.
fn amount(units: f64) -> u64 {
    (units * 10_000.0).round() as u64
}

/// A balance of currency units in ten-thousandths.
fn funds(units: f64) -> i128 {
    (units * 10_000.0).round() as i128
}

fn sample_account() -> ClientAccount {
    ClientAccount::default()
}

/// Single deposit increases available and total funds by the transaction amount.
/// The transaction ID should be recorded in the account's history and details.
#[test]
fn test_single_deposit() {
    let mut account = sample_account();
    let tx = Transaction {
        tx_type: TransactionType::Deposit,
        client: 1,
        tx: 1,
        amount: Some(amount(50.0)),
    };

    account.handle_deposit(tx).unwrap();

    assert_eq!(account.account_details.available_funds, funds(50.0));
    assert_eq!(account.account_details.total_funds, funds(50.0));
    assert!(account.account_transaction_archive.history.contains(&1));
    assert_eq!(
        account.account_transaction_archive.details.get(&1),
        Some(&(amount(50.0), TransactionType::Deposit))
    );
}

/// Deposit with fractional amount updates balances correctly.
#[test]
fn test_fractional_deposit() {
    let mut account = sample_account();
    let tx = Transaction {
        tx_type: TransactionType::Deposit,
        client: 1,
        tx: 2,
        amount: Some(amount(25.5)),
    };
    account.handle_deposit(tx).unwrap();

    assert_eq!(account.account_details.available_funds, funds(25.5));
    assert_eq!(account.account_details.total_funds, funds(25.5));
}

/// Multiple deposits accumulate correctly in available and total funds.
/// Each transaction ID should appear in the account's history.
#[test]
fn test_multiple_deposits_accumulate() {
    let mut account = sample_account();
    let tx1 = Transaction {
        tx_type: TransactionType::Deposit,
        client: 1,
        tx: 1,
        amount: Some(amount(10.0)),
    };
    let tx2 = Transaction {
        tx_type: TransactionType::Deposit,
        client: 1,
        tx: 2,
        amount: Some(amount(15.0)),
    };

    account.handle_deposit(tx1).unwrap();
    account.handle_deposit(tx2).unwrap();

    assert_eq!(account.account_details.available_funds, funds(25.0));
    assert_eq!(account.account_details.total_funds, funds(25.0));
    assert!(account.account_transaction_archive.history.contains(&1));
    assert!(account.account_transaction_archive.history.contains(&2));
}

/// Depositing with a duplicate transaction ID does not overwrite the previous amount in details.
/// The history set should only contain the transaction ID once.
#[test]
fn test_duplicate_transaction_id_does_not_overwrite_previous_transaction() {
    let mut account = sample_account();
    let tx1 = Transaction {
        tx_type: TransactionType::Deposit,
        client: 1,
        tx: 1,
        amount: Some(amount(10.0)),
    };
    let tx2 = Transaction {
        tx_type: TransactionType::Deposit,
        client: 1,
        tx: 1, // same tx ID
        amount: Some(amount(20.0)),
    };

    account.handle_deposit(tx1).unwrap();
    account.handle_deposit(tx2).unwrap();

    // The last deposit does not overwrite the amount in details
    assert_eq!(
        account.account_transaction_archive.details.get(&1),
        Some(&(amount(10.0), TransactionType::Deposit))
    );

    // History still only contains tx ID once
    assert_eq!(account.account_transaction_archive.history.len(), 1);
    assert!(account.account_transaction_archive.history.contains(&1));
}

/// A deposit with zero amount leaves balances unchanged.
/// The transaction ID is still recorded in history.
#[test]
fn test_zero_amount_deposit() {
    let mut account = sample_account();
    let tx = Transaction {
        tx_type: TransactionType::Deposit,
        client: 1,
        tx: 3,
        amount: Some(amount(0.0)),
    };
    account.handle_deposit(tx).unwrap();

    assert_eq!(account.account_details.available_funds, funds(0.0));
    assert_eq!(account.account_details.total_funds, funds(0.0));
    assert!(account.account_transaction_archive.history.contains(&3));
}

/// Very large deposits update balances correctly without overflow.
#[test]
fn test_large_deposit() {
    let mut account = sample_account();
    let tx = Transaction {
        tx_type: TransactionType::Deposit,
        client: 1,
        tx: 4,
        amount: Some(amount(1e12)),
    };

    account.handle_deposit(tx).unwrap();

    assert_eq!(account.account_details.available_funds, funds(1e12));
    assert_eq!(account.account_details.total_funds, funds(1e12));
}

/// A deposit always reports that it was applied, and the ledger applies a
/// repeated ID to the balances again: only the router drops duplicates.
#[test]
fn test_deposit_reports_applied_and_ledger_adds_again() {
    let mut account = sample_account();
    let tx = Transaction {
        tx_type: TransactionType::Deposit,
        client: 1,
        tx: 1,
        amount: Some(100_000),
    };
    assert_eq!(account.handle_deposit(tx).unwrap(), TransactionOutcome::Applied);
    assert_eq!(account.handle_deposit(tx).unwrap(), TransactionOutcome::Applied);
    assert_eq!(account.account_details.available_funds, 200_000);
    assert_eq!(account.account_details.total_funds, 200_000);
    assert_eq!(account.account_details.held_funds, 0);
    assert!(!account.account_details.is_account_locked);
}

/// The detail record keeps the kind that the transaction carried.
#[test]
fn test_deposit_records_kind_of_transaction() {
    let mut account = sample_account();
    let tx = Transaction {
        tx_type: TransactionType::Withdrawal,
        client: 1,
        tx: 9,
        amount: Some(1),
    };
    account.handle_deposit(tx).unwrap();
    assert_eq!(
        account.account_transaction_archive.details.get(&9),
        Some(&(1, TransactionType::Withdrawal))
    );
    assert_eq!(account.account_details.available_funds, 1);
}
