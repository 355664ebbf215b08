//! Checking the feed's file name, and the random feed.

use payments_engine::errors::PaymentsTransactionError;
use payments_engine::transaction::TransactionType;
use payments_engine::utils::{
    check_transaction_file, generate_transactions, transaction_kinds, MAX_GENERATED_AMOUNT,
};
use payments_engine::PaymentsEngine;

/// A random feed of twenty transactions for six clients.
#[test]
fn test_write_test_csv() {
    let num_txes: u32 = 20;
    let num_clients: u16 = 6;
    let generated = generate_transactions(num_txes, num_clients);
    assert_eq!(generated.len(), 20);
    for (i, tx) in generated.iter().enumerate() {
        assert_eq!(tx.tx as usize, i);
        assert!(tx.client < num_clients);
        assert!(tx.amount.unwrap() < MAX_GENERATED_AMOUNT);
    }
}

/// With one client to draw, every transaction is that client's; the amounts
/// stay below a hundred units.
#[test]
fn test_generated_feed_stays_in_range() {
    let generated = generate_transactions(500, 1);
    assert_eq!(generated.len(), 500);
    let kinds = transaction_kinds();
    for tx in &generated {
        assert_eq!(tx.client, 0);
        assert!(tx.amount.unwrap() < 1_000_000);
        assert!(kinds.contains(&tx.tx_type));
    }
    assert!(generated.iter().any(|tx| tx.amount.unwrap() > 0));
}

#[test]
fn test_generated_feed_may_be_empty() {
    assert!(generate_transactions(0, 0).is_empty());
    assert!(generate_transactions(0, 4).is_empty());
}

/// The engine takes a generated feed without error and keeps every account balanced.
#[test]
fn test_engine_takes_generated_feed() {
    let mut engine = PaymentsEngine::default();
    for tx in generate_transactions(300, 4) {
        engine.process_transaction(tx).unwrap();
    }
    for account in engine.client_account_lookup.values() {
        let details = &account.account_details;
        assert_eq!(details.total_funds, details.available_funds + details.held_funds);
    }
}

#[test]
fn test_transaction_kinds_in_order() {
    assert_eq!(
        transaction_kinds(),
        vec![
            TransactionType::Deposit,
            TransactionType::Withdrawal,
            TransactionType::Dispute,
            TransactionType::Resolve,
            TransactionType::Chargeback,
        ]
    );
}

#[test]
fn test_check_transaction_file_accepts_csv() {
    assert!(check_transaction_file("transactions.csv", true, Some("csv")).is_ok());
}

#[test]
fn test_check_transaction_file_missing_file() {
    match check_transaction_file("nowhere.csv", false, Some("csv")) {
        Err(PaymentsTransactionError::TransactionCsvDoesNotExist(name)) => {
            assert_eq!(name, "nowhere.csv");
        }
        other => panic!("unexpected result {:?}", other),
    }
    // A missing file is reported before a wrong extension.
    assert!(matches!(
        check_transaction_file("nowhere.txt", false, Some("txt")),
        Err(PaymentsTransactionError::TransactionCsvDoesNotExist(_))
    ));
}

#[test]
fn test_check_transaction_file_wrong_extension() {
    for extension in [Some("txt"), Some("CSV"), Some("csvx"), Some("cs"), Some(""), None] {
        match check_transaction_file("feed", true, extension) {
            Err(PaymentsTransactionError::InvalidTransactionFileExtension(name)) => {
                assert_eq!(name, "feed");
            }
            other => panic!("unexpected result {:?}", other),
        }
    }
}
