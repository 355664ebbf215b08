//! The texts of transactions, balances, errors and numbers.

use payments_engine::account::ClientAccountDetails;
use payments_engine::decimal::{decimal_string, digit_str, push_decimal, push_fixed, push_trimmed};
use payments_engine::errors::PaymentsTransactionError;
use payments_engine::transaction::{Transaction, TransactionType};

#[test]
fn test_digit_str_of_each_digit() {
    let digits: Vec<&str> = (0u8..10).map(digit_str).collect();
    assert_eq!(digits, vec!["0", "1", "2", "3", "4", "5", "6", "7", "8", "9"]);
}

#[test]
fn test_decimal_string_values() {
    assert_eq!(decimal_string(0), "0");
    assert_eq!(decimal_string(9), "9");
    assert_eq!(decimal_string(10), "10");
    assert_eq!(decimal_string(1_020_304), "1020304");
    assert_eq!(decimal_string(u128::MAX), u128::MAX.to_string());
}

#[test]
fn test_push_decimal_appends() {
    let mut text = String::from("tx ");
    push_decimal(&mut text, 4_294_967_295);
    assert_eq!(text, "tx 4294967295");
}

#[test]
fn test_push_fixed_values() {
    let cases: Vec<(i128, &str)> = vec![
        (0, "0.0000"),
        (1, "0.0001"),
        (-1, "-0.0001"),
        (15_000, "1.5000"),
        (-15_000, "-1.5000"),
        (1_000_000, "100.0000"),
        (123_456_789, "12345.6789"),
        (10_203, "1.0203"),
        (
            i128::MAX,
            "17014118346046923173168730371588410.5727",
        ),
        (
            i128::MIN,
            "-17014118346046923173168730371588410.5728",
        ),
    ];
    for (value, expected) in cases {
        let mut text = String::new();
        push_fixed(&mut text, value);
        assert_eq!(text, expected);
    }
}

#[test]
fn test_push_trimmed_appends() {
    let mut text = String::from("=");
    push_trimmed(&mut text, 25_000);
    assert_eq!(text, "=2.5");
    push_trimmed(&mut text, 0);
    assert_eq!(text, "=2.50");
}

#[test]
fn test_transaction_type_names() {
    assert_eq!(TransactionType::Deposit.to_string(), "deposit");
    assert_eq!(TransactionType::Withdrawal.to_string(), "withdrawal");
    assert_eq!(TransactionType::Dispute.to_string(), "dispute");
    assert_eq!(TransactionType::Resolve.to_string(), "resolve");
    assert_eq!(TransactionType::Chargeback.to_string(), "chargeback");
    assert_eq!(TransactionType::Chargeback.as_str(), "chargeback");
}

#[test]
fn test_transaction_text() {
    let tx = Transaction {
        tx_type: TransactionType::Withdrawal,
        client: 12,
        tx: 345,
        amount: Some(67_891),
    };
    assert_eq!(tx.to_string(), "withdrawal, 12, 345, 6.7891");
    let zero = Transaction {
        tx_type: TransactionType::Deposit,
        client: 0,
        tx: 0,
        amount: Some(0),
    };
    assert_eq!(zero.to_string(), "deposit, 0, 0, 0.0000");
}

#[test]
fn test_account_details_text() {
    let details = ClientAccountDetails {
        available_funds: -600_000,
        held_funds: 1_000_000,
        total_funds: 400_000,
        is_account_locked: true,
    };
    assert_eq!(details.to_string(), "-60.0000, 100.0000, 40.0000, true");
    assert_eq!(
        ClientAccountDetails::default().to_string(),
        "0.0000, 0.0000, 0.0000, false"
    );
}

#[test]
fn test_error_messages() {
    assert_eq!(
        PaymentsTransactionError::NotEnoughAvailableFunds("3".to_string()).to_string(),
        "Not enough available funds for client 3"
    );
    assert_eq!(
        PaymentsTransactionError::TransactionDetailDoesNotExist("41".to_string()).to_string(),
        "Transaction details not found for transaction 41"
    );
    assert_eq!(
        PaymentsTransactionError::TransactionCsvDoesNotExist("a.csv".to_string()).to_string(),
        "Transaction CSV file a.csv does not exist a.csv"
    );
    assert_eq!(
        PaymentsTransactionError::InvalidTransactionFileExtension("a.txt".to_string())
            .to_string(),
        "Argument must be a CSV file a.txt"
    );
    assert_eq!(
        PaymentsTransactionError::Io("permission denied".to_string()).to_string(),
        "I/O error: permission denied"
    );
}
