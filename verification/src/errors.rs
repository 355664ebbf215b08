//! Failures that the engine reports to its caller.

use vstd::prelude::*;
use vstd::string::StringExecFns;

verus! {

/// Payments engine error type.
#[derive(Debug)]
pub enum PaymentsTransactionError {
    /// A withdrawal asked for more than the client has available; holds the client ID.
    NotEnoughAvailableFunds(String),
    /// A transaction is in an account's history without a detail record; holds the transaction ID.
    TransactionDetailDoesNotExist(String),
    /// The named transaction file is not there.
    TransactionCsvDoesNotExist(String),
    /// The named transaction file does not end in `.csv`.
    InvalidTransactionFileExtension(String),
    /// Reading the transaction file failed; holds the reason.
    Io(String),
}

impl PaymentsTransactionError {
    /// The message that stands for the error.
    pub open spec fn message(self) -> Seq<char> {
        match self {
            PaymentsTransactionError::NotEnoughAvailableFunds(client) => {
                "Not enough available funds for client "@ + client@
            },
            PaymentsTransactionError::TransactionDetailDoesNotExist(tx) => {
                "Transaction details not found for transaction "@ + tx@
            },
            PaymentsTransactionError::TransactionCsvDoesNotExist(file) => {
                "Transaction CSV file "@ + file@ + " does not exist "@ + file@
            },
            PaymentsTransactionError::InvalidTransactionFileExtension(file) => {
                "Argument must be a CSV file "@ + file@
            },
            PaymentsTransactionError::Io(reason) => "I/O error: "@ + reason@,
        }
    }

    /// Writes the error as a message for the user.
    pub fn to_string(&self) -> (text: String)
        ensures
            text@ == self.message(),
    {
        match self {
            PaymentsTransactionError::NotEnoughAvailableFunds(client) => {
                String::from_str("Not enough available funds for client ").concat(client.as_str())
            },
            PaymentsTransactionError::TransactionDetailDoesNotExist(tx) => {
                String::from_str("Transaction details not found for transaction ").concat(
                    tx.as_str(),
                )
            },
            PaymentsTransactionError::TransactionCsvDoesNotExist(file) => {
                let mut text = String::from_str("Transaction CSV file ");
                text.append(file.as_str());
                text.append(" does not exist ");
                text.append(file.as_str());
                text
            },
            PaymentsTransactionError::InvalidTransactionFileExtension(file) => {
                String::from_str("Argument must be a CSV file ").concat(file.as_str())
            },
            PaymentsTransactionError::Io(reason) => {
                String::from_str("I/O error: ").concat(reason.as_str())
            },
        }
    }
}

} // verus!
