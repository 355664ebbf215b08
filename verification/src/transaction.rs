//! Transactions as they arrive from the feed, and what became of one.

use crate::decimal::{decimal_digits, fixed_text, push_decimal, push_fixed, push_trimmed, trimmed_text};
use vstd::prelude::*;
use vstd::string::StringExecFns;

verus! {

/// The kinds of transaction the engine understands.
#[derive(Debug, Clone, Copy, PartialEq, Eq, Structural)]
pub enum TransactionType {
    Deposit,
    Withdrawal,
    Dispute,
    Resolve,
    Chargeback,
}

/// One record of the feed.
///
/// Amounts are counted in ten-thousandths of a currency unit, so `15_000`
/// stands for `1.5`. A deposit or withdrawal carries one; for a dispute,
/// resolve or chargeback the amount is absent or ignored, and `tx` names
/// the earlier transaction that is referred to.
#[derive(Debug, Clone, Copy)]
pub struct Transaction {
    /// Type of transaction.
    pub tx_type: TransactionType,
    /// Client ID.
    pub client: u16,
    /// Transaction ID.
    pub tx: u32,
    /// Transaction amount, in ten-thousandths.
    pub amount: Option<u64>,
}

/// What the ledger did with a transaction that it accepted without error.
#[derive(Debug, Clone, Copy, PartialEq, Eq, Structural)]
pub enum TransactionOutcome {
    /// The transaction took effect on the account.
    Applied,
    /// A dispute, resolve or chargeback named a transaction that is unknown
    /// or in the wrong dispute state; nothing changed.
    IgnoredMalformedReference,
    /// The transaction ID is already in the account's history; nothing changed.
    IgnoredDuplicate,
    /// A withdrawal exceeded the available funds; nothing changed.
    SkippedInsufficientFunds,
}

impl TransactionType {
    /// The name of the kind as the feed writes it, in lower case.
    pub open spec fn name(self) -> Seq<char> {
        match self {
            TransactionType::Deposit => "deposit"@,
            TransactionType::Withdrawal => "withdrawal"@,
            TransactionType::Dispute => "dispute"@,
            TransactionType::Resolve => "resolve"@,
            TransactionType::Chargeback => "chargeback"@,
        }
    }

    /// The name of the kind, in lower case.
    pub fn as_str(&self) -> (name: &'static str)
        ensures
            name@ == self.name(),
    {
        match self {
            TransactionType::Deposit => "deposit",
            TransactionType::Withdrawal => "withdrawal",
            TransactionType::Dispute => "dispute",
            TransactionType::Resolve => "resolve",
            TransactionType::Chargeback => "chargeback",
        }
    }

    /// The name of the kind, in lower case, as an owned text.
    pub fn to_string(&self) -> (text: String)
        ensures
            text@ == self.name(),
    {
        String::from_str(self.as_str())
    }
}

impl Transaction {
    /// The amount carried, or zero where there is none.
    pub open spec fn amount_or_zero(self) -> u64 {
        match self.amount {
            Some(a) => a,
            None => 0,
        }
    }

    /// The line that stands for the transaction: kind, client, ID and the
    /// amount with four decimal places, separated by a comma and a space.
    pub open spec fn text(self) -> Seq<char> {
        self.tx_type.name() + ", "@ + decimal_digits(self.client as nat) + ", "@ + decimal_digits(
            self.tx as nat,
        ) + ", "@ + fixed_text(self.amount_or_zero() as int)
    }

    /// Writes the transaction as one line of text.
    pub fn to_string(&self) -> (text: String)
        requires
            self.amount is Some,
        ensures
            text@ == self.text(),
    {
        let amount: u64 = self.amount.unwrap();
        let mut text = String::from_str(self.tx_type.as_str());
        text.append(", ");
        push_decimal(&mut text, self.client as u128);
        text.append(", ");
        push_decimal(&mut text, self.tx as u128);
        text.append(", ");
        push_fixed(&mut text, amount as i128);
        assert(text@ =~= self.text());
        text
    }
}

/// The text that stands for an amount where the feed is written: the
/// shortest decimal form of up to four places, and nothing for no amount.
pub open spec fn serialized_amount(x: Option<u64>) -> Seq<char> {
    match x {
        Some(v) => trimmed_text(v as nat),
        None => Seq::empty(),
    }
}

/// Writes an amount for the feed, with up to four decimal places.
pub fn serialize_up_to_four_decimal_places(x: &Option<u64>) -> (text: String)
    ensures
        text@ == serialized_amount(*x),
{
    let mut text = String::new();
    match x {
        Some(v) => {
            push_trimmed(&mut text, *v);
        },
        None => {},
    }
    assert(text@ =~= serialized_amount(*x));
    text
}

} // verus!
