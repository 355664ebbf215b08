//! A client's account: balances, transaction history and disputes.

use crate::decimal::{decimal_digits, decimal_string, fixed_text, push_fixed};
use crate::errors::PaymentsTransactionError;
use crate::transaction::{Transaction, TransactionOutcome, TransactionType};
use std::collections::{BTreeSet, HashMap};
use vstd::prelude::*;
use vstd::string::StringExecFns;

verus! {

broadcast use {vstd::std_specs::hash::group_hash_axioms, vstd::std_specs::btree::group_btree_axioms};

/// The mathematical state of an account.
pub struct AccountState {
    pub available: int,
    pub held: int,
    pub total: int,
    pub locked: bool,
    pub history: Set<u32>,
    pub details: Map<u32, (u64, TransactionType)>,
    pub disputes: Set<u32>,
}

impl AccountState {
    /// The account of a client that has not been seen yet.
    pub open spec fn empty() -> AccountState {
        AccountState {
            available: 0,
            held: 0,
            total: 0,
            locked: false,
            history: Set::empty(),
            details: Map::empty(),
            disputes: Set::empty(),
        }
    }

    /// The three balances fit the machine integers that hold them.
    pub open spec fn representable(self) -> bool {
        &&& i128::MIN <= self.available <= i128::MAX
        &&& i128::MIN <= self.held <= i128::MAX
        &&& i128::MIN <= self.total <= i128::MAX
    }

    /// The total is the sum of the available and the held funds.
    pub open spec fn balanced(self) -> bool {
        self.total == self.available + self.held
    }

    /// History and details were written together, and only applied
    /// transactions are under dispute.
    pub open spec fn consistent(self) -> bool {
        &&& self.history.subset_of(self.details.dom())
        &&& self.disputes.subset_of(self.history)
    }

    /// This account holds every history entry and every detail record of
    /// `before`, unchanged.
    pub open spec fn extends(self, before: AccountState) -> bool {
        &&& before.history.subset_of(self.history)
        &&& before.details.submap_of(self.details)
    }

    /// Records `tx` as applied; a detail record that is already there stays as it is.
    pub open spec fn record(self, tx: u32, amount: u64, kind: TransactionType) -> AccountState {
        AccountState {
            history: self.history.insert(tx),
            details: if self.details.contains_key(tx) {
                self.details
            } else {
                self.details.insert(tx, (amount, kind))
            },
            ..self
        }
    }

    /// The account after a deposit.
    pub open spec fn deposit(self, tx: u32, amount: u64, kind: TransactionType) -> AccountState {
        AccountState {
            available: self.available + amount,
            total: self.total + amount,
            ..self
        }.record(tx, amount, kind)
    }

    /// The account after a withdrawal: without the funds, it stays as it is.
    pub open spec fn withdraw(self, tx: u32, amount: u64, kind: TransactionType) -> AccountState {
        if self.available >= amount {
            AccountState {
                available: self.available - amount,
                total: self.total - amount,
                ..self
            }.record(tx, amount, kind)
        } else {
            self
        }
    }

    /// `tx` was applied to this account and is not under dispute.
    pub open spec fn can_dispute(self, tx: u32) -> bool {
        self.history.contains(tx) && !self.disputes.contains(tx)
    }

    /// `tx` was applied to this account and is under dispute.
    pub open spec fn is_disputed(self, tx: u32) -> bool {
        self.history.contains(tx) && self.disputes.contains(tx)
    }

    /// The amount recorded for `tx`.
    pub open spec fn amount_of(self, tx: u32) -> int {
        self.details[tx].0 as int
    }

    /// The account after a dispute of `tx`: the amount moves from available to held.
    pub open spec fn dispute(self, tx: u32) -> AccountState {
        if self.can_dispute(tx) && self.details.contains_key(tx) {
            AccountState {
                available: self.available - self.amount_of(tx),
                held: self.held + self.amount_of(tx),
                disputes: self.disputes.insert(tx),
                ..self
            }
        } else {
            self
        }
    }

    /// The account after a resolve of `tx`: the amount moves from held back to available.
    pub open spec fn resolve(self, tx: u32) -> AccountState {
        if self.is_disputed(tx) && self.details.contains_key(tx) {
            AccountState {
                available: self.available + self.amount_of(tx),
                held: self.held - self.amount_of(tx),
                disputes: self.disputes.remove(tx),
                ..self
            }
        } else {
            self
        }
    }

    /// The account after a chargeback of `tx`: the account is locked and the
    /// held amount leaves it.
    pub open spec fn chargeback(self, tx: u32) -> AccountState {
        if self.is_disputed(tx) && self.details.contains_key(tx) {
            AccountState {
                locked: true,
                held: self.held - self.amount_of(tx),
                total: self.total - self.amount_of(tx),
                disputes: self.disputes.remove(tx),
                ..self
            }
        } else {
            self
        }
    }

    /// The account after the ledger operation of the kind of `tx`.
    pub open spec fn apply(self, tx: Transaction) -> AccountState {
        match tx.tx_type {
            TransactionType::Deposit => self.deposit(tx.tx, tx.amount_or_zero(), tx.tx_type),
            TransactionType::Withdrawal => self.withdraw(tx.tx, tx.amount_or_zero(), tx.tx_type),
            TransactionType::Dispute => self.dispute(tx.tx),
            TransactionType::Resolve => self.resolve(tx.tx),
            TransactionType::Chargeback => self.chargeback(tx.tx),
        }
    }

    /// The account after the ledger operations of a whole feed, in order.
    pub open spec fn apply_all(self, feed: Seq<Transaction>) -> AccountState
        decreases feed.len(),
    {
        if feed.len() == 0 {
            self
        } else {
            self.apply_all(feed.drop_last()).apply(feed.last())
        }
    }
}

/// The line that stands for an account's balances: available, held and total
/// funds with four decimal places, then whether the account is locked,
/// separated by a comma and a space.
pub open spec fn balance_text(available: int, held: int, total: int, locked: bool) -> Seq<char> {
    fixed_text(available) + ", "@ + fixed_text(held) + ", "@ + fixed_text(total) + ", "@ + (if locked {
        "true"@
    } else {
        "false"@
    })
}

/// The result of an operation that took effect.
pub open spec fn applied(result: Result<TransactionOutcome, PaymentsTransactionError>) -> bool {
    result == Ok::<TransactionOutcome, PaymentsTransactionError>(TransactionOutcome::Applied)
}

/// The result of an operation that was ignored for its reference.
pub open spec fn ignored(result: Result<TransactionOutcome, PaymentsTransactionError>) -> bool {
    result == Ok::<TransactionOutcome, PaymentsTransactionError>(
        TransactionOutcome::IgnoredMalformedReference,
    )
}

/// The result of an operation that found no detail record for transaction `tx`.
pub open spec fn missing_detail(
    result: Result<TransactionOutcome, PaymentsTransactionError>,
    tx: u32,
) -> bool {
    result matches Err(PaymentsTransactionError::TransactionDetailDoesNotExist(id))
        && id@ == decimal_digits(tx as nat)
}

/// The result of a withdrawal that `client` had not the funds for.
pub open spec fn insufficient_funds(
    result: Result<TransactionOutcome, PaymentsTransactionError>,
    client: u16,
) -> bool {
    result matches Err(PaymentsTransactionError::NotEnoughAvailableFunds(id))
        && id@ == decimal_digits(client as nat)
}

/// Balance details and lock status of an account, in ten-thousandths.
#[derive(Debug)]
pub struct ClientAccountDetails {
    pub available_funds: i128,
    pub held_funds: i128,
    pub total_funds: i128,
    pub is_account_locked: bool,
}

/// An account's history of applied transactions, their details, and the
/// transactions under dispute.
#[derive(Debug)]
pub struct ClientTransactionArchive {
    /// The IDs of the deposits and withdrawals applied to this account.
    pub history: BTreeSet<u32>,
    /// Amount and type of each applied transaction, by ID.
    pub details: HashMap<u32, (u64, TransactionType)>,
    /// The IDs of the transactions currently under dispute.
    pub disputes: BTreeSet<u32>,
}

/// A client's account in the payments engine.
#[derive(Debug)]
pub struct ClientAccount {
    /// Balance details and lock status for this account.
    pub account_details: ClientAccountDetails,
    /// Transaction history and details for this account.
    pub account_transaction_archive: ClientTransactionArchive,
}

impl View for ClientAccount {
    type V = AccountState;

    open spec fn view(&self) -> AccountState {
        AccountState {
            available: self.account_details.available_funds as int,
            held: self.account_details.held_funds as int,
            total: self.account_details.total_funds as int,
            locked: self.account_details.is_account_locked,
            history: self.account_transaction_archive.history@,
            details: self.account_transaction_archive.details@,
            disputes: self.account_transaction_archive.disputes@,
        }
    }
}

impl Default for ClientAccountDetails {
    fn default() -> (details: ClientAccountDetails)
        ensures
            details.available_funds == 0,
            details.held_funds == 0,
            details.total_funds == 0,
            !details.is_account_locked,
    {
        ClientAccountDetails {
            available_funds: 0,
            held_funds: 0,
            total_funds: 0,
            is_account_locked: false,
        }
    }
}

impl ClientAccountDetails {
    /// The line that stands for these balances.
    pub open spec fn text(self) -> Seq<char> {
        balance_text(
            self.available_funds as int,
            self.held_funds as int,
            self.total_funds as int,
            self.is_account_locked,
        )
    }

    /// Writes the balances and the lock status as one line of text.
    pub fn to_string(&self) -> (text: String)
        ensures
            text@ == self.text(),
    {
        let mut text = String::new();
        push_fixed(&mut text, self.available_funds);
        text.append(", ");
        push_fixed(&mut text, self.held_funds);
        text.append(", ");
        push_fixed(&mut text, self.total_funds);
        text.append(", ");
        text.append(if self.is_account_locked { "true" } else { "false" });
        assert(text@ =~= self.text());
        text
    }
}

impl Default for ClientTransactionArchive {
    fn default() -> (archive: ClientTransactionArchive)
        ensures
            archive.history@ == Set::<u32>::empty(),
            archive.details@ == Map::<u32, (u64, TransactionType)>::empty(),
            archive.disputes@ == Set::<u32>::empty(),
    {
        ClientTransactionArchive {
            history: BTreeSet::new(),
            details: HashMap::new(),
            disputes: BTreeSet::new(),
        }
    }
}

impl Default for ClientAccount {
    fn default() -> (account: ClientAccount)
        ensures
            account@ == AccountState::empty(),
    {
        ClientAccount {
            account_details: ClientAccountDetails::default(),
            account_transaction_archive: ClientTransactionArchive::default(),
        }
    }
}

impl ClientAccount {
    /// Credits the account with the amount of `tx` and records the transaction.
    pub fn handle_deposit(&mut self, tx: Transaction) -> (result: Result<
        TransactionOutcome,
        PaymentsTransactionError,
    >)
        requires
            tx.amount is Some,
            old(self)@.deposit(tx.tx, tx.amount_or_zero(), tx.tx_type).representable(),
        ensures
            final(self)@ == old(self)@.deposit(tx.tx, tx.amount_or_zero(), tx.tx_type),
            applied(result),
            old(self)@.balanced() ==> final(self)@.balanced(),
            old(self)@.consistent() ==> final(self)@.consistent(),
            final(self)@.extends(old(self)@),
            final(self)@.history == old(self)@.history.insert(tx.tx),
            final(self)@.held == old(self)@.held,
            final(self)@.locked == old(self)@.locked,
            final(self)@.disputes == old(self)@.disputes,
    {
        let amount: u64 = tx.amount.unwrap();
        self.account_details.available_funds = self.account_details.available_funds + amount as i128;
        self.account_details.total_funds = self.account_details.total_funds + amount as i128;
        if !self.account_transaction_archive.details.contains_key(&tx.tx) {
            self.account_transaction_archive.details.insert(tx.tx, (amount, tx.tx_type));
        }
        self.account_transaction_archive.history.insert(tx.tx);
        Ok(TransactionOutcome::Applied)
    }

    /// Debits the account with the amount of `tx` and records the transaction,
    /// if the available funds cover it; else the account is left as it is.
    pub fn handle_withdrawal(&mut self, tx: Transaction) -> (result: Result<
        TransactionOutcome,
        PaymentsTransactionError,
    >)
        requires
            tx.amount is Some,
            old(self)@.withdraw(tx.tx, tx.amount_or_zero(), tx.tx_type).representable(),
        ensures
            final(self)@ == old(self)@.withdraw(tx.tx, tx.amount_or_zero(), tx.tx_type),
            old(self)@.available >= tx.amount_or_zero() ==> applied(result)
                && final(self)@.history == old(self)@.history.insert(tx.tx),
            old(self)@.available < tx.amount_or_zero() ==> insufficient_funds(result, tx.client)
                && final(self)@ == old(self)@,
            old(self)@.balanced() ==> final(self)@.balanced(),
            old(self)@.consistent() ==> final(self)@.consistent(),
            final(self)@.extends(old(self)@),
            final(self)@.held == old(self)@.held,
            final(self)@.locked == old(self)@.locked,
            final(self)@.disputes == old(self)@.disputes,
    {
        let amount: u64 = tx.amount.unwrap();
        if self.account_details.available_funds >= amount as i128 {
            self.account_details.available_funds = self.account_details.available_funds
                - amount as i128;
            self.account_details.total_funds = self.account_details.total_funds - amount as i128;
            if !self.account_transaction_archive.details.contains_key(&tx.tx) {
                self.account_transaction_archive.details.insert(tx.tx, (amount, tx.tx_type));
            }
            self.account_transaction_archive.history.insert(tx.tx);
            Ok(TransactionOutcome::Applied)
        } else {
            Err(PaymentsTransactionError::NotEnoughAvailableFunds(decimal_string(tx.client as u128)))
        }
    }

    /// Puts the transaction that `tx` names under dispute: its amount moves
    /// from the available funds to the held funds.
    pub fn handle_dispute(&mut self, tx: Transaction) -> (result: Result<
        TransactionOutcome,
        PaymentsTransactionError,
    >)
        requires
            old(self)@.dispute(tx.tx).representable(),
        ensures
            final(self)@ == old(self)@.dispute(tx.tx),
            !old(self)@.can_dispute(tx.tx) ==> ignored(result) && final(self)@ == old(self)@,
            old(self)@.balanced() ==> final(self)@.balanced(),
            old(self)@.consistent() ==> final(self)@.consistent() && result is Ok,
            final(self)@.extends(old(self)@),
            old(self)@.can_dispute(tx.tx) && old(self)@.details.contains_key(tx.tx) ==> applied(
                result,
            ),
            old(self)@.can_dispute(tx.tx) && !old(self)@.details.contains_key(tx.tx)
                ==> missing_detail(result, tx.tx) && final(self)@ == old(self)@,
            final(self)@.history == old(self)@.history,
            final(self)@.details == old(self)@.details,
            final(self)@.total == old(self)@.total,
            final(self)@.locked == old(self)@.locked,
    {
        let has_tx_happened = self.account_transaction_archive.history.contains(&tx.tx);
        let is_tx_being_disputed = self.account_transaction_archive.disputes.contains(&tx.tx);
        if has_tx_happened && !is_tx_being_disputed {
            let amount: u64 = match self.account_transaction_archive.details.get(&tx.tx) {
                Some(detail) => detail.0,
                None => {
                    return Err(
                        PaymentsTransactionError::TransactionDetailDoesNotExist(
                            decimal_string(tx.tx as u128),
                        ),
                    );
                },
            };
            self.account_details.available_funds = self.account_details.available_funds
                - amount as i128;
            self.account_details.held_funds = self.account_details.held_funds + amount as i128;
            self.account_transaction_archive.disputes.insert(tx.tx);
            Ok(TransactionOutcome::Applied)
        } else {
            Ok(TransactionOutcome::IgnoredMalformedReference)
        }
    }

    /// Ends the dispute of the transaction that `tx` names in the client's
    /// favour: its amount moves from the held funds back to the available funds.
    pub fn handle_resolve(&mut self, tx: Transaction) -> (result: Result<
        TransactionOutcome,
        PaymentsTransactionError,
    >)
        requires
            old(self)@.resolve(tx.tx).representable(),
        ensures
            final(self)@ == old(self)@.resolve(tx.tx),
            !old(self)@.is_disputed(tx.tx) ==> ignored(result) && final(self)@ == old(self)@,
            old(self)@.balanced() ==> final(self)@.balanced(),
            old(self)@.consistent() ==> final(self)@.consistent() && result is Ok,
            final(self)@.extends(old(self)@),
            old(self)@.is_disputed(tx.tx) && old(self)@.details.contains_key(tx.tx) ==> applied(
                result,
            ),
            old(self)@.is_disputed(tx.tx) && !old(self)@.details.contains_key(tx.tx)
                ==> missing_detail(result, tx.tx) && final(self)@ == old(self)@,
            final(self)@.history == old(self)@.history,
            final(self)@.details == old(self)@.details,
            final(self)@.total == old(self)@.total,
            final(self)@.locked == old(self)@.locked,
    {
        let has_tx_happened = self.account_transaction_archive.history.contains(&tx.tx);
        let is_tx_being_disputed = self.account_transaction_archive.disputes.contains(&tx.tx);
        if has_tx_happened && is_tx_being_disputed {
            let amount: u64 = match self.account_transaction_archive.details.get(&tx.tx) {
                Some(detail) => detail.0,
                None => {
                    return Err(
                        PaymentsTransactionError::TransactionDetailDoesNotExist(
                            decimal_string(tx.tx as u128),
                        ),
                    );
                },
            };
            self.account_details.held_funds = self.account_details.held_funds - amount as i128;
            self.account_details.available_funds = self.account_details.available_funds
                + amount as i128;
            self.account_transaction_archive.disputes.remove(&tx.tx);
            Ok(TransactionOutcome::Applied)
        } else {
            Ok(TransactionOutcome::IgnoredMalformedReference)
        }
    }

    /// Ends the dispute of the transaction that `tx` names by reversing it:
    /// the account is locked, and the amount leaves the held and total funds.
    /// The account is locked by a chargeback that takes effect and by nothing
    /// else: one that is ignored or fails leaves it as it was.
    pub fn handle_chargeback(&mut self, tx: Transaction) -> (result: Result<
        TransactionOutcome,
        PaymentsTransactionError,
    >)
        requires
            old(self)@.chargeback(tx.tx).representable(),
        ensures
            final(self)@ == old(self)@.chargeback(tx.tx),
            !old(self)@.is_disputed(tx.tx) ==> ignored(result) && final(self)@ == old(self)@,
            old(self)@.balanced() ==> final(self)@.balanced(),
            old(self)@.consistent() ==> final(self)@.consistent() && result is Ok,
            final(self)@.extends(old(self)@),
            old(self)@.is_disputed(tx.tx) && old(self)@.details.contains_key(tx.tx) ==> applied(
                result,
            ),
            old(self)@.is_disputed(tx.tx) && !old(self)@.details.contains_key(tx.tx)
                ==> missing_detail(result, tx.tx) && final(self)@ == old(self)@,
            final(self)@.history == old(self)@.history,
            final(self)@.details == old(self)@.details,
            final(self)@.available == old(self)@.available,
            final(self)@.locked == (old(self)@.locked || applied(result)),
    {
        let has_tx_happened = self.account_transaction_archive.history.contains(&tx.tx);
        let is_tx_being_disputed = self.account_transaction_archive.disputes.contains(&tx.tx);
        if has_tx_happened && is_tx_being_disputed {
            let amount: u64 = match self.account_transaction_archive.details.get(&tx.tx) {
                Some(detail) => detail.0,
                None => {
                    return Err(
                        PaymentsTransactionError::TransactionDetailDoesNotExist(
                            decimal_string(tx.tx as u128),
                        ),
                    );
                },
            };
            self.account_details.is_account_locked = true;
            self.account_details.held_funds = self.account_details.held_funds - amount as i128;
            self.account_details.total_funds = self.account_details.total_funds - amount as i128;
            self.account_transaction_archive.disputes.remove(&tx.tx);
            Ok(TransactionOutcome::Applied)
        } else {
            Ok(TransactionOutcome::IgnoredMalformedReference)
        }
    }
}

} // verus!
