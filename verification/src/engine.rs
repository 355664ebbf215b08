//! The router: one account per client, and the single entry point for transactions.

use crate::account::{balance_text, AccountState, ClientAccount};
use crate::decimal::{decimal_digits, push_decimal};
use crate::errors::PaymentsTransactionError;
use crate::transaction::{Transaction, TransactionOutcome, TransactionType};
use std::collections::HashMap;
use vstd::prelude::*;
use vstd::std_specs::iter::IteratorSpec;
use vstd::string::StringExecFns;

verus! {

broadcast use {vstd::std_specs::hash::group_hash_axioms, vstd::std_specs::btree::group_btree_axioms};

/// The account that the router hands `tx` to becomes this: a transaction whose
/// ID is in the account's history is dropped, any other goes to the ledger
/// operation of its kind.
pub open spec fn route(account: AccountState, tx: Transaction) -> AccountState {
    if account.history.contains(tx.tx) {
        account
    } else {
        account.apply(tx)
    }
}

/// What the router reports for `tx` on `account`.
pub open spec fn route_outcome(account: AccountState, tx: Transaction) -> TransactionOutcome {
    if account.history.contains(tx.tx) {
        TransactionOutcome::IgnoredDuplicate
    } else {
        match tx.tx_type {
            TransactionType::Deposit => TransactionOutcome::Applied,
            TransactionType::Withdrawal => if account.available >= tx.amount_or_zero() {
                TransactionOutcome::Applied
            } else {
                TransactionOutcome::SkippedInsufficientFunds
            },
            _ => TransactionOutcome::IgnoredMalformedReference,
        }
    }
}

/// The account of `client` among `accounts`: the empty account if there is none yet.
pub open spec fn account_of(accounts: Map<u16, AccountState>, client: u16) -> AccountState {
    if accounts.contains_key(client) {
        accounts[client]
    } else {
        AccountState::empty()
    }
}

/// The accounts after the router has processed `tx`.
pub open spec fn process(accounts: Map<u16, AccountState>, tx: Transaction) -> Map<
    u16,
    AccountState,
> {
    accounts.insert(tx.client, route(account_of(accounts, tx.client), tx))
}

/// The accounts after the router has processed a whole feed, in order.
pub open spec fn process_all(accounts: Map<u16, AccountState>, feed: Seq<Transaction>) -> Map<
    u16,
    AccountState,
>
    decreases feed.len(),
{
    if feed.len() == 0 {
        accounts
    } else {
        process(process_all(accounts, feed.drop_last()), feed.last())
    }
}

/// The line of the report for `client`: the client ID and the account's
/// balances, ended by a line feed.
pub open spec fn report_line(client: u16, account: AccountState) -> Seq<char> {
    decimal_digits(client as nat) + ", "@ + balance_text(
        account.available,
        account.held,
        account.total,
        account.locked,
    ) + "\n"@
}

/// The heading of the report and the lines of the clients in `order`.
pub open spec fn report(accounts: Map<u16, AccountState>, order: Seq<u16>) -> Seq<char>
    decreases order.len(),
{
    if order.len() == 0 {
        "client, available, held, total, locked\n"@
    } else {
        report(accounts, order.drop_last()) + report_line(order.last(), accounts[order.last()])
    }
}

/// `order` names every client of `accounts` once.
pub open spec fn lists_clients(accounts: Map<u16, AccountState>, order: Seq<u16>) -> bool {
    &&& order.no_duplicates()
    &&& forall|client: u16| order.contains(client) <==> accounts.contains_key(client)
}

/// Every account has its total equal to its available plus its held funds.
pub open spec fn all_balanced(accounts: Map<u16, AccountState>) -> bool {
    forall|client: u16| accounts.contains_key(client) ==> (#[trigger] accounts[client]).balanced()
}

/// Every account has its history within its details, and its disputes
/// within its history.
pub open spec fn all_consistent(accounts: Map<u16, AccountState>) -> bool {
    forall|client: u16|
        accounts.contains_key(client) ==> (#[trigger] accounts[client]).consistent()
}

/// Every account of `before` is in `after`, with all of its history entries
/// and detail records unchanged.
pub open spec fn all_extend(after: Map<u16, AccountState>, before: Map<u16, AccountState>) -> bool {
    forall|client: u16| #[trigger]
        before.contains_key(client) ==> after.contains_key(client) && after[client].extends(
            before[client],
        )
}

/// `after` has the accounts of `before` and that of `client`, and every
/// account but that of `client` is as it was.
pub open spec fn others_unchanged(
    after: Map<u16, AccountState>,
    before: Map<u16, AccountState>,
    client: u16,
) -> bool {
    &&& after.dom() == before.dom().insert(client)
    &&& forall|other: u16| #[trigger]
        before.contains_key(other) && other != client ==> after[other] == before[other]
}

/// The router can take `tx` on `accounts`: a deposit or withdrawal carries
/// its amount, and the balances that result fit the machine.
pub open spec fn processable(accounts: Map<u16, AccountState>, tx: Transaction) -> bool {
    &&& tx.tx_type is Deposit || tx.tx_type is Withdrawal ==> tx.amount is Some
    &&& route(account_of(accounts, tx.client), tx).representable()
}

/// The payments engine: every client's account, by client ID.
#[derive(Debug)]
pub struct PaymentsEngine {
    /// Maps a client's ID to their `ClientAccount`.
    pub client_account_lookup: HashMap<u16, ClientAccount>,
}

impl View for PaymentsEngine {
    type V = Map<u16, AccountState>;

    open spec fn view(&self) -> Map<u16, AccountState> {
        Map::new(
            |client: u16| self.client_account_lookup@.contains_key(client),
            |client: u16| self.client_account_lookup@[client]@,
        )
    }
}

impl Default for PaymentsEngine {
    fn default() -> (engine: PaymentsEngine)
        ensures
            engine@ == Map::<u16, AccountState>::empty(),
    {
        let engine = PaymentsEngine { client_account_lookup: HashMap::new() };
        assert(engine@ =~= Map::<u16, AccountState>::empty());
        engine
    }
}

impl PaymentsEngine {
    /// Processes a transaction: finds the client's account, creating it on
    /// first sight, drops the transaction if its ID is in the account's
    /// history, and else applies the ledger operation of its kind. A
    /// withdrawal that the funds do not cover is skipped without error.
    pub fn process_transaction(&mut self, tx: Transaction) -> (result: Result<
        TransactionOutcome,
        PaymentsTransactionError,
    >)
        requires
            processable(old(self)@, tx),
        ensures
            final(self)@ == process(old(self)@, tx),
            result == Ok::<TransactionOutcome, PaymentsTransactionError>(
                route_outcome(account_of(old(self)@, tx.client), tx),
            ),
            all_balanced(old(self)@) ==> all_balanced(final(self)@),
            all_consistent(old(self)@) ==> all_consistent(final(self)@),
            all_extend(final(self)@, old(self)@),
            others_unchanged(final(self)@, old(self)@, tx.client),
            final(self)@[tx.client].history.subset_of(
                account_of(old(self)@, tx.client).history.insert(tx.tx),
            ),
            !(tx.tx_type is Deposit || tx.tx_type is Withdrawal) ==> final(self)@[tx.client]
                == account_of(old(self)@, tx.client),
    {
        let selected_account = self.client_account_lookup.entry(tx.client).or_insert(
            ClientAccount::default(),
        );
        assert(selected_account@ == account_of(old(self)@, tx.client));
        let result = if selected_account.account_transaction_archive.history.contains(&tx.tx) {
            Ok(TransactionOutcome::IgnoredDuplicate)
        } else {
            match tx.tx_type {
                TransactionType::Deposit => selected_account.handle_deposit(tx),
                TransactionType::Withdrawal => match selected_account.handle_withdrawal(tx) {
                    Ok(outcome) => Ok(outcome),
                    Err(_) => Ok(TransactionOutcome::SkippedInsufficientFunds),
                },
                TransactionType::Dispute => selected_account.handle_dispute(tx),
                TransactionType::Resolve => selected_account.handle_resolve(tx),
                TransactionType::Chargeback => selected_account.handle_chargeback(tx),
            }
        };
        assert(self@ =~= process(old(self)@, tx));
        result
    }

    /// Tells whether `process_transaction` can take `tx` now.
    pub fn can_process(&self, tx: &Transaction) -> (yes: bool)
        ensures
            yes == processable(self@, *tx),
    {
        let (known, available, total): (bool, i128, i128) = match self.client_account_lookup.get(
            &tx.client,
        ) {
            Some(account) => (
                account.account_transaction_archive.history.contains(&tx.tx),
                account.account_details.available_funds,
                account.account_details.total_funds,
            ),
            None => (false, 0, 0),
        };
        match tx.tx_type {
            TransactionType::Deposit => match tx.amount {
                Some(amount) => known || (available <= i128::MAX - amount as i128 && total
                    <= i128::MAX - amount as i128),
                None => false,
            },
            TransactionType::Withdrawal => match tx.amount {
                Some(amount) => known || available < amount as i128 || total >= i128::MIN
                    + amount as i128,
                None => false,
            },
            _ => true,
        }
    }

    /// Processes `tx` if `process_transaction` can take it, and else leaves
    /// the engine as it is and returns nothing.
    pub fn try_process_transaction(&mut self, tx: Transaction) -> (result: Option<
        Result<TransactionOutcome, PaymentsTransactionError>,
    >)
        ensures
            processable(old(self)@, tx) ==> final(self)@ == process(old(self)@, tx) && result
                == Some(
                Ok::<TransactionOutcome, PaymentsTransactionError>(
                    route_outcome(account_of(old(self)@, tx.client), tx),
                ),
            ),
            !processable(old(self)@, tx) ==> final(self)@ == old(self)@ && result is None,
    {
        if self.can_process(&tx) {
            Some(self.process_transaction(tx))
        } else {
            None
        }
    }

    /// Writes the report: a heading, then one line for each client with the
    /// client ID, the available, held and total funds and the lock status. The
    /// clients come in the order in which the table hands them out, which is
    /// not fixed.
    pub fn to_string(&self) -> (text: String)
        ensures
            exists|order: Seq<u16>| lists_clients(self@, order) && text@ == report(self@, order),
    {
        let mut text = String::from_str("client, available, held, total, locked\n");
        let ghost mut order: Seq<u16> = Seq::empty();
        for entry in it: self.client_account_lookup.iter()
            invariant
                it.seq() == vstd::std_specs::hash::spec_hash_map_iter(
                    &self.client_account_lookup,
                ).remaining(),
                it.seq().no_duplicates(),
                order.len() == it.index(),
                forall|i: int| 0 <= i < order.len() ==> order[i] == *(#[trigger] it.seq()[i]).0,
                text@ == report(self@, order),
        {
            let (client, account) = entry;
            assert(self.client_account_lookup@.contains_key(*client)
                && self.client_account_lookup@[*client] == *account);
            push_decimal(&mut text, *client as u128);
            text.append(", ");
            let line = account.account_details.to_string();
            text.append(line.as_str());
            text.append("\n");
            proof {
                let longer = order.push(*client);
                assert(longer.drop_last() =~= order);
                assert(text@ =~= report(self@, order) + report_line(*client, self@[*client]));
                order = longer;
            }
        }
        proof {
            let entries = vstd::std_specs::hash::spec_hash_map_iter(
                &self.client_account_lookup,
            ).remaining();
            assert forall|i: int, j: int| 0 <= i < j < order.len() implies order[i] != order[j] by {
                if order[i] == order[j] {
                    assert(self.client_account_lookup@[*entries[i].0] == *entries[i].1);
                    assert(self.client_account_lookup@[*entries[j].0] == *entries[j].1);
                    assert(entries[i] == entries[j]);
                }
            }
            assert forall|client: u16| order.contains(client) <==> self@.contains_key(client) by {
                if self@.contains_key(client) {
                    let entry = (&client, &self.client_account_lookup@[client]);
                    assert(entries.contains(entry));
                    let i = choose|i: int| 0 <= i < entries.len() && entries[i] == entry;
                    assert(order[i] == client);
                }
                if order.contains(client) {
                    let i = choose|i: int| 0 <= i < order.len() && order[i] == client;
                    assert(self.client_account_lookup@.contains_key(*entries[i].0));
                }
            }
            assert(lists_clients(self@, order));
        }
        text
    }
}

} // verus!
