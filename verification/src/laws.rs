//! What holds of the ledger and the router on every input.

use crate::account::AccountState;
use crate::engine::{
    account_of, all_balanced, all_consistent, all_extend, others_unchanged, process, process_all,
    route,
};
use crate::transaction::{Transaction, TransactionType};
use vstd::prelude::*;

verus! {

/// Every account has its total equal to available plus held: this holds of a
/// new account, and each ledger operation, and the router, keep it.
pub proof fn law_total_is_available_plus_held(
    account: AccountState,
    tx: u32,
    amount: u64,
    kind: TransactionType,
    routed: Transaction,
)
    requires
        account.balanced(),
    ensures
        AccountState::empty().balanced(),
        account.deposit(tx, amount, kind).balanced(),
        account.withdraw(tx, amount, kind).balanced(),
        account.dispute(tx).balanced(),
        account.resolve(tx).balanced(),
        account.chargeback(tx).balanced(),
        route(account, routed).balanced(),
{
}

/// Every account of the engine stays balanced when a transaction is processed.
pub proof fn law_engine_keeps_accounts_balanced(accounts: Map<u16, AccountState>, tx: Transaction)
    requires
        all_balanced(accounts),
    ensures
        all_balanced(Map::<u16, AccountState>::empty()),
        all_balanced(process(accounts, tx)),
{
    law_total_is_available_plus_held(account_of(accounts, tx.client), 0, 0, tx.tx_type, tx);
}

/// An account's history only grows: no operation removes an ID from it. The
/// same holds of the detail records, and a record that is there is never
/// overwritten.
pub proof fn law_history_only_grows(
    account: AccountState,
    tx: u32,
    amount: u64,
    kind: TransactionType,
    routed: Transaction,
)
    ensures
        account.deposit(tx, amount, kind).extends(account),
        account.withdraw(tx, amount, kind).extends(account),
        account.dispute(tx).extends(account),
        account.resolve(tx).extends(account),
        account.chargeback(tx).extends(account),
        route(account, routed).extends(account),
{
}

/// The engine never deletes an account, and no account of it loses a history
/// entry or a detail record when a transaction is processed; every account
/// but that of the transaction's client stays as it was.
pub proof fn law_engine_history_only_grows(accounts: Map<u16, AccountState>, tx: Transaction)
    ensures
        all_extend(process(accounts, tx), accounts),
        others_unchanged(process(accounts, tx), accounts, tx.client),
{
    law_history_only_grows(account_of(accounts, tx.client), 0, 0, tx.tx_type, tx);
}

/// Processing the same transaction twice has the same effect as processing
/// it once, on the account and on the engine.
pub proof fn law_processing_is_idempotent(
    accounts: Map<u16, AccountState>,
    account: AccountState,
    tx: Transaction,
)
    ensures
        route(route(account, tx), tx) == route(account, tx),
        process(process(accounts, tx), tx) == process(accounts, tx),
{
    let once = route(account_of(accounts, tx.client), tx);
    assert(route(once, tx) == once);
    assert(process(process(accounts, tx), tx) =~= process(accounts, tx));
}

/// A resolve or a chargeback of a transaction that is not under dispute
/// changes nothing, and neither does a dispute of one that is.
pub proof fn law_dispute_lifecycle(account: AccountState, tx: u32)
    ensures
        !account.disputes.contains(tx) ==> account.resolve(tx) == account,
        !account.disputes.contains(tx) ==> account.chargeback(tx) == account,
        account.disputes.contains(tx) ==> account.dispute(tx) == account,
{
}

/// A dispute that takes effect puts the transaction under dispute, and the
/// resolve that follows it restores the account as it was.
pub proof fn law_resolve_undoes_dispute(account: AccountState, tx: u32)
    requires
        account.can_dispute(tx),
        account.details.contains_key(tx),
    ensures
        account.dispute(tx).is_disputed(tx),
        account.dispute(tx).resolve(tx) == account,
{
    assert(account.disputes.insert(tx).remove(tx) =~= account.disputes);
}

/// A chargeback of a disputed transaction that has its detail record locks
/// the account and ends the dispute; no operation unlocks a locked account.
pub proof fn law_chargeback_locks_for_good(
    account: AccountState,
    tx: u32,
    amount: u64,
    kind: TransactionType,
    routed: Transaction,
)
    ensures
        account.is_disputed(tx) && account.details.contains_key(tx) ==> account.chargeback(
            tx,
        ).locked && !account.chargeback(tx).disputes.contains(tx),
        account.locked ==> {
            &&& account.deposit(tx, amount, kind).locked
            &&& account.withdraw(tx, amount, kind).locked
            &&& account.dispute(tx).locked
            &&& account.resolve(tx).locked
            &&& account.chargeback(tx).locked
            &&& route(account, routed).locked
        },
{
}

/// An account is locked by a chargeback that takes effect and by nothing
/// else: every other operation, and a chargeback that is ignored or lacks
/// its detail record, leaves the lock as it was.
pub proof fn law_only_an_applied_chargeback_locks(
    account: AccountState,
    tx: u32,
    amount: u64,
    kind: TransactionType,
    routed: Transaction,
)
    ensures
        account.deposit(tx, amount, kind).locked == account.locked,
        account.withdraw(tx, amount, kind).locked == account.locked,
        account.dispute(tx).locked == account.locked,
        account.resolve(tx).locked == account.locked,
        account.chargeback(tx).locked == (account.locked || (account.is_disputed(tx)
            && account.details.contains_key(tx))),
        !(account.is_disputed(tx) && account.details.contains_key(tx)) ==> account.chargeback(tx)
            == account,
        route(account, routed).locked == account.locked,
{
}

/// An operation adds no ID to the history but its own, and only a deposit
/// or a withdrawal adds that: a dispute, resolve or chargeback leaves history
/// and details as they were, and a dispute or resolve leaves the total too.
pub proof fn law_history_gains_only_the_transaction(
    account: AccountState,
    tx: u32,
    amount: u64,
    kind: TransactionType,
    routed: Transaction,
)
    ensures
        account.deposit(tx, amount, kind).history == account.history.insert(tx),
        account.available >= amount ==> account.withdraw(tx, amount, kind).history
            == account.history.insert(tx),
        account.available < amount ==> account.withdraw(tx, amount, kind) == account,
        account.dispute(tx).history == account.history && account.dispute(tx).details
            == account.details && account.dispute(tx).total == account.total,
        account.resolve(tx).history == account.history && account.resolve(tx).details
            == account.details && account.resolve(tx).total == account.total,
        account.chargeback(tx).history == account.history && account.chargeback(tx).details
            == account.details,
        route(account, routed).history.subset_of(account.history.insert(routed.tx)),
        !(routed.tx_type is Deposit || routed.tx_type is Withdrawal) ==> route(account, routed)
            == account,
{
}

/// An account whose history and details were written together stays so, and
/// in it every transaction that can be disputed, resolved or charged back has
/// its detail record.
pub proof fn law_consistent_accounts_have_details(
    account: AccountState,
    tx: u32,
    amount: u64,
    kind: TransactionType,
    routed: Transaction,
)
    requires
        account.consistent(),
    ensures
        AccountState::empty().consistent(),
        account.deposit(tx, amount, kind).consistent(),
        account.withdraw(tx, amount, kind).consistent(),
        account.dispute(tx).consistent(),
        account.resolve(tx).consistent(),
        account.chargeback(tx).consistent(),
        route(account, routed).consistent(),
        account.history.contains(tx) ==> account.details.contains_key(tx),
{
}

/// Every account of the engine stays consistent when a transaction is processed.
pub proof fn law_engine_keeps_accounts_consistent(
    accounts: Map<u16, AccountState>,
    tx: Transaction,
)
    requires
        all_consistent(accounts),
    ensures
        all_consistent(Map::<u16, AccountState>::empty()),
        all_consistent(process(accounts, tx)),
{
    law_consistent_accounts_have_details(account_of(accounts, tx.client), 0, 0, tx.tx_type, tx);
}

/// However many ledger operations are applied to an account, in whatever
/// order, it stays balanced and consistent and keeps its records. This holds
/// of every account that started empty.
pub proof fn law_ledger_invariants_hold_at_all_times(account: AccountState, feed: Seq<Transaction>)
    requires
        account.balanced(),
        account.consistent(),
    ensures
        account.apply_all(feed).balanced(),
        account.apply_all(feed).consistent(),
        account.apply_all(feed).extends(account),
        AccountState::empty().balanced() && AccountState::empty().consistent(),
    decreases feed.len(),
{
    if feed.len() > 0 {
        law_ledger_invariants_hold_at_all_times(account, feed.drop_last());
    }
}

/// However many transactions the engine processes, every account of it
/// stays balanced and consistent and keeps its records, and no account is
/// deleted. This holds of every engine that started without accounts.
pub proof fn law_engine_invariants_hold_at_all_times(
    accounts: Map<u16, AccountState>,
    feed: Seq<Transaction>,
)
    requires
        all_balanced(accounts),
        all_consistent(accounts),
    ensures
        all_balanced(process_all(accounts, feed)),
        all_consistent(process_all(accounts, feed)),
        all_extend(process_all(accounts, feed), accounts),
        all_balanced(Map::<u16, AccountState>::empty()) && all_consistent(
            Map::<u16, AccountState>::empty(),
        ),
    decreases feed.len(),
{
    if feed.len() > 0 {
        let earlier = process_all(accounts, feed.drop_last());
        law_engine_invariants_hold_at_all_times(accounts, feed.drop_last());
        law_engine_keeps_accounts_balanced(earlier, feed.last());
        law_engine_keeps_accounts_consistent(earlier, feed.last());
        law_engine_history_only_grows(earlier, feed.last());
        let later = process_all(accounts, feed);
        assert forall|client: u16| #[trigger]
            accounts.contains_key(client) implies later.contains_key(client)
            && later[client].extends(accounts[client]) by {
            assert(earlier.contains_key(client) && earlier[client].extends(accounts[client]));
            assert(later.contains_key(client) && later[client].extends(earlier[client]));
        }
    }
}

/// The router drops a transaction whose ID is in the history, and the ledger
/// ignores a dispute, resolve or chargeback whose ID is not: so none of the
/// three changes an account when it comes through the router.
pub proof fn law_routed_references_change_nothing(account: AccountState, tx: Transaction)
    requires
        tx.tx_type is Dispute || tx.tx_type is Resolve || tx.tx_type is Chargeback,
    ensures
        route(account, tx) == account,
{
}

} // verus!
