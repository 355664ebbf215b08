//! Helpers around the transaction feed: checking the file that is named, and
//! making random transactions to try the engine on.

use crate::errors::PaymentsTransactionError;
use crate::transaction::{Transaction, TransactionType};
use rand::rngs::ThreadRng;
use rand::seq::IndexedRandom;
use rand::Rng;
use vstd::prelude::*;
use vstd::string::{StrSliceExecFns, StringExecFns};

verus! {

/// `extension` is the extension of a CSV file.
pub open spec fn is_csv_extension(extension: Option<&str>) -> bool {
    extension matches Some(text) && text@ == "csv"@
}

/// Tells whether `text` reads `csv`.
fn reads_csv(text: &str) -> (yes: bool)
    ensures
        yes == (text@ == "csv"@),
{
    proof {
        reveal_strlit("csv");
    }
    if text.unicode_len() != 3 {
        return false;
    }
    let yes = text.get_char(0) == 'c' && text.get_char(1) == 's' && text.get_char(2) == 'v';
    assert(yes ==> text@ =~= "csv"@);
    yes
}

/// Decides whether the file named `filename` can be read as a transaction
/// feed, from whether it exists and from the extension of its name: a file
/// that is not there is refused first, then one whose extension is not `csv`.
pub fn check_transaction_file(filename: &str, exists: bool, extension: Option<&str>) -> (result:
    Result<(), PaymentsTransactionError>)
    ensures
        !exists ==> (result matches Err(
            PaymentsTransactionError::TransactionCsvDoesNotExist(name),
        ) && name@ == filename@),
        exists && !is_csv_extension(extension) ==> (result matches Err(
            PaymentsTransactionError::InvalidTransactionFileExtension(name),
        ) && name@ == filename@),
        exists && is_csv_extension(extension) ==> result is Ok,
{
    if !exists {
        return Err(
            PaymentsTransactionError::TransactionCsvDoesNotExist(String::from_str(filename)),
        );
    }
    let is_csv = match extension {
        Some(text) => reads_csv(text),
        None => false,
    };
    if !is_csv {
        return Err(
            PaymentsTransactionError::InvalidTransactionFileExtension(String::from_str(filename)),
        );
    }
    Ok(())
}

/// The amounts of generated transactions lie below this: a hundred units.
pub const MAX_GENERATED_AMOUNT: u64 = 1_000_000;

/// The generator of random numbers that `rand` keeps for each thread.
#[verifier::external_type_specification]
#[verifier::external_body]
pub struct ExThreadRng(ThreadRng);

/// Calls `rand::rng`, which hands out the calling thread's generator.
/// Nothing is claimed of it.
#[verifier::external_body]
fn thread_rng() -> (rng: ThreadRng) {
    rand::rng()
}

/// Calls `Rng::random_range` on the range from zero up to `bound`, without
/// `bound` itself. The call panics on an empty range, so `bound` is not zero.
/// All that is claimed of the number drawn is that it lies in the range.
#[verifier::external_body]
fn random_below(rng: &mut ThreadRng, bound: u64) -> (n: u64)
    requires
        bound > 0,
    ensures
        n < bound,
{
    rng.random_range(0..bound)
}

/// Calls `IndexedRandom::choose` on `kinds`: it picks one of the elements,
/// or nothing where there is none to pick.
#[verifier::external_body]
fn choose_kind(rng: &mut ThreadRng, kinds: &Vec<TransactionType>) -> (picked: Option<TransactionType>)
    ensures
        picked is None <==> kinds@.len() == 0,
        picked matches Some(kind) ==> kinds@.contains(kind),
{
    kinds.choose(rng).copied()
}

/// Every kind of transaction, in the order of their declaration.
pub fn transaction_kinds() -> (kinds: Vec<TransactionType>)
    ensures
        kinds@ == seq![
            TransactionType::Deposit,
            TransactionType::Withdrawal,
            TransactionType::Dispute,
            TransactionType::Resolve,
            TransactionType::Chargeback,
        ],
{
    let mut kinds: Vec<TransactionType> = Vec::new();
    kinds.push(TransactionType::Deposit);
    kinds.push(TransactionType::Withdrawal);
    kinds.push(TransactionType::Dispute);
    kinds.push(TransactionType::Resolve);
    kinds.push(TransactionType::Chargeback);
    assert(kinds@ =~= seq![
        TransactionType::Deposit,
        TransactionType::Withdrawal,
        TransactionType::Dispute,
        TransactionType::Resolve,
        TransactionType::Chargeback,
    ]);
    kinds
}

/// `generated` is a feed that the generator may hand out for these numbers:
/// the transaction IDs count up from zero, every client ID lies below
/// `total_clients`, and every amount is there and below a hundred units.
pub open spec fn is_generated_feed(
    generated: Seq<Transaction>,
    total_transactions: u32,
    total_clients: u16,
) -> bool {
    &&& generated.len() == total_transactions
    &&& forall|i: int|
        0 <= i < generated.len() ==> {
            &&& (#[trigger] generated[i]).tx == i
            &&& generated[i].client < total_clients
            &&& generated[i].amount matches Some(amount) && amount < MAX_GENERATED_AMOUNT
        }
}

/// Makes a random feed of `total_transactions` transactions for
/// `total_clients` clients. Kind, client and amount of each are drawn at
/// random, so two calls differ; with transactions to make there has to be a
/// client to draw.
pub fn generate_transactions(total_transactions: u32, total_clients: u16) -> (generated: Vec<
    Transaction,
>)
    requires
        total_transactions > 0 ==> total_clients > 0,
    ensures
        is_generated_feed(generated@, total_transactions, total_clients),
{
    let mut rng = thread_rng();
    let kinds = transaction_kinds();
    let mut generated: Vec<Transaction> = Vec::new();
    let mut tx: u32 = 0;
    while tx < total_transactions
        invariant
            tx <= total_transactions,
            total_transactions > 0 ==> total_clients > 0,
            kinds@.len() == 5,
            is_generated_feed(generated@, tx, total_clients),
        decreases total_transactions - tx,
    {
        let kind = choose_kind(&mut rng, &kinds).unwrap();
        let client: u64 = random_below(&mut rng, total_clients as u64);
        let amount: u64 = random_below(&mut rng, MAX_GENERATED_AMOUNT);
        generated.push(
            Transaction { tx_type: kind, client: client as u16, tx, amount: Some(amount) },
        );
        tx = tx + 1;
    }
    generated
}

} // verus!
