//! The backend that runs on a virtual machine over an in-memory database.

use crate::client::{call_result, deploy_result, fresh, send_result, transfer_envelope};
use crate::client::{lemma_with_accounts_sets_each_balance, transfer_result, with_accounts};
use crate::client::{ClientError, RevmClient, Transacted};
use crate::env::{Envelope, EnvelopeView, ExecOutput, ExecutionOutcome, LogRecord, RawLog, Target};
use crate::primitives::{Address, H256, U256};
use rand::Rng;
use revm::db::{CacheDB, DatabaseRef, EmptyDB, EmptyDBTyped};
use revm::primitives::{AccountInfo, ExecutionResult, TxKind};
use revm::Evm;
use vstd::prelude::*;

verus! {

/// The in-memory account database of the virtual machine. Its contents are
/// spoken of through [`db_balances`] and [`db_vacant`].
#[verifier::external_type_specification]
#[verifier::external_body]
#[verifier::reject_recursive_types(ExtDB)]
pub struct ExCacheDB<ExtDB>(CacheDB<ExtDB>);

/// The database that holds nothing, which the in-memory database falls back
/// to.
#[verifier::external_type_specification]
#[verifier::external_body]
#[verifier::reject_recursive_types(E)]
pub struct ExEmptyDBTyped<E>(EmptyDBTyped<E>);

/// A transaction envelope in the virtual machine's own form. The value is
/// carried through unread.
#[verifier::external_type_specification]
#[verifier::external_body]
pub struct ExTxEnv(revm::primitives::TxEnv);

/// An execution result in the virtual machine's own form. The value is
/// carried through unread.
#[verifier::external_type_specification]
#[verifier::external_body]
pub struct ExExecutionResult(ExecutionResult);

/// An output in the virtual machine's own form. The value is carried through
/// unread.
#[verifier::external_type_specification]
#[verifier::external_body]
pub struct ExOutput(revm::primitives::Output);

/// A log record in the virtual machine's own form. The value is carried
/// through unread.
#[verifier::external_type_specification]
#[verifier::external_body]
#[verifier::reject_recursive_types(T)]
pub struct ExLog<T>(revm::primitives::Log<T>);

/// The topics and data of a log record in the virtual machine's own form.
/// The value is carried through unread.
#[verifier::external_type_specification]
#[verifier::external_body]
pub struct ExLogData(revm::primitives::LogData);

/// The balance of every account that the database holds as existing, by
/// address.
pub uninterp spec fn db_balances(db: CacheDB<EmptyDB>) -> Map<Seq<u8>, nat>;

/// The addresses that the database holds as not existing.
pub uninterp spec fn db_vacant(db: CacheDB<EmptyDB>) -> Set<Seq<u8>>;

/// What the virtual machine returns when it runs `tx` in its default
/// environment on the state that the database holds.
pub uninterp spec fn executed(db: CacheDB<EmptyDB>, tx: EnvelopeView) -> Transacted;

/// The balances that the database holds once the virtual machine has run `tx`
/// on the state that it holds and written the effects to it.
pub uninterp spec fn balances_after(db: CacheDB<EmptyDB>, tx: EnvelopeView) -> Map<Seq<u8>, nat>;

/// The balances after an account with `amount` was recorded under `account`:
/// the database keeps an address that it holds as not existing in that state,
/// so there the balances stay as they were.
pub open spec fn fund(
    balances: Map<Seq<u8>, nat>,
    vacant: Set<Seq<u8>>,
    account: Seq<u8>,
    amount: nat,
) -> Map<Seq<u8>, nat> {
    if vacant.contains(account) {
        balances
    } else {
        balances.insert(account, amount)
    }
}

/// Makes an empty in-memory database (`CacheDB::new` over `EmptyDB`). It
/// holds no account, existing or not.
#[verifier::external_body]
fn new_db() -> (db: CacheDB<EmptyDB>)
    ensures
        db_balances(db) == (Map::<Seq<u8>, nat>::empty()),
        db_vacant(db) == Set::<Seq<u8>>::empty(),
{
    CacheDB::new(EmptyDB::default())
}

/// Draws twenty random bytes from the thread's generator
/// (`rand::thread_rng().gen`). Nothing is known of the bytes.
#[verifier::external_body]
fn random_address_bytes() -> [u8; 20] {
    rand::thread_rng().gen::<[u8; 20]>()
}

/// Records an account with balance `amount` and no code under `account`
/// (`CacheDB::insert_account_info`). The database sets the account's
/// information and leaves its existence state untouched: an address that it
/// holds as not existing stays so, and any other address then holds the new
/// balance.
#[verifier::external_body]
fn insert_account(db: &mut CacheDB<EmptyDB>, account: &Address, amount: &U256)
    ensures
        db_vacant(*final(db)) == db_vacant(*old(db)),
        db_balances(*final(db)) == fund(
            db_balances(*old(db)),
            db_vacant(*old(db)),
            account@,
            amount@,
        ),
{
    let mut info = AccountInfo::default();
    info.balance = revm::primitives::U256::from_limbs(amount.limbs);
    db.insert_account_info(revm::primitives::Address::new(account.bytes), info);
}

/// Looks an account up without writing to the database
/// (`DatabaseRef::basic_ref` of `CacheDB`). The result is the balance of an
/// existing account and `None` otherwise.
#[verifier::external_body]
fn account_balance(db: &CacheDB<EmptyDB>, account: &Address) -> (r: Option<U256>)
    ensures
        r is Some == db_balances(*db).contains_key(account@),
        r matches Some(b) ==> b@ == db_balances(*db)[account@],
{
    match db.basic_ref(revm::primitives::Address::new(account.bytes)) {
        Ok(Some(info)) => Some(U256 { limbs: info.balance.into_limbs() }),
        _ => None,
    }
}

/// Writes an envelope in the machine's form: the five fields one for one,
/// every other field at its default.
#[verifier::external_body]
fn machine_tx(tx: &Envelope) -> revm::primitives::TxEnv {
    revm::primitives::TxEnv {
        caller: revm::primitives::Address::new(tx.caller.bytes),
        transact_to: match tx.target {
            Target::Call(to) => TxKind::Call(revm::primitives::Address::new(to.bytes)),
            Target::Create => TxKind::Create,
        },
        data: tx.data.clone().into(),
        value: revm::primitives::U256::from_limbs(tx.value.limbs),
        gas_limit: tx.gas_limit,
        ..Default::default()
    }
}

/// Reads a log of the machine: address, topics and data one for one.
#[verifier::external_body]
fn log_of(log: revm::primitives::Log) -> LogRecord {
    LogRecord {
        address: Address { bytes: log.address.0.0 },
        topics: log.data.topics().iter().map(|t| H256 { bytes: t.0 }).collect(),
        data: log.data.data.to_vec(),
    }
}

/// Reads an output of the machine: the bytes of a call, or the bytes of a
/// creation with the created address, one for one.
#[verifier::external_body]
fn output_of(output: revm::primitives::Output) -> ExecOutput {
    match output {
        revm::primitives::Output::Call(b) => ExecOutput::Call(b.to_vec()),
        revm::primitives::Output::Create(b, a) => ExecOutput::Create(
            b.to_vec(),
            a.map(|a| Address { bytes: a.0.0 }),
        ),
    }
}

/// Reads an execution result of the machine: one variant for each of its
/// three, with the fields that an outcome keeps.
#[verifier::external_body]
fn outcome_of(result: ExecutionResult) -> ExecutionOutcome {
    match result {
        ExecutionResult::Success { output, gas_used, logs, .. } => ExecutionOutcome::Success {
            output: output_of(output),
            gas_used,
            logs: logs.into_iter().map(log_of).collect(),
        },
        ExecutionResult::Revert { output, .. } => ExecutionOutcome::Revert {
            payload: output.to_vec(),
        },
        ExecutionResult::Halt { reason, .. } => ExecutionOutcome::Halt { reason },
    }
}

/// Runs `tx` on a machine with the default environment over `db` and writes
/// its effects to `db` (`Evm::transact_commit`, which is `Evm::transact`
/// followed by the database's `commit`). The result is what the machine
/// returns for the state before the call, and the balances afterwards are
/// those that the run leaves. Where the machine gives no outcome it returns
/// before anything is committed, so the balances stay as they were.
#[verifier::external_body]
fn transact_commit(db: &mut CacheDB<EmptyDB>, tx: &Envelope) -> (r: Transacted)
    ensures
        r == executed(*old(db), tx@),
        db_balances(*final(db)) == balances_after(*old(db), tx@),
        r is Err ==> db_balances(*final(db)) == db_balances(*old(db)),
{
    let mut evm = Evm::builder().with_db(db).with_tx_env(machine_tx(tx)).build();
    match evm.transact_commit() {
        Ok(result) => Ok(outcome_of(result)),
        Err(e) => Err(e),
    }
}

/// Runs `tx` on a machine with the default environment over a read-only view
/// of `db` (`Evm::transact` on a machine built with `with_ref_db`). The
/// result is what the machine returns for that state; `db` is not written to.
#[verifier::external_body]
fn transact_ref(db: &CacheDB<EmptyDB>, tx: &Envelope) -> (r: Transacted)
    ensures
        r == executed(*db, tx@),
{
    let mut evm = Evm::builder().with_ref_db(db).with_tx_env(machine_tx(tx)).build();
    match evm.transact() {
        Ok(r) => Ok(outcome_of(r.result)),
        Err(e) => Err(e),
    }
}

/// A random address.
pub fn generate_random_account() -> Address {
    Address { bytes: random_address_bytes() }
}

/// How many addresses are drawn for a new account before giving up.
pub const CREATE_ATTEMPTS: usize = 8;

/// A backend over a virtual machine with an in-memory database that starts
/// empty.
pub struct BasicClient {
    db: CacheDB<EmptyDB>,
}

impl BasicClient {
    /// The addresses that the database holds as not existing, which it does
    /// once a transaction has touched an address without an account. An
    /// account recorded under such an address does not show.
    pub closed spec fn vacant(&self) -> Set<Seq<u8>> {
        db_vacant(self.db)
    }

    /// A backend without accounts.
    pub fn new() -> (r: BasicClient)
        ensures
            r.balances() == (Map::<Seq<u8>, nat>::empty()),
            r.vacant() == Set::<Seq<u8>>::empty(),
    {
        BasicClient { db: new_db() }
    }

    /// Records an account with balance `amount` and no code under `account`
    /// and says whether it did. It does so exactly where the address holds no
    /// account and the database does not hold it as not existing; otherwise
    /// every balance stays as it is.
    pub fn create_account_at(&mut self, account: Address, amount: U256) -> (created: bool)
        ensures
            created == (!old(self).balances().contains_key(account@) && !old(
                self,
            ).vacant().contains(account@)),
            created ==> final(self).balances() == old(self).balances().insert(account@, amount@),
            !created ==> final(self).balances() == old(self).balances(),
            final(self).vacant() == old(self).vacant(),
    {
        if account_balance(&self.db, &account).is_some() {
            return false;
        }
        insert_account(&mut self.db, &account, &amount);
        account_balance(&self.db, &account).is_some()
    }
}

impl RevmClient for BasicClient {
    closed spec fn balances(&self) -> Map<Seq<u8>, nat> {
        db_balances(self.db)
    }

    closed spec fn transacted(&self, tx: EnvelopeView) -> Transacted {
        executed(self.db, tx)
    }

    closed spec fn committed(&self, tx: EnvelopeView) -> Map<Seq<u8>, nat> {
        balances_after(self.db, tx)
    }

    /// Draws a random address and records the account there with
    /// [`BasicClient::create_account_at`]; where that address does not take
    /// it, draws again. After [`CREATE_ATTEMPTS`] draws without success the
    /// result is [`ClientError::NoFreshAddress`].
    fn create_account_with_balance(&mut self, amount: U256) -> (r: Result<Address, ClientError>)
        ensures
            final(self).vacant() == old(self).vacant(),
    {
        let mut tries: usize = 0;
        while tries < CREATE_ATTEMPTS
            invariant
                self.balances() == old(self).balances(),
                self.vacant() == old(self).vacant(),
            decreases CREATE_ATTEMPTS - tries,
        {
            let account = generate_random_account();
            if self.create_account_at(account, amount) {
                return Ok(account);
            }
            tries += 1;
        }
        Err(ClientError::NoFreshAddress)
    }

    fn batch_create_accounts_with_balance(&mut self, num: u64, amount: U256) -> (r: Result<
        Vec<Address>,
        ClientError,
    >)
        ensures
            final(self).vacant() == old(self).vacant(),
    {
        let mut accounts: Vec<Address> = Vec::new();
        let mut i: u64 = 0;
        while i < num
            invariant
                i <= num,
                accounts.len() <= i,
                self.vacant() == old(self).vacant(),
                fresh(old(self).balances(), accounts@),
                self.balances() == with_accounts(old(self).balances(), accounts@, amount@),
            decreases num - i,
        {
            let ghost before = accounts@;
            match self.create_account_with_balance(amount) {
                Ok(account) => {
                    proof {
                        lemma_with_accounts_sets_each_balance(
                            old(self).balances(),
                            before,
                            amount@,
                            account@,
                        );
                    }
                    accounts.push(account);
                    assert(accounts@.drop_last() =~= before);
                },
                Err(_) => {},
            }
            i += 1;
        }
        Ok(accounts)
    }

    fn get_balance(&self, account: Address) -> (r: U256)
    {
        match account_balance(&self.db, &account) {
            Some(balance) => balance,
            None => U256::zero(),
        }
    }

    fn transfer(&mut self, to: Address, from: Address, amount: U256) -> (r: Result<(), ClientError>)
    {
        let tx = transfer_envelope(to, from, amount);
        transfer_result(transact_commit(&mut self.db, &tx))
    }

    fn deploy(&mut self, tx: Envelope) -> (r: Result<Address, ClientError>)
    {
        deploy_result(transact_commit(&mut self.db, &tx))
    }

    fn call(&self, tx: Envelope) -> (r: Result<Vec<u8>, ClientError>)
    {
        call_result(transact_ref(&self.db, &tx))
    }

    fn send_transaction(&mut self, tx: Envelope) -> (r: Result<
        (Vec<u8>, u64, Vec<RawLog>),
        ClientError,
    >)
    {
        send_result(transact_commit(&mut self.db, &tx))
    }
}

} // verus!
