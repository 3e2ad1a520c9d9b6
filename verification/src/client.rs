//! The execution backend as a set of capabilities, its errors, and the rules
//! that turn an execution outcome into what each operation returns.

use crate::env::{Envelope, EnvelopeView, ExecOutput, ExecutionOutcome, LogRecord};
use crate::env::{LogRecordView, RawLog, RawLogView, Target};
use crate::env::{copy_bytes, copy_hashes, log_views, raw_log_views};
use crate::primitives::{Address, U256};
use revm::primitives::EVMError;
use std::convert::Infallible;
use vstd::prelude::*;

verus! {

/// The virtual machine's reason for giving no outcome. The value is carried
/// through unread.
#[verifier::external_type_specification]
#[verifier::external_body]
#[verifier::reject_recursive_types(DB)]
pub struct ExEVMError<DB>(EVMError<DB>);

/// Why a backend operation failed.
#[derive(Debug)]
pub enum ClientError {
    /// The virtual machine gave no outcome: it refused the transaction before
    /// running it, or failed itself.
    Transact(EVMError<Infallible>),
    /// The called code rejected the operation; the payload is what it returned.
    Revert(Vec<u8>),
    /// The virtual machine stopped abnormally.
    Halt(revm::primitives::HaltReason),
    /// A deployment ended without a created contract address.
    ExpectedCreate,
    /// A call ended with the output of a contract creation.
    ExpectedCall,
    /// No address could be found that holds no account yet.
    NoFreshAddress,
}

/// What a raw execution result is to the caller: the machine's outcome, or
/// its refusal to run the transaction.
pub type Transacted = Result<ExecutionOutcome, EVMError<Infallible>>;

/// The success fields of an outcome, or the error that a revert or a halt
/// stands for.
pub open spec fn outcome_parts(result: ExecutionOutcome) -> Result<
    (ExecOutput, u64, Vec<LogRecord>),
    ClientError,
> {
    match result {
        ExecutionOutcome::Success { output, gas_used, logs } => Ok((output, gas_used, logs)),
        ExecutionOutcome::Revert { payload } => Err(ClientError::Revert(payload)),
        ExecutionOutcome::Halt { reason } => Err(ClientError::Halt(reason)),
    }
}

/// The returned bytes of a successful call, with gas and logs; a success that
/// carries the output of a creation is an error.
pub open spec fn outcome_value(result: ExecutionOutcome) -> Result<
    (Vec<u8>, u64, Vec<LogRecord>),
    ClientError,
> {
    match outcome_parts(result) {
        Ok((ExecOutput::Call(value), gas_used, logs)) => Ok((value, gas_used, logs)),
        Ok((ExecOutput::Create(_, _), _, _)) => Err(ClientError::ExpectedCall),
        Err(e) => Err(e),
    }
}

/// A log without the address that emitted it.
pub open spec fn strip_log(log: LogRecordView) -> RawLogView {
    RawLogView { topics: log.topics, data: log.data }
}

/// Splits an outcome into output, gas used and logs. A revert becomes
/// [`ClientError::Revert`] with its payload, a halt [`ClientError::Halt`]
/// with its reason.
pub fn process_execution_result(result: ExecutionOutcome) -> (r: Result<
    (ExecOutput, u64, Vec<LogRecord>),
    ClientError,
>)
    ensures
        r == outcome_parts(result),
{
    match result {
        ExecutionOutcome::Success { output, gas_used, logs } => Ok((output, gas_used, logs)),
        ExecutionOutcome::Revert { payload } => Err(ClientError::Revert(payload)),
        ExecutionOutcome::Halt { reason } => Err(ClientError::Halt(reason)),
    }
}

/// As [`process_execution_result`], but the output must be that of a call:
/// its bytes are handed back, and the output of a creation is
/// [`ClientError::ExpectedCall`].
pub fn process_result_with_value(result: ExecutionOutcome) -> (r: Result<
    (Vec<u8>, u64, Vec<LogRecord>),
    ClientError,
>)
    ensures
        r == outcome_value(result),
{
    match process_execution_result(result) {
        Ok((output, gas_used, logs)) => match output {
            ExecOutput::Call(value) => Ok((value, gas_used, logs)),
            ExecOutput::Create(_, _) => Err(ClientError::ExpectedCall),
        },
        Err(e) => Err(e),
    }
}

/// Drops the emitting address from each log; order, topics and data stay.
pub fn into_ether_raw_log(logs: Vec<LogRecord>) -> (r: Vec<RawLog>)
    ensures
        raw_log_views(r@) == log_views(logs@).map_values(|l: LogRecordView| strip_log(l)),
{
    let mut r: Vec<RawLog> = Vec::new();
    let mut i: usize = 0;
    while i < logs.len()
        invariant
            i <= logs.len(),
            r.len() == i,
            forall|j: int| 0 <= j < i ==> (#[trigger] r[j])@ == strip_log(logs[j]@),
        decreases logs.len() - i,
    {
        let log = &logs[i];
        r.push(RawLog { topics: copy_hashes(&log.topics), data: copy_bytes(&log.data) });
        i += 1;
    }
    assert(raw_log_views(r@) =~= log_views(logs@).map_values(|l: LogRecordView| strip_log(l)));
    r
}

/// What a transfer returns for each raw execution result: success for any
/// successful outcome, the outcome's error otherwise, and
/// [`ClientError::Transact`] where the machine refused the transaction.
pub open spec fn transfer_outcome(transacted: Transacted) -> Result<(), ClientError> {
    match transacted {
        Ok(result) => match outcome_parts(result) {
            Ok(_) => Ok(()),
            Err(e) => Err(e),
        },
        Err(e) => Err(ClientError::Transact(e)),
    }
}

/// What a deployment returns for each raw execution result: the created
/// address where the outcome is a success that carries one, and
/// [`ClientError::ExpectedCreate`] for any other success.
pub open spec fn deploy_outcome(transacted: Transacted) -> Result<Address, ClientError> {
    match transacted {
        Ok(result) => match outcome_parts(result) {
            Ok((ExecOutput::Create(_, Some(address)), _, _)) => Ok(address),
            Ok(_) => Err(ClientError::ExpectedCreate),
            Err(e) => Err(e),
        },
        Err(e) => Err(ClientError::Transact(e)),
    }
}

/// What a read-only call returns for each raw execution result: the bytes
/// that a successful call returned.
pub open spec fn call_outcome(transacted: Transacted) -> Result<Vec<u8>, ClientError> {
    match transacted {
        Ok(result) => match outcome_value(result) {
            Ok((value, _, _)) => Ok(value),
            Err(e) => Err(e),
        },
        Err(e) => Err(ClientError::Transact(e)),
    }
}

/// What a state-changing call returns for each raw execution result, as
/// plain values: the bytes that a successful call returned, the gas it used
/// and its logs without their emitting addresses.
pub open spec fn send_outcome(transacted: Transacted) -> Result<
    (Seq<u8>, u64, Seq<RawLogView>),
    ClientError,
> {
    match transacted {
        Ok(result) => match outcome_value(result) {
            Ok((value, gas_used, logs)) => Ok(
                (value@, gas_used, log_views(logs@).map_values(|l: LogRecordView| strip_log(l))),
            ),
            Err(e) => Err(e),
        },
        Err(e) => Err(ClientError::Transact(e)),
    }
}

/// Whether `r` is what a state-changing call returns for `transacted`.
pub open spec fn is_sent(
    transacted: Transacted,
    r: Result<(Vec<u8>, u64, Vec<RawLog>), ClientError>,
) -> bool {
    match send_outcome(transacted) {
        Ok((value, gas_used, logs)) => {
            &&& r matches Ok((bytes, gas, raw))
            &&& bytes@ == value
            &&& gas == gas_used
            &&& raw_log_views(raw@) == logs
        },
        Err(e) => r matches Err(f) && f == e,
    }
}

/// The envelope of a plain transfer, as plain values: `from` calls `to` with
/// `amount`, no payload and the largest gas limit.
pub open spec fn transfer_view(to: Address, from: Address, amount: U256) -> EnvelopeView {
    EnvelopeView {
        caller: from@,
        target: Target::Call(to),
        data: Seq::empty(),
        value: amount@,
        gas_limit: u64::MAX,
    }
}

/// Decides what a transfer returns, as [`transfer_outcome`] says.
pub fn transfer_result(transacted: Transacted) -> (r: Result<(), ClientError>)
    ensures
        r == transfer_outcome(transacted),
{
    match transacted {
        Ok(result) => match process_execution_result(result) {
            Ok(_) => Ok(()),
            Err(e) => Err(e),
        },
        Err(e) => Err(ClientError::Transact(e)),
    }
}

/// Decides what a deployment returns, as [`deploy_outcome`] says.
pub fn deploy_result(transacted: Transacted) -> (r: Result<Address, ClientError>)
    ensures
        r == deploy_outcome(transacted),
{
    match transacted {
        Ok(result) => match process_execution_result(result) {
            Ok((output, _, _)) => match output {
                ExecOutput::Create(_, Some(address)) => Ok(address),
                _ => Err(ClientError::ExpectedCreate),
            },
            Err(e) => Err(e),
        },
        Err(e) => Err(ClientError::Transact(e)),
    }
}

/// Decides what a read-only call returns, as [`call_outcome`] says.
pub fn call_result(transacted: Transacted) -> (r: Result<Vec<u8>, ClientError>)
    ensures
        r == call_outcome(transacted),
{
    match transacted {
        Ok(result) => match process_result_with_value(result) {
            Ok((value, _, _)) => Ok(value),
            Err(e) => Err(e),
        },
        Err(e) => Err(ClientError::Transact(e)),
    }
}

/// Decides what a state-changing call returns, as [`send_outcome`] says.
pub fn send_result(transacted: Transacted) -> (r: Result<(Vec<u8>, u64, Vec<RawLog>), ClientError>)
    ensures
        is_sent(transacted, r),
{
    match transacted {
        Ok(result) => match process_result_with_value(result) {
            Ok((value, gas_used, logs)) => {
                let raw = into_ether_raw_log(logs);
                Ok((value, gas_used, raw))
            },
            Err(e) => Err(e),
        },
        Err(e) => Err(ClientError::Transact(e)),
    }
}

/// The envelope of a plain transfer: `from` calls `to` with `amount` and no
/// payload.
pub fn transfer_envelope(to: Address, from: Address, amount: U256) -> (tx: Envelope)
    ensures
        tx@ == transfer_view(to, from, amount),
{
    let mut tx = Envelope::default();
    tx.caller = from;
    tx.target = Target::Call(to);
    tx.value = amount;
    tx
}

/// The value that `balances` holds for `account`, zero where it holds none.
pub open spec fn balance_in(balances: Map<Seq<u8>, nat>, account: Seq<u8>) -> nat {
    if balances.contains_key(account) {
        balances[account]
    } else {
        0
    }
}

/// The balances after an account with `amount` was recorded under each of
/// `accounts` in turn.
pub open spec fn with_accounts(
    balances: Map<Seq<u8>, nat>,
    accounts: Seq<Address>,
    amount: nat,
) -> Map<Seq<u8>, nat>
    decreases accounts.len(),
{
    if accounts.len() == 0 {
        balances
    } else {
        with_accounts(balances, accounts.drop_last(), amount).insert(accounts.last()@, amount)
    }
}

/// Whether no two of `accounts` are the same address.
pub open spec fn distinct(accounts: Seq<Address>) -> bool {
    forall|i: int, j: int| 0 <= i < j < accounts.len() ==> accounts[i]@ != accounts[j]@
}

/// Whether `accounts` are new to `balances`: no two are the same, and none
/// holds a balance yet.
pub open spec fn fresh(balances: Map<Seq<u8>, nat>, accounts: Seq<Address>) -> bool {
    distinct(accounts) && forall|i: int|
        0 <= i < accounts.len() ==> !balances.contains_key(#[trigger] accounts[i]@)
}

/// After accounts were recorded, each of them holds the amount and every
/// other address holds what it held before.
pub proof fn lemma_with_accounts_sets_each_balance(
    balances: Map<Seq<u8>, nat>,
    accounts: Seq<Address>,
    amount: nat,
    other: Seq<u8>,
)
    ensures
        (exists|i: int| 0 <= i < accounts.len() && accounts[i]@ == other) ==> {
            &&& with_accounts(balances, accounts, amount).contains_key(other)
            &&& balance_in(with_accounts(balances, accounts, amount), other) == amount
        },
        (forall|i: int| 0 <= i < accounts.len() ==> accounts[i]@ != other) ==> {
            &&& with_accounts(balances, accounts, amount).contains_key(other)
                == balances.contains_key(other)
            &&& balance_in(with_accounts(balances, accounts, amount), other) == balance_in(
                balances,
                other,
            )
        },
    decreases accounts.len(),
{
    if accounts.len() > 0 {
        let rest = accounts.drop_last();
        lemma_with_accounts_sets_each_balance(balances, rest, amount, other);
        if exists|i: int| 0 <= i < accounts.len() && accounts[i]@ == other {
            let i = choose|i: int| 0 <= i < accounts.len() && accounts[i]@ == other;
            if i < accounts.len() - 1 {
                assert(rest[i]@ == other);
            }
        }
        if forall|i: int| 0 <= i < accounts.len() ==> accounts[i]@ != other {
            assert forall|i: int| 0 <= i < rest.len() implies rest[i]@ != other by {
                assert(accounts[i]@ != other);
            }
            assert(accounts[accounts.len() - 1]@ != other);
        }
    }
}

/// The capabilities of an execution backend. A backend owns the state of its
/// accounts. An operation that may change the state takes the backend by
/// exclusive reference, so at most one of them runs against it at a time; an
/// operation that only reads takes it by shared reference and so leaves every
/// account as it is.
pub trait RevmClient {
    /// The balance of every account that exists in the backend, by address.
    spec fn balances(&self) -> Map<Seq<u8>, nat>;

    /// What running `tx` on the backend's present state gives.
    spec fn transacted(&self, tx: EnvelopeView) -> Transacted;

    /// The balances that the backend holds once it has run `tx` on its
    /// present state and kept the effects.
    spec fn committed(&self, tx: EnvelopeView) -> Map<Seq<u8>, nat>;

    /// Records a new account with the given balance and no code, under an
    /// address that held no account, and hands the address back. Every other
    /// balance stays as it is. Where no such address is found, nothing
    /// changes.
    fn create_account_with_balance(&mut self, amount: U256) -> (r: Result<Address, ClientError>)
        ensures
            match r {
                Ok(account) => {
                    &&& !old(self).balances().contains_key(account@)
                    &&& final(self).balances() == old(self).balances().insert(account@, amount@)
                },
                Err(_) => final(self).balances() == old(self).balances(),
            },
    ;

    /// Makes `num` attempts to create an account with the given balance and
    /// hands back the addresses of those that succeeded, in the order of
    /// their creation. An attempt that fails is left out, so the result may
    /// be shorter than `num`; it is never an error. The addresses are new and
    /// differ from one another, each holds the amount, and every other
    /// balance stays as it is.
    fn batch_create_accounts_with_balance(&mut self, num: u64, amount: U256) -> (r: Result<
        Vec<Address>,
        ClientError,
    >)
        ensures
            r is Ok,
            r->Ok_0.len() <= num,
            fresh(old(self).balances(), r->Ok_0@),
            final(self).balances() == with_accounts(old(self).balances(), r->Ok_0@, amount@),
    ;

    /// The balance of `account`, zero where there is no such account.
    fn get_balance(&self, account: Address) -> (r: U256)
        ensures
            r@ == balance_in(self.balances(), account@),
    ;

    /// Moves `amount` from `from` to `to`: runs the envelope of
    /// [`transfer_view`] and keeps its effects. It fails where the execution
    /// reverts or halts or the transaction is refused; where it is refused,
    /// every balance stays as it is.
    fn transfer(&mut self, to: Address, from: Address, amount: U256) -> (r: Result<
        (),
        ClientError,
    >)
        ensures
            r == transfer_outcome(old(self).transacted(transfer_view(to, from, amount))),
            final(self).balances() == old(self).committed(transfer_view(to, from, amount)),
            old(self).transacted(transfer_view(to, from, amount)) is Err ==> final(self).balances()
                == old(self).balances(),
    ;

    /// Runs a transaction that creates a contract, keeps its effects and
    /// hands back the address of the contract.
    fn deploy(&mut self, tx: Envelope) -> (r: Result<Address, ClientError>)
        ensures
            r == deploy_outcome(old(self).transacted(tx@)),
            final(self).balances() == old(self).committed(tx@),
            old(self).transacted(tx@) is Err ==> final(self).balances() == old(self).balances(),
    ;

    /// Runs a transaction without keeping its effects and hands back the
    /// bytes it returned.
    fn call(&self, tx: Envelope) -> (r: Result<Vec<u8>, ClientError>)
        ensures
            r == call_outcome(self.transacted(tx@)),
    ;

    /// Runs a transaction, keeps its effects, and hands back the bytes it
    /// returned, the gas it used and the logs it emitted.
    fn send_transaction(&mut self, tx: Envelope) -> (r: Result<
        (Vec<u8>, u64, Vec<RawLog>),
        ClientError,
    >)
        ensures
            is_sent(old(self).transacted(tx@), r),
            final(self).balances() == old(self).committed(tx@),
            old(self).transacted(tx@) is Err ==> final(self).balances() == old(self).balances(),
    ;
}

} // verus!
