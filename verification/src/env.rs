//! The transaction envelope handed to an execution backend and the outcome
//! that comes back from it.

use crate::primitives::{Address, H256, U256};
use revm::primitives::HaltReason;
use vstd::prelude::*;

verus! {

/// The reason for which the virtual machine stopped abnormally. The value is
/// carried through unread.
#[verifier::external_type_specification]
#[verifier::external_body]
pub struct ExHaltReason(HaltReason);

/// Copies a byte vector.
pub fn copy_bytes(bytes: &Vec<u8>) -> (r: Vec<u8>)
    ensures
        r@ == bytes@,
{
    let mut r: Vec<u8> = Vec::new();
    let mut i: usize = 0;
    while i < bytes.len()
        invariant
            i <= bytes.len(),
            r@ == bytes@.subrange(0, i as int),
        decreases bytes.len() - i,
    {
        r.push(bytes[i]);
        assert(r@ =~= bytes@.subrange(0, i + 1));
        i += 1;
    }
    assert(r@ =~= bytes@);
    r
}

/// Copies a vector of hashes.
pub fn copy_hashes(hashes: &Vec<H256>) -> (r: Vec<H256>)
    ensures
        r@ == hashes@,
{
    let mut r: Vec<H256> = Vec::new();
    let mut i: usize = 0;
    while i < hashes.len()
        invariant
            i <= hashes.len(),
            r@ == hashes@.subrange(0, i as int),
        decreases hashes.len() - i,
    {
        r.push(hashes[i]);
        assert(r@ =~= hashes@.subrange(0, i + 1));
        i += 1;
    }
    assert(r@ =~= hashes@);
    r
}

/// Where a transaction goes: to an existing account, or nowhere, in which
/// case it creates a contract.
#[derive(Clone, Copy, Debug, PartialEq, Eq)]
pub enum Target {
    Call(Address),
    Create,
}

/// The plain content of an [`Envelope`].
pub struct EnvelopeView {
    pub caller: Seq<u8>,
    pub target: Target,
    pub data: Seq<u8>,
    pub value: nat,
    pub gas_limit: u64,
}

/// A transaction envelope: who sends it, where it goes, its input payload,
/// the value it transfers and the gas it may use.
#[derive(Debug, PartialEq, Eq)]
pub struct Envelope {
    pub caller: Address,
    pub target: Target,
    pub data: Vec<u8>,
    pub value: U256,
    pub gas_limit: u64,
}

impl View for Envelope {
    type V = EnvelopeView;

    open spec fn view(&self) -> EnvelopeView {
        EnvelopeView {
            caller: self.caller@,
            target: self.target,
            data: self.data@,
            value: self.value@,
            gas_limit: self.gas_limit,
        }
    }
}

impl Clone for Envelope {
    fn clone(&self) -> (r: Envelope)
        ensures
            r@ == self@,
            r.caller == self.caller,
            r.value == self.value,
    {
        Envelope {
            caller: self.caller,
            target: self.target,
            data: copy_bytes(&self.data),
            value: self.value,
            gas_limit: self.gas_limit,
        }
    }
}

impl Default for Envelope {
    /// An envelope that calls the zero address from the zero address with no
    /// payload, no value and the largest gas limit.
    fn default() -> (r: Envelope)
        ensures
            r.caller@ == Seq::new(20, |i: int| 0u8),
            r.target == Target::Call(r.caller),
            r.data@ == Seq::<u8>::empty(),
            r.value@ == 0,
            r.gas_limit == u64::MAX,
    {
        let zero = Address::zero();
        Envelope {
            caller: zero,
            target: Target::Call(zero),
            data: Vec::new(),
            value: U256::zero(),
            gas_limit: u64::MAX,
        }
    }
}

/// What a successful execution hands back.
#[derive(Debug, PartialEq, Eq)]
pub enum ExecOutput {
    /// The bytes returned by a call.
    Call(Vec<u8>),
    /// The bytes returned by a contract creation and, if a contract was
    /// created, its address.
    Create(Vec<u8>, Option<Address>),
}

/// The plain content of a [`LogRecord`].
pub struct LogRecordView {
    pub address: Address,
    pub topics: Seq<H256>,
    pub data: Seq<u8>,
}

/// A log record as the virtual machine emits it.
#[derive(Debug, PartialEq, Eq)]
pub struct LogRecord {
    pub address: Address,
    pub topics: Vec<H256>,
    pub data: Vec<u8>,
}

impl View for LogRecord {
    type V = LogRecordView;

    open spec fn view(&self) -> LogRecordView {
        LogRecordView { address: self.address, topics: self.topics@, data: self.data@ }
    }
}

/// The plain content of a [`RawLog`].
pub struct RawLogView {
    pub topics: Seq<H256>,
    pub data: Seq<u8>,
}

/// A log record reduced to what event decoding reads: its topics and its
/// data payload.
#[derive(Debug, PartialEq, Eq)]
pub struct RawLog {
    pub topics: Vec<H256>,
    pub data: Vec<u8>,
}

impl View for RawLog {
    type V = RawLogView;

    open spec fn view(&self) -> RawLogView {
        RawLogView { topics: self.topics@, data: self.data@ }
    }
}

impl Clone for RawLog {
    fn clone(&self) -> (r: RawLog)
        ensures
            r@ == self@,
    {
        RawLog { topics: copy_hashes(&self.topics), data: copy_bytes(&self.data) }
    }
}

/// The views of a sequence of logs.
pub open spec fn log_views(logs: Seq<LogRecord>) -> Seq<LogRecordView> {
    Seq::new(logs.len(), |i: int| logs[i]@)
}

/// The views of a sequence of raw logs.
pub open spec fn raw_log_views(logs: Seq<RawLog>) -> Seq<RawLogView> {
    Seq::new(logs.len(), |i: int| logs[i]@)
}

/// The outcome of one execution: exactly one of success, revert and halt.
#[derive(Debug, PartialEq, Eq)]
pub enum ExecutionOutcome {
    /// The execution ran to its end.
    Success { output: ExecOutput, gas_used: u64, logs: Vec<LogRecord> },
    /// The called code rejected the operation; `payload` is what it returned.
    Revert { payload: Vec<u8> },
    /// The virtual machine stopped abnormally.
    Halt { reason: HaltReason },
}

} // verus!
