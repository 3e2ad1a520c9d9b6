//! A call that has been built and not yet run: the envelope to submit and
//! the function whose outputs the returned bytes are decoded against.

use crate::abi::{held_values, kinds_of, AbiError, Function};
use crate::client::{call_outcome, send_outcome, ClientError, RevmClient};
use crate::env::{raw_log_views, Envelope, EnvelopeView, RawLog, RawLogView};
use crate::primitives::Address;
use crate::value::{value_views, Value};
use vstd::prelude::*;

verus! {

/// Why running a call failed.
#[derive(Debug)]
pub enum CallError {
    /// The backend failed: the execution reverted or halted, or the
    /// transaction was refused.
    Client(ClientError),
    /// The returned bytes do not hold values of the declared output types.
    Abi(AbiError),
}

/// A built call. Running it leaves it as it is, so it can be run again, and
/// a clone runs independently of it.
#[derive(Debug)]
#[must_use]
pub struct FunctionCall {
    /// The envelope to submit.
    pub tx: Envelope,
    /// The function being called.
    pub function: Function,
}

impl Clone for FunctionCall {
    fn clone(&self) -> (r: FunctionCall)
        ensures
            r.tx@ == self.tx@,
            r.function@ == self.function@,
    {
        FunctionCall { tx: self.tx.clone(), function: self.function.clone() }
    }
}

impl FunctionCall {
    /// Whether `r` is what the call makes of a backend's answer to a read:
    /// the decoded outputs where the backend returned bytes that decode as
    /// the function's outputs, a decoding error where they do not or an
    /// output type is not valid, and the backend's error where it failed.
    pub open spec fn is_returned(
        &self,
        result: Result<Vec<u8>, ClientError>,
        r: Result<Vec<Value>, CallError>,
    ) -> bool {
        match result {
            Ok(bytes) => match held_values(kinds_of(self.function@.outputs), bytes@) {
                Some(values) => r matches Ok(v) && value_views(v@) == values,
                None => r matches Err(CallError::Abi(AbiError::Decoding)),
            },
            Err(e) => r matches Err(CallError::Client(f)) && f == e,
        }
    }

    /// Whether `r` is what the call makes of a backend's answer to a
    /// state-changing call, given as plain values: the decoded outputs and
    /// the logs as the backend gave them.
    pub open spec fn is_sent_back(
        &self,
        result: Result<(Seq<u8>, u64, Seq<RawLogView>), ClientError>,
        r: Result<(Vec<Value>, Vec<RawLog>), CallError>,
    ) -> bool {
        match result {
            Ok((bytes, _, logs)) => match held_values(kinds_of(self.function@.outputs), bytes) {
                Some(values) => r matches Ok((v, l)) && value_views(v@) == values && raw_log_views(
                    l@,
                ) == logs,
                None => r matches Err(CallError::Abi(AbiError::Decoding)),
            },
            Err(e) => r matches Err(CallError::Client(f)) && f == e,
        }
    }

    /// Decodes a backend's answer to a read, as [`FunctionCall::is_returned`]
    /// says.
    pub fn returned(&self, result: Result<Vec<u8>, ClientError>) -> (r: Result<
        Vec<Value>,
        CallError,
    >)
        ensures
            self.is_returned(result, r),
    {
        match result {
            Ok(bytes) => match self.function.decode_output(&bytes) {
                Ok(values) => Ok(values),
                Err(e) => Err(CallError::Abi(e)),
            },
            Err(e) => Err(CallError::Client(e)),
        }
    }

    /// Decodes a backend's answer to a state-changing call: the outputs are
    /// decoded, the gas figure is dropped and the logs are handed on.
    pub fn sent(&self, result: Result<(Vec<u8>, u64, Vec<RawLog>), ClientError>) -> (r: Result<
        (Vec<Value>, Vec<RawLog>),
        CallError,
    >)
        ensures
            match result {
                Ok((bytes, gas, logs)) => self.is_sent_back(
                    Ok((bytes@, gas, raw_log_views(logs@))),
                    r,
                ),
                Err(e) => self.is_sent_back(Err(e), r),
            },
    {
        match result {
            Ok((bytes, _, logs)) => match self.function.decode_output(&bytes) {
                Ok(values) => Ok((values, logs)),
                Err(e) => Err(CallError::Abi(e)),
            },
            Err(e) => Err(CallError::Client(e)),
        }
    }

    /// The envelope that [`FunctionCall::send_transaction`] submits: this
    /// call's envelope with `caller` as its sender.
    pub fn envelope_from(&self, caller: Address) -> (tx: Envelope)
        ensures
            tx@ == (EnvelopeView { caller: caller@, ..self.tx@ }),
    {
        let mut tx = self.tx.clone();
        tx.caller = caller;
        tx
    }

    /// Runs the call without keeping its effects: submits a copy of the
    /// envelope to the backend's `call` and decodes the returned bytes as the
    /// function's outputs. The backend is only read.
    pub fn call<R: RevmClient>(&self, client: &R) -> (r: Result<Vec<Value>, CallError>)
        ensures
            self.is_returned(call_outcome(client.transacted(self.tx@)), r),
    {
        let result = client.call(self.tx.clone());
        self.returned(result)
    }

    /// Runs the call with `caller` as its sender and keeps its effects:
    /// submits the envelope of [`FunctionCall::envelope_from`] to the
    /// backend's `send_transaction`, decodes the returned bytes as the
    /// function's outputs and hands the logs on.
    pub fn send_transaction<R: RevmClient>(&self, client: &mut R, caller: Address) -> (r: Result<
        (Vec<Value>, Vec<RawLog>),
        CallError,
    >)
        ensures
            self.is_sent_back(
                send_outcome(
                    old(client).transacted((EnvelopeView { caller: caller@, ..self.tx@ })),
                ),
                r,
            ),
            final(client).balances() == old(client).committed(
                (EnvelopeView { caller: caller@, ..self.tx@ }),
            ),
            old(client).transacted((EnvelopeView { caller: caller@, ..self.tx@ })) is Err
                ==> final(client).balances() == old(client).balances(),
    {
        let result = client.send_transaction(self.envelope_from(caller));
        self.sent(result)
    }
}

} // verus!
