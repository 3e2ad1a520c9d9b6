//! A contract instance: an interface bound to an address, from which calls
//! are built by function name or by selector.

use crate::abi::{call_data, deploy_data, encodable, find_event, find_named, find_selector};
use crate::abi::{kinds_of, matching_logs};
use crate::abi::{lemma_find_event_is_first, lemma_find_named_is_first};
use crate::abi::{lemma_find_selector_is_last, value_rows, Abi, AbiError, Function, FunctionView};
use crate::call::FunctionCall;
use crate::client::{deploy_outcome, ClientError, RevmClient};
use crate::env::{copy_bytes, raw_log_views, Envelope, EnvelopeView, RawLog, Target};
use crate::primitives::Address;
use crate::value::{value_views, Value, ValueView};
use vstd::prelude::*;

verus! {

/// The sixteen hexadecimal digits in lower case.
pub open spec fn hex_digits() -> Seq<char> {
    seq!['0', '1', '2', '3', '4', '5', '6', '7', '8', '9', 'a', 'b', 'c', 'd', 'e', 'f']
}

/// Bytes as text: two lower-case hexadecimal digits for each byte, the high
/// half first.
pub open spec fn hex_text(bytes: Seq<u8>) -> Seq<char> {
    Seq::new(
        2 * bytes.len(),
        |i: int|
            if i % 2 == 0 {
                hex_digits()[bytes[i / 2] as int / 16]
            } else {
                hex_digits()[bytes[i / 2] as int % 16]
            },
    )
}

/// Writes a selector as text (`hex::encode`): two lower-case hexadecimal
/// digits for each byte.
#[verifier::external_body]
fn hex_encode(selector: &[u8; 4]) -> (r: String)
    ensures
        r@ == hex_text(selector@),
{
    hex::encode(selector)
}

/// The envelope of a call to the contract at `address` with payload `data`:
/// sent from the zero address, with no value and the largest gas limit.
pub open spec fn call_envelope(address: Address, data: Seq<u8>) -> EnvelopeView {
    EnvelopeView {
        caller: Seq::new(20, |i: int| 0u8),
        target: Target::Call(address),
        data,
        value: 0,
        gas_limit: u64::MAX,
    }
}

/// What building a call of `function` with `args` on the contract at
/// `address` gives: where the arguments are of the input types, a call of
/// that function whose envelope carries the encoded arguments; else an
/// encoding error.
pub open spec fn built(
    address: Address,
    function: FunctionView,
    args: Seq<ValueView>,
    r: Result<FunctionCall, AbiError>,
) -> bool {
    match call_data(function.name, kinds_of(function.inputs), args) {
        Some(data) => {
            &&& r matches Ok(call)
            &&& call.function@ == function
            &&& call.tx@ == call_envelope(address, data)
            &&& data.len() >= 4
            &&& data.subrange(0, 4) == function.selector
        },
        None => r matches Err(AbiError::Encoding),
    }
}

/// The envelope of a deployment, as plain values: `caller` creates a contract
/// from `data`, with no value and the largest gas limit.
pub open spec fn create_envelope(caller: Address, data: Seq<u8>) -> EnvelopeView {
    EnvelopeView { caller: caller@, target: Target::Create, data, value: 0, gas_limit: u64::MAX }
}

/// Builds the envelope that deploys a contract from `caller`: its payload is
/// the creation code followed by the encoded constructor arguments, or the
/// creation code alone where the interface has no constructor. Arguments that
/// are not of the constructor's input types give [`AbiError::Encoding`].
pub fn deployment(abi: &Abi, caller: Address, code: &Vec<u8>, args: &Vec<Value>) -> (r: Result<
    Envelope,
    AbiError,
>)
    ensures
        match abi@.constructor {
            Some(inputs) => match deploy_data(kinds_of(inputs), code@, value_views(args@)) {
                Some(data) => {
                    &&& r matches Ok(tx)
                    &&& tx@ == create_envelope(caller, data)
                    &&& data.len() >= code@.len()
                    &&& data.subrange(0, code@.len() as int) == code@
                },
                None => r matches Err(AbiError::Encoding),
            },
            None => r matches Ok(tx) && tx@ == create_envelope(caller, code@),
        },
{
    let data = match &abi.constructor {
        Some(constructor) => constructor.encode_input(code, args)?,
        None => copy_bytes(code),
    };
    let mut tx = Envelope::default();
    tx.caller = caller;
    tx.target = Target::Create;
    tx.data = data;
    Ok(tx)
}

/// Building a call twice from the same arguments gives the same envelope,
/// and it succeeds where the arguments can be encoded.
pub proof fn lemma_built_is_a_function(
    address: Address,
    function: FunctionView,
    args: Seq<ValueView>,
    first: Result<FunctionCall, AbiError>,
    second: Result<FunctionCall, AbiError>,
)
    requires
        built(address, function, args, first),
        built(address, function, args, second),
    ensures
        first is Ok == encodable(args, kinds_of(function.inputs)),
        first is Ok == second is Ok,
        first is Ok ==> first->Ok_0.tx@ == second->Ok_0.tx@ && first->Ok_0.function@
            == second->Ok_0.function@,
{
}

/// An interface bound to the address of a deployed contract.
#[derive(Debug)]
pub struct ContractInstance {
    address: Address,
    abi: Abi,
}

impl Clone for ContractInstance {
    fn clone(&self) -> (r: ContractInstance)
        ensures
            r.address() == self.address(),
            r.abi()@ == self.abi()@,
    {
        ContractInstance { address: self.address, abi: self.abi.clone() }
    }
}

impl ContractInstance {
    /// The address that the instance is bound to.
    pub closed spec fn spec_address(&self) -> Address {
        self.address
    }

    /// The interface that the instance holds.
    pub closed spec fn spec_abi(&self) -> &Abi {
        &self.abi
    }

    /// Binds `abi` to `address`.
    pub fn new(address: Address, abi: Abi) -> (r: ContractInstance)
        ensures
            r.address() == address,
            *r.abi() == abi,
    {
        ContractInstance { address, abi }
    }

    /// The contract's address.
    #[verifier::when_used_as_spec(spec_address)]
    pub fn address(&self) -> (r: Address)
        ensures
            r == self.address(),
    {
        self.address
    }

    /// The contract's interface.
    #[verifier::when_used_as_spec(spec_abi)]
    pub fn abi(&self) -> (r: &Abi)
        ensures
            r == self.abi(),
    {
        &self.abi
    }

    /// An instance with the same interface at another address. Nothing is
    /// deployed.
    pub fn at(&self, address: Address) -> (r: ContractInstance)
        ensures
            r.address() == address,
            r.abi()@ == self.abi()@,
    {
        let mut this = self.clone();
        this.address = address;
        this
    }

    /// Hands `tx` to the backend's `deploy` and its result back: the address
    /// of the contract that running `tx` created.
    pub fn deploy<R: RevmClient>(&self, client: &mut R, tx: Envelope) -> (r: Result<
        Address,
        ClientError,
    >)
        ensures
            r == deploy_outcome(old(client).transacted(tx@)),
            final(client).balances() == old(client).committed(tx@),
            old(client).transacted(tx@) is Err ==> final(client).balances() == old(
                client,
            ).balances(),
    {
        client.deploy(tx)
    }

    fn method_func(&self, function: &Function, args: &Vec<Value>) -> (r: Result<
        FunctionCall,
        AbiError,
    >)
        ensures
            built(self.address(), function@, value_views(args@), r),
    {
        let data = function.encode_input(args)?;
        let mut tx = Envelope::default();
        tx.target = Target::Call(self.address);
        tx.data = data;
        Ok(FunctionCall { tx, function: function.clone() })
    }

    /// Builds a call of the function with the given selector; where several
    /// functions share it, of the last declared. Without such a function the
    /// result is [`AbiError::UnknownSelector`] with the selector as text.
    pub fn method_hash(&self, signature: [u8; 4], args: &Vec<Value>) -> (r: Result<
        FunctionCall,
        AbiError,
    >)
        ensures
            match find_selector(
                self.abi()@.functions,
                signature@,
                self.abi()@.functions.len() as int,
            ) {
                Some(i) => built(self.address(), self.abi()@.functions[i], value_views(args@), r),
                None => r matches Err(AbiError::UnknownSelector(text)) && text@ == hex_text(
                    signature@,
                ),
            },
    {
        proof {
            lemma_find_selector_is_last(
                self.abi@.functions,
                signature@,
                self.abi@.functions.len() as int,
            );
        }
        match self.abi.function_by_selector(&signature) {
            Some(function) => self.method_func(function, args),
            None => Err(AbiError::UnknownSelector(hex_encode(&signature))),
        }
    }

    /// Builds a call of the function named `name`. Where several functions
    /// share the name, the first declared is taken, whatever the arguments
    /// are: arguments that fit only a later one give an encoding error.
    /// Without such a function the result is [`AbiError::UnknownMethod`].
    pub fn method(&self, name: &str, args: &Vec<Value>) -> (r: Result<FunctionCall, AbiError>)
        ensures
            match find_named(self.abi()@.functions, name@, 0) {
                Some(i) => built(self.address(), self.abi()@.functions[i], value_views(args@), r),
                None => r matches Err(AbiError::UnknownMethod(n)) && n@ == name@,
            },
    {
        proof {
            lemma_find_named_is_first(self.abi@.functions, name@, 0);
        }
        match self.abi.function(name) {
            Ok(function) => self.method_func(function, args),
            Err(e) => Err(e),
        }
    }

    /// The decoded records of the event named `name` among `logs`, in the
    /// order of the logs; where several events share the name, of the first
    /// declared. Logs of other events are left out. Without such an event
    /// the result is [`AbiError::UnknownEvent`].
    pub fn event_logs(&self, name: &str, logs: &Vec<RawLog>) -> (r: Result<
        Vec<Vec<Value>>,
        AbiError,
    >)
        ensures
            match find_event(self.abi()@.events, name@, 0) {
                Some(i) => r matches Ok(rows) && value_rows(rows@) == matching_logs(
                    self.abi()@.events[i],
                    raw_log_views(logs@),
                ),
                None => r matches Err(AbiError::UnknownEvent(n)) && n@ == name@,
            },
    {
        proof {
            lemma_find_event_is_first(self.abi@.events, name@, 0);
        }
        match self.abi.event(name) {
            Ok(event) => Ok(event.decode_logs(logs)),
            Err(e) => Err(e),
        }
    }
}

} // verus!
