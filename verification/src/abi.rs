//! The interface model: the functions and events of a contract, with the
//! selector of each function, and the encoding of values against it.

use crate::env::{raw_log_views, RawLog, RawLogView};
use crate::primitives::{Address, H256, U256};
use crate::value::{all_valid, fits_all, spend_all, value_views, weights};
use crate::value::{Kind, KindView, Value, ValueView, MAX_WEIGHT};
use ethers_core::abi::{Error, ParamType, Token};
use ethers_core::types::{H160, U256 as Word};
use vstd::prelude::*;

verus! {

/// A type tree in the encoder's form. The value is carried through unread.
#[verifier::external_type_specification]
#[verifier::external_body]
pub struct ExParamType(ParamType);

/// A value in the encoder's form. The value is carried through unread.
#[verifier::external_type_specification]
#[verifier::external_body]
pub struct ExToken(Token);

/// The error of an encoding or a decoding. The value is carried through
/// unread.
#[verifier::external_type_specification]
#[verifier::external_body]
pub struct ExError(Error);

/// The first four bytes of the hash of the canonical signature
/// `name(type1,type2,...)`.
pub uninterp spec fn selector_hash(name: Seq<char>, kinds: Seq<KindView>) -> Seq<u8>;

/// The hash of the canonical signature `name(type1,type2,...)`: topic 0 of an
/// event that is not anonymous.
pub uninterp spec fn signature_hash(name: Seq<char>, kinds: Seq<KindView>) -> Seq<u8>;

/// The call data that the encoder gives for `values` as arguments of the
/// function `name` with input types `kinds`, where it accepts them.
pub uninterp spec fn encoded_input(
    name: Seq<char>,
    kinds: Seq<KindView>,
    values: Seq<ValueView>,
) -> Seq<u8>;

/// The deployment payload that the encoder gives for creation code `code`
/// with `values` as constructor arguments of types `kinds`, where it accepts
/// them.
pub uninterp spec fn encoded_constructor(
    kinds: Seq<KindView>,
    code: Seq<u8>,
    values: Seq<ValueView>,
) -> Seq<u8>;

/// The values of types `kinds` that `data` encodes; `None` where it encodes
/// none.
pub uninterp spec fn decoded(kinds: Seq<KindView>, data: Seq<u8>) -> Option<Seq<ValueView>>;

/// The parameter values, in declaration order, of the event that a log with
/// these topics and this data records; `None` where the log is not a record
/// of that event.
pub uninterp spec fn parsed_log(event: EventView, topics: Seq<H256>, data: Seq<u8>) -> Option<
    Seq<ValueView>,
>;

/// Whether a function reads or changes state, and whether it takes value.
#[derive(Clone, Copy, Debug, PartialEq, Eq)]
pub enum StateMutability {
    Pure,
    View,
    NonPayable,
    Payable,
}

/// The plain content of a [`Param`].
pub struct ParamView {
    pub name: Seq<char>,
    pub kind: KindView,
}

/// A named parameter of a function or a constructor.
#[derive(Debug)]
pub struct Param {
    pub name: String,
    pub kind: Kind,
}

impl View for Param {
    type V = ParamView;

    open spec fn view(&self) -> ParamView {
        ParamView { name: self.name@, kind: self.kind@ }
    }
}

impl Clone for Param {
    fn clone(&self) -> (r: Param)
        ensures
            r@ == self@,
    {
        Param { name: self.name.clone(), kind: self.kind.clone() }
    }
}

/// The views of a sequence of parameters.
pub open spec fn param_views(params: Seq<Param>) -> Seq<ParamView> {
    Seq::new(params.len(), |i: int| params[i]@)
}

/// The types of a sequence of parameters.
pub open spec fn kinds_of(params: Seq<ParamView>) -> Seq<KindView> {
    Seq::new(params.len(), |i: int| params[i].kind)
}

/// Copies a vector of parameters.
pub fn copy_params(params: &Vec<Param>) -> (r: Vec<Param>)
    ensures
        param_views(r@) == param_views(params@),
{
    let mut r: Vec<Param> = Vec::new();
    let mut i: usize = 0;
    while i < params.len()
        invariant
            i <= params.len(),
            r.len() == i,
            forall|j: int| 0 <= j < i ==> (#[trigger] r[j])@ == params[j]@,
        decreases params.len() - i,
    {
        r.push(params[i].clone());
        i += 1;
    }
    assert(param_views(r@) =~= param_views(params@));
    r
}

/// The plain content of a [`Function`].
pub struct FunctionView {
    pub name: Seq<char>,
    pub inputs: Seq<ParamView>,
    pub outputs: Seq<ParamView>,
    pub state_mutability: StateMutability,
    pub selector: Seq<u8>,
}

impl FunctionView {
    /// The selector is the one that the name and the input types give.
    pub open spec fn wf(self) -> bool {
        self.selector == selector_hash(self.name, kinds_of(self.inputs))
    }
}

/// A function of a contract: its name, inputs, outputs and mutability, and
/// the selector that its name and input types give, computed once.
#[derive(Debug)]
pub struct Function {
    name: String,
    inputs: Vec<Param>,
    outputs: Vec<Param>,
    state_mutability: StateMutability,
    selector: [u8; 4],
}

impl View for Function {
    type V = FunctionView;

    closed spec fn view(&self) -> FunctionView {
        FunctionView {
            name: self.name@,
            inputs: param_views(self.inputs@),
            outputs: param_views(self.outputs@),
            state_mutability: self.state_mutability,
            selector: self.selector@,
        }
    }
}

/// Writes a type tree in the encoder's form, node for node.
#[verifier::external_body]
fn outside_kind(kind: &Kind) -> ParamType {
    match kind {
        Kind::Address => ParamType::Address,
        Kind::Bytes => ParamType::Bytes,
        Kind::Int(n) => ParamType::Int(*n),
        Kind::Uint(n) => ParamType::Uint(*n),
        Kind::Bool => ParamType::Bool,
        Kind::String => ParamType::String,
        Kind::Array(e) => ParamType::Array(Box::new(outside_kind(e))),
        Kind::FixedBytes(n) => ParamType::FixedBytes(*n),
        Kind::FixedArray(e, n) => ParamType::FixedArray(Box::new(outside_kind(e)), *n),
        Kind::Tuple(ks) => ParamType::Tuple(ks.iter().map(outside_kind).collect()),
    }
}

/// Writes a value in the encoder's form, node for node.
#[verifier::external_body]
fn outside_value(value: &Value) -> Token {
    match value {
        Value::Address(a) => Token::Address(H160(a.bytes)),
        Value::FixedBytes(b) => Token::FixedBytes(b.clone()),
        Value::Bytes(b) => Token::Bytes(b.clone()),
        Value::Int(n) => Token::Int(Word(n.limbs)),
        Value::Uint(n) => Token::Uint(Word(n.limbs)),
        Value::Bool(b) => Token::Bool(*b),
        Value::String(s) => Token::String(s.clone()),
        Value::FixedArray(v) => Token::FixedArray(outside_values(v)),
        Value::Array(v) => Token::Array(outside_values(v)),
        Value::Tuple(v) => Token::Tuple(outside_values(v)),
    }
}

/// Writes values in the encoder's form, one for one.
#[verifier::external_body]
fn outside_values(values: &Vec<Value>) -> Vec<Token> {
    values.iter().map(outside_value).collect()
}

/// Reads a value from the encoder's form, node for node.
#[verifier::external_body]
fn value_of(token: Token) -> Value {
    match token {
        Token::Address(a) => Value::Address(Address { bytes: a.0 }),
        Token::FixedBytes(b) => Value::FixedBytes(b),
        Token::Bytes(b) => Value::Bytes(b),
        Token::Int(n) => Value::Int(U256 { limbs: n.0 }),
        Token::Uint(n) => Value::Uint(U256 { limbs: n.0 }),
        Token::Bool(b) => Value::Bool(b),
        Token::String(s) => Value::String(s),
        Token::FixedArray(v) => Value::FixedArray(values_of(v)),
        Token::Array(v) => Value::Array(values_of(v)),
        Token::Tuple(v) => Value::Tuple(values_of(v)),
    }
}

/// Reads values from the encoder's form, one for one.
#[verifier::external_body]
fn values_of(tokens: Vec<Token>) -> Vec<Value> {
    tokens.into_iter().map(value_of).collect()
}

/// Computes a selector (`short_signature`): the first four bytes of the hash
/// of the canonical signature that the name and the types of `inputs` give.
#[verifier::external_body]
fn selector_of(name: &String, inputs: &Vec<Param>) -> (r: [u8; 4])
    ensures
        r@ == selector_hash(name@, kinds_of(param_views(inputs@))),
{
    let kinds: Vec<ParamType> = inputs.iter().map(|p| outside_kind(&p.kind)).collect();
    ethers_core::abi::short_signature(name, &kinds)
}

impl Function {
    #[verifier::type_invariant]
    spec fn selector_is_cached(self) -> bool {
        self@.wf()
    }

    /// Describes a function and computes its selector.
    pub fn new(
        name: String,
        inputs: Vec<Param>,
        outputs: Vec<Param>,
        state_mutability: StateMutability,
    ) -> (r: Function)
        ensures
            r@ == (FunctionView {
                name: name@,
                inputs: param_views(inputs@),
                outputs: param_views(outputs@),
                state_mutability,
                selector: selector_hash(name@, kinds_of(param_views(inputs@))),
            }),
            r@.wf(),
    {
        let selector = selector_of(&name, &inputs);
        Function { name, inputs, outputs, state_mutability, selector }
    }

    /// The function's name.
    pub fn name(&self) -> (r: &String)
        ensures
            r@ == self@.name,
    {
        &self.name
    }

    /// The function's inputs, in declaration order.
    pub fn inputs(&self) -> (r: &Vec<Param>)
        ensures
            param_views(r@) == self@.inputs,
    {
        &self.inputs
    }

    /// The function's outputs, in declaration order.
    pub fn outputs(&self) -> (r: &Vec<Param>)
        ensures
            param_views(r@) == self@.outputs,
    {
        &self.outputs
    }

    /// The function's mutability.
    pub fn state_mutability(&self) -> (r: StateMutability)
        ensures
            r == self@.state_mutability,
    {
        self.state_mutability
    }

    /// The function's selector: that of its name and input types.
    pub fn selector(&self) -> (r: [u8; 4])
        ensures
            r@ == self@.selector,
            self@.wf(),
    {
        proof {
            use_type_invariant(self);
        }
        self.selector
    }
}

impl Clone for Function {
    fn clone(&self) -> (r: Function)
        ensures
            r@ == self@,
    {
        proof {
            use_type_invariant(self);
        }
        Function {
            name: self.name.clone(),
            inputs: copy_params(&self.inputs),
            outputs: copy_params(&self.outputs),
            state_mutability: self.state_mutability,
            selector: self.selector,
        }
    }
}

/// The plain content of an [`EventParam`].
pub struct EventParamView {
    pub name: Seq<char>,
    pub kind: KindView,
    pub indexed: bool,
}

/// A parameter of an event. An indexed parameter is recorded in a topic of
/// the log, any other in its data.
#[derive(Debug)]
pub struct EventParam {
    pub name: String,
    pub kind: Kind,
    pub indexed: bool,
}

impl View for EventParam {
    type V = EventParamView;

    open spec fn view(&self) -> EventParamView {
        EventParamView { name: self.name@, kind: self.kind@, indexed: self.indexed }
    }
}

/// The views of a sequence of event parameters.
pub open spec fn event_param_views(params: Seq<EventParam>) -> Seq<EventParamView> {
    Seq::new(params.len(), |i: int| params[i]@)
}

/// The types of a sequence of event parameters.
pub open spec fn event_kinds_of(params: Seq<EventParamView>) -> Seq<KindView> {
    Seq::new(params.len(), |i: int| params[i].kind)
}

/// The plain content of an [`Event`].
pub struct EventView {
    pub name: Seq<char>,
    pub inputs: Seq<EventParamView>,
    pub anonymous: bool,
}

/// An event of a contract.
#[derive(Debug)]
pub struct Event {
    pub name: String,
    pub inputs: Vec<EventParam>,
    pub anonymous: bool,
}

impl View for Event {
    type V = EventView;

    open spec fn view(&self) -> EventView {
        EventView {
            name: self.name@,
            inputs: event_param_views(self.inputs@),
            anonymous: self.anonymous,
        }
    }
}

/// Encodes the arguments of a call (`Function::encode_input`). The values
/// must be of the input types, tuples member for member: the encoder reads
/// the declared members of a tuple by the position of the given ones. They
/// must also be within the weight bound, as the encoder counts bytes in 32
/// bits. Such values pass the encoder's type check, which is all that it can
/// fail on, and the result is the selector followed by their encoding.
#[verifier::external_body]
fn encode_call(name: &String, inputs: &Vec<Param>, values: &Vec<Value>) -> (r: Result<
    Vec<u8>,
    Error,
>)
    requires
        fits_all(value_views(values@), kinds_of(param_views(inputs@))),
        weights(value_views(values@)) <= MAX_WEIGHT,
    ensures
        r is Ok,
        r matches Ok(bytes) ==> bytes@ == encoded_input(
            name@,
            kinds_of(param_views(inputs@)),
            value_views(values@),
        ),
        r matches Ok(bytes) ==> bytes@.len() >= 4 && bytes@.subrange(0, 4) == selector_hash(
            name@,
            kinds_of(param_views(inputs@)),
        ),
{
    let tokens = outside_values(values);
    #[allow(deprecated)]
    let function = ethers_core::abi::Function {
        name: name.clone(),
        inputs: inputs.iter().map(
            |p| ethers_core::abi::Param { name: p.name.clone(), kind: outside_kind(&p.kind), internal_type: None },
        ).collect(),
        outputs: vec![],
        constant: None,
        state_mutability: Default::default(),
    };
    function.encode_input(&tokens)
}

/// Encodes a deployment (`Constructor::encode_input`). The values must be of
/// the input types, tuples member for member, and within the weight bound.
/// Such values pass the encoder's type check, which is all that it can fail
/// on, and the result is the creation code followed by their encoding.
#[verifier::external_body]
fn encode_deployment(inputs: &Vec<Param>, code: &Vec<u8>, values: &Vec<Value>) -> (r: Result<
    Vec<u8>,
    Error,
>)
    requires
        fits_all(value_views(values@), kinds_of(param_views(inputs@))),
        weights(value_views(values@)) <= MAX_WEIGHT,
    ensures
        r is Ok,
        r matches Ok(bytes) ==> bytes@ == encoded_constructor(
            kinds_of(param_views(inputs@)),
            code@,
            value_views(values@),
        ),
        r matches Ok(bytes) ==> bytes@.len() >= code@.len() && bytes@.subrange(
            0,
            code@.len() as int,
        ) == code@,
{
    let tokens = outside_values(values);
    let inputs = inputs.iter().map(
        |p| ethers_core::abi::Param { name: p.name.clone(), kind: outside_kind(&p.kind), internal_type: None },
    ).collect();
    ethers_core::abi::Constructor { inputs }.encode_input(code.clone(), &tokens)
}

/// Decodes returned bytes against output types (`decode`, which is what
/// `Function::decode_output` calls on the types of the outputs). The types
/// must be valid: the decoder adds the width of a fixed byte array to an
/// offset unchecked, and reads a member-less type without consuming data.
/// The machine's words must have 64 bits, as it adds offsets of 32 bits that
/// it reads from the data unchecked.
#[verifier::external_body]
fn decode_values(outputs: &Vec<Param>, data: &Vec<u8>) -> (r: Result<Vec<Value>, Error>)
    requires
        decodable(kinds_of(param_views(outputs@))),
    ensures
        r is Ok == decoded(kinds_of(param_views(outputs@)), data@) is Some,
        r matches Ok(values) ==> Some(value_views(values@)) == decoded(
            kinds_of(param_views(outputs@)),
            data@,
        ),
{
    let kinds: Vec<ParamType> = outputs.iter().map(|p| outside_kind(&p.kind)).collect();
    Ok(values_of(ethers_core::abi::decode(&kinds, data)?))
}

/// Computes the hash that identifies an event (`long_signature`, which is
/// what `Event::signature` calls on the event's name and parameter types): the
/// hash of the canonical signature that they give.
#[verifier::external_body]
fn event_signature(event: &Event) -> (r: H256)
    ensures
        r@ == signature_hash(event@.name, event_kinds_of(event@.inputs)),
{
    let kinds: Vec<ParamType> = event.inputs.iter().map(|p| outside_kind(&p.kind)).collect();
    H256 { bytes: ethers_core::abi::long_signature(&event.name, &kinds).0 }
}

/// Decodes a log as a record of `event` (`Event::parse_log`) and hands back
/// the parameter values in declaration order. The parameters must be
/// decodable, as for any decoding. A log of an event that is not anonymous
/// decodes only if its first topic is the event's signature hash.
#[verifier::external_body]
fn parse_log(event: &Event, log: &RawLog) -> (r: Result<Vec<Value>, Error>)
    requires
        decodable(event_kinds_of(event@.inputs)),
    ensures
        r is Ok == parsed_log(event@, log@.topics, log@.data) is Some,
        r matches Ok(values) ==> Some(value_views(values@)) == parsed_log(
            event@,
            log@.topics,
            log@.data,
        ),
        r is Ok && !event@.anonymous ==> log@.topics.len() > 0 && log@.topics[0]@
            == signature_hash(event@.name, event_kinds_of(event@.inputs)),
{
    let raw = ethers_core::abi::RawLog {
        topics: log.topics.iter().map(|t| ethers_core::types::H256(t.bytes)).collect(),
        data: log.data.clone(),
    };
    let outside = ethers_core::abi::Event {
        name: event.name.clone(),
        inputs: event.inputs.iter().map(
            |p| ethers_core::abi::EventParam { name: p.name.clone(), kind: outside_kind(&p.kind), indexed: p.indexed },
        ).collect(),
        anonymous: event.anonymous,
    };
    Ok(outside.parse_log(raw)?.params.into_iter().map(|p| value_of(p.value)).collect())
}

/// Why a function or an event was not found, or a value not encoded or
/// decoded.
#[derive(Debug, PartialEq, Eq)]
pub enum AbiError {
    /// The interface has no function of that name.
    UnknownMethod(String),
    /// The interface has no function with that selector; the text is the
    /// selector in lower-case hexadecimal digits.
    UnknownSelector(String),
    /// The interface has no event of that name.
    UnknownEvent(String),
    /// The arguments are not of the declared input types.
    Encoding,
    /// A declared type is not valid, or the bytes do not hold values of the
    /// declared types.
    Decoding,
}

/// Decides whether values of the types of `params` can be decoded.
pub fn params_valid(params: &Vec<Param>) -> (r: bool)
    ensures
        r == decodable(kinds_of(param_views(params@))),
{
    if usize::BITS < 64 {
        return false;
    }
    let mut i: usize = 0;
    while i < params.len()
        invariant
            i <= params.len(),
            forall|j: int| 0 <= j < i ==> (#[trigger] kinds_of(param_views(params@))[j]).valid(),
        decreases params.len() - i,
    {
        assert(kinds_of(param_views(params@))[i as int] == params[i as int].kind@);
        if !params[i].kind.is_valid() {
            return false;
        }
        i += 1;
    }
    true
}

/// Decides whether the parameters of `event` can be decoded.
pub fn event_valid(event: &Event) -> (r: bool)
    ensures
        r == decodable(event_kinds_of(event@.inputs)),
{
    if usize::BITS < 64 {
        return false;
    }
    let mut i: usize = 0;
    while i < event.inputs.len()
        invariant
            i <= event.inputs.len(),
            forall|j: int|
                0 <= j < i ==> (#[trigger] event_kinds_of(event@.inputs)[j]).valid(),
        decreases event.inputs.len() - i,
    {
        assert(event_kinds_of(event@.inputs)[i as int] == event.inputs[i as int].kind@);
        if !event.inputs[i].kind.is_valid() {
            return false;
        }
        i += 1;
    }
    true
}

/// Decides whether `values` can be encoded as arguments for `params`.
pub fn values_fit(values: &Vec<Value>, params: &Vec<Param>) -> (r: bool)
    ensures
        r == encodable(value_views(values@), kinds_of(param_views(params@))),
{
    if values.len() != params.len() || spend_all(values, MAX_WEIGHT).is_none() {
        return false;
    }
    let mut i: usize = 0;
    while i < values.len()
        invariant
            i <= values.len(),
            values.len() == params.len(),
            forall|j: int|
                0 <= j < i ==> crate::value::fits(
                    #[trigger] value_views(values@)[j],
                    kinds_of(param_views(params@))[j],
                ),
        decreases values.len() - i,
    {
        assert(value_views(values@)[i as int] == values[i as int]@);
        assert(kinds_of(param_views(params@))[i as int] == params[i as int].kind@);
        if !values[i].fits(&params[i].kind) {
            return false;
        }
        i += 1;
    }
    true
}

/// Whether `values` can be encoded as values of types `kinds`: each is of the
/// type at its place, and together they are within the weight bound.
pub open spec fn encodable(values: Seq<ValueView>, kinds: Seq<KindView>) -> bool {
    fits_all(values, kinds) && weights(values) <= MAX_WEIGHT
}

/// The call data for `values` as arguments of a function with this name and
/// these input types: the encoder's result where the values can be encoded,
/// which it then accepts, and `None` where they cannot.
pub open spec fn call_data(name: Seq<char>, kinds: Seq<KindView>, values: Seq<ValueView>) -> Option<
    Seq<u8>,
> {
    if encodable(values, kinds) {
        Some(encoded_input(name, kinds, values))
    } else {
        None
    }
}

/// The deployment payload for `code` with `values` as constructor arguments
/// of these types: the encoder's result where the values can be encoded,
/// `None` where they cannot.
pub open spec fn deploy_data(kinds: Seq<KindView>, code: Seq<u8>, values: Seq<ValueView>) -> Option<
    Seq<u8>,
> {
    if encodable(values, kinds) {
        Some(encoded_constructor(kinds, code, values))
    } else {
        None
    }
}

/// Whether values of types `kinds` can be decoded: every type is valid, and
/// the machine's words are wide enough for the decoder, which adds 32-bit
/// offsets read from the data without a check.
pub open spec fn decodable(kinds: Seq<KindView>) -> bool {
    all_valid(kinds) && usize::BITS >= 64
}

/// The values that `data` holds for these types: the decoder's result where
/// values of the types can be decoded, `None` where they cannot.
pub open spec fn held_values(kinds: Seq<KindView>, data: Seq<u8>) -> Option<Seq<ValueView>> {
    if decodable(kinds) {
        decoded(kinds, data)
    } else {
        None
    }
}

impl Function {
    /// The call data for `values` as arguments of this function: the
    /// selector, then the encoded arguments. Arguments that are not of the
    /// input types, or beyond the weight bound, give [`AbiError::Encoding`].
    pub fn encode_input(&self, values: &Vec<Value>) -> (r: Result<Vec<u8>, AbiError>)
        ensures
            match call_data(self@.name, kinds_of(self@.inputs), value_views(values@)) {
                Some(bytes) => {
                    &&& r matches Ok(b)
                    &&& b@ == bytes
                    &&& bytes.len() >= 4
                    &&& bytes.subrange(0, 4) == self@.selector
                },
                None => r == Err::<Vec<u8>, AbiError>(AbiError::Encoding),
            },
    {
        proof {
            use_type_invariant(self);
        }
        if !values_fit(values, &self.inputs) {
            return Err(AbiError::Encoding);
        }
        match encode_call(&self.name, &self.inputs, values) {
            Ok(bytes) => Ok(bytes),
            Err(_) => Err(AbiError::Encoding),
        }
    }

    /// The values that `data` holds as this function's outputs. Bytes that
    /// hold no such values give [`AbiError::Decoding`], and so does an
    /// output type that is not valid.
    pub fn decode_output(&self, data: &Vec<u8>) -> (r: Result<Vec<Value>, AbiError>)
        ensures
            match held_values(kinds_of(self@.outputs), data@) {
                Some(values) => r matches Ok(v) && value_views(v@) == values,
                None => r matches Err(AbiError::Decoding),
            },
    {
        if !params_valid(&self.outputs) {
            return Err(AbiError::Decoding);
        }
        match decode_values(&self.outputs, data) {
            Ok(values) => Ok(values),
            Err(_) => Err(AbiError::Decoding),
        }
    }
}

/// Two functions with the same name and the same input types have the same
/// selector, whatever their outputs, their mutability and the names of their
/// parameters are.
pub proof fn lemma_selector_of_signature(a: FunctionView, b: FunctionView)
    requires
        a.wf(),
        b.wf(),
        a.name == b.name,
        kinds_of(a.inputs) == kinds_of(b.inputs),
    ensures
        a.selector == b.selector,
{
}

/// The constructor of a contract.
#[derive(Debug)]
pub struct Constructor {
    pub inputs: Vec<Param>,
}

impl Clone for Constructor {
    fn clone(&self) -> (r: Constructor)
        ensures
            param_views(r.inputs@) == param_views(self.inputs@),
    {
        Constructor { inputs: copy_params(&self.inputs) }
    }
}

impl Constructor {
    /// The deployment payload for creation code `code` with `values` as
    /// constructor arguments: the code, then the encoded arguments.
    /// Arguments that are not of the input types, or beyond the weight
    /// bound, give [`AbiError::Encoding`].
    pub fn encode_input(&self, code: &Vec<u8>, values: &Vec<Value>) -> (r: Result<
        Vec<u8>,
        AbiError,
    >)
        ensures
            match deploy_data(kinds_of(param_views(self.inputs@)), code@, value_views(values@)) {
                Some(bytes) => {
                    &&& r matches Ok(b)
                    &&& b@ == bytes
                    &&& bytes.len() >= code@.len()
                    &&& bytes.subrange(0, code@.len() as int) == code@
                },
                None => r == Err::<Vec<u8>, AbiError>(AbiError::Encoding),
            },
    {
        if !values_fit(values, &self.inputs) {
            return Err(AbiError::Encoding);
        }
        match encode_deployment(&self.inputs, code, values) {
            Ok(bytes) => Ok(bytes),
            Err(_) => Err(AbiError::Encoding),
        }
    }
}

impl Clone for EventParam {
    fn clone(&self) -> (r: EventParam)
        ensures
            r@ == self@,
    {
        EventParam { name: self.name.clone(), kind: self.kind.clone(), indexed: self.indexed }
    }
}

impl Clone for Event {
    fn clone(&self) -> (r: Event)
        ensures
            r@ == self@,
    {
        let mut inputs: Vec<EventParam> = Vec::new();
        let mut i: usize = 0;
        while i < self.inputs.len()
            invariant
                i <= self.inputs.len(),
                inputs.len() == i,
                forall|j: int| 0 <= j < i ==> (#[trigger] inputs[j])@ == self.inputs[j]@,
            decreases self.inputs.len() - i,
        {
            inputs.push(self.inputs[i].clone());
            i += 1;
        }
        assert(event_param_views(inputs@) =~= event_param_views(self.inputs@));
        Event { name: self.name.clone(), inputs, anonymous: self.anonymous }
    }
}

/// The value sequences of a sequence of value vectors.
pub open spec fn value_rows(rows: Seq<Vec<Value>>) -> Seq<Seq<ValueView>> {
    Seq::new(rows.len(), |i: int| value_views(rows[i]@))
}

/// Whether a log carries the mark of an event: the event is anonymous, or
/// the first topic of the log is the event's signature hash.
pub open spec fn carries(event: EventView, log: RawLogView) -> bool {
    event.anonymous || (log.topics.len() > 0 && log.topics[0]@ == signature_hash(
        event.name,
        event_kinds_of(event.inputs),
    ))
}

/// The parameter values that a log records for an event, in declaration
/// order: the decoder's result where the event's parameters can be decoded
/// and the log carries the event's mark, `None` otherwise.
pub open spec fn record(event: EventView, log: RawLogView) -> Option<Seq<ValueView>> {
    if decodable(event_kinds_of(event.inputs)) && carries(event, log) {
        parsed_log(event, log.topics, log.data)
    } else {
        None
    }
}

/// The records of `event` among `logs`, in the order of the logs. A log that
/// is not a record of the event is left out.
pub open spec fn matching_logs(event: EventView, logs: Seq<RawLogView>) -> Seq<Seq<ValueView>>
    decreases logs.len(),
{
    if logs.len() == 0 {
        Seq::empty()
    } else {
        let rest = matching_logs(event, logs.drop_last());
        match record(event, logs.last()) {
            Some(values) => rest.push(values),
            None => rest,
        }
    }
}

/// Logs of which none carries the mark of an event hold no record of it.
pub proof fn lemma_unmarked_logs_hold_no_record(event: EventView, logs: Seq<RawLogView>)
    requires
        forall|i: int| 0 <= i < logs.len() ==> !carries(event, #[trigger] logs[i]),
    ensures
        matching_logs(event, logs) == Seq::<Seq<ValueView>>::empty(),
    decreases logs.len(),
{
    if logs.len() > 0 {
        assert forall|i: int| 0 <= i < logs.drop_last().len() implies !carries(
            event,
            #[trigger] logs.drop_last()[i],
        ) by {
            assert(logs.drop_last()[i] == logs[i]);
        }
        lemma_unmarked_logs_hold_no_record(event, logs.drop_last());
        assert(!carries(event, logs.last()));
    }
}

/// There are at most as many records as logs.
pub proof fn lemma_records_are_no_more_than_logs(event: EventView, logs: Seq<RawLogView>)
    ensures
        matching_logs(event, logs).len() <= logs.len(),
    decreases logs.len(),
{
    if logs.len() > 0 {
        lemma_records_are_no_more_than_logs(event, logs.drop_last());
    }
}

impl Event {
    /// The hash that identifies this event: topic 0 of each of its logs,
    /// unless the event is anonymous.
    pub fn signature(&self) -> (r: H256)
        ensures
            r@ == signature_hash(self@.name, event_kinds_of(self@.inputs)),
    {
        event_signature(self)
    }

    /// The parameter values that `log` records, in declaration order. A log
    /// that is not a record of this event gives [`AbiError::Decoding`]; so
    /// does, for an event that is not anonymous, every log whose first topic
    /// is not the event's signature hash.
    pub fn parse_log(&self, log: &RawLog) -> (r: Result<Vec<Value>, AbiError>)
        ensures
            match record(self@, log@) {
                Some(values) => r matches Ok(v) && value_views(v@) == values,
                None => r matches Err(AbiError::Decoding),
            },
    {
        if !event_valid(self) {
            return Err(AbiError::Decoding);
        }
        match parse_log(self, log) {
            Ok(values) => Ok(values),
            Err(_) => Err(AbiError::Decoding),
        }
    }

    /// The records of this event among `logs`, in the order of the logs.
    /// Logs of other events are left out; they are no error.
    pub fn decode_logs(&self, logs: &Vec<RawLog>) -> (r: Vec<Vec<Value>>)
        ensures
            value_rows(r@) == matching_logs(self@, raw_log_views(logs@)),
    {
        let mut r: Vec<Vec<Value>> = Vec::new();
        let mut i: usize = 0;
        while i < logs.len()
            invariant
                i <= logs.len(),
                value_rows(r@) == matching_logs(
                    self@,
                    raw_log_views(logs@.subrange(0, i as int)),
                ),
            decreases logs.len() - i,
        {
            let ghost before = value_rows(r@);
            assert(raw_log_views(logs@.subrange(0, i + 1)).drop_last() =~= raw_log_views(
                logs@.subrange(0, i as int),
            ));
            assert(raw_log_views(logs@.subrange(0, i + 1)).last() == logs[i as int]@);
            match self.parse_log(&logs[i]) {
                Ok(values) => {
                    let ghost row = value_views(values@);
                    r.push(values);
                    assert(value_rows(r@) =~= before.push(row));
                },
                Err(_) => {},
            }
            i += 1;
        }
        assert(logs@.subrange(0, i as int) =~= logs@);
        r
    }
}

/// The interface of a contract: its constructor, its functions and its
/// events, each list in declaration order.
#[derive(Debug)]
pub struct Abi {
    pub constructor: Option<Constructor>,
    pub functions: Vec<Function>,
    pub events: Vec<Event>,
}

/// The plain content of an [`Abi`].
pub struct AbiView {
    pub constructor: Option<Seq<ParamView>>,
    pub functions: Seq<FunctionView>,
    pub events: Seq<EventView>,
}

/// The views of a sequence of functions.
pub open spec fn function_views(functions: Seq<Function>) -> Seq<FunctionView> {
    Seq::new(functions.len(), |i: int| functions[i]@)
}

/// The views of a sequence of events.
pub open spec fn event_views(events: Seq<Event>) -> Seq<EventView> {
    Seq::new(events.len(), |i: int| events[i]@)
}

impl View for Abi {
    type V = AbiView;

    open spec fn view(&self) -> AbiView {
        AbiView {
            constructor: match self.constructor {
                Some(c) => Some(param_views(c.inputs@)),
                None => None,
            },
            functions: function_views(self.functions@),
            events: event_views(self.events@),
        }
    }
}

impl Clone for Abi {
    fn clone(&self) -> (r: Abi)
        ensures
            r@ == self@,
    {
        let mut functions: Vec<Function> = Vec::new();
        let mut i: usize = 0;
        while i < self.functions.len()
            invariant
                i <= self.functions.len(),
                functions.len() == i,
                forall|j: int| 0 <= j < i ==> (#[trigger] functions[j])@ == self.functions[j]@,
            decreases self.functions.len() - i,
        {
            functions.push(self.functions[i].clone());
            i += 1;
        }
        let mut events: Vec<Event> = Vec::new();
        let mut k: usize = 0;
        while k < self.events.len()
            invariant
                k <= self.events.len(),
                events.len() == k,
                forall|j: int| 0 <= j < k ==> (#[trigger] events[j])@ == self.events[j]@,
            decreases self.events.len() - k,
        {
            events.push(self.events[k].clone());
            k += 1;
        }
        let constructor = match &self.constructor {
            Some(c) => Some(c.clone()),
            None => None,
        };
        assert(function_views(functions@) =~= function_views(self.functions@));
        assert(event_views(events@) =~= event_views(self.events@));
        Abi { constructor, functions, events }
    }
}

/// The index of the first function from index `from` on that is named `name`.
pub open spec fn find_named(functions: Seq<FunctionView>, name: Seq<char>, from: int) -> Option<
    int,
>
    decreases functions.len() - from,
{
    if from < 0 || from >= functions.len() {
        None
    } else if functions[from].name == name {
        Some(from)
    } else {
        find_named(functions, name, from + 1)
    }
}

/// The index of the last function before index `upto` whose selector is
/// `selector`.
pub open spec fn find_selector(
    functions: Seq<FunctionView>,
    selector: Seq<u8>,
    upto: int,
) -> Option<int>
    decreases upto,
{
    if upto <= 0 || upto > functions.len() {
        None
    } else if functions[upto - 1].selector == selector {
        Some(upto - 1)
    } else {
        find_selector(functions, selector, upto - 1)
    }
}

/// The index of the first event from index `from` on that is named `name`.
pub open spec fn find_event(events: Seq<EventView>, name: Seq<char>, from: int) -> Option<int>
    decreases events.len() - from,
{
    if from < 0 || from >= events.len() {
        None
    } else if events[from].name == name {
        Some(from)
    } else {
        find_event(events, name, from + 1)
    }
}

/// What [`find_named`] finds is the first declared function of that name:
/// it has the name and no function before it has. Where it finds none, no
/// function has the name.
pub proof fn lemma_find_named_is_first(functions: Seq<FunctionView>, name: Seq<char>, from: int)
    requires
        0 <= from,
    ensures
        match find_named(functions, name, from) {
            Some(i) => {
                &&& from <= i < functions.len()
                &&& functions[i].name == name
                &&& forall|j: int| from <= j < i ==> functions[j].name != name
            },
            None => forall|j: int| from <= j < functions.len() ==> functions[j].name != name,
        },
    decreases functions.len() - from,
{
    if from < functions.len() && functions[from].name != name {
        lemma_find_named_is_first(functions, name, from + 1);
    }
}

/// What [`find_selector`] finds is the last declared function with that
/// selector. Where it finds none, no function has the selector.
pub proof fn lemma_find_selector_is_last(
    functions: Seq<FunctionView>,
    selector: Seq<u8>,
    upto: int,
)
    requires
        upto <= functions.len(),
    ensures
        match find_selector(functions, selector, upto) {
            Some(i) => {
                &&& 0 <= i < upto
                &&& functions[i].selector == selector
                &&& forall|j: int| i < j < upto ==> functions[j].selector != selector
            },
            None => forall|j: int| 0 <= j < upto ==> functions[j].selector != selector,
        },
    decreases upto,
{
    if upto > 0 && functions[upto - 1].selector != selector {
        lemma_find_selector_is_last(functions, selector, upto - 1);
    }
}

/// What [`find_event`] finds is the first declared event of that name.
/// Where it finds none, no event has the name.
pub proof fn lemma_find_event_is_first(events: Seq<EventView>, name: Seq<char>, from: int)
    requires
        0 <= from,
    ensures
        match find_event(events, name, from) {
            Some(i) => {
                &&& from <= i < events.len()
                &&& events[i].name == name
                &&& forall|j: int| from <= j < i ==> events[j].name != name
            },
            None => forall|j: int| from <= j < events.len() ==> events[j].name != name,
        },
    decreases events.len() - from,
{
    if from < events.len() && events[from].name != name {
        lemma_find_event_is_first(events, name, from + 1);
    }
}

/// Whether two selectors hold the same bytes.
pub fn same_selector(a: &[u8; 4], b: &[u8; 4]) -> (r: bool)
    ensures
        r == (a@ == b@),
{
    let r = a[0] == b[0] && a[1] == b[1] && a[2] == b[2] && a[3] == b[3];
    if r {
        assert(a@ =~= b@);
    }
    r
}

impl Abi {
    /// The function named `name`; where several functions share the name,
    /// the first declared.
    pub fn function(&self, name: &str) -> (r: Result<&Function, AbiError>)
        ensures
            match find_named(self@.functions, name@, 0) {
                Some(i) => r matches Ok(f) && *f == self.functions[i],
                None => r matches Err(AbiError::UnknownMethod(n)) && n@ == name@,
            },
    {
        let wanted: String = name.to_owned();
        let mut i: usize = 0;
        while i < self.functions.len()
            invariant
                i <= self.functions.len(),
                wanted@ == name@,
                find_named(self@.functions, name@, 0) == find_named(
                    self@.functions,
                    name@,
                    i as int,
                ),
            decreases self.functions.len() - i,
        {
            if self.functions[i].name == wanted {
                return Ok(&self.functions[i]);
            }
            i += 1;
        }
        Err(AbiError::UnknownMethod(wanted))
    }

    /// The function whose selector is `selector`; where several functions
    /// share the selector, the last declared.
    pub fn function_by_selector(&self, selector: &[u8; 4]) -> (r: Option<&Function>)
        ensures
            match find_selector(self@.functions, selector@, self.functions@.len() as int) {
                Some(i) => r matches Some(f) && *f == self.functions[i],
                None => r is None,
            },
    {
        let mut i: usize = self.functions.len();
        while i > 0
            invariant
                i <= self.functions.len(),
                find_selector(self@.functions, selector@, self.functions@.len() as int)
                    == find_selector(self@.functions, selector@, i as int),
            decreases i,
        {
            if same_selector(&self.functions[i - 1].selector, selector) {
                return Some(&self.functions[i - 1]);
            }
            i -= 1;
        }
        None
    }

    /// The event named `name`; where several events share the name, the
    /// first declared.
    pub fn event(&self, name: &str) -> (r: Result<&Event, AbiError>)
        ensures
            match find_event(self@.events, name@, 0) {
                Some(i) => r matches Ok(e) && *e == self.events[i],
                None => r matches Err(AbiError::UnknownEvent(n)) && n@ == name@,
            },
    {
        let wanted: String = name.to_owned();
        let mut i: usize = 0;
        while i < self.events.len()
            invariant
                i <= self.events.len(),
                wanted@ == name@,
                find_event(self@.events, name@, 0) == find_event(self@.events, name@, i as int),
            decreases self.events.len() - i,
        {
            if self.events[i].name == wanted {
                return Ok(&self.events[i]);
            }
            i += 1;
        }
        Err(AbiError::UnknownEvent(wanted))
    }
}

} // verus!
