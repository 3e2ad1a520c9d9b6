use revmup::{
    deployment, Abi, AbiError, Address, CallError, ClientError, Constructor, ContractInstance,
    Envelope, Event, EventParam, Function, Kind, Param, RawLog, StateMutability, Target, Value,
    H256, U256,
};

fn param(name: &str, kind: Kind) -> Param {
    Param { name: name.to_string(), kind }
}

fn function(name: &str, inputs: Vec<Param>, outputs: Vec<Param>) -> Function {
    Function::new(name.to_string(), inputs, outputs, StateMutability::NonPayable)
}

fn transfer() -> Function {
    function(
        "transfer",
        vec![param("to", Kind::Address), param("amount", Kind::Uint(256))],
        vec![param("", Kind::Bool)],
    )
}

fn word(text: &str) -> Vec<u8> {
    let bytes = hex::decode(text).unwrap();
    assert_eq!(bytes.len(), 32);
    bytes
}

/// Encodes `value` as the only argument of a function of type `kind` and
/// decodes the bytes behind the selector as the outputs of the same type.
fn round_trip(kind: Kind, value: Value) -> Value {
    let f = function("f", vec![param("x", kind.clone())], vec![param("", kind)]);
    let data = f.encode_input(&vec![value]).unwrap();
    assert_eq!(&data[..4], &f.selector()[..]);
    let mut values = f.decode_output(&data[4..].to_vec()).unwrap();
    assert_eq!(values.len(), 1);
    values.pop().unwrap()
}

#[test]
fn selector_of_a_known_signature() {
    // transfer(address,uint256)
    assert_eq!(transfer().selector(), [0xa9, 0x05, 0x9c, 0xbb]);
    // baz(uint32,bool)
    let baz = function(
        "baz",
        vec![param("a", Kind::Uint(32)), param("b", Kind::Bool)],
        vec![],
    );
    assert_eq!(baz.selector(), [0xcd, 0xcd, 0x77, 0xc0]);
    // name()
    assert_eq!(function("name", vec![], vec![]).selector(), [0x06, 0xfd, 0xde, 0x03]);
}

#[test]
fn selector_is_the_same_each_time() {
    assert_eq!(transfer().selector(), transfer().selector());
    let f = transfer();
    assert_eq!(f.selector(), f.clone().selector());
}

#[test]
fn selector_ignores_outputs_mutability_and_parameter_names() {
    let a = Function::new(
        "transfer".to_string(),
        vec![param("to", Kind::Address), param("amount", Kind::Uint(256))],
        vec![param("", Kind::Bool)],
        StateMutability::NonPayable,
    );
    let b = Function::new(
        "transfer".to_string(),
        vec![param("recipient", Kind::Address), param("value", Kind::Uint(256))],
        vec![param("done", Kind::String), param("left", Kind::Uint(8))],
        StateMutability::View,
    );
    assert_eq!(a.selector(), b.selector());
}

#[test]
fn selector_depends_on_name_and_input_types() {
    let other_name = function(
        "transferFrom",
        vec![param("to", Kind::Address), param("amount", Kind::Uint(256))],
        vec![],
    );
    let other_types = function(
        "transfer",
        vec![param("to", Kind::Address), param("amount", Kind::Uint(128))],
        vec![],
    );
    assert_ne!(transfer().selector(), other_name.selector());
    assert_ne!(transfer().selector(), other_types.selector());
}

#[test]
fn function_keeps_what_it_was_made_of() {
    let f = Function::new(
        "balanceOf".to_string(),
        vec![param("owner", Kind::Address)],
        vec![param("", Kind::Uint(256))],
        StateMutability::View,
    );
    assert_eq!(f.name(), "balanceOf");
    assert_eq!(f.inputs().len(), 1);
    assert_eq!(f.inputs()[0].name, "owner");
    assert_eq!(f.inputs()[0].kind, Kind::Address);
    assert_eq!(f.outputs().len(), 1);
    assert_eq!(f.outputs()[0].kind, Kind::Uint(256));
    assert_eq!(f.state_mutability(), StateMutability::View);
    let g = f.clone();
    assert_eq!(g.name(), "balanceOf");
    assert_eq!(g.inputs()[0].kind, Kind::Address);
    assert_eq!(g.state_mutability(), StateMutability::View);
}

#[test]
fn call_data_is_selector_then_head_slots() {
    let to = Address { bytes: [0x11; 20] };
    let data =
        transfer().encode_input(&vec![Value::Address(to), Value::Uint(U256::from_u64(1))]).unwrap();
    let expected = [
        hex::decode("a9059cbb").unwrap(),
        word("0000000000000000000000001111111111111111111111111111111111111111"),
        word("0000000000000000000000000000000000000000000000000000000000000001"),
    ]
    .concat();
    assert_eq!(data, expected);
}

#[test]
fn a_dynamic_value_is_an_offset_and_a_length_prefixed_tail() {
    let f = function(
        "set",
        vec![param("n", Kind::Uint(8)), param("s", Kind::String)],
        vec![],
    );
    let data = f
        .encode_input(&vec![Value::Uint(U256::from_u64(7)), Value::String("hi".to_string())])
        .unwrap();
    let expected = [
        f.selector().to_vec(),
        word("0000000000000000000000000000000000000000000000000000000000000007"),
        word("0000000000000000000000000000000000000000000000000000000000000040"),
        word("0000000000000000000000000000000000000000000000000000000000000002"),
        word("6869000000000000000000000000000000000000000000000000000000000000"),
    ]
    .concat();
    assert_eq!(data, expected);
}

#[test]
fn arguments_that_do_not_match_the_types_are_refused() {
    let too_few = transfer().encode_input(&vec![Value::Address(Address { bytes: [1; 20] })]);
    assert!(matches!(too_few, Err(AbiError::Encoding)));
    let wrong_kind =
        transfer().encode_input(&vec![Value::Bool(true), Value::Uint(U256::from_u64(1))]);
    assert!(matches!(wrong_kind, Err(AbiError::Encoding)));
}

#[test]
fn outputs_decode_from_known_bytes() {
    let values = transfer()
        .decode_output(&word("0000000000000000000000000000000000000000000000000000000000000001"))
        .unwrap();
    assert_eq!(values, vec![Value::Bool(true)]);
}

#[test]
fn truncated_output_is_a_decoding_error() {
    let f = function("name", vec![], vec![param("", Kind::String)]);
    let truncated = f.decode_output(&vec![0u8; 31]);
    assert!(matches!(truncated, Err(AbiError::Decoding)));
    let bad_offset = f
        .decode_output(&word("00000000000000000000000000000000000000000000000000000000000000ff"));
    assert!(matches!(bad_offset, Err(AbiError::Decoding)));
}

#[test]
fn round_trip_of_an_address() {
    let value = Value::Address(Address { bytes: [0xab; 20] });
    assert_eq!(round_trip(Kind::Address, value.clone()), value);
    let zero = Value::Address(Address { bytes: [0; 20] });
    assert_eq!(round_trip(Kind::Address, zero.clone()), zero);
}

#[test]
fn round_trip_of_a_boolean() {
    assert_eq!(round_trip(Kind::Bool, Value::Bool(true)), Value::Bool(true));
    assert_eq!(round_trip(Kind::Bool, Value::Bool(false)), Value::Bool(false));
}

#[test]
fn round_trip_of_an_unsigned_integer() {
    for value in [U256::zero(), U256::from_u64(1), U256::from_u64(u64::MAX), U256::max_value()] {
        let token = Value::Uint(value);
        assert_eq!(round_trip(Kind::Uint(256), token.clone()), token);
    }
    let small = Value::Uint(U256::from_u64(200));
    assert_eq!(round_trip(Kind::Uint(8), small.clone()), small);
}

#[test]
fn round_trip_of_a_fixed_size_byte_array() {
    let four = Value::FixedBytes(vec![1, 2, 3, 4]);
    assert_eq!(round_trip(Kind::FixedBytes(4), four.clone()), four);
    let full = Value::FixedBytes((0u8..32).collect());
    assert_eq!(round_trip(Kind::FixedBytes(32), full.clone()), full);
}

#[test]
fn round_trip_of_a_string() {
    for text in ["", "hello", "a string that is longer than one thirty-two byte slot can hold"] {
        let token = Value::String(text.to_string());
        assert_eq!(round_trip(Kind::String, token.clone()), token);
    }
}

#[test]
fn round_trip_of_a_dynamic_byte_array() {
    for bytes in [vec![], vec![0u8], (0u8..=99).collect::<Vec<u8>>()] {
        let token = Value::Bytes(bytes);
        assert_eq!(round_trip(Kind::Bytes, token.clone()), token);
    }
}

#[test]
fn round_trip_of_compound_values() {
    let pair = Kind::Tuple(vec![Kind::Address, Kind::String]);
    let value = Value::Tuple(vec![Value::Address(Address { bytes: [3; 20] }), Value::String("x".into())]);
    assert_eq!(round_trip(pair, value.clone()), value);
    let list = Kind::Array(Box::new(Kind::Uint(256)));
    let value = Value::Array(vec![Value::Uint(U256::from_u64(1)), Value::Uint(U256::from_u64(2))]);
    assert_eq!(round_trip(list, value.clone()), value);
}

fn overloaded() -> Abi {
    Abi {
        constructor: None,
        functions: vec![
            function("get", vec![], vec![param("", Kind::Uint(256))]),
            function("set", vec![param("n", Kind::Uint(256))], vec![]),
            function("set", vec![param("s", Kind::String)], vec![]),
            function("set", vec![param("n", Kind::Uint(256))], vec![param("", Kind::Bool)]),
        ],
        events: vec![],
    }
}

#[test]
fn method_by_name_takes_the_first_declared_overload() {
    let abi = overloaded();
    let first = abi.functions[1].selector();
    let second = abi.functions[2].selector();
    assert_ne!(first, second);
    let contract = ContractInstance::new(Address { bytes: [5; 20] }, abi);

    let call = contract.method("set", &vec![Value::Uint(U256::from_u64(9))]).unwrap();
    assert_eq!(&call.tx.data[..4], &first[..]);
    assert_eq!(call.function.selector(), first);
    assert!(call.function.outputs().is_empty());

    // Arguments that fit only the second overload do not select it.
    let refused = contract.method("set", &vec![Value::String("nine".to_string())]);
    assert!(matches!(refused, Err(AbiError::Encoding)));
}

#[test]
fn method_by_selector_reaches_every_overload() {
    let abi = overloaded();
    let by_text = abi.functions[2].selector();
    let by_number = abi.functions[1].selector();
    let contract = ContractInstance::new(Address { bytes: [5; 20] }, abi);

    let call = contract.method_hash(by_text, &vec![Value::String("nine".to_string())]).unwrap();
    assert_eq!(&call.tx.data[..4], &by_text[..]);
    assert_eq!(call.function.inputs()[0].kind, Kind::String);

    // Two functions share the other selector: the last declared is taken.
    let call = contract.method_hash(by_number, &vec![Value::Uint(U256::from_u64(9))]).unwrap();
    assert_eq!(call.function.outputs().len(), 1);
}

#[test]
fn unknown_method_and_selector_are_resolution_errors() {
    let contract = ContractInstance::new(Address::zero(), overloaded());
    match contract.method("missing", &vec![]) {
        Err(AbiError::UnknownMethod(name)) => assert_eq!(name, "missing"),
        other => panic!("unexpected {:?}", other),
    }
    match contract.method_hash([0x00, 0x0f, 0xa1, 0xff], &vec![]) {
        Err(AbiError::UnknownSelector(text)) => assert_eq!(text, "000fa1ff"),
        other => panic!("unexpected {:?}", other),
    }
    assert!(matches!(contract.abi().event("Nothing"), Err(AbiError::UnknownEvent(_))));
    assert!(contract.abi().function_by_selector(&[1, 2, 3, 4]).is_none());
}

#[test]
fn a_built_call_targets_the_contract_from_the_zero_address() {
    let address = Address { bytes: [0x42; 20] };
    let contract = ContractInstance::new(address, overloaded());
    let call = contract.method("get", &vec![]).unwrap();
    assert_eq!(call.tx.caller, Address::zero());
    assert_eq!(call.tx.target, Target::Call(address));
    assert_eq!(call.tx.value, U256::zero());
    assert_eq!(call.tx.gas_limit, u64::MAX);
    assert_eq!(call.tx.data, call.function.selector().to_vec());
    assert_eq!(call.function.name(), "get");
}

#[test]
fn rebinding_keeps_the_interface_and_changes_the_address() {
    let first = Address { bytes: [1; 20] };
    let second = Address { bytes: [2; 20] };
    let contract = ContractInstance::new(first, overloaded());
    let moved = contract.at(second);
    assert_eq!(contract.address(), first);
    assert_eq!(moved.address(), second);
    assert_eq!(moved.abi().functions.len(), 4);
    let call = moved.method("get", &vec![]).unwrap();
    assert_eq!(call.tx.target, Target::Call(second));
    let copy = moved.clone();
    assert_eq!(copy.address(), second);
    assert_eq!(copy.abi().functions[2].selector(), contract.abi().functions[2].selector());
}

#[test]
fn default_envelope_calls_the_zero_address_with_nothing() {
    let tx = Envelope::default();
    assert_eq!(tx.caller, Address::zero());
    assert_eq!(tx.target, Target::Call(Address::zero()));
    assert!(tx.data.is_empty());
    assert_eq!(tx.value, U256::zero());
    assert_eq!(tx.gas_limit, u64::MAX);
    assert_eq!(tx.clone(), tx);
}

#[test]
fn deployment_payload_is_code_then_encoded_arguments() {
    let abi = Abi {
        constructor: Some(Constructor { inputs: vec![param("n", Kind::Uint(8))] }),
        functions: vec![],
        events: vec![],
    };
    let caller = Address { bytes: [7; 20] };
    let code = vec![0x60, 0x00];
    let tx = deployment(&abi, caller, &code, &vec![Value::Uint(U256::from_u64(8))]).unwrap();
    assert_eq!(tx.caller, caller);
    assert_eq!(tx.target, Target::Create);
    assert_eq!(tx.value, U256::zero());
    let expected = [
        code.clone(),
        word("0000000000000000000000000000000000000000000000000000000000000008"),
    ]
    .concat();
    assert_eq!(tx.data, expected);

    let refused = deployment(&abi, caller, &code, &vec![Value::Bool(true)]);
    assert!(matches!(refused, Err(AbiError::Encoding)));
}

#[test]
fn deployment_without_a_constructor_is_the_code_alone() {
    let abi = Abi { constructor: None, functions: vec![], events: vec![] };
    let code = vec![1, 2, 3];
    let tx = deployment(&abi, Address::zero(), &code, &vec![Value::Bool(true)]).unwrap();
    assert_eq!(tx.data, code);
    assert_eq!(tx.target, Target::Create);
}

fn approval() -> Event {
    Event {
        name: "Approval".to_string(),
        inputs: vec![
            EventParam { name: "owner".to_string(), kind: Kind::Address, indexed: true },
            EventParam { name: "spender".to_string(), kind: Kind::Address, indexed: true },
            EventParam { name: "value".to_string(), kind: Kind::Uint(256), indexed: false },
        ],
        anonymous: false,
    }
}

fn account(text: &str) -> Address {
    let mut bytes = [0u8; 20];
    bytes.copy_from_slice(&hex::decode(text).unwrap());
    Address { bytes }
}

fn hash(text: &str) -> H256 {
    let mut bytes = [0u8; 32];
    bytes.copy_from_slice(&hex::decode(text).unwrap());
    H256 { bytes }
}

fn approval_log() -> RawLog {
    RawLog {
        topics: vec![
            hash("8c5be1e5ebec7d5bd14f71427d1e84f3dd0314c0f7b2291e5b200ac8c7c3b925"),
            hash("000000000000000000000000e4e60fdf9bf188fa57b7a5022230363d5bd56d08"),
            hash("0000000000000000000000007a250d5630b4cf539739df2c5dacb4c659f2488d"),
        ],
        data: vec![0xff; 32],
    }
}

#[test]
fn a_log_decodes_indexed_parameters_from_topics_and_the_rest_from_data() {
    let event = approval();
    assert_eq!(event.signature(), approval_log().topics[0]);
    let owner = account("e4e60fdf9bf188fa57b7a5022230363d5bd56d08");
    let spender = account("7a250d5630b4cf539739df2c5dacb4c659f2488d");
    assert_eq!(
        event.parse_log(&approval_log()).unwrap(),
        vec![Value::Address(owner), Value::Address(spender), Value::Uint(U256::max_value())]
    );
}

#[test]
fn logs_of_other_events_are_left_out_in_order() {
    let event = approval();
    let mut other = approval_log();
    other.topics[0] = hash("ddf252ad1be2c89b69c2b068fc378daa952ba7f163c4a11628f55a4df523b3ef");
    let mut second = approval_log();
    second.data = vec![0; 32];
    let empty = RawLog { topics: vec![], data: vec![] };

    assert!(matches!(event.parse_log(&other), Err(AbiError::Decoding)));
    assert!(matches!(event.parse_log(&empty), Err(AbiError::Decoding)));

    let rows = event.decode_logs(&vec![other.clone(), approval_log(), empty, second, other]);
    assert_eq!(rows.len(), 2);
    assert_eq!(rows[0][2], Value::Uint(U256::max_value()));
    assert_eq!(rows[1][2], Value::Uint(U256::zero()));
    assert!(event.decode_logs(&vec![]).is_empty());
}

#[test]
fn an_anonymous_event_reads_its_first_topic_as_a_parameter() {
    let event = Event {
        name: "Ping".to_string(),
        inputs: vec![
            EventParam { name: "who".to_string(), kind: Kind::Address, indexed: true },
            EventParam { name: "n".to_string(), kind: Kind::Uint(256), indexed: false },
        ],
        anonymous: true,
    };
    let log = RawLog {
        topics: vec![hash("0000000000000000000000000101010101010101010101010101010101010101")],
        data: word("0000000000000000000000000000000000000000000000000000000000000005"),
    };
    assert_eq!(
        event.parse_log(&log).unwrap(),
        vec![Value::Address(Address { bytes: [1; 20] }), Value::Uint(U256::from_u64(5))]
    );
    let cloned = event.clone();
    assert_eq!(cloned.name, "Ping");
    assert!(cloned.anonymous);
    assert_eq!(cloned.inputs.len(), 2);
}

#[test]
fn interface_lookups_take_the_first_event_of_a_name() {
    let mut second = approval();
    second.inputs.pop();
    let abi = Abi { constructor: None, functions: vec![], events: vec![approval(), second] };
    assert_eq!(abi.event("Approval").unwrap().inputs.len(), 3);
    let copy = abi.clone();
    assert_eq!(copy.events.len(), 2);
    assert_eq!(copy.events[1].inputs.len(), 2);
    assert!(copy.constructor.is_none());
}

#[test]
fn returned_bytes_decode_as_the_outputs_of_the_called_function() {
    let contract = ContractInstance::new(Address::zero(), overloaded());
    let get = contract.method("get", &vec![]).unwrap();
    let five = word("0000000000000000000000000000000000000000000000000000000000000005");
    assert_eq!(get.returned(Ok(five)).unwrap(), vec![Value::Uint(U256::from_u64(5))]);
    assert!(matches!(
        get.returned(Ok(vec![1, 2, 3])),
        Err(CallError::Abi(AbiError::Decoding))
    ));
    assert!(matches!(
        get.returned(Err(ClientError::ExpectedCall)),
        Err(CallError::Client(ClientError::ExpectedCall))
    ));
    match get.returned(Err(ClientError::Revert(vec![9, 9]))) {
        Err(CallError::Client(ClientError::Revert(payload))) => assert_eq!(payload, vec![9, 9]),
        other => panic!("unexpected {:?}", other),
    }
}

#[test]
fn a_sent_call_hands_the_logs_on_and_drops_the_gas() {
    let contract = ContractInstance::new(Address::zero(), overloaded());
    let get = contract.method("get", &vec![]).unwrap();
    let five = word("0000000000000000000000000000000000000000000000000000000000000005");
    let logs = vec![approval_log(), RawLog { topics: vec![], data: vec![1] }];
    let (values, handed) = get.sent(Ok((five, 21_000, logs.clone()))).unwrap();
    assert_eq!(values, vec![Value::Uint(U256::from_u64(5))]);
    assert_eq!(handed, logs);
    assert!(matches!(
        get.sent(Ok((vec![], 0, logs))),
        Err(CallError::Abi(AbiError::Decoding))
    ));
    assert!(matches!(
        get.sent(Err(ClientError::ExpectedCreate)),
        Err(CallError::Client(ClientError::ExpectedCreate))
    ));
}

#[test]
fn a_tuple_of_the_wrong_length_is_refused() {
    let none = function("f", vec![param("t", Kind::Tuple(vec![]))], vec![]);
    let longer = none.encode_input(&vec![Value::Tuple(vec![Value::Bool(true)])]);
    assert_eq!(longer, Err(AbiError::Encoding));

    let pair = || Kind::Tuple(vec![Kind::Bool, Kind::Uint(256)]);
    let f = function("f", vec![param("t", pair())], vec![]);
    let three = Value::Tuple(vec![
        Value::Bool(true),
        Value::Uint(U256::from_u64(1)),
        Value::Bool(false),
    ]);
    assert_eq!(f.encode_input(&vec![three]), Err(AbiError::Encoding));
    let one = Value::Tuple(vec![Value::Bool(true)]);
    assert_eq!(f.encode_input(&vec![one]), Err(AbiError::Encoding));
    let two = Value::Tuple(vec![Value::Bool(true), Value::Uint(U256::from_u64(1))]);
    assert!(f.encode_input(&vec![two]).is_ok());

    // The same inside an array, and for a constructor.
    let list = function("g", vec![param("l", Kind::Array(Box::new(pair())))], vec![]);
    let bad = Value::Array(vec![Value::Tuple(vec![
        Value::Bool(true),
        Value::Uint(U256::from_u64(1)),
        Value::Bool(false),
    ])]);
    assert_eq!(list.encode_input(&vec![bad]), Err(AbiError::Encoding));
    let constructor = Constructor { inputs: vec![param("t", Kind::Tuple(vec![]))] };
    let refused = constructor.encode_input(&vec![1], &vec![Value::Tuple(vec![Value::Bool(true)])]);
    assert_eq!(refused, Err(AbiError::Encoding));
}

#[test]
fn a_type_that_cannot_be_decoded_against_is_refused() {
    let data = vec![0u8; 64];
    for kind in [
        Kind::FixedBytes(usize::MAX),
        Kind::FixedBytes(33),
        Kind::FixedBytes(0),
        Kind::Tuple(vec![]),
        Kind::FixedArray(Box::new(Kind::Bool), 0),
        Kind::Array(Box::new(Kind::Tuple(vec![]))),
        Kind::Tuple(vec![Kind::Bool, Kind::FixedBytes(40)]),
    ] {
        assert!(!kind.is_valid());
        let f = function("f", vec![], vec![param("", Kind::Uint(256)), param("", kind)]);
        assert!(matches!(f.decode_output(&data), Err(AbiError::Decoding)));
    }
    let wide = Event {
        name: "Wide".to_string(),
        inputs: vec![EventParam {
            name: "x".to_string(),
            kind: Kind::FixedBytes(usize::MAX),
            indexed: false,
        }],
        anonymous: true,
    };
    let log = RawLog { topics: vec![], data };
    assert!(matches!(wide.parse_log(&log), Err(AbiError::Decoding)));
    assert!(wide.decode_logs(&vec![log]).is_empty());
}

#[test]
fn ordinary_types_are_valid() {
    for kind in [
        Kind::Address,
        Kind::Bytes,
        Kind::Int(256),
        Kind::Uint(8),
        Kind::Bool,
        Kind::String,
        Kind::FixedBytes(1),
        Kind::FixedBytes(32),
        Kind::Array(Box::new(Kind::String)),
        Kind::FixedArray(Box::new(Kind::Address), 3),
        Kind::Tuple(vec![Kind::Bool, Kind::Tuple(vec![Kind::Bytes])]),
    ] {
        assert!(kind.is_valid());
        assert_eq!(kind.clone(), kind);
    }
}

#[test]
fn a_value_fits_its_own_type_only() {
    let one = Value::Uint(U256::from_u64(1));
    assert!(one.fits(&Kind::Uint(256)));
    assert!(one.fits(&Kind::Uint(8)));
    assert!(!one.fits(&Kind::Int(256)));
    assert!(!one.fits(&Kind::Bool));
    assert!(Value::Int(U256::max_value()).fits(&Kind::Int(8)));
    assert!(Value::Address(Address::zero()).fits(&Kind::Address));
    assert!(!Value::Address(Address::zero()).fits(&Kind::Bytes));
    assert!(Value::Bytes(vec![1; 40]).fits(&Kind::Bytes));
    assert!(Value::String("x".to_string()).fits(&Kind::String));
    assert!(!Value::String("x".to_string()).fits(&Kind::Bytes));
    assert!(Value::Bool(false).fits(&Kind::Bool));

    // A fixed byte array may be shorter than declared, not longer.
    assert!(Value::FixedBytes(vec![1, 2]).fits(&Kind::FixedBytes(4)));
    assert!(Value::FixedBytes(vec![1, 2, 3, 4]).fits(&Kind::FixedBytes(4)));
    assert!(!Value::FixedBytes(vec![1, 2, 3, 4, 5]).fits(&Kind::FixedBytes(4)));

    // A fixed array has exactly the declared length.
    let two = Value::FixedArray(vec![Value::Bool(true), Value::Bool(false)]);
    assert!(two.fits(&Kind::FixedArray(Box::new(Kind::Bool), 2)));
    assert!(!two.fits(&Kind::FixedArray(Box::new(Kind::Bool), 3)));
    assert!(!two.fits(&Kind::FixedArray(Box::new(Kind::String), 2)));
    assert!(!two.fits(&Kind::Array(Box::new(Kind::Bool))));

    let list = Value::Array(vec![Value::Bool(true), Value::String("no".to_string())]);
    assert!(!list.fits(&Kind::Array(Box::new(Kind::Bool))));
    assert!(Value::Array(vec![]).fits(&Kind::Array(Box::new(Kind::Bool))));

    let nested = Value::Tuple(vec![Value::Bool(true), Value::Tuple(vec![Value::Bytes(vec![])])]);
    assert!(nested.fits(&Kind::Tuple(vec![Kind::Bool, Kind::Tuple(vec![Kind::Bytes])])));
    assert!(!nested.fits(&Kind::Tuple(vec![Kind::Bool, Kind::Tuple(vec![Kind::String])])));
    assert!(!nested.fits(&Kind::Tuple(vec![Kind::Bool])));
    assert_eq!(nested.clone(), nested);
}

#[test]
fn the_weight_of_bytes_counts_words() {
    let f = function("put", vec![param("b", Kind::Bytes)], vec![]);
    // Offset, length and rounding, and a word for each thirty-two bytes.
    let value = Value::Bytes(vec![7u8; 1000]);
    assert_eq!(value.spend(34), Some(0));
    assert_eq!(value.spend(33), None);
    assert_eq!(Value::Bytes(vec![]).spend(3), Some(0));
    assert_eq!(Value::FixedBytes(vec![1; 32]).spend(10), Some(7));
    assert_eq!(Value::String("12345678".to_string()).spend(10), Some(6));
    assert_eq!(Value::Bool(true).spend(0), None);
    assert!(f.encode_input(&vec![value]).is_ok());
    // A megabyte is well within the bound.
    let large = Value::Bytes(vec![0u8; 1 << 20]);
    assert_eq!(f.encode_input(&vec![large]).unwrap().len(), 4 + 64 + (1 << 20));
}

#[test]
fn weights_add_up_over_members() {
    let value = Value::Tuple(vec![
        Value::Bool(true),
        Value::String("abc".to_string()),
        Value::Array(vec![Value::Uint(U256::from_u64(1)), Value::FixedBytes(vec![1, 2])]),
    ]);
    // 2 + 1 + 3 + (2 + 1 + 2)
    assert_eq!(value.spend(100), Some(100 - 11));
    assert_eq!(value.spend(11), Some(0));
    assert_eq!(value.spend(10), None);
    assert_eq!(value.spend(0), None);
}

#[test]
fn arguments_of_the_input_types_are_always_accepted() {
    let none = function("ping", vec![], vec![]);
    assert_eq!(none.encode_input(&vec![]).unwrap(), none.selector().to_vec());
    let short = function("f", vec![param("b", Kind::FixedBytes(4))], vec![]);
    let first = short.encode_input(&vec![Value::FixedBytes(vec![1, 2])]).unwrap();
    let second = short.encode_input(&vec![Value::FixedBytes(vec![1, 2])]).unwrap();
    assert_eq!(first, second);
    assert_eq!(first.len(), 36);
}
