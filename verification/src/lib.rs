//! Typed contract calls against an in-process virtual machine.
//!
//! An [`Abi`] describes the functions and events of a contract. A
//! [`ContractInstance`] binds it to an address and builds a [`FunctionCall`]
//! from a function name or selector and a list of argument values. A built
//! call runs against any [`RevmClient`]: as a read, which leaves the backend
//! as it is, or as a transaction from a given sender, which keeps its effects
//! and hands back the emitted logs. [`BasicClient`] is the backend over an
//! in-memory database; it also creates funded accounts and moves value
//! between them.
//!
//! Every operation has a contract. What the virtual machine and the encoder
//! compute is named rather than spelled out ([`basic::executed`],
//! [`abi::encoded_input`], [`abi::decoded`] and their like); what this crate
//! decides around them is stated exactly over those names. Arguments and
//! declared types are checked before they reach the encoder ([`Value::fits`],
//! [`Kind::is_valid`]), so that it is only handed what it can take.

pub mod abi;
pub mod basic;
pub mod bindings;
pub mod call;
pub mod client;
pub mod contract;
pub mod env;
pub mod primitives;
pub mod value;

pub use abi::{Abi, AbiError, Constructor, Event, EventParam, Function, Param, StateMutability};
pub use basic::{generate_random_account, BasicClient};
pub use bindings::{gen_it, BindArgs};
pub use call::{CallError, FunctionCall};
pub use client::{ClientError, RevmClient};
pub use contract::{deployment, ContractInstance};
pub use env::{Envelope, ExecOutput, ExecutionOutcome, LogRecord, RawLog, Target};
pub use primitives::{Address, H256, U256};
pub use value::{Kind, Value};
