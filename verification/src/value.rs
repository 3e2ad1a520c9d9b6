//! Type trees and the values that are encoded against them.

use crate::env::copy_bytes;
use crate::primitives::{Address, U256};
use vstd::prelude::*;
use vstd::string::StrSliceExecFns;

verus! {

/// The type of a parameter: a tree whose leaves are the scalar and the
/// dynamic types and whose inner nodes are arrays and tuples.
#[derive(Debug, PartialEq, Eq)]
pub enum Kind {
    Address,
    /// A byte array of any length.
    Bytes,
    /// A signed integer of the given width in bits.
    Int(usize),
    /// An unsigned integer of the given width in bits.
    Uint(usize),
    Bool,
    String,
    /// An array of any length.
    Array(Box<Kind>),
    /// A byte array of the given length.
    FixedBytes(usize),
    /// An array of the given length.
    FixedArray(Box<Kind>, usize),
    Tuple(Vec<Kind>),
}

/// The plain content of a [`Kind`].
pub enum KindView {
    Address,
    Bytes,
    Int(usize),
    Uint(usize),
    Bool,
    String,
    Array(Box<KindView>),
    FixedBytes(usize),
    FixedArray(Box<KindView>, usize),
    Tuple(Seq<KindView>),
}

/// The plain content of a type tree.
pub open spec fn kind_view(kind: Kind) -> KindView
    decreases kind,
{
    match kind {
        Kind::Address => KindView::Address,
        Kind::Bytes => KindView::Bytes,
        Kind::Int(n) => KindView::Int(n),
        Kind::Uint(n) => KindView::Uint(n),
        Kind::Bool => KindView::Bool,
        Kind::String => KindView::String,
        Kind::Array(e) => KindView::Array(Box::new(kind_view(*e))),
        Kind::FixedBytes(n) => KindView::FixedBytes(n),
        Kind::FixedArray(e, n) => KindView::FixedArray(Box::new(kind_view(*e)), n),
        Kind::Tuple(ks) => KindView::Tuple(
            Seq::new(
                ks.len() as nat,
                |i: int|
                    if 0 <= i < ks.len() {
                        kind_view(ks[i])
                    } else {
                        KindView::Bool
                    },
            ),
        ),
    }
}

impl View for Kind {
    type V = KindView;

    open spec fn view(&self) -> KindView {
        kind_view(*self)
    }
}

/// The views of a sequence of type trees.
pub open spec fn kind_views(kinds: Seq<Kind>) -> Seq<KindView> {
    Seq::new(kinds.len(), |i: int| kinds[i]@)
}

impl KindView {
    /// Whether the type can be decoded against: a fixed byte array has
    /// between one and thirty-two bytes, a fixed array at least one element
    /// and a tuple at least one member, at every depth.
    pub open spec fn valid(self) -> bool
        decreases self,
    {
        match self {
            KindView::Array(e) => e.valid(),
            KindView::FixedBytes(n) => 1 <= n <= 32,
            KindView::FixedArray(e, n) => n >= 1 && e.valid(),
            KindView::Tuple(ks) => ks.len() >= 1 && forall|i: int|
                0 <= i < ks.len() ==> (#[trigger] ks[i]).valid(),
            _ => true,
        }
    }
}

/// Whether every type of a sequence is valid.
pub open spec fn all_valid(kinds: Seq<KindView>) -> bool {
    forall|i: int| 0 <= i < kinds.len() ==> (#[trigger] kinds[i]).valid()
}

impl Kind {
    /// Whether the type can be decoded against.
    #[verifier::loop_isolation(false)]
    pub fn is_valid(&self) -> (r: bool)
        ensures
            r == self@.valid(),
        decreases self,
    {
        match self {
            Kind::Array(e) => e.is_valid(),
            Kind::FixedBytes(n) => 1 <= *n && *n <= 32,
            Kind::FixedArray(e, n) => *n >= 1 && e.is_valid(),
            Kind::Tuple(ks) => {
                if ks.len() == 0 {
                    return false;
                }
                let mut i: usize = 0;
                while i < ks.len()
                    invariant
                        i <= ks.len(),
                        forall|j: int| 0 <= j < i ==> (#[trigger] ks[j])@.valid(),
                    decreases ks.len() - i,
                {
                    assert(self@->Tuple_0[i as int] == ks[i as int]@);
                    if !ks[i].is_valid() {
                        return false;
                    }
                    i += 1;
                }
                assert forall|j: int| 0 <= j < ks.len() implies (#[trigger] self@->Tuple_0[j]).valid() by {
                    assert(ks[j]@.valid());
                }
                true
            },
            _ => true,
        }
    }
}

impl Clone for Kind {
    #[verifier::loop_isolation(false)]
    fn clone(&self) -> (r: Kind)
        ensures
            r@ == self@,
        decreases self,
    {
        match self {
            Kind::Address => Kind::Address,
            Kind::Bytes => Kind::Bytes,
            Kind::Int(n) => Kind::Int(*n),
            Kind::Uint(n) => Kind::Uint(*n),
            Kind::Bool => Kind::Bool,
            Kind::String => Kind::String,
            Kind::Array(e) => Kind::Array(Box::new((**e).clone())),
            Kind::FixedBytes(n) => Kind::FixedBytes(*n),
            Kind::FixedArray(e, n) => Kind::FixedArray(Box::new((**e).clone()), *n),
            Kind::Tuple(ks) => {
                let mut out: Vec<Kind> = Vec::new();
                let mut i: usize = 0;
                while i < ks.len()
                    invariant
                        i <= ks.len(),
                        out.len() == i,
                        forall|j: int| 0 <= j < i ==> (#[trigger] out[j])@ == ks[j]@,
                    decreases ks.len() - i,
                {
                    out.push(ks[i].clone());
                    i += 1;
                }
                let r = Kind::Tuple(out);
                assert(r@->Tuple_0 =~= self@->Tuple_0);
                r
            },
        }
    }
}

/// A value in the form in which it is encoded.
#[derive(Debug, PartialEq, Eq)]
pub enum Value {
    Address(Address),
    /// A byte array of a fixed length of at most thirty-two bytes.
    FixedBytes(Vec<u8>),
    /// A byte array of any length.
    Bytes(Vec<u8>),
    /// A signed integer, as the 256 bits of its two's complement.
    Int(U256),
    Uint(U256),
    Bool(bool),
    String(String),
    /// An array of a fixed length.
    FixedArray(Vec<Value>),
    /// An array of any length.
    Array(Vec<Value>),
    Tuple(Vec<Value>),
}

/// The plain content of a [`Value`].
pub enum ValueView {
    Address(Seq<u8>),
    FixedBytes(Seq<u8>),
    Bytes(Seq<u8>),
    Int(nat),
    Uint(nat),
    Bool(bool),
    String(Seq<char>),
    FixedArray(Seq<ValueView>),
    Array(Seq<ValueView>),
    Tuple(Seq<ValueView>),
}

/// The plain content of each of `values`.
pub open spec fn value_views(values: Seq<Value>) -> Seq<ValueView>
    decreases values,
{
    Seq::new(
        values.len(),
        |i: int|
            if 0 <= i < values.len() {
                value_view(values[i])
            } else {
                ValueView::Bool(false)
            },
    )
}

/// The plain content of a value.
pub open spec fn value_view(value: Value) -> ValueView
    decreases value,
{
    match value {
        Value::Address(a) => ValueView::Address(a@),
        Value::FixedBytes(b) => ValueView::FixedBytes(b@),
        Value::Bytes(b) => ValueView::Bytes(b@),
        Value::Int(n) => ValueView::Int(n@),
        Value::Uint(n) => ValueView::Uint(n@),
        Value::Bool(b) => ValueView::Bool(b),
        Value::String(s) => ValueView::String(s@),
        Value::FixedArray(vs) => ValueView::FixedArray(value_views(vs@)),
        Value::Array(vs) => ValueView::Array(value_views(vs@)),
        Value::Tuple(vs) => ValueView::Tuple(value_views(vs@)),
    }
}

impl View for Value {
    type V = ValueView;

    open spec fn view(&self) -> ValueView {
        value_view(*self)
    }
}

/// Whether each of `values` is of type `kind`.
pub open spec fn each_fits(values: Seq<ValueView>, kind: KindView) -> bool
    decreases values, 0int,
{
    forall|i: int| 0 <= i < values.len() ==> fits(#[trigger] values[i], kind)
}

/// Whether `values` are as many as `kinds` and each is of the type at its
/// place.
pub open spec fn fits_all(values: Seq<ValueView>, kinds: Seq<KindView>) -> bool
    decreases values, 0int,
{
    values.len() == kinds.len() && forall|i: int|
        0 <= i < values.len() ==> fits(#[trigger] values[i], kinds[i])
}

/// Whether a value is of a type. A fixed byte array may be shorter than its
/// type says; a fixed array has exactly the declared length, and a tuple
/// exactly the declared members.
pub open spec fn fits(value: ValueView, kind: KindView) -> bool
    decreases value, 1int,
{
    match value {
        ValueView::Address(_) => kind is Address,
        ValueView::FixedBytes(b) => kind matches KindView::FixedBytes(n) && b.len() <= n,
        ValueView::Bytes(_) => kind is Bytes,
        ValueView::Int(_) => kind is Int,
        ValueView::Uint(_) => kind is Uint,
        ValueView::Bool(_) => kind is Bool,
        ValueView::String(_) => kind is String,
        ValueView::FixedArray(vs) => kind matches KindView::FixedArray(e, n) && n == vs.len()
            && each_fits(vs, *e),
        ValueView::Array(vs) => kind matches KindView::Array(e) && each_fits(vs, *e),
        ValueView::Tuple(vs) => kind matches KindView::Tuple(ks) && fits_all(vs, ks),
    }
}

/// Copies a vector of values.
#[verifier::loop_isolation(false)]
pub fn copy_values(values: &Vec<Value>) -> (r: Vec<Value>)
    ensures
        value_views(r@) == value_views(values@),
    decreases values, 0int,
{
    let mut r: Vec<Value> = Vec::new();
    let mut i: usize = 0;
    while i < values.len()
        invariant
            i <= values.len(),
            r.len() == i,
            forall|j: int| 0 <= j < i ==> (#[trigger] r[j])@ == values[j]@,
        decreases values.len() - i,
    {
        r.push(values[i].clone());
        i += 1;
    }
    assert(value_views(r@) =~= value_views(values@));
    r
}

impl Clone for Value {
    fn clone(&self) -> (r: Value)
        ensures
            r@ == self@,
        decreases self, 1int,
    {
        match self {
            Value::Address(a) => Value::Address(*a),
            Value::FixedBytes(b) => Value::FixedBytes(copy_bytes(b)),
            Value::Bytes(b) => Value::Bytes(copy_bytes(b)),
            Value::Int(n) => Value::Int(*n),
            Value::Uint(n) => Value::Uint(*n),
            Value::Bool(b) => Value::Bool(*b),
            Value::String(s) => Value::String(s.clone()),
            Value::FixedArray(vs) => Value::FixedArray(copy_values(vs)),
            Value::Array(vs) => Value::Array(copy_values(vs)),
            Value::Tuple(vs) => Value::Tuple(copy_values(vs)),
        }
    }
}

/// Decides whether each of `values` is of type `kind`.
#[verifier::loop_isolation(false)]
pub fn check_each(values: &Vec<Value>, kind: &Kind) -> (r: bool)
    ensures
        r == each_fits(value_views(values@), kind@),
    decreases values, 0int,
{
    let mut i: usize = 0;
    while i < values.len()
        invariant
            i <= values.len(),
            forall|j: int| 0 <= j < i ==> fits(#[trigger] value_views(values@)[j], kind@),
        decreases values.len() - i,
    {
        if !values[i].fits(kind) {
            assert(value_views(values@)[i as int] == values[i as int]@);
            return false;
        }
        assert(value_views(values@)[i as int] == values[i as int]@);
        i += 1;
    }
    true
}

/// Decides whether `values` are as many as `kinds` and each is of the type at
/// its place.
#[verifier::loop_isolation(false)]
pub fn check_all(values: &Vec<Value>, kinds: &Vec<Kind>) -> (r: bool)
    ensures
        r == fits_all(value_views(values@), kind_views(kinds@)),
    decreases values, 0int,
{
    if values.len() != kinds.len() {
        return false;
    }
    let mut i: usize = 0;
    while i < values.len()
        invariant
            i <= values.len(),
            values.len() == kinds.len(),
            forall|j: int|
                0 <= j < i ==> fits(#[trigger] value_views(values@)[j], kind_views(kinds@)[j]),
        decreases values.len() - i,
    {
        assert(value_views(values@)[i as int] == values[i as int]@);
        assert(kind_views(kinds@)[i as int] == kinds[i as int]@);
        if !values[i].fits(&kinds[i]) {
            return false;
        }
        i += 1;
    }
    true
}

impl Value {
    /// Decides whether the value is of type `kind`.
    pub fn fits(&self, kind: &Kind) -> (r: bool)
        ensures
            r == fits(self@, kind@),
        decreases self, 1int,
    {
        match self {
            Value::Address(_) => match kind {
                Kind::Address => true,
                _ => false,
            },
            Value::FixedBytes(b) => match kind {
                Kind::FixedBytes(n) => b.len() <= *n,
                _ => false,
            },
            Value::Bytes(_) => match kind {
                Kind::Bytes => true,
                _ => false,
            },
            Value::Int(_) => match kind {
                Kind::Int(_) => true,
                _ => false,
            },
            Value::Uint(_) => match kind {
                Kind::Uint(_) => true,
                _ => false,
            },
            Value::Bool(_) => match kind {
                Kind::Bool => true,
                _ => false,
            },
            Value::String(_) => match kind {
                Kind::String => true,
                _ => false,
            },
            Value::FixedArray(vs) => match kind {
                Kind::FixedArray(e, n) => *n == vs.len() && check_each(vs, e),
                _ => false,
            },
            Value::Array(vs) => match kind {
                Kind::Array(e) => check_each(vs, e),
                _ => false,
            },
            Value::Tuple(vs) => match kind {
                Kind::Tuple(ks) => {
                    let r = check_all(vs, ks);
                    assert(kind_views(ks@) =~= kind@->Tuple_0);
                    r
                },
                _ => false,
            },
        }
    }
}

/// The most that the [`weight`] of values handed to the encoder may be, in
/// words of thirty-two bytes. The encoder counts bytes in 32 bits; this bound
/// keeps every count below that.
pub const MAX_WEIGHT: usize = 0x400_0000;

/// The weight of the first `n` of `values`.
pub open spec fn weight_upto(values: Seq<ValueView>, n: nat) -> nat
    decreases values, n,
{
    if n == 0 || n > values.len() {
        0
    } else {
        weight_upto(values, (n - 1) as nat) + weight(values[n - 1])
    }
}

/// A bound on the size of a value's encoding, in words of thirty-two bytes:
/// one for a scalar; for a byte array the words that hold its bytes, and for
/// a string those that hold four bytes for each character, with up to three
/// more for offset, length and rounding; for any other value two more than
/// the weights of its members.
pub open spec fn weight(value: ValueView) -> nat
    decreases value, 0nat,
{
    match value {
        ValueView::FixedBytes(b) => 2 + b.len() / 32,
        ValueView::Bytes(b) => 3 + b.len() / 32,
        ValueView::String(s) => 3 + s.len() / 8,
        ValueView::FixedArray(vs) => 2 + weight_upto(vs, vs.len()),
        ValueView::Array(vs) => 2 + weight_upto(vs, vs.len()),
        ValueView::Tuple(vs) => 2 + weight_upto(vs, vs.len()),
        _ => 1,
    }
}

/// The weight of all of `values`.
pub open spec fn weights(values: Seq<ValueView>) -> nat {
    weight_upto(values, values.len())
}

/// Takes the weight of `values` from `budget` and hands back what is left,
/// or `None` where the budget does not cover the weight.
#[verifier::loop_isolation(false)]
pub fn spend_all(values: &Vec<Value>, budget: usize) -> (r: Option<usize>)
    ensures
        match r {
            Some(rest) => weights(value_views(values@)) + rest == budget,
            None => weights(value_views(values@)) > budget,
        },
    decreases values, 0int,
{
    let ghost views = value_views(values@);
    let mut rest: usize = budget;
    let mut i: usize = 0;
    while i < values.len()
        invariant
            i <= values.len(),
            weight_upto(views, i as nat) + rest == budget,
        decreases values.len() - i,
    {
        assert(views[i as int] == values[i as int]@);
        assert(weight_upto(views, (i + 1) as nat) == weight_upto(views, i as nat) + weight(
            views[i as int],
        ));
        match values[i].spend(rest) {
            Some(left) => {
                rest = left;
            },
            None => {
                proof {
                    lemma_weight_grows(views, (i + 1) as nat, views.len());
                }
                return None;
            },
        }
        i += 1;
    }
    Some(rest)
}

/// The weight of a longer prefix is no less than that of a shorter one.
pub proof fn lemma_weight_grows(values: Seq<ValueView>, n: nat, m: nat)
    requires
        n <= m <= values.len(),
    ensures
        weight_upto(values, n) <= weight_upto(values, m),
    decreases m,
{
    if n < m {
        lemma_weight_grows(values, n, (m - 1) as nat);
    }
}

impl Value {
    /// Takes the weight of the value from `budget` and hands back what is
    /// left, or `None` where the budget does not cover the weight.
    pub fn spend(&self, budget: usize) -> (r: Option<usize>)
        ensures
            match r {
                Some(rest) => weight(self@) + rest == budget,
                None => weight(self@) > budget,
            },
        decreases self, 1int,
    {
        match self {
            Value::FixedBytes(b) => take(budget, 2, b.len() / 32),
            Value::Bytes(b) => take(budget, 3, b.len() / 32),
            Value::String(s) => take(budget, 3, s.as_str().unicode_len() / 8),
            Value::FixedArray(vs) => match take(budget, 2, 0) {
                Some(rest) => spend_all(vs, rest),
                None => None,
            },
            Value::Array(vs) => match take(budget, 2, 0) {
                Some(rest) => spend_all(vs, rest),
                None => None,
            },
            Value::Tuple(vs) => match take(budget, 2, 0) {
                Some(rest) => spend_all(vs, rest),
                None => None,
            },
            _ => take(budget, 1, 0),
        }
    }
}

/// Takes `fixed + length` from `budget`, or hands back `None` where the
/// budget is smaller.
fn take(budget: usize, fixed: usize, length: usize) -> (r: Option<usize>)
    ensures
        match r {
            Some(rest) => fixed + length + rest == budget,
            None => fixed + length > budget,
        },
{
    if budget < fixed || length > budget - fixed {
        None
    } else {
        Some(budget - fixed - length)
    }
}

} // verus!
