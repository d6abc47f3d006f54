//! Values, value types and the declarations that describe a function.

use vstd::prelude::*;

verus! {

/// The type of one operand.
#[derive(Clone, Copy, Debug, PartialEq, Eq, Structural)]
pub enum ValueType {
    I32,
    I64,
    F32,
    F64,
}

/// One operand. Floating-point operands are carried as their IEEE 754 bit
/// patterns, so that a value is compared and moved bit for bit.
#[derive(Clone, Copy, Debug, PartialEq, Eq, Structural)]
pub enum Value {
    I32(i32),
    I64(i64),
    F32(u32),
    F64(u64),
}

/// A run of local slots of one type, declared by a function beyond its
/// parameters.
#[derive(Clone, Copy, Debug, PartialEq, Eq, Structural)]
pub struct LocalGroup {
    pub variable_count: u32,
    pub value_type: ValueType,
}

/// The mathematical content of a [`FunctionType`].
pub struct Signature {
    pub params: Seq<ValueType>,
    pub results: Seq<ValueType>,
}

/// The signature of a function: its parameter types and its result types, each
/// in declaration order.
#[derive(Debug, PartialEq, Eq)]
pub struct FunctionType {
    pub params: Vec<ValueType>,
    pub results: Vec<ValueType>,
}

impl View for FunctionType {
    type V = Signature;

    open spec fn view(&self) -> Signature {
        Signature { params: self.params@, results: self.results@ }
    }
}

/// Copies a list of value types element by element.
fn copy_types(types: &Vec<ValueType>) -> (copy: Vec<ValueType>)
    ensures
        copy@ == types@,
{
    let mut copy: Vec<ValueType> = Vec::new();
    let mut i: usize = 0;
    while i < types.len()
        invariant
            i <= types.len(),
            copy@ == types@.take(i as int),
        decreases types.len() - i,
    {
        copy.push(types[i]);
        i = i + 1;
    }
    copy
}

impl Clone for FunctionType {
    fn clone(&self) -> (copy: Self)
        ensures
            copy@ == self@,
    {
        FunctionType { params: copy_types(&self.params), results: copy_types(&self.results) }
    }
}

} // verus!
