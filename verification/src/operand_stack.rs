//! The operand stack of one module.

use vstd::prelude::*;
use crate::types::Value;

verus! {

/// A last-in-first-out stack of operands. Its view lists the operands from the
/// deepest to the topmost.
pub struct OperandStack {
    values: Vec<Value>,
}

impl View for OperandStack {
    type V = Seq<Value>;

    closed spec fn view(&self) -> Seq<Value> {
        self.values@
    }
}

/// The stack `stack` with `values` pushed in the order given: the first of
/// them lies deepest, the last on top.
pub open spec fn pushed(stack: Seq<Value>, values: Seq<Value>) -> Seq<Value> {
    stack + values
}

/// The topmost `count` operands of `stack`, the deepest of them first.
pub open spec fn top(stack: Seq<Value>, count: int) -> Seq<Value>
    recommends
        0 <= count <= stack.len(),
{
    stack.subrange(stack.len() - count, stack.len() as int)
}

/// What is left of `stack` once its topmost `count` operands are gone.
pub open spec fn below(stack: Seq<Value>, count: int) -> Seq<Value>
    recommends
        0 <= count <= stack.len(),
{
    stack.take(stack.len() - count)
}

/// Last in, first out: what was pushed last is popped first. Popping as many
/// operands as were just pushed gives them back in the order in which they were
/// pushed, and leaves the stack as it was before.
pub proof fn lemma_push_then_pop(stack: Seq<Value>, values: Seq<Value>)
    ensures
        top(pushed(stack, values), values.len() as int) == values,
        below(pushed(stack, values), values.len() as int) == stack,
{
    assert(top(pushed(stack, values), values.len() as int) =~= values);
    assert(below(pushed(stack, values), values.len() as int) =~= stack);
}

impl OperandStack {
    /// An empty stack.
    pub fn new() -> (stack: OperandStack)
        ensures
            stack@ == Seq::<Value>::empty(),
    {
        OperandStack { values: Vec::new() }
    }

    /// The number of operands on the stack.
    pub fn len(&self) -> (depth: usize)
        ensures
            depth == self@.len(),
    {
        self.values.len()
    }

    /// Pushes `values` from left to right.
    pub fn push_values(&mut self, values: &[Value])
        ensures
            final(self)@ == pushed(old(self)@, values@),
    {
        let mut i: usize = 0;
        while i < values.len()
            invariant
                i <= values.len(),
                self.values@ == old(self).values@ + values@.take(i as int),
            decreases values.len() - i,
        {
            self.values.push(values[i]);
            i = i + 1;
        }
    }

    /// Pops `count` operands. The operand popped first, the topmost, comes last
    /// in the result, so the result reads as the operands were pushed.
    pub fn pop_values(&mut self, count: usize) -> (values: Vec<Value>)
        requires
            count <= old(self)@.len(),
        ensures
            values@ == top(old(self)@, count as int),
            final(self)@ == below(old(self)@, count as int),
    {
        let mut popped: Vec<Value> = Vec::new();
        let mut i: usize = 0;
        while i < count
            invariant
                i <= count <= old(self).values@.len(),
                self.values@ == below(old(self).values@, i as int),
                popped@ == top(old(self).values@, i as int).reverse(),
            decreases count - i,
        {
            let value = self.values.pop().unwrap();
            popped.push(value);
            i = i + 1;
        }
        let mut values: Vec<Value> = Vec::new();
        let mut j: usize = popped.len();
        while j > 0
            invariant
                j <= popped.len(),
                values@ == popped@.skip(j as int).reverse(),
            decreases j,
        {
            j = j - 1;
            values.push(popped[j]);
        }
        values
    }
}

} // verus!
