//! The errors a call can end in.

use vstd::prelude::*;

verus! {

/// A fault raised by the interpreter while it ran a frame, such as a division
/// by zero or an access outside a memory.
#[derive(Debug, PartialEq, Eq)]
pub struct Trap {
    pub message: String,
}

/// Why a call did not return its results.
#[derive(Debug, PartialEq, Eq)]
pub enum EngineError {
    /// The call itself was malformed. The calling convention reports this
    /// before it has touched the operand stack.
    InvalidOperation(String),
    /// The interpreter stopped with a fault. It is handed on as it came.
    Trap(Trap),
}

} // verus!
