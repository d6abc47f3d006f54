//! The interpreter, as far as a call needs it.

use vstd::prelude::*;
use crate::instance::Trap;
use crate::types::{FunctionType, LocalGroup};
use crate::vm_module::VMModule;

verus! {

/// What runs the body of an internal function.
///
/// The two operations carry no promise here: each implementor states its own.
/// What this crate proves of a call, it proves of every implementor, relative
/// to [`frame_completes`].
pub trait Interpreter: Sized {
    /// One instruction of a function body.
    type Instruction;

    /// Begins a call frame on `vm_module`: sets up the locals that
    /// `function_type` and `local_groups` declare, binds the parameters, which
    /// the caller has already pushed, to the first of them, and points the frame
    /// at `expression`.
    fn call_internal_function(
        vm_module: VMModule<Self>,
        function_type: &FunctionType,
        local_groups: &Vec<LocalGroup>,
        expression: &Vec<Self::Instruction>,
    ) -> VMModule<Self>
        requires
            vm_module.operand_stack@.len() >= function_type@.params.len(),
    ;

    /// Runs until the frame begun last, and every frame begun while it ran, has
    /// returned, or until the interpreter stops with a fault.
    fn do_loop(vm_module: VMModule<Self>) -> (VMModule<Self>, Result<(), Trap>);
}

/// The interpreter `I` can take the module `entered`, begin on it a frame for
/// the function that `function_type`, `local_groups` and `expression`
/// describe, run it, and hand the module back as `left` with `outcome`.
pub open spec fn frame_completes<I: Interpreter>(
    entered: VMModule<I>,
    function_type: FunctionType,
    local_groups: Vec<LocalGroup>,
    expression: Vec<I::Instruction>,
    left: VMModule<I>,
    outcome: Result<(), Trap>,
) -> bool {
    exists|framed: VMModule<I>|
        call_ensures(
            I::call_internal_function,
            (entered, &function_type, &local_groups, &expression),
            framed,
        ) && #[trigger] call_ensures(I::do_loop, (framed,), (left, outcome))
}

} // verus!
