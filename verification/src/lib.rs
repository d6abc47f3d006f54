//! The function-invocation core of a stack-based bytecode virtual machine.
//!
//! A [`vm_function::VMFunction`] is one callable: bytecode defined in a module
//! (internal), or a reference to a callable defined elsewhere (external). Calling
//! it moves the arguments onto the owning module's operand stack, lets the
//! module's interpreter run the frame, and takes the results off the stack again.
//!
//! The interpreter itself is not part of this crate. It enters through the
//! [`interpreter::Interpreter`] trait, and every contract here that depends on it
//! is stated relative to whatever the chosen interpreter guarantees of itself.

pub mod types;
pub mod instance;
pub mod operand_stack;
pub mod vm_module;
pub mod interpreter;
pub mod vm_function;
