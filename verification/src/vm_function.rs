//! Callable functions and the calling convention.

use std::rc::Rc;
use vstd::prelude::*;
use crate::instance::{EngineError, Trap};
use crate::interpreter::{frame_completes, Interpreter};
use crate::operand_stack::{below, pushed, top};
use crate::types::{FunctionType, LocalGroup, Value};
use crate::vm_module::{live, ModuleRef, ModuleStore, VMModule};

verus! {

/// What a function is made of.
pub enum FunctionItem<I: Interpreter> {
    /// A function defined in a module: the locals it declares beyond its
    /// parameters, its body, which may be shared with other holders, and a
    /// non-owning reference to the module it belongs to.
    Internal {
        local_groups: Vec<LocalGroup>,
        expression: Rc<Vec<I::Instruction>>,
        vm_module: ModuleRef,
    },
    /// A function defined elsewhere, such as one imported from another module.
    /// A call of it is a call of the function referred to.
    External(Rc<VMFunction<I>>),
}

/// One callable function.
pub struct VMFunction<I: Interpreter> {
    function_type: FunctionType,
    function_item: FunctionItem<I>,
}

/// The message of the error that a call with the wrong number of arguments
/// ends in.
pub open spec fn arity_mismatch_message() -> Seq<char> {
    "the number of arguments and parameters do not match"@
}

/// `error` is the error that a call with the wrong number of arguments ends in.
pub open spec fn is_arity_mismatch(error: EngineError) -> bool {
    error matches EngineError::InvalidOperation(message) && message@ == arity_mismatch_message()
}

/// What a call of an internal function does to its module and returns.
///
/// With the wrong number of arguments the module stays as it is and the call
/// fails. Otherwise the interpreter receives the module with the arguments
/// pushed in the order given. Where it completes the frame, the call returns the
/// topmost operands, as many as the function has results, in the order in which
/// they were pushed, and the module keeps what lay below them. Where it stops
/// with a fault, the call fails with that fault and the module stays as the
/// interpreter left it.
pub open spec fn internal_call_outcome<I: Interpreter>(
    function_type: FunctionType,
    local_groups: Vec<LocalGroup>,
    expression: Vec<I::Instruction>,
    before: VMModule<I>,
    args: Seq<Value>,
    after: VMModule<I>,
    result: Result<Vec<Value>, EngineError>,
) -> bool {
    if args.len() != function_type@.params.len() {
        &&& result matches Err(error)
        &&& is_arity_mismatch(error)
        &&& after == before
    } else {
        exists|entered: VMModule<I>, left: VMModule<I>, outcome: Result<(), Trap>|
            {
                &&& entered.interpreter == before.interpreter
                &&& entered.operand_stack@ == pushed(before.operand_stack@, args)
                &&& #[trigger] frame_completes(
                    entered,
                    function_type,
                    local_groups,
                    expression,
                    left,
                    outcome,
                )
                &&& match outcome {
                    Ok(_) => {
                        &&& after.interpreter == left.interpreter
                        &&& result matches Ok(values)
                        &&& values@ == top(
                            left.operand_stack@,
                            function_type@.results.len() as int,
                        )
                        &&& after.operand_stack@ == below(
                            left.operand_stack@,
                            function_type@.results.len() as int,
                        )
                    },
                    Err(trap) => {
                        &&& result == Err::<Vec<Value>, EngineError>(EngineError::Trap(trap))
                        &&& after == left
                    },
                }
            }
    }
}

/// Every frame that the interpreter completes for this function, entered from
/// `before` with `args` pushed, leaves at least the function's results on the
/// operand stack.
pub open spec fn frame_leaves_results<I: Interpreter>(
    function_type: FunctionType,
    local_groups: Vec<LocalGroup>,
    expression: Vec<I::Instruction>,
    before: VMModule<I>,
    args: Seq<Value>,
) -> bool {
    forall|entered: VMModule<I>, left: VMModule<I>, outcome: Result<(), Trap>|
        {
            &&& entered.interpreter == before.interpreter
            &&& entered.operand_stack@ == pushed(before.operand_stack@, args)
            &&& #[trigger] frame_completes(
                entered,
                function_type,
                local_groups,
                expression,
                left,
                outcome,
            )
            &&& outcome is Ok
        } ==> left.operand_stack@.len() >= function_type@.results.len()
}

/// Moves the arguments of a call onto the operand stack of `vm_module`, the
/// first argument deepest, or fails, before it has touched the stack, where
/// their number is not that of the parameters.
pub fn push_args<I>(
    vm_module: &mut VMModule<I>,
    function_type: &FunctionType,
    args: &[Value],
) -> (result: Result<(), EngineError>)
    ensures
        args@.len() == function_type@.params.len() ==> {
            &&& result is Ok
            &&& final(vm_module).operand_stack@ == pushed(old(vm_module).operand_stack@, args@)
            &&& final(vm_module).interpreter == old(vm_module).interpreter
        },
        args@.len() != function_type@.params.len() ==> {
            &&& result matches Err(error)
            &&& is_arity_mismatch(error)
            &&& *final(vm_module) == *old(vm_module)
        },
{
    if args.len() != function_type.params.len() {
        return Err(
            EngineError::InvalidOperation(
                "the number of arguments and parameters do not match".to_string(),
            ),
        );
    }
    vm_module.operand_stack.push_values(args);
    Ok(())
}

/// Takes the results of a completed call off the operand stack of `vm_module`.
/// The operand on top is the last result.
pub fn pop_results<I>(vm_module: &mut VMModule<I>, function_type: &FunctionType) -> (values: Vec<
    Value,
>)
    requires
        function_type@.results.len() <= old(vm_module).operand_stack@.len(),
    ensures
        values@ == top(old(vm_module).operand_stack@, function_type@.results.len() as int),
        final(vm_module).operand_stack@ == below(
            old(vm_module).operand_stack@,
            function_type@.results.len() as int,
        ),
        final(vm_module).interpreter == old(vm_module).interpreter,
{
    let count: usize = function_type.results.len();
    vm_module.operand_stack.pop_values(count)
}

/// Calls an internal function on its module: pushes the arguments, has the
/// interpreter begin the frame and run it, and pops the results.
pub fn eval_internal_function<I: Interpreter>(
    function_type: &FunctionType,
    local_groups: &Vec<LocalGroup>,
    expression: &Vec<I::Instruction>,
    vm_module: VMModule<I>,
    args: &[Value],
) -> (done: (VMModule<I>, Result<Vec<Value>, EngineError>))
    requires
        args@.len() == function_type@.params.len() ==> frame_leaves_results(
            *function_type,
            *local_groups,
            *expression,
            vm_module,
            args@,
        ),
    ensures
        internal_call_outcome(
            *function_type,
            *local_groups,
            *expression,
            vm_module,
            args@,
            done.0,
            done.1,
        ),
{
    let mut entered = vm_module;
    match push_args(&mut entered, function_type, args) {
        Err(error) => (entered, Err(error)),
        Ok(_) => {
            let framed = I::call_internal_function(entered, function_type, local_groups, expression);
            let (mut left, outcome) = I::do_loop(framed);
            assert(frame_completes(
                entered,
                *function_type,
                *local_groups,
                *expression,
                left,
                outcome,
            ));
            match outcome {
                Err(trap) => (left, Err(EngineError::Trap(trap))),
                Ok(_) => {
                    let values = pop_results(&mut left, function_type);
                    (left, Ok(values))
                },
            }
        },
    }
}

impl<I: Interpreter> VMFunction<I> {
    /// The signature that this function was made with.
    pub closed spec fn function_type(self) -> FunctionType {
        self.function_type
    }

    /// What this function is made of.
    pub closed spec fn function_item(self) -> FunctionItem<I> {
        self.function_item
    }

    /// The internal function that a call of this function runs: the function
    /// itself, or the one at the end of its chain of references.
    pub open spec fn callee(self) -> VMFunction<I>
        decreases self,
    {
        match self.function_item() {
            FunctionItem::Internal { .. } => self,
            FunctionItem::External(referred) => (*referred).callee(),
        }
    }

    /// The module on whose operand stack a call of this function runs.
    pub open spec fn home(self) -> ModuleRef {
        self.callee().function_item()->vm_module
    }

    /// The locals that the callee declares.
    pub open spec fn callee_local_groups(self) -> Vec<LocalGroup> {
        self.callee().function_item()->local_groups
    }

    /// The body of the callee.
    pub open spec fn callee_expression(self) -> Vec<I::Instruction> {
        *self.callee().function_item()->expression
    }

    /// Each reference along the chain declares the signature of the function
    /// it refers to.
    pub open spec fn consistently_typed(self) -> bool
        decreases self,
    {
        match self.function_item() {
            FunctionItem::Internal { .. } => true,
            FunctionItem::External(referred) => {
                &&& self.function_type()@ == (*referred).function_type()@
                &&& (*referred).consistently_typed()
            },
        }
    }

    /// A call of this function with `args` can be made on `store`: the module
    /// of the callee resolves, and every frame that the interpreter completes
    /// for the call leaves the results on the operand stack.
    pub open spec fn callable(self, store: Seq<Option<VMModule<I>>>, args: Seq<Value>) -> bool {
        &&& live(store, self.home())
        &&& args.len() == self.callee().function_type()@.params.len() ==> frame_leaves_results(
            self.callee().function_type(),
            self.callee_local_groups(),
            self.callee_expression(),
            store[self.home().slot as int]->0,
            args,
        )
    }

    /// Every frame that the interpreter completes for a call of this function
    /// with `args` on `store` is balanced: it takes the parameters off the
    /// operand stack and leaves the results, so that the stack ends as deep as
    /// it began, less the parameters, plus the results.
    pub open spec fn frames_balanced(self, store: Seq<Option<VMModule<I>>>, args: Seq<Value>) -> bool {
        forall|entered: VMModule<I>, left: VMModule<I>, outcome: Result<(), Trap>|
            {
                &&& entered.interpreter == store[self.home().slot as int]->0.interpreter
                &&& entered.operand_stack@ == pushed(
                    store[self.home().slot as int]->0.operand_stack@,
                    args,
                )
                &&& #[trigger] frame_completes(
                    entered,
                    self.callee().function_type(),
                    self.callee_local_groups(),
                    self.callee_expression(),
                    left,
                    outcome,
                )
                &&& outcome is Ok
            } ==> left.operand_stack@.len() == entered.operand_stack@.len()
                - self.callee().function_type()@.params.len()
                + self.callee().function_type()@.results.len()
    }

    /// What a call of this function with `args` does to the store and returns:
    /// what the call of its callee does to the callee's module, and nothing
    /// else.
    pub open spec fn call_outcome(
        self,
        before: Seq<Option<VMModule<I>>>,
        args: Seq<Value>,
        after: Seq<Option<VMModule<I>>>,
        result: Result<Vec<Value>, EngineError>,
    ) -> bool {
        exists|vm_module: VMModule<I>|
            {
                &&& #[trigger] internal_call_outcome(
                    self.callee().function_type(),
                    self.callee_local_groups(),
                    self.callee_expression(),
                    before[self.home().slot as int]->0,
                    args,
                    vm_module,
                    result,
                )
                &&& after == before.update(self.home().slot as int, Some(vm_module))
            }
    }

    /// A function defined in the module behind `vm_module`.
    pub fn new_internal_function(
        function_type: FunctionType,
        local_groups: Vec<LocalGroup>,
        expression: Rc<Vec<I::Instruction>>,
        vm_module: ModuleRef,
    ) -> (function: Self)
        ensures
            function.function_type() == function_type,
            function.function_item() == (FunctionItem::<I>::Internal {
                local_groups,
                expression,
                vm_module,
            }),
            function.callee() == function,
            function.consistently_typed(),
    {
        VMFunction {
            function_type,
            function_item: FunctionItem::Internal { local_groups, expression, vm_module },
        }
    }

    /// A function that stands for `r`, under the signature `function_type`.
    pub fn new_external_function(function_type: FunctionType, r: Rc<VMFunction<I>>) -> (function:
        Self)
        ensures
            function.function_type() == function_type,
            function.function_item() == FunctionItem::<I>::External(r),
            function.callee() == r.callee(),
    {
        VMFunction { function_type, function_item: FunctionItem::External(r) }
    }

    /// A copy of the signature that this function was made with.
    pub fn get_function_type(&self) -> (function_type: FunctionType)
        ensures
            function_type@ == self.function_type()@,
    {
        self.function_type.clone()
    }

    /// The module on whose operand stack a call of this function runs.
    pub fn get_home(&self) -> (vm_module: ModuleRef)
        ensures
            vm_module == self.home(),
        decreases self,
    {
        match &self.function_item {
            FunctionItem::Internal { vm_module, .. } => *vm_module,
            FunctionItem::External(r) => r.get_home(),
        }
    }

    /// Calls this function with `args`.
    ///
    /// An internal function runs on its own module, which the call holds
    /// exclusively until it returns. An external function hands the call on,
    /// arguments and outcome unchanged, to the function it refers to.
    pub fn eval(&self, store: &mut ModuleStore<I>, args: &[Value]) -> (result: Result<
        Vec<Value>,
        EngineError,
    >)
        requires
            self.callable(old(store)@, args@),
        ensures
            self.call_outcome(old(store)@, args@, final(store)@, result),
        decreases self,
    {
        match &self.function_item {
            FunctionItem::Internal { local_groups, expression, vm_module } => {
                let held = store.upgrade(*vm_module).unwrap();
                let (vm_module_after, result) = eval_internal_function(
                    &self.function_type,
                    local_groups,
                    expression,
                    held,
                    args,
                );
                store.release(*vm_module, vm_module_after);
                proof {
                    assert(self.callee() == *self);
                    assert(store@ =~= old(store)@.update(
                        vm_module.slot as int,
                        Some(vm_module_after),
                    ));
                    assert(internal_call_outcome(
                        self.callee().function_type(),
                        self.callee_local_groups(),
                        self.callee_expression(),
                        old(store)@[self.home().slot as int]->0,
                        args@,
                        vm_module_after,
                        result,
                    ));
                }
                result
            },
            FunctionItem::External(r) => {
                let result = r.eval(store, args);
                proof {
                    lemma_external_call_is_transparent(*self, old(store)@, args@, store@, result);
                }
                result
            },
        }
    }
}

/// External pass-through: a function that refers to another is called exactly
/// where the other can be called, and a call of it does to the store, and
/// returns, exactly what a call of the other does. The signature that the
/// reference itself declares plays no part.
pub proof fn lemma_external_call_is_transparent<I: Interpreter>(
    function: VMFunction<I>,
    before: Seq<Option<VMModule<I>>>,
    args: Seq<Value>,
    after: Seq<Option<VMModule<I>>>,
    result: Result<Vec<Value>, EngineError>,
)
    requires
        function.function_item() is External,
    ensures
        function.callable(before, args) == (*function.function_item()->0).callable(before, args),
        function.call_outcome(before, args, after, result) == (*function.function_item()->0).call_outcome(
            before,
            args,
            after,
            result,
        ),
{
    let referred = *function.function_item()->0;
    assert(function.callee() == referred.callee());
    assert(function.home() == referred.home());
    assert(function.callee_local_groups() == referred.callee_local_groups());
    assert(function.callee_expression() == referred.callee_expression());
}

/// Where each reference along the chain declares the signature of what it
/// refers to, the function's own signature is that of its callee.
pub proof fn lemma_callee_has_declared_signature<I: Interpreter>(function: VMFunction<I>)
    requires
        function.consistently_typed(),
    ensures
        function.callee().function_type()@ == function.function_type()@,
    decreases function,
{
    if function.function_item() is External {
        let referred = *function.function_item()->0;
        lemma_callee_has_declared_signature(referred);
    }
}

/// Arity enforcement: a call with a number of arguments other than the number
/// of parameters in the function's signature fails as an invalid operation, and
/// leaves every module, and so every operand stack, as it was.
pub proof fn lemma_arity_is_enforced<I: Interpreter>(
    function: VMFunction<I>,
    before: Seq<Option<VMModule<I>>>,
    args: Seq<Value>,
    after: Seq<Option<VMModule<I>>>,
    result: Result<Vec<Value>, EngineError>,
)
    requires
        function.consistently_typed(),
        live(before, function.home()),
        function.call_outcome(before, args, after, result),
        args.len() != function.function_type()@.params.len(),
    ensures
        result matches Err(error) && is_arity_mismatch(error),
        after == before,
{
    lemma_callee_has_declared_signature(function);
    assert(after =~= before);
}

/// Stack discipline: where the interpreter's frames are balanced, a call that
/// does not end in a fault leaves the operand stack of the callee's module as
/// deep as it found it, whatever the numbers of parameters and results, none
/// and none included. The module resolves again after the call, so that the
/// function can be called again.
pub proof fn lemma_call_keeps_stack_depth<I: Interpreter>(
    function: VMFunction<I>,
    before: Seq<Option<VMModule<I>>>,
    args: Seq<Value>,
    after: Seq<Option<VMModule<I>>>,
    result: Result<Vec<Value>, EngineError>,
)
    requires
        live(before, function.home()),
        function.frames_balanced(before, args),
        function.call_outcome(before, args, after, result),
    ensures
        live(after, function.home()),
        !(result matches Err(EngineError::Trap(_))) ==> after[function.home().slot as int]->0.operand_stack@.len()
            == before[function.home().slot as int]->0.operand_stack@.len(),
{
}

} // verus!
