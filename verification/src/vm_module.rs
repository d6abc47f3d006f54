//! Module instances and the store that owns them.

use vstd::prelude::*;
use crate::operand_stack::OperandStack;

verus! {

/// One module instance: its operand stack, and the state that its interpreter
/// keeps between instructions.
pub struct VMModule<I> {
    pub operand_stack: OperandStack,
    pub interpreter: I,
}

/// A non-owning reference to a module instance: the number of its slot in the
/// [`ModuleStore`]. Holding one keeps nothing alive, and resolving it fails once
/// the module has left the store.
#[derive(Clone, Copy, Debug, PartialEq, Eq, Structural)]
pub struct ModuleRef {
    pub slot: usize,
}

/// The owner of every module instance. A slot is empty when its module has been
/// destroyed, or while a call holds the module exclusively.
pub struct ModuleStore<I> {
    slots: Vec<Option<VMModule<I>>>,
}

impl<I> View for ModuleStore<I> {
    type V = Seq<Option<VMModule<I>>>;

    closed spec fn view(&self) -> Seq<Option<VMModule<I>>> {
        self.slots@
    }
}

/// Whether `module` resolves in `store`.
pub open spec fn live<I>(store: Seq<Option<VMModule<I>>>, module: ModuleRef) -> bool {
    module.slot < store.len() && store[module.slot as int] is Some
}

impl<I> ModuleStore<I> {
    /// A store without modules.
    pub fn new() -> (store: ModuleStore<I>)
        ensures
            store@ == Seq::<Option<VMModule<I>>>::empty(),
    {
        ModuleStore { slots: Vec::new() }
    }

    /// Takes ownership of `vm_module` and returns the reference under which it
    /// resolves from now on.
    pub fn add(&mut self, vm_module: VMModule<I>) -> (module: ModuleRef)
        ensures
            module.slot == old(self)@.len(),
            final(self)@ == old(self)@.push(Some(vm_module)),
    {
        let slot: usize = self.slots.len();
        self.slots.push(Some(vm_module));
        ModuleRef { slot }
    }

    /// Whether `module` resolves.
    pub fn is_live(&self, module: ModuleRef) -> (yes: bool)
        ensures
            yes == live(self@, module),
    {
        module.slot < self.slots.len() && self.slots[module.slot].is_some()
    }

    /// Looks at the module behind `module`, if it resolves.
    pub fn get(&self, module: ModuleRef) -> (found: Option<&VMModule<I>>)
        ensures
            live(self@, module) ==> found == Some(&self@[module.slot as int]->0),
            !live(self@, module) ==> found is None,
    {
        if module.slot < self.slots.len() {
            self.slots[module.slot].as_ref()
        } else {
            None
        }
    }

    /// Resolves `module` to exclusive ownership of the instance: the instance
    /// leaves its slot, so that nothing else resolves it until it is released.
    /// Returns `None`, and changes nothing, where `module` does not resolve.
    /// Dropping what comes back destroys the module.
    pub fn upgrade(&mut self, module: ModuleRef) -> (vm_module: Option<VMModule<I>>)
        ensures
            live(old(self)@, module) ==> vm_module == old(self)@[module.slot as int]
                && final(self)@ == old(self)@.update(module.slot as int, None),
            !live(old(self)@, module) ==> vm_module is None && final(self)@ == old(self)@,
    {
        if module.slot < self.slots.len() {
            let mut taken: Option<VMModule<I>> = None;
            self.slots.set_and_swap(module.slot, &mut taken);
            assert(taken is None ==> self.slots@ =~= old(self).slots@);
            taken
        } else {
            None
        }
    }

    /// Puts `vm_module` back into the slot of `module`.
    pub fn release(&mut self, module: ModuleRef, vm_module: VMModule<I>)
        requires
            module.slot < old(self)@.len(),
        ensures
            final(self)@ == old(self)@.update(module.slot as int, Some(vm_module)),
    {
        self.slots.set(module.slot, Some(vm_module));
    }
}

} // verus!
