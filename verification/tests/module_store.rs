use anvm_engine::operand_stack::OperandStack;
use anvm_engine::types::Value;
use anvm_engine::vm_module::{ModuleRef, ModuleStore, VMModule};

fn module_with(values: &[Value], interpreter: u32) -> VMModule<u32> {
    let mut operand_stack = OperandStack::new();
    operand_stack.push_values(values);
    VMModule { operand_stack, interpreter }
}

#[test]
fn a_new_store_resolves_nothing() {
    let store: ModuleStore<u32> = ModuleStore::new();
    assert!(!store.is_live(ModuleRef { slot: 0 }));
    assert!(store.get(ModuleRef { slot: 0 }).is_none());
}

#[test]
fn add_hands_out_slots_in_order() {
    let mut store: ModuleStore<u32> = ModuleStore::new();
    let first = store.add(module_with(&[], 10));
    let second = store.add(module_with(&[Value::I32(1)], 20));
    assert_eq!(first, ModuleRef { slot: 0 });
    assert_eq!(second, ModuleRef { slot: 1 });
    assert!(store.is_live(first));
    assert!(store.is_live(second));
    assert!(!store.is_live(ModuleRef { slot: 2 }));
    assert_eq!(store.get(first).unwrap().interpreter, 10);
    assert_eq!(store.get(second).unwrap().interpreter, 20);
    assert_eq!(store.get(second).unwrap().operand_stack.len(), 1);
}

#[test]
fn upgrade_takes_the_module_out_of_its_slot() {
    let mut store: ModuleStore<u32> = ModuleStore::new();
    let first = store.add(module_with(&[Value::I32(4)], 1));
    let second = store.add(module_with(&[], 2));
    let mut held = store.upgrade(first).unwrap();
    assert_eq!(held.interpreter, 1);
    assert_eq!(held.operand_stack.pop_values(1), vec![Value::I32(4)]);
    assert!(!store.is_live(first));
    assert!(store.get(first).is_none());
    assert!(store.is_live(second));
}

#[test]
fn upgrade_of_a_held_or_destroyed_module_fails() {
    let mut store: ModuleStore<u32> = ModuleStore::new();
    let module = store.add(module_with(&[], 1));
    let held = store.upgrade(module);
    assert!(held.is_some());
    assert!(store.upgrade(module).is_none());
    drop(held);
    assert!(store.upgrade(module).is_none());
}

#[test]
fn upgrade_of_an_unknown_slot_fails_and_changes_nothing() {
    let mut store: ModuleStore<u32> = ModuleStore::new();
    let module = store.add(module_with(&[Value::I32(1)], 1));
    assert!(store.upgrade(ModuleRef { slot: 5 }).is_none());
    assert!(store.is_live(module));
    assert_eq!(store.get(module).unwrap().operand_stack.len(), 1);
}

#[test]
fn release_makes_the_module_resolve_again() {
    let mut store: ModuleStore<u32> = ModuleStore::new();
    let module = store.add(module_with(&[], 1));
    let mut held = store.upgrade(module).unwrap();
    held.operand_stack.push_values(&[Value::I64(9)]);
    held.interpreter = 7;
    store.release(module, held);
    assert!(store.is_live(module));
    assert_eq!(store.get(module).unwrap().interpreter, 7);
    assert_eq!(store.get(module).unwrap().operand_stack.len(), 1);
}
