use anvm_engine::instance::EngineError;
use anvm_engine::operand_stack::OperandStack;
use anvm_engine::types::{FunctionType, LocalGroup, Value, ValueType};
use anvm_engine::vm_function::{pop_results, push_args};
use anvm_engine::vm_module::VMModule;

fn function_type(params: &[ValueType], results: &[ValueType]) -> FunctionType {
    FunctionType { params: params.to_vec(), results: results.to_vec() }
}

fn module_with(values: &[Value]) -> VMModule<u8> {
    let mut operand_stack = OperandStack::new();
    operand_stack.push_values(values);
    VMModule { operand_stack, interpreter: 0 }
}

#[test]
fn push_args_puts_the_first_argument_deepest() {
    let mut vm_module = module_with(&[Value::I32(99)]);
    let ft = function_type(&[ValueType::I32, ValueType::I32, ValueType::I64], &[]);
    let args = [Value::I32(10), Value::I32(20), Value::I64(30)];
    assert_eq!(push_args(&mut vm_module, &ft, &args), Ok(()));
    assert_eq!(vm_module.operand_stack.len(), 4);
    assert_eq!(vm_module.operand_stack.pop_values(1), vec![Value::I64(30)]);
    assert_eq!(vm_module.operand_stack.pop_values(1), vec![Value::I32(20)]);
    assert_eq!(vm_module.operand_stack.pop_values(1), vec![Value::I32(10)]);
    assert_eq!(vm_module.operand_stack.pop_values(1), vec![Value::I32(99)]);
}

#[test]
fn push_args_with_too_few_arguments_fails_before_touching_the_stack() {
    let mut vm_module = module_with(&[Value::I32(1), Value::I32(2)]);
    let ft = function_type(&[ValueType::I32, ValueType::I32], &[]);
    let result = push_args(&mut vm_module, &ft, &[Value::I32(10)]);
    assert_eq!(
        result,
        Err(EngineError::InvalidOperation(
            "the number of arguments and parameters do not match".to_string()
        ))
    );
    assert_eq!(vm_module.operand_stack.len(), 2);
    assert_eq!(vm_module.operand_stack.pop_values(2), vec![Value::I32(1), Value::I32(2)]);
}

#[test]
fn push_args_with_too_many_arguments_fails_before_touching_the_stack() {
    let mut vm_module = module_with(&[]);
    let ft = function_type(&[], &[ValueType::I32]);
    let result = push_args(&mut vm_module, &ft, &[Value::I32(10)]);
    assert!(matches!(result, Err(EngineError::InvalidOperation(_))));
    assert_eq!(vm_module.operand_stack.len(), 0);
}

#[test]
fn push_args_counts_arguments_and_does_not_look_at_their_types() {
    let mut vm_module = module_with(&[]);
    let ft = function_type(&[ValueType::I32], &[]);
    assert_eq!(push_args(&mut vm_module, &ft, &[Value::F64(0)]), Ok(()));
    assert_eq!(vm_module.operand_stack.pop_values(1), vec![Value::F64(0)]);
}

#[test]
fn push_args_of_no_arguments_leaves_the_stack_as_it_is() {
    let mut vm_module = module_with(&[Value::I32(3)]);
    let ft = function_type(&[], &[]);
    assert_eq!(push_args(&mut vm_module, &ft, &[]), Ok(()));
    assert_eq!(vm_module.operand_stack.len(), 1);
}

#[test]
fn pop_results_puts_the_topmost_operand_last() {
    let mut vm_module = module_with(&[Value::I32(7), Value::I32(1), Value::I32(2)]);
    let ft = function_type(&[], &[ValueType::I32, ValueType::I32]);
    assert_eq!(pop_results(&mut vm_module, &ft), vec![Value::I32(1), Value::I32(2)]);
    assert_eq!(vm_module.operand_stack.len(), 1);
    assert_eq!(vm_module.operand_stack.pop_values(1), vec![Value::I32(7)]);
}

#[test]
fn pop_results_of_no_results_leaves_the_stack_as_it_is() {
    let mut vm_module = module_with(&[Value::I32(7)]);
    let ft = function_type(&[ValueType::I32], &[]);
    assert_eq!(pop_results(&mut vm_module, &ft), Vec::<Value>::new());
    assert_eq!(vm_module.operand_stack.len(), 1);
}

#[test]
fn function_type_clone_copies_both_lists() {
    let ft = function_type(&[ValueType::I32, ValueType::F64], &[ValueType::I64]);
    let copy = ft.clone();
    assert_eq!(copy, ft);
    assert_eq!(copy.params, vec![ValueType::I32, ValueType::F64]);
    assert_eq!(copy.results, vec![ValueType::I64]);
}

#[test]
fn local_group_keeps_its_fields() {
    let group = LocalGroup { variable_count: 3, value_type: ValueType::F32 };
    let copy = group;
    assert_eq!(copy.variable_count, 3);
    assert_eq!(copy.value_type, ValueType::F32);
    assert_eq!(copy, group);
}
