use lama_interpreter::error::InterpreterError;
use lama_interpreter::stack::Stack;
use lama_interpreter::value::Value;

#[test]
fn push_pop_returns_value_and_depth() {
    let mut s = Stack::new();
    s.push(Value::Int(3));
    let before = s.len();
    s.push(Value::Int(41));
    assert_eq!(s.pop(), Ok(Value::Int(41)));
    assert_eq!(s.len(), before);
    assert_eq!(s.pop(), Ok(Value::Int(3)));
    assert_eq!(s.len(), 0);
}

#[test]
fn push_pop_works_for_every_variant() {
    let mut s = Stack::new();
    let v = Value::Str(String::from("hello"));
    s.push(v);
    assert_eq!(s.pop(), Ok(Value::Str(String::from("hello"))));
    s.push(Value::Empty);
    assert_eq!(s.pop(), Ok(Value::Empty));
    s.push(Value::ReturnAddress(7));
    assert_eq!(s.pop(), Ok(Value::ReturnAddress(7)));
}

#[test]
fn pop_on_empty_underflows() {
    let mut s = Stack::new();
    assert_eq!(s.pop(), Err(InterpreterError::StackUnderflow));
}

#[test]
fn take_returns_in_pop_order() {
    let mut s = Stack::new();
    s.push(Value::Int(1));
    s.push(Value::Int(2));
    s.push(Value::Int(3));
    let taken = s.take(2).unwrap();
    assert_eq!(taken, vec![Value::Int(3), Value::Int(2)]);
    assert_eq!(s.len(), 1);
    assert_eq!(s.pop(), Ok(Value::Int(1)));
}

#[test]
fn take_underflow_leaves_stack_unmodified() {
    let mut s = Stack::new();
    s.push(Value::Int(1));
    s.push(Value::Int(2));
    assert_eq!(s.take(3), Err(InterpreterError::StackUnderflow));
    assert_eq!(s.len(), 2);
    assert_eq!(s.pop(), Ok(Value::Int(2)));
    assert_eq!(s.pop(), Ok(Value::Int(1)));
}

#[test]
fn dup_and_swap() {
    let mut s = Stack::new();
    s.push(Value::Int(1));
    s.push(Value::Int(2));
    s.swap().unwrap();
    assert_eq!(s.pop(), Ok(Value::Int(1)));
    s.push(Value::Int(5));
    s.dup().unwrap();
    assert_eq!(s.pop(), Ok(Value::Int(5)));
    assert_eq!(s.pop(), Ok(Value::Int(5)));
    assert_eq!(s.pop(), Ok(Value::Int(2)));
}

#[test]
fn swap_underflow() {
    let mut s = Stack::new();
    s.push(Value::Int(1));
    assert_eq!(s.swap(), Err(InterpreterError::StackUnderflow));
    assert_eq!(s.dup(), Ok(()));
}
