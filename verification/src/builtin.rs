//! The builtin boundary: the narrow capability through which a host supplies
//! primitive operations (string, array and I/O primitives live behind it).

use crate::error::InterpreterError;
use crate::stack::Stack;
use crate::value::Value;
use vstd::prelude::*;

verus! {

/// An externally supplied environment of builtin functions.
///
/// The dispatch loop hands the environment the builtin's id and the operand
/// stack; the environment pops whatever operands it needs and produces one
/// value or fails. Nothing is assumed of the result or of what the
/// environment does to the stack: the interpreter's contracts hold for every
/// outcome. An environment runs synchronously and must return before the
/// dispatch loop resumes.
pub trait Environment {
    fn eval(&mut self, id: usize, stack: &mut Stack) -> Result<Value, InterpreterError>;
}

} // verus!
