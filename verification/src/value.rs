//! The runtime value model: a closed set of tagged values.
//!
//! Scalar and marker variants copy by value. Structural variants (`Sexp`,
//! `Array`) hold a shared immutable payload behind `Rc`: no instruction ever
//! mutates a payload after construction, so handing the same payload to many
//! values is safe, and "mutation" is only ever rebinding a slot to a new value.

use crate::error::InterpreterError;
use std::rc::Rc;
use vstd::prelude::*;

verus! {

/// An addressing mode: which slot a load or store resolves against.
///
/// `Global` addresses the fixed global area; `Arg` and `Local` address the
/// current top call frame's captured arguments and local slots. `Closure`
/// slots belong to the unsupported closure extension and are always rejected
/// when dereferenced.
#[derive(Clone, Copy, Debug, PartialEq, Eq)]
pub enum Location {
    Global(usize),
    Arg(usize),
    Local(usize),
    Closure(usize),
}

/// A runtime value.
///
/// `Ref` is a capability to re-target a store later; it carries no guarantee
/// that the referenced slot exists and is bounds-checked again on use.
/// `ReturnAddress` records the instruction index a frame exit jumps back to.
/// `Empty` is the sentinel every uninitialized slot reads as.
#[derive(Debug, PartialEq, Eq)]
pub enum Value {
    Int(i64),
    Str(String),
    Sexp(usize, String, Rc<Vec<Value>>),
    Array(Rc<Vec<Value>>),
    Ref(Location),
    ReturnAddress(usize),
    Empty,
}

/// The variant an operation demanded of a value, carried in type-mismatch
/// errors next to the value actually found.
#[derive(Clone, Copy, Debug, PartialEq, Eq)]
pub enum Expected {
    Int,
    ReturnAddress,
    Ref,
    ArrayOrSexp,
}

/// Relies on `Rc::clone`: returns a new handle to the same shared payload.
#[verifier::external_body]
fn rc_clone(rc: &Rc<Vec<Value>>) -> (r: Rc<Vec<Value>>)
    ensures
        r == *rc,
{
    Rc::clone(rc)
}

impl Clone for Value {
    /// Cloning copies scalars and shares the structural payloads; the clone
    /// is indistinguishable from the original.
    fn clone(&self) -> (r: Self)
        ensures
            r == *self,
    {
        match self {
            Value::Int(n) => Value::Int(*n),
            Value::Str(s) => Value::Str(s.clone()),
            Value::Sexp(tag, label, items) => Value::Sexp(*tag, label.clone(), rc_clone(items)),
            Value::Array(items) => Value::Array(rc_clone(items)),
            Value::Ref(loc) => Value::Ref(*loc),
            Value::ReturnAddress(a) => Value::ReturnAddress(*a),
            Value::Empty => Value::Empty,
        }
    }
}

impl Value {
    /// Narrow to the integer payload; any other variant is a type mismatch,
    /// never a coercion.
    pub fn unwrap_int(self) -> (r: Result<i64, InterpreterError>)
        ensures
            self matches Value::Int(n) ==> r == Ok::<i64, InterpreterError>(n),
            !(self is Int) ==> r == Err::<i64, InterpreterError>(
                InterpreterError::UnexpectedValue { expected: Expected::Int, found: self },
            ),
    {
        match self {
            Value::Int(n) => Ok(n),
            other => Err(InterpreterError::UnexpectedValue {
                expected: Expected::Int,
                found: other,
            }),
        }
    }

    /// Narrow to the recorded return address.
    pub fn unwrap_return_addr(self) -> (r: Result<usize, InterpreterError>)
        ensures
            self matches Value::ReturnAddress(a) ==> r == Ok::<usize, InterpreterError>(a),
            !(self is ReturnAddress) ==> r == Err::<usize, InterpreterError>(
                InterpreterError::UnexpectedValue { expected: Expected::ReturnAddress, found: self },
            ),
    {
        match self {
            Value::ReturnAddress(a) => Ok(a),
            other => Err(InterpreterError::UnexpectedValue {
                expected: Expected::ReturnAddress,
                found: other,
            }),
        }
    }

    /// Narrow to the location a `Ref` points at.
    pub fn unwrap_ref(self) -> (r: Result<Location, InterpreterError>)
        ensures
            self matches Value::Ref(loc) ==> r == Ok::<Location, InterpreterError>(loc),
            !(self is Ref) ==> r == Err::<Location, InterpreterError>(
                InterpreterError::UnexpectedValue { expected: Expected::Ref, found: self },
            ),
    {
        match self {
            Value::Ref(loc) => Ok(loc),
            other => Err(InterpreterError::UnexpectedValue {
                expected: Expected::Ref,
                found: other,
            }),
        }
    }
}

} // verus!
