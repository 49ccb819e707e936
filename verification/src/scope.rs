//! The global scope: a slot array sized once at interpreter construction.

use crate::error::InterpreterError;
use crate::value::Value;
use vstd::prelude::*;

verus! {

/// A fixed-size array of value slots, all starting `Empty`. Reads and
/// writes are bounds-checked; the size never changes after construction.
pub struct Scope {
    slots: Vec<Value>,
}

impl View for Scope {
    type V = Seq<Value>;

    closed spec fn view(&self) -> Seq<Value> {
        self.slots@
    }
}

impl Scope {
    /// A scope of `size` slots, each reading as `Empty` until written.
    pub fn new(size: usize) -> (r: Scope)
        ensures
            r@.len() == size,
            forall|i: int| 0 <= i < size ==> r@[i] == Value::Empty,
    {
        let mut slots: Vec<Value> = Vec::new();
        let mut i: usize = 0;
        while i < size
            invariant
                i <= size,
                slots@.len() == i,
                forall|k: int| 0 <= k < i ==> slots@[k] == Value::Empty,
            decreases size - i,
        {
            slots.push(Value::Empty);
            i = i + 1;
        }
        Scope { slots }
    }

    /// Read the slot at `index`; out-of-range indices are an error, an
    /// unwritten in-range slot reads as `Empty`, never as an error.
    pub fn lookup(&self, index: usize) -> (r: Result<Value, InterpreterError>)
        ensures
            index < self@.len() ==> r == Ok::<Value, InterpreterError>(self@[index as int]),
            index >= self@.len() ==> r == Err::<Value, InterpreterError>(
                InterpreterError::IndexOutOfRange(index),
            ),
    {
        if index < self.slots.len() {
            Ok(self.slots[index].clone())
        } else {
            Err(InterpreterError::IndexOutOfRange(index))
        }
    }

    /// Rebind the slot at `index` to `val`; out-of-range indices are an
    /// error and leave the scope unchanged.
    pub fn set(&mut self, index: usize, val: Value) -> (r: Result<(), InterpreterError>)
        ensures
            index < old(self)@.len() ==> r == Ok::<(), InterpreterError>(()) && final(self)@
                == old(self)@.update(index as int, val),
            index >= old(self)@.len() ==> r == Err::<(), InterpreterError>(
                InterpreterError::IndexOutOfRange(index),
            ) && final(self)@ == old(self)@,
    {
        if index < self.slots.len() {
            self.slots[index] = val;
            Ok(())
        } else {
            Err(InterpreterError::IndexOutOfRange(index))
        }
    }
}

} // verus!
