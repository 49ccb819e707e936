//! The operand stack: LIFO scratch space for intermediate values and
//! call-site bookkeeping.

use crate::error::InterpreterError;
use crate::value::Value;
use vstd::prelude::*;

verus! {

/// The operand stack. Its view is the sequence of values from bottom to
/// top: the last element of the view is the top of the stack.
pub struct Stack {
    items: Vec<Value>,
}

impl View for Stack {
    type V = Seq<Value>;

    closed spec fn view(&self) -> Seq<Value> {
        self.items@
    }
}

impl Stack {
    /// An empty stack.
    pub fn new() -> (r: Stack)
        ensures
            r@ == Seq::<Value>::empty(),
    {
        Stack { items: Vec::new() }
    }

    /// Push `v` on top.
    pub fn push(&mut self, v: Value)
        ensures
            final(self)@ == old(self)@.push(v),
    {
        self.items.push(v);
    }

    /// Pop the top value; underflows on an empty stack.
    pub fn pop(&mut self) -> (r: Result<Value, InterpreterError>)
        ensures
            old(self)@.len() == 0 ==> r == Err::<Value, InterpreterError>(
                InterpreterError::StackUnderflow,
            ) && final(self)@ == old(self)@,
            old(self)@.len() > 0 ==> r == Ok::<Value, InterpreterError>(old(self)@.last())
                && final(self)@ == old(self)@.drop_last(),
    {
        match self.items.pop() {
            Some(v) => Ok(v),
            None => Err(InterpreterError::StackUnderflow),
        }
    }

    /// Pop the top value and discard it.
    pub fn drop(&mut self) -> (r: Result<(), InterpreterError>)
        ensures
            old(self)@.len() == 0 ==> r == Err::<(), InterpreterError>(
                InterpreterError::StackUnderflow,
            ) && final(self)@ == old(self)@,
            old(self)@.len() > 0 ==> r == Ok::<(), InterpreterError>(())
                && final(self)@ == old(self)@.drop_last(),
    {
        match self.items.pop() {
            Some(_) => Ok(()),
            None => Err(InterpreterError::StackUnderflow),
        }
    }

    /// Duplicate the top value.
    pub fn dup(&mut self) -> (r: Result<(), InterpreterError>)
        ensures
            old(self)@.len() == 0 ==> r == Err::<(), InterpreterError>(
                InterpreterError::StackUnderflow,
            ) && final(self)@ == old(self)@,
            old(self)@.len() > 0 ==> r == Ok::<(), InterpreterError>(())
                && final(self)@ == old(self)@.push(old(self)@.last()),
    {
        if self.items.len() == 0 {
            Err(InterpreterError::StackUnderflow)
        } else {
            let v = self.items[self.items.len() - 1].clone();
            self.items.push(v);
            Ok(())
        }
    }

    /// Exchange the top two values.
    pub fn swap(&mut self) -> (r: Result<(), InterpreterError>)
        ensures
            old(self)@.len() < 2 ==> r == Err::<(), InterpreterError>(
                InterpreterError::StackUnderflow,
            ) && final(self)@ == old(self)@,
            old(self)@.len() >= 2 ==> r == Ok::<(), InterpreterError>(()) && final(self)@
                == old(self)@.update(old(self)@.len() - 2, old(self)@.last()).update(
                old(self)@.len() - 1,
                old(self)@[old(self)@.len() - 2],
            ),
    {
        if self.items.len() < 2 {
            Err(InterpreterError::StackUnderflow)
        } else {
            let top = self.items.pop().unwrap();
            let next = self.items.pop().unwrap();
            self.items.push(top);
            self.items.push(next);
            proof {
                assert(self.items@ =~= old(self)@.update(old(self)@.len() - 2, old(self)@.last())
                    .update(old(self)@.len() - 1, old(self)@[old(self)@.len() - 2]));
            }
            Ok(())
        }
    }

    /// Pop exactly `n` values, atomically: with fewer than `n` present the
    /// stack is left unmodified. The result is in pop order, most recently
    /// pushed first; callers needing declaration order reverse explicitly.
    pub fn take(&mut self, n: usize) -> (r: Result<Vec<Value>, InterpreterError>)
        ensures
            old(self)@.len() < n ==> r == Err::<Vec<Value>, InterpreterError>(
                InterpreterError::StackUnderflow,
            ) && final(self)@ == old(self)@,
            old(self)@.len() >= n ==> {
                &&& r matches Ok(vals)
                &&& vals@.len() == n
                &&& forall|k: int|
                    0 <= k < n ==> vals@[k] == old(self)@[old(self)@.len() - 1 - k]
                &&& final(self)@ == old(self)@.subrange(0, old(self)@.len() - n)
            },
    {
        if self.items.len() < n {
            return Err(InterpreterError::StackUnderflow);
        }
        let mut out: Vec<Value> = Vec::new();
        let mut i: usize = 0;
        while i < n
            invariant
                i <= n,
                n <= old(self)@.len(),
                self.items@ == old(self)@.subrange(0, old(self)@.len() - i),
                out@.len() == i,
                forall|k: int| 0 <= k < i ==> out@[k] == old(self)@[old(self)@.len() - 1 - k],
            decreases n - i,
        {
            let v = self.items.pop().unwrap();
            out.push(v);
            i = i + 1;
            proof {
                assert(self.items@ =~= old(self)@.subrange(0, old(self)@.len() - i));
            }
        }
        Ok(out)
    }

    /// How many values the stack holds.
    pub fn len(&self) -> (r: usize)
        ensures
            r == self@.len(),
    {
        self.items.len()
    }
}

/// Push/pop law: pushing a value and popping again returns that value and
/// leaves the stack as it was, at its old depth. Stated over the views that
/// `push` and `pop` promise: after a push the top is the pushed value, and
/// dropping it restores the original sequence.
pub proof fn push_pop_round_trip(s: Seq<Value>, v: Value)
    ensures
        s.push(v).last() == v,
        s.push(v).drop_last() == s,
        s.push(v).len() == s.len() + 1,
{
    assert(s.push(v).drop_last() =~= s);
}

} // verus!
