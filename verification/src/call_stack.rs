//! The call frame stack: one frame per active call.
//!
//! A frame owns the arguments captured at frame entry, a fixed number of
//! local slots (all starting `Empty`), and the return address the matching
//! frame exit jumps back to. Only the top frame is addressable.

use crate::error::InterpreterError;
use crate::value::Value;
use vstd::prelude::*;

verus! {

/// One call frame. Argument and local slot counts are fixed at creation.
pub struct Frame {
    pub args: Vec<Value>,
    pub locals: Vec<Value>,
    pub ret: usize,
}

/// The stack of active frames; the last element of the view is the top,
/// currently addressable frame.
pub struct CallStack {
    frames: Vec<Frame>,
}

impl View for CallStack {
    type V = Seq<Frame>;

    closed spec fn view(&self) -> Seq<Frame> {
        self.frames@
    }
}

impl CallStack {
    /// No active frames: any frame-relative access is an error until the
    /// first frame entry.
    pub fn new() -> (r: CallStack)
        ensures
            r@ == Seq::<Frame>::empty(),
    {
        CallStack { frames: Vec::new() }
    }

    /// Enter a frame: the captured arguments as given, `nlocals` slots all
    /// `Empty`, and the return address stored verbatim.
    pub fn begin(&mut self, args: Vec<Value>, nlocals: usize, ret: usize)
        ensures
            final(self)@.len() == old(self)@.len() + 1,
            final(self)@.drop_last() == old(self)@,
            final(self)@.last().args == args,
            final(self)@.last().locals@.len() == nlocals,
            forall|k: int| 0 <= k < nlocals ==> final(self)@.last().locals@[k] == Value::Empty,
            final(self)@.last().ret == ret,
    {
        let mut locals: Vec<Value> = Vec::new();
        let mut i: usize = 0;
        while i < nlocals
            invariant
                i <= nlocals,
                locals@.len() == i,
                forall|k: int| 0 <= k < i ==> locals@[k] == Value::Empty,
            decreases nlocals - i,
        {
            locals.push(Value::Empty);
            i = i + 1;
        }
        self.frames.push(Frame { args, locals, ret });
        proof {
            assert(self.frames@.drop_last() =~= old(self)@);
        }
    }

    /// Leave the top frame, destroying it and yielding its stored return
    /// address; underflows when no frame is active.
    pub fn end(&mut self) -> (r: Result<usize, InterpreterError>)
        ensures
            old(self)@.len() == 0 ==> r == Err::<usize, InterpreterError>(
                InterpreterError::CallStackUnderflow,
            ) && final(self)@ == old(self)@,
            old(self)@.len() > 0 ==> r == Ok::<usize, InterpreterError>(old(self)@.last().ret)
                && final(self)@ == old(self)@.drop_last(),
    {
        match self.frames.pop() {
            Some(frame) => Ok(frame.ret),
            None => Err(InterpreterError::CallStackUnderflow),
        }
    }

    /// Read argument slot `index` of the top frame.
    pub fn arg(&self, index: usize) -> (r: Result<Value, InterpreterError>)
        ensures
            self@.len() == 0 ==> r == Err::<Value, InterpreterError>(
                InterpreterError::CallStackUnderflow,
            ),
            self@.len() > 0 && index < self@.last().args@.len() ==> r == Ok::<
                Value,
                InterpreterError,
            >(self@.last().args@[index as int]),
            self@.len() > 0 && index >= self@.last().args@.len() ==> r == Err::<
                Value,
                InterpreterError,
            >(InterpreterError::IndexOutOfRange(index)),
    {
        if self.frames.len() == 0 {
            return Err(InterpreterError::CallStackUnderflow);
        }
        let frame = &self.frames[self.frames.len() - 1];
        if index < frame.args.len() {
            Ok(frame.args[index].clone())
        } else {
            Err(InterpreterError::IndexOutOfRange(index))
        }
    }

    /// Read local slot `index` of the top frame; an unwritten slot reads as
    /// `Empty`, never as an error.
    pub fn local(&self, index: usize) -> (r: Result<Value, InterpreterError>)
        ensures
            self@.len() == 0 ==> r == Err::<Value, InterpreterError>(
                InterpreterError::CallStackUnderflow,
            ),
            self@.len() > 0 && index < self@.last().locals@.len() ==> r == Ok::<
                Value,
                InterpreterError,
            >(self@.last().locals@[index as int]),
            self@.len() > 0 && index >= self@.last().locals@.len() ==> r == Err::<
                Value,
                InterpreterError,
            >(InterpreterError::IndexOutOfRange(index)),
    {
        if self.frames.len() == 0 {
            return Err(InterpreterError::CallStackUnderflow);
        }
        let frame = &self.frames[self.frames.len() - 1];
        if index < frame.locals.len() {
            Ok(frame.locals[index].clone())
        } else {
            Err(InterpreterError::IndexOutOfRange(index))
        }
    }

    /// Rebind argument slot `index` of the top frame to `val`. On any error
    /// the frames are left unchanged.
    pub fn set_arg(&mut self, index: usize, val: Value) -> (r: Result<(), InterpreterError>)
        ensures
            old(self)@.len() == 0 ==> r == Err::<(), InterpreterError>(
                InterpreterError::CallStackUnderflow,
            ) && final(self)@ == old(self)@,
            old(self)@.len() > 0 && index >= old(self)@.last().args@.len() ==> r == Err::<
                (),
                InterpreterError,
            >(InterpreterError::IndexOutOfRange(index)) && final(self)@ == old(self)@,
            old(self)@.len() > 0 && index < old(self)@.last().args@.len() ==> {
                &&& r == Ok::<(), InterpreterError>(())
                &&& final(self)@.len() == old(self)@.len()
                &&& final(self)@.drop_last() == old(self)@.drop_last()
                &&& final(self)@.last().args@ == old(self)@.last().args@.update(index as int, val)
                &&& final(self)@.last().locals == old(self)@.last().locals
                &&& final(self)@.last().ret == old(self)@.last().ret
            },
    {
        if self.frames.len() == 0 {
            return Err(InterpreterError::CallStackUnderflow);
        }
        let top = self.frames.len() - 1;
        if index < self.frames[top].args.len() {
            self.frames[top].args[index] = val;
            proof {
                assert(self.frames@.drop_last() =~= old(self)@.drop_last());
            }
            Ok(())
        } else {
            Err(InterpreterError::IndexOutOfRange(index))
        }
    }

    /// Rebind local slot `index` of the top frame to `val`. On any error
    /// the frames are left unchanged.
    pub fn set_local(&mut self, index: usize, val: Value) -> (r: Result<(), InterpreterError>)
        ensures
            old(self)@.len() == 0 ==> r == Err::<(), InterpreterError>(
                InterpreterError::CallStackUnderflow,
            ) && final(self)@ == old(self)@,
            old(self)@.len() > 0 && index >= old(self)@.last().locals@.len() ==> r == Err::<
                (),
                InterpreterError,
            >(InterpreterError::IndexOutOfRange(index)) && final(self)@ == old(self)@,
            old(self)@.len() > 0 && index < old(self)@.last().locals@.len() ==> {
                &&& r == Ok::<(), InterpreterError>(())
                &&& final(self)@.len() == old(self)@.len()
                &&& final(self)@.drop_last() == old(self)@.drop_last()
                &&& final(self)@.last().locals@ == old(self)@.last().locals@.update(
                    index as int,
                    val,
                )
                &&& final(self)@.last().args == old(self)@.last().args
                &&& final(self)@.last().ret == old(self)@.last().ret
            },
    {
        if self.frames.len() == 0 {
            return Err(InterpreterError::CallStackUnderflow);
        }
        let top = self.frames.len() - 1;
        if index < self.frames[top].locals.len() {
            self.frames[top].locals[index] = val;
            proof {
                assert(self.frames@.drop_last() =~= old(self)@.drop_last());
            }
            Ok(())
        } else {
            Err(InterpreterError::IndexOutOfRange(index))
        }
    }
}

} // verus!
