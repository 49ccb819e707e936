//! The runtime error taxonomy.
//!
//! Every error aborts the dispatch loop immediately and is handed to the
//! caller verbatim; there is no retry or recovery, and an interpreter must
//! not be reused after an error without full reconstruction.

use crate::value::{Expected, Value};
use vstd::prelude::*;

verus! {

/// A deliberately unimplemented extension point. Executing one of these
/// always fails fast, before any other mutation, rather than silently
/// doing nothing.
#[derive(Clone, Copy, Debug, PartialEq, Eq)]
pub enum Reserved {
    /// Store through a computed address (the indexed-store instruction).
    IndexedStore,
    /// The generic pattern-test instruction.
    PatternTest,
    /// The closure frame-entry instruction.
    ClosureEntry,
    /// The closure-construction instruction.
    ClosureConstruct,
    /// The closure-call instruction.
    ClosureCall,
    /// A load, store or address-of resolving a closure slot.
    ClosureLocation,
}

/// The first error a run raises; it aborts the run immediately.
///
/// Errors that involve an offending value carry the value itself: the host
/// chooses how to print it.
#[derive(Debug, PartialEq, Eq)]
pub enum InterpreterError {
    /// Too few operands on the stack for a pop, drop, dup, swap or take.
    StackUnderflow,
    /// A frame exit or frame-relative access with no active frame.
    CallStackUnderflow,
    /// A value's variant does not satisfy an operation's requirement.
    UnexpectedValue { expected: Expected, found: Value },
    /// A string/tag table lookup with an id the table does not hold.
    InvalidString(usize),
    /// An element, global or frame slot index out of bounds.
    IndexOutOfRange(usize),
    /// A jump target beyond the end of the code.
    InvalidInstructionPtr(usize),
    /// Integer division or remainder with a zero divisor.
    DivisionByZero,
    /// The explicit fail instruction: the source line marker it carries and
    /// the value it popped.
    Failure { line: usize, value: Value },
    /// A reserved instruction or addressing mode was executed.
    UnsupportedInstruction(Reserved),
}

} // verus!
