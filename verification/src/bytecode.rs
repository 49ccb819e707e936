//! The instruction set and the loaded program the interpreter executes.
//!
//! The loader/decoder that produces a program is an external collaborator:
//! the interpreter consumes an immutable instruction sequence, a string/tag
//! table indexed by integer id, and the declared size of the global area.

use crate::error::InterpreterError;
use crate::value::Location;
use vstd::prelude::*;

verus! {

/// A binary operation on two integer operands.
///
/// The relational operations yield `1` or `0`. `And` and `Or` are bitwise
/// tests of non-zero-ness, not short-circuit boolean operators.
#[derive(Clone, Copy, Debug, PartialEq, Eq)]
pub enum BinOp {
    Plus,
    Minus,
    Mul,
    Div,
    Mod,
    Lt,
    LtEq,
    Gt,
    GtEq,
    Eq,
    Neq,
    And,
    Or,
}

/// The condition of a conditional jump, tested against a popped integer.
#[derive(Clone, Copy, Debug, PartialEq, Eq)]
pub enum JumpCondition {
    Zero,
    NotZero,
}

/// One instruction. Jump targets, string/tag ids and slot counts are plain
/// indices; the reserved variants are deliberately unimplemented extension
/// points that always fail fast when executed.
#[derive(Clone, Copy, Debug, PartialEq, Eq)]
pub enum OpCode {
    /// Push an integer literal.
    Const(i64),
    /// Pop rhs, pop lhs, push the operation's result.
    BinOp(BinOp),
    /// Unconditional jump.
    Jmp(usize),
    /// Pop an integer; jump when the condition holds, else fall through.
    CJmp(JumpCondition, usize),
    /// Frame entry: pop a return address, capture `nargs` operands in pop
    /// order, open a frame with `nlocals` empty locals.
    Begin { nargs: usize, nlocals: usize },
    /// Frame exit: destroy the top frame and resume after its call site.
    End,
    /// Push a return address equal to this instruction's own position, then
    /// jump to `ptr`.
    Call { ptr: usize, nargs: usize },
    /// Pop a value and abort the run, reporting the given source line.
    Fail(usize),
    /// Pop and discard the top operand.
    Drop,
    /// Duplicate the top operand.
    Dup,
    /// Exchange the top two operands.
    Swap,
    /// Push the value read from a location.
    Ld(Location),
    /// Rebind a location to the top operand, leaving the operand in place.
    St(Location),
    /// Indirect store: pop a value, pop a `Ref`, rebind the referenced slot.
    Sti,
    /// Build a structured tuple of `size` operands under the tag's label.
    Sexp { tag: usize, size: usize },
    /// Push a string literal resolved from the string table.
    Str(usize),
    /// Push a `Ref` to a location, unvalidated until dereferenced.
    Lda(Location),
    /// Reserved: indexed store through a computed address.
    Sta,
    /// Pop an index, pop a tuple or array, push the addressed element.
    Elem,
    /// Invoke the builtin with this id and push its result.
    Builtin(usize),
    /// Pop a value; push `1` iff it is a tuple with this tag and size.
    Tag { tag: usize, size: usize },
    /// Pop a value; push `1` iff it is an array of this length.
    Array(usize),
    /// Reserved: generic pattern test.
    Patt,
    /// Reserved: closure frame entry.
    CBegin,
    /// Reserved: closure construction.
    Closure,
    /// Reserved: closure call.
    CallC,
    /// Source line marker: a no-op kept as diagnostic context.
    Line(usize),
    /// Unused return marker: a no-op.
    Ret,
}

/// A loaded program: the code, the string/tag table, and the size the
/// global area is given at interpreter construction.
pub struct ByteFile {
    pub code: Vec<OpCode>,
    pub strings: Vec<String>,
    pub global_area_size: usize,
}

impl ByteFile {
    /// Resolve a string/tag id against the table; ids the table does not
    /// hold are an error.
    pub fn string(&self, id: usize) -> (r: Result<String, InterpreterError>)
        ensures
            id < self.strings@.len() ==> r == Ok::<String, InterpreterError>(
                self.strings@[id as int],
            ),
            id >= self.strings@.len() ==> r == Err::<String, InterpreterError>(
                InterpreterError::InvalidString(id),
            ),
    {
        if id < self.strings.len() {
            Ok(self.strings[id].clone())
        } else {
            Err(InterpreterError::InvalidString(id))
        }
    }
}

} // verus!
