//! The dispatch loop and its small-step semantics.
//!
//! `step_ok` and `step_err` spell out, instruction by instruction, what one
//! fetch–execute cycle does: `step_ok` relates the machine state before a
//! successful cycle to the state after it, and `step_err` says exactly which
//! error an instruction raises and on which states. `Interpreter::step`
//! implements one cycle against these relations and `Interpreter::run`
//! chains them.

use crate::builtin::Environment;
use crate::bytecode::{BinOp, ByteFile, JumpCondition, OpCode};
use crate::call_stack::{CallStack, Frame};
use crate::error::{InterpreterError, Reserved};
use crate::scope::Scope;
use crate::stack::Stack;
use crate::value::{Expected, Location, Value};
use std::rc::Rc;
use vstd::prelude::*;
use vstd::wrapping::i64_specs;

verus! {

/// The mutable machine state, abstractly: the instruction pointer, the
/// operand stack bottom-to-top, the call frames bottom-to-top, and the
/// global slots.
#[verifier::ext_equal]
pub struct State {
    pub ip: int,
    pub stack: Seq<Value>,
    pub frames: Seq<Frame>,
    pub globals: Seq<Value>,
}

/// Truncated (round-toward-zero) integer division, as the division
/// instruction computes it on a nonzero divisor; the one overflowing case
/// (the minimum value divided by minus one) wraps to the minimum value.
pub open spec fn div_wrapped(l: i64, r: i64) -> i64
    recommends
        r != 0,
{
    match l.checked_div(r) {
        Some(q) => q,
        None => i64::MIN,
    }
}

/// Truncated integer remainder on a nonzero divisor; the one overflowing
/// case (the minimum value modulo minus one) wraps to zero.
pub open spec fn rem_wrapped(l: i64, r: i64) -> i64
    recommends
        r != 0,
{
    match l.checked_rem(r) {
        Some(q) => q,
        None => 0,
    }
}

/// What a binary operation yields on two integer operands. Arithmetic
/// wraps on overflow; the relational operations yield `1` or `0`; `And`
/// and `Or` are bitwise tests of non-zero-ness.
pub open spec fn bin_op_denotes(op: BinOp, l: i64, r: i64) -> i64
    recommends
        !((op is Div || op is Mod) && r == 0),
{
    match op {
        BinOp::Plus => i64_specs::wrapping_add(l, r),
        BinOp::Minus => i64_specs::wrapping_sub(l, r),
        BinOp::Mul => i64_specs::wrapping_mul(l, r),
        BinOp::Div => div_wrapped(l, r),
        BinOp::Mod => rem_wrapped(l, r),
        BinOp::Lt => if l < r { 1 } else { 0 },
        BinOp::LtEq => if l <= r { 1 } else { 0 },
        BinOp::Gt => if l > r { 1 } else { 0 },
        BinOp::GtEq => if l >= r { 1 } else { 0 },
        BinOp::Eq => if l == r { 1 } else { 0 },
        BinOp::Neq => if l != r { 1 } else { 0 },
        BinOp::And => if (l & r) != 0 { 1 } else { 0 },
        BinOp::Or => if (l | r) != 0 { 1 } else { 0 },
    }
}

/// The full outcome of applying a binary operation to two popped values:
/// both operands must be integers (the left one is narrowed first), and a
/// zero divisor is a division-by-zero error.
pub open spec fn eval_bin_op_spec(op: BinOp, lhs: Value, rhs: Value) -> Result<
    Value,
    InterpreterError,
> {
    if !(lhs is Int) {
        Err(InterpreterError::UnexpectedValue { expected: Expected::Int, found: lhs })
    } else if !(rhs is Int) {
        Err(InterpreterError::UnexpectedValue { expected: Expected::Int, found: rhs })
    } else if (op is Div || op is Mod) && rhs->Int_0 == 0 {
        Err(InterpreterError::DivisionByZero)
    } else {
        Ok(Value::Int(bin_op_denotes(op, lhs->Int_0, rhs->Int_0)))
    }
}

/// Apply a binary operation to the two popped operands, the right-hand one
/// popped first by the caller.
pub fn eval_bin_op(op: BinOp, lhs: Value, rhs: Value) -> (r: Result<Value, InterpreterError>)
    ensures
        r == eval_bin_op_spec(op, lhs, rhs),
{
    let l = lhs.unwrap_int()?;
    let rv = rhs.unwrap_int()?;
    let res: i64 = match op {
        BinOp::Plus => l.wrapping_add(rv),
        BinOp::Minus => l.wrapping_sub(rv),
        BinOp::Mul => l.wrapping_mul(rv),
        BinOp::Div => {
            if rv == 0 {
                return Err(InterpreterError::DivisionByZero);
            }
            match l.checked_div(rv) {
                Some(q) => q,
                None => i64::MIN,
            }
        }
        BinOp::Mod => {
            if rv == 0 {
                return Err(InterpreterError::DivisionByZero);
            }
            match l.checked_rem(rv) {
                Some(q) => q,
                None => 0,
            }
        }
        BinOp::Lt => if l < rv {
            1
        } else {
            0
        },
        BinOp::LtEq => if l <= rv {
            1
        } else {
            0
        },
        BinOp::Gt => if l > rv {
            1
        } else {
            0
        },
        BinOp::GtEq => if l >= rv {
            1
        } else {
            0
        },
        BinOp::Eq => if l == rv {
            1
        } else {
            0
        },
        BinOp::Neq => if l != rv {
            1
        } else {
            0
        },
        BinOp::And => if (l & rv) != 0 {
            1
        } else {
            0
        },
        BinOp::Or => if (l | rv) != 0 {
            1
        } else {
            0
        },
    };
    Ok(Value::Int(res))
}

/// The relational and logical operations yield only `0` or `1`, whatever
/// their operands.
pub proof fn relational_yields_flag(op: BinOp, l: i64, r: i64)
    requires
        op is Lt || op is LtEq || op is Gt || op is GtEq || op is Eq || op is Neq || op is And
            || op is Or,
    ensures
        bin_op_denotes(op, l, r) == 0 || bin_op_denotes(op, l, r) == 1,
{
}

/// What reading `loc` yields in state `s`: the global or top-frame slot it
/// addresses, an out-of-range error on a bad index, a call-stack underflow
/// on a frame-relative read with no active frame, and a rejection of
/// closure slots.
pub open spec fn lookup_spec(s: State, loc: Location) -> Result<Value, InterpreterError> {
    match loc {
        Location::Global(i) => if i < s.globals.len() {
            Ok(s.globals[i as int])
        } else {
            Err(InterpreterError::IndexOutOfRange(i))
        },
        Location::Closure(_) => Err(
            InterpreterError::UnsupportedInstruction(Reserved::ClosureLocation),
        ),
        Location::Arg(i) => if s.frames.len() == 0 {
            Err(InterpreterError::CallStackUnderflow)
        } else if i < s.frames.last().args@.len() {
            Ok(s.frames.last().args@[i as int])
        } else {
            Err(InterpreterError::IndexOutOfRange(i))
        },
        Location::Local(i) => if s.frames.len() == 0 {
            Err(InterpreterError::CallStackUnderflow)
        } else if i < s.frames.last().locals@.len() {
            Ok(s.frames.last().locals@[i as int])
        } else {
            Err(InterpreterError::IndexOutOfRange(i))
        },
    }
}

/// Whether rebinding `loc` in state `s` succeeds, and with which error it
/// fails otherwise; a store resolves against the same slot a load does.
pub open spec fn set_allowed(s: State, loc: Location) -> Result<(), InterpreterError> {
    match loc {
        Location::Closure(_) => Err(
            InterpreterError::UnsupportedInstruction(Reserved::ClosureLocation),
        ),
        Location::Global(i) => if i < s.globals.len() {
            Ok(())
        } else {
            Err(InterpreterError::IndexOutOfRange(i))
        },
        Location::Arg(i) => if s.frames.len() == 0 {
            Err(InterpreterError::CallStackUnderflow)
        } else if i < s.frames.last().args@.len() {
            Ok(())
        } else {
            Err(InterpreterError::IndexOutOfRange(i))
        },
        Location::Local(i) => if s.frames.len() == 0 {
            Err(InterpreterError::CallStackUnderflow)
        } else if i < s.frames.last().locals@.len() {
            Ok(())
        } else {
            Err(InterpreterError::IndexOutOfRange(i))
        },
    }
}

/// The frames after the top frame's argument slot `i` was rebound to `v`:
/// every other frame and every other part of the top frame is kept.
pub open spec fn top_arg_updated(pre: Seq<Frame>, post: Seq<Frame>, i: int, v: Value) -> bool {
    &&& pre.len() > 0
    &&& post.len() == pre.len()
    &&& post.drop_last() == pre.drop_last()
    &&& post.last().args@ == pre.last().args@.update(i, v)
    &&& post.last().locals == pre.last().locals
    &&& post.last().ret == pre.last().ret
}

/// The frames after the top frame's local slot `i` was rebound to `v`.
pub open spec fn top_local_updated(pre: Seq<Frame>, post: Seq<Frame>, i: int, v: Value) -> bool {
    &&& pre.len() > 0
    &&& post.len() == pre.len()
    &&& post.drop_last() == pre.drop_last()
    &&& post.last().locals@ == pre.last().locals@.update(i, v)
    &&& post.last().args == pre.last().args
    &&& post.last().ret == pre.last().ret
}

/// How a successful store to `loc` changes the slots: exactly the addressed
/// slot is rebound to `v`; the operand stack and instruction pointer are
/// not the store's business.
pub open spec fn set_slots_rel(pre: State, loc: Location, v: Value, post: State) -> bool {
    match loc {
        Location::Global(i) => post.globals == pre.globals.update(i as int, v) && post.frames
            == pre.frames,
        Location::Arg(i) => post.globals == pre.globals && top_arg_updated(
            pre.frames,
            post.frames,
            i as int,
            v,
        ),
        Location::Local(i) => post.globals == pre.globals && top_local_updated(
            pre.frames,
            post.frames,
            i as int,
            v,
        ),
        Location::Closure(_) => false,
    }
}

/// The frame a frame entry creates from `stack`: the popped return address
/// stored verbatim, `nargs` operands captured in pop order (no reversal:
/// argument 0 is the most recently pushed operand below the return
/// address), and `nlocals` locals all reading `Empty`.
pub open spec fn fresh_frame(
    f: Frame,
    stack: Seq<Value>,
    nargs: int,
    nlocals: int,
    ra: usize,
) -> bool {
    &&& f.args@.len() == nargs
    &&& (forall|k: int| 0 <= k < nargs ==> f.args@[k] == stack[stack.len() - 2 - k])
    &&& f.locals@.len() == nlocals
    &&& (forall|k: int| 0 <= k < nlocals ==> f.locals@[k] == Value::Empty)
    &&& f.ret == ra
}

/// The payload a container exposes to element access: tuples and arrays
/// expose their shared sequence, every other value is a type mismatch.
pub open spec fn elem_items(v: Value) -> Option<Seq<Value>> {
    match v {
        Value::Sexp(_, _, items) => Some(items@),
        Value::Array(items) => Some(items@),
        _ => None,
    }
}

/// The index an out-of-range element access reports: the requested index,
/// clamped into the range a slot index can express.
pub open spec fn elem_oob_index(i: i64) -> usize {
    if i < 0 {
        0
    } else if i > usize::MAX {
        usize::MAX
    } else {
        i as usize
    }
}

/// Whether a value passes the tag test: a structured tuple with exactly
/// this tag id and this element count.
pub open spec fn tag_matches(v: Value, tag: usize, size: usize) -> bool {
    match v {
        Value::Sexp(t, _, items) => t == tag && items@.len() == size,
        _ => false,
    }
}

/// Whether a value passes the array test: an array of exactly this length.
pub open spec fn array_matches(v: Value, size: usize) -> bool {
    match v {
        Value::Array(items) => items@.len() == size,
        _ => false,
    }
}

/// One successful fetch–execute cycle: the instruction at `pre.ip` relates
/// `pre` to `post` as the instruction table says. Unless the instruction
/// redirects the instruction pointer (jumps, calls and the return path),
/// it advances by one. The reserved instructions and the fail instruction
/// never succeed.
pub open spec fn step_ok(code: Seq<OpCode>, strings: Seq<String>, pre: State, post: State) -> bool
    recommends
        0 <= pre.ip < code.len(),
{
    let n = pre.stack.len() as int;
    match code[pre.ip] {
        OpCode::Const(x) => post == State {
            ip: pre.ip + 1,
            stack: pre.stack.push(Value::Int(x)),
            frames: pre.frames,
            globals: pre.globals,
        },
        OpCode::BinOp(op) => {
            &&& n >= 2
            &&& pre.stack[n - 2] matches Value::Int(l)
            &&& pre.stack[n - 1] matches Value::Int(r)
            &&& !((op is Div || op is Mod) && r == 0)
            &&& post == State {
                ip: pre.ip + 1,
                stack: pre.stack.subrange(0, n - 2).push(Value::Int(bin_op_denotes(op, l, r))),
                frames: pre.frames,
                globals: pre.globals,
            }
        },
        OpCode::Jmp(t) => {
            &&& t <= code.len()
            &&& post == State { ip: t as int, stack: pre.stack, frames: pre.frames, globals: pre.globals }
        },
        OpCode::CJmp(cond, t) => {
            &&& n >= 1
            &&& pre.stack[n - 1] matches Value::Int(v)
            &&& {
                let taken = (cond is Zero && v == 0) || (cond is NotZero && v != 0);
                if taken {
                    &&& t <= code.len()
                    &&& post == State {
                        ip: t as int,
                        stack: pre.stack.drop_last(),
                        frames: pre.frames,
                        globals: pre.globals,
                    }
                } else {
                    post == State {
                        ip: pre.ip + 1,
                        stack: pre.stack.drop_last(),
                        frames: pre.frames,
                        globals: pre.globals,
                    }
                }
            }
        },
        OpCode::Begin { nargs, nlocals } => {
            &&& n >= 1
            &&& pre.stack[n - 1] matches Value::ReturnAddress(ra)
            &&& n - 1 >= nargs
            &&& post.ip == pre.ip + 1
            &&& post.stack == pre.stack.subrange(0, n - 1 - nargs)
            &&& post.globals == pre.globals
            &&& post.frames.len() == pre.frames.len() + 1
            &&& post.frames.drop_last() == pre.frames
            &&& fresh_frame(post.frames.last(), pre.stack, nargs as int, nlocals as int, ra)
        },
        OpCode::End => {
            &&& pre.frames.len() >= 1
            &&& pre.frames.last().ret <= code.len()
            &&& post == State {
                ip: pre.frames.last().ret + 1,
                stack: pre.stack,
                frames: pre.frames.drop_last(),
                globals: pre.globals,
            }
        },
        OpCode::Call { ptr, nargs } => {
            &&& ptr <= code.len()
            &&& post == State {
                ip: ptr as int,
                stack: pre.stack.push(Value::ReturnAddress(pre.ip as usize)),
                frames: pre.frames,
                globals: pre.globals,
            }
        },
        OpCode::Fail(_) => false,
        OpCode::Drop => n >= 1 && post == State {
            ip: pre.ip + 1,
            stack: pre.stack.drop_last(),
            frames: pre.frames,
            globals: pre.globals,
        },
        OpCode::Dup => n >= 1 && post == State {
            ip: pre.ip + 1,
            stack: pre.stack.push(pre.stack.last()),
            frames: pre.frames,
            globals: pre.globals,
        },
        OpCode::Swap => n >= 2 && post == State {
            ip: pre.ip + 1,
            stack: pre.stack.update(n - 2, pre.stack[n - 1]).update(n - 1, pre.stack[n - 2]),
            frames: pre.frames,
            globals: pre.globals,
        },
        OpCode::Ld(loc) => {
            &&& lookup_spec(pre, loc) matches Ok(v)
            &&& post == State {
                ip: pre.ip + 1,
                stack: pre.stack.push(v),
                frames: pre.frames,
                globals: pre.globals,
            }
        },
        OpCode::St(loc) => {
            &&& n >= 1
            &&& set_allowed(pre, loc) is Ok
            &&& post.ip == pre.ip + 1
            &&& post.stack == pre.stack
            &&& set_slots_rel(pre, loc, pre.stack[n - 1], post)
        },
        OpCode::Sti => {
            &&& n >= 2
            &&& pre.stack[n - 2] matches Value::Ref(loc)
            &&& set_allowed(pre, loc) is Ok
            &&& post.ip == pre.ip + 1
            &&& post.stack == pre.stack.subrange(0, n - 2)
            &&& set_slots_rel(pre, loc, pre.stack[n - 1], post)
        },
        OpCode::Sexp { tag, size } => {
            &&& n >= size
            &&& tag < strings.len()
            &&& post.ip == pre.ip + 1
            &&& post.frames == pre.frames
            &&& post.globals == pre.globals
            &&& post.stack.len() == n - size + 1
            &&& post.stack.drop_last() == pre.stack.subrange(0, n - size)
            &&& post.stack.last() matches Value::Sexp(t, label, items) && t == tag && label
                == strings[tag as int] && items@ == pre.stack.subrange(n - size, n)
        },
        OpCode::Str(id) => {
            &&& id < strings.len()
            &&& post == State {
                ip: pre.ip + 1,
                stack: pre.stack.push(Value::Str(strings[id as int])),
                frames: pre.frames,
                globals: pre.globals,
            }
        },
        OpCode::Lda(loc) => post == State {
            ip: pre.ip + 1,
            stack: pre.stack.push(Value::Ref(loc)),
            frames: pre.frames,
            globals: pre.globals,
        },
        OpCode::Sta => false,
        OpCode::Elem => {
            &&& n >= 2
            &&& pre.stack[n - 1] matches Value::Int(i)
            &&& elem_items(pre.stack[n - 2]) matches Some(items)
            &&& 0 <= i < items.len()
            &&& post == State {
                ip: pre.ip + 1,
                stack: pre.stack.subrange(0, n - 2).push(items[i as int]),
                frames: pre.frames,
                globals: pre.globals,
            }
        },
        OpCode::Builtin(_) => {
            &&& post.ip == pre.ip + 1
            &&& post.frames == pre.frames
            &&& post.globals == pre.globals
            &&& exists|mid: Seq<Value>, v: Value| post.stack == mid.push(v)
        },
        OpCode::Tag { tag, size } => {
            &&& n >= 1
            &&& post == State {
                ip: pre.ip + 1,
                stack: pre.stack.drop_last().push(
                    Value::Int(
                        if tag_matches(pre.stack[n - 1], tag, size) {
                            1
                        } else {
                            0
                        },
                    ),
                ),
                frames: pre.frames,
                globals: pre.globals,
            }
        },
        OpCode::Array(size) => {
            &&& n >= 1
            &&& post == State {
                ip: pre.ip + 1,
                stack: pre.stack.drop_last().push(
                    Value::Int(
                        if array_matches(pre.stack[n - 1], size) {
                            1
                        } else {
                            0
                        },
                    ),
                ),
                frames: pre.frames,
                globals: pre.globals,
            }
        },
        OpCode::Patt => false,
        OpCode::CBegin => false,
        OpCode::Closure => false,
        OpCode::CallC => false,
        OpCode::Line(_) => post == State {
            ip: pre.ip + 1,
            stack: pre.stack,
            frames: pre.frames,
            globals: pre.globals,
        },
        OpCode::Ret => post == State {
            ip: pre.ip + 1,
            stack: pre.stack,
            frames: pre.frames,
            globals: pre.globals,
        },
    }
}

/// One failing fetch–execute cycle: on which states the instruction at
/// `pre.ip` raises which error — the first error aborts the run. Where the
/// failure happens before any mutation (the reserved instructions, bad
/// loads, bad jump targets, an atomically failing take), the post state is
/// pinned unchanged; after an aborted run the machine state otherwise
/// carries no defined meaning.
pub open spec fn step_err(
    code: Seq<OpCode>,
    strings: Seq<String>,
    pre: State,
    post: State,
    e: InterpreterError,
) -> bool
    recommends
        0 <= pre.ip < code.len(),
{
    let n = pre.stack.len() as int;
    match code[pre.ip] {
        OpCode::Const(_) => false,
        OpCode::BinOp(op) => if n < 2 {
            e == InterpreterError::StackUnderflow
        } else {
            eval_bin_op_spec(op, pre.stack[n - 2], pre.stack[n - 1]) == Err::<
                Value,
                InterpreterError,
            >(e)
        },
        OpCode::Jmp(t) => t > code.len() && e == InterpreterError::InvalidInstructionPtr(t) && post
            == pre,
        OpCode::CJmp(cond, t) => if n < 1 {
            e == InterpreterError::StackUnderflow && post == pre
        } else if !(pre.stack[n - 1] is Int) {
            e == InterpreterError::UnexpectedValue {
                expected: Expected::Int,
                found: pre.stack[n - 1],
            }
        } else {
            let v = pre.stack[n - 1]->Int_0;
            let taken = (cond is Zero && v == 0) || (cond is NotZero && v != 0);
            taken && t > code.len() && e == InterpreterError::InvalidInstructionPtr(t)
        },
        OpCode::Begin { nargs, nlocals } => if n < 1 {
            e == InterpreterError::StackUnderflow && post == pre
        } else if !(pre.stack[n - 1] is ReturnAddress) {
            e == InterpreterError::UnexpectedValue {
                expected: Expected::ReturnAddress,
                found: pre.stack[n - 1],
            }
        } else {
            n - 1 < nargs && e == InterpreterError::StackUnderflow
        },
        OpCode::End => if pre.frames.len() == 0 {
            e == InterpreterError::CallStackUnderflow && post == pre
        } else {
            pre.frames.last().ret > code.len() && e == InterpreterError::InvalidInstructionPtr(
                pre.frames.last().ret,
            )
        },
        OpCode::Call { ptr, nargs } => ptr > code.len() && e
            == InterpreterError::InvalidInstructionPtr(ptr),
        OpCode::Fail(line) => if n < 1 {
            e == InterpreterError::StackUnderflow && post == pre
        } else {
            e == InterpreterError::Failure { line, value: pre.stack[n - 1] }
        },
        OpCode::Drop => n < 1 && e == InterpreterError::StackUnderflow && post == pre,
        OpCode::Dup => n < 1 && e == InterpreterError::StackUnderflow && post == pre,
        OpCode::Swap => n < 2 && e == InterpreterError::StackUnderflow && post == pre,
        OpCode::Ld(loc) => lookup_spec(pre, loc) == Err::<Value, InterpreterError>(e) && post
            == pre,
        OpCode::St(loc) => if n < 1 {
            e == InterpreterError::StackUnderflow && post == pre
        } else {
            set_allowed(pre, loc) == Err::<(), InterpreterError>(e)
        },
        OpCode::Sti => if n < 2 {
            e == InterpreterError::StackUnderflow
        } else if !(pre.stack[n - 2] is Ref) {
            e == InterpreterError::UnexpectedValue {
                expected: Expected::Ref,
                found: pre.stack[n - 2],
            }
        } else {
            set_allowed(pre, pre.stack[n - 2]->Ref_0) == Err::<(), InterpreterError>(e)
        },
        OpCode::Sexp { tag, size } => if n < size {
            e == InterpreterError::StackUnderflow && post == pre
        } else {
            tag >= strings.len() && e == InterpreterError::InvalidString(tag)
        },
        OpCode::Str(id) => id >= strings.len() && e == InterpreterError::InvalidString(id) && post
            == pre,
        OpCode::Lda(_) => false,
        OpCode::Sta => e == InterpreterError::UnsupportedInstruction(Reserved::IndexedStore) && post
            == pre,
        OpCode::Elem => if n < 1 {
            e == InterpreterError::StackUnderflow && post == pre
        } else if !(pre.stack[n - 1] is Int) {
            e == InterpreterError::UnexpectedValue {
                expected: Expected::Int,
                found: pre.stack[n - 1],
            }
        } else if n < 2 {
            e == InterpreterError::StackUnderflow
        } else {
            let i = pre.stack[n - 1]->Int_0;
            match elem_items(pre.stack[n - 2]) {
                Some(items) => !(0 <= i < items.len()) && e == InterpreterError::IndexOutOfRange(
                    elem_oob_index(i),
                ),
                None => e == InterpreterError::UnexpectedValue {
                    expected: Expected::ArrayOrSexp,
                    found: pre.stack[n - 2],
                },
            }
        },
        OpCode::Builtin(_) => {
            // The error is the host environment's to choose, but the loop
            // mutates nothing of its own before propagating it: only the
            // operand stack, which the environment works on, may differ.
            &&& post.ip == pre.ip
            &&& post.frames == pre.frames
            &&& post.globals == pre.globals
        },
        OpCode::Tag { tag, size } => n < 1 && e == InterpreterError::StackUnderflow && post == pre,
        OpCode::Array(size) => n < 1 && e == InterpreterError::StackUnderflow && post == pre,
        OpCode::Patt => e == InterpreterError::UnsupportedInstruction(Reserved::PatternTest) && post
            == pre,
        OpCode::CBegin => e == InterpreterError::UnsupportedInstruction(Reserved::ClosureEntry)
            && post == pre,
        OpCode::Closure => e == InterpreterError::UnsupportedInstruction(
            Reserved::ClosureConstruct,
        ) && post == pre,
        OpCode::CallC => e == InterpreterError::UnsupportedInstruction(Reserved::ClosureCall)
            && post == pre,
        OpCode::Line(_) => false,
        OpCode::Ret => false,
    }
}

/// How a bounded run ended when no error aborted it.
#[derive(Clone, Copy, Debug, PartialEq, Eq)]
pub enum RunOutcome {
    /// The instruction pointer reached the end of the code: normal
    /// termination.
    Finished,
    /// The step budget ran out with instructions still ahead.
    OutOfSteps,
}

/// The virtual machine: an instruction pointer into a borrowed program,
/// the operand stack, the call frames, the global slots, and the host's
/// builtin environment.
pub struct Interpreter<'a, E: Environment> {
    ip: usize,
    bf: &'a ByteFile,
    stack: Stack,
    call_stack: CallStack,
    globals: Scope,
    builtins: E,
}

impl<'a, E: Environment> View for Interpreter<'a, E> {
    type V = State;

    closed spec fn view(&self) -> State {
        State {
            ip: self.ip as int,
            stack: self.stack@,
            frames: self.call_stack@,
            globals: self.globals@,
        }
    }
}

impl<'a, E: Environment> Interpreter<'a, E> {
    /// The program's instruction sequence.
    pub closed spec fn code(&self) -> Seq<OpCode> {
        self.bf.code@
    }

    /// The program's string/tag table.
    pub closed spec fn strings(&self) -> Seq<String> {
        self.bf.strings@
    }

    /// A fresh machine over `bf`: the instruction pointer at zero, the
    /// global area sized as the program declares with every slot `Empty`,
    /// no call frame, and the operand stack pre-loaded with two `Empty`
    /// placeholders and a return address equal to the code length — the
    /// sentinel the program's own top-level frame exit eventually returns
    /// to, so that the run terminates normally.
    pub fn new(bf: &'a ByteFile, builtins: E) -> (r: Interpreter<'a, E>)
        ensures
            r.code() == bf.code@,
            r.strings() == bf.strings@,
            r@.ip == 0,
            r@.stack.len() == 3,
            r@.stack[0] == Value::Empty,
            r@.stack[1] == Value::Empty,
            r@.stack[2] == Value::ReturnAddress(bf.code@.len() as usize),
            r@.frames == Seq::<Frame>::empty(),
            r@.globals.len() == bf.global_area_size,
            forall|i: int| 0 <= i < r@.globals.len() ==> r@.globals[i] == Value::Empty,
    {
        let mut stack = Stack::new();
        stack.push(Value::Empty);
        stack.push(Value::Empty);
        stack.push(Value::ReturnAddress(bf.code.len()));
        Interpreter {
            globals: Scope::new(bf.global_area_size),
            call_stack: CallStack::new(),
            builtins,
            stack,
            ip: 0,
            bf,
        }
    }

    /// Redirect the instruction pointer. A target equal to the code length
    /// is legal — the next fetch then terminates the run normally — but a
    /// target beyond it is an error and leaves the machine unchanged.
    fn jump(&mut self, target: usize) -> (r: Result<(), InterpreterError>)
        ensures
            final(self).code() == old(self).code(),
            final(self).strings() == old(self).strings(),
            target <= old(self).code().len() ==> r == Ok::<(), InterpreterError>(())
                && final(self)@ == (State {
                ip: target as int,
                stack: old(self)@.stack,
                frames: old(self)@.frames,
                globals: old(self)@.globals,
            }),
            target > old(self).code().len() ==> r == Err::<(), InterpreterError>(
                InterpreterError::InvalidInstructionPtr(target),
            ) && final(self)@ == old(self)@,
    {
        if target > self.bf.code.len() {
            Err(InterpreterError::InvalidInstructionPtr(target))
        } else {
            self.ip = target;
            Ok(())
        }
    }

    /// Read the slot `loc` addresses, rejecting closure slots.
    fn lookup(&self, loc: Location) -> (r: Result<Value, InterpreterError>)
        ensures
            r == lookup_spec(self@, loc),
    {
        match loc {
            Location::Global(i) => self.globals.lookup(i),
            Location::Closure(_) => Err(
                InterpreterError::UnsupportedInstruction(Reserved::ClosureLocation),
            ),
            Location::Arg(i) => self.call_stack.arg(i),
            Location::Local(i) => self.call_stack.local(i),
        }
    }

    /// Rebind the slot `loc` addresses to `val`, rejecting closure slots;
    /// the operand stack and instruction pointer are untouched, and on an
    /// error nothing is.
    fn set(&mut self, loc: Location, val: Value) -> (r: Result<(), InterpreterError>)
        ensures
            final(self).code() == old(self).code(),
            final(self).strings() == old(self).strings(),
            final(self)@.ip == old(self)@.ip,
            final(self)@.stack == old(self)@.stack,
            r is Ok <==> set_allowed(old(self)@, loc) is Ok,
            r matches Err(e) ==> set_allowed(old(self)@, loc) == Err::<(), InterpreterError>(e)
                && final(self)@ == old(self)@,
            r is Ok ==> set_slots_rel(old(self)@, loc, val, final(self)@),
    {
        match loc {
            Location::Closure(_) => Err(
                InterpreterError::UnsupportedInstruction(Reserved::ClosureLocation),
            ),
            Location::Global(i) => self.globals.set(i, val),
            Location::Arg(i) => self.call_stack.set_arg(i, val),
            Location::Local(i) => self.call_stack.set_local(i, val),
        }
    }

    /// Frame entry: pop the return address, capture `nargs` operands in
    /// pop order, open a frame with `nlocals` empty local slots.
    fn begin(&mut self, nargs: usize, nlocals: usize) -> (r: Result<(), InterpreterError>)
        ensures
            final(self).code() == old(self).code(),
            final(self).strings() == old(self).strings(),
            final(self)@.ip == old(self)@.ip,
            final(self)@.globals == old(self)@.globals,
            ({
                let s = old(self)@.stack;
                let n = s.len() as int;
                if n < 1 {
                    &&& r == Err::<(), InterpreterError>(InterpreterError::StackUnderflow)
                    &&& final(self)@ == old(self)@
                } else if !(s[n - 1] is ReturnAddress) {
                    &&& r == Err::<(), InterpreterError>(
                        InterpreterError::UnexpectedValue {
                            expected: Expected::ReturnAddress,
                            found: s[n - 1],
                        },
                    )
                    &&& final(self)@.frames == old(self)@.frames
                    &&& final(self)@.stack == s.drop_last()
                } else if n - 1 < nargs {
                    &&& r == Err::<(), InterpreterError>(InterpreterError::StackUnderflow)
                    &&& final(self)@.frames == old(self)@.frames
                    &&& final(self)@.stack == s.drop_last()
                } else {
                    &&& r == Ok::<(), InterpreterError>(())
                    &&& final(self)@.stack == s.subrange(0, n - 1 - nargs)
                    &&& final(self)@.frames.len() == old(self)@.frames.len() + 1
                    &&& final(self)@.frames.drop_last() == old(self)@.frames
                    &&& fresh_frame(
                        final(self)@.frames.last(),
                        s,
                        nargs as int,
                        nlocals as int,
                        s[n - 1]->ReturnAddress_0,
                    )
                }
            }),
    {
        let ra_value = self.stack.pop()?;
        let ra = ra_value.unwrap_return_addr()?;
        let args = self.stack.take(nargs)?;
        self.call_stack.begin(args, nlocals, ra);
        Ok(())
    }

    /// Frame exit: destroy the top frame and jump to its stored return
    /// address. The dispatch loop still applies the trailing increment
    /// afterwards — the call instruction recorded its own address, so the
    /// post-jump increment is what resumes control after the call site.
    fn end(&mut self) -> (r: Result<(), InterpreterError>)
        ensures
            final(self).code() == old(self).code(),
            final(self).strings() == old(self).strings(),
            final(self)@.stack == old(self)@.stack,
            final(self)@.globals == old(self)@.globals,
            ({
                let fs = old(self)@.frames;
                if fs.len() == 0 {
                    &&& r == Err::<(), InterpreterError>(InterpreterError::CallStackUnderflow)
                    &&& final(self)@ == old(self)@
                } else if fs.last().ret > old(self).code().len() {
                    &&& r == Err::<(), InterpreterError>(
                        InterpreterError::InvalidInstructionPtr(fs.last().ret),
                    )
                    &&& final(self)@.frames == fs.drop_last()
                    &&& final(self)@.ip == old(self)@.ip
                } else {
                    &&& r == Ok::<(), InterpreterError>(())
                    &&& final(self)@.frames == fs.drop_last()
                    &&& final(self)@.ip == fs.last().ret as int
                }
            }),
    {
        let ret = self.call_stack.end()?;
        self.jump(ret)
    }

    /// Record this call instruction's own address as the return address,
    /// then jump to the call target.
    fn call(&mut self, target: usize) -> (r: Result<(), InterpreterError>)
        ensures
            final(self).code() == old(self).code(),
            final(self).strings() == old(self).strings(),
            final(self)@.frames == old(self)@.frames,
            final(self)@.globals == old(self)@.globals,
            final(self)@.stack == old(self)@.stack.push(
                Value::ReturnAddress(old(self)@.ip as usize),
            ),
            target <= old(self).code().len() ==> r == Ok::<(), InterpreterError>(())
                && final(self)@.ip == target as int,
            target > old(self).code().len() ==> r == Err::<(), InterpreterError>(
                InterpreterError::InvalidInstructionPtr(target),
            ) && final(self)@.ip == old(self)@.ip,
    {
        self.stack.push(Value::ReturnAddress(self.ip));
        self.jump(target)
    }

    /// One fetch–execute cycle: execute the instruction at the current
    /// instruction pointer. A successful cycle relates the old and new
    /// machine states by `step_ok`; a failing one raises exactly the error
    /// `step_err` gives for the old state.
    pub fn step(&mut self) -> (r: Result<(), InterpreterError>)
        requires
            old(self)@.ip < old(self).code().len(),
            old(self).code().len() < usize::MAX,
        ensures
            final(self).code() == old(self).code(),
            final(self).strings() == old(self).strings(),
            r is Ok ==> step_ok(old(self).code(), old(self).strings(), old(self)@, final(self)@),
            r matches Err(e) ==> step_err(
                old(self).code(),
                old(self).strings(),
                old(self)@,
                final(self)@,
                e,
            ),
    {
        let ghost pre: State = self@;
        let op = self.bf.code[self.ip];
        match op {
            OpCode::Const(x) => {
                self.stack.push(Value::Int(x));
                self.ip = self.ip + 1;
                Ok(())
            }
            OpCode::BinOp(bop) => {
                let rhs = self.stack.pop()?;
                let lhs = self.stack.pop()?;
                let res = eval_bin_op(bop, lhs, rhs)?;
                self.stack.push(res);
                self.ip = self.ip + 1;
                proof {
                    assert(pre.stack.drop_last().drop_last() =~= pre.stack.subrange(
                        0,
                        pre.stack.len() - 2,
                    ));
                }
                Ok(())
            }
            OpCode::Jmp(t) => {
                self.jump(t)?;
                Ok(())
            }
            OpCode::CJmp(cond, t) => {
                let popped = self.stack.pop()?;
                let v = popped.unwrap_int()?;
                let taken: bool = match cond {
                    JumpCondition::Zero => v == 0,
                    JumpCondition::NotZero => v != 0,
                };
                if taken {
                    self.jump(t)?;
                } else {
                    self.ip = self.ip + 1;
                }
                Ok(())
            }
            OpCode::Begin { nargs, nlocals } => {
                self.begin(nargs, nlocals)?;
                self.ip = self.ip + 1;
                Ok(())
            }
            OpCode::End => {
                self.end()?;
                self.ip = self.ip + 1;
                Ok(())
            }
            OpCode::Call { ptr, nargs: _ } => {
                self.call(ptr)?;
                Ok(())
            }
            OpCode::Fail(line) => {
                let x = self.stack.pop()?;
                Err(InterpreterError::Failure { line, value: x })
            }
            OpCode::Drop => {
                self.stack.drop()?;
                self.ip = self.ip + 1;
                Ok(())
            }
            OpCode::Dup => {
                self.stack.dup()?;
                self.ip = self.ip + 1;
                Ok(())
            }
            OpCode::Swap => {
                self.stack.swap()?;
                self.ip = self.ip + 1;
                Ok(())
            }
            OpCode::Ld(loc) => {
                let v = self.lookup(loc)?;
                self.stack.push(v);
                self.ip = self.ip + 1;
                Ok(())
            }
            OpCode::St(loc) => {
                let val = self.stack.pop()?;
                self.stack.push(val.clone());
                self.set(loc, val)?;
                self.ip = self.ip + 1;
                proof {
                    assert(pre.stack.drop_last().push(pre.stack.last()) =~= pre.stack);
                }
                Ok(())
            }
            OpCode::Sti => {
                let val = self.stack.pop()?;
                let ref_value = self.stack.pop()?;
                let loc = ref_value.unwrap_ref()?;
                self.set(loc, val)?;
                self.ip = self.ip + 1;
                proof {
                    assert(pre.stack.drop_last().drop_last() =~= pre.stack.subrange(
                        0,
                        pre.stack.len() - 2,
                    ));
                }
                Ok(())
            }
            OpCode::Sexp { tag, size } => {
                let mut vals = self.stack.take(size)?;
                let label = self.bf.string(tag)?;
                let ghost v0 = vals@;
                let mut rev: Vec<Value> = Vec::new();
                while vals.len() > 0
                    invariant
                        vals@ == v0.subrange(0, vals@.len() as int),
                        rev@.len() + vals@.len() == v0.len(),
                        forall|j: int| 0 <= j < rev@.len() ==> rev@[j] == v0[v0.len() - 1 - j],
                    decreases vals@.len(),
                {
                    let v = vals.pop().unwrap();
                    rev.push(v);
                    proof {
                        assert(vals@ =~= v0.subrange(0, vals@.len() as int));
                    }
                }
                proof {
                    assert(rev@ =~= pre.stack.subrange(
                        pre.stack.len() - size,
                        pre.stack.len() as int,
                    ));
                }
                self.stack.push(Value::Sexp(tag, label, Rc::new(rev)));
                self.ip = self.ip + 1;
                proof {
                    assert(self.stack@.drop_last() =~= pre.stack.subrange(
                        0,
                        pre.stack.len() - size,
                    ));
                }
                Ok(())
            }
            OpCode::Str(id) => {
                let s = self.bf.string(id)?;
                self.stack.push(Value::Str(s));
                self.ip = self.ip + 1;
                Ok(())
            }
            OpCode::Lda(loc) => {
                self.stack.push(Value::Ref(loc));
                self.ip = self.ip + 1;
                Ok(())
            }
            OpCode::Sta => Err(InterpreterError::UnsupportedInstruction(Reserved::IndexedStore)),
            OpCode::Elem => {
                let idx_value = self.stack.pop()?;
                let i = idx_value.unwrap_int()?;
                let container = self.stack.pop()?;
                let items: Rc<Vec<Value>> = match container {
                    Value::Sexp(_, _, items) => items,
                    Value::Array(items) => items,
                    other => {
                        return Err(InterpreterError::UnexpectedValue {
                            expected: Expected::ArrayOrSexp,
                            found: other,
                        });
                    }
                };
                let v: &Vec<Value> = &*items;
                if i < 0 {
                    return Err(InterpreterError::IndexOutOfRange(0));
                }
                let iu64: u64 = i as u64;
                if iu64 >= v.len() as u64 {
                    let payload: usize = if iu64 > (usize::MAX as u64) {
                        usize::MAX
                    } else {
                        iu64 as usize
                    };
                    return Err(InterpreterError::IndexOutOfRange(payload));
                }
                let iu: usize = iu64 as usize;
                let elem = v[iu].clone();
                self.stack.push(elem);
                self.ip = self.ip + 1;
                proof {
                    assert(pre.stack.drop_last().drop_last() =~= pre.stack.subrange(
                        0,
                        pre.stack.len() - 2,
                    ));
                }
                Ok(())
            }
            OpCode::Builtin(b) => {
                let res = match self.builtins.eval(b, &mut self.stack) {
                    Ok(v) => v,
                    Err(e) => {
                        return Err(e);
                    }
                };
                let ghost mid = self.stack@;
                self.stack.push(res);
                self.ip = self.ip + 1;
                proof {
                    assert(self.stack@ == mid.push(res));
                }
                Ok(())
            }
            OpCode::Tag { tag, size } => {
                let v = self.stack.pop()?;
                let hit: bool = match &v {
                    Value::Sexp(t, _, items) => {
                        let iv: &Vec<Value> = &**items;
                        *t == tag && iv.len() == size
                    }
                    _ => false,
                };
                self.stack.push(Value::Int(if hit {
                    1
                } else {
                    0
                }));
                self.ip = self.ip + 1;
                Ok(())
            }
            OpCode::Array(size) => {
                let v = self.stack.pop()?;
                let hit: bool = match &v {
                    Value::Array(items) => {
                        let iv: &Vec<Value> = &**items;
                        iv.len() == size
                    }
                    _ => false,
                };
                self.stack.push(Value::Int(if hit {
                    1
                } else {
                    0
                }));
                self.ip = self.ip + 1;
                Ok(())
            }
            OpCode::Patt => Err(InterpreterError::UnsupportedInstruction(Reserved::PatternTest)),
            OpCode::CBegin => Err(InterpreterError::UnsupportedInstruction(Reserved::ClosureEntry)),
            OpCode::Closure => Err(
                InterpreterError::UnsupportedInstruction(Reserved::ClosureConstruct),
            ),
            OpCode::CallC => Err(InterpreterError::UnsupportedInstruction(Reserved::ClosureCall)),
            OpCode::Line(_) => {
                self.ip = self.ip + 1;
                Ok(())
            }
            OpCode::Ret => {
                self.ip = self.ip + 1;
                Ok(())
            }
        }
    }

    /// Drive the fetch–execute cycle for at most `max_steps` instructions.
    ///
    /// The run terminates normally when the instruction pointer reaches the
    /// code length (or beyond: the return path may step past the end); the
    /// first error aborts it. Bounding the number of cycles is the host's
    /// execution limit; a program that needs more cycles ends in
    /// `OutOfSteps` with the machine ready to continue.
    ///
    /// The contract accounts for every cycle: `Finished` is reached within
    /// the budget, `OutOfSteps` means exactly `max_steps` successful cycles
    /// were executed, and an error arises by `step_err` at a state fewer
    /// than `max_steps` cycles in. The machine only ever moves along
    /// `step_ok` cycles from where it started.
    pub fn run(&mut self, max_steps: usize) -> (r: Result<RunOutcome, InterpreterError>)
        requires
            old(self).code().len() < usize::MAX,
        ensures
            final(self).code() == old(self).code(),
            final(self).strings() == old(self).strings(),
            r == Ok::<RunOutcome, InterpreterError>(RunOutcome::Finished) ==> final(self)@.ip
                >= old(self).code().len() && exists|k: nat|
                k <= max_steps && reaches(
                    old(self).code(),
                    old(self).strings(),
                    old(self)@,
                    final(self)@,
                    k,
                ),
            r == Ok::<RunOutcome, InterpreterError>(RunOutcome::OutOfSteps) ==> final(self)@.ip
                < old(self).code().len() && reaches(
                old(self).code(),
                old(self).strings(),
                old(self)@,
                final(self)@,
                max_steps as nat,
            ),
            r matches Err(e) ==> exists|s: State, k: nat|
                {
                    &&& k < max_steps
                    &&& reaches(old(self).code(), old(self).strings(), old(self)@, s, k)
                    &&& 0 <= s.ip < old(self).code().len()
                    &&& step_err(old(self).code(), old(self).strings(), s, final(self)@, e)
                },
    {
        proof {
            assert(reaches(self.code(), self.strings(), old(self)@, self@, 0));
        }
        let mut steps: usize = 0;
        while steps < max_steps && self.ip < self.bf.code.len()
            invariant
                self.code() == old(self).code(),
                self.strings() == old(self).strings(),
                self.code().len() < usize::MAX,
                steps <= max_steps,
                reaches(self.code(), self.strings(), old(self)@, self@, steps as nat),
            decreases max_steps - steps,
        {
            let ghost mid: State = self@;
            match self.step() {
                Ok(()) => {
                    proof {
                        lemma_reaches_step(
                            self.code(),
                            self.strings(),
                            old(self)@,
                            mid,
                            self@,
                            steps as nat,
                        );
                    }
                }
                Err(e) => {
                    proof {
                        assert(steps < max_steps && reaches(
                            self.code(),
                            self.strings(),
                            old(self)@,
                            mid,
                            steps as nat,
                        ) && 0 <= mid.ip < self.code().len() && step_err(
                            self.code(),
                            self.strings(),
                            mid,
                            self@,
                            e,
                        ));
                    }
                    return Err(e);
                }
            }
            steps = steps + 1;
        }
        if self.ip >= self.bf.code.len() {
            Ok(RunOutcome::Finished)
        } else {
            Ok(RunOutcome::OutOfSteps)
        }
    }
}

/// The machine moves from `s0` to `s1` in exactly `k` successful
/// fetch–execute cycles.
pub open spec fn reaches(
    code: Seq<OpCode>,
    strings: Seq<String>,
    s0: State,
    s1: State,
    k: nat,
) -> bool
    decreases k,
{
    if k == 0 {
        s1 == s0
    } else {
        exists|mid: State|
            {
                &&& reaches(code, strings, s0, mid, (k - 1) as nat)
                &&& 0 <= mid.ip < code.len()
                &&& step_ok(code, strings, mid, s1)
            }
    }
}

/// Chaining one more successful cycle onto a reachable state keeps it
/// reachable.
pub proof fn lemma_reaches_step(
    code: Seq<OpCode>,
    strings: Seq<String>,
    s0: State,
    s1: State,
    s2: State,
    k: nat,
)
    requires
        reaches(code, strings, s0, s1, k),
        0 <= s1.ip < code.len(),
        step_ok(code, strings, s1, s2),
    ensures
        reaches(code, strings, s0, s2, k + 1),
{
    assert(reaches(code, strings, s0, s1, ((k + 1) - 1) as nat));
}

/// Call/return round trip: a call records its own address; the frame entry
/// that consumes the recorded address stores it in the new frame; and the
/// frame exit that destroys that frame — wherever and however deep it
/// happens — resumes execution at the instruction immediately after the
/// original call. The frame-exit state `s3` is arbitrary, so the law holds
/// across arbitrarily nested and recursive calls.
pub proof fn call_return_resumes(
    code: Seq<OpCode>,
    strings: Seq<String>,
    s0: State,
    s1: State,
    s2: State,
    s3: State,
    s4: State,
)
    requires
        0 <= s0.ip < code.len(),
        s0.ip <= usize::MAX,
        code[s0.ip] is Call,
        step_ok(code, strings, s0, s1),
        0 <= s1.ip < code.len(),
        code[s1.ip] is Begin,
        step_ok(code, strings, s1, s2),
        0 <= s3.ip < code.len(),
        code[s3.ip] is End,
        s3.frames.len() > 0,
        s3.frames.last() == s2.frames.last(),
        step_ok(code, strings, s3, s4),
    ensures
        s4.ip == s0.ip + 1,
{
}

/// Structural-tuple construction preserves declaration order: element `i`
/// of the tuple a sexp instruction builds is the `i`-th oldest of the
/// operands it consumed, despite the internal pop-order take. Reading it
/// back with an element access therefore yields the values in the order
/// they were pushed.
pub proof fn tuple_preserves_declaration_order(
    code: Seq<OpCode>,
    strings: Seq<String>,
    pre: State,
    post: State,
    i: int,
)
    requires
        0 <= pre.ip < code.len(),
        code[pre.ip] is Sexp,
        step_ok(code, strings, pre, post),
        0 <= i < code[pre.ip]->Sexp_size,
    ensures
        post.stack.last() matches Value::Sexp(t, label, items) && items@[i]
            == pre.stack[pre.stack.len() - code[pre.ip]->Sexp_size + i],
{
}

/// A jump whose target exactly equals the code length is accepted: the
/// cycle succeeds and leaves the instruction pointer at the code length,
/// so the next fetch terminates the run normally. Only a target beyond
/// the code length is an invalid instruction pointer.
pub proof fn jump_to_code_length_terminates(
    code: Seq<OpCode>,
    strings: Seq<String>,
    pre: State,
    post: State,
)
    requires
        0 <= pre.ip < code.len(),
        code[pre.ip] matches OpCode::Jmp(t) && t == code.len(),
        step_ok(code, strings, pre, post),
    ensures
        post.ip == code.len(),
{
}

/// Unwritten slots read as `Empty`, never as an error: in-range reads from
/// a global area or a frame whose slots all still hold `Empty` yield
/// `Empty`.
pub proof fn unwritten_slots_read_empty(s: State, g: usize, l: usize)
    requires
        forall|k: int| 0 <= k < s.globals.len() ==> s.globals[k] == Value::Empty,
        g < s.globals.len(),
        s.frames.len() > 0,
        forall|k: int|
            0 <= k < s.frames.last().locals@.len() ==> s.frames.last().locals@[k] == Value::Empty,
        l < s.frames.last().locals@.len(),
    ensures
        lookup_spec(s, Location::Global(g)) == Ok::<Value, InterpreterError>(Value::Empty),
        lookup_spec(s, Location::Local(l)) == Ok::<Value, InterpreterError>(Value::Empty),
{
}

} // verus!
