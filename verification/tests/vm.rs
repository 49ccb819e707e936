use std::rc::Rc;

use lama_interpreter::builtin::Environment;
use lama_interpreter::bytecode::{BinOp, ByteFile, JumpCondition, OpCode};
use lama_interpreter::error::{InterpreterError, Reserved};
use lama_interpreter::interp::{Interpreter, RunOutcome};
use lama_interpreter::stack::Stack;
use lama_interpreter::value::{Expected, Location, Value};

/// An environment for programs that never call a builtin.
struct NoBuiltins;

impl Environment for NoBuiltins {
    fn eval(&mut self, _id: usize, _stack: &mut Stack) -> Result<Value, InterpreterError> {
        Err(InterpreterError::StackUnderflow)
    }
}

fn run_prog(
    code: Vec<OpCode>,
    strings: Vec<String>,
    globals: usize,
) -> Result<RunOutcome, InterpreterError> {
    let bf = ByteFile {
        code,
        strings,
        global_area_size: globals,
    };
    let mut vm = Interpreter::new(&bf, NoBuiltins);
    vm.run(10_000)
}

/// The value left on top of the stack after `code`, extracted by appending
/// a fail instruction, whose error carries the popped value.
fn top_after(mut code: Vec<OpCode>, strings: Vec<String>, globals: usize) -> Value {
    code.push(OpCode::Fail(0));
    match run_prog(code, strings, globals) {
        Err(InterpreterError::Failure { line: 0, value }) => value,
        other => panic!("expected a failure carrying the top of stack, got {:?}", other),
    }
}

#[test]
fn subtract_literals() {
    let v = top_after(
        vec![OpCode::Const(7), OpCode::Const(3), OpCode::BinOp(BinOp::Minus)],
        vec![],
        0,
    );
    assert_eq!(v, Value::Int(4));
}

#[test]
fn divide_by_zero_is_an_error() {
    let r = run_prog(
        vec![OpCode::Const(5), OpCode::Const(0), OpCode::BinOp(BinOp::Div)],
        vec![],
        0,
    );
    assert_eq!(r, Err(InterpreterError::DivisionByZero));
    let r = run_prog(
        vec![OpCode::Const(5), OpCode::Const(0), OpCode::BinOp(BinOp::Mod)],
        vec![],
        0,
    );
    assert_eq!(r, Err(InterpreterError::DivisionByZero));
}

#[test]
fn arithmetic_wraps_on_overflow() {
    let v = top_after(
        vec![OpCode::Const(i64::MAX), OpCode::Const(1), OpCode::BinOp(BinOp::Plus)],
        vec![],
        0,
    );
    assert_eq!(v, Value::Int(i64::MIN));
    let v = top_after(
        vec![OpCode::Const(i64::MIN), OpCode::Const(-1), OpCode::BinOp(BinOp::Div)],
        vec![],
        0,
    );
    assert_eq!(v, Value::Int(i64::MIN));
    let v = top_after(
        vec![OpCode::Const(i64::MIN), OpCode::Const(-1), OpCode::BinOp(BinOp::Mod)],
        vec![],
        0,
    );
    assert_eq!(v, Value::Int(0));
}

#[test]
fn division_truncates_toward_zero() {
    let v = top_after(
        vec![OpCode::Const(-7), OpCode::Const(2), OpCode::BinOp(BinOp::Div)],
        vec![],
        0,
    );
    assert_eq!(v, Value::Int(-3));
    let v = top_after(
        vec![OpCode::Const(-7), OpCode::Const(2), OpCode::BinOp(BinOp::Mod)],
        vec![],
        0,
    );
    assert_eq!(v, Value::Int(-1));
}

#[test]
fn relational_ops_yield_one_and_zero() {
    let v = top_after(
        vec![OpCode::Const(5), OpCode::Const(5), OpCode::BinOp(BinOp::Eq)],
        vec![],
        0,
    );
    assert_eq!(v, Value::Int(1));
    let v = top_after(
        vec![OpCode::Const(5), OpCode::Const(6), OpCode::BinOp(BinOp::Lt)],
        vec![],
        0,
    );
    assert_eq!(v, Value::Int(1));
    let v = top_after(
        vec![OpCode::Const(5), OpCode::Const(6), OpCode::BinOp(BinOp::GtEq)],
        vec![],
        0,
    );
    assert_eq!(v, Value::Int(0));
}

#[test]
fn logical_ops_are_bitwise() {
    // 2 & 1 == 0, so bitwise `and` of two non-zero values can be 0.
    let v = top_after(
        vec![OpCode::Const(2), OpCode::Const(1), OpCode::BinOp(BinOp::And)],
        vec![],
        0,
    );
    assert_eq!(v, Value::Int(0));
    let v = top_after(
        vec![OpCode::Const(2), OpCode::Const(1), OpCode::BinOp(BinOp::Or)],
        vec![],
        0,
    );
    assert_eq!(v, Value::Int(1));
}

#[test]
fn binop_on_non_integer_is_a_type_mismatch() {
    // The initial stack holds two placeholders and the sentinel return
    // address; the left operand here is that return address.
    let r = run_prog(vec![OpCode::Const(1), OpCode::BinOp(BinOp::Plus)], vec![], 0);
    assert_eq!(
        r,
        Err(InterpreterError::UnexpectedValue {
            expected: Expected::Int,
            found: Value::ReturnAddress(2),
        })
    );
}

#[test]
fn tuple_round_trip_preserves_declaration_order() {
    for (idx, expected) in [(0, 11), (1, 22), (2, 33)] {
        let v = top_after(
            vec![
                OpCode::Const(11),
                OpCode::Const(22),
                OpCode::Const(33),
                OpCode::Sexp { tag: 0, size: 3 },
                OpCode::Const(idx),
                OpCode::Elem,
            ],
            vec![String::from("triple")],
            0,
        );
        assert_eq!(v, Value::Int(expected));
    }
}

#[test]
fn tag_test_matches_tag_and_size() {
    let prog = |tag: usize, size: usize| {
        vec![
            OpCode::Const(1),
            OpCode::Const(2),
            OpCode::Sexp { tag: 1, size: 2 },
            OpCode::Tag { tag, size },
        ]
    };
    let strings = || vec![String::from("a"), String::from("b")];
    assert_eq!(top_after(prog(1, 2), strings(), 0), Value::Int(1));
    assert_eq!(top_after(prog(0, 2), strings(), 0), Value::Int(0));
    assert_eq!(top_after(prog(1, 3), strings(), 0), Value::Int(0));
}

#[test]
fn tag_test_on_non_tuple_is_zero() {
    let v = top_after(
        vec![OpCode::Const(9), OpCode::Tag { tag: 0, size: 1 }],
        vec![String::from("t")],
        0,
    );
    assert_eq!(v, Value::Int(0));
}

#[test]
fn call_returns_to_instruction_after_the_call() {
    let v = top_after(
        vec![
            OpCode::Call { ptr: 3, nargs: 0 },
            OpCode::Const(42),
            OpCode::Jmp(5),
            OpCode::Begin { nargs: 0, nlocals: 0 },
            OpCode::End,
        ],
        vec![],
        0,
    );
    assert_eq!(v, Value::Int(42));
}

#[test]
fn nested_calls_resume_at_their_own_call_sites() {
    let v = top_after(
        vec![
            OpCode::Call { ptr: 3, nargs: 0 },
            OpCode::Const(9),
            OpCode::Jmp(8),
            OpCode::Begin { nargs: 0, nlocals: 0 },
            OpCode::Call { ptr: 6, nargs: 0 },
            OpCode::End,
            OpCode::Begin { nargs: 0, nlocals: 0 },
            OpCode::End,
        ],
        vec![],
        0,
    );
    assert_eq!(v, Value::Int(9));
}

#[test]
fn recursive_countdown_terminates_normally() {
    // A frame-less loop: count 5 down to 0 by jumping back while non-zero.
    let r = run_prog(
        vec![
            OpCode::Const(5),
            OpCode::St(Location::Global(0)),
            OpCode::Drop,
            OpCode::Ld(Location::Global(0)),
            OpCode::Const(1),
            OpCode::BinOp(BinOp::Minus),
            OpCode::St(Location::Global(0)),
            OpCode::CJmp(JumpCondition::NotZero, 3),
            OpCode::Jmp(9),
        ],
        vec![],
        1,
    );
    assert_eq!(r, Ok(RunOutcome::Finished));
}

#[test]
fn arguments_are_captured_in_pop_order() {
    // Arguments are taken in pop order without reversal: argument 0 is the
    // most recently pushed operand below the return address.
    let v = top_after(
        vec![
            OpCode::Const(10),
            OpCode::Const(20),
            OpCode::Call { ptr: 3, nargs: 2 },
            OpCode::Begin { nargs: 2, nlocals: 0 },
            OpCode::Ld(Location::Arg(0)),
        ],
        vec![],
        0,
    );
    assert_eq!(v, Value::Int(20));
    let v = top_after(
        vec![
            OpCode::Const(10),
            OpCode::Const(20),
            OpCode::Call { ptr: 3, nargs: 2 },
            OpCode::Begin { nargs: 2, nlocals: 0 },
            OpCode::Ld(Location::Arg(1)),
        ],
        vec![],
        0,
    );
    assert_eq!(v, Value::Int(10));
}

#[test]
fn unwritten_global_reads_empty() {
    let v = top_after(vec![OpCode::Ld(Location::Global(0))], vec![], 1);
    assert_eq!(v, Value::Empty);
}

#[test]
fn unwritten_local_reads_empty() {
    // The initial sentinel return address feeds the frame entry.
    let v = top_after(
        vec![
            OpCode::Begin { nargs: 0, nlocals: 2 },
            OpCode::Ld(Location::Local(1)),
        ],
        vec![],
        0,
    );
    assert_eq!(v, Value::Empty);
}

#[test]
fn store_leaves_value_on_stack_and_in_slot() {
    let v = top_after(
        vec![OpCode::Const(7), OpCode::St(Location::Global(0))],
        vec![],
        1,
    );
    assert_eq!(v, Value::Int(7));
    let v = top_after(
        vec![
            OpCode::Const(7),
            OpCode::St(Location::Global(0)),
            OpCode::Drop,
            OpCode::Ld(Location::Global(0)),
        ],
        vec![],
        1,
    );
    assert_eq!(v, Value::Int(7));
}

#[test]
fn indirect_store_through_a_ref() {
    let v = top_after(
        vec![
            OpCode::Lda(Location::Global(1)),
            OpCode::Const(9),
            OpCode::Sti,
            OpCode::Ld(Location::Global(1)),
        ],
        vec![],
        2,
    );
    assert_eq!(v, Value::Int(9));
}

#[test]
fn indirect_store_needs_a_ref() {
    let r = run_prog(
        vec![OpCode::Const(1), OpCode::Const(2), OpCode::Sti],
        vec![],
        0,
    );
    assert_eq!(
        r,
        Err(InterpreterError::UnexpectedValue {
            expected: Expected::Ref,
            found: Value::Int(1),
        })
    );
}

#[test]
fn string_literal_is_pushed_from_the_table() {
    let v = top_after(
        vec![OpCode::Str(1)],
        vec![String::from("zero"), String::from("one")],
        0,
    );
    assert_eq!(v, Value::Str(String::from("one")));
}

#[test]
fn missing_string_id_is_an_error() {
    let r = run_prog(vec![OpCode::Str(5)], vec![], 0);
    assert_eq!(r, Err(InterpreterError::InvalidString(5)));
    let r = run_prog(
        vec![OpCode::Const(1), OpCode::Sexp { tag: 3, size: 1 }],
        vec![],
        0,
    );
    assert_eq!(r, Err(InterpreterError::InvalidString(3)));
}

#[test]
fn conditional_jump_on_zero() {
    let v = top_after(
        vec![
            OpCode::Const(0),
            OpCode::CJmp(JumpCondition::Zero, 4),
            OpCode::Const(1),
            OpCode::Jmp(5),
            OpCode::Const(2),
        ],
        vec![],
        0,
    );
    assert_eq!(v, Value::Int(2));
    let v = top_after(
        vec![
            OpCode::Const(3),
            OpCode::CJmp(JumpCondition::Zero, 4),
            OpCode::Const(1),
            OpCode::Jmp(5),
            OpCode::Const(2),
        ],
        vec![],
        0,
    );
    assert_eq!(v, Value::Int(1));
}

#[test]
fn jump_to_code_length_terminates_normally() {
    let r = run_prog(vec![OpCode::Jmp(1)], vec![], 0);
    assert_eq!(r, Ok(RunOutcome::Finished));
}

#[test]
fn jump_beyond_code_length_is_an_error() {
    let r = run_prog(vec![OpCode::Jmp(2)], vec![], 0);
    assert_eq!(r, Err(InterpreterError::InvalidInstructionPtr(2)));
}

#[test]
fn step_budget_runs_out_on_a_loop() {
    let bf = ByteFile {
        code: vec![OpCode::Jmp(0)],
        strings: vec![],
        global_area_size: 0,
    };
    let mut vm = Interpreter::new(&bf, NoBuiltins);
    assert_eq!(vm.run(100), Ok(RunOutcome::OutOfSteps));
}

#[test]
fn reserved_instructions_always_fail_fast() {
    let cases = [
        (OpCode::Sta, Reserved::IndexedStore),
        (OpCode::Patt, Reserved::PatternTest),
        (OpCode::CBegin, Reserved::ClosureEntry),
        (OpCode::Closure, Reserved::ClosureConstruct),
        (OpCode::CallC, Reserved::ClosureCall),
    ];
    for (op, which) in cases {
        // Bare, and with operands on the stack: the contents never matter.
        let r = run_prog(vec![op], vec![], 0);
        assert_eq!(r, Err(InterpreterError::UnsupportedInstruction(which)));
        let r = run_prog(vec![OpCode::Const(1), OpCode::Const(2), op], vec![], 0);
        assert_eq!(r, Err(InterpreterError::UnsupportedInstruction(which)));
    }
}

#[test]
fn closure_locations_are_rejected() {
    let r = run_prog(vec![OpCode::Ld(Location::Closure(0))], vec![], 0);
    assert_eq!(
        r,
        Err(InterpreterError::UnsupportedInstruction(Reserved::ClosureLocation))
    );
    let r = run_prog(
        vec![OpCode::Const(1), OpCode::St(Location::Closure(0))],
        vec![],
        0,
    );
    assert_eq!(
        r,
        Err(InterpreterError::UnsupportedInstruction(Reserved::ClosureLocation))
    );
}

#[test]
fn global_index_out_of_range() {
    let r = run_prog(vec![OpCode::Ld(Location::Global(7))], vec![], 2);
    assert_eq!(r, Err(InterpreterError::IndexOutOfRange(7)));
}

#[test]
fn frame_access_without_a_frame_underflows() {
    let r = run_prog(vec![OpCode::Ld(Location::Arg(0))], vec![], 0);
    assert_eq!(r, Err(InterpreterError::CallStackUnderflow));
    let r = run_prog(vec![OpCode::End], vec![], 0);
    assert_eq!(r, Err(InterpreterError::CallStackUnderflow));
}

#[test]
fn operand_stack_underflow_aborts() {
    // The initial stack holds exactly three values.
    let r = run_prog(
        vec![OpCode::Drop, OpCode::Drop, OpCode::Drop, OpCode::Drop],
        vec![],
        0,
    );
    assert_eq!(r, Err(InterpreterError::StackUnderflow));
}

#[test]
fn element_access_errors() {
    let strings = || vec![String::from("t")];
    let r = run_prog(
        vec![
            OpCode::Const(1),
            OpCode::Sexp { tag: 0, size: 1 },
            OpCode::Const(5),
            OpCode::Elem,
        ],
        strings(),
        0,
    );
    assert_eq!(r, Err(InterpreterError::IndexOutOfRange(5)));
    let r = run_prog(
        vec![
            OpCode::Const(1),
            OpCode::Sexp { tag: 0, size: 1 },
            OpCode::Const(-1),
            OpCode::Elem,
        ],
        strings(),
        0,
    );
    assert_eq!(r, Err(InterpreterError::IndexOutOfRange(0)));
    let r = run_prog(vec![OpCode::Const(1), OpCode::Const(0), OpCode::Elem], vec![], 0);
    assert_eq!(
        r,
        Err(InterpreterError::UnexpectedValue {
            expected: Expected::ArrayOrSexp,
            found: Value::Int(1),
        })
    );
}

#[test]
fn fail_carries_line_and_popped_value() {
    let r = run_prog(vec![OpCode::Const(13), OpCode::Fail(77)], vec![], 0);
    assert_eq!(
        r,
        Err(InterpreterError::Failure {
            line: 77,
            value: Value::Int(13),
        })
    );
}

#[test]
fn line_markers_and_ret_are_no_ops() {
    let v = top_after(
        vec![OpCode::Line(4), OpCode::Const(8), OpCode::Ret, OpCode::Line(9)],
        vec![],
        0,
    );
    assert_eq!(v, Value::Int(8));
}

/// An environment that doubles the integer it pops.
struct Doubler;

impl Environment for Doubler {
    fn eval(&mut self, _id: usize, stack: &mut Stack) -> Result<Value, InterpreterError> {
        let v = stack.pop()?;
        match v {
            Value::Int(n) => Ok(Value::Int(n.wrapping_mul(2))),
            other => Err(InterpreterError::UnexpectedValue {
                expected: Expected::Int,
                found: other,
            }),
        }
    }
}

#[test]
fn builtin_result_is_pushed() {
    let bf = ByteFile {
        code: vec![OpCode::Const(21), OpCode::Builtin(0), OpCode::Fail(0)],
        strings: vec![],
        global_area_size: 0,
    };
    let mut vm = Interpreter::new(&bf, Doubler);
    assert_eq!(
        vm.run(100),
        Err(InterpreterError::Failure {
            line: 0,
            value: Value::Int(42),
        })
    );
}

/// An environment that conjures a fixed two-element array.
struct ArrayMaker;

impl Environment for ArrayMaker {
    fn eval(&mut self, _id: usize, _stack: &mut Stack) -> Result<Value, InterpreterError> {
        Ok(Value::Array(Rc::new(vec![Value::Int(5), Value::Int(6)])))
    }
}

#[test]
fn array_test_and_element_access() {
    let run_with = |code: Vec<OpCode>| {
        let bf = ByteFile {
            code,
            strings: vec![],
            global_area_size: 0,
        };
        let mut vm = Interpreter::new(&bf, ArrayMaker);
        vm.run(100)
    };
    let r = run_with(vec![OpCode::Builtin(0), OpCode::Array(2), OpCode::Fail(0)]);
    assert_eq!(
        r,
        Err(InterpreterError::Failure { line: 0, value: Value::Int(1) })
    );
    let r = run_with(vec![OpCode::Builtin(0), OpCode::Array(3), OpCode::Fail(0)]);
    assert_eq!(
        r,
        Err(InterpreterError::Failure { line: 0, value: Value::Int(0) })
    );
    let r = run_with(vec![
        OpCode::Builtin(0),
        OpCode::Const(1),
        OpCode::Elem,
        OpCode::Fail(0),
    ]);
    assert_eq!(
        r,
        Err(InterpreterError::Failure { line: 0, value: Value::Int(6) })
    );
}

#[test]
fn begin_requires_a_return_address() {
    let r = run_prog(
        vec![OpCode::Const(3), OpCode::Begin { nargs: 0, nlocals: 0 }],
        vec![],
        0,
    );
    assert_eq!(
        r,
        Err(InterpreterError::UnexpectedValue {
            expected: Expected::ReturnAddress,
            found: Value::Int(3),
        })
    );
}

#[test]
fn shared_tuples_alias_safely() {
    // Duplicating a tuple and reading both copies touches the same shared
    // payload; rebinding a slot never edits it in place.
    let v = top_after(
        vec![
            OpCode::Const(1),
            OpCode::Const(2),
            OpCode::Sexp { tag: 0, size: 2 },
            OpCode::Dup,
            OpCode::St(Location::Global(0)),
            OpCode::Const(0),
            OpCode::Elem,
            OpCode::Drop,
            OpCode::Ld(Location::Global(0)),
            OpCode::Const(1),
            OpCode::Elem,
        ],
        vec![String::from("pair")],
        1,
    );
    assert_eq!(v, Value::Int(2));
}

#[test]
fn empty_program_finishes_immediately() {
    let r = run_prog(vec![], vec![], 0);
    assert_eq!(r, Ok(RunOutcome::Finished));
}

#[test]
fn zero_size_tuple_matches_its_tag() {
    let v = top_after(
        vec![OpCode::Sexp { tag: 0, size: 0 }, OpCode::Tag { tag: 0, size: 0 }],
        vec![String::from("unit")],
        0,
    );
    assert_eq!(v, Value::Int(1));
}

#[test]
fn push_then_drop_restores_the_initial_stack() {
    let r = run_prog(vec![OpCode::Const(7), OpCode::Drop], vec![], 0);
    assert_eq!(r, Ok(RunOutcome::Finished));
    // Observed through the fail instruction: after the push and the drop,
    // the top is the initial sentinel return address again.
    let r = run_prog(vec![OpCode::Const(7), OpCode::Drop, OpCode::Fail(0)], vec![], 0);
    assert_eq!(
        r,
        Err(InterpreterError::Failure {
            line: 0,
            value: Value::ReturnAddress(3),
        })
    );
}

#[test]
fn run_resumes_after_out_of_steps() {
    let bf = ByteFile {
        code: vec![OpCode::Line(1), OpCode::Line(2), OpCode::Line(3), OpCode::Line(4)],
        strings: vec![],
        global_area_size: 0,
    };
    let mut vm = Interpreter::new(&bf, NoBuiltins);
    assert_eq!(vm.run(0), Ok(RunOutcome::OutOfSteps));
    assert_eq!(vm.run(2), Ok(RunOutcome::OutOfSteps));
    assert_eq!(vm.run(2), Ok(RunOutcome::Finished));
    assert_eq!(vm.run(5), Ok(RunOutcome::Finished));
}
