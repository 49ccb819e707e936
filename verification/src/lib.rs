//! A stack-based bytecode virtual machine.
//!
//! The interpreter executes a fixed instruction sequence against an operand
//! stack, a stack of call frames, and a fixed-size global slot area. Every
//! instruction either advances the instruction pointer, redirects it (jumps
//! and the call/return protocol), or aborts the run with a structured error.
//! The dispatch loop is the sole driver; the stacks and the global area are
//! passive structures it mutates.

pub mod builtin;
pub mod bytecode;
pub mod call_stack;
pub mod error;
pub mod interp;
pub mod scope;
pub mod stack;
pub mod value;
