use vstd::prelude::*;
use crate::constant::Constant;
use crate::instruction::Instruction;
use crate::interpreter::{RustFunc, StackFrame};

verus! {

/// What went wrong, by kind.
#[derive(Debug, PartialEq)]
pub enum ErrorKind {
    /// The opcode and operands have no defined meaning together.
    InvalidOperation,
    /// A register slot that holds no value was read.
    MemoryAddressUninitialized,
    /// A register index lies past the end of its space.
    RegisterOutOfBounds,
    /// Integer arithmetic overflowed, or a division by zero was attempted.
    Overflow,
    /// No registered callback has the name of this import.
    MissingImport(String),
    /// No export has this name.
    FunctionDoesNotExist(String),
    /// A host callback reported failure with this status.
    CallbackFailed(String, u8),
    /// `Call` went deeper than the configured limit.
    RecursionLimit,
    /// The runtime seal was broken: the engine refuses to run.
    Tampered,
}

/// The state of the machine when an error was raised.
#[derive(Debug)]
pub struct ResurgenceContext {
    /// The stack frames at the time of the error.
    pub call_stack: Vec<StackFrame>,
    /// The value stack at the time of the error.
    pub constant_stack: Vec<Constant>,
    /// The callback table.
    pub rust_and_native_fns: Vec<RustFunc>,
    /// The instruction that failed, if one was running.
    pub instruction: Option<Instruction>,
    /// The failing instruction's index, then the index of each `Call` that led to it,
    /// innermost first.
    pub instruction_pointer: Vec<usize>,
    /// How many calls deep the machine was.
    pub recursion_depth: usize,
}

/// An error of the machine, with the state it was raised in.
#[derive(Debug)]
pub struct ResurgenceError {
    pub kind: ErrorKind,
    pub context: Option<ResurgenceContext>,
}

impl ResurgenceError {
    /// An error of this kind with no context.
    pub fn from(kind: ErrorKind) -> (r: ResurgenceError)
        ensures
            r.kind == kind,
            r.context is None,
    {
        ResurgenceError { kind, context: None }
    }
}

} // verus!
