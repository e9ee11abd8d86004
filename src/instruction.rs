use vstd::prelude::*;
use crate::register::{Register, RegisterLocation, RegisterReference};

verus! {

/// One instruction of the machine.
#[derive(Clone, Copy, Debug, PartialEq, Eq, Structural)]
pub enum Instruction {
    /// Does nothing.
    NoOp,
    /// Pushes a stack frame of this many empty registers.
    Alloc(u32),
    /// Pops this many stack frames.
    Free(u32),
    /// Appends this many empty registers to the global file or the current frame.
    FrameAlloc(u32, RegisterLocation),
    /// Removes this many registers from the global file or the current frame.
    FrameFree(u32, RegisterLocation),
    /// Moves the instruction pointer by this signed amount.
    Jump(i64),
    /// Runs the code at this absolute index until it returns.
    Call(u64),
    /// Calls the host callback that this import slot resolved to.
    ExtCall(u64),
    /// Returns from the innermost call.
    Ret,
    /// Moves a value: `dst, dst_mode, src, src_mode`.
    Mov(Register, RegisterReference, Register, RegisterReference),
    /// Copies a value: `dst, dst_mode, src, src_mode`.
    Cpy(Register, RegisterReference, Register, RegisterReference),
    /// Stores the address of `src` into `dst`.
    Ref(Register, RegisterReference, Register, RegisterReference),
    /// Pushes a copy of a register onto the value stack.
    StackPush(Register, RegisterReference),
    /// Discards the top of the value stack.
    StackPop,
    /// Pops the top of the value stack into a register.
    StackMov(Register, RegisterReference),
    /// `dst = lhs + rhs`.
    Add(Register, Register, Register),
    /// `dst = lhs - rhs`.
    Sub(Register, Register, Register),
    /// `dst = lhs * rhs`.
    Mul(Register, Register, Register),
    /// `dst = lhs / rhs`.
    Div(Register, Register, Register),
    /// `dst = lhs % rhs`.
    Mod(Register, Register, Register),
    /// Skips the next instruction when the operands are equal.
    Equal(Register, Register),
    /// Skips the next instruction when the operands differ.
    NotEqual(Register, Register),
    /// Skips the next instruction when `lhs > rhs`.
    Greater(Register, Register),
    /// Skips the next instruction when `lhs < rhs`.
    Less(Register, Register),
    /// Skips the next instruction when `lhs >= rhs`.
    GreaterEqual(Register, Register),
    /// Skips the next instruction when `lhs <= rhs`.
    LessEqual(Register, Register),
}

/// The instruction shapes of the first format revision, kept for tools that still emit them.
#[derive(Clone, Copy, Debug, PartialEq, Eq, Structural)]
pub enum ByteCode {
    Alloc(u32),
    Free(u32),
    Jump(u64),
    Mov(Register, RegisterReference, Register, RegisterReference),
    Cpy(Register, RegisterReference, Register, RegisterReference),
    Ref(Register, RegisterReference, Register, RegisterReference),
    Add(Register, Register, RegisterReference, Register, RegisterReference),
    Sub(Register, Register, RegisterReference, Register, RegisterReference),
    Mul(Register, Register, RegisterReference, Register, RegisterReference),
    Div(Register, Register, RegisterReference, Register, RegisterReference),
    Equal(Register, RegisterReference, Register, RegisterReference),
    NotEqual(Register, RegisterReference, Register, RegisterReference),
    Greater(Register, RegisterReference, Register, RegisterReference),
    Less(Register, RegisterReference, Register, RegisterReference),
    GreaterEqual(Register, RegisterReference, Register, RegisterReference),
    LessEqual(Register, RegisterReference, Register, RegisterReference),
}

} // verus!
