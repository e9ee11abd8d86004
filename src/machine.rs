use vstd::prelude::*;
use crate::constant::{
    cmp_spec, math_spec, CmpOp, Decision, FloatArg, FloatOp, FloatRequest, MathOp, Numeric, Value,
};
use crate::error::ErrorKind;
use crate::instruction::Instruction;
use crate::register::{Register, RegisterLocation, RegisterReference};

verus! {

/// What the engine waits for from the host.
#[derive(Clone, Copy, Debug, PartialEq, Eq, Structural)]
pub enum Pending {
    /// A floating-point result; `dst` receives a number, or a truth value decides a branch.
    Float(FloatRequest, Then),
    /// The callback at this index of the callback table is to be run.
    Host(usize),
}

/// What the engine does with a floating-point result.
#[derive(Clone, Copy, Debug, PartialEq, Eq, Structural)]
pub enum Then {
    /// Store the number in this (already resolved) register.
    Store(Register),
    /// Skip the next instruction when the truth value is true.
    Branch,
}

/// What one step of the engine asks of the host.
#[derive(Clone, Copy, Debug, PartialEq, Eq, Structural)]
pub enum Step {
    /// The instruction was carried out; the engine can go on.
    Running,
    /// The outermost call returned: execution is over.
    Finished,
    /// Compute this and hand the result to `resume_float`.
    Float(FloatRequest),
    /// Run this callback and report with `finish_host_call`.
    Host(usize),
}

/// What the host computed for a `Step::Float` request.
#[derive(Clone, Copy, Debug, PartialEq, Eq, Structural)]
pub enum FloatAnswer {
    /// The bit pattern of the binary64 result of an arithmetic operation or a widening.
    Number(u64),
    /// The outcome of a comparison.
    Truth(bool),
}

/// The state of the engine as a mathematical value.
pub struct Machine {
    pub accumulator: u64,
    pub frames: Seq<Seq<Option<Value>>>,
    pub stack: Seq<Value>,
    pub globals: Seq<Option<Value>>,
    pub code: Seq<Instruction>,
    pub pool: Seq<Value>,
    pub ip: int,
    pub returns: Seq<usize>,
    pub max_depth: nat,
    pub resolved: Seq<usize>,
    pub active: bool,
    pub pending: Option<Pending>,
}

/// The registers of the top frame; none when there is no frame.
pub open spec fn top_frame(m: Machine) -> Seq<Option<Value>> {
    if m.frames.len() == 0 {
        Seq::empty()
    } else {
        m.frames.last()
    }
}

pub open spec fn slot(s: Seq<Option<Value>>, i: u32) -> Result<Value, ErrorKind> {
    if i >= s.len() {
        Err(ErrorKind::RegisterOutOfBounds)
    } else {
        match s[i as int] {
            Some(v) => Ok(v),
            None => Err(ErrorKind::MemoryAddressUninitialized),
        }
    }
}

/// The value a register holds.
pub open spec fn read_spec(m: Machine, r: Register) -> Result<Value, ErrorKind> {
    match r.1 {
        RegisterLocation::ConstantPool => if r.0 < m.pool.len() {
            Ok(m.pool[r.0 as int])
        } else {
            Err(ErrorKind::RegisterOutOfBounds)
        },
        RegisterLocation::Accumulator => Ok(Value::Double(m.accumulator)),
        RegisterLocation::Global => slot(m.globals, r.0),
        RegisterLocation::Local => slot(top_frame(m), r.0),
    }
}

/// The register an operand designates once its reference mode is applied.
pub open spec fn resolve_spec(m: Machine, r: Register, mode: RegisterReference) -> Result<Register, ErrorKind> {
    match mode {
        RegisterReference::AsIs => Ok(r),
        RegisterReference::Dereference => match read_spec(m, r) {
            Ok(Value::Address(inner)) => Ok(inner),
            Ok(_) => Err(ErrorKind::InvalidOperation),
            Err(e) => Err(e),
        },
    }
}

/// Whether `v` may be written to `r`.
pub open spec fn write_spec(m: Machine, r: Register, v: Value) -> Result<(), ErrorKind> {
    match r.1 {
        RegisterLocation::ConstantPool => Err(ErrorKind::InvalidOperation),
        RegisterLocation::Accumulator => if v is Int || v is Double {
            Ok(())
        } else {
            Err(ErrorKind::InvalidOperation)
        },
        RegisterLocation::Global => if r.0 < m.globals.len() {
            Ok(())
        } else {
            Err(ErrorKind::RegisterOutOfBounds)
        },
        RegisterLocation::Local => if r.0 < top_frame(m).len() {
            Ok(())
        } else {
            Err(ErrorKind::RegisterOutOfBounds)
        },
    }
}

pub open spec fn set_top(m: Machine, f: Seq<Option<Value>>) -> Machine {
    Machine { frames: m.frames.update(m.frames.len() - 1, f), ..m }
}

/// `m` with `v` in register `r` (a write that `write_spec` allows and that needs no widening).
pub open spec fn store_spec(m: Machine, r: Register, v: Value) -> Machine {
    match r.1 {
        RegisterLocation::Accumulator => match v {
            Value::Double(b) => Machine { accumulator: b, ..m },
            _ => m,
        },
        RegisterLocation::Global => Machine { globals: m.globals.update(r.0 as int, Some(v)), ..m },
        RegisterLocation::Local => set_top(m, top_frame(m).update(r.0 as int, Some(v))),
        _ => m,
    }
}

/// `m` after a value is moved out of register `r`: a mutable slot is left empty.
pub open spec fn take_spec(m: Machine, r: Register) -> Machine {
    match r.1 {
        RegisterLocation::Global => Machine { globals: m.globals.update(r.0 as int, None), ..m },
        RegisterLocation::Local => set_top(m, top_frame(m).update(r.0 as int, None)),
        _ => m,
    }
}

pub open spec fn advance(m: Machine, by: int) -> Machine {
    Machine { ip: m.ip + by, ..m }
}

/// Writes `v` into `r` and moves on; an integer written to the accumulator first goes to
/// the host to be widened.
pub open spec fn finish_write(m: Machine, r: Register, v: Value) -> (Machine, Step) {
    if r.1 is Accumulator && v is Int {
        let req = FloatRequest { op: FloatOp::Widen, lhs: FloatArg::Int(v->Int_0), rhs: FloatArg::Int(0) };
        (Machine { pending: Some(Pending::Float(req, Then::Store(r))), ..m }, Step::Float(req))
    } else {
        (advance(store_spec(m, r, v), 1), Step::Running)
    }
}

pub open spec fn transfer_spec(
    m: Machine,
    dst: Register,
    dm: RegisterReference,
    src: Register,
    sm: RegisterReference,
    consume: bool,
) -> Result<(Machine, Step), ErrorKind> {
    match resolve_spec(m, dst, dm) {
        Err(e) => Err(e),
        Ok(d) => if d.1 is ConstantPool {
            Err(ErrorKind::InvalidOperation)
        } else {
            match resolve_spec(m, src, sm) {
                Err(e) => Err(e),
                Ok(s) => match read_spec(m, s) {
                    Err(e) => Err(e),
                    Ok(v) => match write_spec(m, d, v) {
                        Err(e) => Err(e),
                        Ok(_) => Ok(finish_write(if consume { take_spec(m, s) } else { m }, d, v)),
                    },
                },
            }
        },
    }
}

pub open spec fn ref_spec(m: Machine, dst: Register, dm: RegisterReference, src: Register, sm: RegisterReference) -> Result<
    (Machine, Step),
    ErrorKind,
> {
    match resolve_spec(m, dst, dm) {
        Err(e) => Err(e),
        Ok(d) => if !(d.1 is Global || d.1 is Local) {
            Err(ErrorKind::InvalidOperation)
        } else {
            match resolve_spec(m, src, sm) {
                Err(e) => Err(e),
                Ok(s) => match write_spec(m, d, Value::Address(s)) {
                    Err(e) => Err(e),
                    Ok(_) => Ok((advance(store_spec(m, d, Value::Address(s)), 1), Step::Running)),
                },
            }
        },
    }
}

pub open spec fn push_spec(m: Machine, r: Register, mode: RegisterReference) -> Result<(Machine, Step), ErrorKind> {
    match resolve_spec(m, r, mode) {
        Err(e) => Err(e),
        Ok(s) => match read_spec(m, s) {
            Err(e) => Err(e),
            Ok(v) => Ok((advance(Machine { stack: m.stack.push(v), ..m }, 1), Step::Running)),
        },
    }
}

pub open spec fn stack_mov_spec(m: Machine, r: Register, mode: RegisterReference) -> Result<(Machine, Step), ErrorKind> {
    match resolve_spec(m, r, mode) {
        Err(e) => Err(e),
        Ok(d) => if d.1 is ConstantPool || m.stack.len() == 0 {
            Err(ErrorKind::InvalidOperation)
        } else {
            let v = m.stack.last();
            match write_spec(m, d, v) {
                Err(e) => Err(e),
                Ok(_) => Ok(finish_write(Machine { stack: m.stack.drop_last(), ..m }, d, v)),
            }
        },
    }
}

pub open spec fn math_step_spec(m: Machine, op: MathOp, dst: Register, a: Register, b: Register) -> Result<
    (Machine, Step),
    ErrorKind,
> {
    match read_spec(m, a) {
        Err(e) => Err(e),
        Ok(x) => match read_spec(m, b) {
            Err(e) => Err(e),
            Ok(y) => match write_spec(m, dst, Value::Double(0)) {
                Err(e) => Err(e),
                Ok(_) => match math_spec(op, x, y) {
                    Err(e) => Err(e),
                    Ok(Numeric::Ready(c)) => match write_spec(m, dst, c@) {
                        Err(e) => Err(e),
                        Ok(_) => Ok(finish_write(m, dst, c@)),
                    },
                    Ok(Numeric::Float(req)) => Ok(
                        (Machine { pending: Some(Pending::Float(req, Then::Store(dst))), ..m }, Step::Float(req)),
                    ),
                },
            },
        },
    }
}

pub open spec fn cmp_step_spec(m: Machine, op: CmpOp, a: Register, b: Register) -> Result<(Machine, Step), ErrorKind> {
    match read_spec(m, a) {
        Err(e) => Err(e),
        Ok(x) => match read_spec(m, b) {
            Err(e) => Err(e),
            Ok(y) => match cmp_spec(op, x, y) {
                Err(e) => Err(e),
                Ok(Decision::Known(t)) => Ok((advance(m, if t { 2 } else { 1 }), Step::Running)),
                Ok(Decision::Float(req)) => Ok(
                    (Machine { pending: Some(Pending::Float(req, Then::Branch)), ..m }, Step::Float(req)),
                ),
            },
        },
    }
}

pub open spec fn empty_slots(n: nat) -> Seq<Option<Value>> {
    Seq::new(n, |i: int| None)
}

pub open spec fn frame_alloc_spec(m: Machine, n: u32, l: RegisterLocation) -> Result<(Machine, Step), ErrorKind> {
    match l {
        RegisterLocation::Global => Ok(
            (advance(Machine { globals: m.globals + empty_slots(n as nat), ..m }, 1), Step::Running),
        ),
        RegisterLocation::Local => if m.frames.len() == 0 {
            Err(ErrorKind::InvalidOperation)
        } else {
            Ok((advance(set_top(m, top_frame(m) + empty_slots(n as nat)), 1), Step::Running))
        },
        _ => Err(ErrorKind::InvalidOperation),
    }
}

/// `s` without its last `n` items, or empty when it has fewer.
pub open spec fn drop_n<T>(s: Seq<T>, n: nat) -> Seq<T> {
    if n >= s.len() {
        Seq::empty()
    } else {
        s.subrange(0, s.len() - n)
    }
}

pub open spec fn frame_free_spec(m: Machine, n: u32, l: RegisterLocation) -> Result<(Machine, Step), ErrorKind> {
    match l {
        RegisterLocation::Global => Ok(
            (advance(Machine { globals: drop_n(m.globals, n as nat), ..m }, 1), Step::Running),
        ),
        RegisterLocation::Local => if m.frames.len() == 0 {
            Err(ErrorKind::InvalidOperation)
        } else {
            Ok((advance(set_top(m, drop_n(top_frame(m), n as nat)), 1), Step::Running))
        },
        _ => Err(ErrorKind::InvalidOperation),
    }
}

/// Leaves the current call: back to the caller, or the end of execution.
pub open spec fn return_spec(m: Machine) -> (Machine, Step) {
    if m.returns.len() == 0 {
        (Machine { active: false, ..m }, Step::Finished)
    } else {
        (Machine { ip: m.returns.last() as int, returns: m.returns.drop_last(), ..m }, Step::Running)
    }
}

/// One instruction, when the engine is active and waits for nothing.
pub open spec fn exec_spec(m: Machine, i: Instruction) -> Result<(Machine, Step), ErrorKind> {
    match i {
        Instruction::NoOp => Ok((advance(m, 1), Step::Running)),
        Instruction::Alloc(n) => Ok(
            (advance(Machine { frames: m.frames.push(empty_slots(n as nat)), ..m }, 1), Step::Running),
        ),
        Instruction::Free(n) => Ok((advance(Machine { frames: drop_n(m.frames, n as nat), ..m }, 1), Step::Running)),
        Instruction::FrameAlloc(n, l) => frame_alloc_spec(m, n, l),
        Instruction::FrameFree(n, l) => frame_free_spec(m, n, l),
        Instruction::Jump(d) => if m.ip + d < 0 || m.ip + d > m.code.len() {
            Err(ErrorKind::InvalidOperation)
        } else {
            Ok((Machine { ip: m.ip + d, ..m }, Step::Running))
        },
        Instruction::Call(t) => if m.returns.len() >= m.max_depth {
            Err(ErrorKind::RecursionLimit)
        } else if t >= m.code.len() {
            Ok((advance(m, 1), Step::Running))
        } else {
            Ok((Machine { ip: t as int, returns: m.returns.push((m.ip + 1) as usize), ..m }, Step::Running))
        },
        Instruction::ExtCall(k) => if k >= m.resolved.len() {
            Err(ErrorKind::InvalidOperation)
        } else {
            let c = m.resolved[k as int];
            Ok((Machine { pending: Some(Pending::Host(c)), ..m }, Step::Host(c)))
        },
        Instruction::Ret => Ok(return_spec(m)),
        Instruction::Mov(d, dm, s, sm) => transfer_spec(m, d, dm, s, sm, true),
        Instruction::Cpy(d, dm, s, sm) => transfer_spec(m, d, dm, s, sm, false),
        Instruction::Ref(d, dm, s, sm) => ref_spec(m, d, dm, s, sm),
        Instruction::StackPush(r, mode) => push_spec(m, r, mode),
        Instruction::StackPop => Ok((advance(Machine { stack: drop_n(m.stack, 1), ..m }, 1), Step::Running)),
        Instruction::StackMov(r, mode) => stack_mov_spec(m, r, mode),
        Instruction::Add(d, a, b) => math_step_spec(m, MathOp::Add, d, a, b),
        Instruction::Sub(d, a, b) => math_step_spec(m, MathOp::Sub, d, a, b),
        Instruction::Mul(d, a, b) => math_step_spec(m, MathOp::Mul, d, a, b),
        Instruction::Div(d, a, b) => math_step_spec(m, MathOp::Div, d, a, b),
        Instruction::Mod(d, a, b) => math_step_spec(m, MathOp::Mod, d, a, b),
        Instruction::Equal(a, b) => cmp_step_spec(m, CmpOp::Equal, a, b),
        Instruction::NotEqual(a, b) => cmp_step_spec(m, CmpOp::NotEqual, a, b),
        Instruction::Greater(a, b) => cmp_step_spec(m, CmpOp::Greater, a, b),
        Instruction::Less(a, b) => cmp_step_spec(m, CmpOp::Less, a, b),
        Instruction::GreaterEqual(a, b) => cmp_step_spec(m, CmpOp::GreaterEqual, a, b),
        Instruction::LessEqual(a, b) => cmp_step_spec(m, CmpOp::LessEqual, a, b),
    }
}

/// One step of the engine.
pub open spec fn step_spec(m: Machine) -> Result<(Machine, Step), ErrorKind> {
    if !m.active {
        Ok((m, Step::Finished))
    } else if m.pending is Some {
        Ok((m, match m.pending->0 {
            Pending::Float(req, _) => Step::Float(req),
            Pending::Host(c) => Step::Host(c),
        }))
    } else if m.ip < 0 || m.ip >= m.code.len() {
        Ok(return_spec(m))
    } else {
        exec_spec(m, m.code[m.ip])
    }
}

/// The engine once the host has answered its floating-point request.
pub open spec fn resume_spec(m: Machine, a: FloatAnswer) -> Result<(Machine, Step), ErrorKind> {
    let m0 = Machine { pending: None, ..m };
    match (m.pending, a) {
        (Some(Pending::Float(_, Then::Store(r))), FloatAnswer::Number(b)) => match write_spec(m, r, Value::Double(b)) {
            Ok(_) => Ok((advance(store_spec(m0, r, Value::Double(b)), 1), Step::Running)),
            Err(e) => Err(e),
        },
        (Some(Pending::Float(_, Then::Branch)), FloatAnswer::Truth(t)) => Ok(
            (advance(m0, if t { 2 } else { 1 }), Step::Running),
        ),
        _ => Err(ErrorKind::InvalidOperation),
    }
}

/// The engine once the host callback has run successfully and left `stack` behind; `None`
/// when no callback was waited for. A callback that fails stops the engine instead.
pub open spec fn finish_host_spec(m: Machine, stack: Seq<Value>) -> Option<Machine> {
    if m.pending matches Some(Pending::Host(_)) {
        Some(advance(Machine { pending: None, stack, ..m }, 1))
    } else {
        None
    }
}

/// Up to `n` steps: stops at the first step that does not leave the machine running.
pub open spec fn run_spec(m: Machine, n: nat) -> Result<(Machine, Step), ErrorKind>
    decreases n,
{
    if n == 0 {
        Ok((m, Step::Running))
    } else {
        match step_spec(m) {
            Ok((m2, Step::Running)) => run_spec(m2, (n - 1) as nat),
            Ok((m2, s)) => Ok((m2, s)),
            Err(e) => Err(e),
        }
    }
}

} // verus!
