use vstd::prelude::*;
use crate::constant::{cmp_spec, math_spec, CmpOp, Decision, FloatArg, FloatOp, FloatRequest, MathOp, Value};
use crate::error::ErrorKind;
use crate::instruction::Instruction;
use crate::machine::{
    advance, exec_spec, read_spec, resume_spec, run_spec, step_spec, top_frame, FloatAnswer, Machine, Pending,
    Step, Then,
};
use crate::register::{Register, RegisterLocation, RegisterReference};

verus! {

/// The machine after `n` steps that each leave it running; it stops early when a step
/// finishes, waits for the host or fails.
pub open spec fn steps(m: Machine, n: nat) -> Result<Machine, ErrorKind>
    decreases n,
{
    if n == 0 {
        Ok(m)
    } else {
        match step_spec(m) {
            Ok((m2, Step::Running)) => steps(m2, (n - 1) as nat),
            Ok((m2, _)) => Ok(m2),
            Err(e) => Err(e),
        }
    }
}

/// The instruction at the instruction pointer is ready to run.
pub open spec fn at(m: Machine, i: Instruction) -> bool {
    &&& m.active
    &&& m.pending is None
    &&& 0 <= m.ip < m.code.len()
    &&& m.code[m.ip] == i
}

proof fn lemma_exec_keeps_image(m: Machine, i: Instruction)
    ensures
        exec_spec(m, i) matches Ok((m2, _)) ==> m2.code == m.code && m2.pool == m.pool,
{
    match i {
        Instruction::NoOp => {},
        Instruction::Alloc(_) => {},
        Instruction::Free(_) => {},
        Instruction::FrameAlloc(..) => {},
        Instruction::FrameFree(..) => {},
        Instruction::Jump(_) => {},
        Instruction::Call(_) => {},
        Instruction::ExtCall(_) => {},
        Instruction::Ret => {},
        Instruction::Mov(..) => {},
        Instruction::Cpy(..) => {},
        Instruction::Ref(..) => {},
        Instruction::StackPush(..) => {},
        Instruction::StackPop => {},
        Instruction::StackMov(..) => {},
        Instruction::Add(..) => {},
        Instruction::Sub(..) => {},
        Instruction::Mul(..) => {},
        Instruction::Div(..) => {},
        Instruction::Mod(..) => {},
        Instruction::Equal(..) => {},
        Instruction::NotEqual(..) => {},
        Instruction::Greater(..) => {},
        Instruction::Less(..) => {},
        Instruction::GreaterEqual(..) => {},
        Instruction::LessEqual(..) => {},
    }
}

/// A step never changes the instructions or the constant pool.
pub proof fn lemma_step_keeps_image(m: Machine)
    ensures
        step_spec(m) matches Ok((m2, _)) ==> m2.code == m.code && m2.pool == m.pool,
{
    if m.active && m.pending is None && 0 <= m.ip < m.code.len() {
        lemma_exec_keeps_image(m, m.code[m.ip]);
    }
}

/// Any number of steps leave the instructions and the constant pool as they were.
pub proof fn lemma_steps_keep_image(m: Machine, n: nat)
    ensures
        steps(m, n) matches Ok(m2) ==> m2.code == m.code && m2.pool == m.pool,
    decreases n,
{
    lemma_step_keeps_image(m);
    if n > 0 {
        if let Ok((m2, s)) = step_spec(m) {
            if s is Running {
                lemma_steps_keep_image(m2, (n - 1) as nat);
            }
        }
    }
}

/// After `Mov dst, src` on two different registers, a global or local source is empty.
pub proof fn lemma_move_empties_source(m: Machine, d: Register, s: Register)
    requires
        at(m, Instruction::Mov(d, RegisterReference::AsIs, s, RegisterReference::AsIs)),
        s.1 is Global || s.1 is Local,
        d != s,
        step_spec(m) is Ok,
    ensures
        read_spec(step_spec(m)->Ok_0.0, s) == Err::<Value, ErrorKind>(ErrorKind::MemoryAddressUninitialized),
{
}

/// After `Cpy dst, src` into a global or local register, the source is unchanged and the
/// destination holds the same value.
pub proof fn lemma_copy_keeps_source(m: Machine, d: Register, s: Register)
    requires
        at(m, Instruction::Cpy(d, RegisterReference::AsIs, s, RegisterReference::AsIs)),
        d.1 is Global || d.1 is Local,
        step_spec(m) is Ok,
    ensures
        read_spec(step_spec(m)->Ok_0.0, s) == read_spec(m, s),
        read_spec(step_spec(m)->Ok_0.0, d) == read_spec(m, s),
{
}

/// `Mov acc, src` of an integer from a global or local register empties the source and asks
/// the host to widen the integer; the widened bits then land in the accumulator.
pub proof fn lemma_move_into_accumulator(m: Machine, d: Register, s: Register, b: u64)
    requires
        at(m, Instruction::Mov(d, RegisterReference::AsIs, s, RegisterReference::AsIs)),
        d.1 is Accumulator,
        s.1 is Global || s.1 is Local,
        read_spec(m, s) matches Ok(Value::Int(_)),
    ensures
        ({
            let i = read_spec(m, s)->Ok_0->Int_0;
            let req = FloatRequest { op: FloatOp::Widen, lhs: FloatArg::Int(i), rhs: FloatArg::Int(0) };
            let m1 = step_spec(m)->Ok_0.0;
            &&& step_spec(m) is Ok
            &&& step_spec(m)->Ok_0.1 == Step::Float(req)
            &&& m1.pending == Some(Pending::Float(req, Then::Store(d)))
            &&& read_spec(m1, s) == Err::<Value, ErrorKind>(ErrorKind::MemoryAddressUninitialized)
            &&& resume_spec(m1, FloatAnswer::Number(b)) matches Ok((m2, Step::Running))
            &&& m2.accumulator == b
            &&& m2.ip == m.ip + 1
            &&& read_spec(m2, s) == Err::<Value, ErrorKind>(ErrorKind::MemoryAddressUninitialized)
        }),
{
}

pub open spec fn cmp_instruction(op: CmpOp, a: Register, b: Register) -> Instruction {
    match op {
        CmpOp::Equal => Instruction::Equal(a, b),
        CmpOp::NotEqual => Instruction::NotEqual(a, b),
        CmpOp::Greater => Instruction::Greater(a, b),
        CmpOp::Less => Instruction::Less(a, b),
        CmpOp::GreaterEqual => Instruction::GreaterEqual(a, b),
        CmpOp::LessEqual => Instruction::LessEqual(a, b),
    }
}

/// A comparison whose predicate is decided skips the next instruction when it is true and
/// falls through to it when it is false.
pub proof fn lemma_comparison_skips(m: Machine, op: CmpOp, a: Register, b: Register)
    requires
        at(m, cmp_instruction(op, a, b)),
        read_spec(m, a) is Ok,
        read_spec(m, b) is Ok,
        cmp_spec(op, read_spec(m, a)->Ok_0, read_spec(m, b)->Ok_0) matches Ok(Decision::Known(_)),
    ensures
        ({
            let t = cmp_spec(op, read_spec(m, a)->Ok_0, read_spec(m, b)->Ok_0)->Ok_0->Known_0;
            step_spec(m) == Ok::<(Machine, Step), ErrorKind>(
                (advance(m, if t { 2 } else { 1 }), Step::Running),
            )
        }),
{
}

/// The same law when the host decided the predicate.
pub proof fn lemma_float_comparison_skips(m: Machine, t: bool)
    requires
        m.pending matches Some(Pending::Float(_, Then::Branch)),
    ensures
        resume_spec(m, FloatAnswer::Truth(t)) == Ok::<(Machine, Step), ErrorKind>(
            (advance(Machine { pending: None, ..m }, if t { 2 } else { 1 }), Step::Running),
        ),
{
}

/// A target that calls itself nests until the configured depth and then fails with
/// `RecursionLimit`.
pub proof fn lemma_recursion_bound(m: Machine, t: int)
    requires
        at(m, Instruction::Call(t as u64)),
        m.ip == t,
        0 <= t < m.code.len() <= usize::MAX,
        m.returns.len() <= m.max_depth,
    ensures
        steps(m, (m.max_depth - m.returns.len()) as nat) matches Ok(m2) && m2.returns.len() == m.max_depth
            && m2.ip == t && step_spec(m2) == Err::<(Machine, Step), ErrorKind>(ErrorKind::RecursionLimit),
    decreases m.max_depth - m.returns.len(),
{
    if m.returns.len() < m.max_depth {
        let m1 = Machine { ip: t, returns: m.returns.push((m.ip + 1) as usize), ..m };
        assert(step_spec(m) == Ok::<(Machine, Step), ErrorKind>((m1, Step::Running)));
        lemma_recursion_bound(m1, t);
        assert((m.max_depth - m.returns.len()) as nat - 1 == (m1.max_depth - m1.returns.len()) as nat);
    }
}

/// The same bound for `Interpreter::run`: with fuel for one step more than the calls left,
/// a self-calling target ends in `RecursionLimit`.
pub proof fn lemma_run_recursion_bound(m: Machine, t: int, fuel: nat)
    requires
        at(m, Instruction::Call(t as u64)),
        m.ip == t,
        0 <= t < m.code.len() <= usize::MAX,
        m.returns.len() <= m.max_depth,
        fuel > m.max_depth - m.returns.len(),
    ensures
        run_spec(m, fuel) == Err::<(Machine, Step), ErrorKind>(ErrorKind::RecursionLimit),
    decreases m.max_depth - m.returns.len(),
{
    if m.returns.len() < m.max_depth {
        let m1 = Machine { ip: t, returns: m.returns.push((m.ip + 1) as usize), ..m };
        assert(step_spec(m) == Ok::<(Machine, Step), ErrorKind>((m1, Step::Running)));
        lemma_run_recursion_bound(m1, t, (fuel - 1) as nat);
    }
}

/// Division and remainder by an integer zero fail with `Overflow`.
pub proof fn lemma_division_by_zero(x: i64)
    ensures
        math_spec(MathOp::Div, Value::Int(x), Value::Int(0)) == Err::<crate::constant::Numeric, ErrorKind>(
            ErrorKind::Overflow,
        ),
        math_spec(MathOp::Mod, Value::Int(x), Value::Int(0)) == Err::<crate::constant::Numeric, ErrorKind>(
            ErrorKind::Overflow,
        ),
{
}

/// A jump to just past the last instruction ends the outermost call normally; a jump further
/// fails with `InvalidOperation`.
pub proof fn lemma_jump_bounds(m: Machine, d: i64)
    requires
        at(m, Instruction::Jump(d)),
    ensures
        m.ip + d == m.code.len() ==> (step_spec(m) matches Ok((m2, Step::Running)) && m2.ip == m.code.len() && (
        m.returns.len() == 0 ==> step_spec(m2) == Ok::<(Machine, Step), ErrorKind>(
            (Machine { active: false, ..m2 }, Step::Finished),
        ))),
        m.ip + d > m.code.len() ==> step_spec(m) == Err::<(Machine, Step), ErrorKind>(ErrorKind::InvalidOperation),
{
}

/// `FrameFree` of more registers than the current frame holds leaves it empty.
pub proof fn lemma_frame_free_saturates(m: Machine, n: u32)
    requires
        at(m, Instruction::FrameFree(n, RegisterLocation::Local)),
        m.frames.len() > 0,
        n >= top_frame(m).len(),
    ensures
        step_spec(m) matches Ok((m2, Step::Running)) && top_frame(m2).len() == 0,
{
}

} // verus!
