use vstd::prelude::*;
use crate::codeholder::{lookup, names_of, values_of, CodeHolder};
use crate::constant::{CmpOp, Constant, Decision, FloatArg, FloatOp, FloatRequest, MathOp, Numeric, Value};
use crate::error::{ErrorKind, ResurgenceContext, ResurgenceError};
use crate::instruction::Instruction;
use crate::seal::{mutate_event, RunTimeSeal, Status};
use crate::machine::{
    cmp_step_spec, drop_n, empty_slots, exec_spec, finish_host_spec, finish_write, frame_alloc_spec,
    frame_free_spec, math_step_spec, read_spec, resolve_spec, resume_spec, return_spec, run_spec, set_top,
    step_spec, store_spec, take_spec, top_frame, write_spec, FloatAnswer, Machine, Pending, Step, Then,
};
use crate::register::{Register, RegisterLocation, RegisterReference};
use crate::state::ResurgenceState;

verus! {

/// The local registers of one call.
#[derive(Debug)]
pub struct StackFrame {
    pub registers: Vec<Option<Constant>>,
}

pub open spec fn slot_view(o: Option<Constant>) -> Option<Value> {
    match o {
        Some(c) => Some(c@),
        None => None,
    }
}

pub open spec fn slots_of(s: Seq<Option<Constant>>) -> Seq<Option<Value>> {
    s.map_values(|o: Option<Constant>| slot_view(o))
}

pub open spec fn frames_of(s: Seq<StackFrame>) -> Seq<Seq<Option<Value>>> {
    s.map_values(|f: StackFrame| slots_of(f.registers@))
}

impl StackFrame {
    /// A frame of `size` empty registers.
    pub fn from(size: u32) -> (r: StackFrame)
        ensures
            slots_of(r.registers@) == empty_slots(size as nat),
    {
        let mut registers: Vec<Option<Constant>> = Vec::new();
        let mut k: u32 = 0;
        while k < size
            invariant
                k <= size,
                registers@.len() == k,
                forall|j: int| 0 <= j < k ==> registers@[j] is None,
            decreases size - k,
        {
            registers.push(None);
            k += 1;
        }
        assert(slots_of(registers@) =~= empty_slots(size as nat));
        StackFrame { registers }
    }

    /// Takes the value out of register `index`, leaving the register empty.
    pub fn mov_register(&mut self, index: u32) -> (r: Result<Constant, ErrorKind>)
        ensures
            match r {
                Ok(c) => crate::machine::slot(slots_of(old(self).registers@), index) == Ok::<Value, ErrorKind>(c@)
                    && slots_of(final(self).registers@) == slots_of(old(self).registers@).update(index as int, None),
                Err(e) => crate::machine::slot(slots_of(old(self).registers@), index) == Err::<Value, ErrorKind>(e)
                    && final(self).registers@ == old(self).registers@,
            },
    {
        if index as usize >= self.registers.len() {
            return Err(ErrorKind::RegisterOutOfBounds);
        }
        let mut taken: Option<Constant> = None;
        self.registers.set_and_swap(index as usize, &mut taken);
        match taken {
            Some(c) => {
                assert(slots_of(self.registers@) =~= slots_of(old(self).registers@).update(index as int, None));
                Ok(c)
            },
            None => {
                assert(self.registers@ =~= old(self).registers@);
                Err(ErrorKind::MemoryAddressUninitialized)
            },
        }
    }

    /// A copy of the value in register `index`.
    pub fn cpy_register(&self, index: u32) -> (r: Result<Constant, ErrorKind>)
        ensures
            match r {
                Ok(c) => crate::machine::slot(slots_of(self.registers@), index) == Ok::<Value, ErrorKind>(c@),
                Err(e) => crate::machine::slot(slots_of(self.registers@), index) == Err::<Value, ErrorKind>(e),
            },
    {
        Interpreter::read_slot(&self.registers, index)
    }

    /// The value in register `index`, if it holds one.
    pub fn ref_register(&self, index: u32) -> (r: Option<&Constant>)
        ensures
            match r {
                Some(c) => crate::machine::slot(slots_of(self.registers@), index) == Ok::<Value, ErrorKind>(c@),
                None => crate::machine::slot(slots_of(self.registers@), index) is Err,
            },
    {
        if index as usize >= self.registers.len() {
            return None;
        }
        match &self.registers[index as usize] {
            Some(c) => Some(c),
            None => None,
        }
    }
}

/// A host callback as the engine knows it: its name and whether it uses the C calling convention.
#[derive(Debug)]
pub struct RustFunc {
    pub name: String,
    pub native: bool,
}

/// The register machine.
pub struct Interpreter {
    accumulator: u64,
    call_stack: Vec<StackFrame>,
    stack: Vec<Constant>,
    code_holder: CodeHolder,
    global: Vec<Option<Constant>>,
    rust_functions: Vec<RustFunc>,
    resolved: Vec<usize>,
    resolved_imports: bool,
    returns: Vec<usize>,
    max_recursion_depth: usize,
    seal: RunTimeSeal,
    ip: usize,
    active: bool,
    pending: Option<Pending>,
}

/// The failing instruction's index, then the index of each `Call` that led to it, innermost first.
pub open spec fn call_path(m: Machine) -> Seq<usize> {
    Seq::new(
        m.returns.len() + 1,
        |k: int| if k == 0 { m.ip as usize } else { (m.returns[m.returns.len() - k] - 1) as usize },
    )
}

/// The instruction at the instruction pointer, if there is one.
pub open spec fn current(m: Machine) -> Option<Instruction> {
    if 0 <= m.ip < m.code.len() {
        Some(m.code[m.ip])
    } else {
        None
    }
}

/// `e` carries a snapshot of `m`.
pub open spec fn snapshot_of(e: ResurgenceError, m: Machine) -> bool {
    &&& e.context is Some
    &&& frames_of(e.context->0.call_stack@) == m.frames
    &&& values_of(e.context->0.constant_stack@) == m.stack
    &&& e.context->0.instruction == current(m)
    &&& e.context->0.instruction_pointer@ == call_path(m)
    &&& e.context->0.recursion_depth == m.returns.len()
}

/// `m` after a fault: it stops, nothing else changes.
pub open spec fn halted(m: Machine) -> Machine {
    Machine { active: false, ..m }
}

/// The first index of `names` that holds `n`.
pub open spec fn first_index(names: Seq<Seq<char>>, n: Seq<char>) -> Option<int> {
    if exists|j: int| 0 <= j < names.len() && names[j] == n {
        Some(choose|j: int| 0 <= j < names.len() && names[j] == n && forall|i: int| 0 <= i < j ==> names[i] != n)
    } else {
        None
    }
}

/// Import `k` is the first one that no callback is named after.
pub open spec fn first_missing(imports: Seq<Seq<char>>, names: Seq<Seq<char>>, k: int) -> bool {
    &&& 0 <= k < imports.len()
    &&& first_index(names, imports[k]) is None
    &&& forall|i: int| 0 <= i < k ==> first_index(names, imports[i]) is Some
}

/// Each import bound to the first callback of its name.
pub open spec fn resolution(imports: Seq<Seq<char>>, names: Seq<Seq<char>>, r: Seq<usize>) -> bool {
    &&& r.len() == imports.len()
    &&& forall|k: int| 0 <= k < imports.len() ==> first_index(names, imports[k]) == Some(#[trigger] r[k] as int)
}

pub open spec fn func_names(fs: Seq<RustFunc>) -> Seq<Seq<char>> {
    fs.map_values(|f: RustFunc| f.name@)
}

impl View for Interpreter {
    type V = Machine;

    closed spec fn view(&self) -> Machine {
        Machine {
            accumulator: self.accumulator,
            frames: frames_of(self.call_stack@),
            stack: values_of(self.stack@),
            globals: slots_of(self.global@),
            code: self.code_holder.instructions@,
            pool: values_of(self.code_holder.constant_pool@),
            ip: self.ip as int,
            returns: self.returns@,
            max_depth: self.max_recursion_depth as nat,
            resolved: self.resolved@,
            active: self.active,
            pending: self.pending,
        }
    }
}

impl Interpreter {
    fn top_len(&self) -> (r: usize)
        ensures
            r == top_frame(self@).len(),
    {
        if self.call_stack.len() == 0 {
            0
        } else {
            self.call_stack[self.call_stack.len() - 1].registers.len()
        }
    }

    fn read_slot(s: &Vec<Option<Constant>>, i: u32) -> (r: Result<Constant, ErrorKind>)
        ensures
            match r {
                Ok(c) => crate::machine::slot(slots_of(s@), i) == Ok::<Value, ErrorKind>(c@),
                Err(e) => crate::machine::slot(slots_of(s@), i) == Err::<Value, ErrorKind>(e),
            },
    {
        if i as usize >= s.len() {
            return Err(ErrorKind::RegisterOutOfBounds);
        }
        match &s[i as usize] {
            Some(c) => Ok(c.copy_value()),
            None => Err(ErrorKind::MemoryAddressUninitialized),
        }
    }

    /// A copy of the value register `r` holds.
    fn read(&self, r: Register) -> (res: Result<Constant, ErrorKind>)
        ensures
            match res {
                Ok(c) => read_spec(self@, r) == Ok::<Value, ErrorKind>(c@),
                Err(e) => read_spec(self@, r) == Err::<Value, ErrorKind>(e),
            },
    {
        match r.1 {
            RegisterLocation::ConstantPool => {
                if (r.0 as usize) < self.code_holder.constant_pool.len() {
                    Ok(self.code_holder.constant_pool[r.0 as usize].copy_value())
                } else {
                    Err(ErrorKind::RegisterOutOfBounds)
                }
            },
            RegisterLocation::Accumulator => Ok(Constant::Double(self.accumulator)),
            RegisterLocation::Global => Self::read_slot(&self.global, r.0),
            RegisterLocation::Local => {
                if self.call_stack.len() == 0 {
                    Err(ErrorKind::RegisterOutOfBounds)
                } else {
                    Self::read_slot(&self.call_stack[self.call_stack.len() - 1].registers, r.0)
                }
            },
        }
    }

    /// The register an operand designates.
    fn resolve(&self, r: Register, mode: RegisterReference) -> (res: Result<Register, ErrorKind>)
        ensures
            res == resolve_spec(self@, r, mode),
    {
        match mode {
            RegisterReference::AsIs => Ok(r),
            RegisterReference::Dereference => match self.read(r) {
                Ok(Constant::Address(inner)) => Ok(inner),
                Ok(_) => Err(ErrorKind::InvalidOperation),
                Err(e) => Err(e),
            },
        }
    }

    /// Whether `v` may be written to `r`.
    fn check_write(&self, r: Register, v: &Constant) -> (res: Result<(), ErrorKind>)
        ensures
            res == write_spec(self@, r, v@),
    {
        match r.1 {
            RegisterLocation::ConstantPool => Err(ErrorKind::InvalidOperation),
            RegisterLocation::Accumulator => match v {
                Constant::Int(_) | Constant::Double(_) => Ok(()),
                _ => Err(ErrorKind::InvalidOperation),
            },
            RegisterLocation::Global => if (r.0 as usize) < self.global.len() {
                Ok(())
            } else {
                Err(ErrorKind::RegisterOutOfBounds)
            },
            RegisterLocation::Local => if (r.0 as usize) < self.top_len() {
                Ok(())
            } else {
                Err(ErrorKind::RegisterOutOfBounds)
            },
        }
    }

    /// Sets slot `i` of the top frame.
    fn set_local(&mut self, i: usize, o: Option<Constant>)
        requires
            i < top_frame(old(self)@).len(),
        ensures
            final(self)@ == set_top(old(self)@, top_frame(old(self)@).update(i as int, slot_view(o))),
            final(self).code_holder == old(self).code_holder,
            final(self).rust_functions == old(self).rust_functions,
            final(self).resolved_imports == old(self).resolved_imports,
            final(self).seal == old(self).seal,
    {
        let mut f = self.call_stack.pop().unwrap();
        f.registers.set(i, o);
        self.call_stack.push(f);
        proof {
            assert(slots_of(f.registers@) =~= top_frame(old(self)@).update(i as int, slot_view(o)));
            assert(frames_of(self.call_stack@) =~= frames_of(old(self).call_stack@).update(
                old(self).call_stack@.len() - 1,
                slots_of(f.registers@),
            ));
        }
    }

    /// Writes `v` into `r`.
    fn store(&mut self, r: Register, v: Constant)
        requires
            write_spec(old(self)@, r, v@) is Ok,
            !(r.1 is Accumulator && v@ is Int),
        ensures
            final(self)@ == store_spec(old(self)@, r, v@),
            final(self).code_holder == old(self).code_holder,
            final(self).rust_functions == old(self).rust_functions,
            final(self).resolved_imports == old(self).resolved_imports,
            final(self).seal == old(self).seal,
    {
        let ghost v_view = v@;
        match r.1 {
            RegisterLocation::Accumulator => {
                if let Constant::Double(b) = v {
                    self.accumulator = b;
                }
            },
            RegisterLocation::Global => {
                self.global.set(r.0 as usize, Some(v));
                assert(slots_of(self.global@) =~= slots_of(old(self).global@).update(r.0 as int, Some(v_view)));
            },
            RegisterLocation::Local => {
                self.set_local(r.0 as usize, Some(v));
            },
            RegisterLocation::ConstantPool => {},
        }
    }

    /// Empties register `r` when it is a mutable slot.
    fn take(&mut self, r: Register)
        requires
            read_spec(old(self)@, r) is Ok,
        ensures
            final(self)@ == take_spec(old(self)@, r),
            final(self).code_holder == old(self).code_holder,
            final(self).rust_functions == old(self).rust_functions,
            final(self).resolved_imports == old(self).resolved_imports,
            final(self).seal == old(self).seal,
    {
        match r.1 {
            RegisterLocation::Global => {
                self.global.set(r.0 as usize, None);
                assert(slots_of(self.global@) =~= slots_of(old(self).global@).update(r.0 as int, None));
            },
            RegisterLocation::Local => {
                self.set_local(r.0 as usize, None);
            },
            _ => {},
        }
    }

    /// Writes `v` into `r` and moves on, or asks the host to widen an integer for the accumulator.
    fn finish_write(&mut self, r: Register, v: Constant) -> (s: Step)
        requires
            write_spec(old(self)@, r, v@) is Ok,
            old(self).ip < usize::MAX,
        ensures
            (final(self)@, s) == finish_write(old(self)@, r, v@),
            final(self).code_holder == old(self).code_holder,
            final(self).rust_functions == old(self).rust_functions,
            final(self).resolved_imports == old(self).resolved_imports,
            final(self).seal == old(self).seal,
    {
        if r.1 == RegisterLocation::Accumulator {
            if let Constant::Int(i) = v {
                let req = FloatRequest { op: FloatOp::Widen, lhs: FloatArg::Int(i), rhs: FloatArg::Int(0) };
                self.pending = Some(Pending::Float(req, Then::Store(r)));
                return Step::Float(req);
            }
        }
        self.store(r, v);
        self.ip = self.ip + 1;
        Step::Running
    }

    /// The machine's size limits: the program fits in memory, the instruction pointer and
    /// return addresses stay next to it.
    pub closed spec fn wf(&self) -> bool {
        &&& self.code_holder.instructions@.len() <= isize::MAX
        &&& self.ip <= self.code_holder.instructions@.len() + 1
        &&& forall|i: int|
            0 <= i < self.returns@.len() ==> 1 <= #[trigger] self.returns@[i] <= self.code_holder.instructions@.len() + 1
        &&& self.code_holder.wf()
        &&& (self.pending is Some ==> self.ip < self.code_holder.instructions@.len())
        &&& forall|k: int| 0 <= k < self.resolved@.len() ==> #[trigger] self.resolved@[k] < self.rust_functions@.len()
        &&& (self.pending matches Some(Pending::Host(c)) ==> c < self.rust_functions@.len())
    }

    fn transfer(
        &mut self,
        d: Register,
        dm: RegisterReference,
        s: Register,
        sm: RegisterReference,
        consume: bool,
    ) -> (r: Result<Step, ErrorKind>)
        requires
            old(self).wf(),
            old(self).pending is None,
            old(self).ip < old(self).code_holder.instructions@.len(),
        ensures
            final(self).wf(),
            final(self).code_holder == old(self).code_holder,
            final(self).rust_functions == old(self).rust_functions,
            final(self).resolved_imports == old(self).resolved_imports,
            final(self).seal == old(self).seal,
            match r {
                Ok(st) => crate::machine::transfer_spec(old(self)@, d, dm, s, sm, consume) == Ok::<
                    (Machine, Step),
                    ErrorKind,
                >((final(self)@, st)),
                Err(e) => crate::machine::transfer_spec(old(self)@, d, dm, s, sm, consume) == Err::<
                    (Machine, Step),
                    ErrorKind,
                >(e) && final(self)@ == old(self)@,
            },
    {
        let dr = self.resolve(d, dm)?;
        if dr.1 == RegisterLocation::ConstantPool {
            return Err(ErrorKind::InvalidOperation);
        }
        let sr = self.resolve(s, sm)?;
        let v = self.read(sr)?;
        self.check_write(dr, &v)?;
        if consume {
            self.take(sr);
        }
        Ok(self.finish_write(dr, v))
    }

    fn reference(&mut self, d: Register, dm: RegisterReference, s: Register, sm: RegisterReference) -> (r: Result<
        Step,
        ErrorKind,
    >)
        requires
            old(self).wf(),
            old(self).pending is None,
            old(self).ip < old(self).code_holder.instructions@.len(),
        ensures
            final(self).wf(),
            final(self).code_holder == old(self).code_holder,
            final(self).rust_functions == old(self).rust_functions,
            final(self).resolved_imports == old(self).resolved_imports,
            final(self).seal == old(self).seal,
            match r {
                Ok(st) => crate::machine::ref_spec(old(self)@, d, dm, s, sm) == Ok::<(Machine, Step), ErrorKind>(
                    (final(self)@, st),
                ),
                Err(e) => crate::machine::ref_spec(old(self)@, d, dm, s, sm) == Err::<(Machine, Step), ErrorKind>(e)
                    && final(self)@ == old(self)@,
            },
    {
        let dr = self.resolve(d, dm)?;
        if !(dr.1 == RegisterLocation::Global || dr.1 == RegisterLocation::Local) {
            return Err(ErrorKind::InvalidOperation);
        }
        let sr = self.resolve(s, sm)?;
        let v = Constant::Address(sr);
        self.check_write(dr, &v)?;
        self.store(dr, v);
        self.ip = self.ip + 1;
        Ok(Step::Running)
    }

    fn stack_push(&mut self, reg: Register, mode: RegisterReference) -> (r: Result<Step, ErrorKind>)
        requires
            old(self).wf(),
            old(self).pending is None,
            old(self).ip < old(self).code_holder.instructions@.len(),
        ensures
            final(self).wf(),
            final(self).code_holder == old(self).code_holder,
            final(self).rust_functions == old(self).rust_functions,
            final(self).resolved_imports == old(self).resolved_imports,
            final(self).seal == old(self).seal,
            match r {
                Ok(st) => crate::machine::push_spec(old(self)@, reg, mode) == Ok::<(Machine, Step), ErrorKind>(
                    (final(self)@, st),
                ),
                Err(e) => crate::machine::push_spec(old(self)@, reg, mode) == Err::<(Machine, Step), ErrorKind>(e)
                    && final(self)@ == old(self)@,
            },
    {
        let sr = self.resolve(reg, mode)?;
        let v = self.read(sr)?;
        let ghost vv = v@;
        self.stack.push(v);
        assert(values_of(self.stack@) =~= values_of(old(self).stack@).push(vv));
        self.ip = self.ip + 1;
        Ok(Step::Running)
    }

    fn stack_mov(&mut self, reg: Register, mode: RegisterReference) -> (r: Result<Step, ErrorKind>)
        requires
            old(self).wf(),
            old(self).pending is None,
            old(self).ip < old(self).code_holder.instructions@.len(),
        ensures
            final(self).wf(),
            final(self).code_holder == old(self).code_holder,
            final(self).rust_functions == old(self).rust_functions,
            final(self).resolved_imports == old(self).resolved_imports,
            final(self).seal == old(self).seal,
            match r {
                Ok(st) => crate::machine::stack_mov_spec(old(self)@, reg, mode) == Ok::<(Machine, Step), ErrorKind>(
                    (final(self)@, st),
                ),
                Err(e) => crate::machine::stack_mov_spec(old(self)@, reg, mode) == Err::<(Machine, Step), ErrorKind>(
                    e,
                ) && final(self)@ == old(self)@,
            },
    {
        let dr = self.resolve(reg, mode)?;
        if dr.1 == RegisterLocation::ConstantPool || self.stack.len() == 0 {
            return Err(ErrorKind::InvalidOperation);
        }
        self.check_write(dr, &self.stack[self.stack.len() - 1])?;
        let v = self.stack.pop().unwrap();
        assert(values_of(self.stack@) =~= values_of(old(self).stack@).drop_last());
        Ok(self.finish_write(dr, v))
    }

    fn math_step(&mut self, op: MathOp, d: Register, a: Register, b: Register) -> (r: Result<Step, ErrorKind>)
        requires
            old(self).wf(),
            old(self).pending is None,
            old(self).ip < old(self).code_holder.instructions@.len(),
        ensures
            final(self).wf(),
            final(self).code_holder == old(self).code_holder,
            final(self).rust_functions == old(self).rust_functions,
            final(self).resolved_imports == old(self).resolved_imports,
            final(self).seal == old(self).seal,
            match r {
                Ok(st) => math_step_spec(old(self)@, op, d, a, b) == Ok::<(Machine, Step), ErrorKind>(
                    (final(self)@, st),
                ),
                Err(e) => math_step_spec(old(self)@, op, d, a, b) == Err::<(Machine, Step), ErrorKind>(e)
                    && final(self)@ == old(self)@,
            },
    {
        let x = self.read(a)?;
        let y = self.read(b)?;
        self.check_write(d, &Constant::Double(0))?;
        match x.math(op, &y)? {
            Numeric::Ready(c) => {
                self.check_write(d, &c)?;
                Ok(self.finish_write(d, c))
            },
            Numeric::Float(req) => {
                self.pending = Some(Pending::Float(req, Then::Store(d)));
                Ok(Step::Float(req))
            },
        }
    }

    fn cmp_step(&mut self, op: CmpOp, a: Register, b: Register) -> (r: Result<Step, ErrorKind>)
        requires
            old(self).wf(),
            old(self).pending is None,
            old(self).ip < old(self).code_holder.instructions@.len(),
        ensures
            final(self).wf(),
            final(self).code_holder == old(self).code_holder,
            final(self).rust_functions == old(self).rust_functions,
            final(self).resolved_imports == old(self).resolved_imports,
            final(self).seal == old(self).seal,
            match r {
                Ok(st) => cmp_step_spec(old(self)@, op, a, b) == Ok::<(Machine, Step), ErrorKind>((final(self)@, st)),
                Err(e) => cmp_step_spec(old(self)@, op, a, b) == Err::<(Machine, Step), ErrorKind>(e)
                    && final(self)@ == old(self)@,
            },
    {
        let x = self.read(a)?;
        let y = self.read(b)?;
        match x.compare(op, &y)? {
            Decision::Known(t) => {
                self.ip = self.ip + if t { 2 } else { 1 };
                Ok(Step::Running)
            },
            Decision::Float(req) => {
                self.pending = Some(Pending::Float(req, Then::Branch));
                Ok(Step::Float(req))
            },
        }
    }

    fn none_slots(v: &mut Vec<Option<Constant>>, n: u32)
        ensures
            slots_of(final(v)@) == slots_of(old(v)@) + empty_slots(n as nat),
    {
        let mut k: u32 = 0;
        while k < n
            invariant
                k <= n,
                v@.len() == old(v)@.len() + k,
                forall|j: int| 0 <= j < old(v)@.len() ==> v@[j] == old(v)@[j],
                forall|j: int| old(v)@.len() <= j < v@.len() ==> v@[j] is None,
            decreases n - k,
        {
            v.push(None);
            k += 1;
        }
        assert(slots_of(v@) =~= slots_of(old(v)@) + empty_slots(n as nat));
    }

    fn drop_slots(v: &mut Vec<Option<Constant>>, n: u32)
        ensures
            slots_of(final(v)@) == drop_n(slots_of(old(v)@), n as nat),
    {
        let mut k: u32 = 0;
        while k < n && v.len() > 0
            invariant
                k <= n,
                k <= old(v)@.len(),
                v@ == old(v)@.subrange(0, old(v)@.len() - k),
            decreases n - k,
        {
            v.pop();
            k += 1;
        }
        assert(slots_of(v@) =~= drop_n(slots_of(old(v)@), n as nat));
    }

    fn frame_alloc(&mut self, n: u32, l: RegisterLocation) -> (r: Result<Step, ErrorKind>)
        requires
            old(self).wf(),
            old(self).pending is None,
            old(self).ip < old(self).code_holder.instructions@.len(),
        ensures
            final(self).wf(),
            final(self).code_holder == old(self).code_holder,
            final(self).rust_functions == old(self).rust_functions,
            final(self).resolved_imports == old(self).resolved_imports,
            final(self).seal == old(self).seal,
            match r {
                Ok(st) => frame_alloc_spec(old(self)@, n, l) == Ok::<(Machine, Step), ErrorKind>((final(self)@, st)),
                Err(e) => frame_alloc_spec(old(self)@, n, l) == Err::<(Machine, Step), ErrorKind>(e)
                    && final(self)@ == old(self)@,
            },
    {
        match l {
            RegisterLocation::Global => {
                Self::none_slots(&mut self.global, n);
            },
            RegisterLocation::Local => {
                if self.call_stack.len() == 0 {
                    return Err(ErrorKind::InvalidOperation);
                }
                let mut f = self.call_stack.pop().unwrap();
                Self::none_slots(&mut f.registers, n);
                self.call_stack.push(f);
                assert(frames_of(self.call_stack@) =~= frames_of(old(self).call_stack@).update(
                    old(self).call_stack@.len() - 1,
                    slots_of(f.registers@),
                ));
            },
            _ => {
                return Err(ErrorKind::InvalidOperation);
            },
        }
        self.ip = self.ip + 1;
        Ok(Step::Running)
    }

    fn frame_free(&mut self, n: u32, l: RegisterLocation) -> (r: Result<Step, ErrorKind>)
        requires
            old(self).wf(),
            old(self).pending is None,
            old(self).ip < old(self).code_holder.instructions@.len(),
        ensures
            final(self).wf(),
            final(self).code_holder == old(self).code_holder,
            final(self).rust_functions == old(self).rust_functions,
            final(self).resolved_imports == old(self).resolved_imports,
            final(self).seal == old(self).seal,
            match r {
                Ok(st) => frame_free_spec(old(self)@, n, l) == Ok::<(Machine, Step), ErrorKind>((final(self)@, st)),
                Err(e) => frame_free_spec(old(self)@, n, l) == Err::<(Machine, Step), ErrorKind>(e)
                    && final(self)@ == old(self)@,
            },
    {
        match l {
            RegisterLocation::Global => {
                Self::drop_slots(&mut self.global, n);
            },
            RegisterLocation::Local => {
                if self.call_stack.len() == 0 {
                    return Err(ErrorKind::InvalidOperation);
                }
                let mut f = self.call_stack.pop().unwrap();
                Self::drop_slots(&mut f.registers, n);
                self.call_stack.push(f);
                assert(frames_of(self.call_stack@) =~= frames_of(old(self).call_stack@).update(
                    old(self).call_stack@.len() - 1,
                    slots_of(f.registers@),
                ));
            },
            _ => {
                return Err(ErrorKind::InvalidOperation);
            },
        }
        self.ip = self.ip + 1;
        Ok(Step::Running)
    }

    fn push_frame(&mut self, n: u32)
        requires
            old(self).wf(),
            old(self).pending is None,
            old(self).ip < old(self).code_holder.instructions@.len(),
        ensures
            final(self).wf(),
            final(self).code_holder == old(self).code_holder,
            final(self).rust_functions == old(self).rust_functions,
            final(self).resolved_imports == old(self).resolved_imports,
            final(self).seal == old(self).seal,
            exec_spec(old(self)@, Instruction::Alloc(n)) == Ok::<(Machine, Step), ErrorKind>(
                (final(self)@, Step::Running),
            ),
    {
        let frame = StackFrame::from(n);
        self.call_stack.push(frame);
        assert(frames_of(self.call_stack@) =~= frames_of(old(self).call_stack@).push(empty_slots(n as nat)));
        self.ip = self.ip + 1;
    }

    fn pop_frames(&mut self, n: u32)
        requires
            old(self).wf(),
            old(self).pending is None,
            old(self).ip < old(self).code_holder.instructions@.len(),
        ensures
            final(self).wf(),
            final(self).code_holder == old(self).code_holder,
            final(self).rust_functions == old(self).rust_functions,
            final(self).resolved_imports == old(self).resolved_imports,
            final(self).seal == old(self).seal,
            exec_spec(old(self)@, Instruction::Free(n)) == Ok::<(Machine, Step), ErrorKind>(
                (final(self)@, Step::Running),
            ),
    {
        let mut k: u32 = 0;
        while k < n && self.call_stack.len() > 0
            invariant
                k <= n,
                k <= old(self).call_stack@.len(),
                self.call_stack@ == old(self).call_stack@.subrange(0, old(self).call_stack@.len() - k),
                self.code_holder == old(self).code_holder,
                self.rust_functions == old(self).rust_functions,
                self.resolved_imports == old(self).resolved_imports,
                self.global == old(self).global,
                self.stack == old(self).stack,
                self.ip == old(self).ip,
                self.returns == old(self).returns,
                self.accumulator == old(self).accumulator,
                self.max_recursion_depth == old(self).max_recursion_depth,
                self.resolved == old(self).resolved,
                self.active == old(self).active,
                self.pending == old(self).pending,
                self.seal == old(self).seal,
            decreases n - k,
        {
            self.call_stack.pop();
            k += 1;
        }
        assert(frames_of(self.call_stack@) =~= drop_n(frames_of(old(self).call_stack@), n as nat));
        self.ip = self.ip + 1;
    }

    fn leave(&mut self) -> (s: Step)
        requires
            old(self).wf(),
            old(self).pending is None,
        ensures
            final(self).wf(),
            final(self).code_holder == old(self).code_holder,
            final(self).rust_functions == old(self).rust_functions,
            final(self).resolved_imports == old(self).resolved_imports,
            final(self).seal == old(self).seal,
            (final(self)@, s) == return_spec(old(self)@),
    {
        match self.returns.pop() {
            Some(back) => {
                self.ip = back;
                Step::Running
            },
            None => {
                self.active = false;
                Step::Finished
            },
        }
    }

    fn jump(&mut self, d: i64) -> (r: Result<Step, ErrorKind>)
        requires
            old(self).wf(),
            old(self).pending is None,
            old(self).ip < old(self).code_holder.instructions@.len(),
        ensures
            final(self).wf(),
            final(self).code_holder == old(self).code_holder,
            final(self).rust_functions == old(self).rust_functions,
            final(self).resolved_imports == old(self).resolved_imports,
            final(self).seal == old(self).seal,
            match r {
                Ok(st) => exec_spec(old(self)@, Instruction::Jump(d)) == Ok::<(Machine, Step), ErrorKind>(
                    (final(self)@, st),
                ),
                Err(e) => exec_spec(old(self)@, Instruction::Jump(d)) == Err::<(Machine, Step), ErrorKind>(e)
                    && final(self)@ == old(self)@,
            },
    {
        let target: i128 = self.ip as i128 + d as i128;
        if target < 0 || target > self.code_holder.instructions.len() as i128 {
            return Err(ErrorKind::InvalidOperation);
        }
        self.ip = target as usize;
        Ok(Step::Running)
    }

    fn call(&mut self, t: u64) -> (r: Result<Step, ErrorKind>)
        requires
            old(self).wf(),
            old(self).pending is None,
            old(self).ip < old(self).code_holder.instructions@.len(),
        ensures
            final(self).wf(),
            final(self).code_holder == old(self).code_holder,
            final(self).rust_functions == old(self).rust_functions,
            final(self).resolved_imports == old(self).resolved_imports,
            final(self).seal == old(self).seal,
            match r {
                Ok(st) => exec_spec(old(self)@, Instruction::Call(t)) == Ok::<(Machine, Step), ErrorKind>(
                    (final(self)@, st),
                ),
                Err(e) => exec_spec(old(self)@, Instruction::Call(t)) == Err::<(Machine, Step), ErrorKind>(e)
                    && final(self)@ == old(self)@,
            },
    {
        if self.returns.len() >= self.max_recursion_depth {
            return Err(ErrorKind::RecursionLimit);
        }
        if t >= self.code_holder.instructions.len() as u64 {
            self.ip = self.ip + 1;
        } else {
            self.returns.push(self.ip + 1);
            self.ip = t as usize;
        }
        Ok(Step::Running)
    }

    fn ext_call(&mut self, k: u64) -> (r: Result<Step, ErrorKind>)
        requires
            old(self).wf(),
            old(self).pending is None,
            old(self).ip < old(self).code_holder.instructions@.len(),
        ensures
            final(self).wf(),
            final(self).code_holder == old(self).code_holder,
            final(self).rust_functions == old(self).rust_functions,
            final(self).resolved_imports == old(self).resolved_imports,
            final(self).seal == old(self).seal,
            match r {
                Ok(st) => exec_spec(old(self)@, Instruction::ExtCall(k)) == Ok::<(Machine, Step), ErrorKind>(
                    (final(self)@, st),
                ),
                Err(e) => exec_spec(old(self)@, Instruction::ExtCall(k)) == Err::<(Machine, Step), ErrorKind>(e)
                    && final(self)@ == old(self)@,
            },
    {
        if k >= self.resolved.len() as u64 {
            return Err(ErrorKind::InvalidOperation);
        }
        let c = self.resolved[k as usize];
        self.pending = Some(Pending::Host(c));
        Ok(Step::Host(c))
    }

    fn simple(&mut self, i: Instruction) -> (st: Step)
        requires
            old(self).wf(),
            old(self).pending is None,
            old(self).ip < old(self).code_holder.instructions@.len(),
            i is NoOp || i is StackPop || i is Alloc || i is Free || i is Ret,
        ensures
            final(self).wf(),
            final(self).code_holder == old(self).code_holder,
            final(self).rust_functions == old(self).rust_functions,
            final(self).resolved_imports == old(self).resolved_imports,
            final(self).seal == old(self).seal,
            exec_spec(old(self)@, i) == Ok::<(Machine, Step), ErrorKind>((final(self)@, st)),
    {
        match i {
            Instruction::Alloc(n) => {
                self.push_frame(n);
                Step::Running
            },
            Instruction::Free(n) => {
                self.pop_frames(n);
                Step::Running
            },
            Instruction::Ret => self.leave(),
            Instruction::StackPop => {
                self.stack.pop();
                assert(values_of(self.stack@) =~= drop_n(values_of(old(self).stack@), 1));
                self.ip = self.ip + 1;
                Step::Running
            },
            _ => {
                self.ip = self.ip + 1;
                Step::Running
            },
        }
    }

    #[verifier::rlimit(50)]
    fn execute(&mut self, i: Instruction) -> (r: Result<Step, ErrorKind>)
        requires
            old(self).wf(),
            old(self).pending is None,
            old(self).ip < old(self).code_holder.instructions@.len(),
        ensures
            final(self).wf(),
            final(self).code_holder == old(self).code_holder,
            final(self).rust_functions == old(self).rust_functions,
            final(self).resolved_imports == old(self).resolved_imports,
            final(self).seal == old(self).seal,
            match r {
                Ok(st) => exec_spec(old(self)@, i) == Ok::<(Machine, Step), ErrorKind>((final(self)@, st)),
                Err(e) => exec_spec(old(self)@, i) == Err::<(Machine, Step), ErrorKind>(e) && final(self)@
                    == old(self)@,
            },
    {
        match i {
            Instruction::NoOp | Instruction::Alloc(_) | Instruction::Free(_) | Instruction::Ret
            | Instruction::StackPop => Ok(self.simple(i)),
            Instruction::FrameAlloc(n, l) => self.frame_alloc(n, l),
            Instruction::FrameFree(n, l) => self.frame_free(n, l),
            Instruction::Jump(d) => self.jump(d),
            Instruction::Call(t) => self.call(t),
            Instruction::ExtCall(k) => self.ext_call(k),
            Instruction::Mov(d, dm, s, sm) => self.transfer(d, dm, s, sm, true),
            Instruction::Cpy(d, dm, s, sm) => self.transfer(d, dm, s, sm, false),
            Instruction::Ref(d, dm, s, sm) => self.reference(d, dm, s, sm),
            Instruction::StackPush(r, m) => self.stack_push(r, m),
            Instruction::StackMov(r, m) => self.stack_mov(r, m),
            Instruction::Add(d, a, b) => self.math_step(MathOp::Add, d, a, b),
            Instruction::Sub(d, a, b) => self.math_step(MathOp::Sub, d, a, b),
            Instruction::Mul(d, a, b) => self.math_step(MathOp::Mul, d, a, b),
            Instruction::Div(d, a, b) => self.math_step(MathOp::Div, d, a, b),
            Instruction::Mod(d, a, b) => self.math_step(MathOp::Mod, d, a, b),
            Instruction::Equal(a, b) => self.cmp_step(CmpOp::Equal, a, b),
            Instruction::NotEqual(a, b) => self.cmp_step(CmpOp::NotEqual, a, b),
            Instruction::Greater(a, b) => self.cmp_step(CmpOp::Greater, a, b),
            Instruction::Less(a, b) => self.cmp_step(CmpOp::Less, a, b),
            Instruction::GreaterEqual(a, b) => self.cmp_step(CmpOp::GreaterEqual, a, b),
            Instruction::LessEqual(a, b) => self.cmp_step(CmpOp::LessEqual, a, b),
        }
    }

    /// The names in the callback table, by index.
    pub closed spec fn callback_names(&self) -> Seq<Seq<char>> {
        func_names(self.rust_functions@)
    }

    /// Which callbacks use the C calling convention, by index.
    pub closed spec fn callback_natives(&self) -> Seq<bool> {
        self.rust_functions@.map_values(|f: RustFunc| f.native)
    }

    /// The lifecycle state of the seal.
    pub closed spec fn seal_status(&self) -> Status {
        self.seal.status()
    }

    /// The program image the machine runs.
    pub closed spec fn image(&self) -> crate::codeholder::Image {
        self.code_holder@
    }

    /// Whether the imports have been resolved.
    pub closed spec fn imports_resolved(&self) -> bool {
        self.resolved_imports
    }

    /// A machine for image `ch`, with the default recursion limit of 1000.
    pub fn from(ch: CodeHolder) -> (r: Interpreter)
        requires
            ch.wf(),
            ch@.instructions.len() <= isize::MAX,
        ensures
            r.wf(),
            r@ == (Machine {
                accumulator: 0,
                frames: Seq::empty(),
                stack: Seq::empty(),
                globals: Seq::empty(),
                code: ch@.instructions,
                pool: ch@.constants,
                ip: 0,
                returns: Seq::empty(),
                max_depth: 1000,
                resolved: Seq::empty(),
                active: false,
                pending: None,
            }),
            r.image() == ch@,
            r.callback_names() == Seq::<Seq<char>>::empty(),
            r.seal_status() == Status::NotStarted,
            !r.imports_resolved(),
    {
        let r = Interpreter {
            accumulator: 0,
            call_stack: Vec::new(),
            stack: Vec::new(),
            code_holder: ch,
            global: Vec::new(),
            rust_functions: Vec::new(),
            resolved: Vec::new(),
            resolved_imports: false,
            returns: Vec::new(),
            max_recursion_depth: 1000,
            seal: RunTimeSeal::new(),
            ip: 0,
            active: false,
            pending: None,
        };
        assert(r@.frames =~= Seq::<Seq<Option<Value>>>::empty());
        assert(r@.stack =~= Seq::<Value>::empty());
        assert(r@.globals =~= Seq::<Option<Value>>::empty());
        assert(r.callback_names() =~= Seq::<Seq<char>>::empty());
        r
    }

    /// Sets how many nested calls may be active at once.
    pub fn set_max_depth(&mut self, new_depth: usize)
        requires
            old(self).wf(),
        ensures
            final(self).wf(),
            final(self)@ == (Machine { max_depth: new_depth as nat, ..old(self)@ }),
            final(self).image() == old(self).image(),
            final(self).callback_names() == old(self).callback_names(),
            final(self).seal_status() == old(self).seal_status(),
            final(self).imports_resolved() == old(self).imports_resolved(),
    {
        self.max_recursion_depth = new_depth;
    }

    /// Adds a callback to the table; after execution has begun this tampers the seal.
    pub fn register_function(&mut self, func_name: String)
        requires
            old(self).wf(),
        ensures
            final(self).wf(),
            final(self)@ == old(self)@,
            final(self).image() == old(self).image(),
            final(self).callback_names() == old(self).callback_names().push(func_name@),
            final(self).seal_status() == mutate_event(old(self).seal_status()),
            final(self).imports_resolved() == old(self).imports_resolved(),
    {
        self.add_callback(func_name, false);
    }

    /// Adds a callback with the C calling convention; after execution has begun this tampers the seal.
    pub fn register_native_function(&mut self, func_name: String)
        requires
            old(self).wf(),
        ensures
            final(self).wf(),
            final(self)@ == old(self)@,
            final(self).image() == old(self).image(),
            final(self).callback_names() == old(self).callback_names().push(func_name@),
            final(self).seal_status() == mutate_event(old(self).seal_status()),
            final(self).imports_resolved() == old(self).imports_resolved(),
    {
        self.add_callback(func_name, true);
    }

    fn add_callback(&mut self, func_name: String, native: bool)
        requires
            old(self).wf(),
        ensures
            final(self).wf(),
            final(self)@ == old(self)@,
            final(self).image() == old(self).image(),
            final(self).callback_names() == old(self).callback_names().push(func_name@),
            final(self).seal_status() == mutate_event(old(self).seal_status()),
            final(self).imports_resolved() == old(self).imports_resolved(),
    {
        let ghost n = func_name@;
        self.rust_functions.push(RustFunc { name: func_name, native });
        self.seal.mutated();
        assert(func_names(self.rust_functions@) =~= func_names(old(self).rust_functions@).push(n));
    }

    /// Whether callback `index` uses the C calling convention.
    pub fn is_native(&self, index: usize) -> (r: bool)
        requires
            index < self.callback_names().len(),
        ensures
            r == self.callback_natives()[index as int],
    {
        self.rust_functions[index].native
    }

    /// The index of the first callback named `name`.
    fn find_callback(&self, name: &String) -> (r: Option<usize>)
        ensures
            match r {
                Some(j) => first_index(self.callback_names(), name@) == Some(j as int) && j
                    < self.rust_functions@.len(),
                None => first_index(self.callback_names(), name@) is None,
            },
    {
        let ghost names = self.callback_names();
        let mut j: usize = 0;
        while j < self.rust_functions.len()
            invariant
                0 <= j <= self.rust_functions@.len(),
                names == func_names(self.rust_functions@),
                forall|i: int| 0 <= i < j ==> names[i] != name@,
            decreases self.rust_functions@.len() - j,
        {
            if self.rust_functions[j].name == *name {
                proof {
                    assert(names[j as int] == name@);
                    let c = choose|c: int|
                        0 <= c < names.len() && names[c] == name@ && forall|i: int| 0 <= i < c ==> names[i] != name@;
                    assert(c == j);
                }
                return Some(j);
            }
            j += 1;
        }
        None
    }

    /// Binds every import to the first callback of its name.
    pub fn resolve_imports(&mut self) -> (r: Result<(), ErrorKind>)
        requires
            old(self).wf(),
        ensures
            final(self).wf(),
            final(self).image() == old(self).image(),
            final(self).callback_names() == old(self).callback_names(),
            final(self).seal_status() == old(self).seal_status(),
            match r {
                Ok(_) => final(self).imports_resolved() && resolution(
                    old(self).image().imports,
                    old(self).callback_names(),
                    final(self)@.resolved,
                ) && final(self)@ == (Machine { resolved: final(self)@.resolved, ..old(self)@ }),
                Err(e) => e is MissingImport && (exists|k: int|
                    0 <= k < old(self).image().imports.len() && e->MissingImport_0@ == old(self).image().imports[k]
                        && first_index(old(self).callback_names(), old(self).image().imports[k]) is None
                        && forall|i: int|
                        0 <= i < k ==> first_index(old(self).callback_names(), old(self).image().imports[i]) is Some)
                    && final(self)@ == old(self)@ && final(self).imports_resolved() == old(self).imports_resolved(),
            },
    {
        let ghost imports = self.code_holder@.imports;
        let mut table: Vec<usize> = Vec::new();
        let mut k: usize = 0;
        while k < self.code_holder.imports.len()
            invariant
                0 <= k <= imports.len(),
                imports == self.code_holder@.imports,
                imports == names_of(self.code_holder.imports@),
                table@.len() == k,
                self.wf(),
                self.rust_functions == old(self).rust_functions,
                self.code_holder == old(self).code_holder,
                self.resolved == old(self).resolved,
                self.resolved_imports == old(self).resolved_imports,
                self.seal == old(self).seal,
                self@ == old(self)@,
                forall|i: int| 0 <= i < k ==> first_index(self.callback_names(), imports[i]) == Some(#[trigger] table@[i] as int),
                forall|i: int| 0 <= i < k ==> table@[i] < self.rust_functions@.len(),
            decreases imports.len() - k,
        {
            match self.find_callback(&self.code_holder.imports[k]) {
                Some(j) => {
                    table.push(j);
                },
                None => {
                    let name = self.code_holder.imports[k].clone();
                    proof {
                        assert forall|i: int| 0 <= i < k implies first_index(self.callback_names(), imports[i]) is Some by {
                            assert(first_index(self.callback_names(), imports[i]) == Some(table@[i] as int));
                        }
                    }
                    assert(name@ == imports[k as int]);
                    assert(first_index(old(self).callback_names(), old(self).image().imports[k as int]) is None);
                    return Err(ErrorKind::MissingImport(name));
                },
            }
            k += 1;
        }
        self.resolved = table;
        self.resolved_imports = true;
        Ok(())
    }

    fn copy_slots(v: &Vec<Option<Constant>>) -> (r: Vec<Option<Constant>>)
        ensures
            slots_of(r@) == slots_of(v@),
    {
        let mut out: Vec<Option<Constant>> = Vec::new();
        let mut i: usize = 0;
        while i < v.len()
            invariant
                0 <= i <= v@.len(),
                out@.len() == i,
                forall|j: int| 0 <= j < i ==> slot_view(#[trigger] out@[j]) == slot_view(v@[j]),
            decreases v@.len() - i,
        {
            let o = match &v[i] {
                Some(c) => Some(c.copy_value()),
                None => None,
            };
            out.push(o);
            i += 1;
        }
        assert(slots_of(out@) =~= slots_of(v@));
        out
    }

    fn copy_values(v: &Vec<Constant>) -> (r: Vec<Constant>)
        ensures
            values_of(r@) == values_of(v@),
    {
        let mut out: Vec<Constant> = Vec::new();
        let mut i: usize = 0;
        while i < v.len()
            invariant
                0 <= i <= v@.len(),
                out@.len() == i,
                forall|j: int| 0 <= j < i ==> (#[trigger] out@[j])@ == v@[j]@,
            decreases v@.len() - i,
        {
            out.push(v[i].copy_value());
            i += 1;
        }
        assert(values_of(out@) =~= values_of(v@));
        out
    }

    /// An error of kind `kind` with a snapshot of the machine.
    fn fault(&self, kind: ErrorKind) -> (e: ResurgenceError)
        requires
            self.wf(),
        ensures
            e.kind == kind,
            snapshot_of(e, self@),
    {
        let mut frames: Vec<StackFrame> = Vec::new();
        let mut i: usize = 0;
        while i < self.call_stack.len()
            invariant
                0 <= i <= self.call_stack@.len(),
                frames@.len() == i,
                forall|j: int| 0 <= j < i ==> slots_of((#[trigger] frames@[j]).registers@) == slots_of(self.call_stack@[j].registers@),
            decreases self.call_stack@.len() - i,
        {
            frames.push(StackFrame { registers: Self::copy_slots(&self.call_stack[i].registers) });
            i += 1;
        }
        assert(frames_of(frames@) =~= frames_of(self.call_stack@));
        let mut funcs: Vec<RustFunc> = Vec::new();
        let mut i: usize = 0;
        while i < self.rust_functions.len()
            invariant
                0 <= i <= self.rust_functions@.len(),
            decreases self.rust_functions@.len() - i,
        {
            funcs.push(RustFunc { name: self.rust_functions[i].name.clone(), native: self.rust_functions[i].native });
            i += 1;
        }
        let mut path: Vec<usize> = Vec::new();
        path.push(self.ip);
        let mut j: usize = self.returns.len();
        while j > 0
            invariant
                0 <= j <= self.returns@.len(),
                self.wf(),
                path@.len() == self.returns@.len() - j + 1,
                forall|k: int| 0 <= k < path@.len() ==> #[trigger] path@[k] == call_path(self@)[k],
            decreases j,
        {
            path.push(self.returns[j - 1] - 1);
            j -= 1;
        }
        assert(path@ =~= call_path(self@));
        let instruction = if self.ip < self.code_holder.instructions.len() {
            Some(self.code_holder.instructions[self.ip])
        } else {
            None
        };
        ResurgenceError {
            kind,
            context: Some(
                ResurgenceContext {
                    call_stack: frames,
                    constant_stack: Self::copy_values(&self.stack),
                    rust_and_native_fns: funcs,
                    instruction,
                    instruction_pointer: path,
                    recursion_depth: self.returns.len(),
                },
            ),
        }
    }

    /// Carries out one step: the instruction at the instruction pointer, a return when the
    /// pointer is past the end, or a repeat of what the machine waits for.
    #[verifier::rlimit(100)]
    pub fn step(&mut self) -> (r: Result<Step, ResurgenceError>)
        requires
            old(self).wf(),
        ensures
            final(self).wf(),
            final(self).image() == old(self).image(),
            final(self).callback_names() == old(self).callback_names(),
            final(self).seal_status() == old(self).seal_status(),
            final(self).imports_resolved() == old(self).imports_resolved(),
            match r {
                Ok(s) => step_spec(old(self)@) == Ok::<(Machine, Step), ErrorKind>((final(self)@, s)),
                Err(e) => step_spec(old(self)@) == Err::<(Machine, Step), ErrorKind>(e.kind) && final(self)@
                    == halted(old(self)@) && snapshot_of(e, old(self)@),
            },
    {
        if !self.active {
            return Ok(Step::Finished);
        }
        match self.pending {
            Some(Pending::Float(req, _)) => {
                return Ok(Step::Float(req));
            },
            Some(Pending::Host(c)) => {
                return Ok(Step::Host(c));
            },
            None => {},
        }
        if self.ip >= self.code_holder.instructions.len() {
            return Ok(self.leave());
        }
        let i = self.code_holder.instructions[self.ip];
        match self.execute(i) {
            Ok(s) => Ok(s),
            Err(kind) => {
                let e = self.fault(kind);
                self.active = false;
                Err(e)
            },
        }
    }

    /// Hands the host's floating-point result to the waiting instruction.
    pub fn resume_float(&mut self, answer: FloatAnswer) -> (r: Result<Step, ResurgenceError>)
        requires
            old(self).wf(),
        ensures
            final(self).wf(),
            final(self).image() == old(self).image(),
            final(self).callback_names() == old(self).callback_names(),
            final(self).seal_status() == old(self).seal_status(),
            final(self).imports_resolved() == old(self).imports_resolved(),
            match r {
                Ok(s) => resume_spec(old(self)@, answer) == Ok::<(Machine, Step), ErrorKind>((final(self)@, s)),
                Err(e) => resume_spec(old(self)@, answer) == Err::<(Machine, Step), ErrorKind>(e.kind)
                    && final(self)@ == halted(old(self)@) && snapshot_of(e, old(self)@),
            },
    {
        match (self.pending, answer) {
            (Some(Pending::Float(_, Then::Store(reg))), FloatAnswer::Number(b)) => {
                let v = Constant::Double(b);
                match self.check_write(reg, &v) {
                    Ok(_) => {},
                    Err(kind) => {
                        let e = self.fault(kind);
                        self.active = false;
                        return Err(e);
                    },
                }
                self.pending = None;
                self.store(reg, v);
                self.ip = self.ip + 1;
                Ok(Step::Running)
            },
            (Some(Pending::Float(_, Then::Branch)), FloatAnswer::Truth(t)) => {
                self.pending = None;
                self.ip = self.ip + if t { 2 } else { 1 };
                Ok(Step::Running)
            },
            _ => {
                let e = self.fault(ErrorKind::InvalidOperation);
                self.active = false;
                Err(e)
            },
        }
    }

    /// Lends the value stack to a host callback; the machine's stack is empty until
    /// `finish_host_call` gives it back.
    pub fn take_host_state(&mut self) -> (r: ResurgenceState)
        requires
            old(self).wf(),
        ensures
            final(self).wf(),
            r@ == old(self)@.stack,
            final(self)@ == (Machine { stack: Seq::empty(), ..old(self)@ }),
            final(self).image() == old(self).image(),
            final(self).callback_names() == old(self).callback_names(),
            final(self).seal_status() == old(self).seal_status(),
            final(self).imports_resolved() == old(self).imports_resolved(),
    {
        let mut args: Vec<Constant> = Vec::new();
        core::mem::swap(&mut args, &mut self.stack);
        assert(values_of(self.stack@) =~= Seq::<Value>::empty());
        ResurgenceState::new(args)
    }

    /// Takes the value stack back from a host callback, which reported `status`: zero for
    /// success, anything else for failure.
    pub fn finish_host_call(&mut self, state: ResurgenceState, status: u8) -> (r: Result<(), ResurgenceError>)
        requires
            old(self).wf(),
        ensures
            final(self).wf(),
            final(self).image() == old(self).image(),
            final(self).callback_names() == old(self).callback_names(),
            final(self).seal_status() == old(self).seal_status(),
            final(self).imports_resolved() == old(self).imports_resolved(),
            match r {
                Ok(_) => status == 0 && finish_host_spec(old(self)@, state@) == Some(final(self)@),
                Err(e) => {
                    &&& (status != 0 || finish_host_spec(old(self)@, state@) is None)
                    &&& final(self)@ == halted(Machine { stack: state@, ..old(self)@ })
                    &&& snapshot_of(e, Machine { stack: state@, ..old(self)@ })
                    &&& match old(self)@.pending {
                        Some(Pending::Host(c)) => e.kind is CallbackFailed && e.kind->CallbackFailed_0@
                            == old(self).callback_names()[c as int] && e.kind->CallbackFailed_1 == status,
                        _ => e.kind == ErrorKind::InvalidOperation,
                    }
                },
            },
    {
        self.stack = state.into_args();
        match self.pending {
            Some(Pending::Host(c)) => {
                if status == 0 {
                    self.pending = None;
                    self.ip = self.ip + 1;
                    Ok(())
                } else {
                    let name = self.rust_functions[c].name.clone();
                    let e = self.fault(ErrorKind::CallbackFailed(name, status));
                    self.active = false;
                    Err(e)
                }
            },
            _ => {
                let e = self.fault(ErrorKind::InvalidOperation);
                self.active = false;
                Err(e)
            },
        }
    }

    /// Starts the exported function `func_name`: the seal must not be tampered, the export
    /// must exist and every import must resolve.
    pub fn start_function(&mut self, func_name: &String) -> (r: Result<(), ResurgenceError>)
        requires
            old(self).wf(),
        ensures
            final(self).wf(),
            final(self).image() == old(self).image(),
            final(self).callback_names() == old(self).callback_names(),
            old(self).seal_status() is Tampered ==> r is Err && r->Err_0.kind == ErrorKind::Tampered && final(self)@
                == old(self)@,
            !(old(self).seal_status() is Tampered) && lookup(old(self).image().exports, func_name@) is None ==> r is Err
                && r->Err_0.kind is FunctionDoesNotExist && r->Err_0.kind->FunctionDoesNotExist_0@ == func_name@
                && final(self)@ == old(self)@,
            r is Ok ==> {
                &&& !(old(self).seal_status() is Tampered)
                &&& lookup(old(self).image().exports, func_name@) is Some
                &&& final(self).seal_status() == Status::Untampered
                &&& final(self).imports_resolved()
                &&& final(self)@.ip == if lookup(old(self).image().exports, func_name@)->0 >= old(self)@.code.len() {
                    old(self)@.code.len() as int
                } else {
                    lookup(old(self).image().exports, func_name@)->0 as int
                }
                &&& final(self)@ == (Machine {
                    ip: final(self)@.ip,
                    returns: Seq::empty(),
                    active: true,
                    pending: None,
                    resolved: final(self)@.resolved,
                    ..old(self)@
                })
                &&& old(self).imports_resolved() ==> final(self)@.resolved == old(self)@.resolved
                &&& !old(self).imports_resolved() ==> resolution(
                    old(self).image().imports,
                    old(self).callback_names(),
                    final(self)@.resolved,
                )
            },
            r is Err && !(old(self).seal_status() is Tampered) && lookup(old(self).image().exports, func_name@) is Some
                ==> !old(self).imports_resolved() && r->Err_0.kind is MissingImport && final(self)@ == old(self)@
                && exists|k: int|
                first_missing(old(self).image().imports, old(self).callback_names(), k)
                    && r->Err_0.kind->MissingImport_0@ == old(self).image().imports[k],
            r is Err ==> snapshot_of(r->Err_0, old(self)@),
            !(old(self).seal_status() is Tampered) && lookup(old(self).image().exports, func_name@) is Some && (
            old(self).imports_resolved() || forall|k: int|
                0 <= k < old(self).image().imports.len() ==> first_index(
                    old(self).callback_names(),
                    #[trigger] old(self).image().imports[k],
                ) is Some) ==> r is Ok,
    {
        if self.seal.runtime_security_status() == Status::Tampered {
            return Err(self.fault(ErrorKind::Tampered));
        }
        let index = match self.code_holder.export_index(func_name) {
            Some(i) => i,
            None => {
                return Err(self.fault(ErrorKind::FunctionDoesNotExist(func_name.clone())));
            },
        };
        if !self.resolved_imports {
            match self.resolve_imports() {
                Ok(_) => {},
                Err(kind) => {
                    return Err(self.fault(kind));
                },
            }
        }
        self.seal.set_runtime();
        let len = self.code_holder.instructions.len();
        self.ip = if index >= len as u64 {
            len
        } else {
            index as usize
        };
        self.returns = Vec::new();
        self.pending = None;
        self.active = true;
        assert(self.returns@ =~= Seq::<usize>::empty());
        Ok(())
    }

    /// The value stack, its last value on top.
    pub fn value_stack(&self) -> (r: &Vec<Constant>)
        ensures
            values_of(r@) == self@.stack,
    {
        &self.stack
    }

    /// The global register file.
    pub fn globals(&self) -> (r: &Vec<Option<Constant>>)
        ensures
            slots_of(r@) == self@.globals,
    {
        &self.global
    }

    /// The stack frames, the current one last.
    pub fn call_stack(&self) -> (r: &Vec<StackFrame>)
        ensures
            frames_of(r@) == self@.frames,
    {
        &self.call_stack
    }

    /// The bit pattern of the accumulator.
    pub fn accumulator_bits(&self) -> (r: u64)
        ensures
            r == self@.accumulator,
    {
        self.accumulator
    }

    /// The program image.
    pub fn code_holder(&self) -> (r: &CodeHolder)
        ensures
            r@ == self.image(),
    {
        &self.code_holder
    }

    /// The lifecycle state of the seal.
    pub fn runtime_security_status(&self) -> (r: Status)
        ensures
            r == self.seal_status(),
    {
        self.seal.runtime_security_status()
    }

    /// Whether the machine is running a function.
    pub fn is_active(&self) -> (r: bool)
        ensures
            r == self@.active,
    {
        self.active
    }

    /// Steps until the machine finishes, waits for the host, fails, or `fuel` steps have run
    /// (then `Step::Running` comes back).
    pub fn run(&mut self, fuel: u64) -> (r: Result<Step, ResurgenceError>)
        requires
            old(self).wf(),
        ensures
            final(self).wf(),
            final(self).image() == old(self).image(),
            final(self).callback_names() == old(self).callback_names(),
            final(self).seal_status() == old(self).seal_status(),
            match r {
                Ok(s) => run_spec(old(self)@, fuel as nat) == Ok::<(Machine, Step), ErrorKind>((final(self)@, s)),
                Err(e) => run_spec(old(self)@, fuel as nat) == Err::<(Machine, Step), ErrorKind>(e.kind),
            },
    {
        let mut k: u64 = 0;
        while k < fuel
            invariant
                k <= fuel,
                self.wf(),
                self.image() == old(self).image(),
                self.callback_names() == old(self).callback_names(),
                self.seal_status() == old(self).seal_status(),
                run_spec(old(self)@, fuel as nat) == run_spec(self@, (fuel - k) as nat),
            decreases fuel - k,
        {
            let s = self.step()?;
            match s {
                Step::Running => {},
                _ => {
                    return Ok(s);
                },
            }
            k += 1;
        }
        Ok(Step::Running)
    }
}

} // verus!
