use resurgence::codeholder::CodeHolder;
use resurgence::constant::{Constant, FloatArg, FloatOp, FloatRequest};
use resurgence::error::{ErrorKind, ResurgenceError};
use resurgence::instruction::Instruction;
use resurgence::interpreter::Interpreter;
use resurgence::machine::{FloatAnswer, Step};
use resurgence::register::{Register, RegisterLocation, RegisterReference};
use resurgence::seal::Status;
use resurgence::state::ResurgenceState;

fn float_of(a: FloatArg) -> f64 {
    match a {
        FloatArg::Int(i) => i as f64,
        FloatArg::Bits(b) => f64::from_bits(b),
    }
}

fn answer(req: FloatRequest) -> FloatAnswer {
    let x = float_of(req.lhs);
    let y = float_of(req.rhs);
    match req.op {
        FloatOp::Add => FloatAnswer::Number((x + y).to_bits()),
        FloatOp::Sub => FloatAnswer::Number((x - y).to_bits()),
        FloatOp::Mul => FloatAnswer::Number((x * y).to_bits()),
        FloatOp::Div => FloatAnswer::Number((x / y).to_bits()),
        FloatOp::Rem => FloatAnswer::Number((x % y).to_bits()),
        FloatOp::Widen => FloatAnswer::Number(x.to_bits()),
        FloatOp::Equal => FloatAnswer::Truth(x == y),
        FloatOp::NotEqual => FloatAnswer::Truth(x != y),
        FloatOp::Greater => FloatAnswer::Truth(x > y),
        FloatOp::Less => FloatAnswer::Truth(x < y),
        FloatOp::GreaterEqual => FloatAnswer::Truth(x >= y),
        FloatOp::LessEqual => FloatAnswer::Truth(x <= y),
    }
}

fn no_host(_: usize, _: &mut ResurgenceState) -> u8 {
    1
}

fn run_with(vm: &mut Interpreter, name: &str, host: &dyn Fn(usize, &mut ResurgenceState) -> u8) -> Result<(), ResurgenceError> {
    vm.start_function(&name.to_string())?;
    loop {
        match vm.step()? {
            Step::Running => {}
            Step::Finished => return Ok(()),
            Step::Float(req) => {
                vm.resume_float(answer(req))?;
            }
            Step::Host(c) => {
                let mut state = vm.take_host_state();
                let status = host(c, &mut state);
                vm.finish_host_call(state, status)?;
            }
        }
    }
}

fn run(vm: &mut Interpreter, name: &str) -> Result<(), ResurgenceError> {
    run_with(vm, name, &no_host)
}

fn image(constants: Vec<Constant>, instructions: Vec<Instruction>) -> CodeHolder {
    let mut h = CodeHolder::new();
    h.constant_pool = constants;
    h.instructions = instructions;
    h.set_export("main".to_string(), 0);
    h
}

fn cp(i: u32) -> Register {
    Register(i, RegisterLocation::ConstantPool)
}

fn local(i: u32) -> Register {
    Register(i, RegisterLocation::Local)
}

fn global(i: u32) -> Register {
    Register(i, RegisterLocation::Global)
}

const AS_IS: RegisterReference = RegisterReference::AsIs;

#[test]
fn add_constants() {
    let h = image(
        vec![Constant::Int(2), Constant::Int(40)],
        vec![
            Instruction::Alloc(1),
            Instruction::Add(local(0), cp(0), cp(1)),
            Instruction::StackPush(local(0), AS_IS),
            Instruction::Free(1),
            Instruction::Ret,
        ],
    );
    let mut vm = Interpreter::from(h);
    run(&mut vm, "main").unwrap();
    assert_eq!(vm.value_stack().last(), Some(&Constant::Int(42)));
}

#[test]
fn conditional_branch() {
    let h = image(
        vec![Constant::Int(0), Constant::Int(1)],
        vec![
            Instruction::Equal(cp(0), cp(1)),
            Instruction::StackPush(cp(0), AS_IS),
            Instruction::StackPush(cp(1), AS_IS),
            Instruction::Ret,
        ],
    );
    let mut vm = Interpreter::from(h);
    run(&mut vm, "main").unwrap();
    assert_eq!(vm.value_stack(), &vec![Constant::Int(0), Constant::Int(1)]);
}

#[test]
fn conditional_branch_taken_when_equal() {
    let h = image(
        vec![Constant::Int(1), Constant::Int(1)],
        vec![
            Instruction::Equal(cp(0), cp(1)),
            Instruction::StackPush(cp(0), AS_IS),
            Instruction::StackPush(cp(1), AS_IS),
            Instruction::Ret,
        ],
    );
    let mut vm = Interpreter::from(h);
    run(&mut vm, "main").unwrap();
    assert_eq!(vm.value_stack(), &vec![Constant::Int(1)]);
}

fn upper(_: usize, state: &mut ResurgenceState) -> u8 {
    match state.get_string() {
        Ok(s) => {
            state.push_string(s.to_uppercase());
            0
        }
        Err(_) => 1,
    }
}

#[test]
fn external_call() {
    let mut h = image(
        vec![Constant::String("hi".to_string())],
        vec![Instruction::StackPush(cp(0), AS_IS), Instruction::ExtCall(0), Instruction::Ret],
    );
    h.add_import("upper".to_string());
    let mut vm = Interpreter::from(h);
    vm.register_function("upper".to_string());
    run_with(&mut vm, "main", &upper).unwrap();
    assert_eq!(vm.value_stack().last(), Some(&Constant::String("HI".to_string())));
}

#[test]
fn callback_failure_is_reported() {
    let mut h = image(vec![], vec![Instruction::ExtCall(0), Instruction::Ret]);
    h.add_import("upper".to_string());
    let mut vm = Interpreter::from(h);
    vm.register_function("upper".to_string());
    let err = run_with(&mut vm, "main", &upper).unwrap_err();
    assert_eq!(err.kind, ErrorKind::CallbackFailed("upper".to_string(), 1));
}

#[test]
fn missing_import() {
    let mut h = image(vec![], vec![Instruction::Ret]);
    h.add_import("does_not_exist".to_string());
    let mut vm = Interpreter::from(h);
    let err = run(&mut vm, "main").unwrap_err();
    assert_eq!(err.kind, ErrorKind::MissingImport("does_not_exist".to_string()));
    let ctx = err.context.unwrap();
    assert!(ctx.constant_stack.is_empty());
    assert!(ctx.call_stack.is_empty());
    assert!(vm.value_stack().is_empty());
    assert!(!vm.is_active());
}

#[test]
fn first_missing_import_is_named() {
    let mut h = image(vec![], vec![Instruction::Ret]);
    h.add_import("a".to_string());
    h.add_import("b".to_string());
    h.add_import("c".to_string());
    let mut vm = Interpreter::from(h);
    vm.register_function("a".to_string());
    let err = run(&mut vm, "main").unwrap_err();
    assert_eq!(err.kind, ErrorKind::MissingImport("b".to_string()));
}

#[test]
fn copy_into_constant_pool_fails_before_reading_source() {
    let h = image(vec![Constant::Int(1)], vec![Instruction::Cpy(cp(0), AS_IS, global(0), AS_IS)]);
    let mut vm = Interpreter::from(h);
    assert_eq!(run(&mut vm, "main").unwrap_err().kind, ErrorKind::InvalidOperation);
    let h = image(vec![Constant::Int(1)], vec![Instruction::Mov(cp(0), AS_IS, global(3), AS_IS)]);
    let mut vm = Interpreter::from(h);
    assert_eq!(run(&mut vm, "main").unwrap_err().kind, ErrorKind::InvalidOperation);
}

#[test]
fn move_into_accumulator_empties_source() {
    let acc = Register(0, RegisterLocation::Accumulator);
    let h = image(
        vec![Constant::Int(5)],
        vec![
            Instruction::FrameAlloc(1, RegisterLocation::Global),
            Instruction::Cpy(global(0), AS_IS, cp(0), AS_IS),
            Instruction::Mov(acc, AS_IS, global(0), AS_IS),
            Instruction::Ret,
        ],
    );
    let mut vm = Interpreter::from(h);
    run(&mut vm, "main").unwrap();
    assert_eq!(vm.accumulator_bits(), 5.0f64.to_bits());
    assert_eq!(vm.globals(), &vec![None]);
}

#[test]
fn overflow() {
    let h = image(
        vec![Constant::Int(i64::MAX), Constant::Int(1)],
        vec![Instruction::Alloc(1), Instruction::Add(local(0), cp(0), cp(1)), Instruction::Ret],
    );
    let mut vm = Interpreter::from(h);
    let err = run(&mut vm, "main").unwrap_err();
    assert_eq!(err.kind, ErrorKind::Overflow);
    let ctx = err.context.unwrap();
    assert_eq!(ctx.instruction, Some(Instruction::Add(local(0), cp(0), cp(1))));
    assert_eq!(ctx.instruction_pointer, vec![1]);
    assert_eq!(ctx.call_stack.len(), 1);
}

#[test]
fn function_does_not_exist() {
    let h = image(vec![], vec![Instruction::Ret]);
    let mut vm = Interpreter::from(h);
    let err = run(&mut vm, "nope").unwrap_err();
    assert_eq!(err.kind, ErrorKind::FunctionDoesNotExist("nope".to_string()));
}

#[test]
fn move_empties_source_and_copy_keeps_it() {
    let h = image(
        vec![Constant::Int(7)],
        vec![
            Instruction::FrameAlloc(3, RegisterLocation::Global),
            Instruction::Cpy(global(0), AS_IS, cp(0), AS_IS),
            Instruction::Cpy(global(1), AS_IS, global(0), AS_IS),
            Instruction::Mov(global(2), AS_IS, global(0), AS_IS),
            Instruction::Ret,
        ],
    );
    let mut vm = Interpreter::from(h);
    run(&mut vm, "main").unwrap();
    assert_eq!(vm.globals(), &vec![None, Some(Constant::Int(7)), Some(Constant::Int(7))]);
}

#[test]
fn moving_from_constant_pool_copies() {
    let h = image(
        vec![Constant::Int(3)],
        vec![
            Instruction::FrameAlloc(1, RegisterLocation::Global),
            Instruction::Mov(global(0), AS_IS, cp(0), AS_IS),
            Instruction::Ret,
        ],
    );
    let mut vm = Interpreter::from(h);
    run(&mut vm, "main").unwrap();
    assert_eq!(vm.code_holder().constant_pool, vec![Constant::Int(3)]);
    assert_eq!(vm.globals(), &vec![Some(Constant::Int(3))]);
}

#[test]
fn reading_an_empty_slot_fails() {
    let h = image(
        vec![],
        vec![
            Instruction::FrameAlloc(2, RegisterLocation::Global),
            Instruction::Cpy(global(0), AS_IS, global(1), AS_IS),
        ],
    );
    let mut vm = Interpreter::from(h);
    assert_eq!(run(&mut vm, "main").unwrap_err().kind, ErrorKind::MemoryAddressUninitialized);
}

#[test]
fn register_out_of_bounds() {
    let h = image(vec![], vec![Instruction::Cpy(global(0), AS_IS, cp(5), AS_IS)]);
    let mut vm = Interpreter::from(h);
    assert_eq!(run(&mut vm, "main").unwrap_err().kind, ErrorKind::RegisterOutOfBounds);
}

#[test]
fn writing_the_constant_pool_fails() {
    let h = image(vec![Constant::Int(1)], vec![Instruction::StackPush(cp(0), AS_IS), Instruction::StackMov(cp(0), AS_IS)]);
    let mut vm = Interpreter::from(h);
    assert_eq!(run(&mut vm, "main").unwrap_err().kind, ErrorKind::InvalidOperation);
}

#[test]
fn accumulator_rejects_strings() {
    let h = image(
        vec![Constant::String("x".to_string())],
        vec![Instruction::Cpy(Register(0, RegisterLocation::Accumulator), AS_IS, cp(0), AS_IS)],
    );
    let mut vm = Interpreter::from(h);
    assert_eq!(run(&mut vm, "main").unwrap_err().kind, ErrorKind::InvalidOperation);
}

#[test]
fn accumulator_widens_integers() {
    let acc = Register(0, RegisterLocation::Accumulator);
    let h = image(
        vec![Constant::Int(3), Constant::Double(0.5f64.to_bits())],
        vec![
            Instruction::Cpy(acc, AS_IS, cp(0), AS_IS),
            Instruction::Add(acc, acc, cp(1)),
            Instruction::StackPush(acc, AS_IS),
            Instruction::Ret,
        ],
    );
    let mut vm = Interpreter::from(h);
    run(&mut vm, "main").unwrap();
    assert_eq!(vm.accumulator_bits(), 3.5f64.to_bits());
    assert_eq!(vm.value_stack(), &vec![Constant::Double(3.5f64.to_bits())]);
}

#[test]
fn dereference_reads_through_address() {
    let h = image(
        vec![Constant::Int(9)],
        vec![
            Instruction::FrameAlloc(2, RegisterLocation::Global),
            Instruction::Cpy(global(0), AS_IS, cp(0), AS_IS),
            Instruction::Ref(global(1), AS_IS, global(0), AS_IS),
            Instruction::StackPush(global(1), RegisterReference::Dereference),
            Instruction::Ret,
        ],
    );
    let mut vm = Interpreter::from(h);
    run(&mut vm, "main").unwrap();
    assert_eq!(vm.value_stack(), &vec![Constant::Int(9)]);
    assert_eq!(vm.globals()[1], Some(Constant::Address(global(0))));
}

#[test]
fn dereference_of_non_address_fails() {
    let h = image(vec![Constant::Int(9)], vec![Instruction::StackPush(cp(0), RegisterReference::Dereference)]);
    let mut vm = Interpreter::from(h);
    assert_eq!(run(&mut vm, "main").unwrap_err().kind, ErrorKind::InvalidOperation);
}

#[test]
fn recursion_limit_at_configured_depth() {
    let h = image(vec![], vec![Instruction::Call(0)]);
    let mut vm = Interpreter::from(h);
    vm.set_max_depth(5);
    let err = run(&mut vm, "main").unwrap_err();
    assert_eq!(err.kind, ErrorKind::RecursionLimit);
    let ctx = err.context.unwrap();
    assert_eq!(ctx.recursion_depth, 5);
    assert_eq!(ctx.instruction_pointer, vec![0, 0, 0, 0, 0, 0]);
}

#[test]
fn call_and_return() {
    let h = image(
        vec![Constant::Int(1), Constant::Int(2)],
        vec![
            Instruction::Call(3),
            Instruction::StackPush(cp(1), AS_IS),
            Instruction::Ret,
            Instruction::StackPush(cp(0), AS_IS),
            Instruction::Ret,
        ],
    );
    let mut vm = Interpreter::from(h);
    run(&mut vm, "main").unwrap();
    assert_eq!(vm.value_stack(), &vec![Constant::Int(1), Constant::Int(2)]);
}

#[test]
fn jump_to_end_terminates() {
    let h = image(vec![Constant::Int(1)], vec![Instruction::Jump(2), Instruction::StackPush(cp(0), AS_IS)]);
    let mut vm = Interpreter::from(h);
    run(&mut vm, "main").unwrap();
    assert!(vm.value_stack().is_empty());
    assert!(!vm.is_active());
}

#[test]
fn jump_past_end_fails() {
    let h = image(vec![], vec![Instruction::Jump(3), Instruction::NoOp]);
    let mut vm = Interpreter::from(h);
    assert_eq!(run(&mut vm, "main").unwrap_err().kind, ErrorKind::InvalidOperation);
}

#[test]
fn constant_pool_unchanged_by_execution() {
    let pool = vec![Constant::Int(5), Constant::String("s".to_string()), Constant::Vec(vec![Constant::Boolean(true)])];
    let copy = vec![Constant::Int(5), Constant::String("s".to_string()), Constant::Vec(vec![Constant::Boolean(true)])];
    let h = image(
        pool,
        vec![
            Instruction::Alloc(3),
            Instruction::Mov(local(0), AS_IS, cp(0), AS_IS),
            Instruction::Mov(local(1), AS_IS, cp(1), AS_IS),
            Instruction::Mov(local(2), AS_IS, cp(2), AS_IS),
            Instruction::Add(local(0), local(0), cp(0)),
            Instruction::Ret,
        ],
    );
    let mut vm = Interpreter::from(h);
    run(&mut vm, "main").unwrap();
    assert_eq!(vm.code_holder().constant_pool, copy);
    assert_eq!(vm.call_stack()[0].registers[0], Some(Constant::Int(10)));
}

#[test]
fn float_comparison_branches() {
    let h = image(
        vec![Constant::Int(1), Constant::Double(0.5f64.to_bits())],
        vec![
            Instruction::Greater(cp(0), cp(1)),
            Instruction::StackPush(cp(0), AS_IS),
            Instruction::StackPush(cp(1), AS_IS),
            Instruction::Ret,
        ],
    );
    let mut vm = Interpreter::from(h);
    run(&mut vm, "main").unwrap();
    assert_eq!(vm.value_stack(), &vec![Constant::Double(0.5f64.to_bits())]);
}

#[test]
fn mixed_equality_is_invalid() {
    let h = image(vec![Constant::Int(1), Constant::String("1".to_string())], vec![Instruction::Equal(cp(0), cp(1))]);
    let mut vm = Interpreter::from(h);
    assert_eq!(run(&mut vm, "main").unwrap_err().kind, ErrorKind::InvalidOperation);
}

#[test]
fn frames_grow_and_shrink() {
    let h = image(
        vec![],
        vec![
            Instruction::Alloc(1),
            Instruction::FrameAlloc(2, RegisterLocation::Local),
            Instruction::FrameFree(5, RegisterLocation::Local),
            Instruction::Alloc(0),
            Instruction::Free(1),
            Instruction::Ret,
        ],
    );
    let mut vm = Interpreter::from(h);
    run(&mut vm, "main").unwrap();
    assert_eq!(vm.call_stack().len(), 1);
    assert_eq!(vm.call_stack()[0].registers.len(), 0);
}

#[test]
fn frame_alloc_in_constant_pool_fails() {
    let h = image(vec![], vec![Instruction::FrameAlloc(1, RegisterLocation::ConstantPool)]);
    let mut vm = Interpreter::from(h);
    assert_eq!(run(&mut vm, "main").unwrap_err().kind, ErrorKind::InvalidOperation);
}

#[test]
fn stack_mov_and_pop() {
    let h = image(
        vec![Constant::Int(4), Constant::Int(8)],
        vec![
            Instruction::FrameAlloc(1, RegisterLocation::Global),
            Instruction::StackPush(cp(0), AS_IS),
            Instruction::StackPush(cp(1), AS_IS),
            Instruction::StackMov(global(0), AS_IS),
            Instruction::StackPop,
            Instruction::StackPop,
            Instruction::Ret,
        ],
    );
    let mut vm = Interpreter::from(h);
    run(&mut vm, "main").unwrap();
    assert!(vm.value_stack().is_empty());
    assert_eq!(vm.globals(), &vec![Some(Constant::Int(8))]);
}

#[test]
fn registering_after_start_tampers() {
    let h = image(vec![], vec![Instruction::Ret]);
    let mut vm = Interpreter::from(h);
    assert_eq!(vm.runtime_security_status(), Status::NotStarted);
    run(&mut vm, "main").unwrap();
    assert_eq!(vm.runtime_security_status(), Status::Untampered);
    vm.register_function("late".to_string());
    assert_eq!(vm.runtime_security_status(), Status::Tampered);
    assert_eq!(run(&mut vm, "main").unwrap_err().kind, ErrorKind::Tampered);
}

#[test]
fn comparison_falls_through_to_jump() {
    let h = image(
        vec![Constant::Int(0), Constant::Int(1)],
        vec![
            Instruction::Less(cp(1), cp(0)),
            Instruction::Jump(2),
            Instruction::StackPush(cp(0), AS_IS),
            Instruction::StackPush(cp(1), AS_IS),
            Instruction::Ret,
        ],
    );
    let mut vm = Interpreter::from(h);
    run(&mut vm, "main").unwrap();
    assert_eq!(vm.value_stack(), &vec![Constant::Int(1)]);
}

#[test]
fn run_stops_when_fuel_runs_out() {
    let h = image(vec![], vec![Instruction::Jump(0)]);
    let mut vm = Interpreter::from(h);
    vm.start_function(&"main".to_string()).unwrap();
    assert_eq!(vm.run(10).unwrap(), Step::Running);
    assert!(vm.is_active());
}

#[test]
fn run_reports_host_requests() {
    let mut h = image(vec![], vec![Instruction::ExtCall(0), Instruction::Ret]);
    h.add_import("b".to_string());
    let mut vm = Interpreter::from(h);
    vm.register_function("a".to_string());
    vm.register_native_function("b".to_string());
    vm.register_function("b".to_string());
    vm.start_function(&"main".to_string()).unwrap();
    assert_eq!(vm.run(100).unwrap(), Step::Host(1));
    assert!(vm.is_native(1));
    assert!(!vm.is_native(0));
    let state = vm.take_host_state();
    vm.finish_host_call(state, 0).unwrap();
    assert_eq!(vm.run(100).unwrap(), Step::Finished);
}

#[test]
fn unresolved_ext_call_slot_is_invalid() {
    let h = image(vec![], vec![Instruction::ExtCall(3)]);
    let mut vm = Interpreter::from(h);
    assert_eq!(run(&mut vm, "main").unwrap_err().kind, ErrorKind::InvalidOperation);
}

#[test]
fn stack_frame_registers() {
    let mut f = resurgence::interpreter::StackFrame::from(2);
    assert_eq!(f.registers, vec![None, None]);
    assert_eq!(f.cpy_register(0), Err(ErrorKind::MemoryAddressUninitialized));
    assert_eq!(f.cpy_register(2), Err(ErrorKind::RegisterOutOfBounds));
    f.registers[1] = Some(Constant::Int(6));
    assert_eq!(f.ref_register(1), Some(&Constant::Int(6)));
    assert_eq!(f.cpy_register(1), Ok(Constant::Int(6)));
    assert_eq!(f.mov_register(1), Ok(Constant::Int(6)));
    assert_eq!(f.registers, vec![None, None]);
    assert_eq!(f.ref_register(1), None);
}

#[test]
fn float_division_by_zero_overflows_in_engine() {
    let h = image(
        vec![Constant::Double(1.0f64.to_bits()), Constant::Int(0)],
        vec![Instruction::Div(Register(0, RegisterLocation::Accumulator), cp(0), cp(1))],
    );
    let mut vm = Interpreter::from(h);
    assert_eq!(run(&mut vm, "main").unwrap_err().kind, ErrorKind::Overflow);
}

#[test]
fn float_arithmetic_into_globals() {
    let h = image(
        vec![Constant::Double(1.5f64.to_bits()), Constant::Int(2)],
        vec![
            Instruction::FrameAlloc(1, RegisterLocation::Global),
            Instruction::Mul(global(0), cp(0), cp(1)),
            Instruction::Ret,
        ],
    );
    let mut vm = Interpreter::from(h);
    run(&mut vm, "main").unwrap();
    assert_eq!(vm.globals(), &vec![Some(Constant::Double(3.0f64.to_bits()))]);
}

#[test]
fn run_reaches_recursion_limit() {
    let h = image(vec![], vec![Instruction::Call(0)]);
    let mut vm = Interpreter::from(h);
    vm.set_max_depth(7);
    vm.start_function(&"main".to_string()).unwrap();
    let err = vm.run(8).unwrap_err();
    assert_eq!(err.kind, ErrorKind::RecursionLimit);
    assert_eq!(err.context.unwrap().recursion_depth, 7);
}
