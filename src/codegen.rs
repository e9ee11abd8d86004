use vstd::prelude::*;
use crate::codeholder::{CodeHolder, Image};
use crate::constant::{Constant, Value};
use crate::instruction::Instruction;
use crate::register::{Register, RegisterLocation, RegisterReference};

verus! {

/// A register space, as code generators name it.
#[allow(non_camel_case_types)]
#[derive(Clone, Copy, Debug, PartialEq, Eq, Structural)]
pub enum RVMLocation {
    CONSTANT_POOL,
    ACCUMULATOR,
    GLOBAL,
    LOCAL,
}

/// A reference mode, as code generators name it.
#[allow(non_camel_case_types)]
#[derive(Clone, Copy, Debug, PartialEq, Eq, Structural)]
pub enum RVMReference {
    AS_IS,
    DEREFERENCE,
}

/// A register, as code generators name it.
#[derive(Clone, Copy, Debug, PartialEq, Eq, Structural)]
pub struct RVMRegister(pub u32, pub RVMLocation);

pub open spec fn loc_spec(l: RVMLocation) -> RegisterLocation {
    match l {
        RVMLocation::CONSTANT_POOL => RegisterLocation::ConstantPool,
        RVMLocation::ACCUMULATOR => RegisterLocation::Accumulator,
        RVMLocation::GLOBAL => RegisterLocation::Global,
        RVMLocation::LOCAL => RegisterLocation::Local,
    }
}

pub open spec fn reference_spec(r: RVMReference) -> RegisterReference {
    match r {
        RVMReference::AS_IS => RegisterReference::AsIs,
        RVMReference::DEREFERENCE => RegisterReference::Dereference,
    }
}

pub open spec fn register_spec(r: RVMRegister) -> Register {
    Register(r.0, loc_spec(r.1))
}

/// The register space that `moc_loc` names.
pub fn real_loc(moc_loc: RVMLocation) -> (r: RegisterLocation)
    ensures
        r == loc_spec(moc_loc),
{
    match moc_loc {
        RVMLocation::CONSTANT_POOL => RegisterLocation::ConstantPool,
        RVMLocation::ACCUMULATOR => RegisterLocation::Accumulator,
        RVMLocation::GLOBAL => RegisterLocation::Global,
        RVMLocation::LOCAL => RegisterLocation::Local,
    }
}

/// The reference mode that `moc_ref` names.
pub fn real_reference(moc_ref: RVMReference) -> (r: RegisterReference)
    ensures
        r == reference_spec(moc_ref),
{
    match moc_ref {
        RVMReference::AS_IS => RegisterReference::AsIs,
        RVMReference::DEREFERENCE => RegisterReference::Dereference,
    }
}

/// The register that `moc_reg` names.
pub fn real_register(moc_reg: RVMRegister) -> (r: Register)
    ensures
        r == register_spec(moc_reg),
{
    Register(moc_reg.0, real_loc(moc_reg.1))
}

/// `img` with `i` appended to its instructions.
pub open spec fn emitted(img: Image, i: Instruction) -> Image {
    Image { instructions: img.instructions.push(i), ..img }
}

fn emit(holder: &mut CodeHolder, i: Instruction)
    ensures
        final(holder)@ == emitted(old(holder)@, i),
        final(holder).wf() == old(holder).wf(),
{
    holder.instructions.push(i);
}

/// Appends an `Alloc` of `amount` registers.
pub fn generate_alloc(holder: &mut CodeHolder, amount: u32)
    ensures
        final(holder)@ == emitted(old(holder)@, Instruction::Alloc(amount)),
        final(holder).wf() == old(holder).wf(),
{
    emit(holder, Instruction::Alloc(amount));
}

/// Appends a `Free` of `amount` frames.
pub fn generate_free(holder: &mut CodeHolder, amount: u32)
    ensures
        final(holder)@ == emitted(old(holder)@, Instruction::Free(amount)),
        final(holder).wf() == old(holder).wf(),
{
    emit(holder, Instruction::Free(amount));
}

/// Appends a `FrameAlloc` of `amount` registers in `location`.
pub fn generate_frame_alloc(holder: &mut CodeHolder, amount: u32, location: RVMLocation)
    ensures
        final(holder)@ == emitted(old(holder)@, Instruction::FrameAlloc(amount, loc_spec(location))),
        final(holder).wf() == old(holder).wf(),
{
    emit(holder, Instruction::FrameAlloc(amount, real_loc(location)));
}

/// Appends a `FrameFree` of `amount` registers in `location`.
pub fn generate_frame_free(holder: &mut CodeHolder, amount: u32, location: RVMLocation)
    ensures
        final(holder)@ == emitted(old(holder)@, Instruction::FrameFree(amount, loc_spec(location))),
        final(holder).wf() == old(holder).wf(),
{
    emit(holder, Instruction::FrameFree(amount, real_loc(location)));
}

/// Appends a relative `Jump`.
pub fn generate_jump(holder: &mut CodeHolder, instructions: i64)
    ensures
        final(holder)@ == emitted(old(holder)@, Instruction::Jump(instructions)),
        final(holder).wf() == old(holder).wf(),
{
    emit(holder, Instruction::Jump(instructions));
}

/// Appends a `Call` of the instruction at `loc`.
pub fn generate_call(holder: &mut CodeHolder, loc: u64)
    ensures
        final(holder)@ == emitted(old(holder)@, Instruction::Call(loc)),
        final(holder).wf() == old(holder).wf(),
{
    emit(holder, Instruction::Call(loc));
}

/// Appends an `ExtCall` through import slot `instruction_id`.
pub fn generate_ext_call(holder: &mut CodeHolder, instruction_id: u64)
    ensures
        final(holder)@ == emitted(old(holder)@, Instruction::ExtCall(instruction_id)),
        final(holder).wf() == old(holder).wf(),
{
    emit(holder, Instruction::ExtCall(instruction_id));
}

/// Appends a `Ret`.
pub fn generate_return(holder: &mut CodeHolder)
    ensures
        final(holder)@ == emitted(old(holder)@, Instruction::Ret),
        final(holder).wf() == old(holder).wf(),
{
    emit(holder, Instruction::Ret);
}

/// Appends a `Mov` from `register_2` to `register_1`.
pub fn generate_mov(holder: &mut CodeHolder, register_1: (RVMRegister, RVMReference), register_2: (RVMRegister, RVMReference))
    ensures
        final(holder)@ == emitted(old(holder)@, Instruction::Mov(register_spec(register_1.0), reference_spec(register_1.1), register_spec(register_2.0), reference_spec(register_2.1))),
        final(holder).wf() == old(holder).wf(),
{
    emit(holder, Instruction::Mov(real_register(register_1.0), real_reference(register_1.1), real_register(register_2.0), real_reference(register_2.1)));
}

/// Appends a `Cpy` from `register_2` to `register_1`.
pub fn generate_cpy(holder: &mut CodeHolder, register_1: (RVMRegister, RVMReference), register_2: (RVMRegister, RVMReference))
    ensures
        final(holder)@ == emitted(old(holder)@, Instruction::Cpy(register_spec(register_1.0), reference_spec(register_1.1), register_spec(register_2.0), reference_spec(register_2.1))),
        final(holder).wf() == old(holder).wf(),
{
    emit(holder, Instruction::Cpy(real_register(register_1.0), real_reference(register_1.1), real_register(register_2.0), real_reference(register_2.1)));
}

/// Appends a `Ref` storing the address of `register_2` in `register_1`.
pub fn generate_ref(holder: &mut CodeHolder, register_1: (RVMRegister, RVMReference), register_2: (RVMRegister, RVMReference))
    ensures
        final(holder)@ == emitted(old(holder)@, Instruction::Ref(register_spec(register_1.0), reference_spec(register_1.1), register_spec(register_2.0), reference_spec(register_2.1))),
        final(holder).wf() == old(holder).wf(),
{
    emit(holder, Instruction::Ref(real_register(register_1.0), real_reference(register_1.1), real_register(register_2.0), real_reference(register_2.1)));
}

/// Appends a `StackPush` of `register`.
pub fn generate_stack_push(holder: &mut CodeHolder, register: (RVMRegister, RVMReference))
    ensures
        final(holder)@ == emitted(old(holder)@, Instruction::StackPush(register_spec(register.0), reference_spec(register.1))),
        final(holder).wf() == old(holder).wf(),
{
    emit(holder, Instruction::StackPush(real_register(register.0), real_reference(register.1)));
}

/// Appends a `StackPop`.
pub fn generate_stack_pop(holder: &mut CodeHolder)
    ensures
        final(holder)@ == emitted(old(holder)@, Instruction::StackPop),
        final(holder).wf() == old(holder).wf(),
{
    emit(holder, Instruction::StackPop);
}

/// Appends a `StackMov` into `register`.
pub fn generate_stack_mov(holder: &mut CodeHolder, register: (RVMRegister, RVMReference))
    ensures
        final(holder)@ == emitted(old(holder)@, Instruction::StackMov(register_spec(register.0), reference_spec(register.1))),
        final(holder).wf() == old(holder).wf(),
{
    emit(holder, Instruction::StackMov(real_register(register.0), real_reference(register.1)));
}

/// Appends an `Add` into `register_1`.
pub fn generate_add(holder: &mut CodeHolder, register_1: RVMRegister, register_2: RVMRegister, register_3: RVMRegister)
    ensures
        final(holder)@ == emitted(old(holder)@, Instruction::Add(register_spec(register_1), register_spec(register_2), register_spec(register_3))),
        final(holder).wf() == old(holder).wf(),
{
    emit(holder, Instruction::Add(real_register(register_1), real_register(register_2), real_register(register_3)));
}

/// Appends a `Sub` into `register_1`.
pub fn generate_sub(holder: &mut CodeHolder, register_1: RVMRegister, register_2: RVMRegister, register_3: RVMRegister)
    ensures
        final(holder)@ == emitted(old(holder)@, Instruction::Sub(register_spec(register_1), register_spec(register_2), register_spec(register_3))),
        final(holder).wf() == old(holder).wf(),
{
    emit(holder, Instruction::Sub(real_register(register_1), real_register(register_2), real_register(register_3)));
}

/// Appends a `Mul` into `register_1`.
pub fn generate_mul(holder: &mut CodeHolder, register_1: RVMRegister, register_2: RVMRegister, register_3: RVMRegister)
    ensures
        final(holder)@ == emitted(old(holder)@, Instruction::Mul(register_spec(register_1), register_spec(register_2), register_spec(register_3))),
        final(holder).wf() == old(holder).wf(),
{
    emit(holder, Instruction::Mul(real_register(register_1), real_register(register_2), real_register(register_3)));
}

/// Appends a `Div` into `register_1`.
pub fn generate_div(holder: &mut CodeHolder, register_1: RVMRegister, register_2: RVMRegister, register_3: RVMRegister)
    ensures
        final(holder)@ == emitted(old(holder)@, Instruction::Div(register_spec(register_1), register_spec(register_2), register_spec(register_3))),
        final(holder).wf() == old(holder).wf(),
{
    emit(holder, Instruction::Div(real_register(register_1), real_register(register_2), real_register(register_3)));
}

/// Appends a `Mod` into `register_1`.
pub fn generate_mod(holder: &mut CodeHolder, register_1: RVMRegister, register_2: RVMRegister, register_3: RVMRegister)
    ensures
        final(holder)@ == emitted(old(holder)@, Instruction::Mod(register_spec(register_1), register_spec(register_2), register_spec(register_3))),
        final(holder).wf() == old(holder).wf(),
{
    emit(holder, Instruction::Mod(real_register(register_1), real_register(register_2), real_register(register_3)));
}

/// Appends an `Equal` comparison.
pub fn generate_equal(holder: &mut CodeHolder, register_1: RVMRegister, register_2: RVMRegister)
    ensures
        final(holder)@ == emitted(old(holder)@, Instruction::Equal(register_spec(register_1), register_spec(register_2))),
        final(holder).wf() == old(holder).wf(),
{
    emit(holder, Instruction::Equal(real_register(register_1), real_register(register_2)));
}

/// Appends an `NotEqual` comparison.
pub fn generate_not_equal(holder: &mut CodeHolder, register_1: RVMRegister, register_2: RVMRegister)
    ensures
        final(holder)@ == emitted(old(holder)@, Instruction::NotEqual(register_spec(register_1), register_spec(register_2))),
        final(holder).wf() == old(holder).wf(),
{
    emit(holder, Instruction::NotEqual(real_register(register_1), real_register(register_2)));
}

/// Appends an `Greater` comparison.
pub fn generate_greater(holder: &mut CodeHolder, register_1: RVMRegister, register_2: RVMRegister)
    ensures
        final(holder)@ == emitted(old(holder)@, Instruction::Greater(register_spec(register_1), register_spec(register_2))),
        final(holder).wf() == old(holder).wf(),
{
    emit(holder, Instruction::Greater(real_register(register_1), real_register(register_2)));
}

/// Appends an `Less` comparison.
pub fn generate_less(holder: &mut CodeHolder, register_1: RVMRegister, register_2: RVMRegister)
    ensures
        final(holder)@ == emitted(old(holder)@, Instruction::Less(register_spec(register_1), register_spec(register_2))),
        final(holder).wf() == old(holder).wf(),
{
    emit(holder, Instruction::Less(real_register(register_1), real_register(register_2)));
}

/// Appends an `GreaterEqual` comparison.
pub fn generate_greater_equal(holder: &mut CodeHolder, register_1: RVMRegister, register_2: RVMRegister)
    ensures
        final(holder)@ == emitted(old(holder)@, Instruction::GreaterEqual(register_spec(register_1), register_spec(register_2))),
        final(holder).wf() == old(holder).wf(),
{
    emit(holder, Instruction::GreaterEqual(real_register(register_1), real_register(register_2)));
}

/// Appends an `LessEqual` comparison.
pub fn generate_less_equal(holder: &mut CodeHolder, register_1: RVMRegister, register_2: RVMRegister)
    ensures
        final(holder)@ == emitted(old(holder)@, Instruction::LessEqual(register_spec(register_1), register_spec(register_2))),
        final(holder).wf() == old(holder).wf(),
{
    emit(holder, Instruction::LessEqual(real_register(register_1), real_register(register_2)));
}

fn add_constant(holder: &mut CodeHolder, c: Constant) -> (r: RVMRegister)
    requires
        old(holder)@.constants.len() < u32::MAX,
    ensures
        final(holder)@ == (Image { constants: old(holder)@.constants.push(c@), ..old(holder)@ }),
        final(holder).wf() == old(holder).wf(),
        r == RVMRegister(old(holder)@.constants.len() as u32, RVMLocation::CONSTANT_POOL),
{
    let index = holder.constant_pool.len() as u32;
    let ghost v = c@;
    holder.constant_pool.push(c);
    assert(holder@.constants =~= old(holder)@.constants.push(v));
    RVMRegister(index, RVMLocation::CONSTANT_POOL)
}

/// Adds an integer constant and returns the register that reads it.
pub fn generate_int_constant(holder: &mut CodeHolder, value: i64) -> (r: RVMRegister)
    requires
        old(holder)@.constants.len() < u32::MAX,
    ensures
        final(holder)@ == (Image { constants: old(holder)@.constants.push(Value::Int(value)), ..old(holder)@ }),
        final(holder).wf() == old(holder).wf(),
        r == RVMRegister(old(holder)@.constants.len() as u32, RVMLocation::CONSTANT_POOL),
{
    add_constant(holder, Constant::Int(value))
}

/// Adds a binary64 constant, given by its bit pattern, and returns the register that reads it.
pub fn generate_double_constant(holder: &mut CodeHolder, bits: u64) -> (r: RVMRegister)
    requires
        old(holder)@.constants.len() < u32::MAX,
    ensures
        final(holder)@ == (Image { constants: old(holder)@.constants.push(Value::Double(bits)), ..old(holder)@ }),
        final(holder).wf() == old(holder).wf(),
        r == RVMRegister(old(holder)@.constants.len() as u32, RVMLocation::CONSTANT_POOL),
{
    add_constant(holder, Constant::Double(bits))
}

/// Adds a string constant and returns the register that reads it.
pub fn generate_string_constant(holder: &mut CodeHolder, value: String) -> (r: RVMRegister)
    requires
        old(holder)@.constants.len() < u32::MAX,
    ensures
        final(holder)@ == (Image { constants: old(holder)@.constants.push(Value::Str(value@)), ..old(holder)@ }),
        final(holder).wf() == old(holder).wf(),
        r == RVMRegister(old(holder)@.constants.len() as u32, RVMLocation::CONSTANT_POOL),
{
    add_constant(holder, Constant::String(value))
}

/// Adds a boolean constant and returns the register that reads it.
pub fn generate_bool_constant(holder: &mut CodeHolder, value: bool) -> (r: RVMRegister)
    requires
        old(holder)@.constants.len() < u32::MAX,
    ensures
        final(holder)@ == (Image { constants: old(holder)@.constants.push(Value::Boolean(value)), ..old(holder)@ }),
        final(holder).wf() == old(holder).wf(),
        r == RVMRegister(old(holder)@.constants.len() as u32, RVMLocation::CONSTANT_POOL),
{
    add_constant(holder, Constant::Boolean(value))
}

} // verus!
