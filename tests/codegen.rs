use resurgence::builder::CodeBuilder;
use resurgence::codegen::{
    generate_add, generate_alloc, generate_call, generate_cpy, generate_equal, generate_ext_call, generate_frame_alloc,
    generate_frame_free, generate_free, generate_int_constant, generate_jump, generate_mov, generate_return,
    generate_stack_pop, generate_stack_push, generate_string_constant, real_loc, RVMLocation, RVMReference, RVMRegister,
};
use resurgence::codeholder::CodeHolder;
use resurgence::constant::Constant;
use resurgence::instruction::Instruction;
use resurgence::register::{Register, RegisterLocation, RegisterReference};

#[test]
fn generators_append_instructions() {
    let mut h = CodeHolder::new();
    let two = generate_int_constant(&mut h, 2);
    let s = generate_string_constant(&mut h, "s".to_string());
    assert_eq!(two, RVMRegister(0, RVMLocation::CONSTANT_POOL));
    assert_eq!(s, RVMRegister(1, RVMLocation::CONSTANT_POOL));
    generate_alloc(&mut h, 1);
    generate_frame_alloc(&mut h, 2, RVMLocation::GLOBAL);
    generate_add(&mut h, RVMRegister(0, RVMLocation::LOCAL), two, two);
    generate_mov(&mut h, (RVMRegister(0, RVMLocation::GLOBAL), RVMReference::AS_IS), (RVMRegister(0, RVMLocation::LOCAL), RVMReference::DEREFERENCE));
    generate_cpy(&mut h, (RVMRegister(1, RVMLocation::GLOBAL), RVMReference::AS_IS), (s, RVMReference::AS_IS));
    generate_equal(&mut h, two, s);
    generate_jump(&mut h, -1);
    generate_call(&mut h, 0);
    generate_ext_call(&mut h, 3);
    generate_stack_push(&mut h, (two, RVMReference::AS_IS));
    generate_stack_pop(&mut h);
    generate_frame_free(&mut h, 2, RVMLocation::GLOBAL);
    generate_free(&mut h, 1);
    generate_return(&mut h);
    let c = Register(0, RegisterLocation::ConstantPool);
    let l = Register(0, RegisterLocation::Local);
    assert_eq!(
        h.instructions,
        vec![
            Instruction::Alloc(1),
            Instruction::FrameAlloc(2, RegisterLocation::Global),
            Instruction::Add(l, c, c),
            Instruction::Mov(Register(0, RegisterLocation::Global), RegisterReference::AsIs, l, RegisterReference::Dereference),
            Instruction::Cpy(Register(1, RegisterLocation::Global), RegisterReference::AsIs, Register(1, RegisterLocation::ConstantPool), RegisterReference::AsIs),
            Instruction::Equal(c, Register(1, RegisterLocation::ConstantPool)),
            Instruction::Jump(-1),
            Instruction::Call(0),
            Instruction::ExtCall(3),
            Instruction::StackPush(c, RegisterReference::AsIs),
            Instruction::StackPop,
            Instruction::FrameFree(2, RegisterLocation::Global),
            Instruction::Free(1),
            Instruction::Ret,
        ]
    );
    assert_eq!(h.constant_pool, vec![Constant::Int(2), Constant::String("s".to_string())]);
    assert_eq!(real_loc(RVMLocation::ACCUMULATOR), RegisterLocation::Accumulator);
}

#[test]
fn builder_labels() {
    let mut b = CodeBuilder::new(CodeHolder::new());
    b.generate_alloc(1);
    b.create_label("f".to_string());
    b.generate_jump(1);
    b.generate_free(1);
    assert!(b.generate_call(&"f".to_string()));
    assert!(!b.generate_call(&"g".to_string()));
    b.create_label("f".to_string());
    assert!(b.generate_call(&"f".to_string()));
    let h = b.into_code_holder();
    assert_eq!(
        h.instructions,
        vec![Instruction::Alloc(1), Instruction::Jump(1), Instruction::Free(1), Instruction::Call(1), Instruction::Call(4)]
    );
}
