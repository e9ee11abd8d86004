use vstd::prelude::*;
use crate::bytes::{append_bytes, i64_bytes, u16_bytes, u32_bytes, u64_bytes};
use crate::codec::{
    enc_exports, enc_field, enc_fields, enc_instr, enc_instrs, enc_register, enc_string,
    enc_strings, enc_value, enc_values, encodable, encode, fields_of, fits, loc_byte, opcode_of, ref_byte,
    Field, MAGIC_NUMBER, VER_MAJOR, VER_MINOR,
};
use crate::codeholder::CodeHolder;
use crate::constant::{Constant, Value};
use crate::instruction::Instruction;
use crate::register::{Register, RegisterLocation, RegisterReference};

verus! {

fn loc_code(l: RegisterLocation) -> (r: u8)
    ensures
        r == loc_byte(l),
{
    match l {
        RegisterLocation::ConstantPool => 1,
        RegisterLocation::Accumulator => 2,
        RegisterLocation::Global => 3,
        RegisterLocation::Local => 4,
    }
}

fn ref_code(r: RegisterReference) -> (b: u8)
    ensures
        b == ref_byte(r),
{
    match r {
        RegisterReference::AsIs => 1,
        RegisterReference::Dereference => 2,
    }
}

fn write_register(buf: &mut Vec<u8>, r: Register)
    ensures
        final(buf)@ == old(buf)@ + enc_register(r),
{
    append_bytes(buf, u32_bytes(r.0).as_slice());
    buf.push(loc_code(r.1));
    assert(buf@ =~= old(buf)@ + enc_register(r));
}

fn write_field(buf: &mut Vec<u8>, f: Field)
    ensures
        final(buf)@ == old(buf)@ + enc_field(f),
{
    match f {
        Field::U32(n) => append_bytes(buf, u32_bytes(n).as_slice()),
        Field::U64(n) => append_bytes(buf, u64_bytes(n).as_slice()),
        Field::I64(n) => append_bytes(buf, i64_bytes(n).as_slice()),
        Field::Reg(r) => write_register(buf, r),
        Field::Ref(r) => {
            buf.push(ref_code(r));
            assert(buf@ =~= old(buf)@ + enc_field(f));
        },
        Field::Loc(l) => {
            buf.push(loc_code(l));
            assert(buf@ =~= old(buf)@ + enc_field(f));
        },
    }
}

fn opcode(i: Instruction) -> (r: u8)
    ensures
        r == opcode_of(i),
{
    match i {
        Instruction::NoOp => 0x00,
        Instruction::Alloc(_) => 0x01,
        Instruction::Free(_) => 0x02,
        Instruction::Jump(_) => 0x03,
        Instruction::Call(_) => 0x04,
        Instruction::ExtCall(_) => 0x05,
        Instruction::Mov(..) => 0x06,
        Instruction::Cpy(..) => 0x07,
        Instruction::Ref(..) => 0x08,
        Instruction::StackPush(..) => 0x09,
        Instruction::StackPop => 0x0A,
        Instruction::Add(..) => 0x0B,
        Instruction::Sub(..) => 0x0C,
        Instruction::Mul(..) => 0x0D,
        Instruction::Div(..) => 0x0E,
        Instruction::Equal(..) => 0x0F,
        Instruction::NotEqual(..) => 0x10,
        Instruction::Greater(..) => 0x11,
        Instruction::Less(..) => 0x12,
        Instruction::GreaterEqual(..) => 0x13,
        Instruction::LessEqual(..) => 0x14,
        Instruction::FrameAlloc(..) => 0x15,
        Instruction::FrameFree(..) => 0x16,
        Instruction::StackMov(..) => 0x17,
        Instruction::Mod(..) => 0x18,
        Instruction::Ret => 0x19,
    }
}

fn operands(i: Instruction) -> (r: Vec<Field>)
    ensures
        r@ == fields_of(i),
{
    let mut v: Vec<Field> = Vec::new();
    match i {
        Instruction::Alloc(n) | Instruction::Free(n) => {
            v.push(Field::U32(n));
        },
        Instruction::FrameAlloc(n, l) | Instruction::FrameFree(n, l) => {
            v.push(Field::U32(n));
            v.push(Field::Loc(l));
        },
        Instruction::Jump(d) => {
            v.push(Field::I64(d));
        },
        Instruction::Call(n) | Instruction::ExtCall(n) => {
            v.push(Field::U64(n));
        },
        Instruction::Mov(a, b, c, d) | Instruction::Cpy(a, b, c, d) | Instruction::Ref(a, b, c, d) => {
            v.push(Field::Reg(a));
            v.push(Field::Ref(b));
            v.push(Field::Reg(c));
            v.push(Field::Ref(d));
        },
        Instruction::StackPush(a, b) | Instruction::StackMov(a, b) => {
            v.push(Field::Reg(a));
            v.push(Field::Ref(b));
        },
        Instruction::Add(a, b, c) | Instruction::Sub(a, b, c) | Instruction::Mul(a, b, c)
        | Instruction::Div(a, b, c) | Instruction::Mod(a, b, c) => {
            v.push(Field::Reg(a));
            v.push(Field::Reg(b));
            v.push(Field::Reg(c));
        },
        Instruction::Equal(a, b) | Instruction::NotEqual(a, b) | Instruction::Greater(a, b)
        | Instruction::Less(a, b) | Instruction::GreaterEqual(a, b) | Instruction::LessEqual(a, b) => {
            v.push(Field::Reg(a));
            v.push(Field::Reg(b));
        },
        _ => {},
    }
    assert(v@ =~= fields_of(i));
    v
}

fn write_instruction(buf: &mut Vec<u8>, i: Instruction)
    ensures
        final(buf)@ == old(buf)@ + enc_instr(i),
{
    buf.push(opcode(i));
    let fs = operands(i);
    let ghost all = fs@;
    let mut k: usize = 0;
    assert(all.subrange(0, all.len() as int) =~= all);
    assert(old(buf)@ + enc_instr(i) =~= buf@ + enc_fields(all));
    while k < fs.len()
        invariant
            0 <= k <= fs@.len(),
            all == fs@,
            all == fields_of(i),
            buf@ + enc_fields(all.subrange(k as int, all.len() as int)) == old(buf)@ + enc_instr(i),
        decreases fs@.len() - k,
    {
        let ghost before = buf@;
        assert(all.subrange(k as int, all.len() as int).drop_first() =~= all.subrange(k + 1, all.len() as int));
        write_field(buf, fs[k]);
        assert(buf@ + enc_fields(all.subrange(k + 1, all.len() as int)) =~= before + enc_fields(
            all.subrange(k as int, all.len() as int),
        ));
        k += 1;
    }
    assert(all.subrange(k as int, all.len() as int) =~= Seq::<Field>::empty());
    assert(buf@ =~= buf@ + enc_fields(all.subrange(k as int, all.len() as int)));
    assert(old(buf)@ + enc_instr(i) =~= old(buf)@.push(opcode_of(i)) + enc_fields(all));
}

fn write_string(buf: &mut Vec<u8>, s: &String)
    ensures
        final(buf)@ == old(buf)@ + enc_string(s@),
{
    let bytes = s.as_str().as_bytes();
    append_bytes(buf, u64_bytes(bytes.len() as u64).as_slice());
    append_bytes(buf, bytes);
    assert(buf@ =~= old(buf)@ + enc_string(s@));
}

fn write_constant(buf: &mut Vec<u8>, c: &Constant)
    requires
        fits(c@),
    ensures
        final(buf)@ == old(buf)@ + enc_value(c@),
    decreases c,
{
    match c {
        Constant::Int(x) => {
            buf.push(1);
            append_bytes(buf, i64_bytes(*x).as_slice());
        },
        Constant::Double(x) => {
            buf.push(2);
            append_bytes(buf, u64_bytes(*x).as_slice());
        },
        Constant::String(x) => {
            buf.push(3);
            write_string(buf, x);
        },
        Constant::Boolean(x) => {
            buf.push(4);
            buf.push(if *x { 1 } else { 0 });
        },
        Constant::Address(x) => {
            buf.push(5);
            write_register(buf, *x);
        },
        Constant::Vec(v) => {
            let ghost vs = match c@ {
                Value::List(vs) => vs,
                _ => Seq::empty(),
            };
            assert(vs.len() == v@.len() <= 255);
            buf.push(6);
            buf.push(v.len() as u8);
            let mut k: usize = 0;
            assert(vs.subrange(0, vs.len() as int) =~= vs);
            assert(old(buf)@ + enc_value(c@) =~= buf@ + enc_values(vs));
            while k < v.len()
                invariant
                    0 <= k <= v@.len(),
                    *c == Constant::Vec(*v),
                    c@ == Value::List(vs),
                    fits(c@),
                    vs.len() == v@.len(),
                    forall|j: int| 0 <= j < v@.len() ==> vs[j] == (#[trigger] v@[j])@,
                    buf@ + enc_values(vs.subrange(k as int, vs.len() as int)) == old(buf)@ + enc_value(c@),
                decreases v@.len() - k,
            {
                let ghost before = buf@;
                proof {
                    assert(decreases_to!(*c => c->Vec_0));
                    assert(decreases_to!(*c => *v));
                    assert(decreases_to!(*v => v[k as int]));
                    assert(vs.subrange(k as int, vs.len() as int).drop_first() =~= vs.subrange(
                        k + 1,
                        vs.len() as int,
                    ));
                    assert(fits(vs[k as int]));
                }
                write_constant(buf, &v[k]);
                assert(buf@ + enc_values(vs.subrange(k + 1, vs.len() as int)) =~= before + enc_values(
                    vs.subrange(k as int, vs.len() as int),
                ));
                k += 1;
            }
            assert(vs.subrange(k as int, vs.len() as int) =~= Seq::<Value>::empty());
            assert(buf@ =~= buf@ + enc_values(vs.subrange(k as int, vs.len() as int)));
            return;
        },
    }
    assert(buf@ =~= old(buf)@ + enc_value(c@));
}

/// The bytes of `code` in the current format.
pub fn write_bytecode(code: &CodeHolder) -> (r: Vec<u8>)
    requires
        encodable(code@),
    ensures
        r@ == encode(code@),
{
    let mut buf: Vec<u8> = Vec::new();
    append_bytes(&mut buf, u32_bytes(MAGIC_NUMBER).as_slice());
    append_bytes(&mut buf, u16_bytes(VER_MAJOR).as_slice());
    append_bytes(&mut buf, u16_bytes(VER_MINOR).as_slice());
    append_bytes(&mut buf, u32_bytes(code.constant_pool.len() as u32).as_slice());
    let ghost head = buf@;
    let ghost cs = code@.constants;
    let mut k: usize = 0;
    assert(cs.subrange(0, cs.len() as int) =~= cs);
    assert(head + enc_values(cs) =~= buf@ + enc_values(cs.subrange(0, cs.len() as int)));
    while k < code.constant_pool.len()
        invariant
            0 <= k <= cs.len(),
            cs == code@.constants,
            encodable(code@),
            buf@ + enc_values(cs.subrange(k as int, cs.len() as int)) == head + enc_values(cs),
        decreases cs.len() - k,
    {
        let ghost before = buf@;
        assert(cs.subrange(k as int, cs.len() as int).drop_first() =~= cs.subrange(k + 1, cs.len() as int));
        assert(fits(cs[k as int]));
        write_constant(&mut buf, &code.constant_pool[k]);
        assert(buf@ + enc_values(cs.subrange(k + 1, cs.len() as int)) =~= before + enc_values(
            cs.subrange(k as int, cs.len() as int),
        ));
        k += 1;
    }
    assert(cs.subrange(k as int, cs.len() as int) =~= Seq::<Value>::empty());
    assert(buf@ =~= head + enc_values(cs));
    append_bytes(&mut buf, u64_bytes(code.imports.len() as u64).as_slice());
    let ghost head2 = buf@;
    let ghost ims = code@.imports;
    let mut k: usize = 0;
    assert(ims.subrange(0, ims.len() as int) =~= ims);
    assert(head2 + enc_strings(ims) =~= buf@ + enc_strings(ims.subrange(0, ims.len() as int)));
    while k < code.imports.len()
        invariant
            0 <= k <= ims.len(),
            ims == code@.imports,
            buf@ + enc_strings(ims.subrange(k as int, ims.len() as int)) == head2 + enc_strings(ims),
        decreases ims.len() - k,
    {
        let ghost before = buf@;
        assert(ims.subrange(k as int, ims.len() as int).drop_first() =~= ims.subrange(k + 1, ims.len() as int));
        write_string(&mut buf, &code.imports[k]);
        assert(buf@ + enc_strings(ims.subrange(k + 1, ims.len() as int)) =~= before + enc_strings(
            ims.subrange(k as int, ims.len() as int),
        ));
        k += 1;
    }
    assert(ims.subrange(k as int, ims.len() as int) =~= Seq::<Seq<char>>::empty());
    assert(buf@ =~= head2 + enc_strings(ims));
    append_bytes(&mut buf, u64_bytes(code.exports.len() as u64).as_slice());
    let ghost head3 = buf@;
    let ghost es = code@.exports;
    let mut k: usize = 0;
    assert(es.subrange(0, es.len() as int) =~= es);
    assert(head3 + enc_exports(es) =~= buf@ + enc_exports(es.subrange(0, es.len() as int)));
    while k < code.exports.len()
        invariant
            0 <= k <= es.len(),
            es == code@.exports,
            buf@ + enc_exports(es.subrange(k as int, es.len() as int)) == head3 + enc_exports(es),
        decreases es.len() - k,
    {
        let ghost before = buf@;
        assert(es.subrange(k as int, es.len() as int).drop_first() =~= es.subrange(k + 1, es.len() as int));
        write_string(&mut buf, &code.exports[k].name);
        append_bytes(&mut buf, u64_bytes(code.exports[k].index).as_slice());
        assert(buf@ + enc_exports(es.subrange(k + 1, es.len() as int)) =~= before + enc_exports(
            es.subrange(k as int, es.len() as int),
        ));
        k += 1;
    }
    assert(es.subrange(k as int, es.len() as int) =~= Seq::<(Seq<char>, u64)>::empty());
    assert(buf@ =~= head3 + enc_exports(es));
    let ghost head4 = buf@;
    let ghost is = code@.instructions;
    let mut k: usize = 0;
    assert(is.subrange(0, is.len() as int) =~= is);
    assert(head4 + enc_instrs(is) =~= buf@ + enc_instrs(is.subrange(0, is.len() as int)));
    while k < code.instructions.len()
        invariant
            0 <= k <= is.len(),
            is == code@.instructions,
            buf@ + enc_instrs(is.subrange(k as int, is.len() as int)) == head4 + enc_instrs(is),
        decreases is.len() - k,
    {
        let ghost before = buf@;
        assert(is.subrange(k as int, is.len() as int).drop_first() =~= is.subrange(k + 1, is.len() as int));
        write_instruction(&mut buf, code.instructions[k]);
        assert(buf@ + enc_instrs(is.subrange(k + 1, is.len() as int)) =~= before + enc_instrs(
            is.subrange(k as int, is.len() as int),
        ));
        k += 1;
    }
    assert(is.subrange(k as int, is.len() as int) =~= Seq::<Instruction>::empty());
    assert(buf@ =~= head4 + enc_instrs(is));
    assert(buf@ =~= encode(code@));
    buf
}


} // verus!
