use vstd::prelude::*;
use vstd::utf8::{decode_utf8, encode_utf8, valid_utf8};
use crate::bytes::{be_u16, be_u32, be_u64, bytes_u16, bytes_u32, bytes_u64};
use crate::codeholder::{bind, Image};
use crate::constant::Value;
use crate::instruction::Instruction;
use crate::register::{Register, RegisterLocation, RegisterReference};

verus! {

/// The first four bytes of every image.
pub const MAGIC_NUMBER: u32 = 0x52564D88;

/// The major format version this library reads and writes.
pub const VER_MAJOR: u16 = 7;

/// The newest minor format version this library reads; it writes this one.
pub const VER_MINOR: u16 = 0;

/// Why bytes could not be read as an image.
#[derive(Clone, Copy, Debug, PartialEq, Eq, Structural)]
pub enum FormatErrorKind {
    InvalidHeader,
    UnsupportedVersion,
    UnknownConstantTag,
    UnknownOpcode,
    BadUtf8,
    InvalidRegisterSpace,
    InvalidRefMode,
    Truncated,
}

/// A reader fault and the byte offset where it was found.
#[derive(Clone, Copy, Debug, PartialEq, Eq, Structural)]
pub struct FormatError {
    pub kind: FormatErrorKind,
    pub offset: usize,
}

pub open spec fn fail<T>(kind: FormatErrorKind, offset: int) -> Result<T, FormatError> {
    Err(FormatError { kind, offset: offset as usize })
}

/// One operand of an encoded instruction.
#[derive(Clone, Copy, Debug, PartialEq, Eq, Structural)]
pub enum Field {
    U32(u32),
    U64(u64),
    I64(i64),
    Reg(Register),
    Ref(RegisterReference),
    Loc(RegisterLocation),
}

/// The shape of an operand.
#[derive(Clone, Copy, Debug, PartialEq, Eq, Structural)]
pub enum FieldKind {
    U32,
    U64,
    I64,
    Reg,
    Ref,
    Loc,
}

// ----- encoding -----

pub open spec fn loc_byte(l: RegisterLocation) -> u8 {
    match l {
        RegisterLocation::ConstantPool => 1,
        RegisterLocation::Accumulator => 2,
        RegisterLocation::Global => 3,
        RegisterLocation::Local => 4,
    }
}

pub open spec fn ref_byte(r: RegisterReference) -> u8 {
    match r {
        RegisterReference::AsIs => 1,
        RegisterReference::Dereference => 2,
    }
}

pub open spec fn enc_register(r: Register) -> Seq<u8> {
    bytes_u32(r.0).push(loc_byte(r.1))
}

pub open spec fn enc_field(f: Field) -> Seq<u8> {
    match f {
        Field::U32(n) => bytes_u32(n),
        Field::U64(n) => bytes_u64(n),
        Field::I64(n) => bytes_u64(n as u64),
        Field::Reg(r) => enc_register(r),
        Field::Ref(r) => seq![ref_byte(r)],
        Field::Loc(l) => seq![loc_byte(l)],
    }
}

pub open spec fn enc_fields(fs: Seq<Field>) -> Seq<u8>
    decreases fs.len(),
{
    if fs.len() == 0 {
        Seq::empty()
    } else {
        enc_field(fs[0]) + enc_fields(fs.drop_first())
    }
}

pub open spec fn kind_of(f: Field) -> FieldKind {
    match f {
        Field::U32(_) => FieldKind::U32,
        Field::U64(_) => FieldKind::U64,
        Field::I64(_) => FieldKind::I64,
        Field::Reg(_) => FieldKind::Reg,
        Field::Ref(_) => FieldKind::Ref,
        Field::Loc(_) => FieldKind::Loc,
    }
}

pub open spec fn kinds(fs: Seq<Field>) -> Seq<FieldKind> {
    fs.map_values(|f: Field| kind_of(f))
}

pub open spec fn opcode_of(i: Instruction) -> u8 {
    match i {
        Instruction::NoOp => 0x00,
        Instruction::Alloc(_) => 0x01,
        Instruction::Free(_) => 0x02,
        Instruction::Jump(_) => 0x03,
        Instruction::Call(_) => 0x04,
        Instruction::ExtCall(_) => 0x05,
        Instruction::Mov(..) => 0x06,
        Instruction::Cpy(..) => 0x07,
        Instruction::Ref(..) => 0x08,
        Instruction::StackPush(..) => 0x09,
        Instruction::StackPop => 0x0A,
        Instruction::Add(..) => 0x0B,
        Instruction::Sub(..) => 0x0C,
        Instruction::Mul(..) => 0x0D,
        Instruction::Div(..) => 0x0E,
        Instruction::Equal(..) => 0x0F,
        Instruction::NotEqual(..) => 0x10,
        Instruction::Greater(..) => 0x11,
        Instruction::Less(..) => 0x12,
        Instruction::GreaterEqual(..) => 0x13,
        Instruction::LessEqual(..) => 0x14,
        Instruction::FrameAlloc(..) => 0x15,
        Instruction::FrameFree(..) => 0x16,
        Instruction::StackMov(..) => 0x17,
        Instruction::Mod(..) => 0x18,
        Instruction::Ret => 0x19,
    }
}

pub open spec fn fields_of(i: Instruction) -> Seq<Field> {
    match i {
        Instruction::Alloc(n) | Instruction::Free(n) => seq![Field::U32(n)],
        Instruction::FrameAlloc(n, l) | Instruction::FrameFree(n, l) => seq![Field::U32(n), Field::Loc(l)],
        Instruction::Jump(d) => seq![Field::I64(d)],
        Instruction::Call(n) | Instruction::ExtCall(n) => seq![Field::U64(n)],
        Instruction::Mov(a, b, c, d) | Instruction::Cpy(a, b, c, d) | Instruction::Ref(a, b, c, d) => seq![
            Field::Reg(a),
            Field::Ref(b),
            Field::Reg(c),
            Field::Ref(d),
        ],
        Instruction::StackPush(a, b) | Instruction::StackMov(a, b) => seq![Field::Reg(a), Field::Ref(b)],
        Instruction::Add(a, b, c) | Instruction::Sub(a, b, c) | Instruction::Mul(a, b, c)
        | Instruction::Div(a, b, c) | Instruction::Mod(a, b, c) => seq![Field::Reg(a), Field::Reg(b), Field::Reg(c)],
        Instruction::Equal(a, b) | Instruction::NotEqual(a, b) | Instruction::Greater(a, b)
        | Instruction::Less(a, b) | Instruction::GreaterEqual(a, b) | Instruction::LessEqual(a, b) => seq![
            Field::Reg(a),
            Field::Reg(b),
        ],
        _ => seq![],
    }
}

/// The operand shapes that follow opcode `op`; `None` for a byte that is no opcode.
pub open spec fn shape(op: u8) -> Option<Seq<FieldKind>> {
    if op == 0x00 || op == 0x0A || op == 0x19 {
        Some(seq![])
    } else if op == 0x01 || op == 0x02 {
        Some(seq![FieldKind::U32])
    } else if op == 0x15 || op == 0x16 {
        Some(seq![FieldKind::U32, FieldKind::Loc])
    } else if op == 0x03 {
        Some(seq![FieldKind::I64])
    } else if op == 0x04 || op == 0x05 {
        Some(seq![FieldKind::U64])
    } else if op == 0x06 || op == 0x07 || op == 0x08 {
        Some(seq![FieldKind::Reg, FieldKind::Ref, FieldKind::Reg, FieldKind::Ref])
    } else if op == 0x09 || op == 0x17 {
        Some(seq![FieldKind::Reg, FieldKind::Ref])
    } else if (0x0B <= op && op <= 0x0E) || op == 0x18 {
        Some(seq![FieldKind::Reg, FieldKind::Reg, FieldKind::Reg])
    } else if 0x0F <= op && op <= 0x14 {
        Some(seq![FieldKind::Reg, FieldKind::Reg])
    } else {
        None
    }
}

pub open spec fn enc_instr(i: Instruction) -> Seq<u8> {
    seq![opcode_of(i)] + enc_fields(fields_of(i))
}

pub open spec fn enc_instrs(is: Seq<Instruction>) -> Seq<u8>
    decreases is.len(),
{
    if is.len() == 0 {
        Seq::empty()
    } else {
        enc_instr(is[0]) + enc_instrs(is.drop_first())
    }
}

pub open spec fn enc_string(s: Seq<char>) -> Seq<u8> {
    bytes_u64(encode_utf8(s).len() as u64) + encode_utf8(s)
}

pub open spec fn enc_strings(ss: Seq<Seq<char>>) -> Seq<u8>
    decreases ss.len(),
{
    if ss.len() == 0 {
        Seq::empty()
    } else {
        enc_string(ss[0]) + enc_strings(ss.drop_first())
    }
}

pub open spec fn enc_exports(es: Seq<(Seq<char>, u64)>) -> Seq<u8>
    decreases es.len(),
{
    if es.len() == 0 {
        Seq::empty()
    } else {
        enc_string(es[0].0) + bytes_u64(es[0].1) + enc_exports(es.drop_first())
    }
}

pub open spec fn enc_value(v: Value) -> Seq<u8>
    decreases v, 0nat,
{
    match v {
        Value::Int(i) => seq![1u8] + bytes_u64(i as u64),
        Value::Double(b) => seq![2u8] + bytes_u64(b),
        Value::Str(s) => seq![3u8] + enc_string(s),
        Value::Boolean(b) => seq![4u8, if b { 1u8 } else { 0u8 }],
        Value::Address(r) => seq![5u8] + enc_register(r),
        Value::List(vs) => seq![6u8, vs.len() as u8] + enc_values(vs),
    }
}

pub open spec fn enc_values(vs: Seq<Value>) -> Seq<u8>
    decreases vs, 1nat,
{
    if vs.len() == 0 {
        Seq::empty()
    } else {
        enc_value(vs[0]) + enc_values(vs.drop_first())
    }
}

/// The bytes of an image in the current format.
pub open spec fn encode(img: Image) -> Seq<u8> {
    bytes_u32(MAGIC_NUMBER) + bytes_u16(VER_MAJOR) + bytes_u16(VER_MINOR)
        + bytes_u32(img.constants.len() as u32) + enc_values(img.constants)
        + bytes_u64(img.imports.len() as u64) + enc_strings(img.imports)
        + bytes_u64(img.exports.len() as u64) + enc_exports(img.exports)
        + enc_instrs(img.instructions)
}

/// Every list is short enough for its one-byte count.
pub open spec fn fits(v: Value) -> bool
    decreases v,
{
    match v {
        Value::List(vs) => vs.len() <= 255 && forall|i: int| 0 <= i < vs.len() ==> fits(#[trigger] vs[i]),
        _ => true,
    }
}

/// The image can be written in the current format.
pub open spec fn encodable(img: Image) -> bool {
    &&& img.constants.len() <= u32::MAX
    &&& img.imports.len() <= u64::MAX
    &&& img.exports.len() <= u64::MAX
    &&& forall|i: int| 0 <= i < img.constants.len() ==> fits(#[trigger] img.constants[i])
}

// ----- decoding -----

pub open spec fn p_u8(b: Seq<u8>, pos: int) -> Result<(u8, int), FormatError> {
    if 0 <= pos < b.len() {
        Ok((b[pos], pos + 1))
    } else {
        fail(FormatErrorKind::Truncated, pos)
    }
}

pub open spec fn p_u16(b: Seq<u8>, pos: int) -> Result<(u16, int), FormatError> {
    if 0 <= pos && pos + 2 <= b.len() {
        Ok((be_u16(b.subrange(pos, pos + 2)), pos + 2))
    } else {
        fail(FormatErrorKind::Truncated, pos)
    }
}

pub open spec fn p_u32(b: Seq<u8>, pos: int) -> Result<(u32, int), FormatError> {
    if 0 <= pos && pos + 4 <= b.len() {
        Ok((be_u32(b.subrange(pos, pos + 4)), pos + 4))
    } else {
        fail(FormatErrorKind::Truncated, pos)
    }
}

pub open spec fn p_u64(b: Seq<u8>, pos: int) -> Result<(u64, int), FormatError> {
    if 0 <= pos && pos + 8 <= b.len() {
        Ok((be_u64(b.subrange(pos, pos + 8)), pos + 8))
    } else {
        fail(FormatErrorKind::Truncated, pos)
    }
}

pub open spec fn loc_of_byte(x: u8) -> Option<RegisterLocation> {
    if x == 1 {
        Some(RegisterLocation::ConstantPool)
    } else if x == 2 {
        Some(RegisterLocation::Accumulator)
    } else if x == 3 {
        Some(RegisterLocation::Global)
    } else if x == 4 {
        Some(RegisterLocation::Local)
    } else {
        None
    }
}

pub open spec fn ref_of_byte(x: u8) -> Option<RegisterReference> {
    if x == 1 {
        Some(RegisterReference::AsIs)
    } else if x == 2 {
        Some(RegisterReference::Dereference)
    } else {
        None
    }
}

pub open spec fn p_loc(b: Seq<u8>, pos: int) -> Result<(RegisterLocation, int), FormatError> {
    match p_u8(b, pos) {
        Ok((x, p)) => match loc_of_byte(x) {
            Some(l) => Ok((l, p)),
            None => fail(FormatErrorKind::InvalidRegisterSpace, pos),
        },
        Err(e) => Err(e),
    }
}

pub open spec fn p_ref(b: Seq<u8>, pos: int) -> Result<(RegisterReference, int), FormatError> {
    match p_u8(b, pos) {
        Ok((x, p)) => match ref_of_byte(x) {
            Some(r) => Ok((r, p)),
            None => fail(FormatErrorKind::InvalidRefMode, pos),
        },
        Err(e) => Err(e),
    }
}

pub open spec fn p_register(b: Seq<u8>, pos: int) -> Result<(Register, int), FormatError> {
    match p_u32(b, pos) {
        Ok((n, p)) => match p_loc(b, p) {
            Ok((l, p2)) => Ok((Register(n, l), p2)),
            Err(e) => Err(e),
        },
        Err(e) => Err(e),
    }
}

pub open spec fn p_field(b: Seq<u8>, pos: int, k: FieldKind) -> Result<(Field, int), FormatError> {
    match k {
        FieldKind::U32 => match p_u32(b, pos) {
            Ok((n, p)) => Ok((Field::U32(n), p)),
            Err(e) => Err(e),
        },
        FieldKind::U64 => match p_u64(b, pos) {
            Ok((n, p)) => Ok((Field::U64(n), p)),
            Err(e) => Err(e),
        },
        FieldKind::I64 => match p_u64(b, pos) {
            Ok((n, p)) => Ok((Field::I64(n as i64), p)),
            Err(e) => Err(e),
        },
        FieldKind::Reg => match p_register(b, pos) {
            Ok((r, p)) => Ok((Field::Reg(r), p)),
            Err(e) => Err(e),
        },
        FieldKind::Ref => match p_ref(b, pos) {
            Ok((r, p)) => Ok((Field::Ref(r), p)),
            Err(e) => Err(e),
        },
        FieldKind::Loc => match p_loc(b, pos) {
            Ok((l, p)) => Ok((Field::Loc(l), p)),
            Err(e) => Err(e),
        },
    }
}

pub open spec fn p_fields(b: Seq<u8>, pos: int, ks: Seq<FieldKind>) -> Result<(Seq<Field>, int), FormatError>
    decreases ks.len(),
{
    if ks.len() == 0 {
        Ok((Seq::empty(), pos))
    } else {
        match p_field(b, pos, ks[0]) {
            Ok((f, p)) => match p_fields(b, p, ks.drop_first()) {
                Ok((fs, p2)) => Ok((seq![f] + fs, p2)),
                Err(e) => Err(e),
            },
            Err(e) => Err(e),
        }
    }
}

/// The instruction with opcode `op` and operands `fs`.
pub open spec fn build(op: u8, fs: Seq<Field>) -> Instruction {
    let f0 = if fs.len() > 0 { fs[0] } else { Field::U32(0) };
    let f1 = if fs.len() > 1 { fs[1] } else { Field::U32(0) };
    let f2 = if fs.len() > 2 { fs[2] } else { Field::U32(0) };
    let f3 = if fs.len() > 3 { fs[3] } else { Field::U32(0) };
    if fs.len() == 0 {
        if op == 0x0A {
            Instruction::StackPop
        } else if op == 0x19 {
            Instruction::Ret
        } else {
            Instruction::NoOp
        }
    } else {
        match (f0, f1, f2, f3) {
            (Field::U32(n), Field::Loc(l), _, _) => if op == 0x15 {
                Instruction::FrameAlloc(n, l)
            } else {
                Instruction::FrameFree(n, l)
            },
            (Field::U32(n), _, _, _) => if op == 0x01 {
                Instruction::Alloc(n)
            } else {
                Instruction::Free(n)
            },
            (Field::I64(d), _, _, _) => Instruction::Jump(d),
            (Field::U64(n), _, _, _) => if op == 0x04 {
                Instruction::Call(n)
            } else {
                Instruction::ExtCall(n)
            },
            (Field::Reg(a), Field::Ref(x), Field::Reg(c), Field::Ref(y)) => if op == 0x06 {
                Instruction::Mov(a, x, c, y)
            } else if op == 0x07 {
                Instruction::Cpy(a, x, c, y)
            } else {
                Instruction::Ref(a, x, c, y)
            },
            (Field::Reg(a), Field::Ref(x), _, _) => if op == 0x09 {
                Instruction::StackPush(a, x)
            } else {
                Instruction::StackMov(a, x)
            },
            (Field::Reg(a), Field::Reg(c), Field::Reg(d), _) => if op == 0x0B {
                Instruction::Add(a, c, d)
            } else if op == 0x0C {
                Instruction::Sub(a, c, d)
            } else if op == 0x0D {
                Instruction::Mul(a, c, d)
            } else if op == 0x0E {
                Instruction::Div(a, c, d)
            } else {
                Instruction::Mod(a, c, d)
            },
            (Field::Reg(a), Field::Reg(c), _, _) => if op == 0x0F {
                Instruction::Equal(a, c)
            } else if op == 0x10 {
                Instruction::NotEqual(a, c)
            } else if op == 0x11 {
                Instruction::Greater(a, c)
            } else if op == 0x12 {
                Instruction::Less(a, c)
            } else if op == 0x13 {
                Instruction::GreaterEqual(a, c)
            } else {
                Instruction::LessEqual(a, c)
            },
            _ => if op == 0x0A {
                Instruction::StackPop
            } else if op == 0x19 {
                Instruction::Ret
            } else {
                Instruction::NoOp
            },
        }
    }
}

pub open spec fn p_instr(b: Seq<u8>, pos: int) -> Result<(Instruction, int), FormatError> {
    match p_u8(b, pos) {
        Ok((op, p)) => match shape(op) {
            Some(ks) => match p_fields(b, p, ks) {
                Ok((fs, p2)) => Ok((build(op, fs), p2)),
                Err(e) => Err(e),
            },
            None => fail(FormatErrorKind::UnknownOpcode, pos),
        },
        Err(e) => Err(e),
    }
}

/// Instructions from `pos` to the end of `b`.
pub open spec fn p_instrs(b: Seq<u8>, pos: int) -> Result<Seq<Instruction>, FormatError>
    decreases b.len() - pos,
{
    if pos < 0 || pos >= b.len() {
        Ok(Seq::empty())
    } else {
        match p_instr(b, pos) {
            Ok((i, p)) => if p <= pos || p > b.len() {
                fail(FormatErrorKind::Truncated, pos)
            } else {
                match p_instrs(b, p) {
                    Ok(is) => Ok(seq![i] + is),
                    Err(e) => Err(e),
                }
            },
            Err(e) => Err(e),
        }
    }
}

pub open spec fn p_string(b: Seq<u8>, pos: int) -> Result<(Seq<char>, int), FormatError> {
    match p_u64(b, pos) {
        Ok((n, p)) => if p + n > b.len() {
            fail(FormatErrorKind::Truncated, p)
        } else if !valid_utf8(b.subrange(p, p + n)) {
            fail(FormatErrorKind::BadUtf8, p)
        } else {
            Ok((decode_utf8(b.subrange(p, p + n)), p + n))
        },
        Err(e) => Err(e),
    }
}

pub open spec fn p_strings(b: Seq<u8>, pos: int, n: nat) -> Result<(Seq<Seq<char>>, int), FormatError>
    decreases n,
{
    if n == 0 {
        Ok((Seq::empty(), pos))
    } else {
        match p_string(b, pos) {
            Ok((s, p)) => match p_strings(b, p, (n - 1) as nat) {
                Ok((ss, p2)) => Ok((seq![s] + ss, p2)),
                Err(e) => Err(e),
            },
            Err(e) => Err(e),
        }
    }
}

pub open spec fn p_exports(b: Seq<u8>, pos: int, n: nat) -> Result<(Seq<(Seq<char>, u64)>, int), FormatError>
    decreases n,
{
    if n == 0 {
        Ok((Seq::empty(), pos))
    } else {
        match p_string(b, pos) {
            Ok((s, p)) => match p_u64(b, p) {
                Ok((x, p1)) => match p_exports(b, p1, (n - 1) as nat) {
                    Ok((es, p2)) => Ok((seq![(s, x)] + es, p2)),
                    Err(e) => Err(e),
                },
                Err(e) => Err(e),
            },
            Err(e) => Err(e),
        }
    }
}

/// The exports after binding each pair in turn, first to last.
pub open spec fn bind_all(es: Seq<(Seq<char>, u64)>, pairs: Seq<(Seq<char>, u64)>) -> Seq<(Seq<char>, u64)>
    decreases pairs.len(),
{
    if pairs.len() == 0 {
        es
    } else {
        bind(bind_all(es, pairs.drop_last()), pairs.last().0, pairs.last().1)
    }
}

/// A constant at `pos`, and how many bytes it takes.
pub open spec fn p_value(b: Seq<u8>, pos: int) -> Result<(Value, nat), FormatError>
    decreases b.len() - pos, 0int, 0int,
{
    if pos < 0 || pos >= b.len() {
        fail(FormatErrorKind::Truncated, pos)
    } else {
        let tag = b[pos];
        let p = pos + 1;
        if tag == 1 {
            match p_u64(b, p) {
                Ok((x, p2)) => Ok((Value::Int(x as i64), (p2 - pos) as nat)),
                Err(e) => Err(e),
            }
        } else if tag == 2 {
            match p_u64(b, p) {
                Ok((x, p2)) => Ok((Value::Double(x), (p2 - pos) as nat)),
                Err(e) => Err(e),
            }
        } else if tag == 3 {
            match p_string(b, p) {
                Ok((s, p2)) => Ok((Value::Str(s), (p2 - pos) as nat)),
                Err(e) => Err(e),
            }
        } else if tag == 4 {
            match p_u8(b, p) {
                Ok((x, p2)) => Ok((Value::Boolean(x != 0), (p2 - pos) as nat)),
                Err(e) => Err(e),
            }
        } else if tag == 5 {
            match p_register(b, p) {
                Ok((r, p2)) => Ok((Value::Address(r), (p2 - pos) as nat)),
                Err(e) => Err(e),
            }
        } else if tag == 6 {
            if p >= b.len() {
                fail(FormatErrorKind::Truncated, p)
            } else {
                match p_values(b, p + 1, b[p] as nat) {
                    Ok((vs, k)) => Ok((Value::List(vs), (k + 2) as nat)),
                    Err(e) => Err(e),
                }
            }
        } else {
            fail(FormatErrorKind::UnknownConstantTag, pos)
        }
    }
}

/// `n` constants from `pos`, and how many bytes they take.
pub open spec fn p_values(b: Seq<u8>, pos: int, n: nat) -> Result<(Seq<Value>, nat), FormatError>
    decreases b.len() - pos, 1int, n,
{
    if n == 0 {
        Ok((Seq::empty(), 0))
    } else if pos < 0 || pos > b.len() {
        fail(FormatErrorKind::Truncated, pos)
    } else {
        match p_value(b, pos) {
            Ok((v, k)) => if pos + k > b.len() {
                fail(FormatErrorKind::Truncated, pos)
            } else {
                match p_values(b, pos + k, (n - 1) as nat) {
                    Ok((vs, k2)) => Ok((seq![v] + vs, k + k2)),
                    Err(e) => Err(e),
                }
            },
            Err(e) => Err(e),
        }
    }
}

/// The version fields of the header: major, minor, and where the header ends.
pub open spec fn p_version(b: Seq<u8>) -> Result<(u16, u16, int), FormatError> {
    match p_u16(b, 4) {
        Ok((major, p)) => if 1 <= major <= 6 {
            Ok((major, 0u16, p))
        } else {
            match p_u16(b, p) {
                Ok((minor, p2)) => Ok((major, minor, p2)),
                Err(e) => Err(e),
            }
        },
        Err(e) => Err(e),
    }
}

/// What the reader makes of `b`.
pub open spec fn decode(b: Seq<u8>) -> Result<Image, FormatError> {
    if b.len() < 4 {
        fail(FormatErrorKind::Truncated, 0)
    } else if !(p_u32(b, 0) matches Ok((m, _)) && m == MAGIC_NUMBER) {
        fail(FormatErrorKind::InvalidHeader, 0)
    } else {
        match p_version(b) {
            Err(e) => Err(e),
            Ok((major, minor, p0)) => if major != VER_MAJOR || minor > VER_MINOR {
                fail(FormatErrorKind::UnsupportedVersion, 4)
            } else {
                decode_sections(b, p0)
            },
        }
    }
}

/// The sections of an image that start at `p0`, after the header.
pub open spec fn decode_sections(b: Seq<u8>, p0: int) -> Result<Image, FormatError> {
    match p_u32(b, p0) {
        Err(e) => Err(e),
        Ok((nc, p1)) => match p_values(b, p1, nc as nat) {
            Err(e) => Err(e),
            Ok((cs, k)) => match p_u64(b, p1 + k) {
                Err(e) => Err(e),
                Ok((ni, p2)) => match p_strings(b, p2, ni as nat) {
                    Err(e) => Err(e),
                    Ok((ims, p3)) => match p_u64(b, p3) {
                        Err(e) => Err(e),
                        Ok((ne, p4)) => match p_exports(b, p4, ne as nat) {
                            Err(e) => Err(e),
                            Ok((es, p5)) => match p_instrs(b, p5) {
                                Err(e) => Err(e),
                                Ok(is) => Ok(
                                    Image {
                                        instructions: is,
                                        constants: cs,
                                        imports: ims,
                                        exports: bind_all(Seq::empty(), es),
                                    },
                                ),
                            },
                        },
                    },
                },
            },
        },
    }
}

} // verus!
