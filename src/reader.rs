use vstd::prelude::*;
use vstd::utf8::{decode_utf8, valid_utf8};
use crate::bytes::{read_u16_at, read_u32_at, read_u64_at};
use crate::codec::{
    bind_all, decode, p_exports, p_strings, p_value, p_values, MAGIC_NUMBER, VER_MAJOR, VER_MINOR,
    build, p_field, p_fields, p_instr, p_instrs, p_loc, p_ref, p_register, p_string, p_u16, p_u32,
    p_u64, p_u8, shape, Field, FieldKind, FormatError, FormatErrorKind,
};
use crate::instruction::Instruction;
use crate::constant::{Constant, Value};
use crate::codeholder::{names_of, values_of, CodeHolder};
use crate::register::{Register, RegisterLocation, RegisterReference};

verus! {

/// The exec result `r` is what the spec reader gives: same value, same end position.
pub open spec fn agrees<T>(r: Result<(T, usize), FormatError>, s: Result<(T, int), FormatError>) -> bool {
    match r {
        Ok((x, p)) => s == Ok::<(T, int), FormatError>((x, p as int)),
        Err(e) => s == Err::<(T, int), FormatError>(e),
    }
}

fn truncated(pos: usize) -> (e: FormatError)
    ensures
        e == (FormatError { kind: FormatErrorKind::Truncated, offset: pos }),
{
    FormatError { kind: FormatErrorKind::Truncated, offset: pos }
}

fn read_u8(buf: &Vec<u8>, pos: usize) -> (r: Result<(u8, usize), FormatError>)
    ensures
        agrees(r, p_u8(buf@, pos as int)),
{
    if pos < buf.len() {
        Ok((buf[pos], pos + 1))
    } else {
        Err(truncated(pos))
    }
}

fn read_u16(buf: &Vec<u8>, pos: usize) -> (r: Result<(u16, usize), FormatError>)
    ensures
        agrees(r, p_u16(buf@, pos as int)),
{
    if buf.len() >= 2 && pos <= buf.len() - 2 {
        Ok((read_u16_at(buf, pos), pos + 2))
    } else {
        Err(truncated(pos))
    }
}

fn read_u32(buf: &Vec<u8>, pos: usize) -> (r: Result<(u32, usize), FormatError>)
    ensures
        agrees(r, p_u32(buf@, pos as int)),
{
    if buf.len() >= 4 && pos <= buf.len() - 4 {
        Ok((read_u32_at(buf, pos), pos + 4))
    } else {
        Err(truncated(pos))
    }
}

fn read_u64(buf: &Vec<u8>, pos: usize) -> (r: Result<(u64, usize), FormatError>)
    ensures
        agrees(r, p_u64(buf@, pos as int)),
{
    if buf.len() >= 8 && pos <= buf.len() - 8 {
        Ok((read_u64_at(buf, pos), pos + 8))
    } else {
        Err(truncated(pos))
    }
}

fn read_reg_loc(buf: &Vec<u8>, pos: usize) -> (r: Result<(RegisterLocation, usize), FormatError>)
    ensures
        agrees(r, p_loc(buf@, pos as int)),
{
    let (x, p) = read_u8(buf, pos)?;
    if x == 1 {
        Ok((RegisterLocation::ConstantPool, p))
    } else if x == 2 {
        Ok((RegisterLocation::Accumulator, p))
    } else if x == 3 {
        Ok((RegisterLocation::Global, p))
    } else if x == 4 {
        Ok((RegisterLocation::Local, p))
    } else {
        Err(FormatError { kind: FormatErrorKind::InvalidRegisterSpace, offset: pos })
    }
}

fn read_reg_ref(buf: &Vec<u8>, pos: usize) -> (r: Result<(RegisterReference, usize), FormatError>)
    ensures
        agrees(r, p_ref(buf@, pos as int)),
{
    let (x, p) = read_u8(buf, pos)?;
    if x == 1 {
        Ok((RegisterReference::AsIs, p))
    } else if x == 2 {
        Ok((RegisterReference::Dereference, p))
    } else {
        Err(FormatError { kind: FormatErrorKind::InvalidRefMode, offset: pos })
    }
}

fn read_register(buf: &Vec<u8>, pos: usize) -> (r: Result<(Register, usize), FormatError>)
    ensures
        agrees(r, p_register(buf@, pos as int)),
{
    let (n, p) = read_u32(buf, pos)?;
    let (l, p2) = read_reg_loc(buf, p)?;
    Ok((Register(n, l), p2))
}

fn read_field(buf: &Vec<u8>, pos: usize, k: FieldKind) -> (r: Result<(Field, usize), FormatError>)
    ensures
        agrees(r, p_field(buf@, pos as int, k)),
{
    match k {
        FieldKind::U32 => {
            let (n, p) = read_u32(buf, pos)?;
            Ok((Field::U32(n), p))
        },
        FieldKind::U64 => {
            let (n, p) = read_u64(buf, pos)?;
            Ok((Field::U64(n), p))
        },
        FieldKind::I64 => {
            let (n, p) = read_u64(buf, pos)?;
            Ok((Field::I64(n as i64), p))
        },
        FieldKind::Reg => {
            let (x, p) = read_register(buf, pos)?;
            Ok((Field::Reg(x), p))
        },
        FieldKind::Ref => {
            let (x, p) = read_reg_ref(buf, pos)?;
            Ok((Field::Ref(x), p))
        },
        FieldKind::Loc => {
            let (x, p) = read_reg_loc(buf, pos)?;
            Ok((Field::Loc(x), p))
        },
    }
}

/// The operands of shape `ks[start..]`, read from `pos`.
fn read_fields(buf: &Vec<u8>, pos: usize, ks: &Vec<FieldKind>, start: usize) -> (r: Result<
    (Vec<Field>, usize),
    FormatError,
>)
    requires
        start <= ks@.len(),
    ensures
        match r {
            Ok((fs, p)) => p_fields(buf@, pos as int, ks@.subrange(start as int, ks@.len() as int)) == Ok::<
                (Seq<Field>, int),
                FormatError,
            >((fs@, p as int)),
            Err(e) => p_fields(buf@, pos as int, ks@.subrange(start as int, ks@.len() as int)) == Err::<
                (Seq<Field>, int),
                FormatError,
            >(e),
        },
    decreases ks@.len() - start,
{
    let ghost rest = ks@.subrange(start as int, ks@.len() as int);
    if start == ks.len() {
        return Ok((Vec::new(), pos));
    }
    assert(rest.drop_first() =~= ks@.subrange(start + 1, ks@.len() as int));
    let (f, p) = read_field(buf, pos, ks[start])?;
    let (tail, p2) = read_fields(buf, p, ks, start + 1)?;
    let mut fs: Vec<Field> = Vec::new();
    fs.push(f);
    let mut i: usize = 0;
    while i < tail.len()
        invariant
            0 <= i <= tail@.len(),
            fs@ == seq![f] + tail@.subrange(0, i as int),
        decreases tail@.len() - i,
    {
        fs.push(tail[i]);
        i += 1;
        assert(tail@.subrange(0, i as int) =~= tail@.subrange(0, i - 1).push(tail@[i - 1]));
    }
    assert(tail@.subrange(0, tail@.len() as int) =~= tail@);
    Ok((fs, p2))
}

fn shape_of(op: u8) -> (r: Option<Vec<FieldKind>>)
    ensures
        match r {
            Some(v) => shape(op) == Some(v@),
            None => shape(op) is None,
        },
{
    let mut v: Vec<FieldKind> = Vec::new();
    if op == 0x00 || op == 0x0A || op == 0x19 {
    } else if op == 0x01 || op == 0x02 {
        v.push(FieldKind::U32);
    } else if op == 0x15 || op == 0x16 {
        v.push(FieldKind::U32);
        v.push(FieldKind::Loc);
    } else if op == 0x03 {
        v.push(FieldKind::I64);
    } else if op == 0x04 || op == 0x05 {
        v.push(FieldKind::U64);
    } else if op == 0x06 || op == 0x07 || op == 0x08 {
        v.push(FieldKind::Reg);
        v.push(FieldKind::Ref);
        v.push(FieldKind::Reg);
        v.push(FieldKind::Ref);
    } else if op == 0x09 || op == 0x17 {
        v.push(FieldKind::Reg);
        v.push(FieldKind::Ref);
    } else if (0x0B <= op && op <= 0x0E) || op == 0x18 {
        v.push(FieldKind::Reg);
        v.push(FieldKind::Reg);
        v.push(FieldKind::Reg);
    } else if 0x0F <= op && op <= 0x14 {
        v.push(FieldKind::Reg);
        v.push(FieldKind::Reg);
    } else {
        return None;
    }
    proof {
        assert(shape(op) is Some);
        assert(shape(op)->0 =~= v@);
    }
    Some(v)
}

fn build_instr(op: u8, fs: &Vec<Field>) -> (r: Instruction)
    ensures
        r == build(op, fs@),
{
    let f0 = if fs.len() > 0 { fs[0] } else { Field::U32(0) };
    let f1 = if fs.len() > 1 { fs[1] } else { Field::U32(0) };
    let f2 = if fs.len() > 2 { fs[2] } else { Field::U32(0) };
    let f3 = if fs.len() > 3 { fs[3] } else { Field::U32(0) };
    if fs.len() == 0 {
        return if op == 0x0A {
            Instruction::StackPop
        } else if op == 0x19 {
            Instruction::Ret
        } else {
            Instruction::NoOp
        };
    }
    match (f0, f1, f2, f3) {
        (Field::U32(n), Field::Loc(l), _, _) => if op == 0x15 {
            Instruction::FrameAlloc(n, l)
        } else {
            Instruction::FrameFree(n, l)
        },
        (Field::U32(n), _, _, _) => if op == 0x01 {
            Instruction::Alloc(n)
        } else {
            Instruction::Free(n)
        },
        (Field::I64(d), _, _, _) => Instruction::Jump(d),
        (Field::U64(n), _, _, _) => if op == 0x04 {
            Instruction::Call(n)
        } else {
            Instruction::ExtCall(n)
        },
        (Field::Reg(a), Field::Ref(x), Field::Reg(c), Field::Ref(y)) => if op == 0x06 {
            Instruction::Mov(a, x, c, y)
        } else if op == 0x07 {
            Instruction::Cpy(a, x, c, y)
        } else {
            Instruction::Ref(a, x, c, y)
        },
        (Field::Reg(a), Field::Ref(x), _, _) => if op == 0x09 {
            Instruction::StackPush(a, x)
        } else {
            Instruction::StackMov(a, x)
        },
        (Field::Reg(a), Field::Reg(c), Field::Reg(d), _) => if op == 0x0B {
            Instruction::Add(a, c, d)
        } else if op == 0x0C {
            Instruction::Sub(a, c, d)
        } else if op == 0x0D {
            Instruction::Mul(a, c, d)
        } else if op == 0x0E {
            Instruction::Div(a, c, d)
        } else {
            Instruction::Mod(a, c, d)
        },
        (Field::Reg(a), Field::Reg(c), _, _) => if op == 0x0F {
            Instruction::Equal(a, c)
        } else if op == 0x10 {
            Instruction::NotEqual(a, c)
        } else if op == 0x11 {
            Instruction::Greater(a, c)
        } else if op == 0x12 {
            Instruction::Less(a, c)
        } else if op == 0x13 {
            Instruction::GreaterEqual(a, c)
        } else {
            Instruction::LessEqual(a, c)
        },
        _ => if op == 0x0A {
            Instruction::StackPop
        } else if op == 0x19 {
            Instruction::Ret
        } else {
            Instruction::NoOp
        },
    }
}

fn read_instr(buf: &Vec<u8>, pos: usize) -> (r: Result<(Instruction, usize), FormatError>)
    ensures
        agrees(r, p_instr(buf@, pos as int)),
{
    let (op, p) = read_u8(buf, pos)?;
    match shape_of(op) {
        Some(ks) => {
            assert(ks@.subrange(0, ks@.len() as int) =~= ks@);
            let (fs, p2) = read_fields(buf, p, &ks, 0)?;
            Ok((build_instr(op, &fs), p2))
        },
        None => Err(FormatError { kind: FormatErrorKind::UnknownOpcode, offset: pos }),
    }
}


/// Instructions from `pos` to the end of `buf`.
fn read_instrs(buf: &Vec<u8>, pos: usize) -> (r: Result<Vec<Instruction>, FormatError>)
    ensures
        match r {
            Ok(is) => p_instrs(buf@, pos as int) == Ok::<Seq<Instruction>, FormatError>(is@),
            Err(e) => p_instrs(buf@, pos as int) == Err::<Seq<Instruction>, FormatError>(e),
        },
{
    let mut out: Vec<Instruction> = Vec::new();
    let mut cur = pos;
    while cur < buf.len()
        invariant
            p_instrs(buf@, pos as int) == match p_instrs(buf@, cur as int) {
                Ok(rest) => Ok(out@ + rest),
                Err(e) => Err(e),
            },
        decreases buf@.len() - cur,
    {
        let (i, p) = read_instr(buf, cur)?;
        if p <= cur || p > buf.len() {
            return Err(truncated(cur));
        }
        proof {
            match p_instrs(buf@, p as int) {
                Ok(rest) => {
                    assert(out@.push(i) + rest =~= out@ + (seq![i] + rest));
                },
                Err(e) => {},
            }
        }
        out.push(i);
        cur = p;
    }
    assert(out@ + Seq::<Instruction>::empty() =~= out@);
    Ok(out)
}

/// Relies on `String::from_utf8`: it accepts exactly the well-formed UTF-8 byte strings and
/// keeps their characters.
#[verifier::external_body]
fn utf8_string(bytes: Vec<u8>) -> (r: Option<String>)
    ensures
        r is Some <==> valid_utf8(bytes@),
        r matches Some(s) ==> s@ == decode_utf8(bytes@),
{
    match String::from_utf8(bytes) {
        Ok(s) => Some(s),
        Err(_) => None,
    }
}

fn copy_range(buf: &Vec<u8>, from: usize, to: usize) -> (r: Vec<u8>)
    requires
        from <= to <= buf@.len(),
    ensures
        r@ == buf@.subrange(from as int, to as int),
{
    let mut out: Vec<u8> = Vec::new();
    let mut i = from;
    while i < to
        invariant
            from <= i <= to <= buf@.len(),
            out@ == buf@.subrange(from as int, i as int),
        decreases to - i,
    {
        out.push(buf[i]);
        i += 1;
        assert(buf@.subrange(from as int, i as int) =~= buf@.subrange(from as int, i - 1).push(buf@[i - 1]));
    }
    out
}

fn read_string(buf: &Vec<u8>, pos: usize) -> (r: Result<(String, usize), FormatError>)
    ensures
        match r {
            Ok((s, p)) => p_string(buf@, pos as int) == Ok::<(Seq<char>, int), FormatError>((s@, p as int)),
            Err(e) => p_string(buf@, pos as int) == Err::<(Seq<char>, int), FormatError>(e),
        },
{
    let (n, p) = read_u64(buf, pos)?;
    if n > (buf.len() - p) as u64 {
        return Err(truncated(p));
    }
    let end = p + n as usize;
    let bytes = copy_range(buf, p, end);
    match utf8_string(bytes) {
        Some(s) => Ok((s, end)),
        None => Err(FormatError { kind: FormatErrorKind::BadUtf8, offset: p }),
    }
}


/// A constant at `pos` and the position after it.
fn read_constant(buf: &Vec<u8>, pos: usize) -> (r: Result<(Constant, usize), FormatError>)
    requires
        pos <= buf@.len(),
    ensures
        match r {
            Ok((c, p)) => pos < p <= buf@.len() && p_value(buf@, pos as int) == Ok::<(Value, nat), FormatError>(
                (c@, (p - pos) as nat),
            ),
            Err(e) => p_value(buf@, pos as int) == Err::<(Value, nat), FormatError>(e),
        },
    decreases buf@.len() - pos, 0int, 0int,
{
    if pos >= buf.len() {
        return Err(truncated(pos));
    }
    let tag = buf[pos];
    let p = pos + 1;
    if tag == 1 {
        let (x, p2) = read_u64(buf, p)?;
        Ok((Constant::Int(x as i64), p2))
    } else if tag == 2 {
        let (x, p2) = read_u64(buf, p)?;
        Ok((Constant::Double(x), p2))
    } else if tag == 3 {
        let (s, p2) = read_string(buf, p)?;
        Ok((Constant::String(s), p2))
    } else if tag == 4 {
        let (x, p2) = read_u8(buf, p)?;
        Ok((Constant::Boolean(x != 0), p2))
    } else if tag == 5 {
        let (x, p2) = read_register(buf, p)?;
        Ok((Constant::Address(x), p2))
    } else if tag == 6 {
        if p >= buf.len() {
            return Err(truncated(p));
        }
        let n = buf[p];
        let (vs, p2) = read_constants(buf, p + 1, n as usize)?;
        let c = Constant::Vec(vs);
        proof {
            let ghost l = match c@ {
                Value::List(l) => l,
                _ => Seq::empty(),
            };
            assert(l =~= values_of(vs@));
        }
        Ok((c, p2))
    } else {
        Err(FormatError { kind: FormatErrorKind::UnknownConstantTag, offset: pos })
    }
}

/// `n` constants from `pos` and the position after them.
fn read_constants(buf: &Vec<u8>, pos: usize, n: usize) -> (r: Result<(Vec<Constant>, usize), FormatError>)
    requires
        pos <= buf@.len(),
    ensures
        match r {
            Ok((vs, p)) => pos <= p <= buf@.len() && p_values(buf@, pos as int, n as nat) == Ok::<
                (Seq<Value>, nat),
                FormatError,
            >((values_of(vs@), (p - pos) as nat)),
            Err(e) => p_values(buf@, pos as int, n as nat) == Err::<(Seq<Value>, nat), FormatError>(e),
        },
    decreases buf@.len() - pos, 1int, n,
{
    let mut out: Vec<Constant> = Vec::new();
    let mut cur = pos;
    let mut i: usize = 0;
    while i < n
        invariant
            pos <= cur <= buf@.len(),
            i <= n,
            p_values(buf@, pos as int, n as nat) == match p_values(buf@, cur as int, (n - i) as nat) {
                Ok((vs, k)) => Ok((values_of(out@) + vs, ((cur - pos) + k) as nat)),
                Err(e) => Err(e),
            },
        decreases n - i,
    {
        let (c, p) = read_constant(buf, cur)?;
        proof {
            match p_values(buf@, p as int, (n - i - 1) as nat) {
                Ok((vs, k)) => {
                    assert(values_of(out@.push(c)) + vs =~= values_of(out@) + (seq![c@] + vs));
                },
                Err(e) => {},
            }
        }
        out.push(c);
        cur = p;
        i += 1;
    }
    assert(values_of(out@) + Seq::<Value>::empty() =~= values_of(out@));
    Ok((out, cur))
}

fn read_names(buf: &Vec<u8>, pos: usize, n: u64) -> (r: Result<(Vec<String>, usize), FormatError>)
    ensures
        match r {
            Ok((ss, p)) => p_strings(buf@, pos as int, n as nat) == Ok::<(Seq<Seq<char>>, int), FormatError>(
                (names_of(ss@), p as int),
            ),
            Err(e) => p_strings(buf@, pos as int, n as nat) == Err::<(Seq<Seq<char>>, int), FormatError>(e),
        },
{
    let mut out: Vec<String> = Vec::new();
    let mut cur = pos;
    let mut i: u64 = 0;
    while i < n
        invariant
            i <= n,
            p_strings(buf@, pos as int, n as nat) == match p_strings(buf@, cur as int, (n - i) as nat) {
                Ok((ss, p)) => Ok((names_of(out@) + ss, p)),
                Err(e) => Err(e),
            },
        decreases n - i,
    {
        let (s, p) = read_string(buf, cur)?;
        proof {
            match p_strings(buf@, p as int, (n - i - 1) as nat) {
                Ok((ss, p2)) => {
                    assert(names_of(out@.push(s)) + ss =~= names_of(out@) + (seq![s@] + ss));
                },
                Err(e) => {},
            }
        }
        out.push(s);
        cur = p;
        i += 1;
    }
    assert(names_of(out@) + Seq::<Seq<char>>::empty() =~= names_of(out@));
    Ok((out, cur))
}

/// Reads `n` exports from `pos` and binds them in `holder`, in order.
fn read_exports(buf: &Vec<u8>, pos: usize, n: u64, holder: &mut CodeHolder) -> (r: Result<usize, FormatError>)
    requires
        old(holder).wf(),
    ensures
        final(holder).wf(),
        final(holder)@.instructions == old(holder)@.instructions,
        final(holder)@.constants == old(holder)@.constants,
        final(holder)@.imports == old(holder)@.imports,
        match r {
            Ok(p) => p_exports(buf@, pos as int, n as nat) matches Ok((es, q)) && q == p
                && final(holder)@.exports == bind_all(old(holder)@.exports, es),
            Err(e) => p_exports(buf@, pos as int, n as nat) == Err::<(Seq<(Seq<char>, u64)>, int), FormatError>(
                e,
            ),
        },
{
    let ghost start = holder@.exports;
    let ghost mut got: Seq<(Seq<char>, u64)> = Seq::empty();
    let mut cur = pos;
    let mut i: u64 = 0;
    while i < n
        invariant
            i <= n,
            holder.wf(),
            holder@.instructions == old(holder)@.instructions,
            holder@.constants == old(holder)@.constants,
            holder@.imports == old(holder)@.imports,
            start == old(holder)@.exports,
            holder@.exports == bind_all(start, got),
            p_exports(buf@, pos as int, n as nat) == match p_exports(buf@, cur as int, (n - i) as nat) {
                Ok((es, p)) => Ok((got + es, p)),
                Err(e) => Err(e),
            },
        decreases n - i,
    {
        let (s, p) = read_string(buf, cur)?;
        let (x, p1) = read_u64(buf, p)?;
        let ghost name = s@;
        proof {
            match p_exports(buf@, p1 as int, (n - i - 1) as nat) {
                Ok((es, p2)) => {
                    assert(got.push((name, x)) + es =~= got + (seq![(name, x)] + es));
                },
                Err(e) => {},
            }
            assert(got.push((name, x)).drop_last() =~= got);
        }
        holder.set_export(s, x);
        proof {
            got = got.push((name, x));
        }
        cur = p1;
        i += 1;
    }
    assert(got + Seq::<(Seq<char>, u64)>::empty() =~= got);
    Ok(cur)
}

/// Parses an image from its bytes.
pub fn read_bytecode(buf: &Vec<u8>) -> (r: Result<CodeHolder, FormatError>)
    ensures
        match r {
            Ok(h) => h.wf() && decode(buf@) == Ok::<crate::codeholder::Image, FormatError>(h@),
            Err(e) => decode(buf@) == Err::<crate::codeholder::Image, FormatError>(e),
        },
{
    let (m, _) = read_u32(buf, 0)?;
    if m != MAGIC_NUMBER {
        return Err(FormatError { kind: FormatErrorKind::InvalidHeader, offset: 0 });
    }
    let (major, p) = read_u16(buf, 4)?;
    let (minor, p0) = if 1 <= major && major <= 6 {
        (0u16, p)
    } else {
        read_u16(buf, p)?
    };
    if major != VER_MAJOR || minor > VER_MINOR {
        return Err(FormatError { kind: FormatErrorKind::UnsupportedVersion, offset: 4 });
    }
    let (nc, p1) = read_u32(buf, p0)?;
    let (constant_pool, pc) = read_constants(buf, p1, nc as usize)?;
    let (ni, p2) = read_u64(buf, pc)?;
    let (imports, p3) = read_names(buf, p2, ni)?;
    let (ne, p4) = read_u64(buf, p3)?;
    let mut holder = CodeHolder { instructions: Vec::new(), constant_pool, imports, exports: Vec::new() };
    assert(holder@.exports =~= Seq::<(Seq<char>, u64)>::empty());
    let p5 = read_exports(buf, p4, ne, &mut holder)?;
    let instructions = read_instrs(buf, p5)?;
    holder.instructions = instructions;
    Ok(holder)
}


} // verus!
