use vstd::prelude::*;
use vstd::utf8::{encode_utf8, encode_utf8_decode_utf8, encode_utf8_valid_utf8};
use crate::bytes::{
    be_u16, be_u32,
    bytes_u16, bytes_u32, bytes_u64, lemma_i64_round_trip, lemma_u16_round_trip, lemma_u32_round_trip,
    lemma_u64_round_trip,
};
use crate::codec::{
    bind_all, decode, decode_sections, enc_exports, enc_field, enc_fields, enc_instr, enc_instrs,
    enc_register, enc_string, enc_strings, enc_value, enc_values, encodable, encode, fields_of, fits,
    kind_of, kinds, opcode_of, p_exports, p_field, p_fields, p_instr, p_instrs, p_string, p_strings,
    p_u32, p_u64, p_value, p_values, p_version, shape, build, FormatError, FormatErrorKind,
    MAGIC_NUMBER, VER_MAJOR, VER_MINOR,
};
use crate::codeholder::{has_name, unique_names, Image};
use crate::constant::Value;
use crate::instruction::Instruction;
use crate::codec::{Field, FieldKind};

verus! {

/// `e` occurs in `b` at `pos`.
pub open spec fn is_at(b: Seq<u8>, pos: int, e: Seq<u8>) -> bool {
    0 <= pos && pos + e.len() <= b.len() && b.subrange(pos, pos + e.len()) == e
}

proof fn lemma_split(b: Seq<u8>, pos: int, x: Seq<u8>, y: Seq<u8>)
    requires
        is_at(b, pos, x + y),
    ensures
        is_at(b, pos, x),
        is_at(b, pos + x.len(), y),
{
    let whole = b.subrange(pos, pos + (x + y).len());
    assert(whole == x + y);
    assert(b.subrange(pos, pos + x.len()) =~= whole.subrange(0, x.len() as int));
    assert((x + y).subrange(0, x.len() as int) =~= x);
    assert(b.subrange(pos + x.len(), pos + x.len() + y.len()) =~= whole.subrange(
        x.len() as int,
        whole.len() as int,
    ));
    assert((x + y).subrange(x.len() as int, (x + y).len() as int) =~= y);
}

proof fn lemma_field(b: Seq<u8>, pos: int, f: Field)
    requires
        is_at(b, pos, enc_field(f)),
    ensures
        p_field(b, pos, kind_of(f)) == Ok::<(Field, int), FormatError>((f, pos + enc_field(f).len())),
{
    match f {
        Field::U32(n) => lemma_u32_round_trip(n),
        Field::U64(n) => lemma_u64_round_trip(n),
        Field::I64(n) => lemma_i64_round_trip(n),
        Field::Reg(r) => {
            assert(bytes_u32(r.0) + seq![crate::codec::loc_byte(r.1)] =~= enc_register(r));
            lemma_split(b, pos, bytes_u32(r.0), seq![crate::codec::loc_byte(r.1)]);
            lemma_u32_round_trip(r.0);
            assert(b[pos + 4] == b.subrange(pos + 4, pos + 5)[0]);
        },
        Field::Ref(r) => {
            assert(b[pos] == b.subrange(pos, pos + 1)[0]);
        },
        Field::Loc(l) => {
            assert(b[pos] == b.subrange(pos, pos + 1)[0]);
        },
    }
}

proof fn lemma_fields(b: Seq<u8>, pos: int, fs: Seq<Field>)
    requires
        is_at(b, pos, enc_fields(fs)),
    ensures
        p_fields(b, pos, kinds(fs)) == Ok::<(Seq<Field>, int), FormatError>((fs, pos + enc_fields(fs).len())),
    decreases fs.len(),
{
    if fs.len() > 0 {
        lemma_split(b, pos, enc_field(fs[0]), enc_fields(fs.drop_first()));
        lemma_field(b, pos, fs[0]);
        lemma_fields(b, pos + enc_field(fs[0]).len(), fs.drop_first());
        assert(kinds(fs).drop_first() =~= kinds(fs.drop_first()));
        assert(seq![fs[0]] + fs.drop_first() =~= fs);
    } else {
        assert(kinds(fs) =~= Seq::<FieldKind>::empty());
        assert(fs =~= Seq::<Field>::empty());
    }
}

proof fn lemma_instr(b: Seq<u8>, pos: int, i: Instruction)
    requires
        is_at(b, pos, enc_instr(i)),
    ensures
        p_instr(b, pos) == Ok::<(Instruction, int), FormatError>((i, pos + enc_instr(i).len())),
{
    lemma_split(b, pos, seq![opcode_of(i)], enc_fields(fields_of(i)));
    assert(b[pos] == b.subrange(pos, pos + 1)[0]);
    assert(shape(opcode_of(i)) == Some(kinds(fields_of(i)))) by {
        assert(shape(opcode_of(i))->0 =~= kinds(fields_of(i)));
    }
    lemma_fields(b, pos + 1, fields_of(i));
    lemma_build(i);
}

proof fn lemma_build(i: Instruction)
    ensures
        build(opcode_of(i), fields_of(i)) == i,
{
    match i {
        Instruction::NoOp => {},
        Instruction::Alloc(_) => {},
        Instruction::Free(_) => {},
        Instruction::FrameAlloc(..) => {},
        Instruction::FrameFree(..) => {},
        Instruction::Jump(_) => {},
        Instruction::Call(_) => {},
        Instruction::ExtCall(_) => {},
        Instruction::Ret => {},
        Instruction::Mov(..) => {},
        Instruction::Cpy(..) => {},
        Instruction::Ref(..) => {},
        Instruction::StackPush(..) => {},
        Instruction::StackPop => {},
        Instruction::StackMov(..) => {},
        Instruction::Add(..) => {},
        Instruction::Sub(..) => {},
        Instruction::Mul(..) => {},
        Instruction::Div(..) => {},
        Instruction::Mod(..) => {},
        Instruction::Equal(..) => {},
        Instruction::NotEqual(..) => {},
        Instruction::Greater(..) => {},
        Instruction::Less(..) => {},
        Instruction::GreaterEqual(..) => {},
        Instruction::LessEqual(..) => {},
    }
}

proof fn lemma_instrs(b: Seq<u8>, pos: int, is: Seq<Instruction>)
    requires
        is_at(b, pos, enc_instrs(is)),
    ensures
        p_instrs(b, pos) == match p_instrs(b, pos + enc_instrs(is).len()) {
            Ok(t) => Ok(is + t),
            Err(e) => Err(e),
        },
    decreases is.len(),
{
    if is.len() == 0 {
        match p_instrs(b, pos) {
            Ok(t) => assert(is + t =~= t),
            Err(e) => {},
        }
    } else {
        lemma_split(b, pos, enc_instr(is[0]), enc_instrs(is.drop_first()));
        lemma_instr(b, pos, is[0]);
        let p = pos + enc_instr(is[0]).len();
        lemma_instrs(b, p, is.drop_first());
        match p_instrs(b, pos + enc_instrs(is).len()) {
            Ok(t) => assert(seq![is[0]] + (is.drop_first() + t) =~= is + t),
            Err(e) => {},
        }
    }
}

proof fn lemma_string(b: Seq<u8>, pos: int, s: Seq<char>)
    requires
        is_at(b, pos, enc_string(s)),
        b.len() <= u64::MAX,
    ensures
        p_string(b, pos) == Ok::<(Seq<char>, int), FormatError>((s, pos + enc_string(s).len())),
{
    let e = encode_utf8(s);
    lemma_split(b, pos, bytes_u64(e.len() as u64), e);
    lemma_u64_round_trip(e.len() as u64);
    encode_utf8_valid_utf8(s);
    encode_utf8_decode_utf8(s);
}

proof fn lemma_strings(b: Seq<u8>, pos: int, ss: Seq<Seq<char>>)
    requires
        is_at(b, pos, enc_strings(ss)),
        b.len() <= u64::MAX,
    ensures
        p_strings(b, pos, ss.len()) == Ok::<(Seq<Seq<char>>, int), FormatError>(
            (ss, pos + enc_strings(ss).len()),
        ),
    decreases ss.len(),
{
    if ss.len() == 0 {
        assert(ss =~= Seq::<Seq<char>>::empty());
    } else {
        lemma_split(b, pos, enc_string(ss[0]), enc_strings(ss.drop_first()));
        lemma_string(b, pos, ss[0]);
        lemma_strings(b, pos + enc_string(ss[0]).len(), ss.drop_first());
        assert(seq![ss[0]] + ss.drop_first() =~= ss);
    }
}

proof fn lemma_exports(b: Seq<u8>, pos: int, es: Seq<(Seq<char>, u64)>)
    requires
        is_at(b, pos, enc_exports(es)),
        b.len() <= u64::MAX,
    ensures
        p_exports(b, pos, es.len()) == Ok::<(Seq<(Seq<char>, u64)>, int), FormatError>(
            (es, pos + enc_exports(es).len()),
        ),
    decreases es.len(),
{
    if es.len() == 0 {
        assert(es =~= Seq::<(Seq<char>, u64)>::empty());
    } else {
        let head = enc_string(es[0].0) + bytes_u64(es[0].1);
        assert(enc_exports(es) =~= head + enc_exports(es.drop_first()));
        lemma_split(b, pos, head, enc_exports(es.drop_first()));
        lemma_split(b, pos, enc_string(es[0].0), bytes_u64(es[0].1));
        lemma_string(b, pos, es[0].0);
        lemma_u64_round_trip(es[0].1);
        lemma_exports(b, pos + head.len(), es.drop_first());
        assert(seq![(es[0].0, es[0].1)] + es.drop_first() =~= es);
    }
}

proof fn lemma_value(b: Seq<u8>, pos: int, v: Value)
    requires
        is_at(b, pos, enc_value(v)),
        b.len() <= u64::MAX,
        fits(v),
    ensures
        p_value(b, pos) == Ok::<(Value, nat), FormatError>((v, enc_value(v).len())),
    decreases v, 0nat,
{
    assert(b[pos] == b.subrange(pos, pos + enc_value(v).len())[0]);
    match v {
        Value::Int(i) => {
            lemma_split(b, pos, seq![1u8], bytes_u64(i as u64));
            lemma_i64_round_trip(i);
        },
        Value::Double(x) => {
            lemma_split(b, pos, seq![2u8], bytes_u64(x));
            lemma_u64_round_trip(x);
        },
        Value::Str(s) => {
            lemma_split(b, pos, seq![3u8], enc_string(s));
            lemma_string(b, pos + 1, s);
        },
        Value::Boolean(x) => {
            assert(b[pos + 1] == b.subrange(pos, pos + enc_value(v).len())[1]);
        },
        Value::Address(r) => {
            lemma_split(b, pos, seq![5u8], enc_register(r));
            lemma_field(b, pos + 1, Field::Reg(r));
        },
        Value::List(vs) => {
            assert(b[pos + 1] == b.subrange(pos, pos + enc_value(v).len())[1]);
            lemma_split(b, pos, seq![6u8, vs.len() as u8], enc_values(vs));
            assert(forall|i: int| 0 <= i < vs.len() ==> fits(#[trigger] vs[i]));
            lemma_values(b, pos + 2, vs);
        },
    }
}

proof fn lemma_values(b: Seq<u8>, pos: int, vs: Seq<Value>)
    requires
        is_at(b, pos, enc_values(vs)),
        b.len() <= u64::MAX,
        forall|i: int| 0 <= i < vs.len() ==> fits(#[trigger] vs[i]),
    ensures
        p_values(b, pos, vs.len()) == Ok::<(Seq<Value>, nat), FormatError>((vs, enc_values(vs).len())),
    decreases vs, 1nat,
{
    if vs.len() == 0 {
        assert(vs =~= Seq::<Value>::empty());
    } else {
        lemma_split(b, pos, enc_value(vs[0]), enc_values(vs.drop_first()));
        assert(fits(vs[0]));
        lemma_value(b, pos, vs[0]);
        assert(forall|i: int| 0 <= i < vs.drop_first().len() ==> #[trigger] vs.drop_first()[i] == vs[i + 1]);
        lemma_values(b, pos + enc_value(vs[0]).len(), vs.drop_first());
        assert(seq![vs[0]] + vs.drop_first() =~= vs);
    }
}

proof fn lemma_bind_all_unique(es: Seq<(Seq<char>, u64)>)
    requires
        unique_names(es),
    ensures
        bind_all(Seq::empty(), es) == es,
    decreases es.len(),
{
    if es.len() > 0 {
        let init = es.drop_last();
        assert(unique_names(init));
        lemma_bind_all_unique(init);
        assert(!has_name(init, es.last().0)) by {
            if has_name(init, es.last().0) {
                let i = choose|i: int| 0 <= i < init.len() && init[i].0 == es.last().0;
                assert(es[i].0 == es[es.len() - 1].0);
            }
        }
        assert(init.push((es.last().0, es.last().1)) =~= es);
    }
}


/// An image that the writer can emit and the reader gives back unchanged: lists fit
/// their one-byte counts and export names are unique.
pub open spec fn valid_image(img: Image) -> bool {
    encodable(img) && unique_names(img.exports)
}

/// Everything of `encode(img)` before its instructions.
pub open spec fn encode_head(img: Image) -> Seq<u8> {
    bytes_u32(MAGIC_NUMBER) + bytes_u16(VER_MAJOR) + bytes_u16(VER_MINOR)
        + bytes_u32(img.constants.len() as u32) + enc_values(img.constants)
        + bytes_u64(img.imports.len() as u64) + enc_strings(img.imports)
        + bytes_u64(img.exports.len() as u64) + enc_exports(img.exports)
}

/// Where each part of `encode(img)` starts.
pub open spec fn at_constants(img: Image) -> int {
    12
}

pub open spec fn at_imports(img: Image) -> int {
    12 + enc_values(img.constants).len() as int + 8
}

pub open spec fn at_exports(img: Image) -> int {
    at_imports(img) + enc_strings(img.imports).len() as int + 8
}

pub open spec fn at_instructions(img: Image) -> int {
    at_exports(img) + enc_exports(img.exports).len() as int
}

proof fn lemma_segments(img: Image, b: Seq<u8>)
    requires
        is_at(b, 0, encode(img)),
    ensures
        is_at(b, 0, bytes_u32(MAGIC_NUMBER)),
        is_at(b, 4, bytes_u16(VER_MAJOR)),
        is_at(b, 6, bytes_u16(VER_MINOR)),
        is_at(b, 8, bytes_u32(img.constants.len() as u32)),
        is_at(b, 12, enc_values(img.constants)),
        is_at(b, at_imports(img) - 8, bytes_u64(img.imports.len() as u64)),
        is_at(b, at_imports(img), enc_strings(img.imports)),
        is_at(b, at_exports(img) - 8, bytes_u64(img.exports.len() as u64)),
        is_at(b, at_exports(img), enc_exports(img.exports)),
        is_at(b, at_instructions(img), enc_instrs(img.instructions)),
        encode(img).len() == at_instructions(img) + enc_instrs(img.instructions).len(),
{
    let s1 = bytes_u32(MAGIC_NUMBER);
    let s2 = bytes_u16(VER_MAJOR);
    let s3 = bytes_u16(VER_MINOR);
    let s4 = bytes_u32(img.constants.len() as u32);
    let s5 = enc_values(img.constants);
    let s6 = bytes_u64(img.imports.len() as u64);
    let s7 = enc_strings(img.imports);
    let s8 = bytes_u64(img.exports.len() as u64);
    let s9 = enc_exports(img.exports);
    let s10 = enc_instrs(img.instructions);
    let a2 = s1 + s2;
    let a3 = a2 + s3;
    let a4 = a3 + s4;
    let a5 = a4 + s5;
    let a6 = a5 + s6;
    let a7 = a6 + s7;
    let a8 = a7 + s8;
    let a9 = a8 + s9;
    assert(encode(img) == a9 + s10);
    lemma_split(b, 0, a9, s10);
    lemma_split(b, 0, a8, s9);
    lemma_split(b, 0, a7, s8);
    lemma_split(b, 0, a6, s7);
    lemma_split(b, 0, a5, s6);
    lemma_split(b, 0, a4, s5);
    lemma_split(b, 0, a3, s4);
    lemma_split(b, 0, a2, s3);
    lemma_split(b, 0, s1, s2);
}

proof fn lemma_head_parsed(img: Image, b: Seq<u8>)
    requires
        valid_image(img),
        b.len() <= u64::MAX,
        is_at(b, 0, encode(img)),
    ensures
        p_u32(b, 0) == Ok::<(u32, int), FormatError>((MAGIC_NUMBER, 4)),
        p_version(b) == Ok::<(u16, u16, int), FormatError>((VER_MAJOR, VER_MINOR, 8)),
        p_u32(b, 8) == Ok::<(u32, int), FormatError>((img.constants.len() as u32, 12)),
        (img.constants.len() as u32) as nat == img.constants.len(),
        p_values(b, 12, (img.constants.len() as u32) as nat) == Ok::<(Seq<Value>, nat), FormatError>(
            (img.constants, enc_values(img.constants).len()),
        ),
        p_u64(b, at_imports(img) - 8) == Ok::<(u64, int), FormatError>(
            (img.imports.len() as u64, at_imports(img)),
        ),
        (img.imports.len() as u64) as nat == img.imports.len(),
        p_strings(b, at_imports(img), (img.imports.len() as u64) as nat) == Ok::<(Seq<Seq<char>>, int), FormatError>(
            (img.imports, at_exports(img) - 8),
        ),
        p_u64(b, at_exports(img) - 8) == Ok::<(u64, int), FormatError>(
            (img.exports.len() as u64, at_exports(img)),
        ),
        (img.exports.len() as u64) as nat == img.exports.len(),
        p_exports(b, at_exports(img), (img.exports.len() as u64) as nat) == Ok::<
            (Seq<(Seq<char>, u64)>, int),
            FormatError,
        >((img.exports, at_instructions(img))),
        bind_all(Seq::empty(), img.exports) == img.exports,
{
    lemma_segments(img, b);
    lemma_u32_round_trip(MAGIC_NUMBER);
    lemma_u16_round_trip(VER_MAJOR);
    lemma_u16_round_trip(VER_MINOR);
    lemma_u32_round_trip(img.constants.len() as u32);
    lemma_u64_round_trip(img.imports.len() as u64);
    lemma_u64_round_trip(img.exports.len() as u64);
    lemma_values(b, 12, img.constants);
    lemma_strings(b, at_imports(img), img.imports);
    lemma_exports(b, at_exports(img), img.exports);
    lemma_bind_all_unique(img.exports);
}

proof fn lemma_sections(img: Image, b: Seq<u8>)
    requires
        valid_image(img),
        b.len() <= u64::MAX,
        is_at(b, 0, encode(img)),
    ensures
        decode_sections(b, 8) == match p_instrs(b, at_instructions(img)) {
            Ok(is) => Ok(
                Image { instructions: is, constants: img.constants, imports: img.imports, exports: img.exports },
            ),
            Err(e) => Err::<Image, FormatError>(e),
        },
{
    lemma_head_parsed(img, b);
    assert(12 + enc_values(img.constants).len() == at_imports(img) - 8);
}

proof fn lemma_header(img: Image, b: Seq<u8>)
    requires
        valid_image(img),
        b.len() <= u64::MAX,
        is_at(b, 0, encode(img)),
    ensures
        decode(b) == decode_sections(b, 8),
{
    lemma_head_parsed(img, b);
}

proof fn lemma_instruction_segment(img: Image, b: Seq<u8>)
    requires
        is_at(b, 0, encode(img)),
    ensures
        is_at(b, at_instructions(img), enc_instrs(img.instructions)),
        encode(img).len() == at_instructions(img) + enc_instrs(img.instructions).len(),
{
    lemma_segments(img, b);
}

proof fn lemma_decode_prefix(img: Image, tail: Seq<u8>)
    requires
        valid_image(img),
        (encode(img) + tail).len() <= u64::MAX,
    ensures
        decode(encode(img) + tail) == match p_instrs(encode(img) + tail, encode(img).len() as int) {
            Ok(t) => Ok(
                Image {
                    instructions: img.instructions + t,
                    constants: img.constants,
                    imports: img.imports,
                    exports: img.exports,
                },
            ),
            Err(e) => Err::<Image, FormatError>(e),
        },
{
    let b = encode(img) + tail;
    assert(b.subrange(0, encode(img).len() as int) =~= encode(img));
    lemma_header(img, b);
    lemma_sections(img, b);
    lemma_instruction_segment(img, b);
    lemma_instrs(b, at_instructions(img), img.instructions);
}

/// Writing an image and reading the bytes back gives the same image.
pub proof fn lemma_round_trip(img: Image)
    requires
        valid_image(img),
        encode(img).len() <= u64::MAX,
    ensures
        decode(encode(img)) == Ok::<Image, FormatError>(img),
{
    let b = encode(img);
    assert(b + Seq::<u8>::empty() =~= b);
    lemma_decode_prefix(img, Seq::empty());
    assert(img.instructions + Seq::<Instruction>::empty() =~= img.instructions);
}

/// A byte that is no opcode, where the next instruction would start, makes the reader fail
/// with `UnknownOpcode` at exactly that offset, whatever follows it.
pub proof fn lemma_unknown_opcode(img: Image, op: u8, rest: Seq<u8>)
    requires
        valid_image(img),
        shape(op) is None,
        encode(img).len() + 1 + rest.len() <= u64::MAX,
    ensures
        decode(encode(img) + seq![op] + rest) == Err::<Image, FormatError>(
            FormatError { kind: FormatErrorKind::UnknownOpcode, offset: encode(img).len() as usize },
        ),
{
    let tail = seq![op] + rest;
    assert(encode(img) + seq![op] + rest =~= encode(img) + tail);
    lemma_decode_prefix(img, tail);
    let b = encode(img) + tail;
    assert(b[encode(img).len() as int] == op);
}

/// Bytes with the right magic number but another major version, or a newer minor
/// version, are refused with `UnsupportedVersion`.
pub proof fn lemma_version_gate(b: Seq<u8>)
    requires
        b.len() >= 8,
        be_u32(b.subrange(0, 4)) == MAGIC_NUMBER,
        be_u16(b.subrange(4, 6)) != VER_MAJOR || be_u16(b.subrange(6, 8)) > VER_MINOR,
    ensures
        decode(b) == Err::<Image, FormatError>(
            FormatError { kind: FormatErrorKind::UnsupportedVersion, offset: 4 },
        ),
{
}

/// A legacy major version (1 to 6) has no minor field: it is refused with
/// `UnsupportedVersion` as soon as the major version is there.
pub proof fn lemma_legacy_version_gate(b: Seq<u8>)
    requires
        b.len() >= 6,
        be_u32(b.subrange(0, 4)) == MAGIC_NUMBER,
        1 <= be_u16(b.subrange(4, 6)) <= 6,
    ensures
        decode(b) == Err::<Image, FormatError>(
            FormatError { kind: FormatErrorKind::UnsupportedVersion, offset: 4 },
        ),
{
}

} // verus!
