use resurgence::codec::{FormatErrorKind, MAGIC_NUMBER, VER_MAJOR, VER_MINOR};
use resurgence::codeholder::CodeHolder;
use resurgence::constant::Constant;
use resurgence::instruction::Instruction;
use resurgence::register::{Register, RegisterLocation, RegisterReference};
use resurgence::{read_bytecode, write_bytecode};

fn r(i: u32, l: RegisterLocation) -> Register {
    Register(i, l)
}

fn every_instruction() -> Vec<Instruction> {
    let a = r(1, RegisterLocation::Local);
    let b = r(70000, RegisterLocation::Global);
    let c = r(3, RegisterLocation::ConstantPool);
    let d = RegisterReference::Dereference;
    let s = RegisterReference::AsIs;
    vec![
        Instruction::NoOp,
        Instruction::Alloc(5),
        Instruction::Free(2),
        Instruction::Jump(-3),
        Instruction::Call(0x0102030405060708),
        Instruction::ExtCall(9),
        Instruction::Mov(a, d, b, s),
        Instruction::Cpy(b, s, c, d),
        Instruction::Ref(a, s, b, d),
        Instruction::StackPush(c, s),
        Instruction::StackPop,
        Instruction::Add(a, b, c),
        Instruction::Sub(a, b, c),
        Instruction::Mul(a, b, c),
        Instruction::Div(a, b, c),
        Instruction::Equal(a, b),
        Instruction::NotEqual(a, b),
        Instruction::Greater(a, b),
        Instruction::Less(a, b),
        Instruction::GreaterEqual(a, b),
        Instruction::LessEqual(a, b),
        Instruction::FrameAlloc(4, RegisterLocation::Global),
        Instruction::FrameFree(4, RegisterLocation::Local),
        Instruction::StackMov(r(0, RegisterLocation::Accumulator), s),
        Instruction::Mod(a, b, c),
        Instruction::Ret,
    ]
}

fn every_constant() -> Vec<Constant> {
    vec![
        Constant::Int(-42),
        Constant::Double(2.5f64.to_bits()),
        Constant::String("héllo".to_string()),
        Constant::Boolean(true),
        Constant::Boolean(false),
        Constant::Address(r(12, RegisterLocation::Global)),
        Constant::Vec(vec![Constant::Int(1), Constant::Vec(vec![Constant::String("x".to_string())])]),
    ]
}

fn sample() -> CodeHolder {
    let mut h = CodeHolder::new();
    h.instructions = every_instruction();
    h.constant_pool = every_constant();
    h.add_import("print".to_string());
    h.add_import("upper".to_string());
    h.set_export("main".to_string(), 0);
    h.set_export("helper".to_string(), 10);
    h
}

#[test]
fn codec_round_trip() {
    let h = sample();
    let bytes = write_bytecode(&h);
    let back = read_bytecode(&bytes).unwrap();
    assert_eq!(back.instructions, every_instruction());
    assert_eq!(back.constant_pool, every_constant());
    assert_eq!(back.imports, vec!["print".to_string(), "upper".to_string()]);
    assert_eq!(back.exports.len(), 2);
    assert_eq!(back.exports[0].name, "main");
    assert_eq!(back.exports[0].index, 0);
    assert_eq!(back.exports[1].name, "helper");
    assert_eq!(back.exports[1].index, 10);
    assert_eq!(write_bytecode(&back), bytes);
}

fn minimal() -> Vec<u8> {
    let mut h = CodeHolder::new();
    h.constant_pool = vec![Constant::Int(258)];
    h.set_export("main".to_string(), 0);
    h.instructions = vec![Instruction::Ret];
    write_bytecode(&h)
}

#[test]
fn writer_emits_big_endian_layout() {
    let expected: Vec<u8> = vec![
        0x52, 0x56, 0x4D, 0x88, // magic
        0x00, 0x07, 0x00, 0x00, // version 7.0
        0x00, 0x00, 0x00, 0x01, // one constant
        0x01, 0, 0, 0, 0, 0, 0, 0x01, 0x02, // Int(258)
        0, 0, 0, 0, 0, 0, 0, 0, // no imports
        0, 0, 0, 0, 0, 0, 0, 1, // one export
        0, 0, 0, 0, 0, 0, 0, 4, b'm', b'a', b'i', b'n', // "main"
        0, 0, 0, 0, 0, 0, 0, 0, // at index 0
        0x19, // Ret
    ];
    assert_eq!(minimal(), expected);
    assert_eq!(MAGIC_NUMBER, 0x52564D88);
    assert_eq!((VER_MAJOR, VER_MINOR), (7, 0));
}

#[test]
fn reader_decodes_big_endian_fields() {
    let h = read_bytecode(&minimal()).unwrap();
    assert_eq!(h.constant_pool, vec![Constant::Int(258)]);
    let mut bytes = minimal();
    bytes.truncate(12);
    bytes.extend_from_slice(&[0x05, 0x00, 0x01, 0x00, 0x02, 0x03]);
    bytes.extend_from_slice(&[0; 16]);
    bytes.extend_from_slice(&[0x04, 0x00, 0x00, 0x01, 0x00, 0x00, 0x00, 0x00, 0x07]);
    let h = read_bytecode(&bytes).unwrap();
    assert_eq!(h.constant_pool, vec![Constant::Address(Register(0x00010002, RegisterLocation::Global))]);
    assert_eq!(h.instructions, vec![Instruction::Call(0x0000_0100_0000_0007)]);
}

#[test]
fn unknown_opcode_reports_offset() {
    let mut bytes = minimal();
    let at = bytes.len();
    bytes.push(0x1A);
    bytes.push(0x00);
    let err = read_bytecode(&bytes).unwrap_err();
    assert_eq!(err.kind, FormatErrorKind::UnknownOpcode);
    assert_eq!(err.offset, at);
}

#[test]
fn wrong_major_version_is_refused() {
    for major in [1u8, 6, 8] {
        let mut bytes = minimal();
        bytes[5] = major;
        let err = read_bytecode(&bytes).unwrap_err();
        assert_eq!(err.kind, FormatErrorKind::UnsupportedVersion);
        assert_eq!(err.offset, 4);
    }
}

#[test]
fn newer_minor_version_is_refused() {
    let mut bytes = minimal();
    bytes[7] = 1;
    assert_eq!(read_bytecode(&bytes).unwrap_err().kind, FormatErrorKind::UnsupportedVersion);
}

#[test]
fn bad_magic_is_invalid_header() {
    let mut bytes = minimal();
    bytes[0] = 0;
    let err = read_bytecode(&bytes).unwrap_err();
    assert_eq!(err.kind, FormatErrorKind::InvalidHeader);
}

#[test]
fn input_shorter_than_magic_is_truncated() {
    let err = read_bytecode(&vec![0x52, 0x56]).unwrap_err();
    assert_eq!(err.kind, FormatErrorKind::Truncated);
    assert_eq!(err.offset, 0);
    assert_eq!(read_bytecode(&vec![]).unwrap_err().kind, FormatErrorKind::Truncated);
}

#[test]
fn every_cut_of_a_valid_image_is_truncated() {
    let bytes = minimal();
    for m in 0..bytes.len() - 1 {
        let err = read_bytecode(&bytes[..m].to_vec()).unwrap_err();
        assert_eq!(err.kind, FormatErrorKind::Truncated, "cut at {}", m);
        assert!(err.offset <= m);
    }
}

#[test]
fn legacy_major_refused_without_minor() {
    let bytes = vec![0x52, 0x56, 0x4D, 0x88, 0x00, 0x03];
    let err = read_bytecode(&bytes).unwrap_err();
    assert_eq!(err.kind, FormatErrorKind::UnsupportedVersion);
    assert_eq!(err.offset, 4);
}

#[test]
fn truncated_input() {
    let bytes = minimal();
    let short = bytes[..15].to_vec();
    let err = read_bytecode(&short).unwrap_err();
    assert_eq!(err.kind, FormatErrorKind::Truncated);
    assert_eq!(err.offset, 13);
}

#[test]
fn unknown_constant_tag() {
    let mut bytes = minimal();
    bytes[12] = 0x09;
    let err = read_bytecode(&bytes).unwrap_err();
    assert_eq!(err.kind, FormatErrorKind::UnknownConstantTag);
    assert_eq!(err.offset, 12);
}

#[test]
fn bad_utf8_string() {
    let mut bytes = minimal();
    let n = bytes.len();
    bytes[n - 10] = 0xFF;
    let err = read_bytecode(&bytes).unwrap_err();
    assert_eq!(err.kind, FormatErrorKind::BadUtf8);
    assert_eq!(err.offset, n - 13);
}

#[test]
fn invalid_register_space_and_ref_mode() {
    let mut bytes = minimal();
    bytes.pop();
    bytes.extend_from_slice(&[0x09, 0, 0, 0, 1, 0x07, 0x01]);
    let err = read_bytecode(&bytes).unwrap_err();
    assert_eq!(err.kind, FormatErrorKind::InvalidRegisterSpace);
    let mut bytes = minimal();
    bytes.pop();
    bytes.extend_from_slice(&[0x09, 0, 0, 0, 1, 0x03, 0x05]);
    let err = read_bytecode(&bytes).unwrap_err();
    assert_eq!(err.kind, FormatErrorKind::InvalidRefMode);
    assert_eq!(err.offset, bytes.len() - 1);
}

#[test]
fn duplicate_exports_keep_the_last_index() {
    let mut h = CodeHolder::new();
    h.set_export("main".to_string(), 3);
    let mut w = write_bytecode(&h);
    let tail: Vec<u8> = vec![0, 0, 0, 0, 0, 0, 0, 4, b'm', b'a', b'i', b'n', 0, 0, 0, 0, 0, 0, 0, 9];
    let count_at = w.len() - 8 - 12 - 8;
    w[count_at + 7] = 2;
    w.extend_from_slice(&tail);
    let back = read_bytecode(&w).unwrap();
    assert_eq!(back.exports.len(), 1);
    assert_eq!(back.exports[0].index, 9);
}
