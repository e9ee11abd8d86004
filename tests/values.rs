use resurgence::constant::{CmpOp, Constant, Decision, FloatArg, FloatOp, FloatRequest, Numeric};
use resurgence::error::ErrorKind;
use resurgence::register::{Register, RegisterLocation};
use resurgence::seal::{Permissions, RunTimeSeal, Status};
use resurgence::state::{ResurgenceState, Tag, TypeMismatch};

fn ready(c: Constant) -> Result<Numeric, ErrorKind> {
    Ok(Numeric::Ready(c))
}

#[test]
fn integer_arithmetic() {
    assert_eq!(Constant::Int(5).add(&Constant::Int(5)), ready(Constant::Int(10)));
    assert_eq!(Constant::Int(5).sub(&Constant::Int(7)), ready(Constant::Int(-2)));
    assert_eq!(Constant::Int(5).mul(&Constant::Int(5)), ready(Constant::Int(25)));
    assert_eq!(Constant::Int(-7).div(&Constant::Int(2)), ready(Constant::Int(-3)));
    assert_eq!(Constant::Int(-7).modlo(&Constant::Int(2)), ready(Constant::Int(-1)));
    assert_eq!(Constant::Int(7).modlo(&Constant::Int(-3)), ready(Constant::Int(1)));
}

#[test]
fn int_max_plus_one_overflows() {
    assert_eq!(Constant::Int(i64::MAX).add(&Constant::Int(1)), Err(ErrorKind::Overflow));
    assert_eq!(Constant::Int(i64::MIN).sub(&Constant::Int(1)), Err(ErrorKind::Overflow));
    assert_eq!(Constant::Int(i64::MAX).mul(&Constant::Int(2)), Err(ErrorKind::Overflow));
    assert_eq!(Constant::Int(i64::MIN).div(&Constant::Int(-1)), Err(ErrorKind::Overflow));
    assert_eq!(Constant::Int(i64::MIN).modlo(&Constant::Int(-1)), Err(ErrorKind::Overflow));
}

#[test]
fn division_by_zero_overflows() {
    assert_eq!(Constant::Int(3).div(&Constant::Int(0)), Err(ErrorKind::Overflow));
    assert_eq!(Constant::Int(3).modlo(&Constant::Int(0)), Err(ErrorKind::Overflow));
    assert_eq!(Constant::Int(3).div(&Constant::Double(0.0f64.to_bits())), Err(ErrorKind::Overflow));
    assert_eq!(Constant::Double(1.0f64.to_bits()).modlo(&Constant::Double((-0.0f64).to_bits())), Err(ErrorKind::Overflow));
}

#[test]
fn address_arithmetic_wraps() {
    let a = Constant::Address(Register(u32::MAX, RegisterLocation::Global));
    assert_eq!(a.add(&Constant::Int(2)), ready(Constant::Address(Register(1, RegisterLocation::Global))));
    let b = Constant::Address(Register(3, RegisterLocation::Local));
    assert_eq!(Constant::Int(4).add(&b), ready(Constant::Address(Register(7, RegisterLocation::Local))));
    assert_eq!(b.sub(&Constant::Int(4)), ready(Constant::Address(Register(u32::MAX, RegisterLocation::Local))));
    assert_eq!(b.mul(&Constant::Int(4)), Err(ErrorKind::InvalidOperation));
}

#[test]
fn floating_point_goes_to_host() {
    let r = Constant::Int(2).add(&Constant::Double(0.5f64.to_bits()));
    assert_eq!(
        r,
        Ok(Numeric::Float(FloatRequest { op: FloatOp::Add, lhs: FloatArg::Int(2), rhs: FloatArg::Bits(0.5f64.to_bits()) }))
    );
    let r = Constant::Double(1.5f64.to_bits()).compare(CmpOp::Less, &Constant::Int(2));
    assert_eq!(
        r,
        Ok(Decision::Float(FloatRequest { op: FloatOp::Less, lhs: FloatArg::Bits(1.5f64.to_bits()), rhs: FloatArg::Int(2) }))
    );
}

#[test]
fn non_numeric_arithmetic_is_invalid() {
    assert_eq!(Constant::String("a".to_string()).add(&Constant::Int(1)), Err(ErrorKind::InvalidOperation));
    assert_eq!(Constant::Boolean(true).mul(&Constant::Boolean(true)), Err(ErrorKind::InvalidOperation));
}

#[test]
fn comparisons() {
    assert_eq!(Constant::Int(1).compare(CmpOp::Greater, &Constant::Int(0)), Ok(Decision::Known(true)));
    assert_eq!(Constant::Int(1).compare(CmpOp::LessEqual, &Constant::Int(0)), Ok(Decision::Known(false)));
    let s = Constant::String("a".to_string());
    assert_eq!(s.compare(CmpOp::Equal, &Constant::String("a".to_string())), Ok(Decision::Known(true)));
    assert_eq!(s.compare(CmpOp::NotEqual, &Constant::String("b".to_string())), Ok(Decision::Known(true)));
    assert_eq!(s.compare(CmpOp::Less, &Constant::String("b".to_string())), Err(ErrorKind::InvalidOperation));
    assert_eq!(s.compare(CmpOp::Equal, &Constant::Int(1)), Err(ErrorKind::InvalidOperation));
    let v = Constant::Vec(vec![Constant::Int(1), Constant::Boolean(false)]);
    assert_eq!(v.compare(CmpOp::Equal, &v.copy_value()), Ok(Decision::Known(true)));
}

#[test]
fn copies_are_deep_and_equal() {
    let v = Constant::Vec(vec![Constant::String("x".to_string()), Constant::Vec(vec![Constant::Int(2)])]);
    let c = v.copy_value();
    assert_eq!(c, v);
    assert!(c.same_as(&v));
    assert!(!c.same_as(&Constant::Vec(vec![])));
}

#[test]
fn typed_pops_and_pushes() {
    let mut st = ResurgenceState::new(vec![Constant::Int(1), Constant::String("s".to_string())]);
    assert_eq!(st.get_i64(), Err(TypeMismatch { expected: Tag::Int, actual: Some(Tag::String) }));
    assert_eq!(st.len(), 2);
    assert_eq!(st.get_string(), Ok("s".to_string()));
    assert_eq!(st.get_i64(), Ok(1));
    assert_eq!(st.get_bool(), Err(TypeMismatch { expected: Tag::Boolean, actual: None }));
    st.push_bool(true);
    st.push_f64_bits(2.0f64.to_bits());
    assert_eq!(st.get_f64_bits(), Ok(2.0f64.to_bits()));
    assert_eq!(st.get_bool(), Ok(true));
    st.push_i64(9);
    assert_eq!(st.get_string(), Err(TypeMismatch { expected: Tag::String, actual: Some(Tag::Int) }));
    assert_eq!(st.len(), 1);
    st.push_string("t".to_string());
    assert_eq!(st.into_args(), vec![Constant::Int(9), Constant::String("t".to_string())]);
}

#[test]
fn seal_lifecycle() {
    let mut seal = RunTimeSeal::new();
    assert_eq!(seal.runtime_security_status(), Status::NotStarted);
    seal.mutated();
    assert_eq!(seal.runtime_security_status(), Status::NotStarted);
    seal.set_rust_c_perms(Permissions::Read);
    assert_eq!(seal.runtime_security_status(), Status::NotStarted);
    assert!(seal.set_runtime());
    assert_eq!(seal.runtime_security_status(), Status::Untampered);
    assert!(seal.set_runtime());
    seal.set_global_perms(Permissions::Read);
    assert_eq!(seal.runtime_security_status(), Status::Tampered);
    assert!(!seal.set_runtime());
    assert_eq!(seal.runtime_security_status(), Status::Tampered);
}

#[test]
fn tampering_is_unconditional() {
    let mut seal = RunTimeSeal::new();
    seal.runtime_tampered();
    assert_eq!(seal.runtime_security_status(), Status::Tampered);
    assert!(!seal.set_runtime());
}
