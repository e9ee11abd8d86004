use vstd::prelude::*;
use crate::error::ErrorKind;
use crate::register::Register;

verus! {

/// A value of the machine. A `Double` holds the IEEE-754 binary64 bit pattern
/// of its number: floating-point work on it is done by the host.
#[derive(Debug, PartialEq)]
pub enum Constant {
    Int(i64),
    Double(u64),
    String(String),
    Boolean(bool),
    Address(Register),
    Vec(Vec<Constant>),
}

/// The mathematical model of a `Constant`.
pub enum Value {
    Int(i64),
    Double(u64),
    Str(Seq<char>),
    Boolean(bool),
    Address(Register),
    List(Seq<Value>),
}

pub open spec fn value_of(c: Constant) -> Value
    decreases c,
{
    match c {
        Constant::Int(i) => Value::Int(i),
        Constant::Double(b) => Value::Double(b),
        Constant::String(s) => Value::Str(s@),
        Constant::Boolean(b) => Value::Boolean(b),
        Constant::Address(r) => Value::Address(r),
        Constant::Vec(v) => Value::List(
            Seq::new(v@.len(), |i: int| if 0 <= i < v@.len() { value_of(v@[i]) } else { Value::Int(0) }),
        ),
    }
}

impl View for Constant {
    type V = Value;

    open spec fn view(&self) -> Value {
        value_of(*self)
    }
}

/// An operand handed to the host's floating-point unit.
#[derive(Clone, Copy, Debug, PartialEq, Eq, Structural)]
pub enum FloatArg {
    /// An integer, to be widened to binary64 first.
    Int(i64),
    /// The bit pattern of a binary64 number.
    Bits(u64),
}

/// An IEEE-754 operation that the host performs.
#[derive(Clone, Copy, Debug, PartialEq, Eq, Structural)]
pub enum FloatOp {
    Add,
    Sub,
    Mul,
    Div,
    Rem,
    /// Widen `lhs` to binary64; `rhs` is not read.
    Widen,
    Equal,
    NotEqual,
    Greater,
    Less,
    GreaterEqual,
    LessEqual,
}

/// A floating-point computation the engine needs before it can go on.
#[derive(Clone, Copy, Debug, PartialEq, Eq, Structural)]
pub struct FloatRequest {
    pub op: FloatOp,
    pub lhs: FloatArg,
    pub rhs: FloatArg,
}

/// The arithmetic operations of the instruction set.
#[derive(Clone, Copy, Debug, PartialEq, Eq, Structural)]
pub enum MathOp {
    Add,
    Sub,
    Mul,
    Div,
    Mod,
}

/// The comparisons of the instruction set.
#[derive(Clone, Copy, Debug, PartialEq, Eq, Structural)]
pub enum CmpOp {
    Equal,
    NotEqual,
    Greater,
    Less,
    GreaterEqual,
    LessEqual,
}

/// What an arithmetic operation gives: a value, or a request for the host.
#[derive(Debug, PartialEq)]
pub enum Numeric {
    Ready(Constant),
    Float(FloatRequest),
}

/// What a comparison gives: a truth value, or a request for the host.
#[derive(Clone, Copy, Debug, PartialEq, Eq, Structural)]
pub enum Decision {
    Known(bool),
    Float(FloatRequest),
}

pub open spec fn float_op_of(op: MathOp) -> FloatOp {
    match op {
        MathOp::Add => FloatOp::Add,
        MathOp::Sub => FloatOp::Sub,
        MathOp::Mul => FloatOp::Mul,
        MathOp::Div => FloatOp::Div,
        MathOp::Mod => FloatOp::Rem,
    }
}

pub open spec fn float_cmp_of(op: CmpOp) -> FloatOp {
    match op {
        CmpOp::Equal => FloatOp::Equal,
        CmpOp::NotEqual => FloatOp::NotEqual,
        CmpOp::Greater => FloatOp::Greater,
        CmpOp::Less => FloatOp::Less,
        CmpOp::GreaterEqual => FloatOp::GreaterEqual,
        CmpOp::LessEqual => FloatOp::LessEqual,
    }
}

/// The operand as the floating-point unit sees it, for numeric values.
pub open spec fn float_arg(v: Value) -> FloatArg {
    match v {
        Value::Int(i) => FloatArg::Int(i),
        Value::Double(b) => FloatArg::Bits(b),
        _ => FloatArg::Bits(0),
    }
}

pub open spec fn is_numeric(v: Value) -> bool {
    v is Int || v is Double
}

/// Both bit patterns of binary64 zero, positive and negative.
pub open spec fn is_zero_bits(b: u64) -> bool {
    b == 0 || b == 0x8000_0000_0000_0000u64
}

pub open spec fn is_zero(v: Value) -> bool {
    match v {
        Value::Int(i) => i == 0,
        Value::Double(b) => is_zero_bits(b),
        _ => false,
    }
}

/// Truncating integer remainder, as Rust's `%` computes it.
pub open spec fn int_rem(a: i64, b: i64) -> i64
    recommends
        b != 0,
{
    (a - b * (a.checked_div(b).unwrap() as int)) as i64
}

/// Checked integer arithmetic; `None` on overflow or division by zero.
pub open spec fn int_math(op: MathOp, a: i64, b: i64) -> Option<i64> {
    match op {
        MathOp::Add => a.checked_add(b),
        MathOp::Sub => a.checked_sub(b),
        MathOp::Mul => a.checked_mul(b),
        MathOp::Div => a.checked_div(b),
        MathOp::Mod => if b == 0 || a.checked_div(b) is None {
            None
        } else {
            Some(int_rem(a, b))
        },
    }
}

/// Pointer arithmetic: the index moves by `offset`, wrapping at 32 bits.
pub open spec fn offset_index(index: u32, offset: i64, op: MathOp) -> u32 {
    let moved = if op is Add {
        index as int + offset as int
    } else {
        index as int - offset as int
    };
    (moved % 0x1_0000_0000) as u32
}

/// `s` reduced modulo 2^32, as a `u32`.
fn wrap_u32(s: i128) -> (r: u32)
    requires
        -0x1_0000_0000_0000_0000 <= s <= 0x1_0000_0000_0000_0000,
    ensures
        r as int == s as int % 0x1_0000_0000,
{
    if s >= 0 {
        let u = s as u128;
        (u % 0x1_0000_0000u128) as u32
    } else {
        let n = (-s) as u128;
        let m = n % 0x1_0000_0000u128;
        let r = if m == 0 {
            0u32
        } else {
            (0x1_0000_0000u128 - m) as u32
        };
        proof {
            let si = s as int;
            let ni = -si;
            let q = ni / 0x1_0000_0000;
            assert(ni == q * 0x1_0000_0000 + m as int);
            if m == 0 {
                assert(si == (-q) * 0x1_0000_0000);
                vstd::arithmetic::div_mod::lemma_mod_multiples_basic(-q, 0x1_0000_0000);
            } else {
                assert(si == (-q - 1) * 0x1_0000_0000 + (0x1_0000_0000 - m as int));
                vstd::arithmetic::div_mod::lemma_mod_multiples_vanish(-q - 1, 0x1_0000_0000 - m as int, 0x1_0000_0000);
                vstd::arithmetic::div_mod::lemma_small_mod((0x1_0000_0000 - m as int) as nat, 0x1_0000_0000);
            }
        }
        r
    }
}

/// The result of `a op b`.
pub open spec fn math_spec(op: MathOp, a: Value, b: Value) -> Result<Numeric, ErrorKind> {
    match (a, b) {
        (Value::Int(x), Value::Int(y)) => match int_math(op, x, y) {
            Some(r) => Ok(Numeric::Ready(Constant::Int(r))),
            None => Err(ErrorKind::Overflow),
        },
        (Value::Address(r), Value::Int(y)) => if op is Add || op is Sub {
            Ok(Numeric::Ready(Constant::Address(Register(offset_index(r.0, y, op), r.1))))
        } else {
            Err(ErrorKind::InvalidOperation)
        },
        (Value::Int(y), Value::Address(r)) => if op is Add || op is Sub {
            Ok(Numeric::Ready(Constant::Address(Register(offset_index(r.0, y, op), r.1))))
        } else {
            Err(ErrorKind::InvalidOperation)
        },
        _ => if is_numeric(a) && is_numeric(b) {
            if (op is Div || op is Mod) && is_zero(b) {
                Err(ErrorKind::Overflow)
            } else {
                Ok(
                    Numeric::Float(
                        FloatRequest { op: float_op_of(op), lhs: float_arg(a), rhs: float_arg(b) },
                    ),
                )
            }
        } else {
            Err(ErrorKind::InvalidOperation)
        },
    }
}

pub open spec fn int_cmp(op: CmpOp, x: i64, y: i64) -> bool {
    match op {
        CmpOp::Equal => x == y,
        CmpOp::NotEqual => x != y,
        CmpOp::Greater => x > y,
        CmpOp::Less => x < y,
        CmpOp::GreaterEqual => x >= y,
        CmpOp::LessEqual => x <= y,
    }
}

/// Whether two values have the same variant.
pub open spec fn same_tag(a: Value, b: Value) -> bool {
    match (a, b) {
        (Value::Int(_), Value::Int(_)) => true,
        (Value::Double(_), Value::Double(_)) => true,
        (Value::Str(_), Value::Str(_)) => true,
        (Value::Boolean(_), Value::Boolean(_)) => true,
        (Value::Address(_), Value::Address(_)) => true,
        (Value::List(_), Value::List(_)) => true,
        _ => false,
    }
}

/// The result of comparing `a op b`. Two numbers compare by value, with integers widened
/// when a binary64 is involved (the host decides those). Other values of one variant are
/// equal when they are structurally equal; binary64 numbers nested in lists compare by bit
/// pattern there, so +0 and -0 differ and a NaN equals itself.
pub open spec fn cmp_spec(op: CmpOp, a: Value, b: Value) -> Result<Decision, ErrorKind> {
    if is_numeric(a) && is_numeric(b) {
        match (a, b) {
            (Value::Int(x), Value::Int(y)) => Ok(Decision::Known(int_cmp(op, x, y))),
            _ => Ok(
                Decision::Float(FloatRequest { op: float_cmp_of(op), lhs: float_arg(a), rhs: float_arg(b) }),
            ),
        }
    } else if (op is Equal || op is NotEqual) && same_tag(a, b) {
        Ok(Decision::Known(if op is Equal { a == b } else { a != b }))
    } else {
        Err(ErrorKind::InvalidOperation)
    }
}

impl Constant {
    /// A copy of this value; compound values are copied deeply.
    pub fn copy_value(&self) -> (r: Constant)
        ensures
            r@ == self@,
        decreases self,
    {
        match self {
            Constant::Int(i) => Constant::Int(*i),
            Constant::Double(b) => Constant::Double(*b),
            Constant::String(s) => Constant::String(s.clone()),
            Constant::Boolean(b) => Constant::Boolean(*b),
            Constant::Address(r) => Constant::Address(*r),
            Constant::Vec(v) => {
                let mut out: Vec<Constant> = Vec::new();
                let mut i: usize = 0;
                while i < v.len()
                    invariant
                        0 <= i <= v@.len(),
                        *self == Constant::Vec(*v),
                        out@.len() == i,
                        forall|j: int| 0 <= j < i ==> (#[trigger] out@[j])@ == v@[j]@,
                    decreases v@.len() - i,
                {
                    proof {
                        assert(decreases_to!(*self => self->Vec_0));
                        assert(decreases_to!(*self => *v));
                        assert(decreases_to!(*v => v[i as int]));
                        assert(decreases_to!(*self => v[i as int]));
                    }
                    let c = v[i].copy_value();
                    out.push(c);
                    i += 1;
                }
                let r = Constant::Vec(out);
                proof {
                    if let Value::List(a) = r@ {
                        if let Value::List(b) = self@ {
                            assert(a =~= b);
                        }
                    }
                }
                r
            },
        }
    }

    /// Structural equality of the two values.
    pub fn same_as(&self, other: &Constant) -> (r: bool)
        ensures
            r == (self@ == other@),
        decreases self,
    {
        match self {
            Constant::Vec(a) => {
                let b = match other {
                    Constant::Vec(b) => b,
                    _ => {
                        return false;
                    },
                };
                let ghost x = match self@ {
                    Value::List(x) => x,
                    _ => Seq::empty(),
                };
                let ghost y = match other@ {
                    Value::List(y) => y,
                    _ => Seq::empty(),
                };
                assert(x.len() == a@.len() && y.len() == b@.len());
                if a.len() != b.len() {
                    assert(x.len() != y.len());
                    return false;
                }
                let mut i: usize = 0;
                while i < a.len()
                    invariant
                        0 <= i <= a@.len(),
                        *self == Constant::Vec(*a),
                        *other == Constant::Vec(*b),
                        self@ == Value::List(x),
                        other@ == Value::List(y),
                        a@.len() == b@.len(),
                        x.len() == a@.len() && y.len() == b@.len(),
                        forall|j: int| 0 <= j < a@.len() ==> x[j] == (#[trigger] a@[j])@,
                        forall|j: int| 0 <= j < b@.len() ==> y[j] == (#[trigger] b@[j])@,
                        forall|j: int| 0 <= j < i ==> (#[trigger] a@[j])@ == b@[j]@,
                    decreases a@.len() - i,
                {
                    proof {
                        assert(decreases_to!(*self => *a));
                        assert(decreases_to!(*a => a[i as int]));
                        assert(decreases_to!(*self => a[i as int]));
                    }
                    if !a[i].same_as(&b[i]) {
                        assert(x[i as int] != y[i as int]);
                        return false;
                    }
                    i += 1;
                }
                assert(x =~= y);
                assert(self@ == other@);
                true
            },
            Constant::Int(a) => match other {
                Constant::Int(b) => *a == *b,
                _ => false,
            },
            Constant::Double(a) => match other {
                Constant::Double(b) => *a == *b,
                _ => false,
            },
            Constant::String(a) => match other {
                Constant::String(b) => *a == *b,
                _ => false,
            },
            Constant::Boolean(a) => match other {
                Constant::Boolean(b) => *a == *b,
                _ => false,
            },
            Constant::Address(a) => match other {
                Constant::Address(b) => *a == *b,
                _ => false,
            },
        }
    }

    /// `self op constant`, by the rules of the value model.
    pub fn math(&self, op: MathOp, constant: &Constant) -> (r: Result<Numeric, ErrorKind>)
        ensures
            r == math_spec(op, self@, constant@),
    {
        match (self, constant) {
            (Constant::Int(x), Constant::Int(y)) => {
                let x = *x;
                let y = *y;
                let res: Option<i64> = match op {
                    MathOp::Add => x.checked_add(y),
                    MathOp::Sub => x.checked_sub(y),
                    MathOp::Mul => x.checked_mul(y),
                    MathOp::Div => x.checked_div(y),
                    MathOp::Mod => {
                        if y == 0 {
                            None
                        } else {
                            match x.checked_div(y) {
                                None => None,
                                Some(q) => {
                                    proof {
                                        let (yy, qq) = (y as int, q as int);
                                        assert(-0x8000_0000_0000_0000 <= yy <= 0x7fff_ffff_ffff_ffff);
                                        assert(-0x8000_0000_0000_0000 <= qq <= 0x7fff_ffff_ffff_ffff);
                                        assert(-0x4000_0000_0000_0000_0000_0000_0000_0000 <= yy * qq
                                            <= 0x4000_0000_0000_0000_0000_0000_0000_0000) by (nonlinear_arith)
                                            requires
                                                -0x8000_0000_0000_0000 <= yy <= 0x7fff_ffff_ffff_ffff,
                                                -0x8000_0000_0000_0000 <= qq <= 0x7fff_ffff_ffff_ffff,
                                        ;
                                    }
                                    let yq: i128 = y as i128 * q as i128;
                                    Some(#[verifier::truncate] ((x as i128 - yq) as i64))
                                },
                            }
                        }
                    },
                };
                match res {
                    Some(v) => Ok(Numeric::Ready(Constant::Int(v))),
                    None => Err(ErrorKind::Overflow),
                }
            },
            (Constant::Address(r), Constant::Int(y)) | (Constant::Int(y), Constant::Address(r)) => {
                match op {
                    MathOp::Add => {
                        let idx = wrap_u32(r.0 as i128 + *y as i128);
                        Ok(Numeric::Ready(Constant::Address(Register(idx, r.1))))
                    },
                    MathOp::Sub => {
                        let idx = wrap_u32(r.0 as i128 - *y as i128);
                        Ok(Numeric::Ready(Constant::Address(Register(idx, r.1))))
                    },
                    _ => Err(ErrorKind::InvalidOperation),
                }
            },
            _ => {
                let lhs = match self {
                    Constant::Int(i) => FloatArg::Int(*i),
                    Constant::Double(b) => FloatArg::Bits(*b),
                    _ => {
                        return Err(ErrorKind::InvalidOperation);
                    },
                };
                let (rhs, zero) = match constant {
                    Constant::Int(i) => (FloatArg::Int(*i), *i == 0),
                    Constant::Double(b) => (FloatArg::Bits(*b), *b == 0 || *b == 0x8000_0000_0000_0000u64),
                    _ => {
                        return Err(ErrorKind::InvalidOperation);
                    },
                };
                let fop = match op {
                    MathOp::Add => FloatOp::Add,
                    MathOp::Sub => FloatOp::Sub,
                    MathOp::Mul => FloatOp::Mul,
                    MathOp::Div => FloatOp::Div,
                    MathOp::Mod => FloatOp::Rem,
                };
                if (op == MathOp::Div || op == MathOp::Mod) && zero {
                    Err(ErrorKind::Overflow)
                } else {
                    Ok(Numeric::Float(FloatRequest { op: fop, lhs, rhs }))
                }
            },
        }
    }

    /// `self + constant`.
    pub fn add(&self, constant: &Constant) -> (r: Result<Numeric, ErrorKind>)
        ensures
            r == math_spec(MathOp::Add, self@, constant@),
    {
        self.math(MathOp::Add, constant)
    }

    /// `self - constant`.
    pub fn sub(&self, constant: &Constant) -> (r: Result<Numeric, ErrorKind>)
        ensures
            r == math_spec(MathOp::Sub, self@, constant@),
    {
        self.math(MathOp::Sub, constant)
    }

    /// `self * constant`.
    pub fn mul(&self, constant: &Constant) -> (r: Result<Numeric, ErrorKind>)
        ensures
            r == math_spec(MathOp::Mul, self@, constant@),
    {
        self.math(MathOp::Mul, constant)
    }

    /// `self / constant`; division by zero is refused.
    pub fn div(&self, constant: &Constant) -> (r: Result<Numeric, ErrorKind>)
        ensures
            r == math_spec(MathOp::Div, self@, constant@),
    {
        self.math(MathOp::Div, constant)
    }

    /// `self % constant`; division by zero is refused.
    pub fn modlo(&self, constant: &Constant) -> (r: Result<Numeric, ErrorKind>)
        ensures
            r == math_spec(MathOp::Mod, self@, constant@),
    {
        self.math(MathOp::Mod, constant)
    }

    /// `self op constant` for a comparison.
    pub fn compare(&self, op: CmpOp, constant: &Constant) -> (r: Result<Decision, ErrorKind>)
        ensures
            r == cmp_spec(op, self@, constant@),
    {
        match (self, constant) {
            (Constant::Int(x), Constant::Int(y)) => {
                let b = match op {
                    CmpOp::Equal => *x == *y,
                    CmpOp::NotEqual => *x != *y,
                    CmpOp::Greater => *x > *y,
                    CmpOp::Less => *x < *y,
                    CmpOp::GreaterEqual => *x >= *y,
                    CmpOp::LessEqual => *x <= *y,
                };
                Ok(Decision::Known(b))
            },
            (Constant::Int(_), Constant::Double(_)) | (Constant::Double(_), Constant::Int(_)) | (
                Constant::Double(_),
                Constant::Double(_),
            ) => {
                let lhs = match self {
                    Constant::Int(i) => FloatArg::Int(*i),
                    Constant::Double(b) => FloatArg::Bits(*b),
                    _ => FloatArg::Bits(0),
                };
                let rhs = match constant {
                    Constant::Int(i) => FloatArg::Int(*i),
                    Constant::Double(b) => FloatArg::Bits(*b),
                    _ => FloatArg::Bits(0),
                };
                let fop = match op {
                    CmpOp::Equal => FloatOp::Equal,
                    CmpOp::NotEqual => FloatOp::NotEqual,
                    CmpOp::Greater => FloatOp::Greater,
                    CmpOp::Less => FloatOp::Less,
                    CmpOp::GreaterEqual => FloatOp::GreaterEqual,
                    CmpOp::LessEqual => FloatOp::LessEqual,
                };
                Ok(Decision::Float(FloatRequest { op: fop, lhs, rhs }))
            },
            (Constant::String(_), Constant::String(_)) | (Constant::Boolean(_), Constant::Boolean(_))
            | (Constant::Address(_), Constant::Address(_)) | (Constant::Vec(_), Constant::Vec(_)) => {
                match op {
                    CmpOp::Equal => Ok(Decision::Known(self.same_as(constant))),
                    CmpOp::NotEqual => Ok(Decision::Known(!self.same_as(constant))),
                    _ => Err(ErrorKind::InvalidOperation),
                }
            },
            _ => Err(ErrorKind::InvalidOperation),
        }
    }
}

} // verus!
