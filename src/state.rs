use vstd::prelude::*;
use crate::codeholder::values_of;
use crate::constant::{Constant, Value};

verus! {

/// The variant of a value.
#[derive(Clone, Copy, Debug, PartialEq, Eq, Structural)]
pub enum Tag {
    Int,
    Double,
    String,
    Boolean,
    Address,
    Vec,
}

pub open spec fn tag_of(v: Value) -> Tag {
    match v {
        Value::Int(_) => Tag::Int,
        Value::Double(_) => Tag::Double,
        Value::Str(_) => Tag::String,
        Value::Boolean(_) => Tag::Boolean,
        Value::Address(_) => Tag::Address,
        Value::List(_) => Tag::Vec,
    }
}

/// A typed pop found another variant than it wanted: `actual` is the variant on top,
/// `None` when the stack was empty.
#[derive(Clone, Copy, Debug, PartialEq, Eq, Structural)]
pub struct TypeMismatch {
    pub expected: Tag,
    pub actual: Option<Tag>,
}

/// What a typed pop of variant `expected` fails with on `stack`, if it fails.
pub open spec fn mismatch(stack: Seq<Value>, expected: Tag) -> Option<TypeMismatch> {
    if stack.len() == 0 {
        Some(TypeMismatch { expected, actual: None })
    } else if tag_of(stack.last()) == expected {
        None
    } else {
        Some(TypeMismatch { expected, actual: Some(tag_of(stack.last())) })
    }
}

fn tag(c: &Constant) -> (t: Tag)
    ensures
        t == tag_of(c@),
{
    match c {
        Constant::Int(_) => Tag::Int,
        Constant::Double(_) => Tag::Double,
        Constant::String(_) => Tag::String,
        Constant::Boolean(_) => Tag::Boolean,
        Constant::Address(_) => Tag::Address,
        Constant::Vec(_) => Tag::Vec,
    }
}

/// The value stack as a host callback sees it: typed pops from the top and typed pushes.
#[derive(Debug)]
pub struct ResurgenceState {
    args: Vec<Constant>,
}

impl View for ResurgenceState {
    type V = Seq<Value>;

    closed spec fn view(&self) -> Seq<Value> {
        values_of(self.args@)
    }
}

impl ResurgenceState {
    /// A state over these arguments, the last one on top.
    pub fn new(args: Vec<Constant>) -> (r: ResurgenceState)
        ensures
            r@ == values_of(args@),
    {
        ResurgenceState { args }
    }

    /// The stack, the last value on top.
    pub fn into_args(self) -> (r: Vec<Constant>)
        ensures
            values_of(r@) == self@,
    {
        self.args
    }

    /// How many values the stack holds.
    pub fn len(&self) -> (r: usize)
        ensures
            r == self@.len(),
    {
        self.args.len()
    }

    /// Pops an integer from the top; on a mismatch nothing is popped.
    pub fn get_i64(&mut self) -> (r: Result<i64, TypeMismatch>)
        ensures
            match mismatch(old(self)@, Tag::Int) {
                Some(e) => r == Err::<i64, TypeMismatch>(e) && final(self)@ == old(self)@,
                None => r is Ok && r->Ok_0 == old(self)@.last()->Int_0 && final(self)@ == old(self)@.drop_last(),
            },
    {
        let n = self.args.len();
        if n == 0 {
            return Err(TypeMismatch { expected: Tag::Int, actual: None });
        }
        let t = tag(&self.args[n - 1]);
        if t != Tag::Int {
            return Err(TypeMismatch { expected: Tag::Int, actual: Some(t) });
        }
        let top = self.args.pop().unwrap();
        assert(values_of(self.args@) =~= values_of(old(self).args@).drop_last());
        match top {
            Constant::Int(x) => Ok(x),
            _ => Err(TypeMismatch { expected: Tag::Int, actual: Some(t) }),
        }
    }

    /// Pops the bit pattern of a binary64 number from the top; on a mismatch nothing is popped.
    pub fn get_f64_bits(&mut self) -> (r: Result<u64, TypeMismatch>)
        ensures
            match mismatch(old(self)@, Tag::Double) {
                Some(e) => r == Err::<u64, TypeMismatch>(e) && final(self)@ == old(self)@,
                None => r is Ok && r->Ok_0 == old(self)@.last()->Double_0 && final(self)@ == old(self)@.drop_last(),
            },
    {
        let n = self.args.len();
        if n == 0 {
            return Err(TypeMismatch { expected: Tag::Double, actual: None });
        }
        let t = tag(&self.args[n - 1]);
        if t != Tag::Double {
            return Err(TypeMismatch { expected: Tag::Double, actual: Some(t) });
        }
        let top = self.args.pop().unwrap();
        assert(values_of(self.args@) =~= values_of(old(self).args@).drop_last());
        match top {
            Constant::Double(x) => Ok(x),
            _ => Err(TypeMismatch { expected: Tag::Double, actual: Some(t) }),
        }
    }

    /// Pops a boolean from the top; on a mismatch nothing is popped.
    pub fn get_bool(&mut self) -> (r: Result<bool, TypeMismatch>)
        ensures
            match mismatch(old(self)@, Tag::Boolean) {
                Some(e) => r == Err::<bool, TypeMismatch>(e) && final(self)@ == old(self)@,
                None => r is Ok && r->Ok_0 == old(self)@.last()->Boolean_0 && final(self)@ == old(self)@.drop_last(),
            },
    {
        let n = self.args.len();
        if n == 0 {
            return Err(TypeMismatch { expected: Tag::Boolean, actual: None });
        }
        let t = tag(&self.args[n - 1]);
        if t != Tag::Boolean {
            return Err(TypeMismatch { expected: Tag::Boolean, actual: Some(t) });
        }
        let top = self.args.pop().unwrap();
        assert(values_of(self.args@) =~= values_of(old(self).args@).drop_last());
        match top {
            Constant::Boolean(x) => Ok(x),
            _ => Err(TypeMismatch { expected: Tag::Boolean, actual: Some(t) }),
        }
    }

    /// Pops a string from the top; on a mismatch nothing is popped.
    pub fn get_string(&mut self) -> (r: Result<String, TypeMismatch>)
        ensures
            match mismatch(old(self)@, Tag::String) {
                Some(e) => r == Err::<String, TypeMismatch>(e) && final(self)@ == old(self)@,
                None => r is Ok && r->Ok_0@ == old(self)@.last()->Str_0 && final(self)@ == old(self)@.drop_last(),
            },
    {
        let n = self.args.len();
        if n == 0 {
            return Err(TypeMismatch { expected: Tag::String, actual: None });
        }
        let t = tag(&self.args[n - 1]);
        if t != Tag::String {
            return Err(TypeMismatch { expected: Tag::String, actual: Some(t) });
        }
        let top = self.args.pop().unwrap();
        assert(values_of(self.args@) =~= values_of(old(self).args@).drop_last());
        match top {
            Constant::String(x) => Ok(x),
            _ => Err(TypeMismatch { expected: Tag::String, actual: Some(t) }),
        }
    }

    /// Pushes an integer.
    pub fn push_i64(&mut self, val: i64)
        ensures
            final(self)@ == old(self)@.push(Value::Int(val)),
    {
        self.args.push(Constant::Int(val));
        assert(values_of(self.args@) =~= values_of(old(self).args@).push(Value::Int(val)));
    }

    /// Pushes a binary64 number given by its bit pattern.
    pub fn push_f64_bits(&mut self, bits: u64)
        ensures
            final(self)@ == old(self)@.push(Value::Double(bits)),
    {
        self.args.push(Constant::Double(bits));
        assert(values_of(self.args@) =~= values_of(old(self).args@).push(Value::Double(bits)));
    }

    /// Pushes a string.
    pub fn push_string(&mut self, val: String)
        ensures
            final(self)@ == old(self)@.push(Value::Str(val@)),
    {
        let ghost v = val@;
        self.args.push(Constant::String(val));
        assert(values_of(self.args@) =~= values_of(old(self).args@).push(Value::Str(v)));
    }

    /// Pushes a boolean.
    pub fn push_bool(&mut self, val: bool)
        ensures
            final(self)@ == old(self)@.push(Value::Boolean(val)),
    {
        self.args.push(Constant::Boolean(val));
        assert(values_of(self.args@) =~= values_of(old(self).args@).push(Value::Boolean(val)));
    }
}

} // verus!
