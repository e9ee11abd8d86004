use vstd::prelude::*;

verus! {

/// The four addressable register spaces.
#[derive(Clone, Copy, Debug, PartialEq, Eq, Structural)]
pub enum RegisterLocation {
    /// The immutable pool of constants of the program image.
    ConstantPool,
    /// The single floating-point scratch cell; it ignores the index.
    Accumulator,
    /// The global register file.
    Global,
    /// The registers of the current stack frame.
    Local,
}

/// A register: a slot index and the space it lives in.
#[derive(Clone, Copy, Debug, PartialEq, Eq, Structural)]
pub struct Register(pub u32, pub RegisterLocation);

/// How an operand refers to its register.
#[derive(Clone, Copy, Debug, PartialEq, Eq, Structural)]
pub enum RegisterReference {
    /// Use the register's slot directly.
    AsIs,
    /// The slot holds an address; use the register it points to.
    Dereference,
}

} // verus!
