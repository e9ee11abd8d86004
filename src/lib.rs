//! A register-based virtual machine: program images, their binary format,
//! and an execution engine whose every step is specified.

pub mod register;
pub mod bytes;
pub mod error;
pub mod constant;
pub mod instruction;
pub mod codeholder;
pub mod codec;
pub mod reader;
pub mod writer;
pub mod roundtrip;
pub mod machine;
pub mod seal;
pub mod state;
pub mod interpreter;
pub mod laws;
pub mod codegen;
pub mod builder;

pub use codeholder::CodeHolder;
pub use interpreter::Interpreter;
pub use reader::read_bytecode;
pub use state::ResurgenceState;
pub use writer::write_bytecode;
