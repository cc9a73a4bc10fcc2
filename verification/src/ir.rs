//! The intermediate representation from which JavaScript programs are
//! generated.

pub mod codeanalysis;
pub mod codegenerators;
pub mod instruction;
pub mod opcodes;
pub mod operation;
pub mod operators;
pub mod program;
pub mod variable;
