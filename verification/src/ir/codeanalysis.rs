//! The type lattice and the analyzers that run on every appended instruction.

pub mod analyzers;
pub mod typeanalyzer;
pub mod types;
