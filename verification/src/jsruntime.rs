//! The description of the JavaScript runtime: its builtins, their
//! constructors, properties and methods.

pub mod constants;
pub mod jsbuiltin;
pub mod jsruntime;
