//! The lifter, which lowers a program to JavaScript text.

pub mod emitter;
pub mod lifter;
