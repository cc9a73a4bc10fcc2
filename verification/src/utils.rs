//! Random numbers, weighted choice and text helpers.

pub mod float;
pub mod probablity;
pub mod random;
pub mod text;
