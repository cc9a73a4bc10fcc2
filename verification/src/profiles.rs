//! The arguments that each engine is started with.

pub mod javascriptcore;
pub mod profile;
pub mod spidermonkey;
