//! Caller-side value types built on top of the client layer.

pub mod file;
pub mod token;
