//! Matchers for incoming updates.

pub mod managers;
pub mod parser;
