//! The matchers that come with the crate.

pub mod static_command_parser;

pub use static_command_parser::{StaticCommandParser, StaticCommandParserBuilder};
