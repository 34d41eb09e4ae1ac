//! A typed client for the Telegram Bot API: request builders that are
//! prepared and interpreted here, and a chain of matchers for incoming updates.

pub mod bot;
pub mod contrib;
pub mod dispatching;
pub mod net;
pub mod requests;
pub mod types;

pub use bot::Bot;
