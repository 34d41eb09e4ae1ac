//! The requests, one file each.

pub mod get_me;
pub mod kick_chat_member;
pub mod send_message;
