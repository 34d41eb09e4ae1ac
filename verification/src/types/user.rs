use vstd::prelude::*;

verus! {

/// A user or a bot.
#[derive(Debug, Clone, PartialEq, Eq, Hash)]
pub struct User {
    pub id: i32,
    pub is_bot: bool,
    pub first_name: String,
    pub last_name: Option<String>,
    pub username: Option<String>,
    pub language_code: Option<String>,
}

} // verus!
