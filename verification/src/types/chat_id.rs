use vstd::prelude::*;
use vstd::std_specs::convert::FromSpecImpl;
use crate::requests::payload::{Datum, Value};

verus! {

/// The target of a request: the numeric identifier of a chat, or the username
/// of a channel or supergroup (in the format `@channelusername`).
#[derive(Debug, Clone, PartialEq, Eq, Hash)]
pub enum ChatId {
    /// The numeric identifier of a chat.
    Id(i64),
    /// The username of a channel or supergroup.
    ChannelUsername(String),
}

impl ChatId {
    /// What a `ChatId` is sent as: the number, or the username as text.
    pub open spec fn datum(self) -> Datum {
        match self {
            ChatId::Id(id) => Datum::Integer(id as int),
            ChatId::ChannelUsername(username) => Datum::Text(username@),
        }
    }

    /// The value that stands for the chat in the body of a request.
    pub fn to_value(&self) -> (value: Value)
        ensures
            value@ == self.datum(),
    {
        match self {
            ChatId::Id(id) => Value::Integer(*id),
            ChatId::ChannelUsername(username) => Value::Text(username.clone()),
        }
    }
}

impl From<i64> for ChatId {
    fn from(id: i64) -> (chat: ChatId) {
        ChatId::Id(id)
    }
}

impl FromSpecImpl<i64> for ChatId {
    open spec fn obeys_from_spec() -> bool {
        true
    }

    open spec fn from_spec(id: i64) -> ChatId {
        ChatId::Id(id)
    }
}

impl From<String> for ChatId {
    fn from(username: String) -> (chat: ChatId) {
        ChatId::ChannelUsername(username)
    }
}

impl FromSpecImpl<String> for ChatId {
    open spec fn obeys_from_spec() -> bool {
        true
    }

    open spec fn from_spec(username: String) -> ChatId {
        ChatId::ChannelUsername(username)
    }
}

} // verus!
