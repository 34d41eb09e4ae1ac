use vstd::prelude::*;
use reqwest::Client;
use vstd::std_specs::convert::IntoSpec;
use crate::requests::all::get_me::GetMe;
use crate::requests::all::kick_chat_member::KickChatMember;
use crate::requests::all::send_message::SendMessage;
use crate::requests::Request;
use crate::types::chat_id::ChatId;

verus! {

/// `reqwest::Client`, the HTTP client. A `Bot` carries one and hands it out
/// again; nothing in this crate looks inside it.
#[verifier::external_type_specification]
#[verifier::external_body]
pub struct ExClient(reqwest::Client);

/// `reqwest::Client::builder` and then `reqwest::ClientBuilder::build`: a
/// client with reqwest's default configuration, which depends on the machine
/// it is made on. `None` stands for the error that reqwest reports where the
/// TLS backend cannot be initialised or the resolver cannot load the system
/// configuration. Nothing is claimed of when a client is made, nor of the
/// client that is.
#[verifier::external_body]
fn default_client() -> Option<Client> {
    Client::builder().build().ok()
}

/// An authentication token paired with the HTTP client that carries the
/// requests made under it. Every request builder is made by a `Bot` and
/// borrows it; neither part changes once the `Bot` exists.
#[derive(Debug)]
pub struct Bot {
    token: String,
    client: Client,
}

impl Bot {
    /// The token, as the sequence of its characters.
    pub closed spec fn token_chars(&self) -> Seq<char> {
        self.token@
    }

    /// The HTTP client that the `Bot` holds.
    pub closed spec fn held_client(&self) -> Client {
        self.client
    }

    /// A `Bot` for `token` with an HTTP client of its own, made with
    /// reqwest's default configuration; `None` where no such client can be
    /// made on this machine.
    pub fn try_new(token: &str) -> (bot: Option<Bot>)
        ensures
            bot matches Some(made) ==> made.token_chars() == token@,
    {
        match default_client() {
            Some(client) => Some(Bot::with_client(token, client)),
            None => None,
        }
    }

    /// A `Bot` for `token` that sends through `client`.
    pub fn with_client(token: &str, client: Client) -> (bot: Bot)
        ensures
            bot.token_chars() == token@,
            bot.held_client() == client,
    {
        Bot { token: token.to_owned(), client }
    }

    /// The token that requests are made under.
    pub fn token(&self) -> (token: &str)
        ensures
            token@ == self.token_chars(),
    {
        self.token.as_str()
    }

    /// The HTTP client that requests are sent through.
    pub fn client(&self) -> (client: &Client)
        ensures
            *client == self.held_client(),
    {
        &self.client
    }
}

/// The requests of the Bot API, each made by its `Bot`.
impl Bot {
    /// A request for what the service knows of this bot.
    pub fn get_me(&self) -> (request: GetMe<'_>)
        ensures
            request.session() == *self,
    {
        GetMe::new(self)
    }

    /// A request to send `text` to `chat_id`, with no optional parameter
    /// set.
    pub fn send_message<C>(&self, chat_id: C, text: &str) -> (request: SendMessage<'_>) where
        C: Into<ChatId>,

        ensures
            request.session() == *self,
            request@.text == text@,
            request@.disable_web_page_preview is None,
            request@.disable_notification is None,
            request@.reply_to_message_id is None,
            call_ensures(<C as Into<ChatId>>::into, (chat_id,), request@.chat_id),
            C::obeys_into_spec() ==> request@.chat_id == chat_id.into_spec(),
    {
        SendMessage::new(self, chat_id.into(), text.to_owned())
    }

    /// A request to remove `user_id` from `chat_id`, with no date set at
    /// which the ban ends.
    pub fn kick_chat_member<C>(&self, chat_id: C, user_id: i32) -> (request: KickChatMember<'_>) where
        C: Into<ChatId>,

        ensures
            request.session() == *self,
            request@.user_id == user_id,
            request@.until_date is None,
            call_ensures(<C as Into<ChatId>>::into, (chat_id,), request@.chat_id),
            C::obeys_into_spec() ==> request@.chat_id == chat_id.into_spec(),
    {
        KickChatMember::new(self, chat_id, user_id)
    }
}

} // verus!
