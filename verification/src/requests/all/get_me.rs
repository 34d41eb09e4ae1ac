use vstd::prelude::*;
use crate::bot::Bot;
use crate::requests::payload::{slots, Datum, Param};
use crate::requests::Request;
use crate::types::user::User;

verus! {

/// A simple method for testing your bot's auth token. Requires no
/// parameters. Returns basic information about the bot in form of a `User`.
///
/// [The official docs](https://core.telegram.org/bots/api#getme).
#[derive(Debug, Clone, Copy)]
pub struct GetMe<'a> {
    bot: &'a Bot,
}

impl<'a> Request for GetMe<'a> {
    type Output = User;

    closed spec fn session(&self) -> Bot {
        *self.bot
    }

    open spec fn method(&self) -> Seq<char> {
        "getMe"@
    }

    open spec fn params_spec(&self) -> Seq<(Seq<char>, Option<Datum>)> {
        Seq::empty()
    }

    fn bot(&self) -> (bot: &Bot) {
        self.bot
    }

    fn name(&self) -> (name: &'static str) {
        "getMe"
    }

    fn params(&self) -> (params: Vec<Param>) {
        let params: Vec<Param> = Vec::new();
        assert(slots(params@) =~= Seq::empty());
        params
    }
}

impl<'a> GetMe<'a> {
    /// The request for what the service knows of `bot`.
    pub(crate) fn new(bot: &'a Bot) -> (request: Self)
        ensures
            request.session() == *bot,
    {
        Self { bot }
    }
}

} // verus!
