use vstd::prelude::*;
use vstd::std_specs::convert::IntoSpec;
use crate::bot::Bot;
use crate::requests::payload::{
    emitted, integer_datum, integer_value, slots, Datum, Param, Value,
};
use crate::requests::Request;
use crate::types::chat_id::ChatId;
use crate::types::unit_true::True;

verus! {

/// Use this method to kick a user from a group, a supergroup or a channel.
///
/// In the case of supergroups and channels, the user will not be able to return
/// to the group on their own using invite links, etc., unless unbanned first.
/// The bot must be an administrator in the chat for this to work and must have
/// the appropriate admin rights.
///
/// [The official docs](https://core.telegram.org/bots/api#kickchatmember).
#[derive(Debug, Clone)]
pub struct KickChatMember<'a> {
    bot: &'a Bot,
    chat_id: ChatId,
    user_id: i32,
    until_date: Option<i32>,
}

/// What a `KickChatMember` holds besides its `Bot`.
pub struct KickChatMemberView {
    pub chat_id: ChatId,
    pub user_id: i32,
    pub until_date: Option<i32>,
}

impl KickChatMemberView {
    /// The request with `val` as its chat.
    pub open spec fn with_chat_id(self, val: ChatId) -> KickChatMemberView {
        KickChatMemberView { chat_id: val, ..self }
    }

    /// The request with `val` as its user.
    pub open spec fn with_user_id(self, val: i32) -> KickChatMemberView {
        KickChatMemberView { user_id: val, ..self }
    }

    /// The request with `until_date` set to `val`.
    pub open spec fn with_until_date(self, val: i32) -> KickChatMemberView {
        KickChatMemberView { until_date: Some(val), ..self }
    }

    /// The parameters of the request: `chat_id` and `user_id`, which are
    /// always set, and `until_date`.
    pub open spec fn params(self) -> Seq<(Seq<char>, Option<Datum>)> {
        seq![
            ("chat_id"@, Some(self.chat_id.datum())),
            ("user_id"@, Some(Datum::Integer(self.user_id as int))),
            ("until_date"@, integer_datum(self.until_date)),
        ]
    }
}

/// A request whose `until_date` was never set is sent as its two required
/// parameters and nothing else.
pub proof fn unset_until_date_is_omitted(request: KickChatMemberView)
    requires
        request.until_date is None,
    ensures
        emitted(request.params()) == seq![
            ("chat_id"@, request.chat_id.datum()),
            ("user_id"@, Datum::Integer(request.user_id as int)),
        ],
{
    let params = request.params();
    assert(params.drop_last().drop_last().drop_last() =~= Seq::empty());
    reveal_with_fuel(emitted, 4);
    assert(emitted(params) =~= seq![
        ("chat_id"@, request.chat_id.datum()),
        ("user_id"@, Datum::Integer(request.user_id as int)),
    ]);
}

/// A request whose `until_date` is set is sent with that date after its two
/// required parameters.
pub proof fn set_until_date_is_sent(request: KickChatMemberView)
    requires
        request.until_date is Some,
    ensures
        emitted(request.params()) == seq![
            ("chat_id"@, request.chat_id.datum()),
            ("user_id"@, Datum::Integer(request.user_id as int)),
            ("until_date"@, Datum::Integer(request.until_date->0 as int)),
        ],
{
    let params = request.params();
    assert(params.drop_last().drop_last().drop_last() =~= Seq::empty());
    reveal_with_fuel(emitted, 4);
    assert(emitted(params) =~= seq![
        ("chat_id"@, request.chat_id.datum()),
        ("user_id"@, Datum::Integer(request.user_id as int)),
        ("until_date"@, Datum::Integer(request.until_date->0 as int)),
    ]);
}

/// Setting `until_date` a second time leaves the request as if only the
/// second date had been set, and that date is the one that is sent.
pub proof fn until_date_last_write_wins(request: KickChatMemberView, first: i32, second: i32)
    ensures
        request.with_until_date(first).with_until_date(second) == request.with_until_date(second),
        emitted(request.with_until_date(first).with_until_date(second).params()) == seq![
            ("chat_id"@, request.chat_id.datum()),
            ("user_id"@, Datum::Integer(request.user_id as int)),
            ("until_date"@, Datum::Integer(second as int)),
        ],
{
    set_until_date_is_sent(request.with_until_date(second));
}

/// Setting `chat_id` or `user_id` a second time leaves the request as if
/// only the second value had been set.
pub proof fn required_params_last_write_wins(
    request: KickChatMemberView,
    first_chat: ChatId,
    second_chat: ChatId,
    first_user: i32,
    second_user: i32,
)
    ensures
        request.with_chat_id(first_chat).with_chat_id(second_chat) == request.with_chat_id(
            second_chat,
        ),
        request.with_user_id(first_user).with_user_id(second_user) == request.with_user_id(
            second_user,
        ),
{
}

impl<'a> View for KickChatMember<'a> {
    type V = KickChatMemberView;

    closed spec fn view(&self) -> KickChatMemberView {
        KickChatMemberView {
            chat_id: self.chat_id,
            user_id: self.user_id,
            until_date: self.until_date,
        }
    }
}

impl<'a> Request for KickChatMember<'a> {
    type Output = True;

    closed spec fn session(&self) -> Bot {
        *self.bot
    }

    open spec fn method(&self) -> Seq<char> {
        "kickChatMember"@
    }

    open spec fn params_spec(&self) -> Seq<(Seq<char>, Option<Datum>)> {
        self@.params()
    }

    fn bot(&self) -> (bot: &Bot) {
        self.bot
    }

    fn name(&self) -> (name: &'static str) {
        "kickChatMember"
    }

    fn params(&self) -> (params: Vec<Param>) {
        let mut params: Vec<Param> = Vec::new();
        params.push(Param { name: "chat_id", value: Some(self.chat_id.to_value()) });
        params.push(Param { name: "user_id", value: Some(Value::Integer(self.user_id as i64)) });
        params.push(Param { name: "until_date", value: integer_value(self.until_date) });
        assert(slots(params@) =~= self@.params());
        params
    }
}

impl<'a> KickChatMember<'a> {
    /// The request to remove `user_id` from `chat_id`, with no date set at
    /// which the ban ends.
    pub(crate) fn new<C>(bot: &'a Bot, chat_id: C, user_id: i32) -> (request: Self) where
        C: Into<ChatId>,

        ensures
            request.session() == *bot,
            request@.user_id == user_id,
            request@.until_date is None,
            call_ensures(<C as Into<ChatId>>::into, (chat_id,), request@.chat_id),
            C::obeys_into_spec() ==> request@.chat_id == chat_id.into_spec(),
    {
        let chat_id = chat_id.into();
        Self { bot, chat_id, user_id, until_date: None }
    }

    /// Unique identifier for the target group or username of the target
    /// supergroup or channel (in the format `@channelusername`).
    ///
    /// The chat of the request becomes what `val` converts to: `ChatId::Id`
    /// of a number, `ChatId::ChannelUsername` of a `String`.
    pub fn chat_id<T>(self, val: T) -> (request: Self) where T: Into<ChatId>
        ensures
            request.session() == self.session(),
            request@ == self@.with_chat_id(request@.chat_id),
            call_ensures(<T as Into<ChatId>>::into, (val,), request@.chat_id),
            T::obeys_into_spec() ==> request@.chat_id == val.into_spec(),
    {
        let mut request = self;
        request.chat_id = val.into();
        request
    }

    /// Unique identifier of the target user.
    pub fn user_id(self, val: i32) -> (request: Self)
        ensures
            request.session() == self.session(),
            request@ == self@.with_user_id(val),
    {
        let mut request = self;
        request.user_id = val;
        request
    }

    /// Date when the user will be unbanned, unix time.
    ///
    /// If user is banned for more than 366 days or less than 30 seconds from
    /// the current time they are considered to be banned forever.
    pub fn until_date(self, val: i32) -> (request: Self)
        ensures
            request.session() == self.session(),
            request@ == self@.with_until_date(val),
    {
        let mut request = self;
        request.until_date = Some(val);
        request
    }
}

} // verus!
