use vstd::prelude::*;
use vstd::std_specs::convert::IntoSpec;
use crate::bot::Bot;
use crate::requests::payload::{
    emitted, emitted_entries_are_set_params, emitted_one_more, entry, flag_datum, flag_value,
    integer_datum, integer_value, slots, Datum, Param, Value,
};
use crate::requests::Request;
use crate::types::chat_id::ChatId;
use crate::types::message::Message;

verus! {

/// Use this method to send text messages. On success, the sent `Message` is
/// returned.
///
/// [The official docs](https://core.telegram.org/bots/api#sendmessage).
#[derive(Debug, Clone)]
pub struct SendMessage<'a> {
    bot: &'a Bot,
    chat_id: ChatId,
    text: String,
    disable_web_page_preview: Option<bool>,
    disable_notification: Option<bool>,
    reply_to_message_id: Option<i32>,
}

/// What a `SendMessage` holds besides its `Bot`.
pub struct SendMessageView {
    pub chat_id: ChatId,
    pub text: Seq<char>,
    pub disable_web_page_preview: Option<bool>,
    pub disable_notification: Option<bool>,
    pub reply_to_message_id: Option<i32>,
}

impl SendMessageView {
    /// The request with `val` as its chat.
    pub open spec fn with_chat_id(self, val: ChatId) -> SendMessageView {
        SendMessageView { chat_id: val, ..self }
    }

    /// The request with `val` as its text.
    pub open spec fn with_text(self, val: Seq<char>) -> SendMessageView {
        SendMessageView { text: val, ..self }
    }

    /// The request with `disable_web_page_preview` set to `val`.
    pub open spec fn with_disable_web_page_preview(self, val: bool) -> SendMessageView {
        SendMessageView { disable_web_page_preview: Some(val), ..self }
    }

    /// The request with `disable_notification` set to `val`.
    pub open spec fn with_disable_notification(self, val: bool) -> SendMessageView {
        SendMessageView { disable_notification: Some(val), ..self }
    }

    /// The request with `reply_to_message_id` set to `val`.
    pub open spec fn with_reply_to_message_id(self, val: i32) -> SendMessageView {
        SendMessageView { reply_to_message_id: Some(val), ..self }
    }

    /// The parameters of the request: `chat_id` and `text`, which are always
    /// set, and the three that need not be.
    pub open spec fn params(self) -> Seq<(Seq<char>, Option<Datum>)> {
        seq![
            ("chat_id"@, Some(self.chat_id.datum())),
            ("text"@, Some(Datum::Text(self.text))),
            ("disable_web_page_preview"@, flag_datum(self.disable_web_page_preview)),
            ("disable_notification"@, flag_datum(self.disable_notification)),
            ("reply_to_message_id"@, integer_datum(self.reply_to_message_id)),
        ]
    }
}

/// A request is sent as its two required parameters, followed by those of
/// its optional parameters that are set, in the order `disable_web_page_preview`,
/// `disable_notification`, `reply_to_message_id`.
pub proof fn options_are_sent_where_set(request: SendMessageView)
    ensures
        emitted(request.params()) == seq![
            ("chat_id"@, request.chat_id.datum()),
            ("text"@, Datum::Text(request.text)),
        ] + entry(("disable_web_page_preview"@, flag_datum(request.disable_web_page_preview)))
            + entry(("disable_notification"@, flag_datum(request.disable_notification))) + entry(
            ("reply_to_message_id"@, integer_datum(request.reply_to_message_id)),
        ),
{
    let required = seq![
        ("chat_id"@, Some(request.chat_id.datum())),
        ("text"@, Some(Datum::Text(request.text))),
    ];
    let preview = ("disable_web_page_preview"@, flag_datum(request.disable_web_page_preview));
    let notification = ("disable_notification"@, flag_datum(request.disable_notification));
    let reply = ("reply_to_message_id"@, integer_datum(request.reply_to_message_id));
    assert(required.drop_last().drop_last() =~= Seq::empty());
    assert(emitted(required) =~= seq![
        ("chat_id"@, request.chat_id.datum()),
        ("text"@, Datum::Text(request.text)),
    ]) by {
        reveal_with_fuel(emitted, 3);
    }
    emitted_one_more(required, preview);
    emitted_one_more(required.push(preview), notification);
    emitted_one_more(required.push(preview).push(notification), reply);
    assert(request.params() =~= required.push(preview).push(notification).push(reply));
}

/// A request none of whose optional parameters was ever set is sent as its
/// two required parameters and nothing else.
pub proof fn unset_options_are_omitted(request: SendMessageView)
    requires
        request.disable_web_page_preview is None,
        request.disable_notification is None,
        request.reply_to_message_id is None,
    ensures
        emitted(request.params()) == seq![
            ("chat_id"@, request.chat_id.datum()),
            ("text"@, Datum::Text(request.text)),
        ],
{
    let params = request.params();
    assert(params.drop_last().drop_last().drop_last().drop_last().drop_last() =~= Seq::empty());
    reveal_with_fuel(emitted, 6);
    assert(emitted(params) =~= seq![
        ("chat_id"@, request.chat_id.datum()),
        ("text"@, Datum::Text(request.text)),
    ]);
}

/// Setting `disable_web_page_preview` a second time leaves the request as if
/// only the second value had been set, and that value is sent.
pub proof fn disable_web_page_preview_last_write_wins(
    request: SendMessageView,
    first: bool,
    second: bool,
)
    ensures
        request.with_disable_web_page_preview(first).with_disable_web_page_preview(second)
            == request.with_disable_web_page_preview(second),
        emitted(
            request.with_disable_web_page_preview(first).with_disable_web_page_preview(
                second,
            ).params(),
        ).contains(("disable_web_page_preview"@, Datum::Flag(second))),
{
    let params = request.with_disable_web_page_preview(second).params();
    assert(params[2] == ("disable_web_page_preview"@, Some(Datum::Flag(second))));
    emitted_entries_are_set_params(params, "disable_web_page_preview"@, Datum::Flag(second));
}

/// Setting `disable_notification` a second time leaves the request as if
/// only the second value had been set, and that value is sent.
pub proof fn disable_notification_last_write_wins(
    request: SendMessageView,
    first: bool,
    second: bool,
)
    ensures
        request.with_disable_notification(first).with_disable_notification(second)
            == request.with_disable_notification(second),
        emitted(
            request.with_disable_notification(first).with_disable_notification(second).params(),
        ).contains(("disable_notification"@, Datum::Flag(second))),
{
    let params = request.with_disable_notification(second).params();
    assert(params[3] == ("disable_notification"@, Some(Datum::Flag(second))));
    emitted_entries_are_set_params(params, "disable_notification"@, Datum::Flag(second));
}

/// Setting `reply_to_message_id` a second time leaves the request as if only
/// the second value had been set, and that value is sent.
pub proof fn reply_to_message_id_last_write_wins(request: SendMessageView, first: i32, second: i32)
    ensures
        request.with_reply_to_message_id(first).with_reply_to_message_id(second)
            == request.with_reply_to_message_id(second),
        emitted(
            request.with_reply_to_message_id(first).with_reply_to_message_id(second).params(),
        ).contains(("reply_to_message_id"@, Datum::Integer(second as int))),
{
    let params = request.with_reply_to_message_id(second).params();
    assert(params[4] == ("reply_to_message_id"@, Some(Datum::Integer(second as int))));
    emitted_entries_are_set_params(
        params,
        "reply_to_message_id"@,
        Datum::Integer(second as int),
    );
}

impl<'a> View for SendMessage<'a> {
    type V = SendMessageView;

    closed spec fn view(&self) -> SendMessageView {
        SendMessageView {
            chat_id: self.chat_id,
            text: self.text@,
            disable_web_page_preview: self.disable_web_page_preview,
            disable_notification: self.disable_notification,
            reply_to_message_id: self.reply_to_message_id,
        }
    }
}

impl<'a> Request for SendMessage<'a> {
    type Output = Message;

    closed spec fn session(&self) -> Bot {
        *self.bot
    }

    open spec fn method(&self) -> Seq<char> {
        "sendMessage"@
    }

    open spec fn params_spec(&self) -> Seq<(Seq<char>, Option<Datum>)> {
        self@.params()
    }

    fn bot(&self) -> (bot: &Bot) {
        self.bot
    }

    fn name(&self) -> (name: &'static str) {
        "sendMessage"
    }

    fn params(&self) -> (params: Vec<Param>) {
        let mut params: Vec<Param> = Vec::new();
        params.push(Param { name: "chat_id", value: Some(self.chat_id.to_value()) });
        params.push(Param { name: "text", value: Some(Value::Text(self.text.clone())) });
        params.push(
            Param {
                name: "disable_web_page_preview",
                value: flag_value(self.disable_web_page_preview),
            },
        );
        params.push(
            Param { name: "disable_notification", value: flag_value(self.disable_notification) },
        );
        params.push(
            Param { name: "reply_to_message_id", value: integer_value(self.reply_to_message_id) },
        );
        assert(slots(params@) =~= self@.params());
        params
    }
}

impl<'a> SendMessage<'a> {
    /// The request to send `text` to `chat_id`, with no optional parameter
    /// set.
    pub(crate) fn new(bot: &'a Bot, chat_id: ChatId, text: String) -> (request: Self)
        ensures
            request.session() == *bot,
            request@ == (SendMessageView {
                chat_id,
                text: text@,
                disable_web_page_preview: None,
                disable_notification: None,
                reply_to_message_id: None,
            }),
    {
        Self {
            bot,
            chat_id,
            text,
            disable_web_page_preview: None,
            disable_notification: None,
            reply_to_message_id: None,
        }
    }

    /// Unique identifier for the target chat or username of the target
    /// channel (in the format `@channelusername`).
    ///
    /// The chat of the request becomes what `val` converts to: `ChatId::Id`
    /// of a number, `ChatId::ChannelUsername` of a `String`.
    pub fn chat_id<T>(self, val: T) -> (request: Self) where T: Into<ChatId>
        ensures
            request.session() == self.session(),
            request@ == self@.with_chat_id(request@.chat_id),
            call_ensures(<T as Into<ChatId>>::into, (val,), request@.chat_id),
            T::obeys_into_spec() ==> request@.chat_id == val.into_spec(),
    {
        let mut request = self;
        request.chat_id = val.into();
        request
    }

    /// Text of the message to be sent.
    pub fn text(self, val: &str) -> (request: Self)
        ensures
            request.session() == self.session(),
            request@ == self@.with_text(val@),
    {
        let mut request = self;
        request.text = val.to_owned();
        request
    }

    /// Disables link previews for links in this message.
    pub fn disable_web_page_preview(self, val: bool) -> (request: Self)
        ensures
            request.session() == self.session(),
            request@ == self@.with_disable_web_page_preview(val),
    {
        let mut request = self;
        request.disable_web_page_preview = Some(val);
        request
    }

    /// Sends the message silently. Users will receive a notification with no
    /// sound.
    pub fn disable_notification(self, val: bool) -> (request: Self)
        ensures
            request.session() == self.session(),
            request@ == self@.with_disable_notification(val),
    {
        let mut request = self;
        request.disable_notification = Some(val);
        request
    }

    /// If the message is a reply, ID of the original message.
    pub fn reply_to_message_id(self, val: i32) -> (request: Self)
        ensures
            request.session() == self.session(),
            request@ == self@.with_reply_to_message_id(val),
    {
        let mut request = self;
        request.reply_to_message_id = Some(val);
        request
    }
}

} // verus!
