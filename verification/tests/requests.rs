use teloxide::net::{method_url, prepare, TELEGRAM_API_URL};
use teloxide::requests::payload::{emit, Field, Param, Value};
use teloxide::requests::Request;
use teloxide::types::ChatId;
use teloxide::Bot;

fn a_bot(token: &str) -> Bot {
    Bot::try_new(token).expect("reqwest can make a client on this machine")
}

fn field(name: &'static str, value: Value) -> Field {
    Field { name, value }
}

fn keys(body: &[Field]) -> Vec<&'static str> {
    body.iter().map(|field| field.name).collect()
}

#[test]
fn method_url_joins_base_token_and_method() {
    assert_eq!(
        method_url("https://api.telegram.org", "535362388:AAF7-g0gYncWnm5IyfZlpPRqRRv6kNAGlao", "methodName"),
        "https://api.telegram.org/bot535362388:AAF7-g0gYncWnm5IyfZlpPRqRRv6kNAGlao/methodName"
    );
    assert_eq!(method_url("http://localhost:8080", "t", "getMe"), "http://localhost:8080/bott/getMe");
    assert_eq!(method_url("", "", ""), "/bot/");
}

#[test]
fn the_api_is_served_over_https() {
    assert_eq!(TELEGRAM_API_URL, "https://api.telegram.org");
}

#[test]
fn a_fresh_kick_chat_member_sends_its_required_parameters_only() {
    let bot = a_bot("token");
    let request = bot.kick_chat_member(-1001234567890i64, 42);

    let call = prepare(&request);
    assert_eq!(call.url, "https://api.telegram.org/bottoken/kickChatMember");
    assert_eq!(
        call.body,
        vec![field("chat_id", Value::Integer(-1001234567890)), field("user_id", Value::Integer(42))]
    );
    assert_eq!(keys(&call.body), vec!["chat_id", "user_id"]);
}

#[test]
fn a_fresh_kick_chat_member_lists_until_date_as_unset() {
    let bot = a_bot("token");
    let request = bot.kick_chat_member(5i64, 42);

    assert_eq!(request.name(), "kickChatMember");
    assert_eq!(
        request.params(),
        vec![
            Param { name: "chat_id", value: Some(Value::Integer(5)) },
            Param { name: "user_id", value: Some(Value::Integer(42)) },
            Param { name: "until_date", value: None },
        ]
    );
    assert!(std::ptr::eq(request.bot(), &bot));
}

#[test]
fn until_date_is_sent_once_it_is_set() {
    let bot = a_bot("token");
    let request = bot.kick_chat_member(5i64, 42).until_date(1_600_000_000);

    assert_eq!(
        prepare(&request).body,
        vec![
            field("chat_id", Value::Integer(5)),
            field("user_id", Value::Integer(42)),
            field("until_date", Value::Integer(1_600_000_000)),
        ]
    );
}

#[test]
fn until_date_set_twice_sends_the_second_date() {
    let bot = a_bot("token");
    let twice = bot.kick_chat_member(5i64, 42).until_date(100).until_date(200);
    let once = bot.kick_chat_member(5i64, 42).until_date(200);

    assert_eq!(prepare(&twice).body, prepare(&once).body);
    assert_eq!(prepare(&twice).body[2], field("until_date", Value::Integer(200)));
    assert_eq!(prepare(&twice).body.len(), 3);
}

#[test]
fn until_date_is_passed_on_whatever_it_is() {
    let bot = a_bot("token");
    for date in [i32::MIN, -1, 0, 29, i32::MAX] {
        let request = bot.kick_chat_member(5i64, 42).until_date(date);
        assert_eq!(prepare(&request).body[2], field("until_date", Value::Integer(date as i64)));
    }
}

#[test]
fn required_parameters_can_be_set_again() {
    let bot = a_bot("token");
    let request = bot
        .kick_chat_member(5i64, 42)
        .chat_id(6i64)
        .user_id(43)
        .chat_id("@channelusername".to_string())
        .user_id(44);

    assert_eq!(
        prepare(&request).body,
        vec![
            field("chat_id", Value::Text("@channelusername".to_string())),
            field("user_id", Value::Integer(44)),
        ]
    );
}

#[test]
fn setting_one_parameter_leaves_the_others() {
    let bot = a_bot("token");
    let request = bot.kick_chat_member(5i64, 42).until_date(9).chat_id(6i64).user_id(i32::MIN);

    assert_eq!(
        prepare(&request).body,
        vec![
            field("chat_id", Value::Integer(6)),
            field("user_id", Value::Integer(i32::MIN as i64)),
            field("until_date", Value::Integer(9)),
        ]
    );
    assert!(std::ptr::eq(request.bot(), &bot));
}

#[test]
fn a_chat_is_named_by_number_or_by_username() {
    let bot = a_bot("token");

    let by_number = bot.kick_chat_member(i64::MIN, 1);
    assert_eq!(prepare(&by_number).body[0], field("chat_id", Value::Integer(i64::MIN)));

    let by_name = bot.kick_chat_member("@rust".to_string(), 1);
    assert_eq!(prepare(&by_name).body[0], field("chat_id", Value::Text("@rust".to_string())));

    let by_chat_id = bot.kick_chat_member(ChatId::Id(3), 1);
    assert_eq!(prepare(&by_chat_id).body[0], field("chat_id", Value::Integer(3)));
}

#[test]
fn a_fresh_send_message_sends_its_required_parameters_only() {
    let bot = a_bot("123:abc");
    let request = bot.send_message(5i64, "hello");

    let call = prepare(&request);
    assert_eq!(call.url, "https://api.telegram.org/bot123:abc/sendMessage");
    assert_eq!(
        call.body,
        vec![field("chat_id", Value::Integer(5)), field("text", Value::Text("hello".to_string()))]
    );
    assert_eq!(request.name(), "sendMessage");
    assert_eq!(request.params().len(), 5);
}

#[test]
fn send_message_sends_the_options_that_are_set() {
    let bot = a_bot("token");
    let request = bot
        .send_message("@rust".to_string(), "hello")
        .disable_notification(true)
        .reply_to_message_id(77);

    assert_eq!(
        prepare(&request).body,
        vec![
            field("chat_id", Value::Text("@rust".to_string())),
            field("text", Value::Text("hello".to_string())),
            field("disable_notification", Value::Flag(true)),
            field("reply_to_message_id", Value::Integer(77)),
        ]
    );

    let all = request.disable_web_page_preview(false);
    assert_eq!(
        keys(&prepare(&all).body),
        vec!["chat_id", "text", "disable_web_page_preview", "disable_notification", "reply_to_message_id"]
    );
    assert_eq!(prepare(&all).body[2], field("disable_web_page_preview", Value::Flag(false)));
}

#[test]
fn send_message_options_set_twice_send_the_second_value() {
    let bot = a_bot("token");
    let request = bot
        .send_message(5i64, "first")
        .text("second")
        .chat_id(6i64)
        .disable_web_page_preview(true)
        .disable_web_page_preview(false)
        .disable_notification(false)
        .disable_notification(true)
        .reply_to_message_id(1)
        .reply_to_message_id(2);

    assert_eq!(
        prepare(&request).body,
        vec![
            field("chat_id", Value::Integer(6)),
            field("text", Value::Text("second".to_string())),
            field("disable_web_page_preview", Value::Flag(false)),
            field("disable_notification", Value::Flag(true)),
            field("reply_to_message_id", Value::Integer(2)),
        ]
    );
}

#[test]
fn get_me_has_no_parameters() {
    let bot = a_bot("token");
    let request = bot.get_me();

    let call = prepare(&request);
    assert_eq!(call.url, "https://api.telegram.org/bottoken/getMe");
    assert!(call.body.is_empty());
    assert_eq!(request.name(), "getMe");
    assert!(request.params().is_empty());
    assert!(std::ptr::eq(request.bot(), &bot));
}

#[test]
fn a_request_can_be_prepared_more_than_once() {
    let bot = a_bot("token");
    let request = bot.kick_chat_member(5i64, 42).until_date(9);

    assert_eq!(prepare(&request), prepare(&request));
}

#[test]
fn emit_keeps_what_is_set_in_its_order() {
    let params = vec![
        Param { name: "a", value: None },
        Param { name: "b", value: Some(Value::Integer(1)) },
        Param { name: "c", value: None },
        Param { name: "d", value: Some(Value::Text("x".to_string())) },
        Param { name: "e", value: Some(Value::Flag(false)) },
        Param { name: "f", value: None },
    ];

    assert_eq!(
        emit(params),
        vec![
            field("b", Value::Integer(1)),
            field("d", Value::Text("x".to_string())),
            field("e", Value::Flag(false)),
        ]
    );
}

#[test]
fn emit_of_nothing_set_is_empty() {
    assert_eq!(emit(Vec::new()), Vec::<Field>::new());
    assert_eq!(
        emit(vec![Param { name: "a", value: None }, Param { name: "b", value: None }]),
        Vec::<Field>::new()
    );
}

#[test]
fn emit_does_not_merge_parameters_of_one_name() {
    let params = vec![
        Param { name: "a", value: Some(Value::Integer(1)) },
        Param { name: "a", value: None },
        Param { name: "a", value: Some(Value::Integer(2)) },
    ];

    assert_eq!(emit(params), vec![field("a", Value::Integer(1)), field("a", Value::Integer(2))]);
}
