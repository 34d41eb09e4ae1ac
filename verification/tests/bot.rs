use teloxide::requests::Request;
use teloxide::types::{ChatId, Document, Message, OrderInfo, PhotoSize, ShippingAddress};
use teloxide::requests::payload::Value;
use teloxide::Bot;

fn a_bot(token: &str) -> Bot {
    Bot::try_new(token).expect("reqwest can make a client on this machine")
}

#[test]
fn try_new_keeps_the_token() {
    let bot = Bot::try_new("535362388:AAF7-g0gYncWnm5IyfZlpPRqRRv6kNAGlao")
        .expect("reqwest can make a client on this machine");
    assert_eq!(bot.token(), "535362388:AAF7-g0gYncWnm5IyfZlpPRqRRv6kNAGlao");
    assert_eq!(a_bot("").token(), "");
}

#[test]
fn with_client_keeps_the_token_and_takes_the_client() {
    let client = reqwest::Client::new();
    let bot = Bot::with_client("token", client);
    assert_eq!(bot.token(), "token");
    let _: &reqwest::Client = bot.client();
}

#[test]
fn every_request_borrows_the_bot_that_made_it() {
    let bot = a_bot("token");
    let other = a_bot("token");

    assert!(std::ptr::eq(bot.get_me().bot(), &bot));
    assert!(std::ptr::eq(bot.send_message(1i64, "hi").bot(), &bot));
    assert!(std::ptr::eq(bot.kick_chat_member(1i64, 2).bot(), &bot));
    assert!(!std::ptr::eq(other.get_me().bot(), &bot));
}

#[test]
fn one_bot_makes_many_requests() {
    let bot = a_bot("token");
    let first = bot.kick_chat_member(1i64, 2);
    let second = bot.send_message(3i64, "hi");
    let third = bot.get_me();

    assert_eq!(first.name(), "kickChatMember");
    assert_eq!(second.name(), "sendMessage");
    assert_eq!(third.name(), "getMe");
    assert_eq!(bot.token(), "token");
}

#[test]
fn a_chat_id_is_made_from_a_number_or_a_username() {
    assert_eq!(ChatId::from(-5i64), ChatId::Id(-5));
    assert_eq!(ChatId::from("@rust".to_string()), ChatId::ChannelUsername("@rust".to_string()));
    let converted: ChatId = 7i64.into();
    assert_eq!(converted, ChatId::Id(7));
}

#[test]
fn a_chat_id_is_sent_as_a_number_or_as_text() {
    assert_eq!(ChatId::Id(i64::MAX).to_value(), Value::Integer(i64::MAX));
    assert_eq!(ChatId::ChannelUsername("@rust".to_string()).to_value(), Value::Text("@rust".to_string()));
    assert_eq!(ChatId::ChannelUsername(String::new()).to_value(), Value::Text(String::new()));
}

#[test]
fn a_message_may_have_a_text() {
    let with_text = Message { id: 1, date: 2, text: Some("/start".to_string()) };
    assert_eq!(with_text.text(), Some("/start"));

    let without = Message { id: 1, date: 2, text: None };
    assert_eq!(without.text(), None);

    let empty = Message { id: 1, date: 2, text: Some(String::new()) };
    assert_eq!(empty.text(), Some(""));
}

#[test]
fn records_compare_field_by_field() {
    let thumb = PhotoSize { file_id: "t".to_string(), width: 90, height: 60, file_size: Some(1024) };
    let document = Document {
        file_id: "d".to_string(),
        thumb: Some(thumb.clone()),
        file_name: Some("report.pdf".to_string()),
        mime_type: None,
        file_size: Some(4096),
    };
    assert_eq!(document, document.clone());
    assert_ne!(document, Document { thumb: None, ..document.clone() });
    assert_ne!(document, Document { file_size: None, ..document.clone() });

    let address = ShippingAddress {
        country_code: "DE".to_string(),
        state: String::new(),
        city: "Berlin".to_string(),
        street_line1: "Unter den Linden 1".to_string(),
        street_line2: String::new(),
        post_code: "10117".to_string(),
    };
    let order = OrderInfo {
        name: "A. Customer".to_string(),
        phone_number: "+49 30 000000".to_string(),
        email: "customer@example.org".to_string(),
        shipping_address: address.clone(),
    };
    assert_eq!(order, order.clone());
    assert_ne!(
        order,
        OrderInfo {
            shipping_address: ShippingAddress { city: "Bonn".to_string(), ..address },
            ..order.clone()
        }
    );
}
