use teloxide::contrib::managers::{StaticCommandParser, StaticCommandParserBuilder};
use teloxide::contrib::parser::{parse_first, DataWithUWC, Parser};
use teloxide::dispatching::UpdateWithCx;
use teloxide::types::Message;
use teloxide::Bot;

fn a_bot(token: &str) -> Bot {
    Bot::try_new(token).expect("reqwest can make a client on this machine")
}

fn message(text: Option<&str>) -> Message {
    Message { id: 7, date: 1_569_518_829, text: text.map(|t| t.to_string()) }
}

fn commands(names: &[&str]) -> Vec<StaticCommandParser> {
    names.iter().map(|name| StaticCommandParserBuilder::new(name).build()).collect()
}

/// The matchers tried one after the other by hand, each on what the one
/// before returned.
fn by_hand<'a>(
    parsers: &[StaticCommandParser],
    cx: UpdateWithCx<'a, Message>,
) -> Result<(usize, DataWithUWC<'a, (), Message>), UpdateWithCx<'a, Message>> {
    let mut cx = cx;
    for (at, parser) in parsers.iter().enumerate() {
        match parser.parse(cx) {
            Ok(found) => return Ok((at, found)),
            Err(back) => cx = back,
        }
    }
    Err(cx)
}

#[test]
fn the_first_matcher_that_recognises_the_update_wins() {
    let bot = a_bot("token");
    let parsers = commands(&["start", "help", "stop"]);

    let cx = UpdateWithCx { bot: &bot, update: message(Some("/help")) };
    let (at, found) = parse_first(&parsers, cx).expect("the second matcher looks for /help");
    assert_eq!(at, 1);
    assert_eq!(found.data, ());
    assert_eq!(found.uwc.update, message(Some("/help")));
    assert!(std::ptr::eq(found.uwc.bot, &bot));
}

#[test]
fn of_two_matchers_for_one_command_the_earlier_wins() {
    let bot = a_bot("token");
    let parsers = commands(&["help", "start", "start"]);

    let cx = UpdateWithCx { bot: &bot, update: message(Some("/start")) };
    let (at, _) = parse_first(&parsers, cx).expect("two matchers look for /start");
    assert_eq!(at, 1);
}

#[test]
fn the_order_of_the_matchers_decides() {
    let bot = a_bot("token");
    let forward = commands(&["start", "help"]);
    let backward = commands(&["help", "start"]);

    let at_forward = parse_first(&forward, UpdateWithCx { bot: &bot, update: message(Some("/help")) })
        .map(|(at, _)| at)
        .ok();
    let at_backward = parse_first(&backward, UpdateWithCx { bot: &bot, update: message(Some("/help")) })
        .map(|(at, _)| at)
        .ok();
    assert_eq!(at_forward, Some(1));
    assert_eq!(at_backward, Some(0));
}

#[test]
fn when_no_matcher_recognises_the_update_the_context_comes_back() {
    let bot = a_bot("token");
    let parsers = commands(&["start", "help", "stop"]);

    let cx = UpdateWithCx { bot: &bot, update: message(Some("/settings")) };
    let back = parse_first(&parsers, cx).expect_err("no matcher looks for /settings");
    assert_eq!(back.update, message(Some("/settings")));
    assert!(std::ptr::eq(back.bot, &bot));
}

#[test]
fn a_message_without_text_passes_every_matcher() {
    let bot = a_bot("token");
    let parsers = commands(&["start", "help"]);

    let cx = UpdateWithCx { bot: &bot, update: message(None) };
    let back = parse_first(&parsers, cx).expect_err("there is no text");
    assert_eq!(back.update, message(None));
}

#[test]
fn an_empty_list_hands_the_context_back() {
    let bot = a_bot("token");
    let parsers: Vec<StaticCommandParser> = Vec::new();

    let cx = UpdateWithCx { bot: &bot, update: message(Some("/start")) };
    let back = parse_first(&parsers, cx).expect_err("there is no matcher");
    assert_eq!(back.update, message(Some("/start")));
    assert!(std::ptr::eq(back.bot, &bot));
}

#[test]
fn the_chain_does_what_trying_by_hand_does() {
    let bot = a_bot("token");
    let lists: [&[&str]; 5] =
        [&[], &["start"], &["start", "help"], &["help", "help", "start"], &["a", "b", "c", "start"]];
    let texts = [Some("/start"), Some("/help"), Some("/c"), Some("start"), Some(""), None];

    for names in lists {
        let parsers = commands(names);
        for text in texts {
            let chained = parse_first(&parsers, UpdateWithCx { bot: &bot, update: message(text) });
            let stepped = by_hand(&parsers, UpdateWithCx { bot: &bot, update: message(text) });
            match (chained, stepped) {
                (Ok((at, found)), Ok((at_by_hand, found_by_hand))) => {
                    assert_eq!(at, at_by_hand);
                    assert_eq!(found.uwc.update, found_by_hand.uwc.update);
                    let scanned = names.iter().position(|name| Some(format!("/{}", name).as_str()) == text);
                    assert_eq!(Some(at), scanned);
                }
                (Err(back), Err(back_by_hand)) => {
                    assert_eq!(back.update, back_by_hand.update);
                    assert_eq!(back.update, message(text));
                    assert!(names.iter().all(|name| Some(format!("/{}", name).as_str()) != text));
                }
                _ => panic!("the chain and the steps by hand disagree on {:?} with {:?}", text, names),
            }
        }
    }
}
