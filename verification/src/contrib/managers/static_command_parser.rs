use vstd::prelude::*;
use vstd::string::*;
use crate::contrib::parser::{DataWithUWC, Parser};
use crate::dispatching::UpdateWithCx;
use crate::types::message::Message;

verus! {

/// The prefix of a command for which none was chosen.
pub const DEFAULT_PREFIX: &'static str = "/";

/// Makes a `StaticCommandParser` from the bare name of a command and,
/// optionally, a prefix other than `/`.
pub struct StaticCommandParserBuilder {
    prefix: Option<String>,
    command: String,
}

/// What a `StaticCommandParserBuilder` has been given.
pub struct StaticCommandParserBuilderView {
    pub prefix: Option<Seq<char>>,
    pub command: Seq<char>,
}

impl StaticCommandParserBuilderView {
    /// The text that the matcher will look for: the prefix, or `/` where
    /// none was chosen, and then the command.
    pub open spec fn literal(self) -> Seq<char> {
        match self.prefix {
            Some(prefix) => prefix + self.command,
            None => DEFAULT_PREFIX@ + self.command,
        }
    }
}

/// Builders that were given the same command and the same prefix build
/// matchers that look for the same text, however often that is done.
pub proof fn build_is_repeatable(
    first: StaticCommandParserBuilderView,
    second: StaticCommandParserBuilderView,
)
    requires
        first.command == second.command,
        first.prefix == second.prefix,
    ensures
        first.literal() == second.literal(),
{
}

impl View for StaticCommandParserBuilder {
    type V = StaticCommandParserBuilderView;

    closed spec fn view(&self) -> StaticCommandParserBuilderView {
        StaticCommandParserBuilderView {
            prefix: match self.prefix {
                Some(prefix) => Some(prefix@),
                None => None,
            },
            command: self.command@,
        }
    }
}

impl StaticCommandParserBuilder {
    /// A builder for the command `command`, given without its prefix.
    pub fn new(command: &str) -> (builder: StaticCommandParserBuilder)
        ensures
            builder@ == (StaticCommandParserBuilderView { prefix: None, command: command@ }),
    {
        Self { prefix: None, command: command.to_owned() }
    }

    /// Chooses `prefix` in place of `/`, or of a prefix chosen before.
    pub fn prefix(self, prefix: &str) -> (builder: Self)
        ensures
            builder@ == (StaticCommandParserBuilderView {
                prefix: Some(prefix@),
                command: self@.command,
            }),
    {
        let mut builder = self;
        builder.prefix = Some(prefix.to_owned());
        builder
    }

    /// The matcher for the prefix followed by the command.
    pub fn build(self) -> (parser: StaticCommandParser)
        ensures
            parser@ == self@.literal(),
    {
        let prefix = match self.prefix {
            Some(p) => p,
            None => DEFAULT_PREFIX.to_owned(),
        };
        StaticCommandParser { command: prefix.concat(self.command.as_str()) }
    }
}

/// Represents a parser for static bot commands. Static means without args. It
/// may be, for example, `/start`, `/help` commands.
#[derive(Debug)]
pub struct StaticCommandParser {
    command: String,
}

impl View for StaticCommandParser {
    type V = Seq<char>;

    /// The text that the matcher looks for.
    closed spec fn view(&self) -> Seq<char> {
        self.command@
    }
}

impl StaticCommandParser {
    /// The matcher for `command`, taken whole: a prefix is part of it.
    pub fn init(command: &str) -> (parser: Self)
        ensures
            parser@ == command@,
    {
        Self { command: command.to_owned() }
    }
}

impl Parser for StaticCommandParser {
    type Update = Message;

    type Output = ();

    /// A message is recognised if it has a text and the text is, character
    /// for character, the one that the matcher looks for.
    open spec fn recognises(&self, cx: UpdateWithCx<'_, Message>) -> bool {
        cx.update.text matches Some(text) && text@ == self@
    }

    /// A command without arguments has nothing to extract.
    open spec fn extracts(&self, cx: UpdateWithCx<'_, Message>) -> () {
        ()
    }

    fn parse<'a>(&self, cx: UpdateWithCx<'a, Message>) -> (outcome: Result<
        DataWithUWC<'a, (), Message>,
        UpdateWithCx<'a, Message>,
    >) {
        let matched = match &cx.update.text {
            Some(text) => *text == self.command,
            None => false,
        };
        if matched {
            Ok(DataWithUWC::new((), cx))
        } else {
            Err(cx)
        }
    }
}

} // verus!
