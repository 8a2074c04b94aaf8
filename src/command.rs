//! Events of the messaging service as the framework sees them, and the
//! recognition of a command in the text of a message.

use vstd::prelude::*;
use crate::text::{has_prefix, starts_with};
use crate::tokenizer::{argument_words, build_arguments, is_space, is_whitespace, texts};

verus! {

/// A message that was posted. `guild_id` is the guild of the channel, or
/// `None` for a direct message or a group.
#[derive(Clone, Debug)]
pub struct Message {
    pub content: String,
    pub channel_id: u64,
    pub guild_id: Option<u64>,
    pub author_id: u64,
}

impl Message {
    /// A copy of the message, field for field.
    pub fn copy(&self) -> (r: Message)
        ensures
            r == *self,
    {
        Message {
            content: self.content.clone(),
            channel_id: self.channel_id,
            guild_id: self.guild_id,
            author_id: self.author_id,
        }
    }
}

/// An event received from the messaging service. Only the creation of a
/// message and the arrival of a guild member are told apart.
pub enum Event {
    MessageCreate(Message),
    ServerMemberAdd(u64, u64),
    Other,
}

/// The length of the maximal leading run of non-whitespace characters.
pub open spec fn word_length(s: Seq<char>) -> nat
    decreases s.len(),
{
    if s.len() == 0 || is_space(s[0]) {
        0
    } else {
        1 + word_length(s.drop_first())
    }
}

/// A command line split after its prefix: the name, and the text after it.
pub struct CommandLine {
    pub name: String,
    pub rest: String,
}

/// The text of `content` after `prefix`.
pub open spec fn after_prefix(content: Seq<char>, prefix: Seq<char>) -> Seq<char> {
    content.skip(prefix.len() as int)
}

/// The name of the command in `content`: the leading word after the prefix.
pub open spec fn command_name_of(content: Seq<char>, prefix: Seq<char>) -> Seq<char> {
    let after = after_prefix(content, prefix);
    after.take(word_length(after) as int)
}

/// The text after the command's name.
pub open spec fn command_rest_of(content: Seq<char>, prefix: Seq<char>) -> Seq<char> {
    let after = after_prefix(content, prefix);
    after.skip(word_length(after) as int)
}

/// Recognizes a command line: `None` where `content` does not begin with
/// `prefix`; otherwise the name (the maximal leading run of non-whitespace
/// characters after the prefix) and what follows it.
pub fn parse_command_line(content: &str, prefix: &str) -> (r: Option<CommandLine>)
    ensures
        r is Some <==> has_prefix(content@, prefix@),
        r matches Some(line) ==> line.name@ == command_name_of(content@, prefix@)
            && line.rest@ == command_rest_of(content@, prefix@),
{
    if !starts_with(content, prefix) {
        return None;
    }
    let n = content.unicode_len();
    let p = prefix.unicode_len();
    let ghost after = after_prefix(content@, prefix@);
    let mut i: usize = p;
    assert(content@.subrange(p as int, n as int) =~= after);
    while i < n && !is_whitespace(content.get_char(i))
        invariant
            n == content@.len(),
            p == prefix@.len(),
            p <= i <= n,
            after == content@.subrange(p as int, n as int),
            word_length(after) == (i - p) + word_length(content@.subrange(i as int, n as int)),
        decreases n - i,
    {
        let ghost sub = content@.subrange(i as int, n as int);
        assert(sub.drop_first() =~= content@.subrange(i + 1, n as int));
        i = i + 1;
    }
    let k = i - p;
    assert(word_length(content@.subrange(i as int, n as int)) == 0);
    assert(after.take(k as int) =~= content@.subrange(p as int, i as int));
    assert(after.skip(k as int) =~= content@.subrange(i as int, n as int));
    let name = String::from_str(content.substring_char(p, i));
    let rest = String::from_str(content.substring_char(i, n));
    Some(CommandLine { name, rest })
}

/// A command addressed to a handler: its name, its arguments, and the
/// message it came in.
pub struct Command {
    pub name: String,
    pub arguments: Vec<String>,
    pub message: Message,
}

impl Command {
    /// Builds the command of a recognized line, tokenizing what follows the
    /// name.
    pub fn new(line: CommandLine, message: Message) -> (r: Command)
        ensures
            r.name@ == line.name@,
            texts(r.arguments@) == argument_words(line.rest@),
            r.message == message,
    {
        let arguments = build_arguments(line.rest.as_str());
        Command { name: line.name, arguments, message }
    }
}

/// The prefix that marks a command: the guild's own where it has one, else
/// the default.
pub fn resolve_prefix(guild_prefix: Option<String>, default: &str) -> (r: String)
    ensures
        r@ == match guild_prefix {
            Some(p) => p@,
            None => default@,
        },
{
    match guild_prefix {
        Some(p) => p,
        None => String::from_str(default),
    }
}

/// The command that a message carries for a handler: made from the
/// recognized line where there is one and the handler claims its name, and
/// `None` otherwise.
pub fn command_for(line: Option<CommandLine>, claimed: bool, message: Message) -> (r: Option<
    Command,
>)
    ensures
        r is Some <==> (line is Some && claimed),
        r matches Some(c) ==> c.name@ == line->Some_0.name@ && texts(c.arguments@)
            == argument_words(line->Some_0.rest@) && c.message == message,
{
    match line {
        Some(l) => if claimed {
            Some(Command::new(l, message))
        } else {
            None
        },
        None => None,
    }
}

/// The message that an event carries: the created message, and `None` for
/// any other event.
pub fn message_of(event: &Event) -> (r: Option<&Message>)
    ensures
        match event {
            Event::MessageCreate(m) => r == Some(m),
            _ => r is None,
        },
{
    match event {
        Event::MessageCreate(m) => Some(m),
        _ => None,
    }
}

} // verus!
