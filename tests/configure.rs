use wonderful::command::{command_for, message_of, parse_command_line, resolve_prefix, Command, Event,
    Message};
use wonderful::configure::{configure, error_reply, flag_reply, parse_request, step, value_reply,
    ConfigureError, Request, Step};
use wonderful::error::Error;
use wonderful::module;
use wonderful::plug::{handle_event, handle_message, Plug, PlugResult, PlugSet, PlugStatus};
use wonderful::reply::Severity;
use wonderful::setting::{self, Value};
use wonderful::store::StoreOp;

fn message(content: &str, guild: Option<u64>) -> Message {
    Message { content: content.to_string(), channel_id: 10, guild_id: guild, author_id: 20 }
}

fn arguments_of(content: &str) -> Vec<String> {
    let line = parse_command_line(content, "!").unwrap();
    assert_eq!(line.name, "configure");
    Command::new(line, message(content, Some(1))).arguments
}

fn args(words: &[&str]) -> Vec<String> {
    words.iter().map(|w| w.to_string()).collect()
}

#[test]
fn end_to_end_integer_set() {
    let arguments = arguments_of("!configure setting.set test.int 42");
    assert_eq!(arguments, args(&["setting.set", "test.int", "42"]));
    match configure(&arguments, Some(77)) {
        Ok(Step::Write(StoreOp::Write(key, value), reply)) => {
            assert_eq!(key, "server:77:settings:test.int");
            assert_eq!(value, "42");
            assert_eq!(reply.severity, Severity::Success);
            assert_eq!(reply.text, "Setting `test.int` was set to `42`.");
            assert!(reply.text.contains("42"));
        }
        _ => panic!("expected a write"),
    }
}

#[test]
fn end_to_end_integer_format_error() {
    let arguments = arguments_of("!configure setting.set test.int notanumber");
    let r = configure(&arguments, Some(77));
    assert!(matches!(r, Err(ConfigureError::FormatError)));
    let reply = error_reply(ConfigureError::FormatError);
    assert_eq!(reply.severity, Severity::Error);
    assert_eq!(reply.text, "Incorrect format for setting value!");
}

#[test]
fn argument_positions() {
    assert!(matches!(configure(&args(&[]), Some(1)), Err(ConfigureError::InvalidArgumentError(1))));
    assert!(matches!(configure(&args(&["module.frob", "test"]), Some(1)),
        Err(ConfigureError::InvalidArgumentError(1))));
    assert!(matches!(configure(&args(&["module.enable"]), Some(1)),
        Err(ConfigureError::InvalidArgumentError(2))));
    assert!(matches!(configure(&args(&["module.enable", "nothing"]), Some(1)),
        Err(ConfigureError::InvalidArgumentError(2))));
    assert!(matches!(configure(&args(&["setting.get", "test.user.x"]), Some(1)),
        Err(ConfigureError::InvalidArgumentError(2))));
    assert!(matches!(configure(&args(&["setting.set", "test.int"]), Some(1)),
        Err(ConfigureError::InvalidArgumentError(3))));
    assert!(matches!(configure(&args(&["setting.push", "test.ary"]), Some(1)),
        Err(ConfigureError::InvalidArgumentError(3))));
}

#[test]
fn outside_a_guild_is_refused() {
    assert!(matches!(configure(&args(&["module.enable", "test"]), None),
        Err(ConfigureError::NonPublicError)));
    assert!(matches!(configure(&args(&["setting.set", "test.int"]), None),
        Err(ConfigureError::NonPublicError)));
    assert!(matches!(configure(&args(&["setting.set", "nothing", "1"]), None),
        Err(ConfigureError::InvalidArgumentError(2))));
}

#[test]
fn module_subcommands() {
    match configure(&args(&["module.enable", "test"]), Some(3)) {
        Ok(Step::Write(StoreOp::Write(k, v), reply)) => {
            assert_eq!(k, "server:3:modules:test:enabled");
            assert_eq!(v, "1");
            assert_eq!(reply.text, "Module test was enabled.");
        }
        _ => panic!("expected a write"),
    }
    match configure(&args(&["module.enable", "admin.log"]), Some(3)) {
        Ok(Step::Write(StoreOp::Delete(k), _)) => assert_eq!(k, "server:3:modules:admin.log:enabled"),
        _ => panic!("expected a delete"),
    }
    match configure(&args(&["module.disable", "admin.log"]), Some(3)) {
        Ok(Step::Write(StoreOp::Write(_, v), reply)) => {
            assert_eq!(v, "0");
            assert_eq!(reply.text, "Module admin.log was disabled.");
        }
        _ => panic!("expected a write"),
    }
    match configure(&args(&["module.enabled?", "admin.log"]), Some(3)) {
        Ok(Step::ReadFlag(m, k)) => {
            assert_eq!(m.name, "admin.log");
            assert_eq!(k, "server:3:modules:admin.log:enabled");
            assert_eq!(flag_reply(&m, None).text, "Module admin.log is enabled.");
            assert_eq!(flag_reply(&m, Some(0)).text, "Module admin.log is disabled.");
        }
        _ => panic!("expected a read"),
    }
}

#[test]
fn setting_subcommands() {
    match configure(&args(&["setting.get", "test.channel"]), Some(3)) {
        Ok(Step::ReadValue(s, k, list)) => {
            assert_eq!(k, "server:3:settings:test.channel");
            assert!(!list);
            let reply = value_reply(&s, Some(Value::Text("5".to_string())));
            assert_eq!(reply.severity, Severity::Info);
            assert_eq!(reply.text, "Setting `test.channel` is set to `<#5>`.");
            assert_eq!(value_reply(&s, None).text, "Setting `test.channel` is not set.");
        }
        _ => panic!("expected a read"),
    }
    assert!(matches!(configure(&args(&["setting.get", "test.ary"]), Some(3)),
        Ok(Step::ReadValue(_, _, true))));
    match configure(&args(&["setting.push", "test.ary", "hi there"]), Some(3)) {
        Ok(Step::Write(StoreOp::Push(k, v), reply)) => {
            assert_eq!(k, "server:3:settings:test.ary");
            assert_eq!(v, "hi there");
            assert_eq!(reply.text, "Setting `test.ary` now has element `hi there`.");
        }
        _ => panic!("expected an append"),
    }
    assert!(matches!(configure(&args(&["setting.push", "test.int", "4"]), Some(3)),
        Err(ConfigureError::FormatError)));
    assert!(matches!(configure(&args(&["setting.set", "test.ary", "4"]), Some(3)),
        Err(ConfigureError::FormatError)));
    match configure(&args(&["setting.clear", "test.int"]), Some(3)) {
        Ok(Step::Write(StoreOp::Delete(_), reply)) => {
            assert_eq!(reply.text, "Setting `test.int` was cleared.");
        }
        _ => panic!("expected a delete"),
    }
}

#[test]
fn request_then_step() {
    match parse_request(&args(&["setting.set", "test.channel", "<#8>"]), Some(2)) {
        Ok(Request::SettingSet(s, g, v)) => {
            assert_eq!(s.name, "test.channel");
            assert_eq!(g, 2);
            assert_eq!(v, "<#8>");
        }
        _ => panic!("expected a set request"),
    }
    let s = setting::find("test.channel").unwrap();
    let r = step(Request::SettingSet(s, 2, "oops".to_string()));
    assert!(matches!(r, Err(ConfigureError::FormatError)));
    let m = module::find("test").unwrap();
    assert!(matches!(step(Request::ModuleCheck(m, 2)), Ok(Step::ReadFlag(_, _))));
}

#[test]
fn error_replies() {
    assert_eq!(error_reply(ConfigureError::InvalidArgumentError(2)).text,
        "Invalid argument given at position 2");
    assert_eq!(error_reply(ConfigureError::NonPublicError).text,
        "The command you are trying to use may only be used in a server.");
}

#[test]
fn command_line_recognition() {
    let line = parse_command_line("!ping  a b", "!").unwrap();
    assert_eq!(line.name, "ping");
    assert_eq!(line.rest, "  a b");
    assert!(parse_command_line("?ping", "!").is_none());
    assert!(parse_command_line("", "!").is_none());
    let line = parse_command_line(">>echo", ">>").unwrap();
    assert_eq!(line.name, "echo");
    assert_eq!(line.rest, "");
    let line = parse_command_line("! x", "!").unwrap();
    assert_eq!(line.name, "");
    assert_eq!(line.rest, " x");
}

#[test]
fn prefix_resolution() {
    assert_eq!(resolve_prefix(Some("$".to_string()), "!"), "$");
    assert_eq!(resolve_prefix(None, "!"), "!");
}

/// A handler that takes `configure` and answers in the context, as the
/// real one answers in the channel.
struct Configure;

impl Plug for Configure {
    type Context = Vec<String>;

    fn matches_name(&self, name: &str) -> bool {
        name == "configure"
    }

    fn handle_start(&self, _context: &mut Vec<String>) -> PlugResult {
        Ok(PlugStatus::Continue)
    }

    fn command_prefix(&self, message: &Message, _context: &mut Vec<String>) -> String {
        let own = if message.guild_id == Some(6) { Some("$".to_string()) } else { None };
        resolve_prefix(own, "!")
    }

    fn handle_event(&self, event: &Event, context: &mut Vec<String>) -> PlugResult {
        handle_event(self, event, context)
    }

    fn handle_command(&self, command: &Command, context: &mut Vec<String>) -> PlugResult {
        match configure(&command.arguments, command.message.guild_id) {
            Ok(Step::Write(_, reply)) => context.push(reply.text),
            Ok(_) => context.push("read".to_string()),
            Err(e) => context.push(error_reply(e).text),
        }
        Ok(PlugStatus::Stop)
    }
}

/// A catch-all that must not be reached once `configure` took the message.
struct Missing;

impl Plug for Missing {
    type Context = Vec<String>;

    fn matches_name(&self, _name: &str) -> bool {
        true
    }

    fn handle_start(&self, _context: &mut Vec<String>) -> PlugResult {
        Ok(PlugStatus::Continue)
    }

    fn command_prefix(&self, message: &Message, _context: &mut Vec<String>) -> String {
        let own = if message.guild_id == Some(6) { Some("$".to_string()) } else { None };
        resolve_prefix(own, "!")
    }

    fn handle_event(&self, event: &Event, context: &mut Vec<String>) -> PlugResult {
        handle_event(self, event, context)
    }

    fn handle_command(&self, command: &Command, _context: &mut Vec<String>) -> PlugResult {
        Err(Error::IoError(format!("reached with {}", command.name)))
    }
}

enum Handler {
    Configure(Configure),
    Missing(Missing),
}

impl Plug for Handler {
    type Context = Vec<String>;

    fn matches_name(&self, name: &str) -> bool {
        match self {
            Handler::Configure(p) => p.matches_name(name),
            Handler::Missing(p) => p.matches_name(name),
        }
    }

    fn handle_start(&self, _context: &mut Vec<String>) -> PlugResult {
        Ok(PlugStatus::Continue)
    }

    fn command_prefix(&self, message: &Message, context: &mut Vec<String>) -> String {
        match self {
            Handler::Configure(p) => p.command_prefix(message, context),
            Handler::Missing(p) => p.command_prefix(message, context),
        }
    }

    fn handle_event(&self, event: &Event, context: &mut Vec<String>) -> PlugResult {
        handle_event(self, event, context)
    }

    fn handle_command(&self, command: &Command, context: &mut Vec<String>) -> PlugResult {
        match self {
            Handler::Configure(p) => p.handle_command(command, context),
            Handler::Missing(p) => p.handle_command(command, context),
        }
    }
}

#[test]
fn configure_through_the_chain() {
    let mut set = PlugSet::new();
    set.push(Handler::Configure(Configure));
    set.push(Handler::Missing(Missing));
    let mut replies = Vec::new();
    let event = Event::MessageCreate(message("!configure setting.set test.int 42", Some(5)));
    assert!(set.trigger_event(&event, &mut replies).is_ok());
    assert_eq!(replies, vec!["Setting `test.int` was set to `42`.".to_string()]);

    let mut replies = Vec::new();
    let event = Event::MessageCreate(message("!configure setting.set test.int notanumber", Some(5)));
    assert!(set.trigger_event(&event, &mut replies).is_ok());
    assert_eq!(replies, vec!["Incorrect format for setting value!".to_string()]);

    let mut replies = Vec::new();
    let event = Event::MessageCreate(message("!frobnicate", Some(5)));
    assert!(set.trigger_event(&event, &mut replies).is_err());

    let mut replies = Vec::new();
    let event = Event::MessageCreate(message("no command here", Some(5)));
    assert!(set.trigger_event(&event, &mut replies).is_ok());
    assert!(replies.is_empty());
}

#[test]
fn guild_prefix_takes_precedence() {
    let plug = Configure;
    let mut replies = Vec::new();
    assert_eq!(plug.command_prefix(&message("x", Some(6)), &mut replies), "$");
    assert_eq!(plug.command_prefix(&message("x", Some(5)), &mut replies), "!");
    assert_eq!(plug.command_prefix(&message("x", None), &mut replies), "!");
    let r = handle_message(&plug, &message("$configure module.enable test", Some(6)), &mut replies);
    assert!(matches!(r, Ok(PlugStatus::Stop)));
    assert_eq!(replies, vec!["Module test was enabled.".to_string()]);
    let r = handle_message(&plug, &message("!configure module.enable test", Some(6)), &mut replies);
    assert!(matches!(r, Ok(PlugStatus::Continue)));
    assert_eq!(replies.len(), 1);
}

#[test]
fn unclaimed_name_continues() {
    let plug = Configure;
    let mut replies = Vec::new();
    let r = handle_message(&plug, &message("!ping", Some(1)), &mut replies);
    assert!(matches!(r, Ok(PlugStatus::Continue)));
    assert!(replies.is_empty());
    let r = plug.handle_event(&Event::ServerMemberAdd(1, 2), &mut replies);
    assert!(matches!(r, Ok(PlugStatus::Continue)));
    assert!(replies.is_empty());
}

#[test]
fn command_only_for_claimed_lines() {
    let m = message("!echo \"a b\" c", Some(1));
    assert!(command_for(None, true, m.clone()).is_none());
    let line = parse_command_line(&m.content, "!").unwrap();
    assert!(command_for(Some(line), false, m.clone()).is_none());
    let line = parse_command_line(&m.content, "!").unwrap();
    let c = command_for(Some(line), true, m.clone()).unwrap();
    assert_eq!(c.name, "echo");
    assert_eq!(c.arguments, args(&["a b", "c"]));
    assert_eq!(c.message.content, m.content);
}

#[test]
fn only_created_messages_are_read() {
    let e = Event::MessageCreate(message("hello", None));
    assert_eq!(message_of(&e).map(|m| m.content.as_str()), Some("hello"));
    assert!(message_of(&Event::Other).is_none());
    assert!(message_of(&Event::ServerMemberAdd(1, 2)).is_none());
}
