use wonderful::comfort::{join_message_channel, join_message_value, join_module, log_channel};
use wonderful::error::Error;
use wonderful::mention::{parse_channel, parse_mention};
use wonderful::reply::{avatar_url, echo_text, unknown_command_text, Severity, ERROR_COLOR};
use wonderful::text::{decimal, parse_u64, replace, same_text, starts_with};

#[test]
fn unsigned_numbers_parse_as_std_does() {
    for s in ["0", "42", "+7", "007", "18446744073709551615", "18446744073709551616", "", "+",
        "-1", "1a", " 1", "١٢"] {
        assert_eq!(parse_u64(s), s.parse::<u64>().ok(), "{:?}", s);
    }
}

#[test]
fn decimal_writing() {
    assert_eq!(decimal(0), "0");
    assert_eq!(decimal(9), "9");
    assert_eq!(decimal(10), "10");
    assert_eq!(decimal(1234567890), "1234567890");
    assert_eq!(decimal(u64::MAX), u64::MAX.to_string());
}

#[test]
fn text_comparison() {
    assert!(same_text("abc", "abc"));
    assert!(!same_text("abc", "abd"));
    assert!(!same_text("abc", "ab"));
    assert!(starts_with("!ping", "!"));
    assert!(starts_with("abc", ""));
    assert!(!starts_with("!", "!!"));
    assert!(starts_with("é!x", "é!"));
}

#[test]
fn replace_as_std_does() {
    for (s, p, w) in [("User {user} here", "{user}", "<@1>"), ("{user}{user}", "{user}", "X"),
        ("aaa", "aa", "b"), ("none", "{user}", "X"), ("", "x", "y")] {
        assert_eq!(replace(s, p, w), s.replace(p, w));
    }
}

#[test]
fn mentions_are_found() {
    assert_eq!(parse_channel("<#12345>"), Some("12345".to_string()));
    assert_eq!(parse_channel("x <#1> <#2>"), Some("1".to_string()));
    assert_eq!(parse_channel("<#a> <#3>"), Some("3".to_string()));
    assert_eq!(parse_channel("<#12"), None);
    assert_eq!(parse_channel("not-a-mention"), None);
    assert_eq!(parse_mention("<@12>"), Some("12".to_string()));
    assert_eq!(parse_mention("<@!12>"), Some("12".to_string()));
    assert_eq!(parse_mention("<@&12>"), Some("12".to_string()));
    assert_eq!(parse_mention("<@!>"), None);
    assert_eq!(parse_mention("<#12>"), None);
}

#[test]
fn join_greeting() {
    let m = join_module();
    assert_eq!(m.name, "comfort.join");
    assert!(!m.default_enabled);
    assert_eq!(join_message_value(&vec![], 0, 9), "User <@9> has joined the server!");
    let list = vec!["Hi {user}!".to_string(), "{user} {user}".to_string()];
    assert_eq!(join_message_value(&list, 1, 3), "<@3> <@3>");
    assert_eq!(join_message_channel(Some("55".to_string())), Some(55));
    assert_eq!(join_message_channel(Some("x".to_string())), None);
    assert_eq!(join_message_channel(None), None);
}

#[test]
fn log_target() {
    assert!(matches!(log_channel(false, Some("5".to_string())), Ok(None)));
    assert!(matches!(log_channel(true, None), Ok(None)));
    assert!(matches!(log_channel(true, Some("5".to_string())), Ok(Some(5))));
    assert!(matches!(log_channel(true, Some("five".to_string())), Err(Error::ParseIntError(_))));
}

#[test]
fn small_replies() {
    assert_eq!(unknown_command_text("frob"), "Unknown command `frob`");
    assert_eq!(echo_text(&vec!["a".to_string(), "b c".to_string()]), "[\"a\", \"b c\"]");
    assert_eq!(avatar_url(12, Some("abc".to_string())), "https://cdn.discordapp.com/avatars/12/abc.png");
    assert_eq!(avatar_url(12, None), "https://cdn.discordapp.com/embed/avatars/2.png");
    assert_eq!(Severity::Error.color(), ERROR_COLOR);
    assert_eq!(Severity::Success.color(), 0x13ff40);
    assert_eq!(Severity::Info.color(), 0x13d2ff);
}
