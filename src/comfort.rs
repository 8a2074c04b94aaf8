//! Greeting of new guild members, where a guild has switched it on: a message
//! from the guild's list, or a stock one, with `{user}` standing for the
//! member.

use vstd::prelude::*;
use crate::error::Error;
use crate::module::Module;
use crate::text::{decimal, decimal_text, parse_u64, parse_unsigned, replace, replaced};

verus! {

/// The greeting used where a guild has none of its own.
pub const DEFAULT_MESSAGE: &'static str = "User {user} has joined the server!";

/// The switch of the greeting; off unless a guild turns it on.
pub fn join_module() -> (r: Module)
    ensures
        r.name@ == "comfort.join"@,
        !r.default_enabled,
{
    Module { name: "comfort.join", default_enabled: false }
}

/// The channel to greet in, given the guild's setting as read: its value
/// where that is a number.
pub fn join_message_channel(stored: Option<String>) -> (r: Option<u64>)
    ensures
        r == match stored {
            Some(t) => parse_unsigned(t@),
            None => None,
        },
{
    match stored {
        Some(t) => parse_u64(t.as_str()),
        None => None,
    }
}

/// `<@{user}>`
pub open spec fn user_mention_text(user: u64) -> Seq<char> {
    "<@"@ + decimal_text(user as nat) + ">"@
}

/// The greeting for `user`: message `pick` of the guild's list, or the stock
/// greeting where the list is empty, with each `{user}` replaced by a mention
/// of the member.
pub fn join_message_value(messages: &Vec<String>, pick: usize, user: u64) -> (r: String)
    requires
        messages@.len() == 0 || pick < messages@.len(),
    ensures
        r@ == replaced(
            if messages@.len() == 0 {
                DEFAULT_MESSAGE@
            } else {
                messages@[pick as int]@
            },
            "{user}"@,
            user_mention_text(user),
        ),
{
    let mut mention = String::from_str("<@");
    let id = decimal(user);
    mention.append(id.as_str());
    mention.append(">");
    let placeholder = "{user}";
    proof {
        reveal_strlit("{user}");
    }
    if messages.len() == 0 {
        replace(DEFAULT_MESSAGE, placeholder, mention.as_str())
    } else {
        replace(messages[pick].as_str(), placeholder, mention.as_str())
    }
}

/// The channel that the guild's log goes to: none while the log module is
/// off or no channel is set, and an error where the channel is no number.
pub fn log_channel(enabled: bool, stored: Option<String>) -> (r: Result<Option<u64>, Error>)
    ensures
        !enabled ==> r == Ok::<Option<u64>, Error>(None),
        enabled ==> match stored {
            None => r == Ok::<Option<u64>, Error>(None),
            Some(t) => match parse_unsigned(t@) {
                Some(n) => r == Ok::<Option<u64>, Error>(Some(n)),
                None => r matches Err(Error::ParseIntError(_)),
            },
        },
{
    if !enabled {
        return Ok(None);
    }
    match stored {
        None => Ok(None),
        Some(t) => match parse_u64(t.as_str()) {
            Some(n) => Ok(Some(n)),
            None => Err(Error::ParseIntError(String::from_str("channel id is not a number"))),
        },
    }
}

} // verus!
