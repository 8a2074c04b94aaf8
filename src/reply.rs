//! Replies to the channel a command came from, and the texts of the small
//! built-in commands.

use vstd::prelude::*;
use crate::text::{debug_list, decimal, decimal_text, list_text_of};
use crate::tokenizer::texts;

verus! {

/// The tone of a reply: an error, a success, or a piece of information.
#[derive(Clone, Copy, Debug, PartialEq, Eq, Structural)]
pub enum Severity {
    Error,
    Success,
    Info,
}

/// A reply to be sent to the channel that the command came from.
pub struct Reply {
    pub severity: Severity,
    pub text: String,
}

/// The colour of a rich reply of each tone.
pub const ERROR_COLOR: u64 = 0xff4013;

pub const SUCCESS_COLOR: u64 = 0x13ff40;

pub const INFO_COLOR: u64 = 0x13d2ff;

impl Severity {
    pub open spec fn spec_color(self) -> u64 {
        match self {
            Severity::Error => ERROR_COLOR,
            Severity::Success => SUCCESS_COLOR,
            Severity::Info => INFO_COLOR,
        }
    }

    pub fn color(self) -> (r: u64)
        ensures
            r == self.spec_color(),
    {
        match self {
            Severity::Error => ERROR_COLOR,
            Severity::Success => SUCCESS_COLOR,
            Severity::Info => INFO_COLOR,
        }
    }
}

/// ``Unknown command `{name}` ``
pub fn unknown_command_text(name: &str) -> (r: String)
    ensures
        r@ == "Unknown command `"@ + name@ + "`"@,
{
    let mut text = String::from_str("Unknown command `");
    text.append(name);
    text.append("`");
    text
}

/// The reply of `echo`: its arguments, listed as `Debug` lists them.
pub fn echo_text(arguments: &Vec<String>) -> (r: String)
    ensures
        r@ == list_text_of(texts(arguments@)),
{
    debug_list(arguments)
}

/// The address of a user's avatar: the uploaded one where the user has one,
/// else one of the five stock avatars, chosen by the id.
pub fn avatar_url(user_id: u64, avatar: Option<String>) -> (r: String)
    ensures
        r@ == match avatar {
            Some(hash) => "https://cdn.discordapp.com/avatars/"@ + decimal_text(user_id as nat)
                + "/"@ + hash@ + ".png"@,
            None => "https://cdn.discordapp.com/embed/avatars/"@ + decimal_text(
                (user_id % 5) as nat,
            ) + ".png"@,
        },
{
    match avatar {
        Some(hash) => {
            let mut url = String::from_str("https://cdn.discordapp.com/avatars/");
            let id = decimal(user_id);
            url.append(id.as_str());
            url.append("/");
            url.append(hash.as_str());
            url.append(".png");
            url
        },
        None => {
            let mut url = String::from_str("https://cdn.discordapp.com/embed/avatars/");
            let id = decimal(user_id % 5);
            url.append(id.as_str());
            url.append(".png");
            url
        },
    }
}

} // verus!
