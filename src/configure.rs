//! The `configure` command: `configure <subcommand> <name> [<value>]`, which
//! switches modules and reads or writes settings for the guild it is used in.
//! Checking the arguments and deciding what to write, read and reply is done
//! here; the store and the reply are left to the caller.

use vstd::prelude::*;
use crate::module::{self, module_default, Module};
use crate::setting::{self, setting_kind, Setting, SettingKind, Value};
use crate::store::{module_enabled_key, setting_key, OpView, StoreOp};
use crate::text::{decimal, decimal_text, same_text};
use crate::tokenizer::texts;
use crate::reply::{Reply, Severity};

verus! {

/// Why the command was refused. `InvalidArgumentError` gives the position
/// of the faulty argument, counting the subcommand as 1.
#[derive(Clone, Copy, Debug, PartialEq, Eq, Structural)]
pub enum ConfigureError {
    InvalidArgumentError(usize),
    NonPublicError,
    FormatError,
}

/// The subcommands of `configure`.
#[derive(Clone, Copy, Debug, PartialEq, Eq, Structural)]
pub enum RequestKind {
    ModuleEnable,
    ModuleDisable,
    ModuleCheck,
    SettingGet,
    SettingSet,
    SettingPush,
    SettingClear,
}

impl RequestKind {
    pub open spec fn on_module(self) -> bool {
        self == RequestKind::ModuleEnable || self == RequestKind::ModuleDisable || self
            == RequestKind::ModuleCheck
    }

    pub open spec fn takes_value(self) -> bool {
        self == RequestKind::SettingSet || self == RequestKind::SettingPush
    }
}

/// The subcommand that a word names.
pub open spec fn request_kind(word: Seq<char>) -> Option<RequestKind> {
    if word == "module.enable"@ {
        Some(RequestKind::ModuleEnable)
    } else if word == "module.disable"@ {
        Some(RequestKind::ModuleDisable)
    } else if word == "module.enabled?"@ {
        Some(RequestKind::ModuleCheck)
    } else if word == "setting.get"@ {
        Some(RequestKind::SettingGet)
    } else if word == "setting.set"@ {
        Some(RequestKind::SettingSet)
    } else if word == "setting.push"@ {
        Some(RequestKind::SettingPush)
    } else if word == "setting.clear"@ {
        Some(RequestKind::SettingClear)
    } else {
        None
    }
}

fn kind_of(word: &str) -> (r: Option<RequestKind>)
    ensures
        r == request_kind(word@),
{
    if same_text(word, "module.enable") {
        Some(RequestKind::ModuleEnable)
    } else if same_text(word, "module.disable") {
        Some(RequestKind::ModuleDisable)
    } else if same_text(word, "module.enabled?") {
        Some(RequestKind::ModuleCheck)
    } else if same_text(word, "setting.get") {
        Some(RequestKind::SettingGet)
    } else if same_text(word, "setting.set") {
        Some(RequestKind::SettingSet)
    } else if same_text(word, "setting.push") {
        Some(RequestKind::SettingPush)
    } else if same_text(word, "setting.clear") {
        Some(RequestKind::SettingClear)
    } else {
        None
    }
}

/// The refusal that the arguments of `configure` meet with, in the order the
/// checks are made: the subcommand, the name in its catalog, the guild, and
/// the value where the subcommand takes one.
pub open spec fn configure_error(args: Seq<Seq<char>>, guild: Option<u64>) -> Option<
    ConfigureError,
> {
    if args.len() == 0 || request_kind(args[0]) is None {
        Some(ConfigureError::InvalidArgumentError(1))
    } else {
        let kind = request_kind(args[0])->Some_0;
        let known = if kind.on_module() {
            module_default(args[1]) is Some
        } else {
            setting_kind(args[1]) is Some
        };
        if args.len() < 2 || !known {
            Some(ConfigureError::InvalidArgumentError(2))
        } else if guild is None {
            Some(ConfigureError::NonPublicError)
        } else if kind.takes_value() && args.len() < 3 {
            Some(ConfigureError::InvalidArgumentError(3))
        } else {
            None
        }
    }
}

/// A checked `configure` command, with the guild it applies to.
pub enum Request {
    ModuleEnable(Module, u64),
    ModuleDisable(Module, u64),
    ModuleCheck(Module, u64),
    SettingGet(Setting, u64),
    SettingSet(Setting, u64, String),
    SettingPush(Setting, u64, String),
    SettingClear(Setting, u64),
}

impl Request {
    pub open spec fn kind(&self) -> RequestKind {
        match self {
            Request::ModuleEnable(..) => RequestKind::ModuleEnable,
            Request::ModuleDisable(..) => RequestKind::ModuleDisable,
            Request::ModuleCheck(..) => RequestKind::ModuleCheck,
            Request::SettingGet(..) => RequestKind::SettingGet,
            Request::SettingSet(..) => RequestKind::SettingSet,
            Request::SettingPush(..) => RequestKind::SettingPush,
            Request::SettingClear(..) => RequestKind::SettingClear,
        }
    }

    /// Whether this request is what the arguments ask of `guild`.
    pub open spec fn describes(&self, args: Seq<Seq<char>>, guild: Option<u64>) -> bool {
        &&& args.len() >= 2
        &&& Some(self.kind()) == request_kind(args[0])
        &&& match self {
            Request::ModuleEnable(m, g) | Request::ModuleDisable(m, g) | Request::ModuleCheck(
                m,
                g,
            ) => guild == Some(*g) && m.name@ == args[1] && Some(m.default_enabled)
                == module_default(args[1]),
            Request::SettingGet(s, g) | Request::SettingClear(s, g) => guild == Some(*g)
                && s.name@ == args[1] && Some(s.kind) == setting_kind(args[1]),
            Request::SettingSet(s, g, v) | Request::SettingPush(s, g, v) => guild == Some(*g)
                && s.name@ == args[1] && Some(s.kind) == setting_kind(args[1]) && args.len()
                >= 3 && v@ == args[2],
        }
    }
}

/// Checks the arguments of `configure` for a message sent in `guild`.
pub fn parse_request(arguments: &Vec<String>, guild: Option<u64>) -> (r: Result<
    Request,
    ConfigureError,
>)
    ensures
        match configure_error(texts(arguments@), guild) {
            Some(e) => r == Err::<Request, ConfigureError>(e),
            None => r matches Ok(q) && q.describes(texts(arguments@), guild),
        },
{
    let ghost args = texts(arguments@);
    if arguments.len() == 0 {
        return Err(ConfigureError::InvalidArgumentError(1));
    }
    assert(args[0] == arguments@[0]@);
    let kind = match kind_of(arguments[0].as_str()) {
        Some(k) => k,
        None => {
            return Err(ConfigureError::InvalidArgumentError(1));
        },
    };
    if arguments.len() < 2 {
        return Err(ConfigureError::InvalidArgumentError(2));
    }
    assert(args[1] == arguments@[1]@);
    let name = arguments[1].as_str();
    match kind {
        RequestKind::ModuleEnable | RequestKind::ModuleDisable | RequestKind::ModuleCheck => {
            let m = match module::find(name) {
                Some(m) => m,
                None => {
                    return Err(ConfigureError::InvalidArgumentError(2));
                },
            };
            let g = match guild {
                Some(g) => g,
                None => {
                    return Err(ConfigureError::NonPublicError);
                },
            };
            match kind {
                RequestKind::ModuleEnable => Ok(Request::ModuleEnable(m, g)),
                RequestKind::ModuleDisable => Ok(Request::ModuleDisable(m, g)),
                _ => Ok(Request::ModuleCheck(m, g)),
            }
        },
        _ => {
            let s = match setting::find(name) {
                Some(s) => s,
                None => {
                    return Err(ConfigureError::InvalidArgumentError(2));
                },
            };
            let g = match guild {
                Some(g) => g,
                None => {
                    return Err(ConfigureError::NonPublicError);
                },
            };
            match kind {
                RequestKind::SettingGet => Ok(Request::SettingGet(s, g)),
                RequestKind::SettingClear => Ok(Request::SettingClear(s, g)),
                _ => {
                    if arguments.len() < 3 {
                        return Err(ConfigureError::InvalidArgumentError(3));
                    }
                    assert(args[2] == arguments@[2]@);
                    let value = arguments[2].clone();
                    if kind == RequestKind::SettingSet {
                        Ok(Request::SettingSet(s, g, value))
                    } else {
                        Ok(Request::SettingPush(s, g, value))
                    }
                },
            }
        },
    }
}

/// What is left to do for a checked request: a write and then its reply, or
/// a read whose result decides the reply. A setting's value is read as a
/// list where the flag is set, else as a text.
pub enum Step {
    Write(StoreOp, Reply),
    ReadFlag(Module, String),
    ReadValue(Setting, String, bool),
}

/// `Module {name} {verb}`
pub open spec fn module_text(name: Seq<char>, verb: Seq<char>) -> Seq<char> {
    "Module "@ + name + verb
}

/// ``Setting `{name}` {what}``
pub open spec fn setting_text(name: Seq<char>, what: Seq<char>) -> Seq<char> {
    "Setting `"@ + name + "` "@ + what
}

/// Whether `step` is a write of `op`, acknowledged by a success reply that
/// reads `text`.
pub open spec fn writes(step: Step, op: OpView, text: Seq<char>) -> bool {
    step matches Step::Write(w, reply) && w@ == op && reply.severity == Severity::Success
        && reply.text@ == text
}

fn module_reply(name: &str, verb: &str) -> (r: Reply)
    ensures
        r.severity == Severity::Success,
        r.text@ == module_text(name@, verb@),
{
    let mut text = String::from_str("Module ");
    text.append(name);
    text.append(verb);
    Reply { severity: Severity::Success, text }
}

fn setting_reply(severity: Severity, name: &str, what: &str) -> (r: Reply)
    ensures
        r.severity == severity,
        r.text@ == setting_text(name@, what@),
{
    let mut text = String::from_str("Setting `");
    text.append(name);
    text.append("` ");
    text.append(what);
    Reply { severity, text }
}

/// `` `{value}` `` followed by `end`
fn quoted(value: &str, end: &str) -> (r: String)
    ensures
        r@ == "`"@ + value@ + "`"@ + end@,
{
    let mut text = String::from_str("`");
    text.append(value);
    text.append("`");
    text.append(end);
    text
}

/// Whether `r` is what `step` gives for `q`.
pub open spec fn step_result(q: Request, r: Result<Step, ConfigureError>) -> bool {
    match q {
        Request::ModuleEnable(m, g) => r matches Ok(w) && writes(
            w,
            m.enable_op(g),
            module_text(m.name@, " was enabled."@),
        ),
        Request::ModuleDisable(m, g) => r matches Ok(w) && writes(
            w,
            m.disable_op(g),
            module_text(m.name@, " was disabled."@),
        ),
        Request::ModuleCheck(m, g) => r matches Ok(Step::ReadFlag(n, key)) && n == m && key@
            == m.key(g),
        Request::SettingGet(s, g) => r matches Ok(Step::ReadValue(n, key, list)) && n == s
            && list == (s.kind == SettingKind::Array) && key@
            == s.key(g),
        Request::SettingSet(s, g, v) => match s.set_op(g, v@) {
            Some(op) => r matches Ok(w) && writes(
                w,
                op,
                setting_text(s.name@, "was set to "@ + "`"@ + v@ + "`"@ + "."@),
            ),
            None => r == Err::<Step, ConfigureError>(ConfigureError::FormatError),
        },
        Request::SettingPush(s, g, v) => match s.push_op(g, v@) {
            Some(op) => r matches Ok(w) && writes(
                w,
                op,
                setting_text(s.name@, "now has element "@ + "`"@ + v@ + "`"@ + "."@),
            ),
            None => r == Err::<Step, ConfigureError>(ConfigureError::FormatError),
        },
        Request::SettingClear(s, g) => r matches Ok(w) && writes(
            w,
            s.clear_op(g),
            setting_text(s.name@, "was cleared."@),
        ),
    }
}

/// Decides the write or the read that a checked request asks for. A value
/// that does not have the form its setting requires, a value set on a list
/// setting, and an append to a setting that is no list are refused with
/// `FormatError`, and nothing is written.
pub fn step(request: Request) -> (r: Result<Step, ConfigureError>)
    ensures
        step_result(request, r),
{
    match request {
        Request::ModuleEnable(m, g) => {
            let op = m.enable(g);
            Ok(Step::Write(op, module_reply(m.name, " was enabled.")))
        },
        Request::ModuleDisable(m, g) => {
            let op = m.disable(g);
            Ok(Step::Write(op, module_reply(m.name, " was disabled.")))
        },
        Request::ModuleCheck(m, g) => Ok(Step::ReadFlag(m, module_enabled_key(g, m.name))),
        Request::SettingGet(s, g) => {
            let list = s.kind == SettingKind::Array;
            Ok(Step::ReadValue(s, setting_key(g, s.name), list))
        },
        Request::SettingSet(s, g, v) => match s.set(g, v.as_str()) {
            Some(op) => {
                let what = String::from_str("was set to ").concat(quoted(v.as_str(), ".").as_str());
                let reply = setting_reply(Severity::Success, s.name, what.as_str());
                proof {
                    assert(what@ =~= "was set to "@ + "`"@ + v@ + "`"@ + "."@);
                }
                Ok(Step::Write(op, reply))
            },
            None => Err(ConfigureError::FormatError),
        },
        Request::SettingPush(s, g, v) => match s.push(g, v.as_str()) {
            Some(op) => {
                let what = String::from_str("now has element ").concat(
                    quoted(v.as_str(), ".").as_str(),
                );
                let reply = setting_reply(Severity::Success, s.name, what.as_str());
                proof {
                    assert(what@ =~= "now has element "@ + "`"@ + v@ + "`"@ + "."@);
                }
                Ok(Step::Write(op, reply))
            },
            None => Err(ConfigureError::FormatError),
        },
        Request::SettingClear(s, g) => {
            let op = s.clear(g);
            Ok(Step::Write(op, setting_reply(Severity::Success, s.name, "was cleared.")))
        },
    }
}

/// Checks the arguments of `configure` and decides what is to be done.
pub fn configure(arguments: &Vec<String>, guild: Option<u64>) -> (r: Result<
    Step,
    ConfigureError,
>)
    ensures
        configure_error(texts(arguments@), guild) matches Some(e) ==> r == Err::<
            Step,
            ConfigureError,
        >(e),
        configure_error(texts(arguments@), guild) is None ==> exists|q: Request|
            q.describes(texts(arguments@), guild) && #[trigger] step_result(q, r),
{
    match parse_request(arguments, guild) {
        Ok(q) => {
            let ghost snapshot = q;
            let r = step(q);
            assert(step_result(snapshot, r));
            r
        },
        Err(e) => Err(e),
    }
}

/// The reply to `module.enabled?`, given the guild's switch as read.
pub fn flag_reply(module: &Module, stored: Option<u32>) -> (r: Reply)
    ensures
        r.severity == Severity::Success,
        r.text@ == module_text(
            module.name@,
            if module.enabled_given(stored) {
                " is enabled."@
            } else {
                " is disabled."@
            },
        ),
{
    if module.is_enabled(stored) {
        module_reply(module.name, " is enabled.")
    } else {
        module_reply(module.name, " is disabled.")
    }
}

/// The reply to `setting.get`, given the setting's value as read.
pub fn value_reply(setting: &Setting, stored: Option<Value>) -> (r: Reply)
    ensures
        r.severity == Severity::Info,
        r.text@ == setting_text(
            setting.name@,
            match setting.rendered(
                match stored {
                    Some(v) => Some(v@),
                    None => None,
                },
            ) {
                Some(t) => "is set to "@ + "`"@ + t + "`"@ + "."@,
                None => "is not set."@,
            },
        ),
{
    match setting.get(stored) {
        Some(t) => {
            let what = String::from_str("is set to ").concat(quoted(t.as_str(), ".").as_str());
            proof {
                assert(what@ =~= "is set to "@ + "`"@ + t@ + "`"@ + "."@);
            }
            setting_reply(Severity::Info, setting.name, what.as_str())
        },
        None => setting_reply(Severity::Info, setting.name, "is not set."),
    }
}

/// `Invalid argument given at position {position}`
pub open spec fn invalid_argument_text(position: usize) -> Seq<char> {
    "Invalid argument given at position "@ + decimal_text(position as nat)
}

/// The reply to a refused command.
pub fn error_reply(error: ConfigureError) -> (r: Reply)
    ensures
        r.severity == Severity::Error,
        r.text@ == match error {
            ConfigureError::InvalidArgumentError(p) => invalid_argument_text(p),
            ConfigureError::NonPublicError =>
                "The command you are trying to use may only be used in a server."@,
            ConfigureError::FormatError => "Incorrect format for setting value!"@,
        },
{
    let text = match error {
        ConfigureError::InvalidArgumentError(p) => {
            let mut text = String::from_str("Invalid argument given at position ");
            let n = decimal(p as u64);
            text.append(n.as_str());
            text
        },
        ConfigureError::NonPublicError => String::from_str(
            "The command you are trying to use may only be used in a server.",
        ),
        ConfigureError::FormatError => String::from_str("Incorrect format for setting value!"),
    };
    Reply { severity: Severity::Error, text }
}

} // verus!
