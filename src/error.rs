//! The errors that travel through the handler chain, and which of them the
//! chain may step over.

use vstd::prelude::*;

verus! {

/// HTTP status with which the messaging service refuses an action.
pub const STATUS_FORBIDDEN: u16 = 403;

/// HTTP status with which the messaging service reports a missing target.
pub const STATUS_NOT_FOUND: u16 = 404;

/// An error raised while handling an event. Each variant keeps a readable
/// description; a failure of the messaging service also keeps the HTTP status
/// it answered with, if any.
#[derive(Debug)]
pub enum Error {
    ParseIntError(String),
    ParseBoolError(String),
    IoError(String),
    TomlDeError(String),
    TomlSerError(String),
    DiscordError(Option<u16>, String),
    RedisError(String),
}

impl Error {
    /// An error is recoverable when the service refused the action or lost
    /// its target, or when user input could not be parsed.
    pub open spec fn recoverable(&self) -> bool {
        match self {
            Error::DiscordError(Some(status), _) => status == STATUS_FORBIDDEN || status
                == STATUS_NOT_FOUND,
            Error::ParseIntError(_) => true,
            Error::ParseBoolError(_) => true,
            _ => false,
        }
    }

    /// The description that the error carries.
    pub open spec fn detail(&self) -> Seq<char> {
        match self {
            Error::ParseIntError(d) => d@,
            Error::ParseBoolError(d) => d@,
            Error::IoError(d) => d@,
            Error::TomlDeError(d) => d@,
            Error::TomlSerError(d) => d@,
            Error::DiscordError(_, d) => d@,
            Error::RedisError(d) => d@,
        }
    }

    pub fn is_recoverable(&self) -> (r: bool)
        ensures
            r == self.recoverable(),
    {
        match self {
            Error::DiscordError(Some(status), _) => *status == STATUS_FORBIDDEN || *status
                == STATUS_NOT_FOUND,
            Error::ParseIntError(_) => true,
            Error::ParseBoolError(_) => true,
            _ => false,
        }
    }

    pub fn description(&self) -> (r: &str)
        ensures
            r@ == self.detail(),
    {
        match self {
            Error::ParseIntError(d) => d.as_str(),
            Error::ParseBoolError(d) => d.as_str(),
            Error::IoError(d) => d.as_str(),
            Error::TomlDeError(d) => d.as_str(),
            Error::TomlSerError(d) => d.as_str(),
            Error::DiscordError(_, d) => d.as_str(),
            Error::RedisError(d) => d.as_str(),
        }
    }

    /// Whether the service refused the action for want of permission.
    pub open spec fn forbidden(&self) -> bool {
        self matches Error::DiscordError(Some(status), _) && status == STATUS_FORBIDDEN
    }
}

/// Treats a refusal for want of permission as an action that was skipped:
/// `Ok(None)`. Any other error is handed on, and a success is kept.
pub fn allow_forbidden<T>(result: Result<T, Error>) -> (r: Result<Option<T>, Error>)
    ensures
        match result {
            Ok(v) => r == Ok::<Option<T>, Error>(Some(v)),
            Err(e) => if e.forbidden() {
                r == Ok::<Option<T>, Error>(None)
            } else {
                r == Err::<Option<T>, Error>(e)
            },
        },
{
    match result {
        Ok(v) => Ok(Some(v)),
        Err(e) => {
            let forbidden = match &e {
                Error::DiscordError(Some(status), _) => *status == STATUS_FORBIDDEN,
                _ => false,
            };
            if forbidden {
                Ok(None)
            } else {
                Err(e)
            }
        },
    }
}

} // verus!
