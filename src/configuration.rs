//! The bot's static configuration: the default prefix, the store to use,
//! the credentials, and how the work is split into shards.

use vstd::prelude::*;

verus! {

/// How the bot is split into shards. Direct messages all go to shard 0. If,
/// for example, there are 64 shards over 8 servers, the sixth server has
/// `{ first: 40, create: 8, total: 64 }`.
#[derive(Clone, Copy, Debug, PartialEq, Eq, Structural)]
pub struct Sharding {
    /// The first shard of this server.
    pub first: u8,
    /// The number of shards this server runs.
    pub create: u8,
    /// The number of shards over all servers.
    pub total: u8,
}

impl Default for Sharding {
    /// One server running the only shard.
    fn default() -> (r: Sharding)
        ensures
            r == (Sharding { first: 0, create: 1, total: 1 }),
    {
        Sharding { first: 0, create: 1, total: 1 }
    }
}

/// The settings of the bot itself.
#[derive(Clone, Debug)]
pub struct Bot {
    /// The owners of the bot; they may use debug commands, nothing more.
    pub owners: Vec<i64>,
    /// The command prefix where a guild has none of its own.
    pub prefix: String,
    /// The address of the key-value store.
    pub store: String,
    /// The bot's token.
    pub token: String,
    pub shards: Sharding,
}

impl Default for Bot {
    fn default() -> (r: Bot)
        ensures
            r.owners@.len() == 0,
            r.prefix@ == "!"@,
            r.store@ == "redis://wonder@localhost/0"@,
            r.token@.len() == 0,
            r.shards == (Sharding { first: 0, create: 1, total: 1 }),
    {
        Bot {
            owners: Vec::new(),
            prefix: String::from_str("!"),
            store: String::from_str("redis://wonder@localhost/0"),
            token: String::new(),
            shards: Sharding::default(),
        }
    }
}

/// The configuration as loaded: the name of the file it came from, and what
/// it holds.
#[derive(Clone, Debug)]
pub struct Configuration {
    pub name: String,
    pub bot: Bot,
}

} // verus!
