//! Models mapping the Discord Bot List API.

use crate::error::{ApiError, Result};
use vstd::prelude::*;

verus! {

/// A point in time with the UTC offset it was written in.
#[derive(Clone, Copy, Debug, PartialEq, Eq, Structural)]
pub struct Timestamp {
    /// Seconds since the Unix epoch, in UTC.
    pub seconds: i64,
    /// Nanoseconds past `seconds`; a leap second counts above one billion.
    pub nanos: u32,
    /// The offset from UTC, in seconds, east positive.
    pub offset_seconds: i32,
}

impl Timestamp {
    /// The nanoseconds stay below two seconds and the offset below one day.
    pub open spec fn wf(self) -> bool {
        self.nanos < 2_000_000_000 && -86_400 < self.offset_seconds < 86_400
    }
}

/// Information about a bot.
#[derive(Clone, Debug)]
pub struct Bot {
    /// The avatar hash of the bot user.
    pub avatar: Option<String>,
    /// The certified status of the bot.
    pub certified_bot: bool,
    /// The date when the bot was approved.
    pub date: Timestamp,
    /// The CDN hash of the bot's avatar if the bot has none.
    pub def_avatar: Option<String>,
    /// The long description of the bot; can contain HTML and/or Markdown.
    pub description_long: Option<String>,
    /// The short description of the bot.
    pub description_short: String,
    /// The discriminator of the bot.
    pub discriminator: String,
    /// The link to the GitHub repo of the bot.
    pub github: Option<String>,
    /// The ID of the bot.
    pub id: String,
    /// The custom bot invite URL of the bot.
    pub invite: Option<String>,
    /// The library of the bot.
    pub lib: String,
    /// The owners of the bot. The first one is the main owner.
    pub owners: Vec<String>,
    /// The amount of upvotes the bot has.
    pub points: u64,
    /// The prefix of the bot.
    pub prefix: String,
    /// The support server invite code of the bot.
    pub support: Option<String>,
    /// The tags of the bot.
    pub tags: Vec<String>,
    /// The username of the bot.
    pub username: String,
    /// The vanity URL of the bot.
    pub vanity: Option<String>,
    /// The website URL of the bot.
    pub website: Option<String>,
}

/// Information about a bot's statistics.
#[derive(Clone, Debug)]
pub struct BotStats {
    /// The amount of servers the bot is in.
    pub server_count: Option<u64>,
    /// The amount of servers the bot is in per shard; always present, but may
    /// be empty.
    pub shards: Vec<u64>,
    /// The amount of shards a bot has.
    pub shard_count: Option<u64>,
}

/// Information about who has voted for a bot.
#[derive(Clone, Debug)]
pub enum BotVotes {
    /// A list of IDs of the Discord users who have voted for a bot.
    Ids(Vec<u64>),
    /// A list of user objects of the Discord users who have voted for a bot.
    Users(Vec<DiscordUser>),
}

/// What the votes decode to, given the attempt to read the body as ids and
/// the attempt to read it as users.
pub open spec fn votes_from_attempts(
    ids: core::result::Result<Vec<u64>, serde_json::Error>,
    users: core::result::Result<Vec<DiscordUser>, serde_json::Error>,
) -> Result<BotVotes> {
    match ids {
        Ok(v) => Ok(BotVotes::Ids(v)),
        Err(_) => match users {
            Ok(u) => Ok(BotVotes::Users(u)),
            Err(e) => Err(ApiError::Json(e)),
        },
    }
}

impl BotVotes {
    /// Chooses the shape of a votes body: a list of ids where the body reads
    /// as one, else a list of users where it reads as one, else the error of
    /// reading it as users.
    pub fn from_attempts(
        ids: core::result::Result<Vec<u64>, serde_json::Error>,
        users: core::result::Result<Vec<DiscordUser>, serde_json::Error>,
    ) -> (r: Result<BotVotes>)
        ensures
            r == votes_from_attempts(ids, users),
    {
        match ids {
            Ok(v) => Ok(BotVotes::Ids(v)),
            Err(_) => match users {
                Ok(u) => Ok(BotVotes::Users(u)),
                Err(e) => Err(ApiError::Json(e)),
            },
        }
    }
}

/// Information about a Discord user.
#[derive(Clone, Debug)]
pub struct DiscordUser {
    /// The avatar hash of the user's avatar.
    pub avatar: Option<String>,
    /// The discriminator of the user.
    pub discriminator: u16,
    /// The ID of the user.
    pub id: String,
    /// The username of the user.
    pub username: String,
}

/// The answer to whether a user voted for a bot.
#[derive(Clone, Copy, Debug, PartialEq, Eq, Structural)]
pub struct ResponseUserVoted {
    /// `1` where the user voted in the last 24 hours.
    pub voted: u8,
}

impl ResponseUserVoted {
    /// Whether the user voted: the flag is `1`.
    pub fn has_voted(&self) -> (r: bool)
        ensures
            r == (self.voted == 1),
    {
        self.voted == 1
    }
}

/// Information about a search response.
#[derive(Clone, Debug)]
pub struct SearchResponse<T> {
    /// The length of the results vector.
    pub count: u64,
    /// The limit used.
    pub limit: u64,
    /// The offset used.
    pub offset: u64,
    /// The matching results.
    pub results: Vec<T>,
    /// The total number of results matching the search.
    pub total: u64,
}

/// Information about one or more shards, used to update a bot's sharding
/// stats.
#[derive(Clone, Debug)]
pub enum ShardStats {
    /// The cumulative guild information for all of the bot.
    Cumulative {
        /// The total number of shards in use.
        shard_count: Option<u64>,
        /// The total number of guilds across the entire bot.
        total: u64,
    },
    /// The guild information for a single shard.
    Shard {
        /// The total number of guilds in the shard.
        guild_count: u16,
        /// The total number of shards in use.
        shard_count: u64,
        /// The ID of the shard being posted for.
        shard_id: u64,
    },
    /// The guild information for all shards: each index is the shard ID,
    /// mapped to the number of guilds in the shard.
    Shards(Vec<u64>),
}

/// Social information about a user.
#[derive(Clone, Debug)]
pub struct Social {
    /// The GitHub username of the user.
    pub github: String,
    /// The Instagram username of the user.
    pub instagram: String,
    /// The Reddit username of the user.
    pub reddit: String,
    /// The Twitter username of the user.
    pub twitter: String,
    /// The YouTube username of the user.
    pub youtube: String,
}

impl Default for Social {
    /// Every handle empty.
    fn default() -> (r: Self)
        ensures
            r.github@.len() == 0,
            r.instagram@.len() == 0,
            r.reddit@.len() == 0,
            r.twitter@.len() == 0,
            r.youtube@.len() == 0,
    {
        Social {
            github: String::new(),
            instagram: String::new(),
            reddit: String::new(),
            twitter: String::new(),
            youtube: String::new(),
        }
    }
}

/// Information about a user.
#[derive(Clone, Debug)]
pub struct User {
    /// The admin status of the user.
    pub admin: bool,
    /// The avatar hash of the user's avatar.
    pub avatar: Option<String>,
    /// The banner image URL of the user.
    pub banner: Option<String>,
    /// The bio of the user.
    pub bio: Option<String>,
    /// The certified status of the user.
    pub certified_dev: bool,
    /// The custom hex colour of the user.
    pub colour: Option<String>,
    /// The CDN hash of the user's avatar if the user has none.
    pub def_avatar: Option<String>,
    /// The discriminator of the user.
    pub discriminator: String,
    /// The ID of the user.
    pub id: String,
    /// The mod status of the user.
    pub mod_: bool,
    /// The user's social information; all empty where the service gives none.
    pub social: Social,
    /// Whether the user is a supporter of the website.
    pub supporter: bool,
    /// The username of the user.
    pub username: String,
    /// The website moderator status of the user.
    pub web_mod: bool,
}

} // verus!
