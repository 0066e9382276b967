//! The bot's settings and how they are read from their textual values.

use vstd::prelude::*;
use vstd::string::*;

use crate::db::models::opt_text;
use crate::text::{parse_i64, str_parse_i64};

verus! {

/// The bot's settings.
#[derive(Debug)]
pub struct Config {
    pub bot_token: String,
    pub owner_id: i64,
    pub owner_name: String,
    pub channel_id: i64,
    pub bot_username: String,
    pub db_path: String,
}

impl Clone for Config {
    fn clone(&self) -> (r: Self)
        ensures
            r == *self,
    {
        Config {
            bot_token: self.bot_token.clone(),
            owner_id: self.owner_id,
            owner_name: self.owner_name.clone(),
            channel_id: self.channel_id,
            bot_username: self.bot_username.clone(),
            db_path: self.db_path.clone(),
        }
    }
}

/// Why the settings could not be read.
#[derive(Debug, Clone, Copy, PartialEq, Eq, Structural)]
pub enum ConfigError {
    TokenMissing,
    OwnerIdMissing,
    OwnerIdNotNumber,
    ChannelIdMissing,
    ChannelIdNotNumber,
    BotUsernameMissing,
}

/// What each setting error says.
pub open spec fn config_error_text(e: ConfigError) -> Seq<char> {
    match e {
        ConfigError::TokenMissing => "TELEGRAM_BOT_TOKEN not set"@,
        ConfigError::OwnerIdMissing => "OWNER_ID not set"@,
        ConfigError::OwnerIdNotNumber => "OWNER_ID must be a number"@,
        ConfigError::ChannelIdMissing => "CHANNEL_ID not set"@,
        ConfigError::ChannelIdNotNumber => "CHANNEL_ID must be a number"@,
        ConfigError::BotUsernameMissing => "BOT_USERNAME not set"@,
    }
}

impl ConfigError {
    /// The message of the error.
    pub fn describe(&self) -> (r: &'static str)
        ensures
            r@ == config_error_text(*self),
    {
        match self {
            ConfigError::TokenMissing => "TELEGRAM_BOT_TOKEN not set",
            ConfigError::OwnerIdMissing => "OWNER_ID not set",
            ConfigError::OwnerIdNotNumber => "OWNER_ID must be a number",
            ConfigError::ChannelIdMissing => "CHANNEL_ID not set",
            ConfigError::ChannelIdNotNumber => "CHANNEL_ID must be a number",
            ConfigError::BotUsernameMissing => "BOT_USERNAME not set",
        }
    }
}

/// The owner's display name when none is configured.
pub open spec fn default_owner_name() -> Seq<char> {
    "Owner"@
}

/// The store's file when none is configured.
pub open spec fn default_db_path() -> Seq<char> {
    "data/bot.db"@
}

/// The outcome of reading the settings from the values of the variables
/// `TELEGRAM_BOT_TOKEN`, `OWNER_ID`, `OWNER_NAME`, `CHANNEL_ID`,
/// `BOT_USERNAME` and `DB_PATH` (absent ones as `None`), checked in that
/// order; `Ok` holds the token, owner, channel and username read.
pub open spec fn config_outcome(
    token: Option<Seq<char>>,
    owner_id: Option<Seq<char>>,
    channel_id: Option<Seq<char>>,
    bot_username: Option<Seq<char>>,
) -> Result<(i64, i64), ConfigError> {
    if token is None {
        Err(ConfigError::TokenMissing)
    } else if owner_id is None {
        Err(ConfigError::OwnerIdMissing)
    } else if parse_i64(owner_id->0) is None {
        Err(ConfigError::OwnerIdNotNumber)
    } else if channel_id is None {
        Err(ConfigError::ChannelIdMissing)
    } else if parse_i64(channel_id->0) is None {
        Err(ConfigError::ChannelIdNotNumber)
    } else if bot_username is None {
        Err(ConfigError::BotUsernameMissing)
    } else {
        Ok((parse_i64(owner_id->0)->0, parse_i64(channel_id->0)->0))
    }
}

impl Config {
    /// Builds the settings from the values of the variables
    /// `TELEGRAM_BOT_TOKEN`, `OWNER_ID`, `OWNER_NAME`, `CHANNEL_ID`,
    /// `BOT_USERNAME` and `DB_PATH` (`None` for an absent variable).
    /// The ids must be integers; the owner's name defaults to `Owner` and
    /// the store's path to `data/bot.db`.
    pub fn from_values(
        token: Option<String>,
        owner_id: Option<String>,
        owner_name: Option<String>,
        channel_id: Option<String>,
        bot_username: Option<String>,
        db_path: Option<String>,
    ) -> (r: Result<Config, ConfigError>)
        ensures
            match config_outcome(opt_text(token), opt_text(owner_id), opt_text(channel_id), opt_text(bot_username)) {
                Err(e) => r == Err::<Config, ConfigError>(e),
                Ok((owner, channel)) => r is Ok && {
                    let c = r->Ok_0;
                    &&& opt_text(token) == Some(c.bot_token@)
                    &&& c.owner_id == owner
                    &&& c.owner_name@ == match opt_text(owner_name) {
                        Some(n) => n,
                        None => default_owner_name(),
                    }
                    &&& c.channel_id == channel
                    &&& opt_text(bot_username) == Some(c.bot_username@)
                    &&& c.db_path@ == match opt_text(db_path) {
                        Some(p) => p,
                        None => default_db_path(),
                    }
                },
            },
    {
        let bot_token = match token {
            Some(t) => t,
            None => return Err(ConfigError::TokenMissing),
        };
        let owner_text = match owner_id {
            Some(t) => t,
            None => return Err(ConfigError::OwnerIdMissing),
        };
        let owner = match str_parse_i64(owner_text.as_str()) {
            Some(v) => v,
            None => return Err(ConfigError::OwnerIdNotNumber),
        };
        let owner_name = match owner_name {
            Some(n) => n,
            None => String::from_str("Owner"),
        };
        let channel_text = match channel_id {
            Some(t) => t,
            None => return Err(ConfigError::ChannelIdMissing),
        };
        let channel = match str_parse_i64(channel_text.as_str()) {
            Some(v) => v,
            None => return Err(ConfigError::ChannelIdNotNumber),
        };
        let bot_username = match bot_username {
            Some(u) => u,
            None => return Err(ConfigError::BotUsernameMissing),
        };
        let db_path = match db_path {
            Some(p) => p,
            None => String::from_str("data/bot.db"),
        };
        Ok(Config { bot_token, owner_id: owner, owner_name, channel_id: channel, bot_username, db_path })
    }
}

} // verus!
