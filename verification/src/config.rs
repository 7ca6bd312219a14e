//! The service's settings: how they are read from named text values, and
//! the rules they must meet.

use vstd::prelude::*;
use crate::parse::{i32_value, i64_value, id_list, parse_i32, parse_i64, parse_id_list, parse_u64, u64_value};

verus! {

/// Where the database lies unless a value says otherwise.
pub open spec fn default_database_url() -> Seq<char> {
    "sqlite:finalshell_bot.db"@
}

/// The log level unless a value says otherwise.
pub open spec fn default_log_level() -> Seq<char> {
    "info"@
}

/// Requests allowed to a user unless a value says otherwise.
pub const DEFAULT_MAX_USER_REQUESTS: i32 = 3;

/// Seconds between two health checks unless a value says otherwise: a day.
pub const DEFAULT_GUARD_CHECK_INTERVAL: u64 = 86400;

/// The settings of the service.
#[derive(Debug, Clone)]
pub struct Config {
    pub bot_token: String,
    pub chat_id: i64,
    pub admin_ids: Vec<i64>,
    pub database_url: String,
    pub max_user_requests: i32,
    pub log_level: String,
    /// Seconds between two health checks.
    pub guard_check_interval: u64,
}

/// The mathematical value of a [`Config`].
pub struct ConfigView {
    pub bot_token: Seq<char>,
    pub chat_id: i64,
    pub admin_ids: Seq<i64>,
    pub database_url: Seq<char>,
    pub max_user_requests: i32,
    pub log_level: Seq<char>,
    pub guard_check_interval: u64,
}

impl View for Config {
    type V = ConfigView;

    open spec fn view(&self) -> ConfigView {
        ConfigView {
            bot_token: self.bot_token@,
            chat_id: self.chat_id,
            admin_ids: self.admin_ids@,
            database_url: self.database_url@,
            max_user_requests: self.max_user_requests,
            log_level: self.log_level@,
            guard_check_interval: self.guard_check_interval,
        }
    }
}

/// What is wrong with the settings or with the values they are read from.
#[derive(Debug, Clone, Copy, PartialEq, Eq, Structural)]
pub enum ConfigError {
    /// No value was given for the bot token.
    BotTokenNotSet,
    /// No value was given for the chat id.
    ChatIdNotSet,
    /// The value of the chat id is no number.
    ChatIdMalformed,
    /// The bot token is empty.
    EmptyBotToken,
    /// The chat id is zero.
    ZeroChatId,
    /// The number of requests allowed to a user is not positive.
    NoRequestsAllowed,
}

impl ConfigError {
    /// The text of the error.
    pub open spec fn text(self) -> Seq<char> {
        match self {
            ConfigError::BotTokenNotSet => "BOT_TOKEN 环境变量未设置"@,
            ConfigError::ChatIdNotSet => "CHAT_ID 环境变量未设置"@,
            ConfigError::ChatIdMalformed => "CHAT_ID 格式错误"@,
            ConfigError::EmptyBotToken => "Bot token 不能为空"@,
            ConfigError::ZeroChatId => "Chat ID 不能为空"@,
            ConfigError::NoRequestsAllowed => "最大用户请求数必须大于0"@,
        }
    }

    /// The text of the error, as shown to a person.
    pub fn message(&self) -> (s: String)
        ensures
            s@ == self.text(),
    {
        match self {
            ConfigError::BotTokenNotSet => "BOT_TOKEN 环境变量未设置".to_owned(),
            ConfigError::ChatIdNotSet => "CHAT_ID 环境变量未设置".to_owned(),
            ConfigError::ChatIdMalformed => "CHAT_ID 格式错误".to_owned(),
            ConfigError::EmptyBotToken => "Bot token 不能为空".to_owned(),
            ConfigError::ZeroChatId => "Chat ID 不能为空".to_owned(),
            ConfigError::NoRequestsAllowed => "最大用户请求数必须大于0".to_owned(),
        }
    }
}

/// The value of what reading the settings gives: the settings' value, or
/// the error.
pub open spec fn outcome_view(r: Result<Config, ConfigError>) -> Result<ConfigView, ConfigError> {
    match r {
        Ok(config) => Ok(config@),
        Err(e) => Err(e),
    }
}

/// The text of a value that may be missing.
pub open spec fn text_of(value: Option<&str>) -> Option<Seq<char>> {
    match value {
        Some(s) => Some(s@),
        None => None,
    }
}

/// The settings that a set of values stands for.
///
/// The bot token and the chat id must be given, and the chat id must be a
/// number. The list of administrators is empty unless given; what is no
/// number in it is passed over. Every other setting has a default, which
/// also stands in for a number that cannot be read.
pub open spec fn settings_from(
    bot_token: Option<Seq<char>>,
    chat_id: Option<Seq<char>>,
    admin_ids: Option<Seq<char>>,
    database_url: Option<Seq<char>>,
    max_user_requests: Option<Seq<char>>,
    log_level: Option<Seq<char>>,
    guard_check_interval: Option<Seq<char>>,
) -> Result<ConfigView, ConfigError> {
    if bot_token is None {
        Err(ConfigError::BotTokenNotSet)
    } else if chat_id is None {
        Err(ConfigError::ChatIdNotSet)
    } else if i64_value(chat_id->Some_0) is None {
        Err(ConfigError::ChatIdMalformed)
    } else {
        Ok(
            ConfigView {
                bot_token: bot_token->Some_0,
                chat_id: i64_value(chat_id->Some_0)->Some_0,
                admin_ids: match admin_ids {
                    Some(list) => id_list(list),
                    None => id_list(Seq::empty()),
                },
                database_url: match database_url {
                    Some(url) => url,
                    None => default_database_url(),
                },
                max_user_requests: match max_user_requests {
                    Some(n) => match i32_value(n) {
                        Some(v) => v,
                        None => DEFAULT_MAX_USER_REQUESTS,
                    },
                    None => DEFAULT_MAX_USER_REQUESTS,
                },
                log_level: match log_level {
                    Some(level) => level,
                    None => default_log_level(),
                },
                guard_check_interval: match guard_check_interval {
                    Some(n) => match u64_value(n) {
                        Some(v) => v,
                        None => DEFAULT_GUARD_CHECK_INTERVAL,
                    },
                    None => DEFAULT_GUARD_CHECK_INTERVAL,
                },
            },
        )
    }
}

impl Config {
    /// The first rule that the configuration breaks, in the order in which
    /// the rules are checked; `None` where it breaks none.
    pub open spec fn first_error(&self) -> Option<ConfigError> {
        if self.bot_token@.len() == 0 {
            Some(ConfigError::EmptyBotToken)
        } else if self.chat_id == 0 {
            Some(ConfigError::ZeroChatId)
        } else if self.max_user_requests <= 0 {
            Some(ConfigError::NoRequestsAllowed)
        } else {
            None
        }
    }

    /// Reads the settings from the values of the named variables, each
    /// `None` where the variable is not set.
    pub fn from_values(
        bot_token: Option<&str>,
        chat_id: Option<&str>,
        admin_ids: Option<&str>,
        database_url: Option<&str>,
        max_user_requests: Option<&str>,
        log_level: Option<&str>,
        guard_check_interval: Option<&str>,
    ) -> (r: Result<Config, ConfigError>)
        ensures
            outcome_view(r) == settings_from(
                text_of(bot_token),
                text_of(chat_id),
                text_of(admin_ids),
                text_of(database_url),
                text_of(max_user_requests),
                text_of(log_level),
                text_of(guard_check_interval),
            ),
    {
        let bot_token: String = match bot_token {
            Some(token) => token.to_owned(),
            None => {
                return Err(ConfigError::BotTokenNotSet);
            },
        };
        let chat_id: i64 = match chat_id {
            Some(text) => match parse_i64(text) {
                Some(id) => id,
                None => {
                    return Err(ConfigError::ChatIdMalformed);
                },
            },
            None => {
                return Err(ConfigError::ChatIdNotSet);
            },
        };
        let admin_ids: Vec<i64> = match admin_ids {
            Some(list) => parse_id_list(list),
            None => {
                let none = parse_id_list("");
                proof {
                    reveal_strlit("");
                    assert(""@ == Seq::<char>::empty());
                }
                none
            },
        };
        let database_url: String = match database_url {
            Some(url) => url.to_owned(),
            None => "sqlite:finalshell_bot.db".to_owned(),
        };
        let max_user_requests: i32 = match max_user_requests {
            Some(text) => match parse_i32(text) {
                Some(n) => n,
                None => DEFAULT_MAX_USER_REQUESTS,
            },
            None => DEFAULT_MAX_USER_REQUESTS,
        };
        let log_level: String = match log_level {
            Some(level) => level.to_owned(),
            None => "info".to_owned(),
        };
        let guard_check_interval: u64 = match guard_check_interval {
            Some(text) => match parse_u64(text) {
                Some(n) => n,
                None => DEFAULT_GUARD_CHECK_INTERVAL,
            },
            None => DEFAULT_GUARD_CHECK_INTERVAL,
        };
        Ok(
            Config {
                bot_token,
                chat_id,
                admin_ids,
                database_url,
                max_user_requests,
                log_level,
                guard_check_interval,
            },
        )
    }

    /// Tells whether `user_id` is listed as an administrator.
    pub fn is_admin(&self, user_id: i64) -> (admin: bool)
        ensures
            admin == self.admin_ids@.contains(user_id),
    {
        let mut i: usize = 0;
        while i < self.admin_ids.len()
            invariant
                i <= self.admin_ids@.len(),
                forall|k: int| 0 <= k < i ==> self.admin_ids@[k] != user_id,
            decreases self.admin_ids.len() - i,
        {
            if self.admin_ids[i] == user_id {
                return true;
            }
            i = i + 1;
        }
        false
    }

    /// Checks the rules: a bot token that is not empty, a chat id other
    /// than zero, and a positive number of requests per user. The first
    /// broken rule is reported.
    pub fn validate(&self) -> (r: Result<(), ConfigError>)
        ensures
            match r {
                Ok(_) => self.first_error() is None,
                Err(e) => self.first_error() == Some(e),
            },
    {
        if self.bot_token.as_str().is_empty() {
            return Err(ConfigError::EmptyBotToken);
        }
        if self.chat_id == 0 {
            return Err(ConfigError::ZeroChatId);
        }
        if self.max_user_requests <= 0 {
            return Err(ConfigError::NoRequestsAllowed);
        }
        Ok(())
    }
}

} // verus!
