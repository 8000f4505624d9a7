use vstd::prelude::*;

use crate::text::text_is;

verus! {

/// The bot's configuration, as read from its configuration file.
#[derive(Clone, Debug)]
pub struct ConfigurationData {
    pub bot: BotConfig,
    pub api: APIConfig,
    pub database: DatabaseConfig,
}

/// Settings of the bot itself.
#[derive(Clone, Debug)]
pub struct BotConfig {
    /// The command prefix.
    pub prefix: String,
    /// The owners' user ids, as written in the file.
    pub owners: Vec<String>,
    pub application: BotApplicationConfig,
    pub logging: BotLoggingConfig,
}

/// Logging settings, and where the statistics message lives.
#[derive(Clone, Debug)]
pub struct BotLoggingConfig {
    pub enabled: bool,
    /// The name of the most verbose level that is logged.
    pub level: String,
    /// The channel of the statistics message.
    pub stats_channel: u64,
    /// The statistics message, which is edited in place.
    pub stats_message: u64,
}

/// The Discord application the bot runs as.
#[derive(Clone, Debug)]
pub struct BotApplicationConfig {
    pub id: u64,
    pub token: String,
}

/// Where the database is.
#[derive(Clone, Debug)]
pub struct DatabaseConfig {
    pub url: String,
}

/// Keys for outside services.
#[derive(Clone, Debug)]
pub struct APIConfig {
    pub hypixel: HypixelAPIConfig,
}

/// The Hypixel API key.
#[derive(Clone, Debug)]
pub struct HypixelAPIConfig {
    pub key: String,
}

/// How verbose logging is.
#[derive(Clone, Copy, Debug, PartialEq, Eq, Structural)]
pub enum LogLevel {
    Error,
    Warn,
    Info,
    Debug,
    Trace,
}

/// The level a configured name stands for; a name that is not one of the five
/// levels, written in lower case, means the most verbose level.
pub open spec fn log_level_named(name: Seq<char>) -> LogLevel {
    if name == "error"@ {
        LogLevel::Error
    } else if name == "warn"@ {
        LogLevel::Warn
    } else if name == "info"@ {
        LogLevel::Info
    } else if name == "debug"@ {
        LogLevel::Debug
    } else {
        LogLevel::Trace
    }
}

impl LogLevel {
    /// The level a configured name stands for.
    pub fn from_name(name: &str) -> (level: LogLevel)
        ensures
            level == log_level_named(name@),
    {
        if text_is(name, "error") {
            LogLevel::Error
        } else if text_is(name, "warn") {
            LogLevel::Warn
        } else if text_is(name, "info") {
            LogLevel::Info
        } else if text_is(name, "debug") {
            LogLevel::Debug
        } else {
            LogLevel::Trace
        }
    }
}

impl ConfigurationData {
    /// The logging level, when logging is enabled.
    pub fn log_level(&self) -> (level: Option<LogLevel>)
        ensures
            level == (if self.bot.logging.enabled {
                Some(log_level_named(self.bot.logging.level@))
            } else {
                None
            }),
    {
        if self.bot.logging.enabled {
            Some(LogLevel::from_name(self.bot.logging.level.as_str()))
        } else {
            None
        }
    }
}

/// Only the four names `error`, `warn`, `info` and `debug`, written exactly so,
/// select a level other than the most verbose one; every other name, in any
/// other case or spelling, means trace.
pub proof fn lemma_log_level_names(name: Seq<char>)
    ensures
        log_level_named(name) == LogLevel::Error <==> name == "error"@,
        log_level_named(name) == LogLevel::Warn <==> name == "warn"@,
        log_level_named(name) == LogLevel::Info <==> name == "info"@,
        log_level_named(name) == LogLevel::Debug <==> name == "debug"@,
        log_level_named(name) == LogLevel::Trace <==> (name != "error"@ && name != "warn"@ && name
            != "info"@ && name != "debug"@),
{
    reveal_strlit("error");
    reveal_strlit("warn");
    reveal_strlit("info");
    reveal_strlit("debug");
    assert("error"@.len() != "warn"@.len());
    assert("error"@.len() != "info"@.len());
    assert("error"@[0] != "debug"@[0]);
    assert("warn"@[0] != "info"@[0]);
    assert("warn"@.len() != "debug"@.len());
    assert("info"@.len() != "debug"@.len());
}

} // verus!
