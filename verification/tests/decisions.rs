use sary::config::{
    APIConfig, BotApplicationConfig, BotConfig, BotLoggingConfig, ConfigurationData, DatabaseConfig,
    HypixelAPIConfig, LogLevel,
};
use sary::events::Handler;
use sary::hooks::{dispatch_error_reply, may_run_command, prefix_only_reply, test_reply, DispatchFailure};
use sary::records::{snowflake_to_db, ActionRecord, ModAction};
use sary::text::{i64_text, u64_text};

#[test]
fn decimal_rendering() {
    assert_eq!(u64_text(0), "0");
    assert_eq!(u64_text(7), "7");
    assert_eq!(u64_text(1234567890), "1234567890");
    assert_eq!(u64_text(u64::MAX), "18446744073709551615");
    assert_eq!(i64_text(-42), "-42");
    assert_eq!(i64_text(0), "0");
    assert_eq!(i64_text(i64::MIN), "-9223372036854775808");
    assert_eq!(i64_text(i64::MAX), "9223372036854775807");
}

#[test]
fn snowflakes_keep_their_bits() {
    assert_eq!(snowflake_to_db(0), 0);
    assert_eq!(snowflake_to_db(704641046465740851), 704641046465740851);
    assert_eq!(snowflake_to_db(u64::MAX), -1);
    assert_eq!(snowflake_to_db(1u64 << 63), i64::MIN);
}

#[test]
fn distinct_snowflakes_distinct_keys() {
    let ids = [0u64, 1, (1u64 << 63) - 1, 1u64 << 63, u64::MAX];
    for a in ids.iter() {
        for b in ids.iter() {
            assert_eq!(a == b, snowflake_to_db(*a) == snowflake_to_db(*b));
        }
    }
}

#[test]
fn action_records_and_statements() {
    let r = ActionRecord::new(ModAction::Mute, 5, u64::MAX, "spam".to_string(), 9);
    assert_eq!(r.user_id, -1);
    assert_eq!(r.guild_id, 9);
    assert_eq!(r.issuer_id, 5);
    assert_eq!(r.reason, "spam");
    assert_eq!(ModAction::Mute.label(), "MUTE");
    assert_eq!(ModAction::Kick.label(), "KICK");
    assert_eq!(ModAction::Ban.label(), "BAN");
    assert_eq!(ModAction::ViewLogs.label(), "VIEW_LOGS");
    assert_eq!(
        ModAction::Mute.insert_sql(),
        "INSERT INTO \"actions\" (user_id, guild_id, type, timestamp, issuer_id, reason) VALUES ($1, $2, $3, $4, $5, $6) ON CONFLICT DO NOTHING"
    );
    assert_eq!(
        ModAction::ViewLogs.insert_sql(),
        "INSERT INTO \"actions\" (user_id, guild_id, type, timestamp, issuer_id) VALUES ($1, $2, $3, $4, $5) ON CONFLICT DO NOTHING"
    );
}

#[test]
fn blacklist_decides_command_use() {
    assert!(may_run_command(None));
    assert!(may_run_command(Some(false)));
    assert!(!may_run_command(Some(true)));
}

#[test]
fn dispatch_replies() {
    assert_eq!(
        dispatch_error_reply(DispatchFailure::Ratelimited { secs: 5 }).unwrap(),
        "This command has been rate limited. Try again in 5 second(s)."
    );
    assert_eq!(
        dispatch_error_reply(DispatchFailure::CommandDisabled("ping".to_string())).unwrap(),
        "The ping command has been disabled and cannot be used."
    );
    assert_eq!(
        dispatch_error_reply(DispatchFailure::OnlyForDm).unwrap(),
        "This command is only available in Direct Messages."
    );
    assert_eq!(
        dispatch_error_reply(DispatchFailure::OnlyForGuilds).unwrap(),
        "This command is only available in guilds."
    );
    assert_eq!(
        dispatch_error_reply(DispatchFailure::OnlyForOwners).unwrap(),
        "This command is restricted to bot owners."
    );
    assert_eq!(
        dispatch_error_reply(DispatchFailure::LackingRole).unwrap(),
        "You lack the necessary role to use this command."
    );
    assert_eq!(
        dispatch_error_reply(DispatchFailure::NotEnoughArguments { min: 1, given: 0 }).unwrap(),
        "This command needs 1 arguments, but got 0."
    );
    assert_eq!(
        dispatch_error_reply(DispatchFailure::TooManyArguments { max: 2, given: 3 }).unwrap(),
        "Max arguments allowed is 2, but got 3."
    );
    assert!(dispatch_error_reply(DispatchFailure::CheckFailed).is_none());
    assert!(dispatch_error_reply(DispatchFailure::BlockedUser).is_none());
    assert!(dispatch_error_reply(DispatchFailure::BlockedGuild).is_none());
    assert!(dispatch_error_reply(DispatchFailure::BlockedChannel).is_none());
}

#[test]
fn lacking_permissions_names_them() {
    // Bit 3 is ADMINISTRATOR; bit 1 is KICK_MEMBERS and bit 2 is BAN_MEMBERS.
    let one = dispatch_error_reply(DispatchFailure::LackingPermissions(1 << 3)).unwrap();
    assert_eq!(
        one,
        "You lack the permissions required to use this command. Permissions needed: Administrator"
    );
    let two = dispatch_error_reply(DispatchFailure::LackingPermissions((1 << 1) | (1 << 2))).unwrap();
    assert_eq!(
        two,
        "You lack the permissions required to use this command. Permissions needed: Ban Members and Kick Members"
    );
}

#[test]
fn fixed_replies() {
    assert_eq!(
        prefix_only_reply(),
        "Hello! I noticed that you provided my prefix but did not send a command. If you would like to get help on how to use my functionality, please run the help command."
    );
    assert_eq!(test_reply(), "shut up");
}

#[test]
fn message_authors_are_registered_unless_bots() {
    let h = Handler;
    assert!(h.on_message(10, true).is_none());
    let r = h.on_message(u64::MAX, false).unwrap();
    assert_eq!(r.key, -1);
    assert_eq!(
        r.statement,
        "INSERT INTO \"users\" (user_id, first_interaction) VALUES ($1, $2) ON CONFLICT DO NOTHING"
    );
    let g = h.on_guild_create(42);
    assert_eq!(g.key, 42);
    assert_eq!(
        g.statement,
        "INSERT INTO \"guilds\" (guild_id, first_interaction) VALUES ($1, $2) ON CONFLICT DO NOTHING"
    );
}

fn config_with(enabled: bool, level: &str) -> ConfigurationData {
    ConfigurationData {
        bot: BotConfig {
            prefix: "!".to_string(),
            owners: vec!["1".to_string()],
            application: BotApplicationConfig { id: 1, token: "t".to_string() },
            logging: BotLoggingConfig {
                enabled,
                level: level.to_string(),
                stats_channel: 2,
                stats_message: 3,
            },
        },
        api: APIConfig { hypixel: HypixelAPIConfig { key: "k".to_string() } },
        database: DatabaseConfig { url: "postgres://x".to_string() },
    }
}

#[test]
fn log_levels_from_config() {
    assert_eq!(LogLevel::from_name("error"), LogLevel::Error);
    assert_eq!(LogLevel::from_name("warn"), LogLevel::Warn);
    assert_eq!(LogLevel::from_name("info"), LogLevel::Info);
    assert_eq!(LogLevel::from_name("debug"), LogLevel::Debug);
    assert_eq!(LogLevel::from_name("trace"), LogLevel::Trace);
    assert_eq!(LogLevel::from_name("INFO"), LogLevel::Trace);
    assert_eq!(LogLevel::from_name(""), LogLevel::Trace);
    assert_eq!(config_with(true, "warn").log_level(), Some(LogLevel::Warn));
    assert_eq!(config_with(false, "warn").log_level(), None);
}
