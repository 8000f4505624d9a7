use vstd::prelude::*;

use crate::records::{db_key, guild_insert, guild_insert_sql, snowflake_to_db, user_insert, user_insert_sql};

verus! {

/// A row to insert when the bot first meets a user or a guild: the statement
/// and the key bound as its first parameter; the time of first interaction is
/// bound second.
pub struct Registration {
    pub statement: &'static str,
    pub key: i64,
}

/// Reacts to gateway events by deciding what to store.
pub struct Handler;

impl Handler {
    /// On a message: the author is registered unless they are a bot.
    pub fn on_message(&self, author_id: u64, author_is_bot: bool) -> (r: Option<Registration>)
        ensures
            author_is_bot ==> r is None,
            !author_is_bot ==> (r matches Some(reg) && reg.statement@ == user_insert_sql() && reg.key
                == db_key(author_id)),
    {
        if author_is_bot {
            None
        } else {
            Some(Registration { statement: user_insert(), key: snowflake_to_db(author_id) })
        }
    }

    /// When a guild becomes available: the guild is registered.
    pub fn on_guild_create(&self, guild_id: u64) -> (r: Registration)
        ensures
            r.statement@ == guild_insert_sql(),
            r.key == db_key(guild_id),
    {
        Registration { statement: guild_insert(), key: snowflake_to_db(guild_id) }
    }
}

} // verus!
