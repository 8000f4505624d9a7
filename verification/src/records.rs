use vstd::prelude::*;

verus! {

/// The value a Discord snowflake is stored as in a signed 64-bit database column:
/// its bits read as a two's-complement integer.
pub open spec fn db_key(id: u64) -> int {
    if id <= i64::MAX as u64 {
        id as int
    } else {
        id as int - 0x1_0000_0000_0000_0000
    }
}

/// Converts a snowflake for a signed 64-bit column, keeping its bits.
pub fn snowflake_to_db(id: u64) -> (key: i64)
    ensures
        key as int == db_key(id),
{
    let key: i64 = id as i64;
    assert(id <= 0x7fff_ffff_ffff_ffffu64 ==> (id as i64) as int == id as int) by (bit_vector);
    assert(id > 0x7fff_ffff_ffff_ffffu64 ==> (id as i64) as int == id as int - 0x1_0000_0000_0000_0000int)
        by (bit_vector);
    key
}

/// Distinct snowflakes are stored under distinct keys, so no two users, guilds or
/// issuers share a row key.
pub proof fn lemma_db_key_injective(a: u64, b: u64)
    ensures
        db_key(a) == db_key(b) ==> a == b,
{
}

/// The stored key fits a signed 64-bit column and has the same 64 bits as the
/// snowflake: the two differ by a multiple of 2^64.
pub proof fn lemma_db_key_keeps_bits(id: u64)
    ensures
        i64::MIN <= db_key(id) <= i64::MAX,
        (db_key(id) - id) % 0x1_0000_0000_0000_0000 == 0,
{
}

/// The kinds of moderation action that are written to the action log.
#[derive(Clone, Copy, Debug, PartialEq, Eq)]
pub enum ModAction {
    Mute,
    Kick,
    Ban,
    ViewLogs,
}

/// The label stored in the `type` column for each kind of action.
pub open spec fn action_label_spec(kind: ModAction) -> Seq<char> {
    match kind {
        ModAction::Mute => "MUTE"@,
        ModAction::Kick => "KICK"@,
        ModAction::Ban => "BAN"@,
        ModAction::ViewLogs => "VIEW_LOGS"@,
    }
}

/// The statement that writes a mute, which stores the reason.
pub open spec fn mute_insert_sql() -> Seq<char> {
    "INSERT INTO \"actions\" (user_id, guild_id, type, timestamp, issuer_id, reason) VALUES ($1, $2, $3, $4, $5, $6) ON CONFLICT DO NOTHING"@
}

/// The statement that writes any other action; it has no reason column.
pub open spec fn plain_insert_sql() -> Seq<char> {
    "INSERT INTO \"actions\" (user_id, guild_id, type, timestamp, issuer_id) VALUES ($1, $2, $3, $4, $5) ON CONFLICT DO NOTHING"@
}

/// The statement used to write an action of the given kind.
pub open spec fn action_sql_spec(kind: ModAction) -> Seq<char> {
    match kind {
        ModAction::Mute => mute_insert_sql(),
        _ => plain_insert_sql(),
    }
}

impl ModAction {
    /// The label stored in the `type` column.
    pub fn label(&self) -> (s: &'static str)
        ensures
            s@ == action_label_spec(*self),
    {
        match self {
            ModAction::Mute => "MUTE",
            ModAction::Kick => "KICK",
            ModAction::Ban => "BAN",
            ModAction::ViewLogs => "VIEW_LOGS",
        }
    }

    /// The insert statement for this kind of action. The caller binds, in order,
    /// user, guild, label, time, issuer and reason for every kind. Only the mute
    /// statement has six placeholders; the others have five, so PostgreSQL refuses
    /// the sixth bound value and the write of a kick, ban or log view fails.
    pub fn insert_sql(&self) -> (s: &'static str)
        ensures
            s@ == action_sql_spec(*self),
    {
        match self {
            ModAction::Mute => "INSERT INTO \"actions\" (user_id, guild_id, type, timestamp, issuer_id, reason) VALUES ($1, $2, $3, $4, $5, $6) ON CONFLICT DO NOTHING",
            _ => "INSERT INTO \"actions\" (user_id, guild_id, type, timestamp, issuer_id) VALUES ($1, $2, $3, $4, $5) ON CONFLICT DO NOTHING",
        }
    }
}

/// One row of the moderation action log, as bound to the insert statement; the
/// timestamp is taken by the caller when the row is written.
pub struct ActionRecord {
    pub kind: ModAction,
    pub user_id: i64,
    pub guild_id: i64,
    pub issuer_id: i64,
    pub reason: String,
}

/// What an action record holds, with its reason as text.
pub struct ActionRecordView {
    pub kind: ModAction,
    pub user_id: int,
    pub guild_id: int,
    pub issuer_id: int,
    pub reason: Seq<char>,
}

impl View for ActionRecord {
    type V = ActionRecordView;

    open spec fn view(&self) -> ActionRecordView {
        ActionRecordView {
            kind: self.kind,
            user_id: self.user_id as int,
            guild_id: self.guild_id as int,
            issuer_id: self.issuer_id as int,
            reason: self.reason@,
        }
    }
}

/// The record of `kind` taken by `issuer` against `target` in `guild`.
pub open spec fn action_record_spec(
    kind: ModAction,
    issuer: u64,
    target: u64,
    reason: Seq<char>,
    guild: u64,
) -> ActionRecordView {
    ActionRecordView {
        kind,
        user_id: db_key(target),
        guild_id: db_key(guild),
        issuer_id: db_key(issuer),
        reason,
    }
}

impl ActionRecord {
    /// The record of `kind` taken by `issuer` against `target` in `guild`, with
    /// every snowflake converted for its signed column.
    pub fn new(kind: ModAction, issuer: u64, target: u64, reason: String, guild: u64) -> (r: ActionRecord)
        ensures
            r@ == action_record_spec(kind, issuer, target, reason@, guild),
    {
        ActionRecord {
            kind,
            user_id: snowflake_to_db(target),
            guild_id: snowflake_to_db(guild),
            issuer_id: snowflake_to_db(issuer),
            reason,
        }
    }
}

/// The statement that registers a user the first time they write.
pub open spec fn user_insert_sql() -> Seq<char> {
    "INSERT INTO \"users\" (user_id, first_interaction) VALUES ($1, $2) ON CONFLICT DO NOTHING"@
}

/// The statement that registers a guild when it becomes available.
pub open spec fn guild_insert_sql() -> Seq<char> {
    "INSERT INTO \"guilds\" (guild_id, first_interaction) VALUES ($1, $2) ON CONFLICT DO NOTHING"@
}

/// The query that reads whether a user is blacklisted.
pub open spec fn blacklist_query_sql() -> Seq<char> {
    "SELECT blacklisted FROM \"users\" WHERE user_id = $1"@
}

/// The statement that registers a user.
pub fn user_insert() -> (s: &'static str)
    ensures
        s@ == user_insert_sql(),
{
    "INSERT INTO \"users\" (user_id, first_interaction) VALUES ($1, $2) ON CONFLICT DO NOTHING"
}

/// The statement that registers a guild.
pub fn guild_insert() -> (s: &'static str)
    ensures
        s@ == guild_insert_sql(),
{
    "INSERT INTO \"guilds\" (guild_id, first_interaction) VALUES ($1, $2) ON CONFLICT DO NOTHING"
}

/// The query that reads a user's blacklist flag.
pub fn blacklist_query() -> (s: &'static str)
    ensures
        s@ == blacklist_query_sql(),
{
    "SELECT blacklisted FROM \"users\" WHERE user_id = $1"
}

} // verus!
