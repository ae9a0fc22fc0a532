//! The SQL that the bot sends to its database, and how it reads the
//! database's answers.

use vstd::prelude::*;
use vstd::string::*;
use crate::text::{push_signed_decimal, signed_decimal};

verus! {

/// The statement that creates the `guilds` table, up to its default prefix.
pub const GUILDS_TABLE_SQL_HEAD: &'static str = "\n        CREATE TABLE IF NOT EXISTS public.guilds (\n            discord_id BIGINT PRIMARY KEY,\n            name VARCHAR(255) NOT NULL,\n            prefix VARCHAR(15) NOT NULL DEFAULT '";

/// The rest of the statement that creates the `guilds` table.
pub const GUILDS_TABLE_SQL_TAIL: &'static str = "',\n            guild_type INT NOT NULL DEFAULT 0\n        )\n    ";

pub const USERS_TABLE_SQL: &'static str = "\n        CREATE TABLE IF NOT EXISTS users (\n            discord_id BIGINT PRIMARY KEY,\n            name VARCHAR(255) NOT NULL\n        )\n    ";

pub const FANS_TABLE_SQL: &'static str = "\n        CREATE TABLE IF NOT EXISTS fans (\n            guild_id BIGINT NOT NULL,\n            user_id BIGINT NOT NULL\n        )\n    ";

pub const STATUS_SEQUENCE_SQL: &'static str = "\n        create sequence status_seq\n        start 1\n        increment 1\n        NO MAXVALUE\n        CACHE 1;\n    ";

pub const STATUS_TABLE_SQL: &'static str = "\n        CREATE TABLE IF NOT EXISTS status (\n            id INT UNIQUE NOT NULL,\n            status VARCHAR(100) NOT NULL\n        )\n    ";

pub const CUSTOM_REACTIONS_SEQUENCE_SQL: &'static str = "\n        create sequence custom_reactions_seq\n        start 1\n        increment 1\n        NO MAXVALUE\n        CACHE 1;\n    ";

pub const CUSTOM_REACTIONS_TABLE_SQL: &'static str = "\n        CREATE TABLE IF NOT EXISTS custom_reactions (\n            id INT UNIQUE NOT NULL,\n            question TEXT NOT NULL,\n            reply TEXT NOT NULL,\n            cr_type INT NOT NULL DEFAULT 0,\n            guild_id BIGINT NOT NULL,\n            FOREIGN KEY (guild_id) REFERENCES guilds(discord_id)\n        )\n    ";

/// Marks a user as banned or not; parameters `:banned`, `:banned_at` and
/// `:discord_id`.
pub const SET_BANNED_SQL: &'static str = "\n        UPDATE bans\n        SET banned = :banned,\n        banned_at = :banned_at\n        WHERE discord_id = :discord_id\n    ";

/// Registers a user in `users` unless already there; parameters
/// `:discord_id` and `:name`.
pub const REGISTER_USER_SQL: &'static str = "\n        INSERT IGNORE INTO users (discord_id, name)\n        VALUES (:discord_id, :name)\n    ";

/// Registers a user in `bans` unless already there; parameters
/// `:discord_id` and `:name`.
pub const REGISTER_BAN_ROW_SQL: &'static str = "\n        INSERT IGNORE INTO bans (discord_id, name)\n        VALUES (:discord_id, :name)\n    ";

/// Sets whether a user may be pinged; parameters `:pingable` and
/// `:discord_id`.
pub const SET_PINGABLE_SQL: &'static str = "\n        UPDATE users\n        SET pingable = :pingable\n        WHERE discord_id = :discord_id\n    ";

/// Reads a guild's row; parameter `:discord_id`.
pub const SELECT_GUILD_SQL: &'static str = "\n        SELECT discord_id, name, prefix, guild_type FROM guilds\n        WHERE discord_id = :discord_id\n    ";

/// Registers a guild unless already there; parameters `:discord_id` and
/// `:name`.
pub const REGISTER_GUILD_SQL: &'static str = "\n        INSERT IGNORE INTO guilds (discord_id, name)\n        VALUES (:discord_id, :name)\n    ";

/// Reads the reply stored for a message in a guild; parameters `:guild_id`
/// and `:question`.
pub const SELECT_CUSTOM_REACTION_SQL: &'static str = "\n        SELECT reply FROM custom_reactions\n        WHERE guild_id = :guild_id AND question = :question\n    ";

/// The statements that create the bot's tables and sequences, in the order in
/// which they run; `default_prefix` is the prefix a new guild gets.
pub open spec fn schema_statements_spec(default_prefix: Seq<char>) -> Seq<Seq<char>> {
    seq![
        GUILDS_TABLE_SQL_HEAD@ + default_prefix + GUILDS_TABLE_SQL_TAIL@,
        USERS_TABLE_SQL@,
        FANS_TABLE_SQL@,
        STATUS_SEQUENCE_SQL@,
        STATUS_TABLE_SQL@,
        CUSTOM_REACTIONS_SEQUENCE_SQL@,
        CUSTOM_REACTIONS_TABLE_SQL@,
    ]
}

fn push_statement(statements: &mut Vec<String>, sql: &str)
    ensures
        final(statements).deep_view() == old(statements).deep_view().push(sql@),
{
    statements.push(String::from_str(sql));
    assert(statements.deep_view() =~= old(statements).deep_view().push(sql@));
}

/// The schema creates each of its tables and sequences once: no statement
/// repeats another, whatever the default prefix, and each sequence is
/// created before the table that draws on it.
pub proof fn lemma_schema_statements_distinct(default_prefix: Seq<char>)
    ensures
        schema_statements_spec(default_prefix).len() == 7,
        forall|i: int, j: int|
            0 <= i < j < 7 ==> #[trigger] schema_statements_spec(default_prefix)[i]
                != #[trigger] schema_statements_spec(default_prefix)[j],
        exists|i: int, j: int|
            0 <= i < j < 7 && schema_statements_spec(default_prefix)[i] == CUSTOM_REACTIONS_SEQUENCE_SQL@
                && schema_statements_spec(default_prefix)[j] == CUSTOM_REACTIONS_TABLE_SQL@,
        exists|i: int, j: int|
            0 <= i < j < 7 && schema_statements_spec(default_prefix)[i] == STATUS_SEQUENCE_SQL@
                && schema_statements_spec(default_prefix)[j] == STATUS_TABLE_SQL@,
{
    reveal_strlit("\n        CREATE TABLE IF NOT EXISTS public.guilds (\n            discord_id BIGINT PRIMARY KEY,\n            name VARCHAR(255) NOT NULL,\n            prefix VARCHAR(15) NOT NULL DEFAULT '");
    reveal_strlit("\n        CREATE TABLE IF NOT EXISTS users (\n            discord_id BIGINT PRIMARY KEY,\n            name VARCHAR(255) NOT NULL\n        )\n    ");
    reveal_strlit("\n        CREATE TABLE IF NOT EXISTS fans (\n            guild_id BIGINT NOT NULL,\n            user_id BIGINT NOT NULL\n        )\n    ");
    reveal_strlit("\n        create sequence status_seq\n        start 1\n        increment 1\n        NO MAXVALUE\n        CACHE 1;\n    ");
    reveal_strlit("\n        CREATE TABLE IF NOT EXISTS status (\n            id INT UNIQUE NOT NULL,\n            status VARCHAR(100) NOT NULL\n        )\n    ");
    reveal_strlit("\n        create sequence custom_reactions_seq\n        start 1\n        increment 1\n        NO MAXVALUE\n        CACHE 1;\n    ");
    reveal_strlit("\n        CREATE TABLE IF NOT EXISTS custom_reactions (\n            id INT UNIQUE NOT NULL,\n            question TEXT NOT NULL,\n            reply TEXT NOT NULL,\n            cr_type INT NOT NULL DEFAULT 0,\n            guild_id BIGINT NOT NULL,\n            FOREIGN KEY (guild_id) REFERENCES guilds(discord_id)\n        )\n    ");
    let st = schema_statements_spec(default_prefix);
    assert(USERS_TABLE_SQL@.len() == 140);
    assert(FANS_TABLE_SQL@.len() == 131);
    assert(STATUS_SEQUENCE_SQL@.len() == 113);
    assert(STATUS_TABLE_SQL@.len() == 136);
    assert(CUSTOM_REACTIONS_SEQUENCE_SQL@.len() == 123);
    assert(CUSTOM_REACTIONS_TABLE_SQL@.len() == 321);
    assert(st[0] == GUILDS_TABLE_SQL_HEAD@ + default_prefix + GUILDS_TABLE_SQL_TAIL@);
    assert(st[0][36] == GUILDS_TABLE_SQL_HEAD@[36]);
    assert(GUILDS_TABLE_SQL_HEAD@[36] != USERS_TABLE_SQL@[36]);
    assert(st[0][36] == GUILDS_TABLE_SQL_HEAD@[36]);
    assert(GUILDS_TABLE_SQL_HEAD@[36] != FANS_TABLE_SQL@[36]);
    assert(st[0][9] == GUILDS_TABLE_SQL_HEAD@[9]);
    assert(GUILDS_TABLE_SQL_HEAD@[9] != STATUS_SEQUENCE_SQL@[9]);
    assert(st[0][36] == GUILDS_TABLE_SQL_HEAD@[36]);
    assert(GUILDS_TABLE_SQL_HEAD@[36] != STATUS_TABLE_SQL@[36]);
    assert(st[0][9] == GUILDS_TABLE_SQL_HEAD@[9]);
    assert(GUILDS_TABLE_SQL_HEAD@[9] != CUSTOM_REACTIONS_SEQUENCE_SQL@[9]);
    assert(st[0][36] == GUILDS_TABLE_SQL_HEAD@[36]);
    assert(GUILDS_TABLE_SQL_HEAD@[36] != CUSTOM_REACTIONS_TABLE_SQL@[36]);
    assert(st[5] == CUSTOM_REACTIONS_SEQUENCE_SQL@ && st[6] == CUSTOM_REACTIONS_TABLE_SQL@);
    assert(st[3] == STATUS_SEQUENCE_SQL@ && st[4] == STATUS_TABLE_SQL@);
    assert(st[0] != st[1]);
    assert(st[0] != st[2]);
    assert(st[0] != st[3]);
    assert(st[0] != st[4]);
    assert(st[0] != st[5]);
    assert(st[0] != st[6]);
    assert(st[1] != st[2]);
    assert(st[1] != st[3]);
    assert(st[1] != st[4]);
    assert(st[1] != st[5]);
    assert(st[1] != st[6]);
    assert(st[2] != st[3]);
    assert(st[2] != st[4]);
    assert(st[2] != st[5]);
    assert(st[2] != st[6]);
    assert(st[3] != st[4]);
    assert(st[3] != st[5]);
    assert(st[3] != st[6]);
    assert(st[4] != st[5]);
    assert(st[4] != st[6]);
    assert(st[5] != st[6]);
    assert forall|i: int, j: int| 0 <= i < j < 7 implies #[trigger] st[i] != #[trigger] st[j] by {
        assert(i == 0 || i == 1 || i == 2 || i == 3 || i == 4 || i == 5);
        assert(j == 1 || j == 2 || j == 3 || j == 4 || j == 5 || j == 6);
    }
}

/// The statements that create the bot's tables (see `schema_statements_spec`).
pub fn schema_statements(default_prefix: &str) -> (r: Vec<String>)
    ensures
        r.deep_view() == schema_statements_spec(default_prefix@),
{
    let mut statements: Vec<String> = Vec::new();
    let mut guilds = String::from_str(GUILDS_TABLE_SQL_HEAD);
    guilds.append(default_prefix);
    guilds.append(GUILDS_TABLE_SQL_TAIL);
    statements.push(guilds);
    assert(statements.deep_view() =~= seq![GUILDS_TABLE_SQL_HEAD@ + default_prefix@ + GUILDS_TABLE_SQL_TAIL@]);
    push_statement(&mut statements, USERS_TABLE_SQL);
    push_statement(&mut statements, FANS_TABLE_SQL);
    push_statement(&mut statements, STATUS_SEQUENCE_SQL);
    push_statement(&mut statements, STATUS_TABLE_SQL);
    push_statement(&mut statements, CUSTOM_REACTIONS_SEQUENCE_SQL);
    push_statement(&mut statements, CUSTOM_REACTIONS_TABLE_SQL);
    assert(statements.deep_view() =~= schema_statements_spec(default_prefix@));
    statements
}

/// The statement that schedules lifting the ban of user `uid` one week from
/// now, as the event `event`.
pub open spec fn ban_event_sql_spec(uid: i64, event: Seq<char>) -> Seq<char> {
    "CREATE EVENT IF NOT EXISTS "@ + event
        + " ON SCHEDULE AT CURRENT_TIMESTAMP + INTERVAL 1 WEEK DO UPDATE bans SET banned = 'false', banned_at = NULL WHERE discord_id = "@
        + signed_decimal(uid as int) + ";"@
}

/// The statement that schedules lifting a ban (see `ban_event_sql_spec`).
pub fn ban_event_sql(uid: i64, event: &str) -> (r: String)
    ensures
        r@ == ban_event_sql_spec(uid, event@),
{
    let mut s = String::from_str("CREATE EVENT IF NOT EXISTS ");
    s.append(event);
    s.append(" ON SCHEDULE AT CURRENT_TIMESTAMP + INTERVAL 1 WEEK DO UPDATE bans SET banned = 'false', banned_at = NULL WHERE discord_id = ");
    push_signed_decimal(&mut s, uid);
    s.append(";");
    s
}

/// What went wrong in an update of a user's row.
#[derive(Clone, Copy, Debug, PartialEq, Eq, Structural)]
pub enum DbError {
    /// The update touched no row (or several): the user is not registered.
    NotRegistered,
}

impl DbError {
    /// The text of the error.
    pub fn message(&self) -> (r: &'static str)
        ensures
            r@ == "[DB] User not registered"@,
    {
        "[DB] User not registered"
    }
}

/// The outcome of an update of one user's row, from the number of rows it
/// changed: exactly one means success.
pub fn user_update_outcome(affected_rows: u64) -> (r: Result<(), DbError>)
    ensures
        r == if affected_rows == 1 { Ok::<(), DbError>(()) } else { Err(DbError::NotRegistered) },
{
    if affected_rows == 1 {
        Ok(())
    } else {
        Err(DbError::NotRegistered)
    }
}

/// The log line after the user `uid` has been marked as banned.
pub fn banned_log(uid: i64) -> (r: String)
    ensures
        r@ == "[DB] User temp banned ("@ + signed_decimal(uid as int) + ")"@,
{
    let mut s = String::from_str("[DB] User temp banned (");
    push_signed_decimal(&mut s, uid);
    s.append(")");
    s
}

/// The log line after the user `uid` has changed whether they may be pinged.
pub fn pingability_log(uid: i64) -> (r: String)
    ensures
        r@ == "[DB] User pingability updated ("@ + signed_decimal(uid as int) + ")"@,
{
    let mut s = String::from_str("[DB] User pingability updated (");
    push_signed_decimal(&mut s, uid);
    s.append(")");
    s
}

/// The MySQL error code for a database that does not exist.
pub const UNKNOWN_DATABASE: u16 = 1049;

/// Whether to connect again after the first connection failed: only when
/// the server answered that the database does not exist.
pub fn retry_connection(server_error_code: Option<u16>) -> (r: bool)
    ensures
        r == (server_error_code == Some(UNKNOWN_DATABASE)),
{
    match server_error_code {
        Some(code) => code == UNKNOWN_DATABASE,
        None => false,
    }
}

} // verus!
