//! The guild record that the database keeps, and the guild types with their
//! numeric codes.

use vstd::prelude::*;
use vstd::std_specs::convert::FromSpecImpl;

verus! {

/// A guild as stored in the `guilds` table.
pub struct DbGuild {
    pub discord_id: u64,
    pub name: String,
    pub prefix: String,
    pub guild_type: u32,
}

/// The kinds of guild; stored as `0`, `1` and `2`.
#[derive(Clone, Copy, Debug, PartialEq, Eq, Structural)]
pub enum DbGuildType {
    Normal,
    Vip,
    Owner,
}

/// The guild type that a stored code denotes; unknown codes count as `Normal`.
pub open spec fn guild_type_of_code(code: u32) -> DbGuildType {
    if code == 1 {
        DbGuildType::Vip
    } else if code == 2 {
        DbGuildType::Owner
    } else {
        DbGuildType::Normal
    }
}

/// The code under which a guild type is stored.
pub open spec fn code_of_guild_type(t: DbGuildType) -> u32 {
    match t {
        DbGuildType::Normal => 0,
        DbGuildType::Vip => 1,
        DbGuildType::Owner => 2,
    }
}

impl From<u32> for DbGuildType {
    fn from(el: u32) -> (r: Self) {
        match el {
            1 => DbGuildType::Vip,
            2 => DbGuildType::Owner,
            _ => DbGuildType::Normal,
        }
    }
}

impl FromSpecImpl<u32> for DbGuildType {
    open spec fn obeys_from_spec() -> bool {
        true
    }

    open spec fn from_spec(v: u32) -> DbGuildType {
        guild_type_of_code(v)
    }
}

impl From<DbGuildType> for u32 {
    fn from(el: DbGuildType) -> (r: Self) {
        match el {
            DbGuildType::Normal => 0,
            DbGuildType::Vip => 1,
            DbGuildType::Owner => 2,
        }
    }
}

impl FromSpecImpl<DbGuildType> for u32 {
    open spec fn obeys_from_spec() -> bool {
        true
    }

    open spec fn from_spec(v: DbGuildType) -> u32 {
        code_of_guild_type(v)
    }
}

/// Storing a guild type and reading it back gives the same type.
pub proof fn lemma_guild_type_round_trip(t: DbGuildType)
    ensures
        guild_type_of_code(code_of_guild_type(t)) == t,
{
}

/// Every known code (`0`, `1`, `2`) survives reading it as a type and storing
/// it again; every other code reads as `Normal`, and so is stored back as `0`.
pub proof fn lemma_guild_code_round_trip(code: u32)
    ensures
        code <= 2 ==> code_of_guild_type(guild_type_of_code(code)) == code,
        code > 2 ==> guild_type_of_code(code) == DbGuildType::Normal,
{
}

/// The label that the `gtype` command shows for a stored code.
pub open spec fn guild_type_label_spec(code: u32) -> Seq<char> {
    if code == 0 {
        "Normal"@
    } else if code == 1 {
        "VIP"@
    } else if code == 2 {
        "Owner"@
    } else {
        "Unknown"@
    }
}

/// The label that the `gtype` command shows for a stored guild type code.
pub fn guild_type_label(code: u32) -> (r: &'static str)
    ensures
        r@ == guild_type_label_spec(code),
{
    if code == u32::from(DbGuildType::Normal) {
        "Normal"
    } else if code == u32::from(DbGuildType::Vip) {
        "VIP"
    } else if code == u32::from(DbGuildType::Owner) {
        "Owner"
    } else {
        "Unknown"
    }
}

/// Whether the help for a command that is hidden from the listing may be
/// shown: only in a guild that is registered and is not of the `Normal` type.
pub fn hidden_command_help_allowed(guild_type: Option<u32>) -> (r: bool)
    ensures
        r == (guild_type is Some && guild_type->0 != code_of_guild_type(DbGuildType::Normal)),
{
    match guild_type {
        Some(code) => code != u32::from(DbGuildType::Normal),
        None => false,
    }
}

impl DbGuild {
    /// The type of this guild, read from its stored code.
    pub fn kind(&self) -> (r: DbGuildType)
        ensures
            r == guild_type_of_code(self.guild_type),
    {
        DbGuildType::from(self.guild_type)
    }
}

} // verus!
