//! Verified core of the Space Discord bot: the decisions, the text and the
//! SQL that the bot produces, separated from the network and database I/O.

pub mod text;
pub mod guild;
pub mod embed;
pub mod help;
pub mod commands;
pub mod users;
pub mod database;
pub mod moderation;
pub mod autoban;
pub mod permissions;
pub mod apis;
