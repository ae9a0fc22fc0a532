use space_bot::database::{ban_event_sql, banned_log, pingability_log, retry_connection, schema_statements, user_update_outcome, DbError};
use space_bot::guild::{guild_type_label, hidden_command_help_allowed, DbGuild, DbGuildType};
use space_bot::text::{parse_u64, push_signed_decimal, push_zero_padded4, str_equal, starts_with, u64_to_decimal};
use space_bot::users::{mention_breaks_parser, user_id_from_arg, user_tag, UserArgError};

#[test]
fn decimal_notation() {
    assert_eq!(u64_to_decimal(0), "0");
    assert_eq!(u64_to_decimal(7), "7");
    assert_eq!(u64_to_decimal(683530527239962627), "683530527239962627");
    assert_eq!(u64_to_decimal(u64::MAX), "18446744073709551615");
    let mut s = String::from("x=");
    push_signed_decimal(&mut s, -42);
    assert_eq!(s, "x=-42");
    let mut m = String::new();
    push_signed_decimal(&mut m, i64::MIN);
    assert_eq!(m, "-9223372036854775808");
}

#[test]
fn zero_padding() {
    let cases = [(0u64, "0000"), (7, "0007"), (42, "0042"), (999, "0999"), (2000, "2000"), (65535, "65535")];
    for (n, want) in cases {
        let mut s = String::new();
        push_zero_padded4(&mut s, n);
        assert_eq!(s, want);
    }
}

#[test]
fn parsing_numbers() {
    assert_eq!(parse_u64("0"), Some(0));
    assert_eq!(parse_u64("+15"), Some(15));
    assert_eq!(parse_u64("007"), Some(7));
    assert_eq!(parse_u64("18446744073709551615"), Some(u64::MAX));
    assert_eq!(parse_u64("18446744073709551616"), None);
    assert_eq!(parse_u64(""), None);
    assert_eq!(parse_u64("+"), None);
    assert_eq!(parse_u64("-1"), None);
    assert_eq!(parse_u64(" 1"), None);
    assert_eq!(parse_u64("1a"), None);
    for s in ["0", "+15", "18446744073709551616", "", "+", "-1", "12é", "99999999999999999999999"] {
        assert_eq!(parse_u64(s), s.parse::<u64>().ok(), "{}", s);
    }
}

#[test]
fn parse_reads_back_notation() {
    for n in [0u64, 1, 10, 12345, 683530527239962627, u64::MAX] {
        assert_eq!(parse_u64(&u64_to_decimal(n)), Some(n));
    }
}

#[test]
fn string_comparisons() {
    assert!(str_equal("prefix", "prefix"));
    assert!(!str_equal("prefix", "prefi"));
    assert!(!str_equal("Space", "space"));
    assert!(starts_with("<@!12>", "<@"));
    assert!(!starts_with("<", "<@"));
}

#[test]
fn tags() {
    assert_eq!(user_tag("AceFifi", 2000), "AceFifi#2000");
    assert_eq!(user_tag("bob", 42), "bob#0042");
    assert_eq!(user_tag("", 0), "#0000");
}

#[test]
fn user_ids_from_arguments() {
    assert_eq!(user_id_from_arg(Some("<@683530527239962627>")), Ok(683530527239962627));
    assert_eq!(user_id_from_arg(Some("<@!683530527239962627>")), Ok(683530527239962627));
    assert_eq!(user_id_from_arg(Some("683530527239962627")), Ok(683530527239962627));
    // the last character of a mention is dropped whatever it is
    assert_eq!(user_id_from_arg(Some("<@12x")), Ok(12));
    assert_eq!(user_id_from_arg(Some("<@>")), Err(UserArgError::InvalidId));
    assert_eq!(user_id_from_arg(Some("@AceFifi")), Err(UserArgError::InvalidId));
    assert_eq!(user_id_from_arg(None), Err(UserArgError::InvalidId));
    assert_eq!(UserArgError::InvalidId.message(), "[UTIL] Failed to convert id");
}

#[test]
fn mention_round_trip() {
    for id in [1u64, 830647018736058368, u64::MAX] {
        let d = u64_to_decimal(id);
        assert_eq!(user_id_from_arg(Some(&format!("<@{}>", d))), Ok(id));
        assert_eq!(user_id_from_arg(Some(&format!("<@!{}>", d))), Ok(id));
        assert_eq!(user_id_from_arg(Some(&d)), Ok(id));
    }
}

#[test]
fn guild_types() {
    assert_eq!(DbGuildType::from(0u32), DbGuildType::Normal);
    assert_eq!(DbGuildType::from(1u32), DbGuildType::Vip);
    assert_eq!(DbGuildType::from(2u32), DbGuildType::Owner);
    assert_eq!(DbGuildType::from(77u32), DbGuildType::Normal);
    for t in [DbGuildType::Normal, DbGuildType::Vip, DbGuildType::Owner] {
        assert_eq!(DbGuildType::from(u32::from(t)), t);
    }
    for code in 0u32..3 {
        assert_eq!(u32::from(DbGuildType::from(code)), code);
    }
    assert_eq!(guild_type_label(0), "Normal");
    assert_eq!(guild_type_label(1), "VIP");
    assert_eq!(guild_type_label(2), "Owner");
    assert_eq!(guild_type_label(3), "Unknown");
    let g = DbGuild { discord_id: 5, name: "Space".to_string(), prefix: "s!".to_string(), guild_type: 2 };
    assert_eq!(g.kind(), DbGuildType::Owner);
    assert!(!hidden_command_help_allowed(None));
    assert!(!hidden_command_help_allowed(Some(0)));
    assert!(hidden_command_help_allowed(Some(1)));
    assert!(hidden_command_help_allowed(Some(9)));
}

#[test]
fn database_texts() {
    assert_eq!(
        ban_event_sql(42, "BAN_42"),
        "CREATE EVENT IF NOT EXISTS BAN_42 ON SCHEDULE AT CURRENT_TIMESTAMP + INTERVAL 1 WEEK DO UPDATE bans SET banned = 'false', banned_at = NULL WHERE discord_id = 42;"
    );
    assert_eq!(user_update_outcome(1), Ok(()));
    assert_eq!(user_update_outcome(0), Err(DbError::NotRegistered));
    assert_eq!(user_update_outcome(2), Err(DbError::NotRegistered));
    assert_eq!(DbError::NotRegistered.message(), "[DB] User not registered");
    assert_eq!(banned_log(7), "[DB] User temp banned (7)");
    assert_eq!(pingability_log(-3), "[DB] User pingability updated (-3)");
    assert!(retry_connection(Some(1049)));
    assert!(!retry_connection(Some(1045)));
    assert!(!retry_connection(None));
    let statements = schema_statements("s!");
    assert_eq!(statements.len(), 7);
    assert!(statements[0].contains("prefix VARCHAR(15) NOT NULL DEFAULT 's!',"));
    assert!(statements[0].starts_with("\n        CREATE TABLE IF NOT EXISTS public.guilds ("));
    assert!(statements[6].contains("FOREIGN KEY (guild_id) REFERENCES guilds(discord_id)"));
    assert!(statements[3].contains("create sequence status_seq"));
}

#[test]
fn mentions_that_break_the_parser() {
    assert!(mention_breaks_parser("<@1é"));
    assert!(mention_breaks_parser("<@é"));
    assert!(!mention_breaks_parser("<@é>"));
    assert!(!mention_breaks_parser("é"));
    assert!(!mention_breaks_parser("<@"));
    assert!(!mention_breaks_parser("12é"));
    assert_eq!(user_id_from_arg(Some("<@é>")), Err(UserArgError::InvalidId));
    assert_eq!(user_id_from_arg(Some("12é")), Err(UserArgError::InvalidId));
}
