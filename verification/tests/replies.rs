use space_bot::autoban::{action_failed_log, ban_outcome, BanOutcome};
use space_bot::moderation::{kick_outcome, KickOutcome};
use space_bot::database::{
    REGISTER_BAN_ROW_SQL, REGISTER_GUILD_SQL, REGISTER_USER_SQL, SELECT_CUSTOM_REACTION_SQL, SELECT_GUILD_SQL,
    SET_BANNED_SQL, SET_PINGABLE_SQL,
};
use space_bot::apis::{get_nekoslife_api, NekosLifeClient};
use space_bot::autoban::{ban_follow_up, message_plan, mentions_user, IncomingMessage, AUTOBAN_REASON, OWNER_MENTION_ID};
use space_bot::commands::{
    before_command_allows, cat_reply, command_error_reply, command_log, command_prefix, guild_type_reply, help_prefix,
    ping_reply, waits_for_registration, Handler, Image, Moderation, Util,
};
use space_bot::embed::{EmbedColor, EmbedContent, EmbedField};
use space_bot::help::{find_command, help_image, help_reply, CommandInfo, GroupInfo};
use space_bot::moderation::{alert, can_kick, kick_reason, kick_refused_reply, kicked_reply, role_position};
use space_bot::permissions::{missing_permissions_reply, permission_label, permission_report};

fn fields(e: &EmbedContent) -> Vec<(String, String, bool)> {
    e.fields.iter().map(|f: &EmbedField| (f.name.clone(), f.value.clone(), f.inline)).collect()
}

fn groups() -> Vec<GroupInfo> {
    vec![Util::group(), Moderation::group(), Image::group()]
}

const IMG: &str = "https://lunardev.group/media/space/2.gif";

#[test]
fn help_listing() {
    let e = help_reply(&groups(), None, "s!", false, IMG).unwrap();
    assert_eq!(e.title.as_deref(), Some("Available Commands"));
    assert_eq!(e.description.as_deref(), Some("To get more info on a command, type `help {command}`"));
    assert_eq!(e.image.as_deref(), Some(IMG));
    assert_eq!(e.color, Some(EmbedColor::Pink));
    assert_eq!(
        fields(&e),
        vec![
            ("Util 🛠️ - Essential/Utility Commands".to_string(), " `ping` `gtype`".to_string(), false),
            ("Mod 🛠️ - Administration/Moderation commands".to_string(), " `kick`".to_string(), false),
            (
                "Image 🖼️ - Commands related to image reponse(s), such as cats and dogs :D".to_string(),
                " `cat`".to_string(),
                false
            ),
        ]
    );
}

#[test]
fn help_listing_skips_hidden() {
    let mut gs = groups();
    gs[0].commands[0].help_available = false;
    gs[2].help_available = false;
    gs[1].description = None;
    let e = help_reply(&gs, None, "s!", false, IMG).unwrap();
    assert_eq!(
        fields(&e),
        vec![
            ("Util 🛠️ - Essential/Utility Commands".to_string(), " `gtype`".to_string(), false),
            ("Moderation".to_string(), " `kick`".to_string(), false),
        ]
    );
}

#[test]
fn help_for_help() {
    let e = help_reply(&groups(), Some("help"), "s!", false, IMG).unwrap();
    assert_eq!(e.title.as_deref(), Some("More info for help"));
    assert_eq!(e.color, Some(EmbedColor::Purple));
    assert_eq!(
        fields(&e),
        vec![
            ("Use".to_string(), "`s!help <command>*`".to_string(), false),
            ("Examples".to_string(), "`s!help prefix`\n`s!help`".to_string(), false),
        ]
    );
}

#[test]
fn help_for_a_command() {
    let e = help_reply(&groups(), Some("kick"), "s!", false, IMG).unwrap();
    assert_eq!(e.title.as_deref(), Some("Command: kick"));
    assert_eq!(e.description.as_deref(), Some("Kicks a user from the server"));
    assert_eq!(e.footer.as_deref(), Some("<> is required, [] is optional"));
    assert_eq!(e.image.as_deref(), Some(IMG));
    assert_eq!(
        fields(&e),
        vec![
            ("Use".to_string(), "`s!kick <user> [reason]`".to_string(), false),
            (
                "Examples".to_string(),
                "\n`s!kick @AceFifi`\n`s!kick @AceFifi being annoying`\n`s!kick 683530527239962627`\n`s!kick 683530527239962627 being annoying`".to_string(),
                false
            ),
        ]
    );
    let p = help_reply(&groups(), Some("lat"), "!", false, IMG).unwrap();
    assert_eq!(p.title.as_deref(), Some("Command: ping"));
    assert_eq!(fields(&p), vec![("Aliases".to_string(), "\n- pong\n- lat\n- latency".to_string(), false)]);
}

#[test]
fn help_single_example_and_unknown() {
    let mut gs = groups();
    gs[1].commands[0].examples.truncate(1);
    let e = help_reply(&gs, Some("kick"), "", false, IMG).unwrap();
    assert_eq!(fields(&e)[1], ("Example".to_string(), "\n`kick @AceFifi`".to_string(), false));
    let n = help_reply(&gs, Some("nope"), "s!", false, IMG).unwrap();
    assert_eq!(n.title.as_deref(), Some("[CMDS] Command not found"));
    assert_eq!(n.image, None);
    assert!(n.fields.is_empty());
}

#[test]
fn help_hidden_commands() {
    let mut gs = groups();
    gs[2].commands[0].help_available = false;
    assert!(help_reply(&gs, Some("cat"), "s!", false, IMG).is_none());
    let e = help_reply(&gs, Some("cat"), "s!", true, IMG).unwrap();
    assert_eq!(e.title.as_deref(), Some("Command: cat"));
}

#[test]
fn last_matching_command_wins() {
    let mut gs = groups();
    gs[2].commands.push(CommandInfo {
        names: vec!["other".to_string(), "kick".to_string()],
        help_available: true,
        description: None,
        usage: None,
        examples: vec![],
    });
    assert_eq!(find_command(&gs, "kick"), Some((2, 1)));
    assert_eq!(find_command(&gs, "ping"), Some((0, 0)));
    assert_eq!(find_command(&gs, "missing"), None);
    let e = help_reply(&gs, Some("kick"), "s!", false, IMG).unwrap();
    assert_eq!(e.title.as_deref(), Some("Command: other"));
    assert_eq!(e.description, None);
}

#[test]
fn help_images() {
    for _ in 0..20 {
        let i = help_image();
        assert!(i.starts_with("https://lunardev.group/media/space/") && i.ends_with(".gif"));
    }
    let _ = GroupInfo { name: String::new(), description: None, help_available: true, commands: vec![] };
}

#[test]
fn prefixes_and_hooks() {
    assert_eq!(command_prefix(Some("?"), "s!"), "?");
    assert_eq!(command_prefix(None, "s!"), "s!");
    assert_eq!(help_prefix(true, None, "s!"), "s!");
    assert_eq!(help_prefix(false, Some("?"), "s!"), "");
    assert!(waits_for_registration("prefix"));
    assert!(waits_for_registration("Space"));
    assert!(!waits_for_registration("ping"));
    assert!(before_command_allows(false, "prefix", false));
    assert!(!before_command_allows(true, "prefix", false));
    assert!(before_command_allows(true, "prefix", true));
    assert!(before_command_allows(true, "ping", false));
}

#[test]
fn simple_replies() {
    let p = ping_reply();
    assert_eq!(p.title.as_deref(), Some("Pong!"));
    assert_eq!(p.description.as_deref(), Some("I'm alive >.>"));
    let c = cat_reply("https://x/y.png");
    assert_eq!(c.description.as_deref(), Some("[Cat!](https://x/y.png)"));
    assert_eq!(c.image.as_deref(), Some("https://x/y.png"));
    assert_eq!(c.title.as_deref(), Some("Meow :3"));
    let g = guild_type_reply(1, 1234, &Some("a_abc123".to_string()));
    assert_eq!(g.description.as_deref(), Some("VIP"));
    assert_eq!(g.thumbnail.as_deref(), Some("https://cdn.discordapp.com/icons/1234/Some(\"a_abc123\")"));
    let n = guild_type_reply(5, 9, &None);
    assert_eq!(n.thumbnail.as_deref(), Some("https://cdn.discordapp.com/icons/9/None"));
    assert_eq!(n.description.as_deref(), Some("Unknown"));
    let q = guild_type_reply(0, 9, &Some("q\"x".to_string()));
    assert_eq!(q.thumbnail.as_deref(), Some("https://cdn.discordapp.com/icons/9/Some(\"q\\\"x\")"));
    assert_eq!(Handler::ready_message("Space#0001"), "Space#0001 is online");
    assert_eq!(get_nekoslife_api(), NekosLifeClient {});
}

#[test]
fn command_errors_and_logs() {
    let e = command_error_reply("<:no:1>", "kick", "boom");
    assert_eq!(e.title.as_deref(), Some("Error!"));
    assert_eq!(e.color, Some(EmbedColor::Red));
    assert_eq!(
        e.description.as_deref(),
        Some("<:no:1> Error running the command `kick`:\n```boom```\n> Please report this error to: `AceFifi#2000`")
    );
    assert_eq!(
        command_log("T", "u#0001", "ping", None),
        "\nCommand Processed:\n••• Time: T\n••• User: u#0001\n••• Command: ping\n"
    );
    assert_eq!(
        command_log("T", "u#0001", "ping", Some("E")),
        "\nCommand Errored:\n••• Time: T\n••• User: u#0001\n••• Command: ping\n••• Error: E"
    );
}

#[test]
fn kicking() {
    assert_eq!(role_position(Some(5), false), 5);
    assert_eq!(role_position(None, false), 0);
    assert_eq!(role_position(Some(5), true), i64::MAX);
    assert!(can_kick(3, 2, 4));
    assert!(!can_kick(2, 2, 4));
    assert!(!can_kick(3, 2, 1));
    assert!(!can_kick(i64::MAX, role_position(None, true), i64::MAX));
    assert_eq!(kick_reason(None), "No Reason");
    assert_eq!(kick_reason(Some("spam")), "spam");
    assert_eq!(kicked_reply("bob#0042").description.as_deref(), Some("bob#0042 has been kicked!"));
    let r = kick_refused_reply();
    assert_eq!(r.title.as_deref(), Some("Error"));
    assert_eq!(r.color, Some(EmbedColor::Yellow));
    let a = alert("kicked", "Space", "No Reason", "mod#0001");
    assert_eq!(a.title.as_deref(), Some("**Attention**"));
    assert_eq!(a.description.as_deref(), Some("You were kicked from **Space**"));
    assert_eq!(
        fields(&a),
        vec![
            ("Reason: ".to_string(), "No Reason".to_string(), false),
            ("By: ".to_string(), "mod#0001".to_string(), false),
        ]
    );
}

fn message(id: u64, bot: bool, in_guild: bool, mentions: Vec<u64>) -> IncomingMessage {
    IncomingMessage { in_guild, author_id: id, author_is_bot: bot, author_name: "bob".to_string(), mentioned_user_ids: mentions }
}

#[test]
fn automatic_bans() {
    assert_eq!(OWNER_MENTION_ID, 683530527239962627u64 | 959858563503759441u64 | 830647018736058368u64);
    assert!(mentions_user(&vec![1, OWNER_MENTION_ID], OWNER_MENTION_ID));
    assert!(!mentions_user(&vec![683530527239962627], OWNER_MENTION_ID));

    let p = message_plan(&message(10, false, true, vec![OWNER_MENTION_ID]));
    let reg = p.register.unwrap();
    assert_eq!((reg.discord_id, reg.name.as_str(), reg.ban_name.as_str()), (10, "bob", "bob"));
    assert!(p.ban_author && p.check_custom_reaction);

    let q = message_plan(&message(10, false, true, vec![5]));
    assert!(q.register.is_some() && !q.ban_author && q.check_custom_reaction);

    let z = message_plan(&message(0, false, true, vec![OWNER_MENTION_ID]));
    assert!(z.register.is_some() && !z.ban_author && !z.check_custom_reaction);

    let b = message_plan(&message(u64::MAX, true, true, vec![OWNER_MENTION_ID]));
    assert!(b.register.is_none() && !b.ban_author && !b.check_custom_reaction);

    let d = message_plan(&message(10, false, false, vec![OWNER_MENTION_ID]));
    assert!(d.register.is_none() && !d.ban_author && !d.check_custom_reaction);

    assert_eq!(AUTOBAN_REASON, "[AUTO] Pinging an owner/co-owner. | 1 week ban");
    let f = ban_follow_up(10, "bob#0042", "Space");
    assert_eq!(f.announcement.description.as_deref(), Some("**bob#0042** has been banned!\nReason: [Auto] Pinging an owner/co-owner."));
    assert_eq!(f.banned, "true");
    assert_eq!(f.event_name, "BAN_10");
    assert!(f.event_sql.starts_with("CREATE EVENT IF NOT EXISTS BAN_10 ON SCHEDULE"));
    assert!(f.event_sql.ends_with("WHERE discord_id = 10;"));
    assert_eq!(f.alert.description.as_deref(), Some("You were Banned from **Space**"));
    assert_eq!(
        fields(&f.alert)[0],
        ("Reason: ".to_string(), "\"Pinging the Co-Owners Or the Owner will result in a temp ban for 1 week.\"".to_string(), false)
    );
    assert_eq!(fields(&f.alert)[1].1, "Automated Action");
}

#[test]
fn permission_reports() {
    assert_eq!(permission_label("Kick Members"), "Kick Memberes");
    assert_eq!(permission_label("Manage Nicknames"), "Manage Nicjnames");
    assert_eq!(permission_label("Mention Everyone"), "Mention @everyone");
    assert_eq!(permission_label("Ban Members"), "Ban Members");
    assert_eq!(permission_label("Fly"), "Unknown Permission(s)");
    // KICK_MEMBERS = 1 << 1, BAN_MEMBERS = 1 << 2
    let kick = 1u64 << 1;
    let ban = 1u64 << 2;
    assert_eq!(permission_report(kick, kick | ban, "on", "off"), " <:on> Kick Memberes\n <:off> Ban Members\n");
    assert_eq!(permission_report(0, 0, "on", "off"), "");
    let e = missing_permissions_reply(0, kick, "on", "off");
    assert_eq!(e.title.as_deref(), Some("Please check permissions"));
    assert_eq!(e.description.as_deref(), Some(" <:off> Kick Memberes\n"));
    assert_eq!(e.footer.as_deref(), Some("All must be active"));
    assert_eq!(e.color, Some(EmbedColor::Yellow));
}

#[test]
fn every_listed_command_is_found() {
    let gs = groups();
    for (g, group) in gs.iter().enumerate() {
        for (c, cmd) in group.commands.iter().enumerate() {
            for name in cmd.names.iter() {
                assert_eq!(find_command(&gs, name), Some((g, c)));
                let page = help_reply(&gs, Some(name), "s!", false, IMG).unwrap();
                assert_eq!(page.title, Some(format!("Command: {}", cmd.names[0])));
            }
        }
    }
}

#[test]
fn help_shows_the_command_prefix() {
    for stored in [None, Some("?"), Some("")] {
        assert_eq!(help_prefix(true, stored, "s!"), command_prefix(stored, "s!"));
    }
}

#[test]
fn fully_held_permissions_have_no_missing_lines() {
    let kick = 1u64 << 1;
    let ban = 1u64 << 2;
    assert_eq!(permission_report(kick | ban | (1u64 << 5), kick | ban, "on", "off"), " <:on> Ban Members\n <:on> Kick Memberes\n");
    let e = missing_permissions_reply(kick, kick, "on", "off");
    assert_eq!(e.description.as_deref(), Some(" <:on> Kick Memberes\n"));
}

#[test]
fn outcomes_of_moderation_actions() {
    assert_eq!(action_failed_log("Missing Permissions"), "Oh noes: Missing Permissions");
    match ban_outcome(Ok(()), 10, "bob#0042", "Space") {
        BanOutcome::Banned(f) => {
            assert_eq!(f.event_name, "BAN_10");
            assert_eq!(f.banned, "true");
        }
        BanOutcome::Failed(_) => panic!("expected a follow-up"),
    }
    match ban_outcome(Err("nope"), 10, "bob#0042", "Space") {
        BanOutcome::Failed(line) => assert_eq!(line, "Oh noes: nope"),
        BanOutcome::Banned(_) => panic!("expected a failure"),
    }
    match kick_outcome(Ok(()), "bob#0042") {
        KickOutcome::Kicked(e) => assert_eq!(e.description.as_deref(), Some("bob#0042 has been kicked!")),
        KickOutcome::Failed(_) => panic!("expected a reply"),
    }
    match kick_outcome(Err("Unknown Member"), "bob#0042") {
        KickOutcome::Failed(line) => assert_eq!(line, "Oh noes: Unknown Member"),
        KickOutcome::Kicked(_) => panic!("expected a failure"),
    }
    assert_eq!(ban_follow_up(-5, "x#0001", "G").event_name, "BAN_-5");
}

#[test]
fn statement_texts() {
    assert_eq!(
        SET_BANNED_SQL,
        "\n        UPDATE bans\n        SET banned = :banned,\n        banned_at = :banned_at\n        WHERE discord_id = :discord_id\n    "
    );
    assert!(REGISTER_USER_SQL.contains("INSERT IGNORE INTO users (discord_id, name)"));
    assert!(REGISTER_BAN_ROW_SQL.contains("INSERT IGNORE INTO bans (discord_id, name)"));
    assert!(SET_PINGABLE_SQL.contains("SET pingable = :pingable"));
    assert!(SELECT_GUILD_SQL.contains("FROM guilds"));
    assert!(REGISTER_GUILD_SQL.contains("INSERT IGNORE INTO guilds"));
    assert!(SELECT_CUSTOM_REACTION_SQL.contains("question = :question"));
}
