//! The bot's command groups and their metadata, the replies of the simple
//! commands, and the decisions taken around every command.

use vstd::prelude::*;
use vstd::string::*;
use crate::embed::{EmbedColor, EmbedContent, EmbedView, owned};
use crate::help::{CommandInfo, CommandView, GroupInfo, GroupView};

verus! {

/// The `Util` command group: `ping` and `gtype`.
pub struct Util;

/// The `Image` command group: `cat`.
pub struct Image;

/// The `Moderation` command group: `kick`.
pub struct Moderation;

/// The handler of the gateway events.
pub struct Handler;

pub open spec fn command_view(
    names: Seq<Seq<char>>,
    description: Seq<char>,
    usage: Option<Seq<char>>,
    examples: Seq<Seq<char>>,
) -> CommandView {
    CommandView { names, help_available: true, description: Some(description), usage, examples }
}

pub open spec fn group_view(name: Seq<char>, description: Seq<char>, commands: Seq<CommandView>) -> GroupView {
    GroupView { name, description: Some(description), help_available: true, commands }
}

pub open spec fn util_group_spec() -> GroupView {
    group_view(
        "Util"@,
        "Util 🛠️ - Essential/Utility Commands"@,
        seq![
            command_view(
                seq!["ping"@, "pong"@, "lat"@, "latency"@],
                "Checks the bots latency/ping."@,
                None,
                Seq::empty(),
            ),
            command_view(seq!["gtype"@], "Checks the curent servers type."@, None, Seq::empty()),
        ],
    )
}

pub open spec fn image_group_spec() -> GroupView {
    group_view(
        "Image"@,
        "Image 🖼️ - Commands related to image reponse(s), such as cats and dogs :D"@,
        seq![command_view(seq!["cat"@], "Cat pics!"@, None, Seq::empty())],
    )
}

pub open spec fn moderation_group_spec() -> GroupView {
    group_view(
        "Moderation"@,
        "Mod 🛠️ - Administration/Moderation commands"@,
        seq![
            command_view(
                seq!["kick"@],
                "Kicks a user from the server"@,
                Some("kick <user> [reason]"@),
                seq![
                    "kick @AceFifi"@,
                    "kick @AceFifi being annoying"@,
                    "kick 683530527239962627"@,
                    "kick 683530527239962627 being annoying"@,
                ],
            ),
        ],
    )
}

fn push_name(names: &mut Vec<String>, name: &str)
    ensures
        final(names).deep_view() == old(names).deep_view().push(name@),
{
    names.push(owned(name));
    assert(names.deep_view() =~= old(names).deep_view().push(name@));
}

fn command(names: Vec<String>, description: &str, usage: Option<&str>, examples: Vec<String>) -> (r: CommandInfo)
    ensures
        r@ == command_view(
            names.deep_view(),
            description@,
            match usage { Some(u) => Some(u@), None => None },
            examples.deep_view(),
        ),
{
    CommandInfo {
        names,
        help_available: true,
        description: Some(owned(description)),
        usage: match usage { Some(u) => Some(owned(u)), None => None },
        examples,
    }
}

fn group(name: &str, description: &str, commands: Vec<CommandInfo>) -> (r: GroupInfo)
    ensures
        r@ == group_view(name@, description@, commands@.map_values(|c: CommandInfo| c@)),
{
    GroupInfo { name: owned(name), description: Some(owned(description)), help_available: true, commands }
}

impl Util {
    /// The metadata of the group, as the help shows it.
    pub fn group() -> (r: GroupInfo)
        ensures
            r@ == util_group_spec(),
    {
        let mut ping_names: Vec<String> = Vec::new();
        push_name(&mut ping_names, "ping");
        push_name(&mut ping_names, "pong");
        push_name(&mut ping_names, "lat");
        push_name(&mut ping_names, "latency");
        let ping = command(ping_names, "Checks the bots latency/ping.", None, Vec::new());
        let mut gtype_names: Vec<String> = Vec::new();
        push_name(&mut gtype_names, "gtype");
        let gtype = command(gtype_names, "Checks the curent servers type.", None, Vec::new());
        let mut commands: Vec<CommandInfo> = Vec::new();
        commands.push(ping);
        commands.push(gtype);
        let r = group("Util", "Util 🛠️ - Essential/Utility Commands", commands);
        assert(r@.commands[0].names =~= util_group_spec().commands[0].names);
        assert(r@.commands[0].examples =~= Seq::<Seq<char>>::empty());
        assert(r@.commands[1].names =~= util_group_spec().commands[1].names);
        assert(r@.commands[1].examples =~= Seq::<Seq<char>>::empty());
        assert(r@.commands =~= util_group_spec().commands);
        r
    }
}

impl Image {
    /// The metadata of the group, as the help shows it.
    pub fn group() -> (r: GroupInfo)
        ensures
            r@ == image_group_spec(),
    {
        let mut cat_names: Vec<String> = Vec::new();
        push_name(&mut cat_names, "cat");
        let cat = command(cat_names, "Cat pics!", None, Vec::new());
        let mut commands: Vec<CommandInfo> = Vec::new();
        commands.push(cat);
        let r = group(
            "Image",
            "Image 🖼️ - Commands related to image reponse(s), such as cats and dogs :D",
            commands,
        );
        assert(r@.commands[0].names =~= image_group_spec().commands[0].names);
        assert(r@.commands[0].examples =~= Seq::<Seq<char>>::empty());
        assert(r@.commands =~= image_group_spec().commands);
        r
    }
}

impl Moderation {
    /// The metadata of the group, as the help shows it.
    pub fn group() -> (r: GroupInfo)
        ensures
            r@ == moderation_group_spec(),
    {
        let mut kick_names: Vec<String> = Vec::new();
        push_name(&mut kick_names, "kick");
        let mut examples: Vec<String> = Vec::new();
        push_name(&mut examples, "kick @AceFifi");
        push_name(&mut examples, "kick @AceFifi being annoying");
        push_name(&mut examples, "kick 683530527239962627");
        push_name(&mut examples, "kick 683530527239962627 being annoying");
        let kick = command(kick_names, "Kicks a user from the server", Some("kick <user> [reason]"), examples);
        let mut commands: Vec<CommandInfo> = Vec::new();
        commands.push(kick);
        let r = group("Moderation", "Mod 🛠️ - Administration/Moderation commands", commands);
        assert(r@.commands[0].names =~= moderation_group_spec().commands[0].names);
        assert(r@.commands[0].examples =~= moderation_group_spec().commands[0].examples);
        assert(r@.commands =~= moderation_group_spec().commands);
        r
    }
}


/// The reply of `ping`.
pub open spec fn ping_reply_spec() -> EmbedView {
    EmbedView {
        title: Some("Pong!"@),
        description: Some("I'm alive >.>"@),
        color: Some(EmbedColor::Pink),
        ..EmbedView::empty()
    }
}

/// The reply of `ping`.
pub fn ping_reply() -> (r: EmbedContent)
    ensures
        r@ == ping_reply_spec(),
{
    let mut embed = EmbedContent::new();
    embed.title = Some(owned("Pong!"));
    embed.description = Some(owned("I'm alive >.>"));
    embed.color = Some(EmbedColor::Pink);
    embed
}

/// The reply of `cat`, showing the picture at `url`.
pub open spec fn cat_reply_spec(url: Seq<char>) -> EmbedView {
    EmbedView {
        title: Some("Meow :3"@),
        description: Some("[Cat!]("@ + url + ")"@),
        image: Some(url),
        color: Some(EmbedColor::Pink),
        ..EmbedView::empty()
    }
}

/// The reply of `cat`, showing the picture at `url`.
pub fn cat_reply(url: &str) -> (r: EmbedContent)
    ensures
        r@ == cat_reply_spec(url@),
{
    let mut embed = EmbedContent::new();
    embed.title = Some(owned("Meow :3"));
    let mut description = owned("[Cat!](");
    description.append(url);
    description.append(")");
    embed.description = Some(description);
    embed.image = Some(owned(url));
    embed.color = Some(EmbedColor::Pink);
    embed
}

/// What `format!("{:?}", v)` gives for an optional string.
pub uninterp spec fn option_debug_text(v: Option<Seq<char>>) -> Seq<char>;

/// Characters that `Debug` writes out unescaped inside a quoted string.
pub open spec fn debug_plain(s: Seq<char>) -> bool {
    forall|i: int| 0 <= i < s.len() ==> {
        let c = #[trigger] s[i] as u32;
        (48 <= c <= 57) || (65 <= c <= 90) || (97 <= c <= 122) || c == 95
    }
}

/// `format!("{:?}", v)` (std's `Debug` of `Option<String>`): named by
/// `option_debug_text`; `None` is written `None`, and a string made only of
/// ASCII letters, digits and `_` is written `Some("...")` unchanged. The
/// escaping of other characters is not stated.
#[verifier::external_body]
fn option_debug_string(v: &Option<String>) -> (r: String)
    ensures
        r@ == option_debug_text(v.deep_view()),
        v is None ==> r@ == "None"@,
        v is Some && debug_plain(v->0@) ==> r@ == "Some(\""@ + v->0@ + "\")"@,
{
    format!("{:?}", v)
}

/// The picture of a guild's icon, as `gtype` shows it.
pub open spec fn guild_icon_url(guild_id: u64, icon: Option<Seq<char>>) -> Seq<char> {
    "https://cdn.discordapp.com/icons/"@ + crate::text::decimal(guild_id as nat) + "/"@
        + option_debug_text(icon)
}

/// The reply of `gtype` for a guild of the given stored type code.
pub open spec fn guild_type_reply_spec(code: u32, guild_id: u64, icon: Option<Seq<char>>) -> EmbedView {
    EmbedView {
        title: Some("Guild Type:"@),
        thumbnail: Some(guild_icon_url(guild_id, icon)),
        description: Some(crate::guild::guild_type_label_spec(code)),
        color: Some(EmbedColor::Pink),
        ..EmbedView::empty()
    }
}

/// The reply of `gtype` for a guild of the given stored type code.
pub fn guild_type_reply(code: u32, guild_id: u64, icon: &Option<String>) -> (r: EmbedContent)
    ensures
        r@ == guild_type_reply_spec(code, guild_id, icon.deep_view()),
{
    let mut embed = EmbedContent::new();
    embed.title = Some(owned("Guild Type:"));
    let mut url = owned("https://cdn.discordapp.com/icons/");
    crate::text::push_decimal(&mut url, guild_id);
    url.append("/");
    let icon_text = option_debug_string(icon);
    url.append(icon_text.as_str());
    embed.thumbnail = Some(url);
    embed.description = Some(owned(crate::guild::guild_type_label(code)));
    embed.color = Some(EmbedColor::Pink);
    embed
}

/// The prefix that commands take in a guild: the one stored for the guild,
/// or the default one when none could be read.
pub open spec fn command_prefix_spec(stored_prefix: Option<Seq<char>>, default_prefix: Seq<char>) -> Seq<char> {
    match stored_prefix {
        Some(p) => p,
        None => default_prefix,
    }
}

/// The prefix that the help pages show: the guild's command prefix in a
/// guild, and none in a direct message.
pub open spec fn help_prefix_spec(in_guild: bool, stored_prefix: Option<Seq<char>>, default_prefix: Seq<char>) -> Seq<char> {
    if in_guild {
        command_prefix_spec(stored_prefix, default_prefix)
    } else {
        Seq::empty()
    }
}

pub open spec fn opt_str_view(s: Option<&str>) -> Option<Seq<char>> {
    match s {
        Some(p) => Some(p@),
        None => None,
    }
}

/// In a guild, the help pages show the very prefix that the guild's
/// commands take.
pub proof fn lemma_help_shows_command_prefix(stored_prefix: Option<Seq<char>>, default_prefix: Seq<char>)
    ensures
        help_prefix_spec(true, stored_prefix, default_prefix) == command_prefix_spec(stored_prefix, default_prefix),
{
}

/// In a direct message the help pages show no prefix, whatever is stored or
/// configured.
pub proof fn lemma_no_prefix_outside_guild(stored_prefix: Option<Seq<char>>, default_prefix: Seq<char>)
    ensures
        help_prefix_spec(false, stored_prefix, default_prefix) == Seq::<char>::empty(),
{
}

/// In a guild the help pages show the guild's stored prefix when there is
/// one, and the configured default otherwise.
pub proof fn lemma_guild_prefix_choice(stored_prefix: Option<Seq<char>>, default_prefix: Seq<char>)
    ensures
        stored_prefix is Some ==> help_prefix_spec(true, stored_prefix, default_prefix) == stored_prefix->0,
        stored_prefix is None ==> help_prefix_spec(true, stored_prefix, default_prefix) == default_prefix,
{
}

/// The prefix that commands take in a guild (see `command_prefix_spec`).
pub fn command_prefix(stored_prefix: Option<&str>, default_prefix: &str) -> (r: String)
    ensures
        r@ == command_prefix_spec(opt_str_view(stored_prefix), default_prefix@),
{
    match stored_prefix {
        Some(p) => owned(p),
        None => owned(default_prefix),
    }
}

/// The prefix that the help pages show (see `help_prefix_spec`).
pub fn help_prefix(in_guild: bool, stored_prefix: Option<&str>, default_prefix: &str) -> (r: String)
    ensures
        r@ == help_prefix_spec(in_guild, opt_str_view(stored_prefix), default_prefix@),
{
    if in_guild {
        command_prefix(stored_prefix, default_prefix)
    } else {
        String::new()
    }
}

/// The commands that may only run once their guild is registered.
pub open spec fn waits_for_registration_spec(name: Seq<char>) -> bool {
    name == "prefix"@ || name == "Space"@
}

/// Whether the command waits until its guild is registered.
pub fn waits_for_registration(name: &str) -> (r: bool)
    ensures
        r == waits_for_registration_spec(name@),
{
    crate::text::str_equal(name, "prefix") || crate::text::str_equal(name, "Space")
}

/// Whether a command may run. Outside a guild it always may; in a guild the
/// guild is registered first, and the commands that wait for that run only
/// when the registration succeeded.
pub fn before_command_allows(in_guild: bool, name: &str, registration_succeeded: bool) -> (r: bool)
    ensures
        r == (!in_guild || !waits_for_registration_spec(name@) || registration_succeeded),
{
    if !in_guild {
        return true;
    }
    if waits_for_registration(name) {
        return registration_succeeded;
    }
    true
}

/// The reply when a command failed.
pub open spec fn command_error_reply_spec(tick: Seq<char>, name: Seq<char>, why: Seq<char>) -> EmbedView {
    EmbedView {
        title: Some("Error!"@),
        description: Some(
            tick + " Error running the command `"@ + name + "`:\n```"@ + why
                + "```\n> Please report this error to: `AceFifi#2000`"@,
        ),
        color: Some(EmbedColor::Red),
        ..EmbedView::empty()
    }
}

/// The reply when the command `name` failed with the error text `why`;
/// `tick` is the emoji that opens it.
pub fn command_error_reply(tick: &str, name: &str, why: &str) -> (r: EmbedContent)
    ensures
        r@ == command_error_reply_spec(tick@, name@, why@),
{
    let mut embed = EmbedContent::new();
    embed.title = Some(owned("Error!"));
    let mut d = owned(tick);
    d.append(" Error running the command `");
    d.append(name);
    d.append("`:\n```");
    d.append(why);
    d.append("```\n> Please report this error to: `AceFifi#2000`");
    embed.description = Some(d);
    embed.color = Some(EmbedColor::Red);
    embed
}

/// The log entry of a command: when, by whom, which command, and the error
/// text when it failed.
pub open spec fn command_log_spec(time: Seq<char>, user: Seq<char>, name: Seq<char>, error: Option<Seq<char>>) -> Seq<char> {
    let d = "••• "@;
    match error {
        Some(e) => "\nCommand Errored:\n"@ + d + "Time: "@ + time + "\n"@ + d + "User: "@ + user + "\n"@ + d
            + "Command: "@ + name + "\n"@ + d + "Error: "@ + e,
        None => "\nCommand Processed:\n"@ + d + "Time: "@ + time + "\n"@ + d + "User: "@ + user + "\n"@ + d
            + "Command: "@ + name + "\n"@,
    }
}

/// The log entry of a command (see `command_log_spec`).
pub fn command_log(time: &str, user: &str, name: &str, error: Option<&str>) -> (r: String)
    ensures
        r@ == command_log_spec(time@, user@, name@, match error { Some(e) => Some(e@), None => None }),
{
    let mut s = match error {
        Some(_) => owned("\nCommand Errored:\n"),
        None => owned("\nCommand Processed:\n"),
    };
    s.append("••• ");
    s.append("Time: ");
    s.append(time);
    s.append("\n");
    s.append("••• ");
    s.append("User: ");
    s.append(user);
    s.append("\n");
    s.append("••• ");
    s.append("Command: ");
    s.append(name);
    s.append("\n");
    match error {
        Some(e) => {
            s.append("••• ");
            s.append("Error: ");
            s.append(e);
        },
        None => {},
    }
    s
}

impl Handler {
    /// The line logged when the bot has connected as the user `tag`.
    pub fn ready_message(tag: &str) -> (r: String)
        ensures
            r@ == tag@ + " is online"@,
    {
        let mut s = owned(tag);
        s.append(" is online");
        s
    }
}

} // verus!
