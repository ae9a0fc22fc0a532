//! The `help` command: the listing of all command groups, and the page of a
//! single command, built from the commands' metadata.

use vstd::prelude::*;
use vstd::string::*;
use rand::Rng;
use crate::embed::{EmbedColor, EmbedContent, EmbedView, FieldView, field_view, make_field, owned};

verus! {

/// What the help needs to know of a command.
pub struct CommandInfo {
    /// The command's name, then its aliases.
    pub names: Vec<String>,
    pub help_available: bool,
    pub description: Option<String>,
    pub usage: Option<String>,
    pub examples: Vec<String>,
}

pub struct CommandView {
    pub names: Seq<Seq<char>>,
    pub help_available: bool,
    pub description: Option<Seq<char>>,
    pub usage: Option<Seq<char>>,
    pub examples: Seq<Seq<char>>,
}

impl View for CommandInfo {
    type V = CommandView;

    open spec fn view(&self) -> CommandView {
        CommandView {
            names: self.names.deep_view(),
            help_available: self.help_available,
            description: self.description.deep_view(),
            usage: self.usage.deep_view(),
            examples: self.examples.deep_view(),
        }
    }
}

/// What the help needs to know of a group of commands.
pub struct GroupInfo {
    pub name: String,
    pub description: Option<String>,
    pub help_available: bool,
    pub commands: Vec<CommandInfo>,
}

pub struct GroupView {
    pub name: Seq<char>,
    pub description: Option<Seq<char>>,
    pub help_available: bool,
    pub commands: Seq<CommandView>,
}

impl View for GroupInfo {
    type V = GroupView;

    open spec fn view(&self) -> GroupView {
        GroupView {
            name: self.name@,
            description: self.description.deep_view(),
            help_available: self.help_available,
            commands: self.commands@.map_values(|c: CommandInfo| c@),
        }
    }
}

pub open spec fn groups_view(groups: Seq<GroupInfo>) -> Seq<GroupView> {
    groups.map_values(|g: GroupInfo| g@)
}

/// Every command that the listing shows has a name to show.
pub open spec fn listed_commands_named(groups: Seq<GroupView>) -> bool {
    forall|g: int, c: int|
        0 <= g < groups.len() && 0 <= c < groups[g].commands.len() && groups[g].help_available
            && (#[trigger] groups[g].commands[c]).help_available
            ==> groups[g].commands[c].names.len() > 0
}

/// The listing of a group's commands: `` `name` `` for each command shown in
/// the help, each preceded by a space.
pub open spec fn command_list(commands: Seq<CommandView>) -> Seq<char>
    decreases commands.len(),
{
    if commands.len() == 0 {
        Seq::empty()
    } else {
        let last = commands.last();
        command_list(commands.drop_last()) + if last.help_available {
            " `"@ + last.names[0] + "`"@
        } else {
            Seq::empty()
        }
    }
}

/// The title of a group's field: its description, or its name without one.
pub open spec fn group_title(g: GroupView) -> Seq<char> {
    match g.description {
        Some(d) => d,
        None => g.name,
    }
}

/// One field per group shown in the help, in order.
pub open spec fn overview_fields(groups: Seq<GroupView>) -> Seq<FieldView>
    decreases groups.len(),
{
    if groups.len() == 0 {
        Seq::empty()
    } else {
        let last = groups.last();
        overview_fields(groups.drop_last()) + if last.help_available {
            seq![field_view(group_title(last), command_list(last.commands), false)]
        } else {
            Seq::empty()
        }
    }
}

/// The listing of all commands.
pub open spec fn overview_spec(groups: Seq<GroupView>, image: Seq<char>) -> EmbedView {
    EmbedView {
        title: Some("Available Commands"@),
        description: Some("To get more info on a command, type `help {command}`"@),
        image: Some(image),
        color: Some(EmbedColor::Pink),
        fields: overview_fields(groups),
        ..EmbedView::empty()
    }
}

/// `"\n- "` before each item.
pub open spec fn bullet_list(items: Seq<Seq<char>>) -> Seq<char>
    decreases items.len(),
{
    if items.len() == 0 {
        Seq::empty()
    } else {
        bullet_list(items.drop_last()) + "\n- "@ + items.last()
    }
}

/// Each example on a line of its own, prefixed and in backquotes.
pub open spec fn example_lines(prefix: Seq<char>, examples: Seq<Seq<char>>) -> Seq<char>
    decreases examples.len(),
{
    if examples.len() == 0 {
        Seq::empty()
    } else {
        example_lines(prefix, examples.drop_last()) + "\n`"@ + prefix + examples.last() + "`"@
    }
}

/// The fields of a command's help page: aliases, usage and examples, each
/// only where there is something to show.
pub open spec fn command_fields(cmd: CommandView, prefix: Seq<char>) -> Seq<FieldView> {
    let aliases = if cmd.names.len() > 1 {
        seq![field_view("Aliases"@, bullet_list(cmd.names.subrange(1, cmd.names.len() as int)), false)]
    } else {
        Seq::empty()
    };
    let usage = match cmd.usage {
        Some(u) => seq![field_view("Use"@, "`"@ + prefix + u + "`"@, false)],
        None => Seq::empty(),
    };
    let examples = if cmd.examples.len() > 0 {
        seq![
            field_view(
                if cmd.examples.len() > 1 { "Examples"@ } else { "Example"@ },
                example_lines(prefix, cmd.examples),
                false,
            ),
        ]
    } else {
        Seq::empty()
    };
    aliases + usage + examples
}

/// The help page of a command.
pub open spec fn command_page_spec(cmd: CommandView, prefix: Seq<char>, image: Seq<char>) -> EmbedView {
    EmbedView {
        title: Some("Command: "@ + cmd.names[0]),
        description: cmd.description,
        image: Some(image),
        color: Some(EmbedColor::Purple),
        fields: command_fields(cmd, prefix),
        footer: Some("<> is required, [] is optional"@),
        ..EmbedView::empty()
    }
}

/// The help page of `help` itself.
pub open spec fn help_page_spec(prefix: Seq<char>, image: Seq<char>) -> EmbedView {
    EmbedView {
        title: Some("More info for help"@),
        description: Some("The help command provides a list of all usable commands."@),
        image: Some(image),
        color: Some(EmbedColor::Purple),
        fields: seq![
            field_view("Use"@, "`"@ + prefix + "help <command>*`"@, false),
            field_view("Examples"@, "`"@ + prefix + "help prefix`\n`"@ + prefix + "help`"@, false),
        ],
        ..EmbedView::empty()
    }
}

/// The answer when no command has the name asked for.
pub open spec fn not_found_spec() -> EmbedView {
    EmbedView {
        title: Some("[CMDS] Command not found"@),
        color: Some(EmbedColor::Purple),
        ..EmbedView::empty()
    }
}

/// Command `c` of group `g` exists and answers to `name`.
pub open spec fn command_at_matches(groups: Seq<GroupView>, name: Seq<char>, g: int, c: int) -> bool {
    &&& 0 <= g < groups.len()
    &&& 0 <= c < groups[g].commands.len()
    &&& groups[g].commands[c].names.contains(name)
}

/// Position `(g2, c2)` comes after `(g, c)` when groups are read in order and
/// each group's commands in order.
pub open spec fn comes_after(g2: int, c2: int, g: int, c: int) -> bool {
    g2 > g || (g2 == g && c2 > c)
}

/// `(g, c)` is the last command, in reading order, that answers to `name`.
pub open spec fn is_last_match(groups: Seq<GroupView>, name: Seq<char>, g: int, c: int) -> bool {
    &&& command_at_matches(groups, name, g, c)
    &&& forall|g2: int, c2: int|
        comes_after(g2, c2, g, c) ==> !#[trigger] command_at_matches(groups, name, g2, c2)
}

pub open spec fn some_command_matches(groups: Seq<GroupView>, name: Seq<char>) -> bool {
    exists|g: int, c: int| #[trigger] command_at_matches(groups, name, g, c)
}

/// The command that answers to `name`; the last one if several do.
pub open spec fn last_match(groups: Seq<GroupView>, name: Seq<char>) -> (int, int) {
    choose|p: (int, int)| is_last_match(groups, name, p.0, p.1)
}

/// What `help` answers, given the command name asked for (if any), the
/// prefix to show, whether hidden commands may be shown and the picture to
/// show. `None` means that nothing is sent.
pub open spec fn help_reply_spec(
    groups: Seq<GroupView>,
    arg: Option<Seq<char>>,
    prefix: Seq<char>,
    hidden_allowed: bool,
    image: Seq<char>,
) -> Option<EmbedView> {
    match arg {
        None => Some(overview_spec(groups, image)),
        Some(name) => if name == "help"@ {
            Some(help_page_spec(prefix, image))
        } else if !some_command_matches(groups, name) {
            Some(not_found_spec())
        } else {
            let p = last_match(groups, name);
            let cmd = groups[p.0].commands[p.1];
            if !cmd.help_available && !hidden_allowed {
                None
            } else {
                Some(command_page_spec(cmd, prefix, image))
            }
        },
    }
}

/// There is at most one last match.
pub proof fn lemma_last_match_unique(groups: Seq<GroupView>, name: Seq<char>, g: int, c: int)
    requires
        is_last_match(groups, name, g, c),
    ensures
        last_match(groups, name) == (g, c),
        some_command_matches(groups, name),
{
    assert(is_last_match(groups, name, (g, c).0, (g, c).1));
    let p = last_match(groups, name);
    assert(is_last_match(groups, name, p.0, p.1));
    if p != (g, c) {
        if comes_after(p.0, p.1, g, c) {
            assert(command_at_matches(groups, name, p.0, p.1));
        } else {
            assert(comes_after(g, c, p.0, p.1));
            assert(command_at_matches(groups, name, g, c));
        }
    }
}

/// Every command can be looked up by its name: asking for it never gives
/// the "not found" page.
pub proof fn lemma_listed_command_found(groups: Seq<GroupView>, g: int, c: int)
    requires
        0 <= g < groups.len(),
        0 <= c < groups[g].commands.len(),
        groups[g].commands[c].names.len() > 0,
    ensures
        some_command_matches(groups, groups[g].commands[c].names[0]),
{
    let name = groups[g].commands[c].names[0];
    assert(groups[g].commands[c].names[0] == name);
    assert(groups[g].commands[c].names.contains(name));
    assert(command_at_matches(groups, name, g, c));
}

/// Allowing hidden commands only ever shows more: whatever `help` shows
/// without that permission it shows the same with it, and with it every
/// request gets an answer.
pub proof fn lemma_hidden_allowed_only_widens(
    groups: Seq<GroupView>,
    arg: Option<Seq<char>>,
    prefix: Seq<char>,
    image: Seq<char>,
)
    ensures
        help_reply_spec(groups, arg, prefix, false, image) is Some ==> help_reply_spec(groups, arg, prefix, true, image)
            == help_reply_spec(groups, arg, prefix, false, image),
        help_reply_spec(groups, arg, prefix, true, image) is Some,
{
}

/// A command shown in the help always gets its page when asked for by name,
/// whatever the guild's type.
pub proof fn lemma_visible_command_gets_page(
    groups: Seq<GroupView>,
    name: Seq<char>,
    prefix: Seq<char>,
    hidden_allowed: bool,
    image: Seq<char>,
    g: int,
    c: int,
)
    requires
        is_last_match(groups, name, g, c),
        groups[g].commands[c].help_available,
        name != "help"@,
    ensures
        help_reply_spec(groups, Some(name), prefix, hidden_allowed, image)
            == Some(command_page_spec(groups[g].commands[c], prefix, image)),
{
    lemma_last_match_unique(groups, name, g, c);
}

/// A command hidden from the listing gets no page where hidden commands may
/// not be shown; asking for `help` gives the page of `help` itself; a name
/// that no command answers to gives the "not found" page; asking for nothing
/// gives the listing.
pub proof fn lemma_help_answers(
    groups: Seq<GroupView>,
    name: Seq<char>,
    prefix: Seq<char>,
    hidden_allowed: bool,
    image: Seq<char>,
    g: int,
    c: int,
)
    ensures
        is_last_match(groups, name, g, c) && !groups[g].commands[c].help_available && name != "help"@
            ==> help_reply_spec(groups, Some(name), prefix, false, image) is None,
        help_reply_spec(groups, Some("help"@), prefix, hidden_allowed, image) == Some(help_page_spec(prefix, image)),
        name != "help"@ && !(exists|g2: int, c2: int| #[trigger] command_at_matches(groups, name, g2, c2))
            ==> help_reply_spec(groups, Some(name), prefix, hidden_allowed, image) == Some(not_found_spec()),
        help_reply_spec(groups, None, prefix, hidden_allowed, image) == Some(overview_spec(groups, image)),
{
    if is_last_match(groups, name, g, c) {
        lemma_last_match_unique(groups, name, g, c);
    }
}

/// Whether `names` holds `name`.
fn names_contain(names: &Vec<String>, name: &str) -> (r: bool)
    ensures
        r == names.deep_view().contains(name@),
{
    let mut i: usize = 0;
    while i < names.len()
        invariant
            i <= names.len(),
            forall|j: int| 0 <= j < i ==> names.deep_view()[j] != name@,
        decreases names.len() - i,
    {
        if crate::text::str_equal(names[i].as_str(), name) {
            assert(names.deep_view()[i as int] == name@);
            return true;
        }
        i = i + 1;
    }
    false
}

/// The position of the command that answers to `name`; the last one when
/// several do.
pub fn find_command(groups: &Vec<GroupInfo>, name: &str) -> (r: Option<(usize, usize)>)
    ensures
        match r {
            Some((g, c)) => is_last_match(groups_view(groups@), name@, g as int, c as int),
            None => !some_command_matches(groups_view(groups@), name@),
        },
{
    let ghost gv = groups_view(groups@);
    let mut found: Option<(usize, usize)> = None;
    let mut g: usize = 0;
    while g < groups.len()
        invariant
            gv == groups_view(groups@),
            g <= groups.len(),
            match found {
                Some((fg, fc)) => fg < g && command_at_matches(gv, name@, fg as int, fc as int)
                    && forall|g2: int, c2: int|
                    g2 < g && comes_after(g2, c2, fg as int, fc as int)
                        ==> !#[trigger] command_at_matches(gv, name@, g2, c2),
                None => forall|g2: int, c2: int|
                    g2 < g ==> !#[trigger] command_at_matches(gv, name@, g2, c2),
            },
        decreases groups.len() - g,
    {
        let commands = &groups[g].commands;
        let ghost before = found;
        let mut c: usize = 0;
        while c < commands.len()
            invariant
                gv == groups_view(groups@),
                g < groups.len(),
                commands == groups@[g as int].commands,
                c <= commands.len(),
                match found {
                    Some((fg, fc)) => fg <= g && (fg == g ==> fc < c)
                        && command_at_matches(gv, name@, fg as int, fc as int)
                        && forall|g2: int, c2: int|
                        (g2 < g || (g2 == g && c2 < c)) && comes_after(g2, c2, fg as int, fc as int)
                            ==> !#[trigger] command_at_matches(gv, name@, g2, c2),
                    None => forall|g2: int, c2: int|
                        (g2 < g || (g2 == g && c2 < c))
                            ==> !#[trigger] command_at_matches(gv, name@, g2, c2),
                },
            decreases commands.len() - c,
        {
            assert(gv[g as int].commands[c as int] == commands@[c as int]@);
            if names_contain(&commands[c].names, name) {
                found = Some((g, c));
            }
            c = c + 1;
        }
        proof {
            assert forall|g2: int, c2: int| g2 == g && c2 >= commands.len()
                implies !#[trigger] command_at_matches(gv, name@, g2, c2) by {}
        }
        g = g + 1;
    }
    found
}


/// The listing of a group's commands (see `command_list`).
fn command_list_text(commands: &Vec<CommandInfo>, Ghost(gv): Ghost<GroupView>) -> (r: String)
    requires
        gv.commands == commands@.map_values(|c: CommandInfo| c@),
        forall|c: int| 0 <= c < gv.commands.len() && (#[trigger] gv.commands[c]).help_available
            ==> gv.commands[c].names.len() > 0,
    ensures
        r@ == command_list(gv.commands),
{
    let mut out = String::new();
    let mut i: usize = 0;
    assert(gv.commands.subrange(0, 0) =~= Seq::<CommandView>::empty());
    while i < commands.len()
        invariant
            i <= commands.len(),
            gv.commands == commands@.map_values(|c: CommandInfo| c@),
            forall|c: int| 0 <= c < gv.commands.len() && (#[trigger] gv.commands[c]).help_available
                ==> gv.commands[c].names.len() > 0,
            out@ == command_list(gv.commands.subrange(0, i as int)),
        decreases commands.len() - i,
    {
        let ghost next = gv.commands.subrange(0, i as int + 1);
        assert(next.drop_last() =~= gv.commands.subrange(0, i as int));
        assert(next.last() == commands@[i as int]@);
        let cmd = &commands[i];
        if cmd.help_available {
            assert(gv.commands[i as int].help_available);
            out.append(" `");
            out.append(cmd.names[0].as_str());
            out.append("`");
        }
        assert(out@ =~= command_list(next));
        i = i + 1;
    }
    assert(gv.commands.subrange(0, commands.len() as int) =~= gv.commands);
    out
}

/// The listing of all command groups.
pub fn help_overview(groups: &Vec<GroupInfo>, image: &str) -> (r: EmbedContent)
    requires
        listed_commands_named(groups_view(groups@)),
    ensures
        r@ == overview_spec(groups_view(groups@), image@),
{
    let ghost gv = groups_view(groups@);
    let mut embed = EmbedContent::new();
    embed.title = Some(owned("Available Commands"));
    embed.description = Some(owned("To get more info on a command, type `help {command}`"));
    embed.image = Some(owned(image));
    embed.color = Some(EmbedColor::Pink);
    let mut i: usize = 0;
    assert(gv.subrange(0, 0) =~= Seq::<GroupView>::empty());
    assert(embed@.fields =~= overview_fields(gv.subrange(0, 0)));
    while i < groups.len()
        invariant
            i <= groups.len(),
            gv == groups_view(groups@),
            listed_commands_named(gv),
            embed@ == (EmbedView { fields: overview_fields(gv.subrange(0, i as int)), ..overview_spec(gv, image@) }),
        decreases groups.len() - i,
    {
        let ghost next = gv.subrange(0, i as int + 1);
        assert(next.drop_last() =~= gv.subrange(0, i as int));
        assert(next.last() == groups@[i as int]@);
        let group = &groups[i];
        if group.help_available {
            let title = match &group.description {
                Some(d) => d.as_str(),
                None => group.name.as_str(),
            };
            proof {
                assert forall|c: int| 0 <= c < gv[i as int].commands.len()
                    && (#[trigger] gv[i as int].commands[c]).help_available
                    implies gv[i as int].commands[c].names.len() > 0 by {
                    assert(0 <= i < gv.len());
                }
            }
            let list = command_list_text(&group.commands, Ghost(gv[i as int]));
            embed.add_field(make_field(title, list.as_str(), false));
        }
        assert(embed@.fields =~= overview_fields(next));
        i = i + 1;
    }
    assert(gv.subrange(0, groups.len() as int) =~= gv);
    embed
}

/// `"\n- "` before each of `items[from..]`.
fn bullet_list_text(items: &Vec<String>, from: usize) -> (r: String)
    requires
        from <= items.len(),
    ensures
        r@ == bullet_list(items.deep_view().subrange(from as int, items.len() as int)),
{
    let ghost all = items.deep_view().subrange(from as int, items.len() as int);
    let mut out = String::new();
    let mut i: usize = from;
    assert(all.subrange(0, 0) =~= Seq::<Seq<char>>::empty());
    while i < items.len()
        invariant
            from <= i <= items.len(),
            all == items.deep_view().subrange(from as int, items.len() as int),
            out@ == bullet_list(all.subrange(0, i - from)),
        decreases items.len() - i,
    {
        let ghost next = all.subrange(0, i - from + 1);
        assert(next.drop_last() =~= all.subrange(0, i - from));
        assert(next.last() == items[i as int]@);
        out.append("\n- ");
        out.append(items[i].as_str());
        assert(out@ =~= bullet_list(next));
        i = i + 1;
    }
    assert(all.subrange(0, items.len() - from) =~= all);
    out
}

/// Each example on its own line, prefixed and in backquotes.
fn example_lines_text(prefix: &str, examples: &Vec<String>) -> (r: String)
    ensures
        r@ == example_lines(prefix@, examples.deep_view()),
{
    let ghost all = examples.deep_view();
    let mut out = String::new();
    let mut i: usize = 0;
    assert(all.subrange(0, 0) =~= Seq::<Seq<char>>::empty());
    while i < examples.len()
        invariant
            i <= examples.len(),
            all == examples.deep_view(),
            out@ == example_lines(prefix@, all.subrange(0, i as int)),
        decreases examples.len() - i,
    {
        let ghost next = all.subrange(0, i as int + 1);
        assert(next.drop_last() =~= all.subrange(0, i as int));
        assert(next.last() == examples[i as int]@);
        out.append("\n`");
        out.append(prefix);
        out.append(examples[i].as_str());
        out.append("`");
        assert(out@ =~= example_lines(prefix@, next));
        i = i + 1;
    }
    assert(all.subrange(0, examples.len() as int) =~= all);
    out
}

/// The help page of one command.
pub fn command_page(cmd: &CommandInfo, prefix: &str, image: &str) -> (r: EmbedContent)
    requires
        cmd.names.len() > 0,
    ensures
        r@ == command_page_spec(cmd@, prefix@, image@),
{
    let mut embed = EmbedContent::new();
    embed.color = Some(EmbedColor::Purple);
    embed.image = Some(owned(image));
    let mut title = owned("Command: ");
    title.append(cmd.names[0].as_str());
    embed.title = Some(title);
    embed.footer = Some(owned("<> is required, [] is optional"));
    embed.description = match &cmd.description {
        Some(d) => Some(owned(d.as_str())),
        None => None,
    };
    let ghost v = cmd@;
    if cmd.names.len() > 1 {
        let aliases = bullet_list_text(&cmd.names, 1);
        embed.add_field(make_field("Aliases", aliases.as_str(), false));
    }
    let ghost after_aliases = embed@.fields;
    match &cmd.usage {
        Some(u) => {
            let mut text = owned("`");
            text.append(prefix);
            text.append(u.as_str());
            text.append("`");
            embed.add_field(make_field("Use", text.as_str(), false));
        },
        None => {},
    }
    let ghost after_usage = embed@.fields;
    if cmd.examples.len() > 0 {
        let lines = example_lines_text(prefix, &cmd.examples);
        let label = if cmd.examples.len() > 1 { "Examples" } else { "Example" };
        embed.add_field(make_field(label, lines.as_str(), false));
    }
    assert(embed@.fields =~= command_fields(v, prefix@));
    embed
}

/// The help page of `help` itself.
pub fn help_page(prefix: &str, image: &str) -> (r: EmbedContent)
    ensures
        r@ == help_page_spec(prefix@, image@),
{
    let mut embed = EmbedContent::new();
    embed.color = Some(EmbedColor::Purple);
    embed.image = Some(owned(image));
    embed.title = Some(owned("More info for help"));
    embed.description = Some(owned("The help command provides a list of all usable commands."));
    let mut usage = owned("`");
    usage.append(prefix);
    usage.append("help <command>*`");
    embed.add_field(make_field("Use", usage.as_str(), false));
    let mut examples = owned("`");
    examples.append(prefix);
    examples.append("help prefix`\n`");
    examples.append(prefix);
    examples.append("help`");
    embed.add_field(make_field("Examples", examples.as_str(), false));
    assert(embed@.fields =~= help_page_spec(prefix@, image@).fields);
    embed
}

/// The answer when no command has the name asked for.
pub fn command_not_found() -> (r: EmbedContent)
    ensures
        r@ == not_found_spec(),
{
    let mut embed = EmbedContent::new();
    embed.color = Some(EmbedColor::Purple);
    embed.title = Some(owned("[CMDS] Command not found"));
    embed
}

/// What `help` answers (see `help_reply_spec`); `None` when nothing is sent.
pub fn help_reply(
    groups: &Vec<GroupInfo>,
    arg: Option<&str>,
    prefix: &str,
    hidden_allowed: bool,
    image: &str,
) -> (r: Option<EmbedContent>)
    requires
        arg is None ==> listed_commands_named(groups_view(groups@)),
    ensures
        r.deep_view() == help_reply_spec(
            groups_view(groups@),
            match arg { Some(a) => Some(a@), None => None },
            prefix@,
            hidden_allowed,
            image@,
        ),
{
    match arg {
        None => Some(help_overview(groups, image)),
        Some(name) => {
            if crate::text::str_equal(name, "help") {
                Some(help_page(prefix, image))
            } else {
                match find_command(groups, name) {
                    None => Some(command_not_found()),
                    Some((g, c)) => {
                        proof {
                            lemma_last_match_unique(groups_view(groups@), name@, g as int, c as int);
                        }
                        let cmd = &groups[g].commands[c];
                        assert(groups_view(groups@)[g as int].commands[c as int] == cmd@);
                        if !cmd.help_available && !hidden_allowed {
                            None
                        } else {
                            assert(cmd@.names.contains(name@));
                            Some(command_page(cmd, prefix, image))
                        }
                    },
                }
            }
        },
    }
}


/// The pictures that the help pages show, one picked at random each time.
pub open spec fn help_images() -> Seq<Seq<char>> {
    seq![
        "https://lunardev.group/media/space/1.gif"@,
        "https://lunardev.group/media/space/2.gif"@,
        "https://lunardev.group/media/space/3.gif"@,
    ]
}

/// The `i`-th help picture.
pub fn help_image_at(i: usize) -> (r: &'static str)
    requires
        i < 3,
    ensures
        r@ == help_images()[i as int],
{
    if i == 0 {
        "https://lunardev.group/media/space/1.gif"
    } else if i == 1 {
        "https://lunardev.group/media/space/2.gif"
    } else {
        "https://lunardev.group/media/space/3.gif"
    }
}

/// `rand::Rng::gen_range(0..len)` on the thread's generator: a number below
/// `len`, drawn at random; which one is not stated.
#[verifier::external_body]
fn random_below(len: usize) -> (r: usize)
    requires
        len > 0,
    ensures
        r < len,
{
    rand::thread_rng().gen_range(0..len)
}

/// A help picture picked at random.
pub fn help_image() -> (r: &'static str)
    ensures
        help_images().contains(r@),
{
    let i = random_below(3);
    let r = help_image_at(i);
    assert(help_images()[i as int] == r@);
    r
}

} // verus!
