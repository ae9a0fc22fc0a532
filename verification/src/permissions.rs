//! The reply to a member who lacks permissions for a command: which of the
//! required permissions they have, and which they miss.

use vstd::prelude::*;
use vstd::string::*;
use crate::embed::{EmbedColor, EmbedContent, EmbedView, owned};
use crate::text::str_equal;

verus! {

/// What `serenity::model::Permissions::get_permission_names` returns for the
/// permission set with these bits: the names of the permissions it holds.
pub uninterp spec fn permission_names_of(bits: u64) -> Seq<Seq<char>>;

/// `Permissions::from_bits_truncate(bits).get_permission_names()` (serenity):
/// the names of the permissions among `bits`, named by
/// `permission_names_of`; an empty set has no names.
#[verifier::external_body]
fn permission_names(bits: u64) -> (r: Vec<String>)
    ensures
        r.deep_view() == permission_names_of(bits),
        bits == 0 ==> r.len() == 0,
{
    serenity::model::permissions::Permissions::from_bits_truncate(bits)
        .get_permission_names()
        .into_iter()
        .map(String::from)
        .collect()
}

/// The name under which a permission is listed to the member.
pub open spec fn permission_label_spec(name: Seq<char>) -> Seq<char> {
    if name == "Add Reactions"@ {
        "Add Reactions"@
    } else if name == "Administrator"@ {
        "Administrator"@
    } else if name == "Attach Files"@ {
        "Attach Files"@
    } else if name == "Ban Members"@ {
        "Ban Members"@
    } else if name == "Change Nickname"@ {
        "Change Nickname"@
    } else if name == "Connect"@ {
        "Connect"@
    } else if name == "Create Invite"@ {
        "Create Invite"@
    } else if name == "Deafen Members"@ {
        "Deafen Members"@
    } else if name == "Embed Links"@ {
        "Embed Links"@
    } else if name == "Use External Emojis"@ {
        "Use External Emojis"@
    } else if name == "Kick Members"@ {
        "Kick Memberes"@
    } else if name == "Manage Channels"@ {
        "Manage Channels"@
    } else if name == "Manage Emojis"@ {
        "Manage Emojis"@
    } else if name == "Manage Guilds"@ {
        "Manage Guilds"@
    } else if name == "Manage Messages"@ {
        "Manage Messages"@
    } else if name == "Manage Nicknames"@ {
        "Manage Nicjnames"@
    } else if name == "Manage Roles"@ {
        "Manage Roles"@
    } else if name == "Manage Webhooks"@ {
        "Manage Webhooks"@
    } else if name == "Mention Everyone"@ {
        "Mention @everyone"@
    } else if name == "Move Members"@ {
        "Move Members"@
    } else if name == "Mute Members"@ {
        "Mute Members"@
    } else if name == "Priority Speaker"@ {
        "Priority Speaker"@
    } else if name == "Read Message History"@ {
        "Read Message History"@
    } else if name == "Request To Speak"@ {
        "Request To Speak"@
    } else if name == "Read Messages"@ {
        "Read Messages"@
    } else if name == "Send Messages"@ {
        "Send Messages"@
    } else if name == "Send TTS Messages"@ {
        "Send TTS Messages"@
    } else if name == "Speak"@ {
        "Speak"@
    } else if name == "Stream"@ {
        "Stream"@
    } else if name == "Use Slash Commands"@ {
        "Use Slash Commands"@
    } else if name == "Use Voice Activity"@ {
        "Use Voice Activity"@
    } else if name == "View Audit Log"@ {
        "View Audit Log"@
    } else {
        "Unknown Permission(s)"@
    }
}

/// The name under which a permission is listed.
pub fn permission_label(name: &str) -> (r: &'static str)
    ensures
        r@ == permission_label_spec(name@),
{
    if str_equal(name, "Add Reactions") {
        "Add Reactions"
    } else if str_equal(name, "Administrator") {
        "Administrator"
    } else if str_equal(name, "Attach Files") {
        "Attach Files"
    } else if str_equal(name, "Ban Members") {
        "Ban Members"
    } else if str_equal(name, "Change Nickname") {
        "Change Nickname"
    } else if str_equal(name, "Connect") {
        "Connect"
    } else if str_equal(name, "Create Invite") {
        "Create Invite"
    } else if str_equal(name, "Deafen Members") {
        "Deafen Members"
    } else if str_equal(name, "Embed Links") {
        "Embed Links"
    } else if str_equal(name, "Use External Emojis") {
        "Use External Emojis"
    } else if str_equal(name, "Kick Members") {
        "Kick Memberes"
    } else if str_equal(name, "Manage Channels") {
        "Manage Channels"
    } else if str_equal(name, "Manage Emojis") {
        "Manage Emojis"
    } else if str_equal(name, "Manage Guilds") {
        "Manage Guilds"
    } else if str_equal(name, "Manage Messages") {
        "Manage Messages"
    } else if str_equal(name, "Manage Nicknames") {
        "Manage Nicjnames"
    } else if str_equal(name, "Manage Roles") {
        "Manage Roles"
    } else if str_equal(name, "Manage Webhooks") {
        "Manage Webhooks"
    } else if str_equal(name, "Mention Everyone") {
        "Mention @everyone"
    } else if str_equal(name, "Move Members") {
        "Move Members"
    } else if str_equal(name, "Mute Members") {
        "Mute Members"
    } else if str_equal(name, "Priority Speaker") {
        "Priority Speaker"
    } else if str_equal(name, "Read Message History") {
        "Read Message History"
    } else if str_equal(name, "Request To Speak") {
        "Request To Speak"
    } else if str_equal(name, "Read Messages") {
        "Read Messages"
    } else if str_equal(name, "Send Messages") {
        "Send Messages"
    } else if str_equal(name, "Send TTS Messages") {
        "Send TTS Messages"
    } else if str_equal(name, "Speak") {
        "Speak"
    } else if str_equal(name, "Stream") {
        "Stream"
    } else if str_equal(name, "Use Slash Commands") {
        "Use Slash Commands"
    } else if str_equal(name, "Use Voice Activity") {
        "Use Voice Activity"
    } else if str_equal(name, "View Audit Log") {
        "View Audit Log"
    } else {
        "Unknown Permission(s)"
    }
}

/// The names that serenity's `Permissions::get_permission_names` can give,
/// in its order (`Use External Emojis` stands for two flags).
pub open spec fn serenity_permission_names() -> Seq<Seq<char>> {
    seq![
        "Add Reactions"@,
        "Administrator"@,
        "Attach Files"@,
        "Ban Members"@,
        "Change Nickname"@,
        "Connect"@,
        "Create Invite"@,
        "Deafen Members"@,
        "Embed Links"@,
        "Use External Emojis"@,
        "Kick Members"@,
        "Manage Channels"@,
        "Manage Emojis"@,
        "Manage Guilds"@,
        "Manage Messages"@,
        "Manage Nicknames"@,
        "Manage Roles"@,
        "Manage Webhooks"@,
        "Mention Everyone"@,
        "Move Members"@,
        "Mute Members"@,
        "Priority Speaker"@,
        "Read Message History"@,
        "Request To Speak"@,
        "Read Messages"@,
        "Send Messages"@,
        "Send TTS Messages"@,
        "Speak"@,
        "Stream"@,
        "Use External Emojis"@,
        "Use Slash Commands"@,
        "Use Voice Activity"@,
        "View Audit Log"@,
    ]
}

/// Every permission that serenity can name is listed: under its own name,
/// except Kick Members, Manage Nicknames and Mention Everyone, which are
/// listed as `Kick Memberes`, `Manage Nicjnames` and `Mention @everyone`;
/// none of them is listed as unknown.
#[verifier::rlimit(50)]
pub proof fn lemma_serenity_names_listed(i: int)
    requires
        0 <= i < serenity_permission_names().len(),
    ensures
        serenity_permission_names()[i] == "Kick Members"@
            ==> permission_label_spec(serenity_permission_names()[i]) == "Kick Memberes"@,
        serenity_permission_names()[i] == "Manage Nicknames"@
            ==> permission_label_spec(serenity_permission_names()[i]) == "Manage Nicjnames"@,
        serenity_permission_names()[i] == "Mention Everyone"@
            ==> permission_label_spec(serenity_permission_names()[i]) == "Mention @everyone"@,
        serenity_permission_names()[i] != "Kick Members"@ && serenity_permission_names()[i] != "Manage Nicknames"@
            && serenity_permission_names()[i] != "Mention Everyone"@
            ==> permission_label_spec(serenity_permission_names()[i]) == serenity_permission_names()[i],
        permission_label_spec(serenity_permission_names()[i]) != "Unknown Permission(s)"@,
{
    reveal_strlit("Add Reactions");
    reveal_strlit("Administrator");
    reveal_strlit("Attach Files");
    reveal_strlit("Ban Members");
    reveal_strlit("Change Nickname");
    reveal_strlit("Connect");
    reveal_strlit("Create Invite");
    reveal_strlit("Deafen Members");
    reveal_strlit("Embed Links");
    reveal_strlit("Kick Memberes");
    reveal_strlit("Kick Members");
    reveal_strlit("Manage Channels");
    reveal_strlit("Manage Emojis");
    reveal_strlit("Manage Guilds");
    reveal_strlit("Manage Messages");
    reveal_strlit("Manage Nicjnames");
    reveal_strlit("Manage Nicknames");
    reveal_strlit("Manage Roles");
    reveal_strlit("Manage Webhooks");
    reveal_strlit("Mention @everyone");
    reveal_strlit("Mention Everyone");
    reveal_strlit("Move Members");
    reveal_strlit("Mute Members");
    reveal_strlit("Priority Speaker");
    reveal_strlit("Read Message History");
    reveal_strlit("Read Messages");
    reveal_strlit("Request To Speak");
    reveal_strlit("Send Messages");
    reveal_strlit("Send TTS Messages");
    reveal_strlit("Speak");
    reveal_strlit("Stream");
    reveal_strlit("Unknown Permission(s)");
    reveal_strlit("Use External Emojis");
    reveal_strlit("Use Slash Commands");
    reveal_strlit("Use Voice Activity");
    reveal_strlit("View Audit Log");
    assert(serenity_permission_names()[i] == serenity_permission_names()[i]);
        if i == 0 {
            assert(permission_label_spec("Add Reactions"@) == "Add Reactions"@);
        }
        if i == 1 {
            assert("Add Reactions"@[2] != "Administrator"@[2]);
            assert(permission_label_spec("Administrator"@) == "Administrator"@);
        }
        if i == 2 {
            assert("Kick Members"@[0] != "Attach Files"@[0]);
            assert(permission_label_spec("Attach Files"@) == "Attach Files"@);
        }
        if i == 3 {
            assert(permission_label_spec("Ban Members"@) == "Ban Members"@);
        }
        if i == 4 {
            assert(permission_label_spec("Change Nickname"@) == "Change Nickname"@);
        }
        if i == 5 {
            assert(permission_label_spec("Connect"@) == "Connect"@);
        }
        if i == 6 {
            assert("Add Reactions"@[0] != "Create Invite"@[0]);
            assert("Administrator"@[0] != "Create Invite"@[0]);
            assert(permission_label_spec("Create Invite"@) == "Create Invite"@);
        }
        if i == 7 {
            assert(permission_label_spec("Deafen Members"@) == "Deafen Members"@);
        }
        if i == 8 {
            assert("Ban Members"@[0] != "Embed Links"@[0]);
            assert(permission_label_spec("Embed Links"@) == "Embed Links"@);
        }
        if i == 9 {
            assert(permission_label_spec("Use External Emojis"@) == "Use External Emojis"@);
        }
        if i == 10 {
            assert("Attach Files"@[0] != "Kick Members"@[0]);
            assert(permission_label_spec("Kick Members"@) == "Kick Memberes"@);
        }
        if i == 11 {
            assert("Change Nickname"@[0] != "Manage Channels"@[0]);
            assert(permission_label_spec("Manage Channels"@) == "Manage Channels"@);
        }
        if i == 12 {
            assert("Add Reactions"@[0] != "Manage Emojis"@[0]);
            assert("Administrator"@[0] != "Manage Emojis"@[0]);
            assert("Create Invite"@[0] != "Manage Emojis"@[0]);
            assert(permission_label_spec("Manage Emojis"@) == "Manage Emojis"@);
        }
        if i == 13 {
            assert("Add Reactions"@[0] != "Manage Guilds"@[0]);
            assert("Administrator"@[0] != "Manage Guilds"@[0]);
            assert("Create Invite"@[0] != "Manage Guilds"@[0]);
            assert("Manage Emojis"@[7] != "Manage Guilds"@[7]);
            assert(permission_label_spec("Manage Guilds"@) == "Manage Guilds"@);
        }
        if i == 14 {
            assert("Change Nickname"@[0] != "Manage Messages"@[0]);
            assert("Manage Channels"@[7] != "Manage Messages"@[7]);
            assert(permission_label_spec("Manage Messages"@) == "Manage Messages"@);
        }
        if i == 15 {
            assert("Mention Everyone"@[1] != "Manage Nicknames"@[1]);
            assert(permission_label_spec("Manage Nicknames"@) == "Manage Nicjnames"@);
        }
        if i == 16 {
            assert("Kick Members"@[0] != "Manage Roles"@[0]);
            assert("Attach Files"@[0] != "Manage Roles"@[0]);
            assert("Kick Members"@[0] != "Manage Roles"@[0]);
            assert(permission_label_spec("Manage Roles"@) == "Manage Roles"@);
        }
        if i == 17 {
            assert("Change Nickname"@[0] != "Manage Webhooks"@[0]);
            assert("Manage Channels"@[7] != "Manage Webhooks"@[7]);
            assert("Manage Messages"@[7] != "Manage Webhooks"@[7]);
            assert(permission_label_spec("Manage Webhooks"@) == "Manage Webhooks"@);
        }
        if i == 18 {
            assert("Manage Nicknames"@[1] != "Mention Everyone"@[1]);
            assert("Manage Nicknames"@[1] != "Mention Everyone"@[1]);
            assert(permission_label_spec("Mention Everyone"@) == "Mention @everyone"@);
        }
        if i == 19 {
            assert("Kick Members"@[0] != "Move Members"@[0]);
            assert("Attach Files"@[0] != "Move Members"@[0]);
            assert("Kick Members"@[0] != "Move Members"@[0]);
            assert("Manage Roles"@[1] != "Move Members"@[1]);
            assert(permission_label_spec("Move Members"@) == "Move Members"@);
        }
        if i == 20 {
            assert("Kick Members"@[0] != "Mute Members"@[0]);
            assert("Attach Files"@[0] != "Mute Members"@[0]);
            assert("Kick Members"@[0] != "Mute Members"@[0]);
            assert("Manage Roles"@[1] != "Mute Members"@[1]);
            assert("Move Members"@[1] != "Mute Members"@[1]);
            assert(permission_label_spec("Mute Members"@) == "Mute Members"@);
        }
        if i == 21 {
            assert("Manage Nicknames"@[0] != "Priority Speaker"@[0]);
            assert("Mention Everyone"@[0] != "Priority Speaker"@[0]);
            assert("Manage Nicknames"@[0] != "Priority Speaker"@[0]);
            assert("Mention Everyone"@[0] != "Priority Speaker"@[0]);
            assert(permission_label_spec("Priority Speaker"@) == "Priority Speaker"@);
        }
        if i == 22 {
            assert(permission_label_spec("Read Message History"@) == "Read Message History"@);
        }
        if i == 23 {
            assert("Manage Nicknames"@[0] != "Request To Speak"@[0]);
            assert("Mention Everyone"@[0] != "Request To Speak"@[0]);
            assert("Manage Nicknames"@[0] != "Request To Speak"@[0]);
            assert("Mention Everyone"@[0] != "Request To Speak"@[0]);
            assert("Priority Speaker"@[0] != "Request To Speak"@[0]);
            assert(permission_label_spec("Request To Speak"@) == "Request To Speak"@);
        }
        if i == 24 {
            assert("Add Reactions"@[0] != "Read Messages"@[0]);
            assert("Administrator"@[0] != "Read Messages"@[0]);
            assert("Create Invite"@[0] != "Read Messages"@[0]);
            assert("Manage Emojis"@[0] != "Read Messages"@[0]);
            assert("Manage Guilds"@[0] != "Read Messages"@[0]);
            assert(permission_label_spec("Read Messages"@) == "Read Messages"@);
        }
        if i == 25 {
            assert("Add Reactions"@[0] != "Send Messages"@[0]);
            assert("Administrator"@[0] != "Send Messages"@[0]);
            assert("Create Invite"@[0] != "Send Messages"@[0]);
            assert("Manage Emojis"@[0] != "Send Messages"@[0]);
            assert("Manage Guilds"@[0] != "Send Messages"@[0]);
            assert("Read Messages"@[0] != "Send Messages"@[0]);
            assert(permission_label_spec("Send Messages"@) == "Send Messages"@);
        }
        if i == 26 {
            assert(permission_label_spec("Send TTS Messages"@) == "Send TTS Messages"@);
        }
        if i == 27 {
            assert(permission_label_spec("Speak"@) == "Speak"@);
        }
        if i == 28 {
            assert(permission_label_spec("Stream"@) == "Stream"@);
        }
        if i == 29 {
            assert(permission_label_spec("Use External Emojis"@) == "Use External Emojis"@);
        }
        if i == 30 {
            assert(permission_label_spec("Use Slash Commands"@) == "Use Slash Commands"@);
        }
        if i == 31 {
            assert("Use Slash Commands"@[4] != "Use Voice Activity"@[4]);
            assert(permission_label_spec("Use Voice Activity"@) == "Use Voice Activity"@);
        }
        if i == 32 {
            assert("Deafen Members"@[0] != "View Audit Log"@[0]);
            assert(permission_label_spec("View Audit Log"@) == "View Audit Log"@);
        }
}

/// A name is listed as unknown only when serenity has no permission of that
/// name.
pub proof fn lemma_unknown_only_outside_serenity(name: Seq<char>)
    ensures
        permission_label_spec(name) == "Unknown Permission(s)"@ ==> !serenity_permission_names().contains(name),
{
    if serenity_permission_names().contains(name) {
        let i = choose|i: int| 0 <= i < serenity_permission_names().len() && serenity_permission_names()[i] == name;
        lemma_serenity_names_listed(i);
    }
}

/// One line per permission: a space, the emoji, a space, the permission's
/// listed name, and a line break.
pub open spec fn permission_lines(emoji: Seq<char>, names: Seq<Seq<char>>) -> Seq<char>
    decreases names.len(),
{
    if names.len() == 0 {
        Seq::empty()
    } else {
        permission_lines(emoji, names.drop_last()) + " <:"@ + emoji + "> "@
            + permission_label_spec(names.last()) + "\n"@
    }
}

/// The required permissions that the member holds.
pub open spec fn granted_bits(member: u64, required: u64) -> u64 {
    member & required
}

/// The required permissions that the member lacks.
pub open spec fn missing_bits(member: u64, required: u64) -> u64 {
    required & !(member & required)
}

/// The list of the required permissions: those held, marked with `enabled`,
/// then those missing, marked with `disabled`.
pub open spec fn permission_report_spec(member: u64, required: u64, enabled: Seq<char>, disabled: Seq<char>) -> Seq<char> {
    permission_lines(enabled, permission_names_of(granted_bits(member, required)))
        + permission_lines(disabled, permission_names_of(missing_bits(member, required)))
}

fn permission_lines_text(out: &mut String, emoji: &str, bits: u64)
    ensures
        final(out)@ == old(out)@ + permission_lines(emoji@, permission_names_of(bits)),
        bits == 0 ==> final(out)@ == old(out)@,
{
    let names = permission_names(bits);
    let ghost all = names.deep_view();
    let mut i: usize = 0;
    assert(all.subrange(0, 0) =~= Seq::<Seq<char>>::empty());
    assert(out@ =~= old(out)@ + permission_lines(emoji@, all.subrange(0, 0)));
    while i < names.len()
        invariant
            i <= names.len(),
            all == names.deep_view(),
            out@ == old(out)@ + permission_lines(emoji@, all.subrange(0, i as int)),
        decreases names.len() - i,
    {
        let ghost next = all.subrange(0, i as int + 1);
        assert(next.drop_last() =~= all.subrange(0, i as int));
        assert(next.last() == names[i as int]@);
        out.append(" <:");
        out.append(emoji);
        out.append("> ");
        out.append(permission_label(names[i].as_str()));
        out.append("\n");
        assert(out@ =~= old(out)@ + permission_lines(emoji@, next));
        i = i + 1;
    }
    assert(all.subrange(0, names.len() as int) =~= all);
    assert(bits == 0 ==> out@ =~= old(out)@);
}

/// The list of required permissions (see `permission_report_spec`).
pub fn permission_report(member: u64, required: u64, enabled: &str, disabled: &str) -> (r: String)
    ensures
        r@ == permission_report_spec(member, required, enabled@, disabled@),
        missing_bits(member, required) == 0 ==> r@ == permission_lines(
            enabled@,
            permission_names_of(granted_bits(member, required)),
        ),
{
    let granted = member & required;
    let missing = required & !granted;
    let mut out = String::new();
    permission_lines_text(&mut out, enabled, granted);
    assert(out@ =~= permission_lines(enabled@, permission_names_of(granted)));
    permission_lines_text(&mut out, disabled, missing);
    assert(out@ =~= permission_report_spec(member, required, enabled@, disabled@));
    out
}

/// The reply to a member whose permissions `member` lack some of `required`.
pub open spec fn missing_permissions_reply_spec(member: u64, required: u64, enabled: Seq<char>, disabled: Seq<char>) -> EmbedView {
    EmbedView {
        title: Some("Please check permissions"@),
        description: Some(permission_report_spec(member, required, enabled, disabled)),
        color: Some(EmbedColor::Yellow),
        footer: Some("All must be active"@),
        ..EmbedView::empty()
    }
}

/// The reply to a member who lacks permissions for a command.
pub fn missing_permissions_reply(member: u64, required: u64, enabled: &str, disabled: &str) -> (r: EmbedContent)
    ensures
        r@ == missing_permissions_reply_spec(member, required, enabled@, disabled@),
        missing_bits(member, required) == 0 ==> r@.description == Some(
            permission_lines(enabled@, permission_names_of(granted_bits(member, required))),
        ),
{
    let mut embed = EmbedContent::new();
    embed.title = Some(owned("Please check permissions"));
    embed.description = Some(permission_report(member, required, enabled, disabled));
    embed.color = Some(EmbedColor::Yellow);
    embed.footer = Some(owned("All must be active"));
    embed
}

/// Every required permission is listed exactly once: the held ones and the
/// missing ones share no permission, and together they are all the required
/// ones.
pub proof fn lemma_permission_partition(member: u64, required: u64)
    ensures
        granted_bits(member, required) & missing_bits(member, required) == 0,
        granted_bits(member, required) | missing_bits(member, required) == required,
        missing_bits(member, required) == 0 <==> member & required == required,
{
    assert((member & required) & (required & !(member & required)) == 0) by (bit_vector);
    assert((member & required) | (required & !(member & required)) == required) by (bit_vector);
    assert((required & !(member & required)) == 0 <==> member & required == required) by (bit_vector);
}

} // verus!
