//! The `kick` command's rules, and the replies and private alerts of the
//! moderation actions.

use vstd::prelude::*;
use vstd::string::*;
use crate::embed::{EmbedColor, EmbedContent, EmbedView, field_view, make_field, owned};

verus! {

/// The role position that decides who may act on whom: the position of the
/// member's highest role (0 without roles), and the highest possible
/// position for the guild's owner.
pub open spec fn role_position_spec(highest_role: Option<i64>, is_owner: bool) -> i64 {
    if is_owner {
        i64::MAX
    } else {
        match highest_role {
            Some(p) => p,
            None => 0,
        }
    }
}

/// The role position of a member (see `role_position_spec`).
pub fn role_position(highest_role: Option<i64>, is_owner: bool) -> (r: i64)
    ensures
        r == role_position_spec(highest_role, is_owner),
{
    let mut position = match highest_role {
        Some(p) => p,
        None => 0,
    };
    if is_owner {
        position = i64::MAX;
    }
    position
}

/// Whether a member may be kicked: both the author of the command and the
/// bot must stand strictly above the member.
pub fn can_kick(author_position: i64, member_position: i64, bot_position: i64) -> (r: bool)
    ensures
        r == (author_position > member_position && bot_position > member_position),
{
    author_position > member_position && bot_position > member_position
}

/// The guild's owner can never be kicked, whatever the roles of the others.
pub proof fn lemma_owner_never_kicked(highest_role: Option<i64>, author_position: i64, bot_position: i64)
    ensures
        !(author_position > role_position_spec(highest_role, true)
            && bot_position > role_position_spec(highest_role, true)),
{
}

/// The reason given with a kick: the rest of the command, or `No Reason`.
pub fn kick_reason(rest: Option<&str>) -> (r: &str)
    ensures
        r@ == match rest { Some(s) => s@, None => "No Reason"@ },
{
    match rest {
        Some(s) => s,
        None => "No Reason",
    }
}

/// The reply after the user with tag `tag` was kicked.
pub open spec fn kicked_reply_spec(tag: Seq<char>) -> EmbedView {
    EmbedView {
        description: Some(tag + " has been kicked!"@),
        color: Some(EmbedColor::Purple),
        ..EmbedView::empty()
    }
}

/// The reply after the user with tag `tag` was kicked.
pub fn kicked_reply(tag: &str) -> (r: EmbedContent)
    ensures
        r@ == kicked_reply_spec(tag@),
{
    let mut embed = EmbedContent::new();
    let mut d = owned(tag);
    d.append(" has been kicked!");
    embed.description = Some(d);
    embed.color = Some(EmbedColor::Purple);
    embed
}

/// The reply when the member may not be kicked.
pub open spec fn kick_refused_reply_spec() -> EmbedView {
    EmbedView {
        title: Some("Error"@),
        description: Some("Unable to kick member, insufficient permissions."@),
        color: Some(EmbedColor::Yellow),
        ..EmbedView::empty()
    }
}

/// The reply when the member may not be kicked.
pub fn kick_refused_reply() -> (r: EmbedContent)
    ensures
        r@ == kick_refused_reply_spec(),
{
    let mut embed = EmbedContent::new();
    embed.title = Some(owned("Error"));
    embed.description = Some(owned("Unable to kick member, insufficient permissions."));
    embed.color = Some(EmbedColor::Yellow);
    embed
}

/// The private alert to a user that was `action` (kicked, banned) from the
/// guild `guild`, for `reason`, by `by`.
pub open spec fn alert_spec(action: Seq<char>, guild: Seq<char>, reason: Seq<char>, by: Seq<char>) -> EmbedView {
    EmbedView {
        title: Some("**Attention**"@),
        description: Some("You were "@ + action + " from **"@ + guild + "**"@),
        color: Some(EmbedColor::Purple),
        fields: seq![field_view("Reason: "@, reason, false), field_view("By: "@, by, false)],
        ..EmbedView::empty()
    }
}

/// The private alert to a user (see `alert_spec`).
pub fn alert(action: &str, guild: &str, reason: &str, by: &str) -> (r: EmbedContent)
    ensures
        r@ == alert_spec(action@, guild@, reason@, by@),
{
    let mut embed = EmbedContent::new();
    embed.title = Some(owned("**Attention**"));
    let mut d = owned("You were ");
    d.append(action);
    d.append(" from **");
    d.append(guild);
    d.append("**");
    embed.description = Some(d);
    embed.color = Some(EmbedColor::Purple);
    embed.add_field(make_field("Reason: ", reason, false));
    embed.add_field(make_field("By: ", by, false));
    assert(embed@.fields =~= alert_spec(action@, guild@, reason@, by@).fields);
    embed
}

/// What the bot does once the kick of a member was tried.
pub enum KickOutcome {
    /// The kick went through: send this reply.
    Kicked(EmbedContent),
    /// The kick failed: log this line.
    Failed(String),
}

/// What follows the attempt to kick the user with tag `tag`: the reply of
/// `kicked_reply` when the kick went through, and the failure line with the
/// error text otherwise.
pub fn kick_outcome(result: Result<(), &str>, tag: &str) -> (r: KickOutcome)
    ensures
        match result {
            Ok(()) => r is Kicked && r->Kicked_0@ == kicked_reply_spec(tag@),
            Err(e) => r is Failed && r->Failed_0@ == crate::autoban::action_failed_log_spec(e@),
        },
{
    match result {
        Ok(()) => KickOutcome::Kicked(kicked_reply(tag)),
        Err(e) => KickOutcome::Failed(crate::autoban::action_failed_log(e)),
    }
}

} // verus!
