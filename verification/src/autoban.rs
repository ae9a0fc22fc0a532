//! What the bot does with an ordinary message in a guild: register its
//! author, and ban for a week whoever pings the owners.

use vstd::prelude::*;
use vstd::string::*;
use crate::embed::{EmbedColor, EmbedContent, EmbedView, owned};
use crate::moderation::{alert, alert_spec};

verus! {

/// The user id whose mention gets a message's author banned. It is the
/// bitwise or of the ids of the owner and the two co-owners, written as one
/// number.
pub const OWNER_MENTION_ID: u64 = 683530527239962627u64 | 959858563503759441u64 | 830647018736058368u64;

/// The reason recorded with an automatic ban.
pub const AUTOBAN_REASON: &'static str = "[AUTO] Pinging an owner/co-owner. | 1 week ban";

/// What the bot reads of an ordinary message.
pub struct IncomingMessage {
    pub in_guild: bool,
    pub author_id: u64,
    pub author_is_bot: bool,
    pub author_name: String,
    pub mentioned_user_ids: Vec<u64>,
}

/// The rows to insert for a user seen for the first time: their id and name
/// in `users`, and the same in `bans`.
pub struct Registration {
    pub discord_id: i64,
    pub name: String,
    pub ban_name: String,
}

/// What to do with a message.
pub struct MessagePlan {
    /// Register the author.
    pub register: Option<Registration>,
    /// Ban the author, with `AUTOBAN_REASON`.
    pub ban_author: bool,
    /// Look for a custom reaction to the message afterwards.
    pub check_custom_reaction: bool,
}

/// Whether a message mentions the user `id`.
pub fn mentions_user(mentioned: &Vec<u64>, id: u64) -> (r: bool)
    ensures
        r == mentioned@.contains(id),
{
    let mut i: usize = 0;
    while i < mentioned.len()
        invariant
            i <= mentioned.len(),
            forall|j: int| 0 <= j < i ==> mentioned@[j] != id,
        decreases mentioned.len() - i,
    {
        if mentioned[i] == id {
            assert(mentioned@[i as int] == id);
            return true;
        }
        i = i + 1;
    }
    false
}

/// Messages that the bot acts on: in a guild, and not by a bot.
pub open spec fn acted_on(msg: &IncomingMessage) -> bool {
    msg.in_guild && !msg.author_is_bot
}

/// Whether the author is banned: they mentioned `OWNER_MENTION_ID` and are
/// not the user 0.
pub open spec fn bans_author(msg: &IncomingMessage) -> bool {
    acted_on(msg) && msg.mentioned_user_ids@.contains(OWNER_MENTION_ID) && msg.author_id != 0
}

/// A human author in a guild (other than the user 0) is banned exactly when
/// the owners' id is among the message's mentions, wherever it stands.
pub proof fn lemma_ban_iff_owners_mentioned(msg: &IncomingMessage, k: int)
    requires
        acted_on(msg),
        msg.author_id != 0,
    ensures
        bans_author(msg) <==> exists|i: int|
            0 <= i < msg.mentioned_user_ids@.len() && #[trigger] msg.mentioned_user_ids@[i] == OWNER_MENTION_ID,
        0 <= k < msg.mentioned_user_ids@.len() && msg.mentioned_user_ids@[k] == OWNER_MENTION_ID ==> bans_author(msg),
{
    if 0 <= k < msg.mentioned_user_ids@.len() && msg.mentioned_user_ids@[k] == OWNER_MENTION_ID {
        assert(msg.mentioned_user_ids@.contains(OWNER_MENTION_ID));
    }
}

/// Bots, direct messages and the user 0 are never banned, whatever they
/// mention.
pub proof fn lemma_never_banned(msg: &IncomingMessage)
    requires
        !msg.in_guild || msg.author_is_bot || msg.author_id == 0,
    ensures
        !bans_author(msg),
{
}

/// What to do with a message: nothing outside a guild or for a bot;
/// otherwise register the author, ban them if they pinged the owners, and
/// look for a custom reaction, except when the pinging author is the user 0.
pub fn message_plan(msg: &IncomingMessage) -> (r: MessagePlan)
    requires
        acted_on(msg) ==> msg.author_id <= i64::MAX,
    ensures
        r.register is Some <==> acted_on(msg),
        r.register is Some ==> {
            let reg = r.register->0;
            &&& reg.discord_id == msg.author_id as int
            &&& reg.name@ == msg.author_name@
            &&& reg.ban_name@ == msg.author_name@
        },
        r.ban_author == bans_author(msg),
        r.check_custom_reaction == (acted_on(msg)
            && !(msg.mentioned_user_ids@.contains(OWNER_MENTION_ID) && msg.author_id == 0)),
{
    if !msg.in_guild || msg.author_is_bot {
        return MessagePlan { register: None, ban_author: false, check_custom_reaction: false };
    }
    let uid = msg.author_id as i64;
    let register = Some(Registration {
        discord_id: uid,
        name: owned(msg.author_name.as_str()),
        ban_name: owned(msg.author_name.as_str()),
    });
    if mentions_user(&msg.mentioned_user_ids, OWNER_MENTION_ID) {
        if msg.author_id == 0 {
            return MessagePlan { register, ban_author: false, check_custom_reaction: false };
        }
        return MessagePlan { register, ban_author: true, check_custom_reaction: true };
    }
    MessagePlan { register, ban_author: false, check_custom_reaction: true }
}

/// What follows a successful automatic ban.
pub struct BanFollowUp {
    /// The announcement in the channel.
    pub announcement: EmbedContent,
    /// The value stored in the `banned` column.
    pub banned: String,
    /// The name of the event that lifts the ban.
    pub event_name: String,
    /// The statement that schedules that event.
    pub event_sql: String,
    /// The private alert to the banned user.
    pub alert: EmbedContent,
}

pub open spec fn ban_announcement_spec(tag: Seq<char>) -> EmbedView {
    EmbedView {
        description: Some("**"@ + tag + "** has been banned!\nReason: "@ + "[Auto] Pinging an owner/co-owner."@),
        color: Some(EmbedColor::Purple),
        ..EmbedView::empty()
    }
}

pub open spec fn ban_event_name_spec(uid: i64) -> Seq<char> {
    "BAN_"@ + crate::text::signed_decimal(uid as int)
}

/// What follows the automatic ban of the user `uid`, whose tag is `tag`,
/// from the guild `guild`.
pub fn ban_follow_up(uid: i64, tag: &str, guild: &str) -> (r: BanFollowUp)
    ensures
        r.announcement@ == ban_announcement_spec(tag@),
        r.banned@ == "true"@,
        r.event_name@ == ban_event_name_spec(uid),
        r.event_sql@ == crate::database::ban_event_sql_spec(uid, ban_event_name_spec(uid)),
        r.alert@ == alert_spec(
            "Banned"@,
            guild@,
            "\"Pinging the Co-Owners Or the Owner will result in a temp ban for 1 week.\""@,
            "Automated Action"@,
        ),
{
    let mut announcement = EmbedContent::new();
    let mut d = owned("**");
    d.append(tag);
    d.append("** has been banned!\nReason: ");
    d.append("[Auto] Pinging an owner/co-owner.");
    announcement.description = Some(d);
    announcement.color = Some(EmbedColor::Purple);
    let mut event_name = owned("BAN_");
    crate::text::push_signed_decimal(&mut event_name, uid);
    let event_sql = crate::database::ban_event_sql(uid, event_name.as_str());
    let alert = alert(
        "Banned",
        guild,
        "\"Pinging the Co-Owners Or the Owner will result in a temp ban for 1 week.\"",
        "Automated Action",
    );
    BanFollowUp { announcement, banned: owned("true"), event_name, event_sql, alert }
}

/// What the bot does once the ban of a message's author was tried.
pub enum BanOutcome {
    /// The ban went through: announce it, record it and alert the user.
    Banned(BanFollowUp),
    /// The ban failed: log this line.
    Failed(String),
}

/// The line logged when a moderation action failed with the error text `error`.
pub open spec fn action_failed_log_spec(error: Seq<char>) -> Seq<char> {
    "Oh noes: "@ + error
}

/// The line logged when a moderation action failed (see `action_failed_log_spec`).
pub fn action_failed_log(error: &str) -> (r: String)
    ensures
        r@ == action_failed_log_spec(error@),
{
    let mut s = owned("Oh noes: ");
    s.append(error);
    s
}

/// What follows the attempt to ban the user `uid` (tag `tag`) from the guild
/// `guild`: the follow-up of `ban_follow_up` when the ban went through, and
/// the failure line with the error text otherwise.
pub fn ban_outcome(result: Result<(), &str>, uid: i64, tag: &str, guild: &str) -> (r: BanOutcome)
    ensures
        match result {
            Ok(()) => r is Banned && {
                let f = r->Banned_0;
                &&& f.announcement@ == ban_announcement_spec(tag@)
                &&& f.banned@ == "true"@
                &&& f.event_name@ == ban_event_name_spec(uid)
                &&& f.event_sql@ == crate::database::ban_event_sql_spec(uid, ban_event_name_spec(uid))
                &&& f.alert@ == alert_spec(
                    "Banned"@,
                    guild@,
                    "\"Pinging the Co-Owners Or the Owner will result in a temp ban for 1 week.\""@,
                    "Automated Action"@,
                )
            },
            Err(e) => r is Failed && r->Failed_0@ == action_failed_log_spec(e@),
        },
{
    match result {
        Ok(()) => BanOutcome::Banned(ban_follow_up(uid, tag, guild)),
        Err(e) => BanOutcome::Failed(action_failed_log(e)),
    }
}

} // verus!
