//! Submissions from users: `/start`, `/reply`, new proposals, replies to
//! posts, and the reasons that moderators type after rejecting or banning.

use vstd::prelude::*;
use vstd::string::*;

use crate::bot::effects::{Effect, EffectView, effect_views, plain_text, send_text};
use crate::bot::incoming::IncomingMessage;
use crate::bot::media::{extract_media_info, extract_message_text, has_content, media_info, message_has_content, message_text};
use crate::bot::admin::target_user;
use crate::bot::{BotError, just, no_effects, pair, push_effect};
use crate::clock::valid_moment;
use crate::config::Config;
use crate::db::models::{AdminView, NewMessage, clone_opt_string, opt_text};
use crate::db::repository::{Database, DbError, DbView, admin_views};
use crate::locales::{
    L10n, Locale, error_banning_user_text, error_sending_reply_text, invalid_reply_link_text,
    mod_panel_text, new_proposal_notif_text, owner_panel_text, post_not_found_text,
    proposal_accepted_text, reason_sent_text, rejected_reason_text, reply_accepted_text,
    reply_usage_text, send_reply_to_post_text, user_banned_appeal_text, user_banned_success_text,
    user_banned_text, welcome_text,
};
use crate::text::{parse_i64, str_parse_i64, str_strip_prefix, strip_prefix};
use crate::uid::{ban_code, format_uuid, is_v4_bytes, random_uuid_bytes, uuid_text};

verus! {

/// The dialogue step of a user who is writing a reply to a post.
pub open spec fn reply_mode_state() -> Seq<char> {
    "reply_mode"@
}

/// What `/start [reply_<post id>]` does: a reply link puts the user into
/// reply mode for that post (when it exists); otherwise banned users are
/// told so, the owner and moderators get their panel, others the welcome.
pub open spec fn start_outcome(db: DbView, owner_id: i64, user_id: i64, chat_id: i64, args: Seq<char>) -> (DbView, Seq<EffectView>) {
    let lang = db.language_setting();
    match strip_prefix(args, "reply_"@) {
        Some(rest) => match parse_i64(rest) {
            Some(pid) => if db.message_by_id(pid) is Some {
                (
                    db.set_state_effect(user_id, reply_mode_state(), pid),
                    seq![plain_text(chat_id, send_reply_to_post_text(lang), true)],
                )
            } else {
                (db, seq![plain_text(chat_id, invalid_reply_link_text(lang), true)])
            },
            None => (db, seq![plain_text(chat_id, invalid_reply_link_text(lang), true)]),
        },
        None => if db.is_banned(user_id) {
            (db, seq![plain_text(chat_id, user_banned_text(lang), true)])
        } else if db.is_admin(user_id) || user_id == owner_id {
            (
                db,
                seq![
                    plain_text(
                        chat_id,
                        if user_id == owner_id {
                            owner_panel_text(lang)
                        } else {
                            mod_panel_text(lang)
                        },
                        true,
                    ),
                ],
            )
        } else {
            (db, seq![plain_text(chat_id, welcome_text(lang), true)])
        },
    }
}

/// Handles `/start` (with its argument `args`) from `user_id` in chat `chat_id`.
pub fn handle_start(db: &mut Database, config: &Config, user_id: i64, chat_id: i64, args: &str) -> (r: Vec<Effect>)
    requires
        old(db)@.wf(),
    ensures
        final(db)@.wf(),
        (final(db)@, effect_views(r@)) == start_outcome(old(db)@, config.owner_id, user_id, chat_id, args@),
{
    let lang = db.get_language();
    if let Some(parent_id_str) = str_strip_prefix(args, "reply_") {
        if let Some(parent_id) = str_parse_i64(parent_id_str) {
            if db.get_message_by_id(parent_id).is_some() {
                db.set_user_state(user_id, "reply_mode", parent_id);
                return just(send_text(chat_id, String::from_str(L10n::send_reply_to_post(lang)), true));
            }
        }
        return just(send_text(chat_id, String::from_str(L10n::invalid_reply_link(lang)), true));
    }
    if db.is_banned(user_id) {
        return just(send_text(chat_id, String::from_str(L10n::user_banned(lang)), true));
    }
    if db.is_admin(user_id) || user_id == config.owner_id {
        let text = if user_id == config.owner_id {
            L10n::owner_panel(lang)
        } else {
            L10n::mod_panel(lang)
        };
        just(send_text(chat_id, String::from_str(text), true))
    } else {
        just(send_text(chat_id, String::from_str(L10n::welcome(lang)), true))
    }
}

/// What `/reply <post id>` does: puts the user into reply mode for an
/// existing post.
pub open spec fn reply_command_outcome(db: DbView, user_id: i64, chat_id: i64, args: Seq<char>) -> (DbView, Seq<EffectView>) {
    let lang = db.language_setting();
    match target_user(args) {
        None => (db, seq![plain_text(chat_id, reply_usage_text(lang), true)]),
        Some(p) => if db.message_by_id(p) is None {
            (db, seq![plain_text(chat_id, post_not_found_text(lang), true)])
        } else {
            (
                db.set_state_effect(user_id, reply_mode_state(), p),
                seq![plain_text(chat_id, send_reply_to_post_text(lang), true)],
            )
        },
    }
}

/// Handles `/reply <post id>` from `user_id` in chat `chat_id`.
pub fn handle_reply_command(db: &mut Database, user_id: i64, chat_id: i64, args: &str) -> (r: Vec<Effect>)
    requires
        old(db)@.wf(),
    ensures
        final(db)@.wf(),
        (final(db)@, effect_views(r@)) == reply_command_outcome(old(db)@, user_id, chat_id, args@),
{
    let lang = db.get_language();
    let parent_id = match crate::bot::admin::parse_target_id(args) {
        Some(p) => p,
        None => return just(send_text(chat_id, String::from_str(L10n::reply_usage(lang)), true)),
    };
    if db.get_message_by_id(parent_id).is_none() {
        return just(send_text(chat_id, String::from_str(L10n::post_not_found(lang)), true));
    }
    db.set_user_state(user_id, "reply_mode", parent_id);
    just(send_text(chat_id, String::from_str(L10n::send_reply_to_post(lang)), true))
}

/// `nm` is the row recorded for message `msg` from `user_id`: its chat,
/// id, text and media; its group is the album's when it belongs to one,
/// else `single_` and a fresh random version-4 UUID; channel and parent post as given.
pub open spec fn is_submission(
    nm: NewMessage,
    msg: IncomingMessage,
    user_id: i64,
    channel_id: i64,
    lang: Locale,
    parent: Option<i64>,
) -> bool {
    &&& nm.chat_id == msg.chat_id
    &&& nm.telegram_message_id == msg.message_id
    &&& nm.sender_id == user_id
    &&& nm.message_text@ == message_text(msg, lang)
    &&& nm.media_type@ == media_info(msg).0
    &&& nm.media_file_id@ == media_info(msg).1
    &&& opt_text(nm.media_group_id) == opt_text(msg.media_group_id)
    &&& match opt_text(msg.media_group_id) {
        Some(g) => nm.proposal_group_id@ == g,
        None => exists|b: Seq<u8>| is_v4_bytes(b) && nm.proposal_group_id@ == "single_"@ + uuid_text(b),
    }
    &&& nm.channel_id == channel_id
    &&& nm.parent_message_id == parent
}

/// Builds the row recorded for message `msg` from `user_id`.
pub fn submission_for(msg: &IncomingMessage, user_id: i64, channel_id: i64, lang: Locale, parent: Option<i64>) -> (nm: NewMessage)
    ensures
        is_submission(nm, *msg, user_id, channel_id, lang, parent),
{
    let (media_type, media_file_id) = extract_media_info(msg, lang);
    let message_text = extract_message_text(msg, lang);
    let media_group_id = clone_opt_string(&msg.media_group_id);
    let proposal_group_id = match &msg.media_group_id {
        Some(g) => g.clone(),
        None => {
            let b = random_uuid_bytes();
            let u = format_uuid(&b);
            let mut s = String::from_str("single_");
            s.append(u.as_str());
            proof {
                assert(s@ == "single_"@ + uuid_text(b@));
                assert(is_v4_bytes(b@));
            }
            s
        },
    };
    NewMessage {
        chat_id: msg.chat_id,
        telegram_message_id: msg.message_id,
        sender_id: user_id,
        message_text,
        media_type,
        media_file_id,
        media_group_id,
        proposal_group_id,
        channel_id,
        parent_message_id: parent,
    }
}

/// The notices about a new submission `nm`, one to each moderator on record;
/// their failures are ignored.
pub open spec fn notify_effects(admins: Seq<AdminView>, nm: NewMessage, lang: Locale) -> Seq<EffectView> {
    admins.map_values(
        |a: AdminView|
            plain_text(
                a.user_id,
                new_proposal_notif_text(lang, nm.proposal_group_id@, nm.message_text@, nm.media_type@),
                false,
            ),
    )
}

/// Appends the notices about submission `nm` to `out`.
fn notify_admins(db: &Database, nm: &NewMessage, lang: Locale, out: &mut Vec<Effect>)
    ensures
        effect_views(final(out)@) == effect_views(old(out)@) + notify_effects(db@.admins, *nm, lang),
{
    let admins = db.get_admins();
    let ghost av = admin_views(admins@);
    let notification = L10n::new_proposal_notif(
        lang,
        nm.proposal_group_id.as_str(),
        nm.message_text.as_str(),
        nm.media_type.as_str(),
    );
    let ghost start = effect_views(out@);
    let n = admins.len();
    let mut i: usize = 0;
    while i < n
        invariant
            n == admins@.len(),
            av == admin_views(admins@),
            av == db@.admins,
            notification@ == new_proposal_notif_text(lang, nm.proposal_group_id@, nm.message_text@, nm.media_type@),
            i <= n,
            effect_views(out@) == start + notify_effects(av.take(i as int), *nm, lang),
        decreases n - i,
    {
        push_effect(out, send_text(admins[i].user_id, notification.clone(), false));
        proof {
            assert(av[i as int] == admins@[i as int]@);
            assert(av.take(i + 1) =~= av.take(i as int).push(av[i as int]));
            assert(notify_effects(av.take(i + 1), *nm, lang) =~= notify_effects(av.take(i as int), *nm, lang).push(
                plain_text(admins@[i as int].user_id, notification@, false),
            ));
            assert(effect_views(out@) =~= start + notify_effects(av.take(i + 1), *nm, lang));
        }
        i = i + 1;
    }
    proof {
        assert(av.take(n as int) =~= av);
    }
}

/// What a new proposal leads to (see [`handle_proposal`]); `d` is the store
/// before, `d2` after, `r` the result. The group id and the moment of saving
/// are the only parts left open: a fresh random UUID and the clock.
pub open spec fn proposal_result(
    d: DbView,
    d2: DbView,
    r: Result<Seq<EffectView>, BotError>,
    channel_id: i64,
    msg: IncomingMessage,
    user_id: i64,
) -> bool {
    let lang = d.language_setting();
    if d.is_banned(user_id) {
        d2 == d && r == Ok::<Seq<EffectView>, BotError>(seq![plain_text(msg.chat_id, user_banned_text(lang), true)])
    } else if msg.chat_is_group || !has_content(msg) || d.has_message(msg.chat_id, msg.message_id) {
        d2 == d && r == Ok::<Seq<EffectView>, BotError>(Seq::empty())
    } else if d.last_message_id == i64::MAX {
        d2 == d && r == Err::<Seq<EffectView>, BotError>(BotError::Store(DbError::IdsExhausted))
    } else {
        exists|nm: NewMessage, now: i64|
            {
                &&& is_submission(nm, msg, user_id, channel_id, lang, None)
                &&& valid_moment(now)
                &&& d2 == d.save_effect(nm, now)
                &&& r == Ok::<Seq<EffectView>, BotError>(
                    seq![plain_text(msg.chat_id, proposal_accepted_text(lang), true)] + notify_effects(d.admins, nm, lang),
                )
            }
    }
}

/// The view of a handler's list of effects, or its error.
pub open spec fn effects_result(r: Result<Vec<Effect>, BotError>) -> Result<Seq<EffectView>, BotError> {
    match r {
        Ok(v) => Ok(effect_views(v@)),
        Err(e) => Err(e),
    }
}

/// Handles a message from `user_id` that is neither a command nor awaited
/// by a dialogue: a new proposal. Banned users are told so; messages in
/// groups, without content, or already stored are ignored; otherwise the
/// message is saved as pending, the user is thanked and every moderator on
/// record is notified.
pub fn handle_proposal(db: &mut Database, config: &Config, msg: &IncomingMessage, user_id: i64) -> (r: Result<Vec<Effect>, BotError>)
    requires
        old(db)@.wf(),
    ensures
        final(db)@.wf(),
        proposal_result(old(db)@, final(db)@, effects_result(r), config.channel_id, *msg, user_id),
{
    let lang = db.get_language();
    let chat_id = msg.chat_id;
    if db.is_banned(user_id) {
        return Ok(just(send_text(chat_id, String::from_str(L10n::user_banned(lang)), true)));
    }
    if msg.chat_is_group {
        return Ok(no_effects());
    }
    if !message_has_content(msg) {
        return Ok(no_effects());
    }
    if db.message_exists(chat_id, msg.message_id) {
        return Ok(no_effects());
    }
    let new_msg = submission_for(msg, user_id, config.channel_id, lang, None);
    let inserted = match db.save_message(&new_msg) {
        Ok(b) => b,
        Err(e) => return Err(BotError::Store(e)),
    };
    let mut out: Vec<Effect> = no_effects();
    if inserted {
        out = just(send_text(chat_id, String::from_str(L10n::proposal_accepted(lang)), true));
        notify_admins(db, &new_msg, lang, &mut out);
    }
    Ok(out)
}

/// What a reply to post `parent_id` leads to (see
/// [`handle_reply_content`]); `d` is the store before, `d2` after, `r` the
/// effects. The group id and the moment of saving are left open.
pub open spec fn reply_content_result(
    d: DbView,
    d2: DbView,
    r: Seq<EffectView>,
    channel_id: i64,
    msg: IncomingMessage,
    user_id: i64,
    parent_id: i64,
) -> bool {
    let lang = d.language_setting();
    if d.has_message(msg.chat_id, msg.message_id) {
        d2 == d.clear_state_effect(user_id) && r == Seq::<EffectView>::empty()
    } else if d.last_message_id == i64::MAX {
        d2 == d && r == seq![
            plain_text(msg.chat_id, error_sending_reply_text(lang), true),
            EffectView::ClearUserState { user_id: user_id },
        ]
    } else {
        exists|nm: NewMessage, now: i64|
            {
                &&& is_submission(nm, msg, user_id, channel_id, lang, Some(parent_id))
                &&& valid_moment(now)
                &&& d2 == d.save_effect(nm, now).clear_state_effect(user_id)
                &&& r == seq![plain_text(msg.chat_id, reply_accepted_text(lang), true)] + notify_effects(d.admins, nm, lang)
            }
    }
}

/// Handles a message from `user_id` who is in reply mode for post
/// `parent_id`: the message is saved as a pending reply to that post, the
/// dialogue ends, the user is thanked and the moderators are notified. A
/// message stored already just ends the dialogue; when the store cannot
/// take the row, the user is told and the dialogue ends after that notice.
pub fn handle_reply_content(db: &mut Database, config: &Config, msg: &IncomingMessage, user_id: i64, parent_id: i64) -> (r: Vec<Effect>)
    requires
        old(db)@.wf(),
    ensures
        final(db)@.wf(),
        reply_content_result(old(db)@, final(db)@, effect_views(r@), config.channel_id, *msg, user_id, parent_id),
{
    let lang = db.get_language();
    let chat_id = msg.chat_id;
    if db.message_exists(chat_id, msg.message_id) {
        db.clear_user_state(user_id);
        return no_effects();
    }
    let new_msg = submission_for(msg, user_id, config.channel_id, lang, Some(parent_id));
    match db.save_message(&new_msg) {
        Ok(true) => {
            db.clear_user_state(user_id);
            let mut out = just(send_text(chat_id, String::from_str(L10n::reply_accepted(lang)), true));
            notify_admins(db, &new_msg, lang, &mut out);
            out
        },
        Ok(false) => no_effects(),
        Err(_) => pair(
            send_text(chat_id, String::from_str(L10n::error_sending_reply(lang)), true),
            Effect::ClearUserState { user_id },
        ),
    }
}

/// The reason a moderator typed: the message's text, or a stock phrase.
pub open spec fn typed_reason(text: Option<Seq<char>>) -> Seq<char> {
    match text {
        Some(t) => t,
        None => "No reason provided"@,
    }
}

fn reason_of(text: &Option<String>) -> (r: &str)
    ensures
        r@ == typed_reason(opt_text(*text)),
{
    match text {
        Some(t) => t.as_str(),
        None => "No reason provided",
    }
}

/// What the rejection reason typed by moderator `admin_id` leads to (see
/// [`handle_send_reason`]).
pub open spec fn send_reason_outcome(d: DbView, admin_id: i64, chat_id: i64, text: Option<Seq<char>>, target_user_id: i64) -> (DbView, Seq<EffectView>) {
    let lang = d.language_setting();
    (
        d.clear_state_effect(admin_id),
        seq![
            plain_text(target_user_id, rejected_reason_text(lang, typed_reason(text)), false),
            plain_text(chat_id, reason_sent_text(lang), true),
        ],
    )
}

/// Handles the rejection reason typed by moderator `admin_id` in chat
/// `chat_id` for the author `target_user_id`: the author is told (failures
/// ignored), the dialogue ends, and the moderator is told the reason went out.
pub fn handle_send_reason(db: &mut Database, admin_id: i64, chat_id: i64, text: &Option<String>, target_user_id: i64) -> (r: Vec<Effect>)
    requires
        old(db)@.wf(),
    ensures
        final(db)@.wf(),
        (final(db)@, effect_views(r@)) == send_reason_outcome(old(db)@, admin_id, chat_id, opt_text(*text), target_user_id),
{
    let lang = db.get_language();
    let reason = reason_of(text);
    let notice = send_text(target_user_id, L10n::rejected_reason(lang, reason), false);
    db.clear_user_state(admin_id);
    pair(notice, send_text(chat_id, String::from_str(L10n::reason_sent(lang)), true))
}

/// What the ban reason typed by moderator `admin_id` leads to (see
/// [`handle_send_ban_reason`]); `d` is the store before, `d2` after, `r`
/// the effects. The appeal code and the moment are left open, except that
/// the code is held by no active ban before. The ban is refused when the
/// store is full, and may be refused (every appeal code being taken) only
/// while `16^6` bans are active; otherwise it is made.
pub open spec fn send_ban_reason_result(
    d: DbView,
    d2: DbView,
    r: Seq<EffectView>,
    admin_id: i64,
    chat_id: i64,
    text: Option<Seq<char>>,
    target_user_id: i64,
) -> bool {
    let lang = d.language_setting();
    let reason = typed_reason(text);
    let refused = d2 == d && r == seq![
        plain_text(chat_id, error_banning_user_text(lang), true),
        EffectView::ClearUserState { user_id: admin_id },
    ];
    let banned = exists|b: Seq<u8>, now: i64|
            {
                &&& b.len() == 16
                &&& d.active_ban_record(ban_code(b)) is None
                &&& valid_moment(now)
                &&& d2 == d.record_effect(target_user_id, reason, ban_code(b), now).ban_effect(target_user_id).clear_state_effect(
                    admin_id,
                )
                &&& r == seq![
                    plain_text(target_user_id, user_banned_appeal_text(lang, ban_code(b)), false),
                    plain_text(chat_id, user_banned_success_text(lang), true),
                ]
            };
    if d.last_ban_record_id == i64::MAX {
        refused
    } else if d.holds_active_appeal_code() && d.active_ban_count() >= 0x1000000 {
        refused || banned
    } else {
        banned
    }
}

/// Handles the ban reason typed by moderator `admin_id` in chat `chat_id`
/// for the author `target_user_id`: a ban record with a fresh appeal code
/// is created, the author is banned and told the code (failures ignored),
/// the dialogue ends and the moderator is told. When the store cannot take
/// the record, the moderator is told and the dialogue ends after that notice.
pub fn handle_send_ban_reason(db: &mut Database, admin_id: i64, chat_id: i64, text: &Option<String>, target_user_id: i64) -> (r: Vec<Effect>)
    requires
        old(db)@.wf(),
    ensures
        final(db)@.wf(),
        send_ban_reason_result(old(db)@, final(db)@, effect_views(r@), admin_id, chat_id, opt_text(*text), target_user_id),
{
    let lang = db.get_language();
    let reason = reason_of(text);
    match db.create_ban_record(target_user_id, reason) {
        Ok(ban_id) => {
            db.ban_user(target_user_id);
            db.clear_user_state(admin_id);
            pair(
                send_text(target_user_id, L10n::user_banned_appeal(lang, ban_id.as_str()), false),
                send_text(chat_id, String::from_str(L10n::user_banned_success(lang)), true),
            )
        },
        Err(_) => pair(
            send_text(chat_id, String::from_str(L10n::error_banning_user(lang)), true),
            Effect::ClearUserState { user_id: admin_id },
        ),
    }
}

} // verus!
