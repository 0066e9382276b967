//! What the bot promises across its requests: moderators and the channel
//! see what was submitted, never who submitted it; posts are HTML; albums
//! stay one proposal; moderators hear of every saved submission.

use vstd::prelude::*;

use crate::bot::effects::{AlbumItemView, EffectView, MediaKind, OutgoingView, plain_text};
use crate::bot::incoming::IncomingMessage;
use crate::bot::media::{
    album_item, album_kind, all_album_media, has_content, moderation_request, moderation_requests,
    publish_caption, publish_request,
};
use crate::bot::proposals::{
    is_submission, notify_effects, proposal_result, reply_content_result, send_ban_reason_result, typed_reason,
};
use crate::db::laws::{lemma_ban_then_banned, lemma_record_then_found};
use crate::bot::BotError;
use crate::clock::valid_moment;
use crate::db::models::{AdminView, MessageView, NewMessage, ProposalView};
use crate::db::repository::DbView;
use crate::locales::{
    Locale, new_proposal_notif_text, proposal_accepted_text, reply_accepted_text, user_banned_appeal_text,
    user_banned_success_text,
};
use crate::uid::{ban_code, is_appeal_code, is_v4_bytes, uuid_text};

verus! {

/// `q` is `p` with possibly other senders: the same group and the same
/// items, field for field, but for `sender_id`.
pub open spec fn differ_only_in_senders(p: ProposalView, q: ProposalView) -> bool {
    &&& p.group_id == q.group_id
    &&& p.messages.len() == q.messages.len()
    &&& forall|i: int|
        0 <= i < p.messages.len() ==> #[trigger] q.messages[i] == (MessageView {
            sender_id: q.messages[i].sender_id,
            ..p.messages[i]
        })
}

/// Submissions are anonymous: the requests that show a proposal to a
/// moderator are the same whoever sent its items.
pub proof fn lemma_moderation_hides_sender(chat_id: i64, p: ProposalView, q: ProposalView, lang: Locale)
    requires
        differ_only_in_senders(p, q),
    ensures
        moderation_requests(chat_id, p, lang) == moderation_requests(chat_id, q, lang),
{
    let a = p.messages;
    let b = q.messages;
    assert forall|i: int| 0 <= i < a.len() implies {
        &&& #[trigger] a[i].media_type == b[i].media_type
        &&& album_item(a[i], i == 0) == album_item(b[i], i == 0)
        &&& moderation_request(chat_id, a[i], lang) == moderation_request(chat_id, b[i], lang)
    } by {
        assert(b[i] == MessageView { sender_id: b[i].sender_id, ..a[i] });
    }
    if a.len() == 0 {
        assert(a =~= b);
    } else if a.len() == 1 {
        assert(a[0].media_type == b[0].media_type);
    } else {
        assert(all_album_media(a) == all_album_media(b));
        if all_album_media(a) {
            assert(Seq::new(a.len(), |i: int| album_item(a[i], i == 0)) =~= Seq::new(
                b.len(),
                |i: int| album_item(b[i], i == 0),
            ));
        } else {
            assert(a.map_values(|m: MessageView| moderation_request(chat_id, m, lang)) =~= b.map_values(
                |m: MessageView| moderation_request(chat_id, m, lang),
            ));
        }
    }
}

/// Submissions are anonymous: the post that publishes a proposal in the
/// channel is the same whoever sent its items.
pub proof fn lemma_publication_hides_sender(
    channel_id: i64,
    p: ProposalView,
    q: ProposalView,
    bot_username: Seq<char>,
    reply_to: Option<i32>,
    lang: Locale,
)
    requires
        differ_only_in_senders(p, q),
    ensures
        publish_request(channel_id, p, bot_username, reply_to, lang) == publish_request(
            channel_id,
            q,
            bot_username,
            reply_to,
            lang,
        ),
{
    let a = p.messages;
    let b = q.messages;
    if a.len() == 0 {
        assert(a =~= b);
    } else {
        assert(b[0] == MessageView { sender_id: b[0].sender_id, ..a[0] });
        let caption = publish_caption(a[0], bot_username, lang);
        assert(caption == publish_caption(b[0], bot_username, lang));
        if a.len() > 1 {
            assert forall|i: int| 0 <= i < a.len() implies #[trigger] album_item(a[i], false)
                == album_item(b[i], false) by {
                assert(b[i] == MessageView { sender_id: b[i].sender_id, ..a[i] });
            }
            assert(Seq::new(
                a.len(),
                |i: int|
                    if i == 0 {
                        AlbumItemView {
                            kind: album_kind(a[0].media_type),
                            file_id: a[0].media_file_id,
                            caption: Some(caption),
                            html: true,
                        }
                    } else {
                        album_item(a[i], false)
                    },
            ) =~= Seq::new(
                b.len(),
                |i: int|
                    if i == 0 {
                        AlbumItemView {
                            kind: album_kind(b[0].media_type),
                            file_id: b[0].media_file_id,
                            caption: Some(caption),
                            html: true,
                        }
                    } else {
                        album_item(b[i], false)
                    },
            ));
        }
    }
}

/// Submissions are anonymous: the notices moderators get about a new
/// submission are the same whoever sent it.
pub proof fn lemma_notice_hides_sender(admins: Seq<AdminView>, nm: NewMessage, sender_id: i64, lang: Locale)
    ensures
        notify_effects(admins, nm, lang) == notify_effects(admins, NewMessage { sender_id: sender_id, ..nm }, lang),
{
    let other = NewMessage { sender_id: sender_id, ..nm };
    assert(notify_effects(admins, nm, lang) =~= notify_effects(admins, other, lang));
}

/// A post in the channel asks for HTML parsing whenever it carries the
/// caption (the quote and the reply link are HTML): a text post always, a
/// single media post whenever it has a caption, and an album on its first
/// item. Media that take a caption get one.
pub proof fn lemma_publication_caption_is_html(
    channel_id: i64,
    p: ProposalView,
    bot_username: Seq<char>,
    reply_to: Option<i32>,
    lang: Locale,
)
    requires
        p.messages.len() > 0,
    ensures
        match publish_request(channel_id, p, bot_username, reply_to, lang) {
            OutgoingView::Text { chat_id, html, .. } => chat_id == channel_id && html,
            OutgoingView::Media { chat_id, kind, caption, html, .. } => chat_id == channel_id && (caption is Some
                ==> html) && (kind != MediaKind::Sticker && kind != MediaKind::VideoNote ==> caption is Some),
            OutgoingView::Album { chat_id, items } => chat_id == channel_id && items.len() > 0 && items[0].html
                && items[0].caption is Some,
            _ => false,
        },
{
}

/// A moderator sees a single photo, document, video, audio or voice
/// message as that file with the author's text as its caption.
pub proof fn lemma_moderation_shows_caption(chat_id: i64, p: ProposalView, lang: Locale)
    requires
        p.messages.len() == 1,
        p.messages[0].media_file_id.len() > 0,
        p.messages[0].media_type == "photo"@ || p.messages[0].media_type == "document"@
            || p.messages[0].media_type == "video"@ || p.messages[0].media_type == "audio"@
            || p.messages[0].media_type == "voice"@,
    ensures
        moderation_requests(chat_id, p, lang).len() == 1,
        moderation_requests(chat_id, p, lang)[0] matches OutgoingView::Media { chat_id: c, file_id, caption, .. }
            && c == chat_id && file_id == p.messages[0].media_file_id && caption == Some(p.messages[0].message_text),
{
    reveal_strlit("text");
    reveal_strlit("photo");
    reveal_strlit("document");
    reveal_strlit("video");
    reveal_strlit("audio");
    reveal_strlit("voice");
    reveal_strlit("sticker");
    reveal_strlit("video_note");
}

/// Every item of an album is recorded under the album's id, so the items
/// of one album form one proposal; a message outside albums gets a group of
/// its own (`single_` and a UUID).
pub proof fn lemma_album_items_share_group(
    nm1: NewMessage,
    msg1: IncomingMessage,
    nm2: NewMessage,
    msg2: IncomingMessage,
    user_id: i64,
    channel_id: i64,
    lang: Locale,
    parent1: Option<i64>,
    parent2: Option<i64>,
)
    requires
        is_submission(nm1, msg1, user_id, channel_id, lang, parent1),
        is_submission(nm2, msg2, user_id, channel_id, lang, parent2),
    ensures
        msg1.media_group_id matches Some(g) ==> nm1.proposal_group_id@ == g@,
        msg1.media_group_id is Some && msg2.media_group_id is Some && msg1.media_group_id->0@
            == msg2.media_group_id->0@ ==> nm1.proposal_group_id@ == nm2.proposal_group_id@,
        msg1.media_group_id is None ==> nm1.proposal_group_id@.take(7) == "single_"@,
{
    reveal_strlit("single_");
    if msg1.media_group_id is None {
        let b = choose|b: Seq<u8>| is_v4_bytes(b) && nm1.proposal_group_id@ == "single_"@ + uuid_text(b);
        assert(nm1.proposal_group_id@.take(7) =~= "single_"@);
    }
}

/// A reply that is saved is a pending reply to its post, and every
/// moderator on record is told about it, in order, after the author is
/// thanked; the notice names the saved row's group, text and type.
pub proof fn lemma_saved_reply_notifies_moderators(
    d: DbView,
    d2: DbView,
    r: Seq<EffectView>,
    channel_id: i64,
    msg: IncomingMessage,
    user_id: i64,
    parent_id: i64,
)
    requires
        reply_content_result(d, d2, r, channel_id, msg, user_id, parent_id),
        !d.has_message(msg.chat_id, msg.message_id),
        d.last_message_id < i64::MAX,
    ensures
        d2.messages.len() == d.messages.len() + 1,
        d2.messages.last().parent_message_id == Some(parent_id),
        d2.messages.last().sender_id == user_id,
        d2.messages.last().status == "pending"@,
        r.len() == d.admins.len() + 1,
        r[0] == plain_text(msg.chat_id, reply_accepted_text(d.language_setting()), true),
        forall|k: int|
            0 <= k < d.admins.len() ==> #[trigger] r[k + 1] == plain_text(
                d.admins[k].user_id,
                new_proposal_notif_text(
                    d.language_setting(),
                    d2.messages.last().proposal_group_id,
                    d2.messages.last().message_text,
                    d2.messages.last().media_type,
                ),
                false,
            ),
{
    let lang = d.language_setting();
    let (nm, now) = choose|nm: NewMessage, now: i64|
        {
            &&& is_submission(nm, msg, user_id, channel_id, lang, Some(parent_id))
            &&& valid_moment(now)
            &&& d2 == d.save_effect(nm, now).clear_state_effect(user_id)
            &&& r == seq![plain_text(msg.chat_id, reply_accepted_text(lang), true)] + notify_effects(d.admins, nm, lang)
        };
    assert(d2.messages == d.save_effect(nm, now).messages);
    assert forall|k: int| 0 <= k < d.admins.len() implies #[trigger] r[k + 1] == plain_text(
        d.admins[k].user_id,
        new_proposal_notif_text(
            lang,
            d2.messages.last().proposal_group_id,
            d2.messages.last().message_text,
            d2.messages.last().media_type,
        ),
        false,
    ) by {
        assert(r[k + 1] == notify_effects(d.admins, nm, lang)[k]);
    }
}

/// A new proposal that is saved is pending, and every moderator on record
/// is told about it, in order, after the author is thanked.
pub proof fn lemma_saved_proposal_notifies_moderators(
    d: DbView,
    d2: DbView,
    r: Result<Seq<EffectView>, BotError>,
    channel_id: i64,
    msg: IncomingMessage,
    user_id: i64,
)
    requires
        proposal_result(d, d2, r, channel_id, msg, user_id),
        !d.is_banned(user_id),
        !msg.chat_is_group,
        has_content(msg),
        !d.has_message(msg.chat_id, msg.message_id),
        d.last_message_id < i64::MAX,
    ensures
        d2.messages.len() == d.messages.len() + 1,
        d2.messages.last().parent_message_id is None,
        d2.messages.last().sender_id == user_id,
        d2.messages.last().status == "pending"@,
        r is Ok,
        r->Ok_0.len() == d.admins.len() + 1,
        r->Ok_0[0] == plain_text(msg.chat_id, proposal_accepted_text(d.language_setting()), true),
        forall|k: int|
            0 <= k < d.admins.len() ==> #[trigger] r->Ok_0[k + 1] == plain_text(
                d.admins[k].user_id,
                new_proposal_notif_text(
                    d.language_setting(),
                    d2.messages.last().proposal_group_id,
                    d2.messages.last().message_text,
                    d2.messages.last().media_type,
                ),
                false,
            ),
{
    let lang = d.language_setting();
    let (nm, now) = choose|nm: NewMessage, now: i64|
        {
            &&& is_submission(nm, msg, user_id, channel_id, lang, None)
            &&& valid_moment(now)
            &&& d2 == d.save_effect(nm, now)
            &&& r == Ok::<Seq<EffectView>, BotError>(
                seq![plain_text(msg.chat_id, proposal_accepted_text(lang), true)] + notify_effects(d.admins, nm, lang),
            )
        };
    let v = r->Ok_0;
    assert forall|k: int| 0 <= k < d.admins.len() implies #[trigger] v[k + 1] == plain_text(
        d.admins[k].user_id,
        new_proposal_notif_text(
            lang,
            d2.messages.last().proposal_group_id,
            d2.messages.last().message_text,
            d2.messages.last().media_type,
        ),
        false,
    ) by {
        assert(v[k + 1] == notify_effects(d.admins, nm, lang)[k]);
    }
}

/// Banning works whenever appeal codes remain: while the store has ids
/// left and fewer than `16^6` bans are active, the reason a moderator types
/// bans the author under an appeal code that named no active ban, records
/// the ban with the author and the reason under that code, tells the author
/// that code and tells the moderator the ban succeeded.
pub proof fn lemma_ban_reason_bans(
    d: DbView,
    d2: DbView,
    r: Seq<EffectView>,
    admin_id: i64,
    chat_id: i64,
    text: Option<Seq<char>>,
    target_user_id: i64,
)
    requires
        send_ban_reason_result(d, d2, r, admin_id, chat_id, text, target_user_id),
        d.last_ban_record_id < i64::MAX,
        d.active_ban_count() < 0x1000000,
    ensures
        d2.is_banned(target_user_id),
        r.len() == 2,
        r[1] == plain_text(chat_id, user_banned_success_text(d.language_setting()), true),
        exists|code: Seq<char>|
            {
                &&& is_appeal_code(code)
                &&& d.active_ban_record(code) is None
                &&& d2.active_ban_record(code) matches Some(rec) && rec.user_id == target_user_id && rec.reason
                    == typed_reason(text) && rec.active
                &&& r[0] == plain_text(target_user_id, user_banned_appeal_text(d.language_setting(), code), false)
            },
{
    let lang = d.language_setting();
    let reason = typed_reason(text);
    let (b, now) = choose|b: Seq<u8>, now: i64|
        {
            &&& b.len() == 16
            &&& d.active_ban_record(ban_code(b)) is None
            &&& valid_moment(now)
            &&& d2 == d.record_effect(target_user_id, reason, ban_code(b), now).ban_effect(target_user_id).clear_state_effect(
                admin_id,
            )
            &&& r == seq![
                plain_text(target_user_id, user_banned_appeal_text(lang, ban_code(b)), false),
                plain_text(chat_id, user_banned_success_text(lang), true),
            ]
        };
    let code = ban_code(b);
    let d1 = d.record_effect(target_user_id, reason, code, now);
    lemma_record_then_found(d, target_user_id, reason, code, now);
    lemma_ban_then_banned(d1, target_user_id);
    assert(d2.ban_records == d1.ban_records);
    assert(d2.banned == d1.ban_effect(target_user_id).banned);
    assert(is_appeal_code(code));
}

} // verus!
