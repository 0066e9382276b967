//! What a message carries, and the requests that show a proposal to a
//! moderator or publish it in the channel.

use vstd::prelude::*;
use vstd::string::*;

use crate::bot::effects::{AlbumItem, AlbumItemView, Button, ButtonView, MediaKind, Outgoing, OutgoingView};
use crate::bot::incoming::IncomingMessage;
use crate::db::models::{Message, MessageView, Proposal, ProposalView, opt_text};
use crate::locales::{
    L10n, Locale, audio_text_text, document_text_text, media_content_text_text,
    media_proposal_text_text, photo_text_text, reply_quote_text, sticker_text_text,
    text_proposal_text, video_note_text_text, video_text_text, voice_text_text,
};
use crate::text::{decimal, i64_to_decimal, str_equal};

verus! {

/// The media type and file id recorded for a message: the largest photo
/// size, else the document, video, audio, voice message, sticker or video
/// note, else `text` with no file.
pub open spec fn media_info(m: IncomingMessage) -> (Seq<char>, Seq<char>) {
    if m.photo is Some && m.photo->0@.len() > 0 {
        ("photo"@, m.photo->0@.last()@)
    } else if m.document is Some {
        ("document"@, m.document->0.file_id@)
    } else if m.video is Some {
        ("video"@, m.video->0@)
    } else if m.audio is Some {
        ("audio"@, m.audio->0.file_id@)
    } else if m.voice is Some {
        ("voice"@, m.voice->0@)
    } else if m.sticker is Some {
        ("sticker"@, m.sticker->0@)
    } else if m.video_note is Some {
        ("video_note"@, m.video_note->0@)
    } else {
        ("text"@, Seq::empty())
    }
}

/// The media type and file id recorded for `msg`; see [`media_info`].
pub fn extract_media_info(msg: &IncomingMessage, _lang: Locale) -> (r: (String, String))
    ensures
        (r.0@, r.1@) == media_info(*msg),
{
    if let Some(photo) = &msg.photo {
        if photo.len() > 0 {
            let last = photo[photo.len() - 1].clone();
            return (String::from_str("photo"), last);
        }
    }
    if let Some(doc) = &msg.document {
        return (String::from_str("document"), doc.file_id.clone());
    }
    if let Some(video) = &msg.video {
        return (String::from_str("video"), video.clone());
    }
    if let Some(audio) = &msg.audio {
        return (String::from_str("audio"), audio.file_id.clone());
    }
    if let Some(voice) = &msg.voice {
        return (String::from_str("voice"), voice.clone());
    }
    if let Some(sticker) = &msg.sticker {
        return (String::from_str("sticker"), sticker.clone());
    }
    if let Some(vn) = &msg.video_note {
        return (String::from_str("video_note"), vn.clone());
    }
    (String::from_str("text"), String::new())
}

/// The text recorded for a message: its text or caption; empty for an
/// album item; otherwise a localized description of its media.
pub open spec fn message_text(m: IncomingMessage, lang: Locale) -> Seq<char> {
    if m.text is Some {
        m.text->0@
    } else if m.caption is Some {
        m.caption->0@
    } else if m.media_group_id is Some {
        Seq::empty()
    } else if m.photo is Some && m.photo->0@.len() > 0 {
        photo_text_text(lang)
    } else if m.document is Some {
        document_text_text(
            lang,
            match m.document->0.file_name {
                Some(n) => n@,
                None => "unknown"@,
            },
        )
    } else if m.video is Some {
        video_text_text(lang)
    } else if m.video_note is Some {
        video_note_text_text(lang)
    } else if m.audio is Some {
        audio_text_text(
            lang,
            match m.audio->0.title {
                Some(t) => t@,
                None => "Audio"@,
            },
        )
    } else if m.voice is Some {
        voice_text_text(lang)
    } else if m.sticker is Some {
        sticker_text_text(lang)
    } else {
        media_content_text_text(lang)
    }
}

/// The text recorded for `msg`; see [`message_text`].
pub fn extract_message_text(msg: &IncomingMessage, lang: Locale) -> (r: String)
    ensures
        r@ == message_text(*msg, lang),
{
    if let Some(text) = &msg.text {
        return text.clone();
    }
    if let Some(caption) = &msg.caption {
        return caption.clone();
    }
    if msg.media_group_id.is_some() {
        return String::new();
    }
    if let Some(photo) = &msg.photo {
        if photo.len() > 0 {
            return String::from_str(L10n::photo_text(lang));
        }
    }
    if let Some(doc) = &msg.document {
        return match &doc.file_name {
            Some(n) => L10n::document_text(lang, n.as_str()),
            None => L10n::document_text(lang, "unknown"),
        };
    }
    if msg.video.is_some() {
        return String::from_str(L10n::video_text(lang));
    }
    if msg.video_note.is_some() {
        return String::from_str(L10n::video_note_text(lang));
    }
    if let Some(audio) = &msg.audio {
        return match &audio.title {
            Some(t) => L10n::audio_text(lang, t.as_str()),
            None => L10n::audio_text(lang, "Audio"),
        };
    }
    if msg.voice.is_some() {
        return String::from_str(L10n::voice_text(lang));
    }
    if msg.sticker.is_some() {
        return String::from_str(L10n::sticker_text(lang));
    }
    String::from_str(L10n::media_content_text(lang))
}

/// The message carries something to submit: text, or one of the supported media.
pub open spec fn has_content(m: IncomingMessage) -> bool {
    m.text is Some || m.photo is Some || m.document is Some || m.video is Some || m.video_note is Some
        || m.audio is Some || m.voice is Some || m.sticker is Some
}

/// Whether `msg` carries something to submit.
pub fn message_has_content(msg: &IncomingMessage) -> (b: bool)
    ensures
        b == has_content(*msg),
{
    msg.text.is_some() || msg.photo.is_some() || msg.document.is_some() || msg.video.is_some()
        || msg.video_note.is_some() || msg.audio.is_some() || msg.voice.is_some()
        || msg.sticker.is_some()
}

/// The HTML escape of one character.
pub open spec fn html_escape_char(c: char) -> Seq<char> {
    if c == '&' {
        "&amp;"@
    } else if c == '<' {
        "&lt;"@
    } else if c == '>' {
        "&gt;"@
    } else if c == '"' {
        "&quot;"@
    } else {
        seq![c]
    }
}

/// `s` with `&`, `<`, `>` and `"` replaced by their HTML entities.
pub open spec fn html_escape(s: Seq<char>) -> Seq<char>
    decreases s.len(),
{
    if s.len() == 0 {
        Seq::empty()
    } else {
        html_escape(s.drop_last()) + html_escape_char(s.last())
    }
}

/// Replaces `&`, `<`, `>` and `"` by their HTML entities.
pub fn escape_html(s: &str) -> (r: String)
    ensures
        r@ == html_escape(s@),
{
    let n = s.unicode_len();
    let mut r = String::new();
    let mut i: usize = 0;
    while i < n
        invariant
            n == s@.len(),
            i <= n,
            r@ == html_escape(s@.take(i as int)),
        decreases n - i,
    {
        let c = s.get_char(i);
        proof {
            let t = s@.take(i + 1);
            assert(t.drop_last() =~= s@.take(i as int));
            assert(t.last() == c);
        }
        if c == '&' {
            r.append("&amp;");
        } else if c == '<' {
            r.append("&lt;");
        } else if c == '>' {
            r.append("&gt;");
        } else if c == '"' {
            r.append("&quot;");
        } else {
            let one = s.substring_char(i, i + 1);
            proof {
                assert(one@ =~= seq![c]);
            }
            r.append(one);
        }
        i = i + 1;
    }
    proof {
        assert(s@.take(n as int) =~= s@);
    }
    r
}

/// The kind of media that a stored media type names.
pub open spec fn media_kind_of(t: Seq<char>) -> Option<MediaKind> {
    if t == "photo"@ {
        Some(MediaKind::Photo)
    } else if t == "document"@ {
        Some(MediaKind::Document)
    } else if t == "video"@ {
        Some(MediaKind::Video)
    } else if t == "audio"@ {
        Some(MediaKind::Audio)
    } else if t == "voice"@ {
        Some(MediaKind::Voice)
    } else if t == "sticker"@ {
        Some(MediaKind::Sticker)
    } else if t == "video_note"@ {
        Some(MediaKind::VideoNote)
    } else {
        None
    }
}

fn media_kind(t: &str) -> (r: Option<MediaKind>)
    ensures
        r == media_kind_of(t@),
{
    if str_equal(t, "photo") {
        Some(MediaKind::Photo)
    } else if str_equal(t, "document") {
        Some(MediaKind::Document)
    } else if str_equal(t, "video") {
        Some(MediaKind::Video)
    } else if str_equal(t, "audio") {
        Some(MediaKind::Audio)
    } else if str_equal(t, "voice") {
        Some(MediaKind::Voice)
    } else if str_equal(t, "sticker") {
        Some(MediaKind::Sticker)
    } else if str_equal(t, "video_note") {
        Some(MediaKind::VideoNote)
    } else {
        None
    }
}

/// Stickers and video notes go without a caption.
pub open spec fn captionless(k: MediaKind) -> bool {
    k == MediaKind::Sticker || k == MediaKind::VideoNote
}

/// The stored item has no file to send: a text item or one without file id.
pub open spec fn is_text_item(m: MessageView) -> bool {
    m.media_type == "text"@ || m.media_file_id.len() == 0
}

/// How one stored item is shown to a moderator in chat `chat_id`.
pub open spec fn moderation_request(chat_id: i64, m: MessageView, lang: Locale) -> OutgoingView {
    if is_text_item(m) {
        OutgoingView::Text {
            chat_id: chat_id,
            text: text_proposal_text(lang, m.message_text),
            html: false,
            link_preview: true,
            keyboard: Seq::empty(),
            reply_to: None,
        }
    } else {
        match media_kind_of(m.media_type) {
            Some(k) => OutgoingView::Media {
                chat_id: chat_id,
                kind: k,
                file_id: m.media_file_id,
                caption: if captionless(k) {
                    None
                } else {
                    Some(m.message_text)
                },
                html: false,
                reply_to: None,
            },
            None => OutgoingView::Text {
                chat_id: chat_id,
                text: media_proposal_text_text(lang, m.media_type, m.message_text),
                html: false,
                link_preview: true,
                keyboard: Seq::empty(),
                reply_to: None,
            },
        }
    }
}

/// The album kind of a stored item: video, audio, or else photo.
pub open spec fn album_kind(t: Seq<char>) -> MediaKind {
    if t == "video"@ {
        MediaKind::Video
    } else if t == "audio"@ {
        MediaKind::Audio
    } else {
        MediaKind::Photo
    }
}

/// An album item without markup; the first one carries the item's text as
/// caption when it is not empty.
pub open spec fn album_item(m: MessageView, is_first: bool) -> AlbumItemView {
    AlbumItemView {
        kind: album_kind(m.media_type),
        file_id: m.media_file_id,
        caption: if is_first && m.message_text.len() > 0 {
            Some(m.message_text)
        } else {
            None
        },
        html: false,
    }
}

/// Every item is a photo, video or audio, so they can go as one album.
pub open spec fn all_album_media(ms: Seq<MessageView>) -> bool {
    forall|i: int|
        0 <= i < ms.len() ==> (#[trigger] ms[i].media_type == "photo"@ || ms[i].media_type == "video"@
            || ms[i].media_type == "audio"@)
}

/// The requests that show proposal `p` to a moderator in chat `chat_id`:
/// one request for a single item; one album when all items are photos,
/// videos or audio; else one request per item.
pub open spec fn moderation_requests(chat_id: i64, p: ProposalView, lang: Locale) -> Seq<OutgoingView> {
    if p.messages.len() == 1 {
        seq![moderation_request(chat_id, p.messages[0], lang)]
    } else if all_album_media(p.messages) {
        seq![
            OutgoingView::Album {
                chat_id: chat_id,
                items: Seq::new(p.messages.len(), |i: int| album_item(p.messages[i], i == 0)),
            },
        ]
    } else {
        p.messages.map_values(|m: MessageView| moderation_request(chat_id, m, lang))
    }
}

fn item_for_moderation(chat_id: i64, m: &Message, lang: Locale) -> (r: Outgoing)
    ensures
        r@ == moderation_request(chat_id, m@, lang),
{
    let media_type = m.media_type.as_str();
    let file_id = m.media_file_id.as_str();
    let no_buttons: Vec<Button> = Vec::new();
    proof {
        assert(no_buttons@.map_values(|b: Button| b@) =~= Seq::<ButtonView>::empty());
    }
    if str_equal(media_type, "text") || file_id.unicode_len() == 0 {
        return Outgoing::Text {
            chat_id,
            text: L10n::text_proposal(lang, m.message_text.as_str()),
            html: false,
            link_preview: true,
            keyboard: no_buttons,
            reply_to: None,
        };
    }
    match media_kind(media_type) {
        Some(k) => {
            let caption = if k == MediaKind::Sticker || k == MediaKind::VideoNote {
                None
            } else {
                Some(m.message_text.clone())
            };
            Outgoing::Media {
                chat_id,
                kind: k,
                file_id: m.media_file_id.clone(),
                caption,
                html: false,
                reply_to: None,
            }
        },
        None => Outgoing::Text {
            chat_id,
            text: L10n::media_proposal_text(lang, media_type, m.message_text.as_str()),
            html: false,
            link_preview: true,
            keyboard: no_buttons,
            reply_to: None,
        },
    }
}

fn album_kind_of(t: &str) -> (r: MediaKind)
    ensures
        r == album_kind(t@),
{
    if str_equal(t, "video") {
        MediaKind::Video
    } else if str_equal(t, "audio") {
        MediaKind::Audio
    } else {
        MediaKind::Photo
    }
}

fn build_album_item(m: &Message, is_first: bool) -> (r: AlbumItem)
    ensures
        r@ == album_item(m@, is_first),
{
    let caption = if is_first && m.message_text.as_str().unicode_len() > 0 {
        Some(m.message_text.clone())
    } else {
        None
    };
    AlbumItem {
        kind: album_kind_of(m.media_type.as_str()),
        file_id: m.media_file_id.clone(),
        caption,
        html: false,
    }
}

fn is_album_media(t: &str) -> (b: bool)
    ensures
        b == (t@ == "photo"@ || t@ == "video"@ || t@ == "audio"@),
{
    str_equal(t, "photo") || str_equal(t, "video") || str_equal(t, "audio")
}

/// The requests that show `proposal` to a moderator in chat `chat_id`;
/// see [`moderation_requests`].
pub fn requests_for_moderation(chat_id: i64, proposal: &Proposal, lang: Locale) -> (r: Vec<Outgoing>)
    ensures
        r@.map_values(|o: Outgoing| o@) == moderation_requests(chat_id, proposal@, lang),
{
    let ms = &proposal.messages;
    let n = ms.len();
    let ghost pv = proposal@;
    if n == 1 {
        let item = item_for_moderation(chat_id, &ms[0], lang);
        let mut r: Vec<Outgoing> = Vec::new();
        r.push(item);
        proof {
            assert(r@.map_values(|o: Outgoing| o@) =~= seq![moderation_request(chat_id, pv.messages[0], lang)]);
        }
        return r;
    }
    let mut all_media = true;
    let mut i: usize = 0;
    while i < n
        invariant
            n == ms@.len(),
            pv == proposal@,
            ms == proposal.messages,
            i <= n,
            all_media == forall|j: int|
                0 <= j < i ==> (#[trigger] pv.messages[j].media_type == "photo"@
                    || pv.messages[j].media_type == "video"@ || pv.messages[j].media_type == "audio"@),
        decreases n - i,
    {
        proof {
            assert(pv.messages[i as int] == ms@[i as int]@);
        }
        let ghost before = all_media;
        if !is_album_media(ms[i].media_type.as_str()) {
            all_media = false;
            proof {
                let m = pv.messages[i as int];
                assert(!(m.media_type == "photo"@ || m.media_type == "video"@ || m.media_type == "audio"@));
            }
        }
        proof {
            if all_media {
                assert forall|j: int| 0 <= j < i + 1 implies (#[trigger] pv.messages[j].media_type == "photo"@
                    || pv.messages[j].media_type == "video"@ || pv.messages[j].media_type == "audio"@) by {
                    if j < i {
                        assert(before);
                    }
                }
            }
        }
        i = i + 1;
    }
    if all_media {
        let mut items: Vec<AlbumItem> = Vec::new();
        let mut i: usize = 0;
        while i < n
            invariant
                n == ms@.len(),
                pv == proposal@,
                ms == proposal.messages,
                i <= n,
                items@.map_values(|it: AlbumItem| it@) == Seq::new(
                    i as nat,
                    |j: int| album_item(pv.messages[j], j == 0),
                ),
            decreases n - i,
        {
            let it = build_album_item(&ms[i], i == 0);
            let ghost before = items@;
            items.push(it);
            proof {
                assert(pv.messages[i as int] == ms@[i as int]@);
                assert(items@ == before.push(it));
                assert(items@.map_values(|it: AlbumItem| it@) =~= before.map_values(|it: AlbumItem| it@).push(it@));
                assert(items@.map_values(|it: AlbumItem| it@) =~= Seq::new(
                    (i + 1) as nat,
                    |j: int| album_item(pv.messages[j], j == 0),
                ));
            }
            i = i + 1;
        }
        let mut r: Vec<Outgoing> = Vec::new();
        r.push(Outgoing::Album { chat_id, items });
        proof {
            assert(r@.map_values(|o: Outgoing| o@) =~= moderation_requests(chat_id, pv, lang));
        }
        r
    } else {
        let mut r: Vec<Outgoing> = Vec::new();
        let mut i: usize = 0;
        while i < n
            invariant
                n == ms@.len(),
                pv == proposal@,
                ms == proposal.messages,
                i <= n,
                r@.map_values(|o: Outgoing| o@) == pv.messages.take(i as int).map_values(
                    |m: MessageView| moderation_request(chat_id, m, lang),
                ),
            decreases n - i,
        {
            let o = item_for_moderation(chat_id, &ms[i], lang);
            let ghost before = r@;
            let ghost ov = o@;
            r.push(o);
            proof {
                assert(r@.map_values(|o: Outgoing| o@) =~= before.map_values(|o: Outgoing| o@).push(ov));
                assert(pv.messages[i as int] == ms@[i as int]@);
                assert(pv.messages.take(i + 1) =~= pv.messages.take(i as int).push(pv.messages[i as int]));
                assert(r@.map_values(|o: Outgoing| o@) =~= pv.messages.take(i + 1).map_values(
                    |m: MessageView| moderation_request(chat_id, m, lang),
                ));
            }
            i = i + 1;
        }
        proof {
            assert(pv.messages.take(n as int) =~= pv.messages);
        }
        r
    }
}


/// The caption of a published post: the first item's text, HTML-escaped
/// and quoted (introduced as a reply when the item answers a post), then a
/// link that starts a reply to it through the bot.
pub open spec fn publish_caption(first: MessageView, bot_username: Seq<char>, lang: Locale) -> Seq<char> {
    let quoted = "<blockquote>"@ + html_escape(first.message_text) + "</blockquote>"@;
    let base = if first.parent_message_id is Some {
        reply_quote_text(lang, quoted)
    } else {
        quoted
    };
    base + "\n\n<a href=\"https://t.me/"@ + bot_username + "?start=reply_"@ + decimal(first.id as int)
        + "\">💬 Reply</a>"@
}

/// The request that publishes proposal `p` in channel `channel_id`: a single
/// item goes as HTML text (link previews off) or as its media with the
/// caption (stickers and video notes without), replying to `reply_to` when
/// given; several items go as one album whose first item carries the caption.
pub open spec fn publish_request(
    channel_id: i64,
    p: ProposalView,
    bot_username: Seq<char>,
    reply_to: Option<i32>,
    lang: Locale,
) -> OutgoingView {
    let first = p.messages[0];
    let caption = publish_caption(first, bot_username, lang);
    if p.messages.len() == 1 {
        if is_text_item(first) {
            OutgoingView::Text {
                chat_id: channel_id,
                text: caption,
                html: true,
                link_preview: false,
                keyboard: Seq::empty(),
                reply_to: reply_to,
            }
        } else {
            match media_kind_of(first.media_type) {
                Some(k) => OutgoingView::Media {
                    chat_id: channel_id,
                    kind: k,
                    file_id: first.media_file_id,
                    caption: if captionless(k) {
                        None
                    } else {
                        Some(caption)
                    },
                    html: !captionless(k),
                    reply_to: reply_to,
                },
                None => OutgoingView::Text {
                    chat_id: channel_id,
                    text: caption,
                    html: true,
                    link_preview: false,
                    keyboard: Seq::empty(),
                    reply_to: reply_to,
                },
            }
        }
    } else {
        OutgoingView::Album {
            chat_id: channel_id,
            items: Seq::new(
                p.messages.len(),
                |i: int|
                    if i == 0 {
                        AlbumItemView {
                            kind: album_kind(first.media_type),
                            file_id: first.media_file_id,
                            caption: Some(caption),
                            html: true,
                        }
                    } else {
                        album_item(p.messages[i], false)
                    },
            ),
        }
    }
}

fn caption_for(first: &Message, bot_username: &str, lang: Locale) -> (r: String)
    ensures
        r@ == publish_caption(first@, bot_username@, lang),
{
    let escaped = escape_html(first.message_text.as_str());
    let mut quoted = String::from_str("<blockquote>");
    quoted.append(escaped.as_str());
    quoted.append("</blockquote>");
    let mut caption = if first.parent_message_id.is_some() {
        L10n::reply_quote(lang, quoted.as_str())
    } else {
        quoted
    };
    caption.append("\n\n<a href=\"https://t.me/");
    caption.append(bot_username);
    caption.append("?start=reply_");
    let id = i64_to_decimal(first.id);
    caption.append(id.as_str());
    caption.append("\">💬 Reply</a>");
    caption
}

/// The request that publishes `proposal` in channel `channel_id`; see
/// [`publish_request`].
pub fn publish_request_for(
    channel_id: i64,
    proposal: &Proposal,
    bot_username: &str,
    reply_to: Option<i32>,
    lang: Locale,
) -> (r: Outgoing)
    requires
        proposal.messages@.len() > 0,
    ensures
        r@ == publish_request(channel_id, proposal@, bot_username@, reply_to, lang),
{
    let ghost pv = proposal@;
    let first = proposal.first();
    proof {
        assert(pv.messages[0] == first@);
    }
    let caption = caption_for(first, bot_username, lang);
    let n = proposal.messages.len();
    let no_buttons: Vec<Button> = Vec::new();
    proof {
        assert(no_buttons@.map_values(|b: Button| b@) =~= Seq::<ButtonView>::empty());
    }
    if n == 1 {
        let media_type = first.media_type.as_str();
        if str_equal(media_type, "text") || first.media_file_id.as_str().unicode_len() == 0 {
            return Outgoing::Text {
                chat_id: channel_id,
                text: caption,
                html: true,
                link_preview: false,
                keyboard: no_buttons,
                reply_to,
            };
        }
        return match media_kind(media_type) {
            Some(k) => {
                let bare = k == MediaKind::Sticker || k == MediaKind::VideoNote;
                Outgoing::Media {
                    chat_id: channel_id,
                    kind: k,
                    file_id: first.media_file_id.clone(),
                    caption: if bare {
                        None
                    } else {
                        Some(caption)
                    },
                    html: !bare,
                    reply_to,
                }
            },
            None => Outgoing::Text {
                chat_id: channel_id,
                text: caption,
                html: true,
                link_preview: false,
                keyboard: no_buttons,
                reply_to,
            },
        };
    }
    let ms = &proposal.messages;
    let ghost g = |i: int|
        if i == 0 {
            AlbumItemView {
                kind: album_kind(first@.media_type),
                file_id: first@.media_file_id,
                caption: Some(caption@),
                html: true,
            }
        } else {
            album_item(pv.messages[i], false)
        };
    let mut items: Vec<AlbumItem> = Vec::new();
    items.push(
        AlbumItem {
            kind: album_kind_of(first.media_type.as_str()),
            file_id: first.media_file_id.clone(),
            caption: Some(caption),
            html: true,
        },
    );
    proof {
        assert(items@.map_values(|it: AlbumItem| it@) =~= Seq::new(1, g));
    }
    let mut i: usize = 1;
    while i < n
        invariant
            n == ms@.len(),
            ms == proposal.messages,
            pv == proposal@,
            1 <= i <= n,
            items@.map_values(|it: AlbumItem| it@) == Seq::new(i as nat, g),
            g == (|i: int|
                if i == 0 {
                    AlbumItemView {
                        kind: album_kind(first@.media_type),
                        file_id: first@.media_file_id,
                        caption: Some(caption@),
                        html: true,
                    }
                } else {
                    album_item(pv.messages[i], false)
                }),
        decreases n - i,
    {
        let it = build_album_item(&ms[i], false);
        let ghost before = items@;
        items.push(it);
        proof {
            assert(pv.messages[i as int] == ms@[i as int]@);
            assert(items@ == before.push(it));
            assert(items@.map_values(|it: AlbumItem| it@) =~= before.map_values(|it: AlbumItem| it@).push(it@));
            assert(items@.map_values(|it: AlbumItem| it@) =~= Seq::new((i + 1) as nat, g));
        }
        i = i + 1;
    }
    let r = Outgoing::Album { chat_id: channel_id, items };
    proof {
        let want = publish_request(channel_id, pv, bot_username@, reply_to, lang);
        assert(r@ == want);
    }
    r
}

} // verus!
