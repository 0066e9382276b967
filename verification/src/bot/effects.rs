//! What a handler asks the outside world to do: Telegram requests, in
//! order, and the store updates that must wait for them.

use vstd::prelude::*;

use crate::db::models::opt_text;
use crate::locales::Locale;

verus! {

/// The kinds of media a request can carry.
#[derive(Debug, Clone, Copy, PartialEq, Eq, Structural)]
pub enum MediaKind {
    Photo,
    Document,
    Video,
    Audio,
    Voice,
    Sticker,
    VideoNote,
}

/// An inline keyboard button: its label and its callback data.
#[derive(Debug)]
pub struct Button {
    pub text: String,
    pub data: String,
}

/// A [`Button`] as texts.
pub struct ButtonView {
    pub text: Seq<char>,
    pub data: Seq<char>,
}

impl View for Button {
    type V = ButtonView;

    open spec fn view(&self) -> ButtonView {
        ButtonView { text: self.text@, data: self.data@ }
    }
}

/// One item of a media album.
#[derive(Debug)]
pub struct AlbumItem {
    pub kind: MediaKind,
    pub file_id: String,
    pub caption: Option<String>,
    pub html: bool,
}

/// An [`AlbumItem`] as texts.
pub struct AlbumItemView {
    pub kind: MediaKind,
    pub file_id: Seq<char>,
    pub caption: Option<Seq<char>>,
    pub html: bool,
}

impl View for AlbumItem {
    type V = AlbumItemView;

    open spec fn view(&self) -> AlbumItemView {
        AlbumItemView {
            kind: self.kind,
            file_id: self.file_id@,
            caption: opt_text(self.caption),
            html: self.html,
        }
    }
}

/// A Telegram request. `html` asks for HTML parsing of the text or caption;
/// `link_preview: false` disables link previews; `reply_to` makes the new
/// message a reply to that message of the chat.
#[derive(Debug)]
pub enum Outgoing {
    Text {
        chat_id: i64,
        text: String,
        html: bool,
        link_preview: bool,
        keyboard: Vec<Button>,
        reply_to: Option<i32>,
    },
    Media {
        chat_id: i64,
        kind: MediaKind,
        file_id: String,
        caption: Option<String>,
        html: bool,
        reply_to: Option<i32>,
    },
    Album { chat_id: i64, items: Vec<AlbumItem> },
    AnswerCallback { callback_id: String, text: String },
    DeleteMessage { chat_id: i64, message_id: i32 },
}

/// An [`Outgoing`] request as texts.
pub enum OutgoingView {
    Text {
        chat_id: i64,
        text: Seq<char>,
        html: bool,
        link_preview: bool,
        keyboard: Seq<ButtonView>,
        reply_to: Option<i32>,
    },
    Media {
        chat_id: i64,
        kind: MediaKind,
        file_id: Seq<char>,
        caption: Option<Seq<char>>,
        html: bool,
        reply_to: Option<i32>,
    },
    Album { chat_id: i64, items: Seq<AlbumItemView> },
    AnswerCallback { callback_id: Seq<char>, text: Seq<char> },
    DeleteMessage { chat_id: i64, message_id: i32 },
}

impl View for Outgoing {
    type V = OutgoingView;

    open spec fn view(&self) -> OutgoingView {
        match self {
            Outgoing::Text { chat_id, text, html, link_preview, keyboard, reply_to } => OutgoingView::Text {
                chat_id: *chat_id,
                text: text@,
                html: *html,
                link_preview: *link_preview,
                keyboard: keyboard@.map_values(|b: Button| b@),
                reply_to: *reply_to,
            },
            Outgoing::Media { chat_id, kind, file_id, caption, html, reply_to } => OutgoingView::Media {
                chat_id: *chat_id,
                kind: *kind,
                file_id: file_id@,
                caption: opt_text(*caption),
                html: *html,
                reply_to: *reply_to,
            },
            Outgoing::Album { chat_id, items } => OutgoingView::Album {
                chat_id: *chat_id,
                items: items@.map_values(|i: AlbumItem| i@),
            },
            Outgoing::AnswerCallback { callback_id, text } => OutgoingView::AnswerCallback {
                callback_id: callback_id@,
                text: text@,
            },
            Outgoing::DeleteMessage { chat_id, message_id } => OutgoingView::DeleteMessage {
                chat_id: *chat_id,
                message_id: *message_id,
            },
        }
    }
}

/// One step of a handler's outcome, carried out in order.
/// `Send` performs the request; when it fails and is `required`, the steps
/// after it are dropped, otherwise the failure is ignored.
/// `Moderation` performs its requests in order; at the first failure it
/// stops and sends the localized failure notice (with the error's text) to
/// the chat instead, which is required.
/// `SetUserState` and `ClearUserState` apply the store operations of the
/// same names.
#[derive(Debug)]
pub enum Effect {
    Send { request: Outgoing, required: bool },
    Moderation { chat_id: i64, requests: Vec<Outgoing>, lang: Locale },
    SetUserState { user_id: i64, state: String, target_id: i64 },
    ClearUserState { user_id: i64 },
}

/// An [`Effect`] as texts.
pub enum EffectView {
    Send { request: OutgoingView, required: bool },
    Moderation { chat_id: i64, requests: Seq<OutgoingView>, lang: Locale },
    SetUserState { user_id: i64, state: Seq<char>, target_id: i64 },
    ClearUserState { user_id: i64 },
}

impl View for Effect {
    type V = EffectView;

    open spec fn view(&self) -> EffectView {
        match self {
            Effect::Send { request, required } => EffectView::Send {
                request: request@,
                required: *required,
            },
            Effect::Moderation { chat_id, requests, lang } => EffectView::Moderation {
                chat_id: *chat_id,
                requests: requests@.map_values(|o: Outgoing| o@),
                lang: *lang,
            },
            Effect::SetUserState { user_id, state, target_id } => EffectView::SetUserState {
                user_id: *user_id,
                state: state@,
                target_id: *target_id,
            },
            Effect::ClearUserState { user_id } => EffectView::ClearUserState { user_id: *user_id },
        }
    }
}

/// The views of a list of effects.
pub open spec fn effect_views(v: Seq<Effect>) -> Seq<EffectView> {
    v.map_values(|e: Effect| e@)
}

/// A plain text message to `chat_id`, without markup, keyboard or reply.
pub open spec fn plain_text(chat_id: i64, text: Seq<char>, required: bool) -> EffectView {
    EffectView::Send {
        request: OutgoingView::Text {
            chat_id: chat_id,
            text: text,
            html: false,
            link_preview: true,
            keyboard: Seq::empty(),
            reply_to: None,
        },
        required: required,
    }
}

/// A plain text message to `chat_id` with an inline keyboard.
pub open spec fn keyboard_text(chat_id: i64, text: Seq<char>, keyboard: Seq<ButtonView>) -> EffectView {
    EffectView::Send {
        request: OutgoingView::Text {
            chat_id: chat_id,
            text: text,
            html: false,
            link_preview: true,
            keyboard: keyboard,
            reply_to: None,
        },
        required: true,
    }
}

/// The (required) answer to callback query `callback_id`.
pub open spec fn answer(callback_id: Seq<char>, text: Seq<char>) -> EffectView {
    EffectView::Send {
        request: OutgoingView::AnswerCallback { callback_id: callback_id, text: text },
        required: true,
    }
}

/// Builds a plain text message.
pub fn send_text(chat_id: i64, text: String, required: bool) -> (e: Effect)
    ensures
        e@ == plain_text(chat_id, text@, required),
{
    let e = Effect::Send {
        request: Outgoing::Text {
            chat_id,
            text,
            html: false,
            link_preview: true,
            keyboard: Vec::new(),
            reply_to: None,
        },
        required,
    };
    proof {
        let k: Seq<Button> = Seq::empty();
        assert(k.map_values(|b: Button| b@) =~= Seq::<ButtonView>::empty());
    }
    e
}

/// Builds a plain text message with an inline keyboard.
pub fn send_keyboard(chat_id: i64, text: String, keyboard: Vec<Button>) -> (e: Effect)
    ensures
        e@ == keyboard_text(chat_id, text@, keyboard@.map_values(|b: Button| b@)),
{
    Effect::Send {
        request: Outgoing::Text {
            chat_id,
            text,
            html: false,
            link_preview: true,
            keyboard,
            reply_to: None,
        },
        required: true,
    }
}

/// Builds the answer to a callback query.
pub fn answer_callback(callback_id: String, text: String) -> (e: Effect)
    ensures
        e@ == answer(callback_id@, text@),
{
    Effect::Send { request: Outgoing::AnswerCallback { callback_id, text }, required: true }
}

} // verus!
