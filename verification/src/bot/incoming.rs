//! Incoming updates as plain values: the parts of a Telegram message or
//! callback query that the handlers read.

use vstd::prelude::*;

verus! {

/// An attached document: its file id and, if known, its file name.
#[derive(Debug)]
pub struct DocumentInfo {
    pub file_id: String,
    pub file_name: Option<String>,
}

/// An attached audio file: its file id and, if known, its title.
#[derive(Debug)]
pub struct AudioInfo {
    pub file_id: String,
    pub title: Option<String>,
}

/// An incoming message. `chat_is_group` is set for groups and supergroups;
/// `from_id` is the sender, when known. `photo` holds the file ids of the
/// photo's sizes, smallest first, when the message is a photo; `video`,
/// `voice`, `sticker` and `video_note` hold file ids.
#[derive(Debug)]
pub struct IncomingMessage {
    pub message_id: i32,
    pub chat_id: i64,
    pub chat_is_group: bool,
    pub from_id: Option<i64>,
    pub text: Option<String>,
    pub caption: Option<String>,
    pub media_group_id: Option<String>,
    pub photo: Option<Vec<String>>,
    pub document: Option<DocumentInfo>,
    pub video: Option<String>,
    pub audio: Option<AudioInfo>,
    pub voice: Option<String>,
    pub sticker: Option<String>,
    pub video_note: Option<String>,
}

/// An incoming callback query: its id, who pressed the button, the chat and
/// message the button belongs to (when that message is accessible), and the
/// button's data.
#[derive(Debug)]
pub struct IncomingCallback {
    pub id: String,
    pub from_id: i64,
    pub message: Option<(i64, i32)>,
    pub data: Option<String>,
}

} // verus!
