//! Rows of the bot's store and their mathematical views.

use vstd::prelude::*;

verus! {

/// The text held by an optional string, if any.
pub open spec fn opt_text(o: Option<String>) -> Option<Seq<char>> {
    match o {
        Some(s) => Some(s@),
        None => None,
    }
}

/// The view of an optional value.
pub open spec fn opt_view<T: View>(o: Option<T>) -> Option<T::V> {
    match o {
        Some(t) => Some(t@),
        None => None,
    }
}

/// Copies an optional string.
pub fn clone_opt_string(o: &Option<String>) -> (r: Option<String>)
    ensures
        r == *o,
{
    match o {
        Some(s) => Some(s.clone()),
        None => None,
    }
}

/// A stored submission item. `created_at` is the moment of saving in
/// microseconds since the Unix epoch (UTC).
#[derive(Debug)]
pub struct Message {
    pub id: i64,
    pub chat_id: i64,
    pub telegram_message_id: i32,
    pub sender_id: i64,
    pub message_text: String,
    pub media_type: String,
    pub media_file_id: String,
    pub media_group_id: Option<String>,
    pub proposal_group_id: String,
    pub created_at: i64,
    pub status: String,
    pub channel_id: i64,
    pub parent_message_id: Option<i64>,
    pub channel_message_id: Option<i32>,
}

/// A [`Message`] with its texts as character sequences.
pub struct MessageView {
    pub id: i64,
    pub chat_id: i64,
    pub telegram_message_id: i32,
    pub sender_id: i64,
    pub message_text: Seq<char>,
    pub media_type: Seq<char>,
    pub media_file_id: Seq<char>,
    pub media_group_id: Option<Seq<char>>,
    pub proposal_group_id: Seq<char>,
    pub created_at: i64,
    pub status: Seq<char>,
    pub channel_id: i64,
    pub parent_message_id: Option<i64>,
    pub channel_message_id: Option<i32>,
}

impl View for Message {
    type V = MessageView;

    open spec fn view(&self) -> MessageView {
        MessageView {
            id: self.id,
            chat_id: self.chat_id,
            telegram_message_id: self.telegram_message_id,
            sender_id: self.sender_id,
            message_text: self.message_text@,
            media_type: self.media_type@,
            media_file_id: self.media_file_id@,
            media_group_id: opt_text(self.media_group_id),
            proposal_group_id: self.proposal_group_id@,
            created_at: self.created_at,
            status: self.status@,
            channel_id: self.channel_id,
            parent_message_id: self.parent_message_id,
            channel_message_id: self.channel_message_id,
        }
    }
}

impl Clone for Message {
    fn clone(&self) -> (r: Self)
        ensures
            r == *self,
    {
        Message {
            id: self.id,
            chat_id: self.chat_id,
            telegram_message_id: self.telegram_message_id,
            sender_id: self.sender_id,
            message_text: self.message_text.clone(),
            media_type: self.media_type.clone(),
            media_file_id: self.media_file_id.clone(),
            media_group_id: clone_opt_string(&self.media_group_id),
            proposal_group_id: self.proposal_group_id.clone(),
            created_at: self.created_at,
            status: self.status.clone(),
            channel_id: self.channel_id,
            parent_message_id: self.parent_message_id,
            channel_message_id: self.channel_message_id,
        }
    }
}

/// A moderator.
#[derive(Debug)]
pub struct Admin {
    pub id: i64,
    pub user_id: i64,
    pub user_name: String,
}

/// An [`Admin`] with its name as a character sequence.
pub struct AdminView {
    pub id: i64,
    pub user_id: i64,
    pub user_name: Seq<char>,
}

impl View for Admin {
    type V = AdminView;

    open spec fn view(&self) -> AdminView {
        AdminView { id: self.id, user_id: self.user_id, user_name: self.user_name@ }
    }
}

impl Clone for Admin {
    fn clone(&self) -> (r: Self)
        ensures
            r == *self,
    {
        Admin { id: self.id, user_id: self.user_id, user_name: self.user_name.clone() }
    }
}

/// The record of a ban, with its appeal code. `created_at` is in
/// microseconds since the Unix epoch (UTC).
#[derive(Debug)]
pub struct BanRecord {
    pub id: i64,
    pub ban_id: String,
    pub user_id: i64,
    pub reason: String,
    pub created_at: i64,
    pub active: bool,
}

/// A [`BanRecord`] with its texts as character sequences.
pub struct BanRecordView {
    pub id: i64,
    pub ban_id: Seq<char>,
    pub user_id: i64,
    pub reason: Seq<char>,
    pub created_at: i64,
    pub active: bool,
}

impl View for BanRecord {
    type V = BanRecordView;

    open spec fn view(&self) -> BanRecordView {
        BanRecordView {
            id: self.id,
            ban_id: self.ban_id@,
            user_id: self.user_id,
            reason: self.reason@,
            created_at: self.created_at,
            active: self.active,
        }
    }
}

impl Clone for BanRecord {
    fn clone(&self) -> (r: Self)
        ensures
            r == *self,
    {
        BanRecord {
            id: self.id,
            ban_id: self.ban_id.clone(),
            user_id: self.user_id,
            reason: self.reason.clone(),
            created_at: self.created_at,
            active: self.active,
        }
    }
}

/// What the bot waits for from a user: `state` names the dialogue step
/// (`reply_mode`, `reason`, `ban_reason` or `none`), `temp_target_id` its subject.
#[derive(Debug)]
pub struct UserState {
    pub user_id: i64,
    pub state: String,
    pub temp_target_id: i64,
}

/// A [`UserState`] with its step name as a character sequence.
pub struct UserStateView {
    pub user_id: i64,
    pub state: Seq<char>,
    pub temp_target_id: i64,
}

impl View for UserState {
    type V = UserStateView;

    open spec fn view(&self) -> UserStateView {
        UserStateView { user_id: self.user_id, state: self.state@, temp_target_id: self.temp_target_id }
    }
}

impl Clone for UserState {
    fn clone(&self) -> (r: Self)
        ensures
            r == *self,
    {
        UserState {
            user_id: self.user_id,
            state: self.state.clone(),
            temp_target_id: self.temp_target_id,
        }
    }
}

/// A proposal groups one or more messages belonging to the same logical submission.
/// For single messages, the group has one item. For media groups, all items share
/// the same `proposal_group_id` (derived from Telegram's `media_group_id`).
#[derive(Debug)]
pub struct Proposal {
    pub group_id: String,
    pub messages: Vec<Message>,
}

/// A [`Proposal`] as a group key and the views of its items.
pub struct ProposalView {
    pub group_id: Seq<char>,
    pub messages: Seq<MessageView>,
}

impl View for Proposal {
    type V = ProposalView;

    open spec fn view(&self) -> ProposalView {
        ProposalView {
            group_id: self.group_id@,
            messages: self.messages@.map_values(|m: Message| m@),
        }
    }
}

impl Proposal {
    /// The first item of the proposal.
    pub fn first(&self) -> (r: &Message)
        requires
            self.messages@.len() > 0,
        ensures
            *r == self.messages@[0],
    {
        &self.messages[0]
    }
}

/// The fields of a message row that the caller supplies when saving.
#[derive(Debug)]
pub struct NewMessage {
    pub chat_id: i64,
    pub telegram_message_id: i32,
    pub sender_id: i64,
    pub message_text: String,
    pub media_type: String,
    pub media_file_id: String,
    pub media_group_id: Option<String>,
    pub proposal_group_id: String,
    pub channel_id: i64,
    pub parent_message_id: Option<i64>,
}

impl Clone for NewMessage {
    fn clone(&self) -> (r: Self)
        ensures
            r == *self,
    {
        NewMessage {
            chat_id: self.chat_id,
            telegram_message_id: self.telegram_message_id,
            sender_id: self.sender_id,
            message_text: self.message_text.clone(),
            media_type: self.media_type.clone(),
            media_file_id: self.media_file_id.clone(),
            media_group_id: clone_opt_string(&self.media_group_id),
            proposal_group_id: self.proposal_group_id.clone(),
            channel_id: self.channel_id,
            parent_message_id: self.parent_message_id,
        }
    }
}

} // verus!
