//! The store: messages, moderators, bans and dialogue states, kept in
//! memory with the semantics of the bot's SQL tables (unique keys,
//! insert-or-ignore, upserts, ids that only grow).

use vstd::prelude::*;
use vstd::string::*;

use crate::clock::{format_minute, now_micros, valid_moment};
use crate::db::models::{
    clone_opt_string, opt_text, opt_view, Admin, AdminView, BanRecord, BanRecordView, Message, MessageView, NewMessage, Proposal,
    ProposalView, UserState, UserStateView,
};
use crate::locales::{Locale, locale_code, parse_locale};
use crate::seq_facts::{
    first_match, lemma_filter_keeps_order, lemma_filter_member, lemma_filter_take_step,
    lemma_first_match_at, lemma_first_match_none,
};
use crate::text::str_equal;
use crate::uid::{ban_code, generate_ban_id, is_appeal_code, lemma_spare_codes_distinct, spare_ban_id, spare_code_bytes};

verus! {

/// Why a store operation failed: every id of a table has been handed out,
/// or the appeal code of a new ban is already held by an active ban.
#[derive(Debug, Clone, Copy, PartialEq, Eq, Structural)]
pub enum DbError {
    IdsExhausted,
    AppealCodeTaken,
}

/// The whole store as mathematical values. The `last_*` fields hold the
/// largest id a table ever handed out (ids are never reused).
pub struct DbView {
    pub language: Option<Seq<char>>,
    pub messages: Seq<MessageView>,
    pub last_message_id: i64,
    pub admins: Seq<AdminView>,
    pub last_admin_id: i64,
    pub banned: Seq<i64>,
    pub ban_records: Seq<BanRecordView>,
    pub last_ban_record_id: i64,
    pub user_states: Seq<UserStateView>,
}

/// Views of a vector of messages.
pub open spec fn message_views(v: Seq<Message>) -> Seq<MessageView> {
    v.map_values(|m: Message| m@)
}

/// Views of a vector of admins.
pub open spec fn admin_views(v: Seq<Admin>) -> Seq<AdminView> {
    v.map_values(|a: Admin| a@)
}

/// Views of a vector of ban records.
pub open spec fn ban_record_views(v: Seq<BanRecord>) -> Seq<BanRecordView> {
    v.map_values(|r: BanRecord| r@)
}

/// Views of a vector of dialogue states.
pub open spec fn user_state_views(v: Seq<UserState>) -> Seq<UserStateView> {
    v.map_values(|s: UserState| s@)
}

/// The status text of a message that waits for moderation.
pub open spec fn pending_status() -> Seq<char> {
    "pending"@
}

/// The dialogue step of a user from whom nothing is awaited.
pub open spec fn idle_state() -> Seq<char> {
    "none"@
}

/// The row that saving `msg` at moment `now` under id `id` stores: pending,
/// and not yet published.
pub open spec fn stored_message(msg: NewMessage, id: i64, now: i64) -> MessageView {
    MessageView {
        id: id,
        chat_id: msg.chat_id,
        telegram_message_id: msg.telegram_message_id,
        sender_id: msg.sender_id,
        message_text: msg.message_text@,
        media_type: msg.media_type@,
        media_file_id: msg.media_file_id@,
        media_group_id: opt_text(msg.media_group_id),
        proposal_group_id: msg.proposal_group_id@,
        created_at: now,
        status: pending_status(),
        channel_id: msg.channel_id,
        parent_message_id: msg.parent_message_id,
        channel_message_id: None,
    }
}

/// `m` with its status set to `status` when it belongs to group `gid`.
pub open spec fn with_group_status(m: MessageView, gid: Seq<char>, status: Seq<char>) -> MessageView {
    if m.proposal_group_id == gid {
        MessageView { status: status, ..m }
    } else {
        m
    }
}

/// `m` with its channel post id set to `cmid` when it belongs to group `gid`.
pub open spec fn with_group_channel_id(m: MessageView, gid: Seq<char>, cmid: i32) -> MessageView {
    if m.proposal_group_id == gid {
        MessageView { channel_message_id: Some(cmid), ..m }
    } else {
        m
    }
}

/// `s` with the dialogue state of `user_id` replaced by `v`.
pub open spec fn with_user_state(s: UserStateView, user_id: i64, v: UserStateView) -> UserStateView {
    if s.user_id == user_id {
        v
    } else {
        s
    }
}

/// `r` deactivated when its appeal code is `ban_id`.
pub open spec fn with_ban_lifted(r: BanRecordView, ban_id: Seq<char>) -> BanRecordView {
    if r.ban_id == ban_id {
        BanRecordView { active: false, ..r }
    } else {
        r
    }
}

/// Everyone but `user_id`.
pub open spec fn other_user(user_id: i64) -> spec_fn(i64) -> bool {
    |u: i64| u != user_id
}

/// `a` comes no later than `b` in the moderation queue: earlier creation,
/// and on equal moments the smaller id.
pub open spec fn queued_before(a: MessageView, b: MessageView) -> bool {
    a.created_at < b.created_at || (a.created_at == b.created_at && a.id <= b.id)
}

/// `a` is listed before `b` among active bans: newer first, and on equal
/// moments the larger id first.
pub open spec fn listed_before(a: BanRecordView, b: BanRecordView) -> bool {
    a.created_at > b.created_at || (a.created_at == b.created_at && a.id > b.id)
}

/// Message rows: ids grow along the table and stay within `last`, moments
/// are valid, and no Telegram message is stored twice.
pub open spec fn messages_wf(ms: Seq<MessageView>, last: i64) -> bool {
    &&& forall|i: int, j: int| 0 <= i < j < ms.len() ==> #[trigger] ms[i].id < #[trigger] ms[j].id
    &&& forall|i: int| 0 <= i < ms.len() ==> 0 < #[trigger] ms[i].id <= last
    &&& forall|i: int| 0 <= i < ms.len() ==> valid_moment(#[trigger] ms[i].created_at)
    &&& forall|i: int, j: int|
        0 <= i < j < ms.len() ==> !(#[trigger] ms[i].chat_id == #[trigger] ms[j].chat_id
            && ms[i].telegram_message_id == ms[j].telegram_message_id)
}

/// Admin rows: ids grow and stay within `last`; no user twice.
pub open spec fn admins_wf(ms: Seq<AdminView>, last: i64) -> bool {
    &&& forall|i: int, j: int| 0 <= i < j < ms.len() ==> #[trigger] ms[i].id < #[trigger] ms[j].id
    &&& forall|i: int| 0 <= i < ms.len() ==> 0 < #[trigger] ms[i].id <= last
    &&& forall|i: int, j: int| 0 <= i < j < ms.len() ==> #[trigger] ms[i].user_id != #[trigger] ms[j].user_id
}

/// Banned users: no user twice.
pub open spec fn banned_wf(b: Seq<i64>) -> bool {
    forall|i: int, j: int| 0 <= i < j < b.len() ==> #[trigger] b[i] != #[trigger] b[j]
}

/// Ban records: ids grow and stay within `last`; moments are valid.
pub open spec fn ban_records_wf(ms: Seq<BanRecordView>, last: i64) -> bool {
    &&& forall|i: int, j: int| 0 <= i < j < ms.len() ==> #[trigger] ms[i].id < #[trigger] ms[j].id
    &&& forall|i: int| 0 <= i < ms.len() ==> 0 < #[trigger] ms[i].id <= last
    &&& forall|i: int| 0 <= i < ms.len() ==> valid_moment(#[trigger] ms[i].created_at)
}

/// No two active ban records share an appeal code, so a code names one ban.
pub open spec fn active_codes_distinct(ms: Seq<BanRecordView>) -> bool {
    forall|i: int, j: int|
        0 <= i < j < ms.len() && #[trigger] ms[i].active && #[trigger] ms[j].active ==> ms[i].ban_id
            != ms[j].ban_id
}

/// Dialogue states: at most one per user.
pub open spec fn user_states_wf(ms: Seq<UserStateView>) -> bool {
    forall|i: int, j: int| 0 <= i < j < ms.len() ==> #[trigger] ms[i].user_id != #[trigger] ms[j].user_id
}

impl DbView {
    /// The invariant of the store: ids grow along each table and stay within
    /// the last id handed out; keys are unique (active appeal codes among
    /// them); stored moments are valid.
    pub open spec fn wf(self) -> bool {
        &&& 0 <= self.last_message_id
        &&& 0 <= self.last_admin_id
        &&& 0 <= self.last_ban_record_id
        &&& messages_wf(self.messages, self.last_message_id)
        &&& admins_wf(self.admins, self.last_admin_id)
        &&& banned_wf(self.banned)
        &&& ban_records_wf(self.ban_records, self.last_ban_record_id)
        &&& active_codes_distinct(self.ban_records)
        &&& user_states_wf(self.user_states)
    }

    /// The language the bot speaks: the stored setting when it names one, else English.
    pub open spec fn language_setting(self) -> Locale {
        match self.language {
            Some(v) => match parse_locale(v) {
                Some(l) => l,
                None => Locale::En,
            },
            None => Locale::En,
        }
    }

    /// A message of chat `chat_id` with Telegram id `tg_id` is stored.
    pub open spec fn has_message(self, chat_id: i64, tg_id: i32) -> bool {
        exists|i: int|
            0 <= i < self.messages.len() && #[trigger] self.messages[i].chat_id == chat_id
                && self.messages[i].telegram_message_id == tg_id
    }

    /// The stored message with id `id`, if any.
    pub open spec fn message_by_id(self, id: i64) -> Option<MessageView> {
        first_match(self.messages, |m: MessageView| m.id == id)
    }

    /// The stored items of proposal group `gid`, by id.
    pub open spec fn group_messages(self, gid: Seq<char>) -> Seq<MessageView> {
        self.messages.filter(|m: MessageView| m.proposal_group_id == gid)
    }

    /// The proposal made of group `gid`, when it has items.
    pub open spec fn proposal_of(self, gid: Seq<char>) -> Option<ProposalView> {
        if self.group_messages(gid).len() > 0 {
            Some(ProposalView { group_id: gid, messages: self.group_messages(gid) })
        } else {
            None
        }
    }

    /// Some stored message waits for moderation.
    pub open spec fn has_pending(self) -> bool {
        exists|i: int|
            0 <= i < self.messages.len() && #[trigger] self.messages[i].status == pending_status()
    }

    /// Item `k` is the head of the moderation queue: pending, and queued
    /// before every other pending item.
    pub open spec fn is_queue_head(self, k: int) -> bool {
        &&& 0 <= k < self.messages.len()
        &&& self.messages[k].status == pending_status()
        &&& forall|j: int|
            0 <= j < self.messages.len() && #[trigger] self.messages[j].status == pending_status()
                ==> queued_before(self.messages[k], self.messages[j])
    }

    /// The group of the head of the moderation queue, if anything is pending.
    pub open spec fn next_pending_group(self) -> Option<Seq<char>> {
        if exists|k: int| self.is_queue_head(k) {
            Some(self.messages[choose|k: int| self.is_queue_head(k)].proposal_group_id)
        } else {
            None
        }
    }

    /// `user_id` is a moderator on record.
    pub open spec fn is_admin(self, user_id: i64) -> bool {
        exists|i: int| 0 <= i < self.admins.len() && #[trigger] self.admins[i].user_id == user_id
    }

    /// `user_id` is banned.
    pub open spec fn is_banned(self, user_id: i64) -> bool {
        self.banned.contains(user_id)
    }

    /// The first active ban record with appeal code `ban_id`, if any.
    pub open spec fn active_ban_record(self, ban_id: Seq<char>) -> Option<BanRecordView> {
        first_match(self.ban_records, |r: BanRecordView| r.active && r.ban_id == ban_id)
    }

    /// Some active ban holds a code of the form of an appeal code, so a
    /// freshly drawn code might be taken.
    pub open spec fn holds_active_appeal_code(self) -> bool {
        exists|i: int|
            0 <= i < self.ban_records.len() && #[trigger] self.ban_records[i].active && is_appeal_code(
                self.ban_records[i].ban_id,
            )
    }

    /// How many bans are active.
    pub open spec fn active_ban_count(self) -> nat {
        self.ban_records.filter(|r: BanRecordView| r.active).len()
    }

    /// The dialogue state stored for `user_id`, if any.
    pub open spec fn user_state(self, user_id: i64) -> Option<UserStateView> {
        first_match(self.user_states, |s: UserStateView| s.user_id == user_id)
    }

    /// `s` lists exactly the active ban records, newest first.
    pub open spec fn is_ban_listing(self, s: Seq<BanRecordView>) -> bool {
        &&& forall|i: int| 0 <= i < s.len() ==> #[trigger] self.ban_records.contains(s[i]) && s[i].active
        &&& forall|k: int|
            0 <= k < self.ban_records.len() && #[trigger] self.ban_records[k].active ==> s.contains(
                self.ban_records[k],
            )
        &&& forall|i: int, j: int| 0 <= i < j < s.len() ==> listed_before(#[trigger] s[i], #[trigger] s[j])
    }

    /// The active ban records, newest first (on equal moments, the larger id first).
    pub open spec fn ban_listing(self) -> Seq<BanRecordView> {
        choose|s: Seq<BanRecordView>| self.is_ban_listing(s)
    }

    /// The store with the language setting `lang`.
    pub open spec fn language_effect(self, lang: Locale) -> DbView {
        DbView { language: Some(locale_code(lang)), ..self }
    }

    /// The store with `msg` saved as a new pending row created at `now`.
    pub open spec fn save_effect(self, msg: NewMessage, now: i64) -> DbView {
        DbView {
            messages: self.messages.push(stored_message(msg, (self.last_message_id + 1) as i64, now)),
            last_message_id: (self.last_message_id + 1) as i64,
            ..self
        }
    }

    /// The store with the items of group `gid` set to status `status`.
    pub open spec fn status_effect(self, gid: Seq<char>, status: Seq<char>) -> DbView {
        DbView {
            messages: self.messages.map_values(|m: MessageView| with_group_status(m, gid, status)),
            ..self
        }
    }

    /// The store with the items of group `gid` linked to channel post `cmid`.
    pub open spec fn channel_effect(self, gid: Seq<char>, cmid: i32) -> DbView {
        DbView {
            messages: self.messages.map_values(|m: MessageView| with_group_channel_id(m, gid, cmid)),
            ..self
        }
    }

    /// The store without the items of group `gid`.
    pub open spec fn delete_effect(self, gid: Seq<char>) -> DbView {
        DbView {
            messages: self.messages.filter(|m: MessageView| m.proposal_group_id != gid),
            ..self
        }
    }

    /// The store with moderator `user_id` named `name` added under the next id.
    pub open spec fn add_admin_effect(self, user_id: i64, name: Seq<char>) -> DbView {
        DbView {
            admins: self.admins.push(
                AdminView { id: (self.last_admin_id + 1) as i64, user_id: user_id, user_name: name },
            ),
            last_admin_id: (self.last_admin_id + 1) as i64,
            ..self
        }
    }

    /// The store without moderator `user_id`.
    pub open spec fn remove_admin_effect(self, user_id: i64) -> DbView {
        DbView { admins: self.admins.filter(|a: AdminView| a.user_id != user_id), ..self }
    }

    /// The store with `user_id` banned.
    pub open spec fn ban_effect(self, user_id: i64) -> DbView {
        DbView {
            banned: if self.banned.contains(user_id) {
                self.banned
            } else {
                self.banned.push(user_id)
            },
            ..self
        }
    }

    /// The store with the ban of `user_id` lifted.
    pub open spec fn pardon_effect(self, user_id: i64) -> DbView {
        DbView { banned: self.banned.filter(other_user(user_id)), ..self }
    }

    /// The store with an active ban record of `user_id` for `reason` under
    /// appeal code `ban_id`, created at `now`, under the next id.
    pub open spec fn record_effect(self, user_id: i64, reason: Seq<char>, ban_id: Seq<char>, now: i64) -> DbView {
        DbView {
            ban_records: self.ban_records.push(
                BanRecordView {
                    id: (self.last_ban_record_id + 1) as i64,
                    ban_id: ban_id,
                    user_id: user_id,
                    reason: reason,
                    created_at: now,
                    active: true,
                },
            ),
            last_ban_record_id: (self.last_ban_record_id + 1) as i64,
            ..self
        }
    }

    /// The store with every ban record under appeal code `ban_id` inactive.
    pub open spec fn lift_effect(self, ban_id: Seq<char>) -> DbView {
        DbView {
            ban_records: self.ban_records.map_values(|r: BanRecordView| with_ban_lifted(r, ban_id)),
            ..self
        }
    }

    /// The store with every stored state of `user_id` replaced by step `state`, subject `target`.
    pub open spec fn replace_state_effect(self, user_id: i64, state: Seq<char>, target: i64) -> DbView {
        DbView {
            user_states: self.user_states.map_values(
                |s: UserStateView| with_user_state(
                    s,
                    user_id,
                    UserStateView { user_id: user_id, state: state, temp_target_id: target },
                ),
            ),
            ..self
        }
    }

    /// The store with the state of `user_id` set to step `state`, subject
    /// `target`: replaced when one is stored, added otherwise.
    pub open spec fn set_state_effect(self, user_id: i64, state: Seq<char>, target: i64) -> DbView {
        if self.user_state(user_id) is Some {
            self.replace_state_effect(user_id, state, target)
        } else {
            DbView {
                user_states: self.user_states.push(
                    UserStateView { user_id: user_id, state: state, temp_target_id: target },
                ),
                ..self
            }
        }
    }

    /// The store with the stored state of `user_id`, if any, reset to `none` and 0.
    pub open spec fn clear_state_effect(self, user_id: i64) -> DbView {
        self.replace_state_effect(user_id, idle_state(), 0)
    }
}

/// When the first `m` spare appeal codes are all held by active bans, at
/// least `m` bans are active (the codes are distinct).
proof fn lemma_spare_codes_all_taken(db: DbView, m: int)
    requires
        0 <= m <= 0x1000000,
        forall|k: int| 0 <= k < m ==> #[trigger] db.active_ban_record(ban_code(spare_code_bytes(k))) is Some,
    ensures
        db.active_ban_count() >= m,
{
    broadcast use vstd::seq_lib::seq_to_set_is_finite;
    let cand = Seq::new(m as nat, |k: int| ban_code(spare_code_bytes(k)));
    assert forall|a: int, b: int| 0 <= a < cand.len() && 0 <= b < cand.len() && a != b implies cand[a]
        != cand[b] by {
        lemma_spare_codes_distinct(a, b);
    }
    assert(cand.no_duplicates());
    cand.unique_seq_to_set();
    let is_active = |r: BanRecordView| r.active;
    let act = db.ban_records.filter(is_active);
    let codes = act.map_values(|r: BanRecordView| r.ban_id);
    codes.lemma_cardinality_of_set();
    assert forall|c: Seq<char>| cand.to_set().contains(c) implies codes.to_set().contains(c) by {
        let k = choose|k: int| 0 <= k < cand.len() && cand[k] == c;
        assert(db.active_ban_record(ban_code(spare_code_bytes(k))) is Some);
        let p = |r: BanRecordView| r.active && r.ban_id == c;
        lemma_filter_member(db.ban_records, p, 0);
        let x = db.ban_records.filter(p)[0];
        let idx = choose|idx: int| 0 <= idx < db.ban_records.len() && db.ban_records[idx] == x;
        db.ban_records.lemma_filter_contains(is_active, idx);
        let ai = choose|ai: int| 0 <= ai < act.len() && act[ai] == x;
        assert(codes[ai] == c);
    }
    vstd::set_lib::lemma_len_subset(cand.to_set(), codes.to_set());
}

/// The bot's store.
pub struct Database {
    language: Option<String>,
    messages: Vec<Message>,
    last_message_id: i64,
    admins: Vec<Admin>,
    last_admin_id: i64,
    banned: Vec<i64>,
    ban_records: Vec<BanRecord>,
    last_ban_record_id: i64,
    user_states: Vec<UserState>,
}

impl View for Database {
    type V = DbView;

    closed spec fn view(&self) -> DbView {
        DbView {
            language: opt_text(self.language),
            messages: message_views(self.messages@),
            last_message_id: self.last_message_id,
            admins: admin_views(self.admins@),
            last_admin_id: self.last_admin_id,
            banned: self.banned@,
            ban_records: ban_record_views(self.ban_records@),
            last_ban_record_id: self.last_ban_record_id,
            user_states: user_state_views(self.user_states@),
        }
    }
}

impl Database {
    /// An empty store.
    pub fn new() -> (db: Database)
        ensures
            db@.wf(),
            db@.language is None,
            db@.messages.len() == 0,
            db@.last_message_id == 0,
            db@.admins.len() == 0,
            db@.last_admin_id == 0,
            db@.banned.len() == 0,
            db@.ban_records.len() == 0,
            db@.last_ban_record_id == 0,
            db@.user_states.len() == 0,
    {
        let db = Database {
            language: None,
            messages: Vec::new(),
            last_message_id: 0,
            admins: Vec::new(),
            last_admin_id: 0,
            banned: Vec::new(),
            ban_records: Vec::new(),
            last_ban_record_id: 0,
            user_states: Vec::new(),
        };
        proof {
            assert(db@.messages =~= Seq::<MessageView>::empty());
            assert(db@.admins =~= Seq::<AdminView>::empty());
            assert(db@.ban_records =~= Seq::<BanRecordView>::empty());
            assert(db@.user_states =~= Seq::<UserStateView>::empty());
        }
        db
    }

    // ── Settings / Language ───────────────────────────────────

    /// The language the bot speaks (English unless a valid one is set).
    pub fn get_language(&self) -> (l: Locale)
        ensures
            l == self@.language_setting(),
    {
        match &self.language {
            Some(v) => match Locale::parse(v.as_str()) {
                Some(l) => l,
                None => Locale::En,
            },
            None => Locale::En,
        }
    }

    /// Stores the language setting.
    pub fn set_language(&mut self, lang: Locale)
        requires
            old(self)@.wf(),
        ensures
            final(self)@.wf(),
            final(self)@ == old(self)@.language_effect(lang),
    {
        self.language = Some(String::from_str(lang.as_str()));
    }
}

impl Database {
    // ── Messages ──────────────────────────────────────────────

    /// Whether a message of chat `chat_id` with Telegram id `telegram_message_id` is stored.
    pub fn message_exists(&self, chat_id: i64, telegram_message_id: i32) -> (b: bool)
        ensures
            b == self@.has_message(chat_id, telegram_message_id),
    {
        let n = self.messages.len();
        let mut i: usize = 0;
        while i < n
            invariant
                n == self.messages@.len(),
                i <= n,
                forall|j: int|
                    0 <= j < i ==> !(#[trigger] self@.messages[j].chat_id == chat_id
                        && self@.messages[j].telegram_message_id == telegram_message_id),
            decreases n - i,
        {
            let m = &self.messages[i];
            if m.chat_id == chat_id && m.telegram_message_id == telegram_message_id {
                proof {
                    assert(self@.messages[i as int] == self.messages@[i as int]@);
                    assert(self@.messages[i as int].chat_id == chat_id);
                }
                return true;
            }
            i = i + 1;
        }
        false
    }

    /// Saves `msg` as a pending item created at `now`, unless a message with
    /// the same chat and Telegram id is stored already (then nothing changes
    /// and the answer is `false`). A new row takes the next id.
    pub fn save_message_at(&mut self, msg: &NewMessage, now: i64) -> (r: Result<bool, DbError>)
        requires
            old(self)@.wf(),
            valid_moment(now),
        ensures
            final(self)@.wf(),
            old(self)@.has_message(msg.chat_id, msg.telegram_message_id) ==> r == Ok::<bool, DbError>(false)
                && final(self)@ == old(self)@,
            !old(self)@.has_message(msg.chat_id, msg.telegram_message_id) && old(self)@.last_message_id
                == i64::MAX ==> r == Err::<bool, DbError>(DbError::IdsExhausted) && final(self)@
                == old(self)@,
            !old(self)@.has_message(msg.chat_id, msg.telegram_message_id) && old(self)@.last_message_id
                < i64::MAX ==> r == Ok::<bool, DbError>(true) && final(self)@ == old(self)@.save_effect(*msg, now),
    {
        if self.message_exists(msg.chat_id, msg.telegram_message_id) {
            return Ok(false);
        }
        if self.last_message_id == i64::MAX {
            return Err(DbError::IdsExhausted);
        }
        let id = self.last_message_id + 1;
        let row = Message {
            id: id,
            chat_id: msg.chat_id,
            telegram_message_id: msg.telegram_message_id,
            sender_id: msg.sender_id,
            message_text: msg.message_text.clone(),
            media_type: msg.media_type.clone(),
            media_file_id: msg.media_file_id.clone(),
            media_group_id: clone_opt_string(&msg.media_group_id),
            proposal_group_id: msg.proposal_group_id.clone(),
            created_at: now,
            status: String::from_str("pending"),
            channel_id: msg.channel_id,
            parent_message_id: msg.parent_message_id,
            channel_message_id: None,
        };
        let ghost old_db = self@;
        self.messages.push(row);
        self.last_message_id = id;
        proof {
            assert(message_views(self.messages@) =~= old_db.messages.push(
                stored_message(*msg, id, now),
            ));
            let v = self@;
            assert forall|i: int, j: int|
                0 <= i < j < v.messages.len() implies !(#[trigger] v.messages[i].chat_id
                == #[trigger] v.messages[j].chat_id && v.messages[i].telegram_message_id
                == v.messages[j].telegram_message_id) by {
                if j == v.messages.len() - 1 {
                    assert(v.messages[i] == old_db.messages[i]);
                }
            }
        }
        Ok(true)
    }

    /// Saves `msg` as a pending item stamped with the current time, unless a
    /// message with the same chat and Telegram id is stored already.
    pub fn save_message(&mut self, msg: &NewMessage) -> (r: Result<bool, DbError>)
        requires
            old(self)@.wf(),
        ensures
            final(self)@.wf(),
            old(self)@.has_message(msg.chat_id, msg.telegram_message_id) ==> r == Ok::<bool, DbError>(false)
                && final(self)@ == old(self)@,
            !old(self)@.has_message(msg.chat_id, msg.telegram_message_id) && old(self)@.last_message_id
                == i64::MAX ==> r == Err::<bool, DbError>(DbError::IdsExhausted) && final(self)@
                == old(self)@,
            !old(self)@.has_message(msg.chat_id, msg.telegram_message_id) && old(self)@.last_message_id
                < i64::MAX ==> r == Ok::<bool, DbError>(true) && exists|now: i64|
                valid_moment(now) && final(self)@ == old(self)@.save_effect(*msg, now),
    {
        let now = now_micros();
        self.save_message_at(msg, now)
    }

    /// The stored message with id `id`.
    pub fn get_message_by_id(&self, id: i64) -> (r: Option<Message>)
        ensures
            opt_view(r) == self@.message_by_id(id),
    {
        let n = self.messages.len();
        let mut i: usize = 0;
        let ghost p = |m: MessageView| m.id == id;
        while i < n
            invariant
                n == self.messages@.len(),
                n == self@.messages.len(),
                i <= n,
                p == (|m: MessageView| m.id == id),
                forall|j: int| 0 <= j < i ==> !p(#[trigger] self@.messages[j]),
            decreases n - i,
        {
            if self.messages[i].id == id {
                proof {
                    lemma_first_match_at(self@.messages, p, i as int);
                }
                return Some(self.messages[i].clone());
            }
            i = i + 1;
        }
        proof {
            lemma_first_match_none(self@.messages, p);
        }
        None
    }
}


impl Database {
    /// The proposal made of the stored items of group `group_id`, in id order;
    /// none when the group has no items.
    pub fn get_proposal_by_group_id(&self, group_id: &str) -> (r: Option<Proposal>)
        ensures
            opt_view(r) == self@.proposal_of(group_id@),
    {
        let n = self.messages.len();
        let ghost p = |m: MessageView| m.proposal_group_id == group_id@;
        let mut res: Vec<Message> = Vec::new();
        let mut i: usize = 0;
        while i < n
            invariant
                n == self.messages@.len(),
                n == self@.messages.len(),
                i <= n,
                p == (|m: MessageView| m.proposal_group_id == group_id@),
                message_views(res@) == self@.messages.take(i as int).filter(p),
            decreases n - i,
        {
            proof {
                lemma_filter_take_step(self@.messages, p, i as int);
            }
            if str_equal(self.messages[i].proposal_group_id.as_str(), group_id) {
                let m = self.messages[i].clone();
                let ghost before = res@;
                res.push(m);
                proof {
                    assert(message_views(res@) =~= message_views(before).push(m@));
                }
            }
            i = i + 1;
        }
        proof {
            assert(self@.messages.take(n as int) =~= self@.messages);
        }
        if res.len() == 0 {
            None
        } else {
            let r = Proposal { group_id: String::from_str(group_id), messages: res };
            Some(r)
        }
    }

    /// The oldest proposal that waits for moderation: the group of the
    /// pending item created first (the smaller id on equal moments), with all
    /// of that group's items.
    pub fn get_next_pending_proposal(&self) -> (r: Option<Proposal>)
        requires
            self@.wf(),
        ensures
            r is Some <==> self@.has_pending(),
            opt_view(r) == match self@.next_pending_group() {
                Some(g) => self@.proposal_of(g),
                None => None,
            },
    {
        let n = self.messages.len();
        let mut best: Option<usize> = None;
        let mut i: usize = 0;
        let ghost v = self@;
        while i < n
            invariant
                n == self.messages@.len(),
                n == v.messages.len(),
                v == self@,
                i <= n,
                best matches Some(b) ==> b < i && v.messages[b as int].status == pending_status()
                    && forall|j: int|
                    0 <= j < i && #[trigger] v.messages[j].status == pending_status()
                        ==> queued_before(v.messages[b as int], v.messages[j]),
                best is None ==> forall|j: int|
                    0 <= j < i ==> #[trigger] v.messages[j].status != pending_status(),
            decreases n - i,
        {
            let m = &self.messages[i];
            proof {
                assert(v.messages[i as int] == m@);
            }
            if str_equal(m.status.as_str(), "pending") {
                match best {
                    None => {
                        best = Some(i);
                    },
                    Some(b) => {
                        let c = &self.messages[b];
                        proof {
                            assert(v.messages[b as int] == c@);
                        }
                        if m.created_at < c.created_at || (m.created_at == c.created_at && m.id
                            < c.id) {
                            best = Some(i);
                        }
                    },
                }
            }
            i = i + 1;
        }
        match best {
            None => {
                proof {
                    assert(!v.has_pending());
                    assert(!exists|k: int| v.is_queue_head(k));
                }
                None
            },
            Some(b) => {
                proof {
                    assert(v.is_queue_head(b as int));
                    assert(v.has_pending());
                    let k = choose|k: int| v.is_queue_head(k);
                    assert(queued_before(v.messages[k], v.messages[b as int]));
                    assert(queued_before(v.messages[b as int], v.messages[k]));
                    if k < b {
                        assert(v.messages[k].id < v.messages[b as int].id);
                    } else if b < k {
                        assert(v.messages[b as int].id < v.messages[k].id);
                    }
                    assert(k == b);
                    let p = |m: MessageView| m.proposal_group_id == v.messages[b as int].proposal_group_id;
                    v.messages.lemma_filter_contains(p, b as int);
                }
                self.get_proposal_by_group_id(self.messages[b].proposal_group_id.as_str())
            },
        }
    }

    /// Sets the status of every item of group `group_id` to `status`.
    pub fn update_proposal_status(&mut self, group_id: &str, status: &str)
        requires
            old(self)@.wf(),
        ensures
            final(self)@.wf(),
            final(self)@ == old(self)@.status_effect(group_id@, status@),
    {
        let ghost old_db = self@;
        let ghost f = |m: MessageView| with_group_status(m, group_id@, status@);
        let n = self.messages.len();
        let mut out: Vec<Message> = Vec::new();
        let mut i: usize = 0;
        while i < n
            invariant
                n == self.messages@.len(),
                old_db == self@,
                n == old_db.messages.len(),
                i <= n,
                f == (|m: MessageView| with_group_status(m, group_id@, status@)),
                message_views(out@) == old_db.messages.take(i as int).map_values(f),
            decreases n - i,
        {
            let mut m = self.messages[i].clone();
            if str_equal(m.proposal_group_id.as_str(), group_id) {
                m.status = String::from_str(status);
            }
            let ghost before = out@;
            out.push(m);
            proof {
                assert(old_db.messages[i as int] == self.messages@[i as int]@);
                assert(old_db.messages.take(i + 1) =~= old_db.messages.take(i as int).push(
                    old_db.messages[i as int],
                ));
                assert(message_views(out@) =~= message_views(before).push(m@));
                assert(old_db.messages.take(i + 1).map_values(f) =~= old_db.messages.take(
                    i as int,
                ).map_values(f).push(f(old_db.messages[i as int])));
            }
            i = i + 1;
        }
        self.messages = out;
        proof {
            assert(old_db.messages.take(n as int) =~= old_db.messages);
            assert(self@.messages =~= old_db.messages.map_values(f));
        }
    }

    /// Sets the channel post id of every item of group `group_id` to `channel_message_id`.
    pub fn update_channel_message_id(&mut self, group_id: &str, channel_message_id: i32)
        requires
            old(self)@.wf(),
        ensures
            final(self)@.wf(),
            final(self)@ == old(self)@.channel_effect(group_id@, channel_message_id),
    {
        let ghost old_db = self@;
        let ghost f = |m: MessageView| with_group_channel_id(m, group_id@, channel_message_id);
        let n = self.messages.len();
        let mut out: Vec<Message> = Vec::new();
        let mut i: usize = 0;
        while i < n
            invariant
                n == self.messages@.len(),
                old_db == self@,
                n == old_db.messages.len(),
                i <= n,
                f == (|m: MessageView| with_group_channel_id(m, group_id@, channel_message_id)),
                message_views(out@) == old_db.messages.take(i as int).map_values(f),
            decreases n - i,
        {
            let mut m = self.messages[i].clone();
            if str_equal(m.proposal_group_id.as_str(), group_id) {
                m.channel_message_id = Some(channel_message_id);
            }
            let ghost before = out@;
            out.push(m);
            proof {
                assert(old_db.messages[i as int] == self.messages@[i as int]@);
                assert(old_db.messages.take(i + 1) =~= old_db.messages.take(i as int).push(
                    old_db.messages[i as int],
                ));
                assert(message_views(out@) =~= message_views(before).push(m@));
                assert(old_db.messages.take(i + 1).map_values(f) =~= old_db.messages.take(
                    i as int,
                ).map_values(f).push(f(old_db.messages[i as int])));
            }
            i = i + 1;
        }
        self.messages = out;
        proof {
            assert(old_db.messages.take(n as int) =~= old_db.messages);
            assert(self@.messages =~= old_db.messages.map_values(f));
        }
    }

    /// Deletes every item of group `group_id`.
    pub fn delete_proposal(&mut self, group_id: &str)
        requires
            old(self)@.wf(),
        ensures
            final(self)@.wf(),
            final(self)@ == old(self)@.delete_effect(group_id@),
    {
        let ghost old_db = self@;
        let ghost p = |m: MessageView| m.proposal_group_id != group_id@;
        let n = self.messages.len();
        let mut out: Vec<Message> = Vec::new();
        let mut i: usize = 0;
        while i < n
            invariant
                n == self.messages@.len(),
                old_db == self@,
                n == old_db.messages.len(),
                i <= n,
                p == (|m: MessageView| m.proposal_group_id != group_id@),
                message_views(out@) == old_db.messages.take(i as int).filter(p),
            decreases n - i,
        {
            proof {
                lemma_filter_take_step(old_db.messages, p, i as int);
                assert(old_db.messages[i as int] == self.messages@[i as int]@);
            }
            if !str_equal(self.messages[i].proposal_group_id.as_str(), group_id) {
                let m = self.messages[i].clone();
                let ghost before = out@;
                out.push(m);
                proof {
                    assert(message_views(out@) =~= message_views(before).push(m@));
                }
            }
            i = i + 1;
        }
        self.messages = out;
        proof {
            assert(old_db.messages.take(n as int) =~= old_db.messages);
            let ms = old_db.messages;
            let fs = ms.filter(p);
            let r1 = |a: MessageView, b: MessageView| a.id < b.id;
            let r2 = |a: MessageView, b: MessageView|
                !(a.chat_id == b.chat_id && a.telegram_message_id == b.telegram_message_id);
            assert forall|i: int, j: int| 0 <= i < j < ms.len() implies r1(#[trigger] ms[i], #[trigger] ms[j]) && r2(ms[i], ms[j]) by {}
            lemma_filter_keeps_order(ms, p, r1);
            lemma_filter_keeps_order(ms, p, r2);
            assert forall|i: int, j: int| 0 <= i < j < fs.len() implies #[trigger] fs[i].id < #[trigger] fs[j].id && !(fs[i].chat_id == fs[j].chat_id && fs[i].telegram_message_id == fs[j].telegram_message_id) by {
                assert(r1(fs[i], fs[j]));
                assert(r2(fs[i], fs[j]));
            }
            assert forall|i: int| 0 <= i < fs.len() implies 0 < #[trigger] fs[i].id
                <= old_db.last_message_id by {
                lemma_filter_member(ms, p, i);
                let k = choose|k: int| 0 <= k < ms.len() && ms[k] == fs[i];
                assert(0 < ms[k].id <= old_db.last_message_id);
            }
            assert forall|i: int| 0 <= i < fs.len() implies valid_moment(#[trigger] fs[i].created_at) by {
                lemma_filter_member(ms, p, i);
                let k = choose|k: int| 0 <= k < ms.len() && ms[k] == fs[i];
                assert(valid_moment(ms[k].created_at));
            }
            assert(self@.messages == fs);
        }
    }
}


impl Database {
    // ── Admins ────────────────────────────────────────────────

    /// Whether `user_id` is a moderator on record.
    pub fn is_admin(&self, user_id: i64) -> (b: bool)
        ensures
            b == self@.is_admin(user_id),
    {
        let n = self.admins.len();
        let mut i: usize = 0;
        while i < n
            invariant
                n == self.admins@.len(),
                i <= n,
                forall|j: int| 0 <= j < i ==> #[trigger] self@.admins[j].user_id != user_id,
            decreases n - i,
        {
            if self.admins[i].user_id == user_id {
                proof {
                    assert(self@.admins[i as int] == self.admins@[i as int]@);
                    assert(self@.admins[i as int].user_id == user_id);
                }
                return true;
            }
            i = i + 1;
        }
        false
    }

    /// Records `user_id` as a moderator named `user_name`, unless it is one
    /// already (then nothing changes). A new row takes the next id.
    pub fn add_admin(&mut self, user_id: i64, user_name: &str) -> (r: Result<(), DbError>)
        requires
            old(self)@.wf(),
        ensures
            final(self)@.wf(),
            old(self)@.is_admin(user_id) ==> r is Ok && final(self)@ == old(self)@,
            !old(self)@.is_admin(user_id) && old(self)@.last_admin_id == i64::MAX ==> r
                == Err::<(), DbError>(DbError::IdsExhausted) && final(self)@ == old(self)@,
            !old(self)@.is_admin(user_id) && old(self)@.last_admin_id < i64::MAX ==> r is Ok
                && final(self)@ == old(self)@.add_admin_effect(user_id, user_name@),
    {
        if self.is_admin(user_id) {
            return Ok(());
        }
        if self.last_admin_id == i64::MAX {
            return Err(DbError::IdsExhausted);
        }
        let id = self.last_admin_id + 1;
        let ghost old_db = self@;
        self.admins.push(Admin { id: id, user_id: user_id, user_name: String::from_str(user_name) });
        self.last_admin_id = id;
        proof {
            assert(admin_views(self.admins@) =~= old_db.admins.push(
                AdminView { id: id, user_id: user_id, user_name: user_name@ },
            ));
            let v = self@;
            assert forall|i: int, j: int| 0 <= i < j < v.admins.len() implies #[trigger] v.admins[i].user_id
                != #[trigger] v.admins[j].user_id by {
                if j == v.admins.len() - 1 {
                    assert(v.admins[i] == old_db.admins[i]);
                }
            }
        }
        Ok(())
    }

    /// Same as [`Database::add_admin`]: makes sure `user_id` is a moderator on record.
    pub fn ensure_admin(&mut self, user_id: i64, user_name: &str) -> (r: Result<(), DbError>)
        requires
            old(self)@.wf(),
        ensures
            final(self)@.wf(),
            old(self)@.is_admin(user_id) ==> r is Ok && final(self)@ == old(self)@,
            !old(self)@.is_admin(user_id) && old(self)@.last_admin_id == i64::MAX ==> r
                == Err::<(), DbError>(DbError::IdsExhausted) && final(self)@ == old(self)@,
            !old(self)@.is_admin(user_id) && old(self)@.last_admin_id < i64::MAX ==> r is Ok
                && final(self)@ == old(self)@.add_admin_effect(user_id, user_name@),
    {
        self.add_admin(user_id, user_name)
    }

    /// Removes `user_id` from the moderators.
    pub fn remove_admin(&mut self, user_id: i64)
        requires
            old(self)@.wf(),
        ensures
            final(self)@.wf(),
            final(self)@ == old(self)@.remove_admin_effect(user_id),
    {
        let ghost old_db = self@;
        let ghost p = |a: AdminView| a.user_id != user_id;
        let n = self.admins.len();
        let mut out: Vec<Admin> = Vec::new();
        let mut i: usize = 0;
        while i < n
            invariant
                n == self.admins@.len(),
                old_db == self@,
                n == old_db.admins.len(),
                i <= n,
                p == (|a: AdminView| a.user_id != user_id),
                admin_views(out@) == old_db.admins.take(i as int).filter(p),
            decreases n - i,
        {
            proof {
                lemma_filter_take_step(old_db.admins, p, i as int);
                assert(old_db.admins[i as int] == self.admins@[i as int]@);
            }
            if self.admins[i].user_id != user_id {
                let a = self.admins[i].clone();
                let ghost before = out@;
                out.push(a);
                proof {
                    assert(admin_views(out@) =~= admin_views(before).push(a@));
                }
            }
            i = i + 1;
        }
        self.admins = out;
        proof {
            assert(old_db.admins.take(n as int) =~= old_db.admins);
            let ms = old_db.admins;
            let fs = ms.filter(p);
            let r1 = |a: AdminView, b: AdminView| a.id < b.id;
            let r2 = |a: AdminView, b: AdminView| a.user_id != b.user_id;
            assert forall|i: int, j: int| 0 <= i < j < ms.len() implies r1(#[trigger] ms[i], #[trigger] ms[j]) && r2(ms[i], ms[j]) by {}
            lemma_filter_keeps_order(ms, p, r1);
            lemma_filter_keeps_order(ms, p, r2);
            assert forall|i: int, j: int| 0 <= i < j < fs.len() implies #[trigger] fs[i].id < #[trigger] fs[j].id && fs[i].user_id != fs[j].user_id by {
                assert(r1(fs[i], fs[j]));
                assert(r2(fs[i], fs[j]));
            }
            assert forall|i: int| 0 <= i < fs.len() implies 0 < #[trigger] fs[i].id
                <= old_db.last_admin_id by {
                lemma_filter_member(ms, p, i);
                let k = choose|k: int| 0 <= k < ms.len() && ms[k] == fs[i];
                assert(0 < ms[k].id <= old_db.last_admin_id);
            }
            assert(self@.admins == fs);
        }
    }

    /// All moderators on record, in id order.
    pub fn get_admins(&self) -> (r: Vec<Admin>)
        ensures
            admin_views(r@) == self@.admins,
    {
        let n = self.admins.len();
        let mut out: Vec<Admin> = Vec::new();
        let mut i: usize = 0;
        while i < n
            invariant
                n == self.admins@.len(),
                i <= n,
                admin_views(out@) == admin_views(self.admins@.take(i as int)),
            decreases n - i,
        {
            let a = self.admins[i].clone();
            let ghost before = out@;
            out.push(a);
            proof {
                assert(admin_views(out@) =~= admin_views(before).push(a@));
                assert(self.admins@.take(i + 1) =~= self.admins@.take(i as int).push(self.admins@[i as int]));
                assert(admin_views(self.admins@.take(i + 1)) =~= admin_views(self.admins@.take(i as int)).push(a@));
            }
            i = i + 1;
        }
        proof {
            assert(self.admins@.take(n as int) =~= self.admins@);
        }
        out
    }

    // ── Bans ──────────────────────────────────────────────────

    /// Bans `user_id` (nothing changes when it is banned already).
    pub fn ban_user(&mut self, user_id: i64)
        requires
            old(self)@.wf(),
        ensures
            final(self)@.wf(),
            final(self)@ == old(self)@.ban_effect(user_id),
    {
        if !self.is_banned(user_id) {
            let ghost old_db = self@;
            self.banned.push(user_id);
            proof {
                let v = self@;
                assert forall|i: int, j: int| 0 <= i < j < v.banned.len() implies #[trigger] v.banned[i]
                    != #[trigger] v.banned[j] by {
                    if j == v.banned.len() - 1 {
                        assert(v.banned[i] == old_db.banned[i]);
                    }
                }
            }
        }
    }

    /// Whether `user_id` is banned.
    pub fn is_banned(&self, user_id: i64) -> (b: bool)
        ensures
            b == self@.is_banned(user_id),
    {
        let n = self.banned.len();
        let mut i: usize = 0;
        while i < n
            invariant
                n == self.banned@.len(),
                i <= n,
                forall|j: int| 0 <= j < i ==> #[trigger] self.banned@[j] != user_id,
            decreases n - i,
        {
            if self.banned[i] == user_id {
                proof {
                    assert(self@.banned[i as int] == user_id);
                }
                return true;
            }
            i = i + 1;
        }
        false
    }

    /// Lifts the ban of `user_id`.
    pub fn pardon_user(&mut self, user_id: i64)
        requires
            old(self)@.wf(),
        ensures
            final(self)@.wf(),
            final(self)@ == old(self)@.pardon_effect(user_id),
    {
        let ghost old_db = self@;
        let ghost p = other_user(user_id);
        let n = self.banned.len();
        let mut out: Vec<i64> = Vec::new();
        let mut i: usize = 0;
        while i < n
            invariant
                n == self.banned@.len(),
                old_db == self@,
                i <= n,
                p == other_user(user_id),
                out@ == old_db.banned.take(i as int).filter(p),
            decreases n - i,
        {
            proof {
                lemma_filter_take_step(old_db.banned, p, i as int);
            }
            if self.banned[i] != user_id {
                out.push(self.banned[i]);
            }
            i = i + 1;
        }
        self.banned = out;
        proof {
            assert(old_db.banned.take(n as int) =~= old_db.banned);
            let ms = old_db.banned;
            let r = |a: i64, b: i64| a != b;
            assert forall|i: int, j: int| 0 <= i < j < ms.len() implies r(#[trigger] ms[i], #[trigger] ms[j]) by {}
            lemma_filter_keeps_order(ms, p, r);
            let fs = ms.filter(p);
            assert forall|i: int, j: int| 0 <= i < j < fs.len() implies #[trigger] fs[i] != #[trigger] fs[j] by {
                assert(r(fs[i], fs[j]));
            }
            assert(self@.banned == fs);

        }
    }

    /// Records an active ban of `user_id` for `reason` under appeal code
    /// `ban_id`, stamped with moment `now`; answers the code. A code that an
    /// active ban already holds is refused, so that a code names one ban.
    pub fn create_ban_record_with(&mut self, user_id: i64, reason: &str, ban_id: String, now: i64) -> (r: Result<String, DbError>)
        requires
            old(self)@.wf(),
            valid_moment(now),
        ensures
            final(self)@.wf(),
            old(self)@.last_ban_record_id == i64::MAX ==> r == Err::<String, DbError>(DbError::IdsExhausted)
                && final(self)@ == old(self)@,
            old(self)@.last_ban_record_id < i64::MAX && old(self)@.active_ban_record(ban_id@) is Some ==> r
                == Err::<String, DbError>(DbError::AppealCodeTaken) && final(self)@ == old(self)@,
            old(self)@.last_ban_record_id < i64::MAX && old(self)@.active_ban_record(ban_id@) is None ==> r
                == Ok::<String, DbError>(ban_id) && final(self)@ == old(self)@.record_effect(user_id, reason@, ban_id@, now),
    {
        if self.last_ban_record_id == i64::MAX {
            return Err(DbError::IdsExhausted);
        }
        if self.get_ban_record(ban_id.as_str()).is_some() {
            return Err(DbError::AppealCodeTaken);
        }
        let id = self.last_ban_record_id + 1;
        let ghost old_db = self@;
        let rec = BanRecord {
            id: id,
            ban_id: ban_id.clone(),
            user_id: user_id,
            reason: String::from_str(reason),
            created_at: now,
            active: true,
        };
        self.ban_records.push(rec);
        self.last_ban_record_id = id;
        proof {
            let ms = old_db.ban_records;
            let ns = ban_record_views(self.ban_records@);
            assert(ns =~= ms.push(rec@));
            assert forall|i: int, j: int|
                0 <= i < j < ns.len() && #[trigger] ns[i].active && #[trigger] ns[j].active implies ns[i].ban_id
                    != ns[j].ban_id by {
                if j == ms.len() {
                    assert(ns[i] == ms[i]);
                    let p = |r: BanRecordView| r.active && r.ban_id == ban_id@;
                    if p(ms[i]) {
                        ms.lemma_filter_contains(p, i);
                        assert(ms.filter(p).len() > 0);
                    }
                }
            }
        }
        Ok(ban_id)
    }

    /// Records an active ban of `user_id` for `reason` under a fresh random
    /// appeal code, stamped with the current time; answers the code.
    ///
    /// The store's own policy, so that a code names one ban: a drawn code
    /// that an active ban already holds is drawn again, at most eight times
    /// in all; then the spare codes (`spare_ban_id`) are tried in order and
    /// the first free one is taken. The ban is refused with `AppealCodeTaken`
    /// only when all `16^6` codes are held, that is when as many bans are
    /// active. Which random codes are drawn is left to chance.
    pub fn create_ban_record(&mut self, user_id: i64, reason: &str) -> (r: Result<String, DbError>)
        requires
            old(self)@.wf(),
        ensures
            final(self)@.wf(),
            old(self)@.last_ban_record_id == i64::MAX ==> r == Err::<String, DbError>(DbError::IdsExhausted)
                && final(self)@ == old(self)@,
            old(self)@.last_ban_record_id < i64::MAX ==> (r == Err::<String, DbError>(DbError::AppealCodeTaken)
                && final(self)@ == old(self)@ && old(self)@.holds_active_appeal_code()
                && old(self)@.active_ban_count() >= 0x1000000) || (r is Ok && is_appeal_code(r->Ok_0@)
                && old(self)@.active_ban_record(r->Ok_0@) is None && exists|now: i64|
                valid_moment(now) && final(self)@ == old(self)@.record_effect(user_id, reason@, r->Ok_0@, now)),
            old(self)@.last_ban_record_id < i64::MAX && !old(self)@.holds_active_appeal_code() ==> r is Ok,
            old(self)@.last_ban_record_id < i64::MAX && old(self)@.active_ban_count() < 0x1000000 ==> r is Ok,
    {
        if self.last_ban_record_id == i64::MAX {
            return Err(DbError::IdsExhausted);
        }
        let mut draws: u32 = 0;
        while draws < 8
            invariant
                self@.wf(),
                self@ == old(self)@,
                self@.last_ban_record_id < i64::MAX,
                draws <= 8,
                draws > 0 ==> self@.holds_active_appeal_code(),
            decreases 8 - draws,
        {
            let ban_id = generate_ban_id();
            proof {
                assert(is_appeal_code(ban_id@));
            }
            match self.get_ban_record(ban_id.as_str()) {
                None => {
                    let now = now_micros();
                    return self.create_ban_record_with(user_id, reason, ban_id, now);
                },
                Some(found) => {
                    proof {
                        let ms = self@.ban_records;
                        let p = |r: BanRecordView| r.active && r.ban_id == ban_id@;
                        lemma_filter_member(ms, p, 0);
                        let k = choose|k: int| 0 <= k < ms.len() && ms[k] == ms.filter(p)[0];
                        assert(ms[k].active && ms[k].ban_id == ban_id@);
                        assert(is_appeal_code(ms[k].ban_id));
                        assert(self@.holds_active_appeal_code());
                    }
                },
            }
            draws = draws + 1;
        }
        let mut n: u32 = 0;
        while n < 0x1000000
            invariant
                self@.wf(),
                self@ == old(self)@,
                self@.last_ban_record_id < i64::MAX,
                self@.holds_active_appeal_code(),
                n <= 0x1000000,
                forall|k: int| 0 <= k < n ==> #[trigger] self@.active_ban_record(ban_code(spare_code_bytes(k))) is Some,
            decreases 0x1000000 - n,
        {
            let ban_id = spare_ban_id(n);
            if self.get_ban_record(ban_id.as_str()).is_none() {
                let now = now_micros();
                return self.create_ban_record_with(user_id, reason, ban_id, now);
            }
            n = n + 1;
        }
        proof {
            lemma_spare_codes_all_taken(self@, 0x1000000);
        }
        Err(DbError::AppealCodeTaken)
    }

    /// The first active ban record with appeal code `ban_id`.
    pub fn get_ban_record(&self, ban_id: &str) -> (r: Option<BanRecord>)
        ensures
            opt_view(r) == self@.active_ban_record(ban_id@),
    {
        let n = self.ban_records.len();
        let ghost p = |r: BanRecordView| r.active && r.ban_id == ban_id@;
        let mut i: usize = 0;
        while i < n
            invariant
                n == self.ban_records@.len(),
                n == self@.ban_records.len(),
                i <= n,
                p == (|r: BanRecordView| r.active && r.ban_id == ban_id@),
                forall|j: int| 0 <= j < i ==> !p(#[trigger] self@.ban_records[j]),
            decreases n - i,
        {
            let rec = &self.ban_records[i];
            proof {
                assert(self@.ban_records[i as int] == rec@);
            }
            if rec.active && str_equal(rec.ban_id.as_str(), ban_id) {
                proof {
                    lemma_first_match_at(self@.ban_records, p, i as int);
                }
                return Some(rec.clone());
            }
            i = i + 1;
        }
        proof {
            lemma_first_match_none(self@.ban_records, p);
        }
        None
    }

    /// Marks every ban record with appeal code `ban_id` inactive.
    pub fn deactivate_ban(&mut self, ban_id: &str)
        requires
            old(self)@.wf(),
        ensures
            final(self)@.wf(),
            final(self)@ == old(self)@.lift_effect(ban_id@),
    {
        let ghost old_db = self@;
        let ghost f = |r: BanRecordView| with_ban_lifted(r, ban_id@);
        let n = self.ban_records.len();
        let mut out: Vec<BanRecord> = Vec::new();
        let mut i: usize = 0;
        while i < n
            invariant
                n == self.ban_records@.len(),
                old_db == self@,
                n == old_db.ban_records.len(),
                i <= n,
                f == (|r: BanRecordView| with_ban_lifted(r, ban_id@)),
                ban_record_views(out@) == old_db.ban_records.take(i as int).map_values(f),
            decreases n - i,
        {
            let mut r = self.ban_records[i].clone();
            if str_equal(r.ban_id.as_str(), ban_id) {
                r.active = false;
            }
            let ghost before = out@;
            out.push(r);
            proof {
                assert(old_db.ban_records[i as int] == self.ban_records@[i as int]@);
                assert(old_db.ban_records.take(i + 1) =~= old_db.ban_records.take(i as int).push(
                    old_db.ban_records[i as int],
                ));
                assert(ban_record_views(out@) =~= ban_record_views(before).push(r@));
                assert(old_db.ban_records.take(i + 1).map_values(f) =~= old_db.ban_records.take(
                    i as int,
                ).map_values(f).push(f(old_db.ban_records[i as int])));
            }
            i = i + 1;
        }
        self.ban_records = out;
        proof {
            assert(old_db.ban_records.take(n as int) =~= old_db.ban_records);
            assert(self@.ban_records =~= old_db.ban_records.map_values(f));
        }
    }

    // ── User State ────────────────────────────────────────────

    /// The dialogue state stored for `user_id`.
    pub fn get_user_state(&self, user_id: i64) -> (r: Option<UserState>)
        ensures
            opt_view(r) == self@.user_state(user_id),
    {
        let n = self.user_states.len();
        let ghost p = |s: UserStateView| s.user_id == user_id;
        let mut i: usize = 0;
        while i < n
            invariant
                n == self.user_states@.len(),
                n == self@.user_states.len(),
                i <= n,
                p == (|s: UserStateView| s.user_id == user_id),
                forall|j: int| 0 <= j < i ==> !p(#[trigger] self@.user_states[j]),
            decreases n - i,
        {
            proof {
                assert(self@.user_states[i as int] == self.user_states@[i as int]@);
            }
            if self.user_states[i].user_id == user_id {
                proof {
                    lemma_first_match_at(self@.user_states, p, i as int);
                }
                return Some(self.user_states[i].clone());
            }
            i = i + 1;
        }
        proof {
            lemma_first_match_none(self@.user_states, p);
        }
        None
    }

    /// Stores the dialogue state of `user_id` (step `state`, subject
    /// `target_id`), replacing the one stored before.
    pub fn set_user_state(&mut self, user_id: i64, state: &str, target_id: i64)
        requires
            old(self)@.wf(),
        ensures
            final(self)@.wf(),
            final(self)@ == old(self)@.set_state_effect(user_id, state@, target_id),
    {
        let ghost v = UserStateView { user_id: user_id, state: state@, temp_target_id: target_id };
        let exists = self.get_user_state(user_id).is_some();
        proof {
            let p = |s: UserStateView| s.user_id == user_id;
            if !exists {
                assert forall|j: int| 0 <= j < self@.user_states.len() implies !p(#[trigger] self@.user_states[j]) by {
                    if p(self@.user_states[j]) {
                        self@.user_states.lemma_filter_contains(p, j);
                    }
                }
            }
        }
        self.replace_user_state(user_id, state, target_id);
        if !exists {
            let ghost old_db = self@;
            self.user_states.push(UserState {
                user_id: user_id,
                state: String::from_str(state),
                temp_target_id: target_id,
            });
            proof {
                assert(user_state_views(self.user_states@) =~= old_db.user_states.push(v));
                let w = self@;
                assert forall|i: int, j: int| 0 <= i < j < w.user_states.len() implies #[trigger] w.user_states[i].user_id
                    != #[trigger] w.user_states[j].user_id by {
                    if j == w.user_states.len() - 1 {
                        assert(w.user_states[i] == old_db.user_states[i]);
                    }
                }
            }
        }
    }

    /// Replaces every stored state of `user_id` with step `state` and subject `target_id`.
    fn replace_user_state(&mut self, user_id: i64, state: &str, target_id: i64)
        requires
            old(self)@.wf(),
        ensures
            final(self)@.wf(),
            final(self)@ == old(self)@.replace_state_effect(user_id, state@, target_id),
            (forall|j: int| 0 <= j < old(self)@.user_states.len() ==> #[trigger] old(self)@.user_states[j].user_id != user_id)
                ==> final(self)@ == old(self)@,
    {
        let ghost old_db = self@;
        let ghost v = UserStateView { user_id: user_id, state: state@, temp_target_id: target_id };
        let ghost f = |s: UserStateView| with_user_state(s, user_id, v);
        let n = self.user_states.len();
        let mut out: Vec<UserState> = Vec::new();
        let mut i: usize = 0;
        while i < n
            invariant
                n == self.user_states@.len(),
                old_db == self@,
                n == old_db.user_states.len(),
                i <= n,
                v == (UserStateView { user_id: user_id, state: state@, temp_target_id: target_id }),
                f == (|s: UserStateView| with_user_state(s, user_id, v)),
                user_state_views(out@) == old_db.user_states.take(i as int).map_values(f),
            decreases n - i,
        {
            let mut s = self.user_states[i].clone();
            if s.user_id == user_id {
                s.state = String::from_str(state);
                s.temp_target_id = target_id;
            }
            let ghost before = out@;
            out.push(s);
            proof {
                assert(old_db.user_states[i as int] == self.user_states@[i as int]@);
                assert(old_db.user_states.take(i + 1) =~= old_db.user_states.take(i as int).push(
                    old_db.user_states[i as int],
                ));
                assert(user_state_views(out@) =~= user_state_views(before).push(s@));
                assert(old_db.user_states.take(i + 1).map_values(f) =~= old_db.user_states.take(
                    i as int,
                ).map_values(f).push(f(old_db.user_states[i as int])));
            }
            i = i + 1;
        }
        self.user_states = out;
        proof {
            assert(old_db.user_states.take(n as int) =~= old_db.user_states);
            assert(self@.user_states =~= old_db.user_states.map_values(f));
            if forall|j: int| 0 <= j < old_db.user_states.len() ==> #[trigger] old_db.user_states[j].user_id != user_id {
                assert(self@.user_states =~= old_db.user_states);
            }
        }
    }

    /// Resets the stored dialogue state of `user_id` to `none` with subject
    /// 0; nothing changes when no state is stored for it.
    pub fn clear_user_state(&mut self, user_id: i64)
        requires
            old(self)@.wf(),
        ensures
            final(self)@.wf(),
            final(self)@ == old(self)@.clear_state_effect(user_id),
    {
        self.replace_user_state(user_id, "none", 0);
    }
}


impl Database {
    /// The active ban records, newest first (on equal moments, the larger id first).
    pub fn get_active_ban_records(&self) -> (r: Vec<BanRecord>)
        requires
            self@.wf(),
        ensures
            forall|i: int|
                0 <= i < r@.len() ==> #[trigger] self@.ban_records.contains(r@[i]@) && r@[i]@.active,
            forall|k: int|
                0 <= k < self@.ban_records.len() && #[trigger] self@.ban_records[k].active
                    ==> ban_record_views(r@).contains(self@.ban_records[k]),
            forall|i: int, j: int|
                0 <= i < j < r@.len() ==> listed_before(#[trigger] r@[i]@, #[trigger] r@[j]@),
            ban_record_views(r@) == self@.ban_listing(),
    {
        let ghost v = self@;
        let n = self.ban_records.len();
        let mut out: Vec<BanRecord> = Vec::new();
        let mut i: usize = 0;
        while i < n
            invariant
                v == self@,
                v.wf(),
                n == self.ban_records@.len(),
                n == v.ban_records.len(),
                i <= n,
                forall|a: int|
                    #![trigger out@[a]]
                    0 <= a < out@.len() ==> exists|k: int|
                        0 <= k < i && #[trigger] v.ban_records[k] == out@[a]@ && v.ban_records[k].active,
                forall|k: int|
                    0 <= k < i && #[trigger] v.ban_records[k].active ==> ban_record_views(out@).contains(
                        v.ban_records[k],
                    ),
                forall|a: int, b: int|
                    0 <= a < b < out@.len() ==> listed_before(#[trigger] out@[a]@, #[trigger] out@[b]@),
            decreases n - i,
        {
            let rec = &self.ban_records[i];
            proof {
                assert(v.ban_records[i as int] == rec@);
            }
            if rec.active {
                let m = out.len();
                let mut j: usize = 0;
                while j < m && (out[j].created_at > rec.created_at || (out[j].created_at == rec.created_at
                    && out[j].id > rec.id))
                    invariant
                        m == out@.len(),
                        j <= m,
                        forall|a: int| 0 <= a < j ==> listed_before(#[trigger] out@[a]@, rec@),
                    decreases m - j,
                {
                    j = j + 1;
                }
                proof {
                    assert forall|a: int| 0 <= a < out@.len() implies #[trigger] out@[a]@.id < rec.id by {
                        let k = choose|k: int|
                            0 <= k < i && #[trigger] v.ban_records[k] == out@[a]@ && v.ban_records[k].active;
                        assert(v.ban_records[k].id < v.ban_records[i as int].id);
                    }
                    if j < m {
                        assert(out@[j as int]@.id < rec.id);
                        assert(listed_before(rec@, out@[j as int]@));
                    }
                }
                let ghost before = out@;
                let c = rec.clone();
                out.insert(j, c);
                proof {
                    assert(ban_record_views(out@) =~= ban_record_views(before).insert(j as int, rec@));
                    assert forall|a: int, b: int| 0 <= a < b < out@.len() implies listed_before(
                        #[trigger] out@[a]@,
                        #[trigger] out@[b]@,
                    ) by {
                        if b < j {
                            assert(out@[a] == before[a] && out@[b] == before[b]);
                        } else if b == j {
                            assert(out@[a] == before[a]);
                        } else if a == j {
                            assert(out@[b] == before[b - 1]);
                            assert(listed_before(rec@, before[j as int]@));
                            if b - 1 > j {
                                assert(listed_before(before[j as int]@, before[b - 1]@));
                            }
                        } else if a < j {
                            assert(out@[a] == before[a] && out@[b] == before[b - 1]);
                        } else {
                            assert(out@[a] == before[a - 1] && out@[b] == before[b - 1]);
                        }
                    }
                    assert forall|a: int| #![trigger out@[a]] 0 <= a < out@.len() implies exists|k: int|
                        0 <= k < i + 1 && #[trigger] v.ban_records[k] == out@[a]@ && v.ban_records[k].active by {
                        if a < j {
                            assert(out@[a] == before[a]);
                        } else if a == j {
                            assert(v.ban_records[i as int] == out@[a]@);
                        } else {
                            assert(out@[a] == before[a - 1]);
                        }
                    }
                    assert forall|k: int| 0 <= k < i + 1 && #[trigger] v.ban_records[k].active implies ban_record_views(out@).contains(
                        v.ban_records[k],
                    ) by {
                        if k == i {
                            assert(ban_record_views(out@)[j as int] == v.ban_records[k]);
                        } else {
                            let w = choose|w: int| 0 <= w < before.len() && ban_record_views(before)[w] == v.ban_records[k];
                            if w < j {
                                assert(ban_record_views(out@)[w] == v.ban_records[k]);
                            } else {
                                assert(ban_record_views(out@)[w + 1] == v.ban_records[k]);
                            }
                        }
                    }
                }
            }
            i = i + 1;
        }
        proof {
            assert forall|a: int| 0 <= a < out@.len() implies #[trigger] v.ban_records.contains(out@[a]@) && out@[a]@.active by {
                let k = choose|k: int| 0 <= k < n && #[trigger] v.ban_records[k] == out@[a]@ && v.ban_records[k].active;
                assert(v.ban_records[k] == out@[a]@);
            }
            let rv = ban_record_views(out@);
            assert(v.is_ban_listing(rv)) by {
                assert forall|i: int| 0 <= i < rv.len() implies #[trigger] v.ban_records.contains(rv[i]) && rv[i].active by {
                    assert(rv[i] == out@[i]@);
                }
                assert forall|i: int, j: int| 0 <= i < j < rv.len() implies listed_before(#[trigger] rv[i], #[trigger] rv[j]) by {
                    assert(rv[i] == out@[i]@ && rv[j] == out@[j]@);
                }
            }
            lemma_ban_listing_unique(v, rv, v.ban_listing());
        }
        out
    }
}


/// Two listings of the active bans are the same sequence.
pub proof fn lemma_ban_listing_unique(db: DbView, a: Seq<BanRecordView>, b: Seq<BanRecordView>)
    requires
        db.is_ban_listing(a),
        db.is_ban_listing(b),
    ensures
        a == b,
{
    assert forall|x: BanRecordView| a.contains(x) <==> b.contains(x) by {
        if a.contains(x) {
            let i = choose|i: int| 0 <= i < a.len() && a[i] == x;
            assert(db.ban_records.contains(a[i]));
            let k = choose|k: int| 0 <= k < db.ban_records.len() && db.ban_records[k] == x;
            assert(db.ban_records[k].active);
        }
        if b.contains(x) {
            let i = choose|i: int| 0 <= i < b.len() && b[i] == x;
            assert(db.ban_records.contains(b[i]));
            let k = choose|k: int| 0 <= k < db.ban_records.len() && db.ban_records[k] == x;
            assert(db.ban_records[k].active);
        }
    }
    lemma_sorted_same_elements(a, b);
}

/// Two sequences sorted by `listed_before` with the same elements are equal.
proof fn lemma_sorted_same_elements(a: Seq<BanRecordView>, b: Seq<BanRecordView>)
    requires
        forall|i: int, j: int| 0 <= i < j < a.len() ==> listed_before(#[trigger] a[i], #[trigger] a[j]),
        forall|i: int, j: int| 0 <= i < j < b.len() ==> listed_before(#[trigger] b[i], #[trigger] b[j]),
        forall|x: BanRecordView| a.contains(x) <==> b.contains(x),
    ensures
        a == b,
    decreases a.len(),
{
    if a.len() == 0 {
        if b.len() > 0 {
            assert(b.contains(b[0]));
        }
        assert(a =~= b);
    } else {
        assert(a.contains(a[0]));
        assert(b.len() > 0);
        assert(b.contains(b[0]));
        if a[0] != b[0] {
            let k = choose|k: int| 0 <= k < b.len() && b[k] == a[0];
            let j = choose|j: int| 0 <= j < a.len() && a[j] == b[0];
            assert(k > 0);
            assert(j > 0);
            assert(listed_before(b[0], b[k]));
            assert(listed_before(a[0], a[j]));
        }
        let a2 = a.drop_first();
        let b2 = b.drop_first();
        assert forall|x: BanRecordView| a2.contains(x) <==> b2.contains(x) by {
            if a2.contains(x) {
                let i = choose|i: int| 0 <= i < a2.len() && a2[i] == x;
                assert(a[i + 1] == x);
                assert(listed_before(a[0], a[i + 1]));
                assert(b.contains(x));
                let k = choose|k: int| 0 <= k < b.len() && b[k] == x;
                assert(k != 0);
                assert(b2[k - 1] == x);
            }
            if b2.contains(x) {
                let i = choose|i: int| 0 <= i < b2.len() && b2[i] == x;
                assert(b[i + 1] == x);
                assert(listed_before(b[0], b[i + 1]));
                assert(a.contains(x));
                let k = choose|k: int| 0 <= k < a.len() && a[k] == x;
                assert(k != 0);
                assert(a2[k - 1] == x);
            }
        }
        assert forall|i: int, j: int| 0 <= i < j < a2.len() implies listed_before(#[trigger] a2[i], #[trigger] a2[j]) by {
            assert(a2[i] == a[i + 1] && a2[j] == a[j + 1]);
        }
        assert forall|i: int, j: int| 0 <= i < j < b2.len() implies listed_before(#[trigger] b2[i], #[trigger] b2[j]) by {
            assert(b2[i] == b[i + 1] && b2[j] == b[j + 1]);
        }
        lemma_sorted_same_elements(a2, b2);
        assert(a =~= b) by {
            assert forall|i: int| 0 <= i < a.len() implies a[i] == b[i] by {
                if i > 0 {
                    assert(a[i] == a2[i - 1] && b[i] == b2[i - 1]);
                }
            }
        }
    }
}


/// The rows of every table and the last id each table handed out, as a
/// persistent copy of the store holds them.
#[derive(Debug)]
pub struct StoreRows {
    pub language: Option<String>,
    pub messages: Vec<Message>,
    pub last_message_id: i64,
    pub admins: Vec<Admin>,
    pub last_admin_id: i64,
    pub banned: Vec<i64>,
    pub ban_records: Vec<BanRecord>,
    pub last_ban_record_id: i64,
    pub user_states: Vec<UserState>,
}

impl View for StoreRows {
    type V = DbView;

    open spec fn view(&self) -> DbView {
        DbView {
            language: opt_text(self.language),
            messages: message_views(self.messages@),
            last_message_id: self.last_message_id,
            admins: admin_views(self.admins@),
            last_admin_id: self.last_admin_id,
            banned: self.banned@,
            ban_records: ban_record_views(self.ban_records@),
            last_ban_record_id: self.last_ban_record_id,
            user_states: user_state_views(self.user_states@),
        }
    }
}

fn messages_ok(v: &Vec<Message>, last: i64) -> (b: bool)
    ensures
        b == messages_wf(message_views(v@), last),
{
    let ghost ms = message_views(v@);
    let n = v.len();
    let mut k: usize = 0;
    while k < n
        invariant
            n == v@.len(),
            ms == message_views(v@),
            k <= n,
            forall|i: int, j: int| 0 <= i < j < k ==> #[trigger] ms[i].id < #[trigger] ms[j].id,
            forall|i: int| 0 <= i < k ==> 0 < #[trigger] ms[i].id <= last,
            forall|i: int| 0 <= i < k ==> valid_moment(#[trigger] ms[i].created_at),
            forall|i: int, j: int|
                0 <= i < j < k ==> !(#[trigger] ms[i].chat_id == #[trigger] ms[j].chat_id
                    && ms[i].telegram_message_id == ms[j].telegram_message_id),
        decreases n - k,
    {
        let m = &v[k];
        proof {
            assert(ms[k as int] == m@);
        }
        if !(0 < m.id && m.id <= last) {
            proof {
                assert(!(0 < ms[k as int].id <= last));
            }
            return false;
        }
        if k > 0 && !(v[k - 1].id < m.id) {
            proof {
                assert(ms[k - 1] == v@[k - 1]@);
                assert(ms[k - 1].id >= ms[k as int].id);
            }
            return false;
        }
        if format_minute(m.created_at).is_none() {
            proof {
                assert(!valid_moment(ms[k as int].created_at));
            }
            return false;
        }
        let mut j: usize = 0;
        while j < k
            invariant
                n == v@.len(),
                ms == message_views(v@),
                j <= k < n,
                ms[k as int] == m@,
                forall|a: int| 0 <= a < j ==> !(#[trigger] ms[a].chat_id == m.chat_id && ms[a].telegram_message_id == m.telegram_message_id),
            decreases k - j,
        {
            proof {
                assert(ms[j as int] == v@[j as int]@);
            }
            if v[j].chat_id == m.chat_id && v[j].telegram_message_id == m.telegram_message_id {
                proof {
                    assert(ms[j as int].chat_id == ms[k as int].chat_id
                        && ms[j as int].telegram_message_id == ms[k as int].telegram_message_id);
                }
                return false;
            }
            j = j + 1;
        }
        proof {
            if k > 0 {
                assert(ms[k - 1] == v@[k - 1]@);
                assert forall|i: int, j: int| 0 <= i < j < k + 1 implies #[trigger] ms[i].id < #[trigger] ms[j].id by {
                    if j == k && i < k - 1 {
                        assert(ms[i].id < ms[k - 1].id);
                    }
                }
            }
        }
        k = k + 1;
    }
    true
}

fn admins_ok(v: &Vec<Admin>, last: i64) -> (b: bool)
    ensures
        b == admins_wf(admin_views(v@), last),
{
    let ghost ms = admin_views(v@);
    let n = v.len();
    let mut k: usize = 0;
    while k < n
        invariant
            n == v@.len(),
            ms == admin_views(v@),
            k <= n,
            forall|i: int, j: int| 0 <= i < j < k ==> #[trigger] ms[i].id < #[trigger] ms[j].id,
            forall|i: int| 0 <= i < k ==> 0 < #[trigger] ms[i].id <= last,
            forall|i: int, j: int| 0 <= i < j < k ==> #[trigger] ms[i].user_id != #[trigger] ms[j].user_id,
        decreases n - k,
    {
        let m = &v[k];
        proof {
            assert(ms[k as int] == m@);
        }
        if !(0 < m.id && m.id <= last) {
            proof {
                assert(!(0 < ms[k as int].id <= last));
            }
            return false;
        }
        if k > 0 && !(v[k - 1].id < m.id) {
            proof {
                assert(ms[k - 1] == v@[k - 1]@);
                assert(ms[k - 1].id >= ms[k as int].id);
            }
            return false;
        }
        let mut j: usize = 0;
        while j < k
            invariant
                n == v@.len(),
                ms == admin_views(v@),
                j <= k < n,
                ms[k as int] == m@,
                forall|a: int| 0 <= a < j ==> #[trigger] ms[a].user_id != m.user_id,
            decreases k - j,
        {
            proof {
                assert(ms[j as int] == v@[j as int]@);
            }
            if v[j].user_id == m.user_id {
                proof {
                    assert(ms[j as int].user_id == ms[k as int].user_id);
                }
                return false;
            }
            j = j + 1;
        }
        proof {
            if k > 0 {
                assert(ms[k - 1] == v@[k - 1]@);
                assert forall|i: int, j: int| 0 <= i < j < k + 1 implies #[trigger] ms[i].id < #[trigger] ms[j].id by {
                    if j == k && i < k - 1 {
                        assert(ms[i].id < ms[k - 1].id);
                    }
                }
            }
        }
        k = k + 1;
    }
    true
}

fn ban_records_ok(v: &Vec<BanRecord>, last: i64) -> (b: bool)
    ensures
        b == ban_records_wf(ban_record_views(v@), last),
{
    let ghost ms = ban_record_views(v@);
    let n = v.len();
    let mut k: usize = 0;
    while k < n
        invariant
            n == v@.len(),
            ms == ban_record_views(v@),
            k <= n,
            forall|i: int, j: int| 0 <= i < j < k ==> #[trigger] ms[i].id < #[trigger] ms[j].id,
            forall|i: int| 0 <= i < k ==> 0 < #[trigger] ms[i].id <= last,
            forall|i: int| 0 <= i < k ==> valid_moment(#[trigger] ms[i].created_at),
        decreases n - k,
    {
        let m = &v[k];
        proof {
            assert(ms[k as int] == m@);
        }
        if !(0 < m.id && m.id <= last) {
            proof {
                assert(!(0 < ms[k as int].id <= last));
            }
            return false;
        }
        if k > 0 && !(v[k - 1].id < m.id) {
            proof {
                assert(ms[k - 1] == v@[k - 1]@);
                assert(ms[k - 1].id >= ms[k as int].id);
            }
            return false;
        }
        if format_minute(m.created_at).is_none() {
            proof {
                assert(!valid_moment(ms[k as int].created_at));
            }
            return false;
        }
        proof {
            if k > 0 {
                assert(ms[k - 1] == v@[k - 1]@);
                assert forall|i: int, j: int| 0 <= i < j < k + 1 implies #[trigger] ms[i].id < #[trigger] ms[j].id by {
                    if j == k && i < k - 1 {
                        assert(ms[i].id < ms[k - 1].id);
                    }
                }
            }
        }
        k = k + 1;
    }
    true
}

fn active_codes_ok(v: &Vec<BanRecord>) -> (b: bool)
    ensures
        b == active_codes_distinct(ban_record_views(v@)),
{
    let ghost ms = ban_record_views(v@);
    let n = v.len();
    let mut k: usize = 0;
    while k < n
        invariant
            n == v@.len(),
            ms == ban_record_views(v@),
            k <= n,
            forall|i: int, j: int|
                0 <= i < j < k && #[trigger] ms[i].active && #[trigger] ms[j].active ==> ms[i].ban_id
                    != ms[j].ban_id,
        decreases n - k,
    {
        proof {
            assert(ms[k as int] == v@[k as int]@);
        }
        if v[k].active {
            let mut j: usize = 0;
            while j < k
                invariant
                    n == v@.len(),
                    ms == ban_record_views(v@),
                    j <= k < n,
                    ms[k as int].active,
                    forall|a: int| 0 <= a < j && #[trigger] ms[a].active ==> ms[a].ban_id != ms[k as int].ban_id,
                decreases k - j,
            {
                proof {
                    assert(ms[j as int] == v@[j as int]@);
                    assert(ms[k as int] == v@[k as int]@);
                }
                if v[j].active && str_equal(v[j].ban_id.as_str(), v[k].ban_id.as_str()) {
                    proof {
                        assert(ms[j as int].active && ms[k as int].active);
                        assert(ms[j as int].ban_id == ms[k as int].ban_id);
                    }
                    return false;
                }
                j = j + 1;
            }
        }
        k = k + 1;
    }
    true
}

fn user_states_ok(v: &Vec<UserState>) -> (b: bool)
    ensures
        b == user_states_wf(user_state_views(v@)),
{
    let ghost ms = user_state_views(v@);
    let n = v.len();
    let mut k: usize = 0;
    while k < n
        invariant
            n == v@.len(),
            ms == user_state_views(v@),
            k <= n,
            forall|i: int, j: int| 0 <= i < j < k ==> #[trigger] ms[i].user_id != #[trigger] ms[j].user_id,
        decreases n - k,
    {
        let uid = v[k].user_id;
        proof {
            assert(ms[k as int].user_id == uid);
        }
        let mut j: usize = 0;
        while j < k
            invariant
                n == v@.len(),
                ms == user_state_views(v@),
                j <= k < n,
                ms[k as int].user_id == uid,
                forall|a: int| 0 <= a < j ==> #[trigger] ms[a].user_id != uid,
            decreases k - j,
        {
            proof {
                assert(ms[j as int] == v@[j as int]@);
            }
            if v[j].user_id == uid {
                proof {
                    assert(ms[j as int].user_id == ms[k as int].user_id);
                }
                return false;
            }
            j = j + 1;
        }
        k = k + 1;
    }
    true
}

fn ids_distinct(v: &Vec<i64>) -> (b: bool)
    ensures
        b == banned_wf(v@),
{
    let n = v.len();
    let mut k: usize = 0;
    while k < n
        invariant
            n == v@.len(),
            k <= n,
            forall|i: int, j: int| 0 <= i < j < k ==> #[trigger] v@[i] != #[trigger] v@[j],
        decreases n - k,
    {
        let mut j: usize = 0;
        while j < k
            invariant
                n == v@.len(),
                j <= k < n,
                forall|a: int| 0 <= a < j ==> #[trigger] v@[a] != v@[k as int],
            decreases k - j,
        {
            if v[j] == v[k] {
                proof {
                    assert(v@[j as int] == v@[k as int]);
                }
                return false;
            }
            j = j + 1;
        }
        k = k + 1;
    }
    true
}

impl Database {
    /// The store that `rows` describe, when they satisfy the store's
    /// invariant (ids growing within the last ids, unique keys, moments
    /// chrono can render); nothing otherwise.
    pub fn from_rows(rows: StoreRows) -> (r: Option<Database>)
        ensures
            r is Some <==> rows@.wf(),
            r matches Some(db) ==> db@ == rows@,
    {
        if rows.last_message_id < 0 || rows.last_admin_id < 0 || rows.last_ban_record_id < 0 {
            return None;
        }
        if !messages_ok(&rows.messages, rows.last_message_id) {
            return None;
        }
        if !admins_ok(&rows.admins, rows.last_admin_id) {
            return None;
        }
        if !ids_distinct(&rows.banned) {
            return None;
        }
        if !ban_records_ok(&rows.ban_records, rows.last_ban_record_id) {
            return None;
        }
        if !active_codes_ok(&rows.ban_records) {
            return None;
        }
        if !user_states_ok(&rows.user_states) {
            return None;
        }
        let db = Database {
            language: rows.language,
            messages: rows.messages,
            last_message_id: rows.last_message_id,
            admins: rows.admins,
            last_admin_id: rows.last_admin_id,
            banned: rows.banned,
            ban_records: rows.ban_records,
            last_ban_record_id: rows.last_ban_record_id,
            user_states: rows.user_states,
        };
        Some(db)
    }

    /// A copy of every row and of the last ids, for a persistent copy of the store.
    pub fn to_rows(&self) -> (r: StoreRows)
        ensures
            r@ == self@,
    {
        let mut messages: Vec<Message> = Vec::new();
        let n = self.messages.len();
        let mut i: usize = 0;
        while i < n
            invariant
                n == self.messages@.len(),
                i <= n,
                messages@ == self.messages@.take(i as int),
            decreases n - i,
        {
            messages.push(self.messages[i].clone());
            proof {
                assert(messages@ =~= self.messages@.take(i + 1));
            }
            i = i + 1;
        }
        let mut records: Vec<BanRecord> = Vec::new();
        let n = self.ban_records.len();
        let mut i: usize = 0;
        while i < n
            invariant
                n == self.ban_records@.len(),
                i <= n,
                records@ == self.ban_records@.take(i as int),
            decreases n - i,
        {
            records.push(self.ban_records[i].clone());
            proof {
                assert(records@ =~= self.ban_records@.take(i + 1));
            }
            i = i + 1;
        }
        let mut states: Vec<UserState> = Vec::new();
        let n = self.user_states.len();
        let mut i: usize = 0;
        while i < n
            invariant
                n == self.user_states@.len(),
                i <= n,
                states@ == self.user_states@.take(i as int),
            decreases n - i,
        {
            states.push(self.user_states[i].clone());
            proof {
                assert(states@ =~= self.user_states@.take(i + 1));
            }
            i = i + 1;
        }
        let mut banned: Vec<i64> = Vec::new();
        let n = self.banned.len();
        let mut i: usize = 0;
        while i < n
            invariant
                n == self.banned@.len(),
                i <= n,
                banned@ == self.banned@.take(i as int),
            decreases n - i,
        {
            banned.push(self.banned[i]);
            proof {
                assert(banned@ =~= self.banned@.take(i + 1));
            }
            i = i + 1;
        }
        proof {
            assert(messages@ =~= self.messages@);
            assert(records@ =~= self.ban_records@);
            assert(states@ =~= self.user_states@);
            assert(banned@ =~= self.banned@);
        }
        StoreRows {
            language: clone_opt_string(&self.language),
            messages,
            last_message_id: self.last_message_id,
            admins: self.get_admins(),
            last_admin_id: self.last_admin_id,
            banned,
            ban_records: records,
            last_ban_record_id: self.last_ban_record_id,
            user_states: states,
        }
    }
}

} // verus!
