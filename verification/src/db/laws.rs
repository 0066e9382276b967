//! What the store's operations promise together.

use vstd::prelude::*;

use crate::db::models::{AdminView, BanRecordView, MessageView, NewMessage, UserStateView};
use crate::db::repository::{DbView, idle_state, pending_status, stored_message, with_user_state};
use crate::locales::{Locale, lemma_parse_as_str};
use crate::seq_facts::{first_match, lemma_filter_empty, lemma_first_match_at, lemma_first_match_none};

verus! {

/// A saved message is known to the store afterwards, so saving it again
/// answers `false` and changes nothing.
pub proof fn lemma_saved_message_is_known(db: DbView, msg: NewMessage, now: i64)
    ensures
        db.save_effect(msg, now).has_message(msg.chat_id, msg.telegram_message_id),
{
    let after = db.save_effect(msg, now);
    let k = after.messages.len() - 1;
    assert(after.messages[k] == stored_message(msg, (db.last_message_id + 1) as i64, now));
    assert(after.messages[k].chat_id == msg.chat_id);
}

/// After a language is set, the store speaks it.
pub proof fn lemma_language_roundtrip(db: DbView, lang: Locale)
    ensures
        db.language_effect(lang).language_setting() == lang,
{
    lemma_parse_as_str(lang);
}

/// After a dialogue state is stored for a user, reading it back gives
/// exactly that state.
pub proof fn lemma_set_state_then_get(db: DbView, user_id: i64, state: Seq<char>, target: i64)
    requires
        db.wf(),
    ensures
        db.set_state_effect(user_id, state, target).user_state(user_id) == Some(
            UserStateView { user_id: user_id, state: state, temp_target_id: target },
        ),
{
    let v = UserStateView { user_id: user_id, state: state, temp_target_id: target };
    let p = |s: UserStateView| s.user_id == user_id;
    let ss = db.user_states;
    if db.user_state(user_id) is Some {
        let k = stored_index(db, user_id);
        let after = db.set_state_effect(user_id, state, target).user_states;
        assert(after.len() == ss.len());
        assert(after[k] == with_user_state(ss[k], user_id, v));
        assert forall|j: int| 0 <= j < k implies !p(#[trigger] after[j]) by {
            assert(after[j] == with_user_state(ss[j], user_id, v));
        }
        lemma_first_match_at(after, p, k);
    } else {
        assert forall|j: int| 0 <= j < ss.len() implies !p(#[trigger] ss[j]) by {
            if p(ss[j]) {
                ss.lemma_filter_contains(p, j);
            }
        }
        let after = ss.push(v);
        assert forall|j: int| 0 <= j < ss.len() implies !p(#[trigger] after[j]) by {
            assert(after[j] == ss[j]);
        }
        lemma_first_match_at(after, p, ss.len() as int);
    }
}

/// Where the state of `user_id` is stored, when one is: the only index
/// holding that user.
proof fn stored_index(db: DbView, user_id: i64) -> (k: int)
    requires
        db.wf(),
        db.user_state(user_id) is Some,
    ensures
        0 <= k < db.user_states.len(),
        db.user_states[k].user_id == user_id,
        forall|j: int| 0 <= j < db.user_states.len() && j != k ==> #[trigger] db.user_states[j].user_id != user_id,
{
    let p = |s: UserStateView| s.user_id == user_id;
    let ss = db.user_states;
    ss.lemma_filter_pred(p, 0);
    assert(ss.filter(p).contains(ss.filter(p)[0]));
    ss.lemma_filter_contains_rev(p, ss.filter(p)[0]);
    let k = choose|k: int| 0 <= k < ss.len() && ss[k] == ss.filter(p)[0];
    assert forall|j: int| 0 <= j < ss.len() && j != k implies #[trigger] ss[j].user_id != user_id by {
        if j < k {
            assert(ss[j].user_id != ss[k].user_id);
        } else {
            assert(ss[k].user_id != ss[j].user_id);
        }
    }
    k
}

/// Storing a state for one user leaves every other user's state as it was.
pub proof fn lemma_set_state_keeps_others(
    db: DbView,
    user_id: i64,
    state: Seq<char>,
    target: i64,
    other: i64,
)
    requires
        db.wf(),
        other != user_id,
    ensures
        db.set_state_effect(user_id, state, target).user_state(other) == db.user_state(other),
{
    let v = UserStateView { user_id: user_id, state: state, temp_target_id: target };
    let p = |s: UserStateView| s.user_id == other;
    let ss = db.user_states;
    let after = db.set_state_effect(user_id, state, target).user_states;
    assert(forall|j: int| 0 <= j < ss.len() ==> ((#[trigger] after[j]).user_id == other <==> ss[j].user_id == other)) by {
        assert forall|j: int| 0 <= j < ss.len() implies ((#[trigger] after[j]).user_id == other <==> ss[j].user_id == other) by {
            if db.user_state(user_id) is Some {
                assert(after[j] == with_user_state(ss[j], user_id, v));
            } else {
                assert(after[j] == ss[j]);
            }
        }
    }
    if db.user_state(other) is Some {
        let k = stored_index(db, other);
        assert(after[k] == ss[k]) by {
            if db.user_state(user_id) is Some {
                assert(after[k] == with_user_state(ss[k], user_id, v));
            }
        }
        assert forall|j: int| 0 <= j < k implies !p(#[trigger] ss[j]) by {}
        assert forall|j: int| 0 <= j < k implies !p(#[trigger] after[j]) by {
            assert(!p(ss[j]));
        }
        lemma_first_match_at(after, p, k);
        lemma_first_match_at(ss, p, k);
    } else {
        assert forall|j: int| 0 <= j < ss.len() implies !p(#[trigger] ss[j]) by {
            if p(ss[j]) {
                ss.lemma_filter_contains(p, j);
            }
        }
        assert forall|j: int| 0 <= j < after.len() implies !p(#[trigger] after[j]) by {
            if j == ss.len() {
                assert(after[j] == v);
            }
        }
        lemma_first_match_none(after, p);
    }
}

/// Clearing the state of a user that has one leaves it idle: step `none`, subject 0.
pub proof fn lemma_clear_state_then_get(db: DbView, user_id: i64)
    requires
        db.wf(),
        db.user_state(user_id) is Some,
    ensures
        db.clear_state_effect(user_id).user_state(user_id) == Some(
            UserStateView { user_id: user_id, state: idle_state(), temp_target_id: 0 },
        ),
{
    lemma_set_state_then_get(db, user_id, idle_state(), 0);
}

/// A user added as moderator is one afterwards.
pub proof fn lemma_admin_added(db: DbView, user_id: i64, name: Seq<char>)
    ensures
        db.add_admin_effect(user_id, name).is_admin(user_id),
{
    let after = db.add_admin_effect(user_id, name);
    let k = after.admins.len() - 1;
    assert(after.admins[k].user_id == user_id);
}

/// A user removed from the moderators is none afterwards.
pub proof fn lemma_admin_removed(db: DbView, user_id: i64)
    ensures
        !db.remove_admin_effect(user_id).is_admin(user_id),
{
    let p = |a: AdminView| a.user_id != user_id;
    let after = db.remove_admin_effect(user_id).admins;
    assert forall|i: int| 0 <= i < after.len() implies #[trigger] after[i].user_id != user_id by {
        db.admins.lemma_filter_pred(p, i);
    }
}

/// A banned user is banned afterwards.
pub proof fn lemma_ban_then_banned(db: DbView, user_id: i64)
    ensures
        db.ban_effect(user_id).is_banned(user_id),
{
    if !db.banned.contains(user_id) {
        let after = db.ban_effect(user_id).banned;
        assert(after[after.len() - 1] == user_id);
    }
}

/// A pardoned user is not banned afterwards.
pub proof fn lemma_pardon_unbans(db: DbView, user_id: i64)
    ensures
        !db.pardon_effect(user_id).is_banned(user_id),
{
    let p = crate::db::repository::other_user(user_id);
    let after = db.pardon_effect(user_id).banned;
    assert forall|i: int| 0 <= i < after.len() implies #[trigger] after[i] != user_id by {
        db.banned.lemma_filter_pred(p, i);
    }
}

/// Recording a ban is not banning: who is banned stays as it was.
pub proof fn lemma_record_keeps_bans(
    db: DbView,
    user_id: i64,
    reason: Seq<char>,
    ban_id: Seq<char>,
    now: i64,
    who: i64,
)
    ensures
        db.record_effect(user_id, reason, ban_id, now).is_banned(who) == db.is_banned(who),
{
}

/// A ban recorded under an appeal code that no active record uses is found
/// by that code afterwards, with its user and reason.
pub proof fn lemma_record_then_found(
    db: DbView,
    user_id: i64,
    reason: Seq<char>,
    ban_id: Seq<char>,
    now: i64,
)
    requires
        db.active_ban_record(ban_id) is None,
    ensures
        db.record_effect(user_id, reason, ban_id, now).active_ban_record(ban_id) == Some(
            BanRecordView {
                id: (db.last_ban_record_id + 1) as i64,
                ban_id: ban_id,
                user_id: user_id,
                reason: reason,
                created_at: now,
                active: true,
            },
        ),
{
    let p = |r: BanRecordView| r.active && r.ban_id == ban_id;
    let rs = db.ban_records;
    assert forall|j: int| 0 <= j < rs.len() implies !p(#[trigger] rs[j]) by {
        if p(rs[j]) {
            rs.lemma_filter_contains(p, j);
        }
    }
    let after = db.record_effect(user_id, reason, ban_id, now).ban_records;
    assert forall|j: int| 0 <= j < rs.len() implies !p(#[trigger] after[j]) by {
        assert(after[j] == rs[j]);
    }
    lemma_first_match_at(after, p, rs.len() as int);
}

/// Once the records under an appeal code are deactivated, that code finds no ban.
pub proof fn lemma_lift_then_gone(db: DbView, ban_id: Seq<char>)
    ensures
        db.lift_effect(ban_id).active_ban_record(ban_id) is None,
{
    let p = |r: BanRecordView| r.active && r.ban_id == ban_id;
    let after = db.lift_effect(ban_id).ban_records;
    assert forall|j: int| 0 <= j < after.len() implies !p(#[trigger] after[j]) by {
        assert(after[j] == crate::db::repository::with_ban_lifted(db.ban_records[j], ban_id));
    }
    lemma_first_match_none(after, p);
}

/// Once a group is given a status other than `pending`, the moderation
/// queue no longer leads to it.
pub proof fn lemma_decided_group_leaves_queue(db: DbView, gid: Seq<char>, status: Seq<char>)
    requires
        status != pending_status(),
    ensures
        forall|i: int|
            0 <= i < db.status_effect(gid, status).messages.len() && (
            #[trigger] db.status_effect(gid, status).messages[i]).proposal_group_id == gid
                ==> db.status_effect(gid, status).messages[i].status != pending_status(),
        db.status_effect(gid, status).next_pending_group() != Some(gid),
{
    let after = db.status_effect(gid, status);
    assert forall|i: int|
        0 <= i < after.messages.len() && (#[trigger] after.messages[i]).proposal_group_id == gid
            implies after.messages[i].status != pending_status() by {
        assert(after.messages[i] == crate::db::repository::with_group_status(db.messages[i], gid, status));
    }
    if exists|k: int| after.is_queue_head(k) {
        let k = choose|k: int| after.is_queue_head(k);
        assert(after.messages[k].status == pending_status());
    }
}

/// Once a group is deleted, no proposal is made of it.
pub proof fn lemma_deleted_group_gone(db: DbView, gid: Seq<char>)
    ensures
        db.delete_effect(gid).proposal_of(gid) is None,
{
    let after = db.delete_effect(gid).messages;
    let q = |m: MessageView| m.proposal_group_id != gid;
    let p = |m: MessageView| m.proposal_group_id == gid;
    assert forall|j: int| 0 <= j < after.len() implies !p(#[trigger] after[j]) by {
        db.messages.lemma_filter_pred(q, j);
    }
    lemma_filter_empty(after, p);
}

} // verus!
