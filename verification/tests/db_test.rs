use posterbot::db::models::{NewMessage, UserState};
use posterbot::db::Database;
use posterbot::db::repository::{DbError, StoreRows};
use posterbot::locales::Locale;

fn setup_db() -> Database {
    Database::new()
}

fn new_message(tg_id: i32, text: &str, media_type: &str, file: &str, group: Option<&str>, gid: &str) -> NewMessage {
    NewMessage {
        chat_id: 1,
        telegram_message_id: tg_id,
        sender_id: 50,
        message_text: text.into(),
        media_type: media_type.into(),
        media_file_id: file.into(),
        media_group_id: group.map(|g| g.to_string()),
        proposal_group_id: gid.into(),
        channel_id: 2,
        parent_message_id: None,
    }
}

#[test]
fn test_save_message_prevents_duplicates() {
    let mut db = setup_db();

    let msg = NewMessage {
        chat_id: 1,
        telegram_message_id: 100,
        sender_id: 50,
        message_text: "Test".into(),
        media_type: "text".into(),
        media_file_id: "".into(),
        media_group_id: None,
        proposal_group_id: "g1".into(),
        channel_id: 2,
        parent_message_id: None,
    };

    let inserted_first = db.save_message(&msg).unwrap();
    assert!(inserted_first);

    let inserted_second = db.save_message(&msg).unwrap();
    assert!(!inserted_second);
}

#[test]
fn test_get_next_pending_proposal_groups_items() {
    let mut db = setup_db();

    // A media group (2 items with the same proposal_group_id)
    let msg1 = NewMessage {
        chat_id: 1,
        telegram_message_id: 101,
        sender_id: 50,
        message_text: "Photo 1".into(),
        media_type: "photo".into(),
        media_file_id: "fid1".into(),
        media_group_id: Some("tg_group_1".into()),
        proposal_group_id: "tg_group_1".into(),
        channel_id: 2,
        parent_message_id: None,
    };
    let msg2 = NewMessage {
        chat_id: 1,
        telegram_message_id: 102,
        sender_id: 50,
        message_text: "Photo 2".into(),
        media_type: "photo".into(),
        media_file_id: "fid2".into(),
        media_group_id: Some("tg_group_1".into()),
        proposal_group_id: "tg_group_1".into(),
        channel_id: 2,
        parent_message_id: None,
    };
    // A separate single proposal
    let msg3 = NewMessage {
        chat_id: 1,
        telegram_message_id: 103,
        sender_id: 50,
        message_text: "Text".into(),
        media_type: "text".into(),
        media_file_id: "".into(),
        media_group_id: None,
        proposal_group_id: "single_1".into(),
        channel_id: 2,
        parent_message_id: None,
    };

    db.save_message(&msg1).unwrap();
    db.save_message(&msg2).unwrap();
    db.save_message(&msg3).unwrap();

    let proposal = db.get_next_pending_proposal().unwrap();

    assert_eq!(proposal.messages.len(), 2);
    assert_eq!(proposal.group_id, "tg_group_1");
}

#[test]
fn test_user_state_upsert() {
    let mut db = setup_db();

    db.set_user_state(99, "reason", 100);

    let state: UserState = db.get_user_state(99).unwrap();
    assert_eq!(state.state, "reason");
    assert_eq!(state.temp_target_id, 100);

    // Update existing state
    db.set_user_state(99, "ban_reason", 200);

    let state_updated: UserState = db.get_user_state(99).unwrap();
    assert_eq!(state_updated.state, "ban_reason");
    assert_eq!(state_updated.temp_target_id, 200);

    db.clear_user_state(99);
    let state_cleared: UserState = db.get_user_state(99).unwrap();
    assert_eq!(state_cleared.state, "none");
    assert_eq!(state_cleared.temp_target_id, 0);
}

#[test]
fn test_ban_flow() {
    let mut db = setup_db();

    let ban_id = db.create_ban_record(123, "Spam").unwrap();

    assert!(db.is_banned(123) == false); // Not banned yet, only record created

    db.ban_user(123);
    assert!(db.is_banned(123));

    let record = db.get_ban_record(&ban_id).unwrap();
    assert_eq!(record.user_id, 123);
    assert_eq!(record.reason, "Spam");

    db.deactivate_ban(&ban_id);
    assert!(db.get_ban_record(&ban_id).is_none());
}

#[test]
fn test_language_defaults_to_english_and_roundtrips() {
    let mut db = setup_db();
    assert_eq!(db.get_language(), Locale::En);
    db.set_language(Locale::Ru);
    assert_eq!(db.get_language(), Locale::Ru);
    db.set_language(Locale::En);
    assert_eq!(db.get_language(), Locale::En);
}

#[test]
fn test_message_ids_grow_and_lookup() {
    let mut db = setup_db();
    assert!(db.save_message(&new_message(1, "a", "text", "", None, "g1")).unwrap());
    assert!(db.save_message(&new_message(2, "b", "text", "", None, "g2")).unwrap());
    let m1 = db.get_message_by_id(1).unwrap();
    let m2 = db.get_message_by_id(2).unwrap();
    assert_eq!(m1.message_text, "a");
    assert_eq!(m2.message_text, "b");
    assert_eq!(m1.status, "pending");
    assert_eq!(m1.channel_message_id, None);
    assert!(db.get_message_by_id(3).is_none());
    assert!(db.message_exists(1, 2));
    assert!(!db.message_exists(2, 2));
    // Deleting the newest row does not free its id.
    db.delete_proposal("g2");
    assert!(db.save_message(&new_message(3, "c", "text", "", None, "g3")).unwrap());
    assert_eq!(db.get_message_by_id(3).unwrap().message_text, "c");
    assert!(db.get_message_by_id(2).is_none());
}

#[test]
fn test_decided_group_leaves_queue() {
    let mut db = setup_db();
    db.save_message(&new_message(1, "first", "text", "", None, "g1")).unwrap();
    db.save_message(&new_message(2, "second", "text", "", None, "g2")).unwrap();
    assert_eq!(db.get_next_pending_proposal().unwrap().group_id, "g1");
    db.update_proposal_status("g1", "approved");
    db.update_channel_message_id("g1", 77);
    let approved = db.get_proposal_by_group_id("g1").unwrap();
    assert_eq!(approved.messages[0].status, "approved");
    assert_eq!(approved.messages[0].channel_message_id, Some(77));
    assert_eq!(db.get_next_pending_proposal().unwrap().group_id, "g2");
    db.delete_proposal("g2");
    assert!(db.get_proposal_by_group_id("g2").is_none());
    assert!(db.get_next_pending_proposal().is_none());
}

#[test]
fn test_admins_add_remove() {
    let mut db = setup_db();
    assert!(!db.is_admin(5));
    db.add_admin(5, "alice").unwrap();
    db.ensure_admin(5, "other name").unwrap();
    db.add_admin(6, "bob").unwrap();
    assert!(db.is_admin(5));
    let admins = db.get_admins();
    assert_eq!(admins.len(), 2);
    assert_eq!(admins[0].user_name, "alice");
    assert_eq!(admins[0].id, 1);
    assert_eq!(admins[1].user_id, 6);
    db.remove_admin(5);
    assert!(!db.is_admin(5));
    assert_eq!(db.get_admins().len(), 1);
}

#[test]
fn test_pardon_lifts_ban() {
    let mut db = setup_db();
    db.ban_user(8);
    db.ban_user(8);
    db.ban_user(9);
    assert!(db.is_banned(8));
    db.pardon_user(8);
    assert!(!db.is_banned(8));
    assert!(db.is_banned(9));
}

#[test]
fn test_active_ban_records_newest_first() {
    let mut db = setup_db();
    let a = db.create_ban_record_with(1, "one", "BAN-AAAAAA".to_string(), 1_000).unwrap();
    let b = db.create_ban_record_with(2, "two", "BAN-BBBBBB".to_string(), 3_000).unwrap();
    let c = db.create_ban_record_with(3, "three", "BAN-CCCCCC".to_string(), 3_000).unwrap();
    assert_eq!(a, "BAN-AAAAAA");
    let list = db.get_active_ban_records();
    let ids: Vec<&str> = list.iter().map(|r| r.ban_id.as_str()).collect();
    assert_eq!(ids, vec![c.as_str(), b.as_str(), a.as_str()]);
    db.deactivate_ban(&b);
    let list = db.get_active_ban_records();
    assert_eq!(list.len(), 2);
    assert_eq!(list[0].reason, "three");
    assert_eq!(list[1].reason, "one");
}

#[test]
fn test_clear_state_without_state_changes_nothing() {
    let mut db = setup_db();
    db.clear_user_state(42);
    assert!(db.get_user_state(42).is_none());
    db.set_user_state(1, "reason", 2);
    db.set_user_state(3, "reply_mode", 4);
    db.clear_user_state(1);
    let other = db.get_user_state(3).unwrap();
    assert_eq!(other.state, "reply_mode");
    assert_eq!(other.temp_target_id, 4);
}

#[test]
fn test_queue_orders_by_creation_time() {
    let mut db = setup_db();
    db.save_message_at(&new_message(1, "late", "text", "", None, "late"), 5_000).unwrap();
    db.save_message_at(&new_message(2, "early", "text", "", None, "early"), 1_000).unwrap();
    db.save_message_at(&new_message(3, "tie", "text", "", None, "tie"), 1_000).unwrap();
    assert_eq!(db.get_next_pending_proposal().unwrap().group_id, "early");
}

#[test]
fn test_rows_roundtrip_restores_store() {
    let mut db = setup_db();
    db.set_language(Locale::Ru);
    db.save_message_at(&new_message(1, "a", "text", "", None, "g1"), 1_000).unwrap();
    db.save_message_at(&new_message(2, "b", "text", "", None, "g2"), 2_000).unwrap();
    db.delete_proposal("g2");
    db.add_admin(5, "alice").unwrap();
    db.ban_user(7);
    db.create_ban_record_with(7, "spam", "BAN-ABCDEF".to_string(), 1_500).unwrap();
    db.set_user_state(5, "reason", 9);

    let rows = db.to_rows();
    assert_eq!(rows.language.as_deref(), Some("ru"));
    assert_eq!(rows.messages.len(), 1);
    assert_eq!(rows.last_message_id, 2);
    assert_eq!(rows.banned, vec![7]);

    let mut restored = Database::from_rows(rows).unwrap();
    assert_eq!(restored.get_language(), Locale::Ru);
    assert_eq!(restored.get_message_by_id(1).unwrap().message_text, "a");
    assert!(restored.is_banned(7));
    assert!(restored.is_admin(5));
    assert_eq!(restored.get_ban_record("BAN-ABCDEF").unwrap().reason, "spam");
    assert_eq!(restored.get_user_state(5).unwrap().temp_target_id, 9);
    // The id of the deleted row stays used.
    assert!(restored.save_message(&new_message(3, "c", "text", "", None, "g3")).unwrap());
    assert!(restored.get_message_by_id(3).is_some());
}

fn empty_rows() -> StoreRows {
    StoreRows {
        language: None,
        messages: vec![],
        last_message_id: 0,
        admins: vec![],
        last_admin_id: 0,
        banned: vec![],
        ban_records: vec![],
        last_ban_record_id: 0,
        user_states: vec![],
    }
}

#[test]
fn test_rows_that_break_the_invariant_are_refused() {
    assert!(Database::from_rows(empty_rows()).is_some());

    let mut rows = empty_rows();
    rows.banned = vec![3, 3];
    assert!(Database::from_rows(rows).is_none());

    let mut rows = empty_rows();
    rows.last_admin_id = -1;
    assert!(Database::from_rows(rows).is_none());

    // A message id above the last id handed out.
    let mut db = setup_db();
    db.save_message(&new_message(1, "a", "text", "", None, "g1")).unwrap();
    let mut rows = db.to_rows();
    rows.last_message_id = 0;
    assert!(Database::from_rows(rows).is_none());

    let mut rows = empty_rows();
    rows.user_states = vec![
        UserState { user_id: 1, state: "reason".into(), temp_target_id: 2 },
        UserState { user_id: 1, state: "none".into(), temp_target_id: 0 },
    ];
    assert!(Database::from_rows(rows).is_none());
}

#[test]
fn test_active_appeal_code_names_one_ban() {
    let mut db = setup_db();
    db.create_ban_record_with(1, "one", "BAN-AAAAAA".to_string(), 1_000).unwrap();
    assert_eq!(
        db.create_ban_record_with(2, "two", "BAN-AAAAAA".to_string(), 2_000),
        Err(DbError::AppealCodeTaken)
    );
    assert_eq!(db.get_active_ban_records().len(), 1);
    assert_eq!(db.get_ban_record("BAN-AAAAAA").unwrap().user_id, 1);
    // Once lifted, the code is free again.
    db.deactivate_ban("BAN-AAAAAA");
    assert_eq!(db.create_ban_record_with(2, "two", "BAN-AAAAAA".to_string(), 2_000).unwrap(), "BAN-AAAAAA");
    assert_eq!(db.get_ban_record("BAN-AAAAAA").unwrap().user_id, 2);
    // Random codes are fresh.
    let code = db.create_ban_record(3, "three").unwrap();
    assert_ne!(code, "BAN-AAAAAA");
    assert_eq!(db.get_ban_record(&code).unwrap().user_id, 3);
}

#[test]
fn test_rows_with_shared_active_code_are_refused() {
    let mut db = setup_db();
    db.create_ban_record_with(1, "one", "BAN-AAAAAA".to_string(), 1_000).unwrap();
    db.create_ban_record_with(2, "two", "BAN-BBBBBB".to_string(), 2_000).unwrap();
    let mut rows = db.to_rows();
    rows.ban_records[1].ban_id = "BAN-AAAAAA".to_string();
    assert!(Database::from_rows(rows).is_none());
    let mut rows = db.to_rows();
    rows.ban_records[1].ban_id = "BAN-AAAAAA".to_string();
    rows.ban_records[0].active = false;
    assert!(Database::from_rows(rows).is_some());
}
