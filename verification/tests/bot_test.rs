use posterbot::bot::admin::{finish_add_admin, user_name_from};
use posterbot::bot::effects::{Effect, MediaKind, Outgoing};
use posterbot::bot::incoming::{IncomingCallback, IncomingMessage};
use posterbot::bot::media::{extract_media_info, extract_message_text, publish_request_for, requests_for_moderation};
use posterbot::bot::moderation::{finish_approve, handle_callback, CallbackStep, PublishOutcome};
use posterbot::bot::{handle_message, BotError, MessageStep};
use posterbot::config::Config;
use posterbot::db::models::{Message, NewMessage, Proposal};
use posterbot::db::Database;
use posterbot::locales::{L10n, Locale};

const OWNER: i64 = 1;
const CHANNEL: i64 = -100;

fn config() -> Config {
    Config {
        bot_token: "t".into(),
        owner_id: OWNER,
        owner_name: "Owner".into(),
        channel_id: CHANNEL,
        bot_username: "mybot".into(),
        db_path: "x".into(),
    }
}

fn text_msg(from: i64, chat: i64, id: i32, text: &str) -> IncomingMessage {
    IncomingMessage {
        message_id: id,
        chat_id: chat,
        chat_is_group: false,
        from_id: Some(from),
        text: Some(text.to_string()),
        caption: None,
        media_group_id: None,
        photo: None,
        document: None,
        video: None,
        audio: None,
        voice: None,
        sticker: None,
        video_note: None,
    }
}

fn done(r: Result<MessageStep, BotError>) -> Vec<Effect> {
    match r {
        Ok(MessageStep::Done(v)) => v,
        other => panic!("unexpected step {:?}", other),
    }
}

fn cb_done(r: Result<CallbackStep, BotError>) -> Vec<Effect> {
    match r {
        Ok(CallbackStep::Done(v)) => v,
        other => panic!("unexpected step {:?}", other),
    }
}

/// (chat, text, required) of a plain text effect.
fn text_of(e: &Effect) -> (i64, String, bool) {
    match e {
        Effect::Send { request: Outgoing::Text { chat_id, text, .. }, required } => (*chat_id, text.clone(), *required),
        other => panic!("not a text: {:?}", other),
    }
}

fn answer_of(e: &Effect) -> String {
    match e {
        Effect::Send { request: Outgoing::AnswerCallback { text, .. }, required: true } => text.clone(),
        other => panic!("not an answer: {:?}", other),
    }
}

fn callback(from: i64, data: &str) -> IncomingCallback {
    IncomingCallback { id: "cb1".into(), from_id: from, message: Some((from, 900)), data: Some(data.into()) }
}

#[test]
fn test_start_answers_by_role() {
    let mut db = Database::new();
    let cfg = config();
    db.add_admin(2, "mod").unwrap();
    db.ban_user(3);
    let e = done(handle_message(&mut db, &cfg, &text_msg(5, 5, 1, "/start")));
    assert_eq!(text_of(&e[0]), (5, L10n::welcome(Locale::En).to_string(), true));
    let e = done(handle_message(&mut db, &cfg, &text_msg(OWNER, OWNER, 2, "/START")));
    assert_eq!(text_of(&e[0]).1, L10n::owner_panel(Locale::En));
    let e = done(handle_message(&mut db, &cfg, &text_msg(2, 2, 3, "//start")));
    assert_eq!(text_of(&e[0]).1, L10n::mod_panel(Locale::En));
    let e = done(handle_message(&mut db, &cfg, &text_msg(3, 3, 4, "/start")));
    assert_eq!(text_of(&e[0]).1, L10n::user_banned(Locale::En));
    let e = done(handle_message(&mut db, &cfg, &text_msg(5, 5, 5, "/unknown")));
    assert!(e.is_empty());
}

#[test]
fn test_message_without_sender_is_ignored() {
    let mut db = Database::new();
    let mut m = text_msg(5, 5, 1, "hello");
    m.from_id = None;
    assert!(done(handle_message(&mut db, &config(), &m)).is_empty());
    assert!(db.get_next_pending_proposal().is_none());
}

#[test]
fn test_proposal_is_saved_and_moderators_notified() {
    let mut db = Database::new();
    let cfg = config();
    db.add_admin(2, "mod").unwrap();
    db.add_admin(4, "mod2").unwrap();
    let e = done(handle_message(&mut db, &cfg, &text_msg(5, 5, 10, "My idea")));
    assert_eq!(e.len(), 3);
    assert_eq!(text_of(&e[0]), (5, L10n::proposal_accepted(Locale::En).to_string(), true));
    let p = db.get_next_pending_proposal().unwrap();
    assert!(p.group_id.starts_with("single_"));
    assert_eq!(p.group_id.len(), "single_".len() + 36);
    let note = L10n::new_proposal_notif(Locale::En, &p.group_id, "My idea", "text");
    assert_eq!(text_of(&e[1]), (2, note.clone(), false));
    assert_eq!(text_of(&e[2]), (4, note, false));
    let m = p.first();
    assert_eq!(m.sender_id, 5);
    assert_eq!(m.media_type, "text");
    assert_eq!(m.channel_id, CHANNEL);
    // The same message again is ignored.
    assert!(done(handle_message(&mut db, &cfg, &text_msg(5, 5, 10, "My idea"))).is_empty());
    // Messages in groups are ignored.
    let mut g = text_msg(5, -5, 11, "group talk");
    g.chat_is_group = true;
    assert!(done(handle_message(&mut db, &cfg, &g)).is_empty());
    // Banned users are told so.
    db.ban_user(5);
    let e = done(handle_message(&mut db, &cfg, &text_msg(5, 5, 12, "again")));
    assert_eq!(text_of(&e[0]).1, L10n::user_banned(Locale::En));
}

#[test]
fn test_media_info_and_text() {
    let mut m = text_msg(5, 5, 1, "x");
    m.text = None;
    m.photo = Some(vec!["small".into(), "large".into()]);
    assert_eq!(extract_media_info(&m, Locale::En), ("photo".to_string(), "large".to_string()));
    assert_eq!(extract_message_text(&m, Locale::En), L10n::photo_text(Locale::En));
    m.caption = Some("cap".into());
    assert_eq!(extract_message_text(&m, Locale::En), "cap");
    m.caption = None;
    m.media_group_id = Some("album".into());
    assert_eq!(extract_message_text(&m, Locale::En), "");
    let mut v = text_msg(5, 5, 1, "x");
    v.text = None;
    v.voice = Some("vf".into());
    assert_eq!(extract_media_info(&v, Locale::Ru), ("voice".to_string(), "vf".to_string()));
    assert_eq!(extract_message_text(&v, Locale::Ru), L10n::voice_text(Locale::Ru));
    let t = text_msg(5, 5, 1, "only text");
    assert_eq!(extract_media_info(&t, Locale::En), ("text".to_string(), String::new()));
}

#[test]
fn test_moderation_flow_approve() {
    let mut db = Database::new();
    let cfg = config();
    db.add_admin(2, "mod").unwrap();
    done(handle_message(&mut db, &cfg, &text_msg(5, 5, 10, "a < b")));
    let e = done(handle_message(&mut db, &cfg, &text_msg(2, 2, 20, "/proposals")));
    assert_eq!(e.len(), 3);
    assert_eq!(text_of(&e[0]).1, "📨 Proposal (1 item(s)):");
    match &e[1] {
        Effect::Moderation { chat_id: 2, requests, lang: Locale::En } => {
            assert_eq!(requests.len(), 1);
            match &requests[0] {
                Outgoing::Text { text, .. } => assert_eq!(text, "💬 Text proposal:\na < b"),
                other => panic!("{:?}", other),
            }
        },
        other => panic!("{:?}", other),
    }
    match &e[2] {
        Effect::Send { request: Outgoing::Text { text, keyboard, .. }, required: true } => {
            assert!(text.starts_with("📨 Proposal #1\n⏰ "));
            assert_eq!(keyboard[0].data, "approve_1");
            assert_eq!(keyboard[1].data, "reject_1");
        },
        other => panic!("{:?}", other),
    }
    let plan = match handle_callback(&mut db, &cfg, &callback(2, "approve_1")) {
        Ok(CallbackStep::Publish(p)) => p,
        other => panic!("{:?}", other),
    };
    match &plan.request {
        Outgoing::Text { chat_id, text, html: true, link_preview: false, reply_to: None, .. } => {
            assert_eq!(*chat_id, CHANNEL);
            assert_eq!(text, "<blockquote>a &lt; b</blockquote>\n\n<a href=\"https://t.me/mybot?start=reply_1\">💬 Reply</a>");
        },
        other => panic!("{:?}", other),
    }
    let e = finish_approve(&mut db, &plan, PublishOutcome::Posted(Some(555)));
    assert_eq!(answer_of(&e[0]), L10n::published(Locale::En));
    assert!(matches!(e[1], Effect::Send { request: Outgoing::DeleteMessage { chat_id: 2, message_id: 900 }, required: true }));
    assert_eq!(text_of(&e[2]).1, L10n::no_new_proposals(Locale::En));
    let m = db.get_message_by_id(1).unwrap();
    assert_eq!(m.status, "approved");
    assert_eq!(m.channel_message_id, Some(555));
    // A reply to the published post replies to it in the channel.
    let e = done(handle_message(&mut db, &cfg, &text_msg(7, 7, 1, "/start reply_1")));
    assert_eq!(text_of(&e[0]).1, L10n::send_reply_to_post(Locale::En));
    let e = done(handle_message(&mut db, &cfg, &text_msg(7, 7, 2, "my answer")));
    assert_eq!(text_of(&e[0]).1, L10n::reply_accepted(Locale::En));
    assert_eq!(db.get_user_state(7).unwrap().state, "none");
    let reply = db.get_message_by_id(2).unwrap();
    assert_eq!(reply.parent_message_id, Some(1));
    let plan = match handle_callback(&mut db, &cfg, &callback(2, "approve_2")) {
        Ok(CallbackStep::Publish(p)) => p,
        other => panic!("{:?}", other),
    };
    match &plan.request {
        Outgoing::Text { text, reply_to, .. } => {
            assert_eq!(*reply_to, Some(555));
            assert!(text.starts_with("💬 Reply:\n\n<blockquote>my answer</blockquote>"));
        },
        other => panic!("{:?}", other),
    }
    let e = finish_approve(&mut db, &plan, PublishOutcome::Failed);
    assert_eq!(answer_of(&e[0]), L10n::failed_publish(Locale::En));
    assert_eq!(db.get_message_by_id(2).unwrap().status, "pending");
    let e = finish_approve(&mut db, &plan, PublishOutcome::Posted(None));
    assert_eq!(answer_of(&e[0]), L10n::published_no_id(Locale::En));
}

#[test]
fn test_moderation_flow_reject_reason_and_ban() {
    let mut db = Database::new();
    let cfg = config();
    done(handle_message(&mut db, &cfg, &text_msg(5, 5, 10, "spam")));
    let e = cb_done(handle_callback(&mut db, &cfg, &callback(OWNER, "reject_1")));
    assert_eq!(answer_of(&e[0]), L10n::rejected(Locale::En));
    match &e[2] {
        Effect::Send { request: Outgoing::Text { keyboard, .. }, .. } => {
            let data: Vec<&str> = keyboard.iter().map(|b| b.data.as_str()).collect();
            assert_eq!(data, vec!["reason_5", "next", "ban_reason_5"]);
        },
        other => panic!("{:?}", other),
    }
    assert!(db.get_message_by_id(1).is_none());
    // The reason button asks for a reason and awaits it.
    let e = cb_done(handle_callback(&mut db, &cfg, &callback(OWNER, "reason_5")));
    assert_eq!(text_of(&e[0]).1, L10n::enter_rejection_reason(Locale::En));
    match &e[1] {
        Effect::SetUserState { user_id, state, target_id } => {
            assert_eq!((*user_id, state.as_str(), *target_id), (OWNER, "reason", 5));
            db.set_user_state(*user_id, state, *target_id);
        },
        other => panic!("{:?}", other),
    }
    let e = done(handle_message(&mut db, &cfg, &text_msg(OWNER, OWNER, 30, "too short")));
    assert_eq!(text_of(&e[0]), (5, L10n::rejected_reason(Locale::En, "too short"), false));
    assert_eq!(text_of(&e[1]).1, L10n::reason_sent(Locale::En));
    assert_eq!(db.get_user_state(OWNER).unwrap().state, "none");
    // The ban button leads to a ban with an appeal code.
    let e = cb_done(handle_callback(&mut db, &cfg, &callback(OWNER, "ban_reason_5")));
    match &e[1] {
        Effect::SetUserState { user_id, state, target_id } => db.set_user_state(*user_id, state, *target_id),
        other => panic!("{:?}", other),
    }
    let e = done(handle_message(&mut db, &cfg, &text_msg(OWNER, OWNER, 31, "spammer")));
    assert!(db.is_banned(5));
    let (to, notice, required) = text_of(&e[0]);
    assert_eq!((to, required), (5, false));
    let code = notice.rsplit(' ').next().unwrap().to_string();
    assert!(code.starts_with("BAN-"));
    assert_eq!(text_of(&e[1]).1, L10n::user_banned_success(Locale::En));
    let record = db.get_ban_record(&code).unwrap();
    assert_eq!(record.reason, "spammer");
    // Listing and pardoning are for the owner: a moderator has no access.
    db.add_admin(8, "moderator").unwrap();
    let e = done(handle_message(&mut db, &cfg, &text_msg(8, 8, 40, "/banned")));
    assert_eq!(text_of(&e[0]).1, L10n::no_access(Locale::En));
    let e = done(handle_message(&mut db, &cfg, &text_msg(8, 8, 41, &format!("/pardon {}", code))));
    assert_eq!(e.len(), 1);
    assert_eq!(text_of(&e[0]).1, L10n::no_access(Locale::En));
    assert!(db.is_banned(5));
    let e = done(handle_message(&mut db, &cfg, &text_msg(8, 8, 42, "/pardon")));
    assert_eq!(text_of(&e[0]).1, L10n::no_access(Locale::En));
    // The banned list shows it; the pardon lifts it.
    let e = done(handle_message(&mut db, &cfg, &text_msg(OWNER, OWNER, 32, "/banned")));
    assert!(text_of(&e[0]).1.starts_with(&format!("🚫 Active bans:\n\n1. {}\n   Reason: spammer\n   Date: ", code)));
    let e = done(handle_message(&mut db, &cfg, &text_msg(OWNER, OWNER, 33, &format!("/pardon {}", code))));
    assert_eq!(text_of(&e[0]), (5, L10n::access_restored(Locale::En).to_string(), false));
    assert_eq!(text_of(&e[1]).1, L10n::ban_deactivated(Locale::En, &code));
    assert!(!db.is_banned(5));
    let e = done(handle_message(&mut db, &cfg, &text_msg(OWNER, OWNER, 34, &format!("/pardon {}", code))));
    assert_eq!(text_of(&e[0]).1, L10n::ban_not_found(Locale::En));
    let e = done(handle_message(&mut db, &cfg, &text_msg(OWNER, OWNER, 35, "/pardon")));
    assert_eq!(text_of(&e[0]).1, L10n::pardon_usage(Locale::En));
}

#[test]
fn test_callback_errors_and_access() {
    let mut db = Database::new();
    let cfg = config();
    let e = cb_done(handle_callback(&mut db, &cfg, &callback(9, "approve_1")));
    assert_eq!(answer_of(&e[0]), L10n::no_access(Locale::En));
    assert!(matches!(handle_callback(&mut db, &cfg, &callback(OWNER, "approve_x")), Err(BotError::InvalidCallbackId)));
    assert!(matches!(handle_callback(&mut db, &cfg, &callback(OWNER, "reject_7")), Err(BotError::MessageNotFound)));
    assert!(matches!(handle_callback(&mut db, &cfg, &callback(OWNER, "approve_7")), Err(BotError::MessageNotFound)));
    assert!(cb_done(handle_callback(&mut db, &cfg, &callback(OWNER, "whatever"))).is_empty());
    let mut q = callback(OWNER, "next");
    q.message = None;
    assert!(cb_done(handle_callback(&mut db, &cfg, &q)).is_empty());
    let e = cb_done(handle_callback(&mut db, &cfg, &callback(OWNER, "next")));
    assert_eq!(text_of(&e[0]).1, L10n::no_new_proposals(Locale::En));
    assert_eq!(answer_of(&e[1]), L10n::next_btn(Locale::En));
}

#[test]
fn test_admin_commands() {
    let mut db = Database::new();
    let cfg = config();
    let e = done(handle_message(&mut db, &cfg, &text_msg(5, 5, 1, "/addadmin 7")));
    assert_eq!(text_of(&e[0]).1, L10n::only_owner_add_admins(Locale::En));
    let e = done(handle_message(&mut db, &cfg, &text_msg(OWNER, OWNER, 2, "/addadmin abc")));
    assert_eq!(text_of(&e[0]).1, L10n::add_admin_usage(Locale::En));
    let e = done(handle_message(&mut db, &cfg, &text_msg(OWNER, OWNER, 3, "/addadmin -4")));
    assert_eq!(text_of(&e[0]).1, L10n::add_admin_usage(Locale::En));
    let e = done(handle_message(&mut db, &cfg, &text_msg(OWNER, OWNER, 4, "/addadmin 1")));
    assert_eq!(text_of(&e[0]).1, L10n::already_owner(Locale::En));
    let (chat, target, lang) = match handle_message(&mut db, &cfg, &text_msg(OWNER, OWNER, 5, "/addadmin  7 ")) {
        Ok(MessageStep::LookUpName { chat_id, target_id, lang }) => (chat_id, target_id, lang),
        other => panic!("{:?}", other),
    };
    assert_eq!((chat, target), (OWNER, 7));
    let name = user_name_from(target, None, Some("Bob".into()));
    assert_eq!(name, "Bob");
    assert_eq!(user_name_from(8, None, None), "user_8");
    assert_eq!(user_name_from(8, Some("bobby".into()), Some("Bob".into())), "bobby");
    let e = finish_add_admin(&mut db, chat, target, &name, lang).unwrap();
    assert_eq!(text_of(&e[0]).1, "✅ User Bob added as admin!");
    assert_eq!(text_of(&e[1]), (7, L10n::admin_added_notification(Locale::En).to_string(), false));
    assert!(db.is_admin(7));
    let e = done(handle_message(&mut db, &cfg, &text_msg(OWNER, OWNER, 6, "/addadmin 7")));
    assert_eq!(text_of(&e[0]).1, "❌ User 7 is already an admin.");
    db.ensure_admin(OWNER, "Owner").unwrap();
    db.add_admin(9, "Zed").unwrap();
    let e = done(handle_message(&mut db, &cfg, &text_msg(OWNER, OWNER, 7, "/admins")));
    assert_eq!(text_of(&e[0]).1, "📋 Moderators:\n\n👑 Owner: ID 1\n1. Bob (ID: 7)\n3. Zed (ID: 9)\n");
    let e = done(handle_message(&mut db, &cfg, &text_msg(OWNER, OWNER, 8, "/removeadmin 1")));
    assert_eq!(text_of(&e[0]).1, L10n::cannot_remove_owner(Locale::En));
    let e = done(handle_message(&mut db, &cfg, &text_msg(OWNER, OWNER, 9, "/removeadmin 12")));
    assert_eq!(text_of(&e[0]).1, L10n::admin_not_found(Locale::En));
    let e = done(handle_message(&mut db, &cfg, &text_msg(OWNER, OWNER, 10, "/removeadmin 7")));
    assert_eq!(text_of(&e[0]).1, "✅ Admin 7 removed.");
    assert_eq!(text_of(&e[1]), (7, L10n::admin_removed_notification(Locale::En).to_string(), false));
    assert!(!db.is_admin(7));
    let e = done(handle_message(&mut db, &cfg, &text_msg(7, 7, 11, "/admins")));
    assert_eq!(text_of(&e[0]).1, L10n::only_owner_list_admins(Locale::En));
}

#[test]
fn test_language_command() {
    let mut db = Database::new();
    let cfg = config();
    let e = done(handle_message(&mut db, &cfg, &text_msg(5, 5, 1, "/lang ru")));
    assert_eq!(text_of(&e[0]).1, L10n::no_access(Locale::En));
    let e = done(handle_message(&mut db, &cfg, &text_msg(OWNER, OWNER, 2, "/lang de")));
    assert_eq!(text_of(&e[0]).1, L10n::lang_invalid(Locale::En));
    let e = done(handle_message(&mut db, &cfg, &text_msg(OWNER, OWNER, 3, "/lang RU")));
    assert_eq!(text_of(&e[0]).1, L10n::lang_updated(Locale::Ru));
    assert_eq!(db.get_language(), Locale::Ru);
    let e = done(handle_message(&mut db, &cfg, &text_msg(5, 5, 4, "/start")));
    assert_eq!(text_of(&e[0]).1, L10n::welcome(Locale::Ru));
}

#[test]
fn test_reply_command_and_links() {
    let mut db = Database::new();
    let cfg = config();
    let e = done(handle_message(&mut db, &cfg, &text_msg(5, 5, 1, "/reply")));
    assert_eq!(text_of(&e[0]).1, L10n::reply_usage(Locale::En));
    let e = done(handle_message(&mut db, &cfg, &text_msg(5, 5, 2, "/reply 3")));
    assert_eq!(text_of(&e[0]).1, L10n::post_not_found(Locale::En));
    let e = done(handle_message(&mut db, &cfg, &text_msg(5, 5, 3, "/start reply_3")));
    assert_eq!(text_of(&e[0]).1, L10n::invalid_reply_link(Locale::En));
    let e = done(handle_message(&mut db, &cfg, &text_msg(5, 5, 4, "/start reply_x")));
    assert_eq!(text_of(&e[0]).1, L10n::invalid_reply_link(Locale::En));
    done(handle_message(&mut db, &cfg, &text_msg(6, 6, 5, "post")));
    let e = done(handle_message(&mut db, &cfg, &text_msg(5, 5, 6, "/reply 1")));
    assert_eq!(text_of(&e[0]).1, L10n::send_reply_to_post(Locale::En));
    let st = db.get_user_state(5).unwrap();
    assert_eq!((st.state.as_str(), st.temp_target_id), ("reply_mode", 1));
}

fn stored(id: i64, media_type: &str, file: &str, text: &str) -> Message {
    Message {
        id,
        chat_id: 1,
        telegram_message_id: id as i32,
        sender_id: 5,
        message_text: text.into(),
        media_type: media_type.into(),
        media_file_id: file.into(),
        media_group_id: Some("alb".into()),
        proposal_group_id: "alb".into(),
        created_at: 0,
        status: "pending".into(),
        channel_id: CHANNEL,
        parent_message_id: None,
        channel_message_id: None,
    }
}

#[test]
fn test_album_requests() {
    let p = Proposal { group_id: "alb".into(), messages: vec![stored(1, "photo", "f1", "caption"), stored(2, "video", "f2", "")] };
    let r = requests_for_moderation(3, &p, Locale::En);
    match &r[..] {
        [Outgoing::Album { chat_id: 3, items }] => {
            assert_eq!(items.len(), 2);
            assert_eq!(items[0].kind, MediaKind::Photo);
            assert_eq!(items[0].caption.as_deref(), Some("caption"));
            assert_eq!(items[1].kind, MediaKind::Video);
            assert_eq!(items[1].caption, None);
        },
        other => panic!("{:?}", other),
    }
    let mixed = Proposal { group_id: "alb".into(), messages: vec![stored(1, "photo", "f1", "c"), stored(2, "document", "f2", "d")] };
    let r = requests_for_moderation(3, &mixed, Locale::En);
    assert_eq!(r.len(), 2);
    assert!(matches!(&r[1], Outgoing::Media { kind: MediaKind::Document, .. }));
    let post = publish_request_for(CHANNEL, &p, "mybot", None, Locale::En);
    match post {
        Outgoing::Album { items, .. } => {
            assert!(items[0].html);
            assert_eq!(items[0].caption.as_deref(), Some("<blockquote>caption</blockquote>\n\n<a href=\"https://t.me/mybot?start=reply_1\">💬 Reply</a>"));
            assert_eq!(items[1].caption, None);
        },
        other => panic!("{:?}", other),
    }
    let sticker = Proposal { group_id: "s".into(), messages: vec![stored(4, "sticker", "st", "😊 Sticker")] };
    match publish_request_for(CHANNEL, &sticker, "mybot", Some(9), Locale::En) {
        Outgoing::Media { kind: MediaKind::Sticker, caption: None, reply_to: Some(9), .. } => {},
        other => panic!("{:?}", other),
    }
}

#[test]
fn test_banned_list_dates() {
    let mut db = Database::new();
    let cfg = config();
    db.create_ban_record_with(5, "flood", "BAN-111111".to_string(), 0).unwrap();
    db.create_ban_record_with(6, "spam", "BAN-222222".to_string(), 1662921288000000).unwrap();
    let e = done(handle_message(&mut db, &cfg, &text_msg(OWNER, OWNER, 1, "/banned")));
    assert_eq!(
        text_of(&e[0]).1,
        "🚫 Active bans:\n\n1. BAN-222222\n   Reason: spam\n   Date: 11.09.2022 18:34\n2. BAN-111111\n   Reason: flood\n   Date: 01.01.1970 00:00\n"
    );
    let e = done(handle_message(&mut db, &cfg, &text_msg(5, 5, 2, "/banned")));
    assert_eq!(text_of(&e[0]).1, L10n::no_access(Locale::En));
}

#[test]
fn test_new_message_fields() {
    let nm = NewMessage {
        chat_id: 1,
        telegram_message_id: 2,
        sender_id: 3,
        message_text: "t".into(),
        media_type: "text".into(),
        media_file_id: String::new(),
        media_group_id: None,
        proposal_group_id: "g".into(),
        channel_id: 4,
        parent_message_id: Some(5),
    };
    let copy = nm.clone();
    assert_eq!(copy.parent_message_id, Some(5));
    assert_eq!(copy.proposal_group_id, "g");
}

#[test]
fn test_requests_do_not_depend_on_sender() {
    let mut a = vec![stored(1, "photo", "f1", "caption"), stored(2, "video", "f2", "")];
    let p = Proposal { group_id: "alb".into(), messages: a.clone() };
    for m in a.iter_mut() {
        m.sender_id = 777;
    }
    let q = Proposal { group_id: "alb".into(), messages: a };
    assert_eq!(
        format!("{:?}", requests_for_moderation(3, &p, Locale::Ru)),
        format!("{:?}", requests_for_moderation(3, &q, Locale::Ru))
    );
    assert_eq!(
        format!("{:?}", publish_request_for(CHANNEL, &p, "mybot", None, Locale::Ru)),
        format!("{:?}", publish_request_for(CHANNEL, &q, "mybot", None, Locale::Ru))
    );
    let rendered = format!("{:?}", requests_for_moderation(3, &q, Locale::Ru));
    assert!(!rendered.contains("777"));
}
