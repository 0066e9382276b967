//! The owner's commands: language, moderators, and the lists of
//! moderators and bans.

use vstd::prelude::*;
use vstd::string::*;

use crate::bot::effects::{Effect, EffectView, effect_views, plain_text, send_text};
use crate::bot::{BotError, just, pair};
use crate::clock::{format_minute, minute_text};
use crate::config::Config;
use crate::db::models::{Admin, AdminView, BanRecord, BanRecordView, opt_text};
use crate::db::repository::{Database, DbError, DbView, admin_views, ban_record_views};
use crate::locales::{
    L10n, Locale, active_bans_header_text, add_admin_usage_text, admin_added_notification_text,
    admin_added_text, admin_already_exists_text, admin_not_found_text, admin_removed_notification_text,
    admin_removed_text, admins_list_header_text, already_owner_text, ban_record_entry_text,
    cannot_remove_owner_text, lang_invalid_text, lang_updated_text, no_access_text, no_active_bans_text,
    no_admins_text, only_owner_add_admins_text, only_owner_list_admins_text, only_owner_remove_admins_text,
    parse_locale, remove_admin_usage_text,
};
use crate::text::{decimal, i64_to_decimal, nat_digits, parse_i64, str_parse_i64, str_trim, trim, usize_to_decimal};

verus! {

/// What `/lang <code>` does: only the owner may switch the bot's language.
pub open spec fn set_language_outcome(db: DbView, owner_id: i64, user_id: i64, chat_id: i64, args: Seq<char>) -> (DbView, Seq<EffectView>) {
    let lang = db.language_setting();
    if user_id != owner_id {
        (db, seq![plain_text(chat_id, no_access_text(lang), true)])
    } else {
        match parse_locale(trim(args)) {
            Some(l) => (db.language_effect(l), seq![plain_text(chat_id, lang_updated_text(l), true)]),
            None => (db, seq![plain_text(chat_id, lang_invalid_text(lang), true)]),
        }
    }
}

/// Handles `/lang <code>` from `user_id` in chat `chat_id`.
pub fn handle_set_language(db: &mut Database, config: &Config, user_id: i64, chat_id: i64, args: &str) -> (r: Vec<Effect>)
    requires
        old(db)@.wf(),
    ensures
        final(db)@.wf(),
        (final(db)@, effect_views(r@)) == set_language_outcome(old(db)@, config.owner_id, user_id, chat_id, args@),
{
    let lang = db.get_language();
    if user_id != config.owner_id {
        return just(send_text(chat_id, String::from_str(L10n::no_access(lang)), true));
    }
    match Locale::parse(str_trim(args)) {
        Some(new_lang) => {
            db.set_language(new_lang);
            just(send_text(chat_id, String::from_str(L10n::lang_updated(new_lang)), true))
        },
        None => just(send_text(chat_id, String::from_str(L10n::lang_invalid(lang)), true)),
    }
}

/// The positive user id that a command argument names, if any.
pub open spec fn target_user(args: Seq<char>) -> Option<i64> {
    match parse_i64(trim(args)) {
        Some(t) => if t > 0 {
            Some(t)
        } else {
            None
        },
        None => None,
    }
}

pub fn parse_target_id(args: &str) -> (r: Option<i64>)
    ensures
        r == target_user(args@),
{
    match str_parse_i64(str_trim(args)) {
        Some(t) => if t > 0 {
            Some(t)
        } else {
            None
        },
        None => None,
    }
}

/// The first step of `/addadmin`: either the answer, or the user whose name
/// must be looked up before the moderator is added.
#[derive(Debug)]
pub enum AddAdminStep {
    Reply(Vec<Effect>),
    LookUpName { target_id: i64, lang: Locale },
}

/// An [`AddAdminStep`] as values.
pub enum AddAdminStepView {
    Reply(Seq<EffectView>),
    LookUpName { target_id: i64, lang: Locale },
}

impl View for AddAdminStep {
    type V = AddAdminStepView;

    open spec fn view(&self) -> AddAdminStepView {
        match self {
            AddAdminStep::Reply(v) => AddAdminStepView::Reply(effect_views(v@)),
            AddAdminStep::LookUpName { target_id, lang } => AddAdminStepView::LookUpName {
                target_id: *target_id,
                lang: *lang,
            },
        }
    }
}

/// What `/addadmin <id>` decides before anything changes: only the owner may
/// add, the id must be a positive integer other than the owner's, and the
/// user must not be a moderator yet.
pub open spec fn add_admin_step(db: DbView, owner_id: i64, user_id: i64, chat_id: i64, args: Seq<char>) -> AddAdminStepView {
    let lang = db.language_setting();
    if user_id != owner_id {
        AddAdminStepView::Reply(seq![plain_text(chat_id, only_owner_add_admins_text(lang), true)])
    } else {
        match target_user(args) {
            None => AddAdminStepView::Reply(seq![plain_text(chat_id, add_admin_usage_text(lang), true)]),
            Some(t) => if t == owner_id {
                AddAdminStepView::Reply(seq![plain_text(chat_id, already_owner_text(lang), true)])
            } else if db.is_admin(t) {
                AddAdminStepView::Reply(seq![plain_text(chat_id, admin_already_exists_text(lang, t as int), true)])
            } else {
                AddAdminStepView::LookUpName { target_id: t, lang: lang }
            },
        }
    }
}

/// Handles `/addadmin <id>` from `user_id` in chat `chat_id`, up to the
/// lookup of the new moderator's name.
pub fn handle_add_admin(db: &Database, config: &Config, user_id: i64, chat_id: i64, args: &str) -> (r: AddAdminStep)
    ensures
        r@ == add_admin_step(db@, config.owner_id, user_id, chat_id, args@),
{
    let lang = db.get_language();
    if user_id != config.owner_id {
        return AddAdminStep::Reply(just(send_text(chat_id, String::from_str(L10n::only_owner_add_admins(lang)), true)));
    }
    let target_id = match parse_target_id(args) {
        Some(t) => t,
        None => return AddAdminStep::Reply(just(send_text(chat_id, String::from_str(L10n::add_admin_usage(lang)), true))),
    };
    if target_id == config.owner_id {
        return AddAdminStep::Reply(just(send_text(chat_id, String::from_str(L10n::already_owner(lang)), true)));
    }
    if db.is_admin(target_id) {
        return AddAdminStep::Reply(just(send_text(chat_id, L10n::admin_already_exists(lang, target_id), true)));
    }
    AddAdminStep::LookUpName { target_id, lang }
}

/// The name shown for a user: the username, else the first name, else `user_<id>`.
pub open spec fn display_name(user_id: i64, username: Option<Seq<char>>, first_name: Option<Seq<char>>) -> Seq<char> {
    match username {
        Some(u) => u,
        None => match first_name {
            Some(f) => f,
            None => "user_"@ + decimal(user_id as int),
        },
    }
}

/// The name shown for `user_id`, from what the lookup of its chat found
/// (`None`, `None` when the lookup failed).
pub fn user_name_from(user_id: i64, username: Option<String>, first_name: Option<String>) -> (r: String)
    ensures
        r@ == display_name(user_id, opt_text(username), opt_text(first_name)),
{
    match username {
        Some(u) => u,
        None => match first_name {
            Some(f) => f,
            None => {
                let mut s = String::from_str("user_");
                let d = i64_to_decimal(user_id);
                s.append(d.as_str());
                proof {
                    reveal_strlit("user_");
                }
                s
            },
        },
    }
}

/// What adding moderator `target_id` under `name` sends: the confirmation
/// to the owner's chat, and the (optional) notice to the new moderator.
pub open spec fn admin_added_effects(chat_id: i64, target_id: i64, name: Seq<char>, lang: Locale) -> Seq<EffectView> {
    seq![
        plain_text(chat_id, admin_added_text(lang, name), true),
        plain_text(target_id, admin_added_notification_text(lang), false),
    ]
}

/// The second step of `/addadmin`: records `target_id` as a moderator named
/// `user_name` and confirms it.
pub fn finish_add_admin(db: &mut Database, chat_id: i64, target_id: i64, user_name: &str, lang: Locale) -> (r: Result<Vec<Effect>, BotError>)
    requires
        old(db)@.wf(),
    ensures
        final(db)@.wf(),
        old(db)@.is_admin(target_id) ==> final(db)@ == old(db)@ && r is Ok
            && effect_views(r->Ok_0@) == admin_added_effects(chat_id, target_id, user_name@, lang),
        !old(db)@.is_admin(target_id) && old(db)@.last_admin_id == i64::MAX ==> final(db)@ == old(db)@
            && r == Err::<Vec<Effect>, BotError>(BotError::Store(DbError::IdsExhausted)),
        !old(db)@.is_admin(target_id) && old(db)@.last_admin_id < i64::MAX ==> final(db)@
            == old(db)@.add_admin_effect(target_id, user_name@) && r is Ok
            && effect_views(r->Ok_0@) == admin_added_effects(chat_id, target_id, user_name@, lang),
{
    match db.add_admin(target_id, user_name) {
        Ok(()) => {},
        Err(e) => return Err(BotError::Store(e)),
    }
    Ok(pair(
        send_text(chat_id, L10n::admin_added(lang, user_name), true),
        send_text(target_id, String::from_str(L10n::admin_added_notification(lang)), false),
    ))
}

/// What `/removeadmin <id>` does: only the owner may remove, never the
/// owner, and only a moderator on record.
pub open spec fn remove_admin_outcome(db: DbView, owner_id: i64, user_id: i64, chat_id: i64, args: Seq<char>) -> (DbView, Seq<EffectView>) {
    let lang = db.language_setting();
    if user_id != owner_id {
        (db, seq![plain_text(chat_id, only_owner_remove_admins_text(lang), true)])
    } else {
        match target_user(args) {
            None => (db, seq![plain_text(chat_id, remove_admin_usage_text(lang), true)]),
            Some(t) => if t == owner_id {
                (db, seq![plain_text(chat_id, cannot_remove_owner_text(lang), true)])
            } else if !db.is_admin(t) {
                (db, seq![plain_text(chat_id, admin_not_found_text(lang), true)])
            } else {
                (
                    db.remove_admin_effect(t),
                    seq![
                        plain_text(chat_id, admin_removed_text(lang, t as int), true),
                        plain_text(t, admin_removed_notification_text(lang), false),
                    ],
                )
            },
        }
    }
}

/// Handles `/removeadmin <id>` from `user_id` in chat `chat_id`.
pub fn handle_remove_admin(db: &mut Database, config: &Config, user_id: i64, chat_id: i64, args: &str) -> (r: Vec<Effect>)
    requires
        old(db)@.wf(),
    ensures
        final(db)@.wf(),
        (final(db)@, effect_views(r@)) == remove_admin_outcome(old(db)@, config.owner_id, user_id, chat_id, args@),
{
    let lang = db.get_language();
    if user_id != config.owner_id {
        return just(send_text(chat_id, String::from_str(L10n::only_owner_remove_admins(lang)), true));
    }
    let target_id = match parse_target_id(args) {
        Some(t) => t,
        None => return just(send_text(chat_id, String::from_str(L10n::remove_admin_usage(lang)), true)),
    };
    if target_id == config.owner_id {
        return just(send_text(chat_id, String::from_str(L10n::cannot_remove_owner(lang)), true));
    }
    if !db.is_admin(target_id) {
        return just(send_text(chat_id, String::from_str(L10n::admin_not_found(lang)), true));
    }
    db.remove_admin(target_id);
    pair(
        send_text(chat_id, L10n::admin_removed(lang, target_id), true),
        send_text(target_id, String::from_str(L10n::admin_removed_notification(lang)), false),
    )
}

/// The line for the moderator at position `pos` (counting from 1) of the
/// list; the owner gets none.
pub open spec fn admin_line(a: AdminView, pos: nat, owner_id: i64) -> Seq<char> {
    if a.user_id == owner_id {
        Seq::empty()
    } else {
        nat_digits(pos) + ". "@ + a.user_name + " (ID: "@ + decimal(a.user_id as int) + ")\n"@
    }
}

/// The lines for the first `n` moderators.
pub open spec fn admin_lines(admins: Seq<AdminView>, owner_id: i64, n: nat) -> Seq<char>
    decreases n,
{
    if n == 0 {
        Seq::empty()
    } else {
        admin_lines(admins, owner_id, (n - 1) as nat) + admin_line(admins[n - 1], n, owner_id)
    }
}

/// What `/admins` answers: for the owner, the list of moderators.
pub open spec fn admins_reply(db: DbView, owner_id: i64, user_id: i64, chat_id: i64) -> Seq<EffectView> {
    let lang = db.language_setting();
    if user_id != owner_id {
        seq![plain_text(chat_id, only_owner_list_admins_text(lang), true)]
    } else if db.admins.len() == 0 {
        seq![plain_text(chat_id, no_admins_text(lang), true)]
    } else {
        seq![plain_text(chat_id, admins_list_header_text(lang, owner_id as int) + admin_lines(db.admins, owner_id, db.admins.len()), true)]
    }
}

/// Handles `/admins` from `user_id` in chat `chat_id`.
pub fn handle_admins(db: &Database, config: &Config, user_id: i64, chat_id: i64) -> (r: Vec<Effect>)
    ensures
        effect_views(r@) == admins_reply(db@, config.owner_id, user_id, chat_id),
{
    let lang = db.get_language();
    if user_id != config.owner_id {
        return just(send_text(chat_id, String::from_str(L10n::only_owner_list_admins(lang)), true));
    }
    let admins = db.get_admins();
    let n = admins.len();
    if n == 0 {
        return just(send_text(chat_id, String::from_str(L10n::no_admins(lang)), true));
    }
    let ghost av = admin_views(admins@);
    let mut list = L10n::admins_list_header(lang, config.owner_id);
    let ghost header = list@;
    let mut i: usize = 0;
    while i < n
        invariant
            n == admins@.len(),
            av == admin_views(admins@),
            i <= n,
            list@ == header + admin_lines(av, config.owner_id, i as nat),
        decreases n - i,
    {
        let a = &admins[i];
        proof {
            assert(av[i as int] == a@);
        }
        if a.user_id != config.owner_id {
            let pos = usize_to_decimal(i + 1);
            list.append(pos.as_str());
            list.append(". ");
            list.append(a.user_name.as_str());
            list.append(" (ID: ");
            let id = i64_to_decimal(a.user_id);
            list.append(id.as_str());
            list.append(")\n");
        }
        proof {
            assert(admin_lines(av, config.owner_id, (i + 1) as nat) == admin_lines(av, config.owner_id, i as nat)
                + admin_line(av[i as int], (i + 1) as nat, config.owner_id));
            assert(list@ =~= header + admin_lines(av, config.owner_id, (i + 1) as nat));
        }
        i = i + 1;
    }
    just(send_text(chat_id, list, true))
}

/// The entry for the ban record at position `pos` (counting from 1).
pub open spec fn ban_line(r: BanRecordView, pos: nat, lang: Locale) -> Seq<char> {
    ban_record_entry_text(lang, pos, r.ban_id, r.reason, minute_text(r.created_at)->0)
}

/// The entries for the first `n` ban records.
pub open spec fn ban_lines(records: Seq<BanRecordView>, lang: Locale, n: nat) -> Seq<char>
    decreases n,
{
    if n == 0 {
        Seq::empty()
    } else {
        ban_lines(records, lang, (n - 1) as nat) + ban_line(records[n - 1], n, lang)
    }
}

/// What `/banned` answers: for the owner only, the active bans, newest
/// first; everyone else gets no access.
pub open spec fn banned_reply(db: DbView, owner_id: i64, user_id: i64, chat_id: i64) -> Seq<EffectView> {
    let lang = db.language_setting();
    let recs = db.ban_listing();
    if user_id != owner_id {
        seq![plain_text(chat_id, no_access_text(lang), true)]
    } else if recs.len() == 0 {
        seq![plain_text(chat_id, no_active_bans_text(lang), true)]
    } else {
        seq![plain_text(chat_id, active_bans_header_text(lang) + ban_lines(recs, lang, recs.len()), true)]
    }
}

/// Handles `/banned` from `user_id` in chat `chat_id`.
pub fn handle_banned(db: &Database, config: &Config, user_id: i64, chat_id: i64) -> (r: Vec<Effect>)
    requires
        db@.wf(),
    ensures
        effect_views(r@) == banned_reply(db@, config.owner_id, user_id, chat_id),
{
    let lang = db.get_language();
    if user_id != config.owner_id {
        return just(send_text(chat_id, String::from_str(L10n::no_access(lang)), true));
    }
    let records = db.get_active_ban_records();
    let n = records.len();
    let ghost rv = ban_record_views(records@);
    if n == 0 {
        return just(send_text(chat_id, String::from_str(L10n::no_active_bans(lang)), true));
    }
    let mut list = String::from_str(L10n::active_bans_header(lang));
    let ghost header = list@;
    let mut i: usize = 0;
    while i < n
        invariant
            n == records@.len(),
            rv == ban_record_views(records@),
            db@.wf(),
            forall|k: int| 0 <= k < n ==> #[trigger] db@.ban_records.contains(records@[k]@),
            i <= n,
            list@ == header + ban_lines(rv, lang, i as nat),
        decreases n - i,
    {
        let rec = &records[i];
        proof {
            assert(rv[i as int] == rec@);
            assert(db@.ban_records.contains(records@[i as int]@));
            let k = choose|k: int| 0 <= k < db@.ban_records.len() && db@.ban_records[k] == rec@;
            assert(crate::clock::valid_moment(db@.ban_records[k].created_at));
        }
        let date = match format_minute(rec.created_at) {
            Some(d) => d,
            None => String::new(),
        };
        let entry = L10n::ban_record_entry(lang, i + 1, rec.ban_id.as_str(), rec.reason.as_str(), date.as_str());
        list.append(entry.as_str());
        proof {
            assert(ban_lines(rv, lang, (i + 1) as nat) == ban_lines(rv, lang, i as nat) + ban_line(rv[i as int], (i + 1) as nat, lang));
            assert(list@ =~= header + ban_lines(rv, lang, (i + 1) as nat));
        }
        i = i + 1;
    }
    just(send_text(chat_id, list, true))
}

} // verus!
