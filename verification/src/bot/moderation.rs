//! Moderation: the queue of proposals, the buttons under them, and pardons.

use vstd::prelude::*;
use vstd::string::*;

use crate::bot::effects::{
    Button, ButtonView, Effect, EffectView, Outgoing, OutgoingView, answer, answer_callback,
    effect_views, keyboard_text, plain_text, send_keyboard, send_text,
};
use crate::bot::incoming::IncomingCallback;
use crate::bot::media::{moderation_requests, publish_request, publish_request_for, requests_for_moderation};
use crate::bot::{BotError, just, no_effects, pair, push_effect};
use crate::clock::{format_minute, minute_text, valid_moment};
use crate::config::Config;
use crate::db::models::{MessageView, ProposalView, opt_view};
use crate::db::repository::{Database, DbView};
use crate::locales::{
    L10n, Locale, access_restored_text, approve_btn_text, ban_btn_text, ban_deactivated_text,
    ban_not_found_text, choose_action_text, enter_ban_reason_text, enter_reason_callback_text,
    enter_rejection_reason_text, failed_publish_text, next_btn_text, no_access_text,
    no_new_proposals_text, pardon_usage_text, proposal_action_header_text, proposal_items_count_text,
    published_no_id_text, published_text, reason_btn_text, reject_btn_text, rejected_text,
};
use crate::seq_facts::lemma_filter_member;
use crate::text::{decimal, i64_to_decimal, parse_i64, str_equal, str_parse_i64, str_strip_prefix, str_trim, strip_prefix, trim};

verus! {

/// The owner and the moderators may moderate.
pub open spec fn authorized(db: DbView, owner_id: i64, user_id: i64) -> bool {
    user_id == owner_id || db.is_admin(user_id)
}

fn is_authorized(db: &Database, config: &Config, user_id: i64) -> (b: bool)
    ensures
        b == authorized(db@, config.owner_id, user_id),
{
    user_id == config.owner_id || db.is_admin(user_id)
}

/// The proposal at the head of the moderation queue, if any.
pub open spec fn next_proposal(db: DbView) -> Option<ProposalView> {
    match db.next_pending_group() {
        Some(g) => db.proposal_of(g),
        None => None,
    }
}

/// A callback button: label and data.
pub open spec fn button(text: Seq<char>, data: Seq<char>) -> ButtonView {
    ButtonView { text: text, data: data }
}

/// What showing the next proposal to chat `chat_id` sends: the item count,
/// the items themselves, and the header with the approve and reject
/// buttons of the first item; or that nothing is pending.
pub open spec fn next_proposal_effects(db: DbView, chat_id: i64, lang: Locale) -> Seq<EffectView> {
    match next_proposal(db) {
        None => seq![plain_text(chat_id, no_new_proposals_text(lang), true)],
        Some(p) => {
            let first = p.messages[0];
            seq![
                plain_text(chat_id, proposal_items_count_text(lang, p.messages.len()), true),
                EffectView::Moderation {
                    chat_id: chat_id,
                    requests: moderation_requests(chat_id, p, lang),
                    lang: lang,
                },
                keyboard_text(
                    chat_id,
                    proposal_action_header_text(lang, first.id as int, minute_text(first.created_at)->0),
                    seq![
                        button(approve_btn_text(lang), "approve_"@ + decimal(first.id as int)),
                        button(reject_btn_text(lang), "reject_"@ + decimal(first.id as int)),
                    ],
                ),
            ]
        },
    }
}

fn data_with_id(prefix: &str, id: i64) -> (r: String)
    ensures
        r@ == prefix@ + decimal(id as int),
{
    let mut s = String::from_str(prefix);
    let d = i64_to_decimal(id);
    s.append(d.as_str());
    s
}

/// Appends to `out` what showing the next proposal to chat `chat_id` sends.
fn show_next_proposal(db: &Database, chat_id: i64, lang: Locale, out: &mut Vec<Effect>)
    requires
        db@.wf(),
    ensures
        effect_views(final(out)@) == effect_views(old(out)@) + next_proposal_effects(db@, chat_id, lang),
{
    let ghost start = effect_views(out@);
    match db.get_next_pending_proposal() {
        None => {
            push_effect(out, send_text(chat_id, String::from_str(L10n::no_new_proposals(lang)), true));
            proof {
                assert(effect_views(out@) =~= start + next_proposal_effects(db@, chat_id, lang));
            }
        },
        Some(proposal) => {
            let ghost pv = proposal@;
            let ghost g = db@.next_pending_group()->0;
            proof {
                assert(pv.messages == db@.group_messages(g));
                assert(pv.messages.len() > 0);
                lemma_filter_member(db@.messages, |m: MessageView| m.proposal_group_id == g, 0);
                let k = choose|k: int| 0 <= k < db@.messages.len() && db@.messages[k] == pv.messages[0];
                assert(valid_moment(db@.messages[k].created_at));
            }
            push_effect(
                out,
                send_text(chat_id, L10n::proposal_items_count(lang, proposal.messages.len()), true),
            );
            let requests = requests_for_moderation(chat_id, &proposal, lang);
            push_effect(out, Effect::Moderation { chat_id, requests, lang });
            let first = proposal.first();
            proof {
                assert(pv.messages[0] == first@);
            }
            let date = match format_minute(first.created_at) {
                Some(d) => d,
                None => String::new(),
            };
            let text = L10n::proposal_action_header(lang, first.id, date.as_str());
            let mut kb: Vec<Button> = Vec::new();
            kb.push(Button { text: String::from_str(L10n::approve_btn(lang)), data: data_with_id("approve_", first.id) });
            kb.push(Button { text: String::from_str(L10n::reject_btn(lang)), data: data_with_id("reject_", first.id) });
            proof {
                assert(kb@.map_values(|b: Button| b@) =~= seq![
                    button(approve_btn_text(lang), "approve_"@ + decimal(first.id as int)),
                    button(reject_btn_text(lang), "reject_"@ + decimal(first.id as int)),
                ]);
            }
            push_effect(out, send_keyboard(chat_id, text, kb));
            proof {
                assert(effect_views(out@) =~= start + next_proposal_effects(db@, chat_id, lang));
            }
        },
    }
}

/// What `/proposals` answers: the next proposal, for the owner and moderators.
pub open spec fn proposals_reply(db: DbView, owner_id: i64, user_id: i64, chat_id: i64) -> Seq<EffectView> {
    let lang = db.language_setting();
    if !authorized(db, owner_id, user_id) {
        seq![plain_text(chat_id, no_access_text(lang), true)]
    } else {
        next_proposal_effects(db, chat_id, lang)
    }
}

/// Handles `/proposals` from `user_id` in chat `chat_id`.
pub fn handle_proposals(db: &Database, config: &Config, user_id: i64, chat_id: i64) -> (r: Vec<Effect>)
    requires
        db@.wf(),
    ensures
        effect_views(r@) == proposals_reply(db@, config.owner_id, user_id, chat_id),
{
    let lang = db.get_language();
    if !is_authorized(db, config, user_id) {
        return just(send_text(chat_id, String::from_str(L10n::no_access(lang)), true));
    }
    let mut out: Vec<Effect> = Vec::new();
    show_next_proposal(db, chat_id, lang, &mut out);
    proof {
        assert(effect_views(out@) =~= next_proposal_effects(db@, chat_id, lang));
    }
    out
}

/// What `/pardon <BAN-ID>` does: for the owner only, lifts the ban recorded
/// under the active appeal code, deactivates the code, and tells the user
/// (failures ignored) and the owner; everyone else gets no access.
pub open spec fn pardon_outcome(db: DbView, owner_id: i64, user_id: i64, chat_id: i64, args: Seq<char>) -> (DbView, Seq<EffectView>) {
    let lang = db.language_setting();
    let ban_id = trim(args);
    if user_id != owner_id {
        (db, seq![plain_text(chat_id, no_access_text(lang), true)])
    } else if ban_id.len() == 0 {
        (db, seq![plain_text(chat_id, pardon_usage_text(lang), true)])
    } else {
        match db.active_ban_record(ban_id) {
            None => (db, seq![plain_text(chat_id, ban_not_found_text(lang), true)]),
            Some(rec) => (
                db.pardon_effect(rec.user_id).lift_effect(ban_id),
                seq![
                    plain_text(rec.user_id, access_restored_text(lang), false),
                    plain_text(chat_id, ban_deactivated_text(lang, ban_id), true),
                ],
            ),
        }
    }
}

/// Handles `/pardon <BAN-ID>` from `user_id` in chat `chat_id`.
pub fn handle_pardon(db: &mut Database, config: &Config, user_id: i64, chat_id: i64, args: &str) -> (r: Vec<Effect>)
    requires
        old(db)@.wf(),
    ensures
        final(db)@.wf(),
        (final(db)@, effect_views(r@)) == pardon_outcome(old(db)@, config.owner_id, user_id, chat_id, args@),
{
    let lang = db.get_language();
    if user_id != config.owner_id {
        return just(send_text(chat_id, String::from_str(L10n::no_access(lang)), true));
    }
    let ban_id = str_trim(args);
    if ban_id.unicode_len() == 0 {
        return just(send_text(chat_id, String::from_str(L10n::pardon_usage(lang)), true));
    }
    match db.get_ban_record(ban_id) {
        None => just(send_text(chat_id, String::from_str(L10n::ban_not_found(lang)), true)),
        Some(record) => {
            db.pardon_user(record.user_id);
            db.deactivate_ban(ban_id);
            pair(
                send_text(record.user_id, String::from_str(L10n::access_restored(lang)), false),
                send_text(chat_id, L10n::ban_deactivated(lang, ban_id), true),
            )
        },
    }
}


/// What a button's data asks for; a `None` id means the data did not end
/// in a number.
pub enum ButtonAction {
    Next,
    Approve(Option<i64>),
    Reject(Option<i64>),
    Reason(Option<i64>),
    BanReason(Option<i64>),
    Unknown,
}

/// Reads a button's data: `next`, or `approve_`, `reject_`, `reason_` or
/// `ban_reason_` followed by an id.
pub open spec fn button_action(data: Seq<char>) -> ButtonAction {
    if data == "next"@ {
        ButtonAction::Next
    } else if strip_prefix(data, "approve_"@) is Some {
        ButtonAction::Approve(parse_i64(strip_prefix(data, "approve_"@)->0))
    } else if strip_prefix(data, "reject_"@) is Some {
        ButtonAction::Reject(parse_i64(strip_prefix(data, "reject_"@)->0))
    } else if strip_prefix(data, "reason_"@) is Some {
        ButtonAction::Reason(parse_i64(strip_prefix(data, "reason_"@)->0))
    } else if strip_prefix(data, "ban_reason_"@) is Some {
        ButtonAction::BanReason(parse_i64(strip_prefix(data, "ban_reason_"@)->0))
    } else {
        ButtonAction::Unknown
    }
}

fn parse_button(data: &str) -> (r: ButtonAction)
    ensures
        r == button_action(data@),
{
    if str_equal(data, "next") {
        return ButtonAction::Next;
    }
    if let Some(rest) = str_strip_prefix(data, "approve_") {
        return ButtonAction::Approve(str_parse_i64(rest));
    }
    if let Some(rest) = str_strip_prefix(data, "reject_") {
        return ButtonAction::Reject(str_parse_i64(rest));
    }
    if let Some(rest) = str_strip_prefix(data, "reason_") {
        return ButtonAction::Reason(str_parse_i64(rest));
    }
    if let Some(rest) = str_strip_prefix(data, "ban_reason_") {
        return ButtonAction::BanReason(str_parse_i64(rest));
    }
    ButtonAction::Unknown
}

/// The publication that an approval asks for, with what finishing it needs:
/// the callback to answer, the chat and message of the button, the group
/// to mark approved, and the language.
#[derive(Debug)]
pub struct ApprovePlan {
    pub callback_id: String,
    pub chat_id: i64,
    pub message_id: i32,
    pub group_id: String,
    pub request: Outgoing,
    pub lang: Locale,
}

/// An [`ApprovePlan`] as values.
pub struct ApprovePlanView {
    pub callback_id: Seq<char>,
    pub chat_id: i64,
    pub message_id: i32,
    pub group_id: Seq<char>,
    pub request: OutgoingView,
    pub lang: Locale,
}

impl View for ApprovePlan {
    type V = ApprovePlanView;

    open spec fn view(&self) -> ApprovePlanView {
        ApprovePlanView {
            callback_id: self.callback_id@,
            chat_id: self.chat_id,
            message_id: self.message_id,
            group_id: self.group_id@,
            request: self.request@,
            lang: self.lang,
        }
    }
}

/// What a button press leads to: effects, or a publication to perform
/// before [`finish_approve`].
#[derive(Debug)]
pub enum CallbackStep {
    Done(Vec<Effect>),
    Publish(ApprovePlan),
}

/// A [`CallbackStep`] as values.
pub enum CallbackStepView {
    Done(Seq<EffectView>),
    Publish(ApprovePlanView),
}

impl View for CallbackStep {
    type V = CallbackStepView;

    open spec fn view(&self) -> CallbackStepView {
        match self {
            CallbackStep::Done(v) => CallbackStepView::Done(effect_views(v@)),
            CallbackStep::Publish(p) => CallbackStepView::Publish(p@),
        }
    }
}

/// The view of a handler's result.
pub open spec fn step_result(r: Result<CallbackStep, BotError>) -> Result<CallbackStepView, BotError> {
    match r {
        Ok(s) => Ok(s@),
        Err(e) => Err(e),
    }
}

/// The channel post that a published item should reply to: the post of the
/// item it answers, when that item is stored and was published.
pub open spec fn reply_target(db: DbView, first: MessageView) -> Option<i32> {
    match first.parent_message_id {
        Some(pid) => match db.message_by_id(pid) {
            Some(parent) => parent.channel_message_id,
            None => None,
        },
        None => None,
    }
}

/// What approving the proposal of stored message `id` plans: publishing the
/// whole group in the channel, replying to the parent's post when there is one.
pub open spec fn approve_plan(
    db: DbView,
    channel_id: i64,
    bot_username: Seq<char>,
    callback_id: Seq<char>,
    chat_id: i64,
    message_id: i32,
    id: i64,
    lang: Locale,
) -> Result<CallbackStepView, BotError> {
    match db.message_by_id(id) {
        None => Err(BotError::MessageNotFound),
        Some(m) => match db.proposal_of(m.proposal_group_id) {
            None => Err(BotError::ProposalNotFound),
            Some(p) => Ok(
                CallbackStepView::Publish(
                    ApprovePlanView {
                        callback_id: callback_id,
                        chat_id: chat_id,
                        message_id: message_id,
                        group_id: m.proposal_group_id,
                        request: publish_request(channel_id, p, bot_username, reply_target(db, p.messages[0]), lang),
                        lang: lang,
                    },
                ),
            ),
        },
    }
}

/// The (required) deletion of message `message_id` of chat `chat_id`.
pub open spec fn deletion(chat_id: i64, message_id: i32) -> EffectView {
    EffectView::Send { request: OutgoingView::DeleteMessage { chat_id: chat_id, message_id: message_id }, required: true }
}

/// The status given to rejected items before they are deleted.
pub open spec fn rejected_status() -> Seq<char> {
    "rejected"@
}

/// The status given to published items.
pub open spec fn approved_status() -> Seq<char> {
    "approved"@
}

/// What rejecting the proposal of stored message `id` does: the group is
/// marked rejected and deleted, the button is answered and its message
/// deleted, and the moderator is offered to give a reason, move on, or ban
/// the author.
pub open spec fn reject_outcome(
    db: DbView,
    callback_id: Seq<char>,
    chat_id: i64,
    message_id: i32,
    id: i64,
    lang: Locale,
) -> (DbView, Result<CallbackStepView, BotError>) {
    match db.message_by_id(id) {
        None => (db, Err(BotError::MessageNotFound)),
        Some(m) => (
            db.status_effect(m.proposal_group_id, rejected_status()).delete_effect(m.proposal_group_id),
            Ok(
                CallbackStepView::Done(
                    seq![
                        answer(callback_id, rejected_text(lang)),
                        deletion(chat_id, message_id),
                        keyboard_text(
                            chat_id,
                            choose_action_text(lang),
                            seq![
                                button(reason_btn_text(lang), "reason_"@ + decimal(m.sender_id as int)),
                                button(next_btn_text(lang), "next"@),
                                button(ban_btn_text(lang), "ban_reason_"@ + decimal(m.sender_id as int)),
                            ],
                        ),
                    ],
                ),
            ),
        ),
    }
}

/// What asking moderator `admin_id` for a reason about author `sender_id`
/// sends: the prompt, then the dialogue step `state` is stored, then the
/// button is answered.
pub open spec fn ask_reason_effects(
    callback_id: Seq<char>,
    admin_id: i64,
    chat_id: i64,
    sender_id: i64,
    prompt: Seq<char>,
    state: Seq<char>,
    lang: Locale,
) -> Seq<EffectView> {
    seq![
        plain_text(chat_id, prompt, true),
        EffectView::SetUserState { user_id: admin_id, state: state, target_id: sender_id },
        answer(callback_id, enter_reason_callback_text(lang)),
    ]
}

/// The data of a button, or nothing.
pub open spec fn data_text(data: Option<String>) -> Seq<char> {
    match data {
        Some(d) => d@,
        None => Seq::empty(),
    }
}

/// What pressing a button does. Only the owner and moderators are served;
/// buttons of inaccessible messages are ignored.
pub open spec fn callback_outcome(
    db: DbView,
    owner_id: i64,
    channel_id: i64,
    bot_username: Seq<char>,
    q: IncomingCallback,
) -> (DbView, Result<CallbackStepView, BotError>) {
    let lang = db.language_setting();
    let cb = q.id@;
    if !authorized(db, owner_id, q.from_id) {
        (db, Ok(CallbackStepView::Done(seq![answer(cb, no_access_text(lang))])))
    } else {
        match q.message {
            None => (db, Ok(CallbackStepView::Done(Seq::empty()))),
            Some((chat_id, message_id)) => match button_action(data_text(q.data)) {
                ButtonAction::Next => (
                    db,
                    Ok(CallbackStepView::Done(next_proposal_effects(db, chat_id, lang).push(answer(cb, next_btn_text(lang))))),
                ),
                ButtonAction::Approve(Some(id)) => (
                    db,
                    approve_plan(db, channel_id, bot_username, cb, chat_id, message_id, id, lang),
                ),
                ButtonAction::Reject(Some(id)) => reject_outcome(db, cb, chat_id, message_id, id, lang),
                ButtonAction::Reason(Some(sender_id)) => (
                    db,
                    Ok(CallbackStepView::Done(ask_reason_effects(cb, q.from_id, chat_id, sender_id, enter_rejection_reason_text(lang), "reason"@, lang))),
                ),
                ButtonAction::BanReason(Some(sender_id)) => (
                    db,
                    Ok(CallbackStepView::Done(ask_reason_effects(cb, q.from_id, chat_id, sender_id, enter_ban_reason_text(lang), "ban_reason"@, lang))),
                ),
                ButtonAction::Unknown => (db, Ok(CallbackStepView::Done(Seq::empty()))),
                _ => (db, Err(BotError::InvalidCallbackId)),
            },
        }
    }
}

fn delete_message(chat_id: i64, message_id: i32) -> (e: Effect)
    ensures
        e@ == deletion(chat_id, message_id),
{
    Effect::Send { request: Outgoing::DeleteMessage { chat_id, message_id }, required: true }
}

fn ask_reason(
    callback_id: &String,
    admin_id: i64,
    chat_id: i64,
    sender_id: i64,
    prompt: &str,
    state: &str,
    lang: Locale,
) -> (r: Vec<Effect>)
    ensures
        effect_views(r@) == ask_reason_effects(callback_id@, admin_id, chat_id, sender_id, prompt@, state@, lang),
{
    let mut out = just(send_text(chat_id, String::from_str(prompt), true));
    push_effect(&mut out, Effect::SetUserState { user_id: admin_id, state: String::from_str(state), target_id: sender_id });
    push_effect(&mut out, answer_callback(callback_id.clone(), String::from_str(L10n::enter_reason_callback(lang))));
    proof {
        assert(effect_views(out@) =~= ask_reason_effects(callback_id@, admin_id, chat_id, sender_id, prompt@, state@, lang));
    }
    out
}

fn plan_approve(
    db: &Database,
    config: &Config,
    callback_id: &String,
    chat_id: i64,
    message_id: i32,
    id: i64,
    lang: Locale,
) -> (r: Result<CallbackStep, BotError>)
    requires
        db@.wf(),
    ensures
        step_result(r) == approve_plan(db@, config.channel_id, config.bot_username@, callback_id@, chat_id, message_id, id, lang),
{
    let msg = match db.get_message_by_id(id) {
        Some(m) => m,
        None => return Err(BotError::MessageNotFound),
    };
    let proposal = match db.get_proposal_by_group_id(msg.proposal_group_id.as_str()) {
        Some(p) => p,
        None => return Err(BotError::ProposalNotFound),
    };
    let ghost pv = proposal@;
    let first = proposal.first();
    proof {
        assert(pv.messages[0] == first@);
    }
    let reply_to = match first.parent_message_id {
        Some(parent_id) => match db.get_message_by_id(parent_id) {
            Some(parent) => parent.channel_message_id,
            None => None,
        },
        None => None,
    };
    let request = publish_request_for(config.channel_id, &proposal, config.bot_username.as_str(), reply_to, lang);
    Ok(CallbackStep::Publish(ApprovePlan {
        callback_id: callback_id.clone(),
        chat_id,
        message_id,
        group_id: msg.proposal_group_id,
        request,
        lang,
    }))
}

fn reject(
    db: &mut Database,
    callback_id: &String,
    chat_id: i64,
    message_id: i32,
    id: i64,
    lang: Locale,
) -> (r: Result<CallbackStep, BotError>)
    requires
        old(db)@.wf(),
    ensures
        final(db)@.wf(),
        (final(db)@, step_result(r)) == reject_outcome(old(db)@, callback_id@, chat_id, message_id, id, lang),
{
    let msg = match db.get_message_by_id(id) {
        Some(m) => m,
        None => return Err(BotError::MessageNotFound),
    };
    let sender_id = msg.sender_id;
    let group_id = msg.proposal_group_id.as_str();
    db.update_proposal_status(group_id, "rejected");
    db.delete_proposal(group_id);
    let mut out = just(answer_callback(callback_id.clone(), String::from_str(L10n::rejected(lang))));
    push_effect(&mut out, delete_message(chat_id, message_id));
    let mut kb: Vec<Button> = Vec::new();
    kb.push(Button { text: String::from_str(L10n::reason_btn(lang)), data: data_with_id("reason_", sender_id) });
    kb.push(Button { text: String::from_str(L10n::next_btn(lang)), data: String::from_str("next") });
    kb.push(Button { text: String::from_str(L10n::ban_btn(lang)), data: data_with_id("ban_reason_", sender_id) });
    proof {
        assert(kb@.map_values(|b: Button| b@) =~= seq![
            button(reason_btn_text(lang), "reason_"@ + decimal(sender_id as int)),
            button(next_btn_text(lang), "next"@),
            button(ban_btn_text(lang), "ban_reason_"@ + decimal(sender_id as int)),
        ]);
    }
    push_effect(&mut out, send_keyboard(chat_id, String::from_str(L10n::choose_action(lang)), kb));
    proof {
        let want = reject_outcome(old(db)@, callback_id@, chat_id, message_id, id, lang);
        assert(effect_views(out@) =~= match want.1 {
            Ok(CallbackStepView::Done(v)) => v,
            _ => Seq::empty(),
        });
    }
    Ok(CallbackStep::Done(out))
}

/// Handles a button press.
pub fn handle_callback(db: &mut Database, config: &Config, q: &IncomingCallback) -> (r: Result<CallbackStep, BotError>)
    requires
        old(db)@.wf(),
    ensures
        final(db)@.wf(),
        (final(db)@, step_result(r)) == callback_outcome(old(db)@, config.owner_id, config.channel_id, config.bot_username@, *q),
{
    let lang = db.get_language();
    if !is_authorized(db, config, q.from_id) {
        return Ok(CallbackStep::Done(just(answer_callback(q.id.clone(), String::from_str(L10n::no_access(lang))))));
    }
    let (chat_id, message_id) = match q.message {
        Some(m) => m,
        None => return Ok(CallbackStep::Done(no_effects())),
    };
    let data: &str = match &q.data {
        Some(d) => d.as_str(),
        None => "",
    };
    proof {
        reveal_strlit("");
        assert(data@ == data_text(q.data));
    }
    match parse_button(data) {
        ButtonAction::Next => {
            let mut out: Vec<Effect> = Vec::new();
            show_next_proposal(db, chat_id, lang, &mut out);
            push_effect(&mut out, answer_callback(q.id.clone(), String::from_str(L10n::next_btn(lang))));
            proof {
                assert(effect_views(out@) =~= next_proposal_effects(db@, chat_id, lang).push(answer(q.id@, next_btn_text(lang))));
            }
            Ok(CallbackStep::Done(out))
        },
        ButtonAction::Approve(Some(id)) => plan_approve(db, config, &q.id, chat_id, message_id, id, lang),
        ButtonAction::Reject(Some(id)) => reject(db, &q.id, chat_id, message_id, id, lang),
        ButtonAction::Reason(Some(sender_id)) => {
            let r = ask_reason(&q.id, q.from_id, chat_id, sender_id, L10n::enter_rejection_reason(lang), "reason", lang);
            Ok(CallbackStep::Done(r))
        },
        ButtonAction::BanReason(Some(sender_id)) => {
            let r = ask_reason(&q.id, q.from_id, chat_id, sender_id, L10n::enter_ban_reason(lang), "ban_reason", lang);
            Ok(CallbackStep::Done(r))
        },
        ButtonAction::Unknown => Ok(CallbackStep::Done(no_effects())),
        _ => Err(BotError::InvalidCallbackId),
    }
}

/// How the publication of an approved proposal went: posted (with the id of
/// the first channel message, when Telegram gave one), or failed.
#[derive(Debug, Clone, Copy)]
pub enum PublishOutcome {
    Posted(Option<i32>),
    Failed,
}

/// What finishing an approval does: once posted with a known id, the group
/// is linked to the post and marked approved, the button is answered, its
/// message deleted and the next proposal shown; otherwise only the button is
/// answered.
pub open spec fn finish_outcome(db: DbView, plan: ApprovePlanView, outcome: PublishOutcome) -> (DbView, Seq<EffectView>) {
    match outcome {
        PublishOutcome::Posted(Some(cm)) => {
            let d2 = db.channel_effect(plan.group_id, cm).status_effect(plan.group_id, approved_status());
            (
                d2,
                seq![answer(plan.callback_id, published_text(plan.lang)), deletion(plan.chat_id, plan.message_id)]
                    + next_proposal_effects(d2, plan.chat_id, plan.lang),
            )
        },
        PublishOutcome::Posted(None) => (db, seq![answer(plan.callback_id, published_no_id_text(plan.lang))]),
        PublishOutcome::Failed => (db, seq![answer(plan.callback_id, failed_publish_text(plan.lang))]),
    }
}

/// Finishes an approval once the publication of `plan` went as `outcome`.
pub fn finish_approve(db: &mut Database, plan: &ApprovePlan, outcome: PublishOutcome) -> (r: Vec<Effect>)
    requires
        old(db)@.wf(),
    ensures
        final(db)@.wf(),
        (final(db)@, effect_views(r@)) == finish_outcome(old(db)@, plan@, outcome),
{
    let lang = plan.lang;
    match outcome {
        PublishOutcome::Posted(Some(channel_msg_id)) => {
            db.update_channel_message_id(plan.group_id.as_str(), channel_msg_id);
            db.update_proposal_status(plan.group_id.as_str(), "approved");
            let mut out = pair(
                answer_callback(plan.callback_id.clone(), String::from_str(L10n::published(lang))),
                delete_message(plan.chat_id, plan.message_id),
            );
            show_next_proposal(db, plan.chat_id, lang, &mut out);
            out
        },
        PublishOutcome::Posted(None) => just(answer_callback(plan.callback_id.clone(), String::from_str(L10n::published_no_id(lang)))),
        PublishOutcome::Failed => just(answer_callback(plan.callback_id.clone(), String::from_str(L10n::failed_publish(lang)))),
    }
}

} // verus!
