//! The bot's handlers: from an incoming update and the store to the
//! updated store and the list of effects to carry out.

pub mod effects;
pub mod incoming;
pub mod media;
pub mod admin;
pub mod proposals;
pub mod moderation;
pub mod laws;

use vstd::prelude::*;

use crate::bot::admin::{
    AddAdminStepView, add_admin_step, admins_reply, banned_reply, handle_add_admin, handle_admins,
    handle_banned, handle_remove_admin, handle_set_language, remove_admin_outcome, set_language_outcome,
    AddAdminStep,
};
use crate::bot::effects::{Effect, EffectView, effect_views};
use crate::bot::incoming::IncomingMessage;
use crate::bot::moderation::{handle_pardon, handle_proposals, pardon_outcome, proposals_reply};
use crate::bot::proposals::{
    handle_proposal, handle_reply_command, handle_reply_content, handle_send_ban_reason,
    handle_send_reason, handle_start, proposal_result, reply_command_outcome, reply_content_result,
    send_ban_reason_result, send_reason_outcome, start_outcome,
};
use crate::config::Config;
use crate::db::models::opt_text;
use crate::db::repository::{Database, DbError, DbView};
use crate::locales::Locale;
use crate::text::{
    has_prefix, lower_seq, split_first_ws, str_matches_lowercased, str_split_first_ws,
    str_strip_leading, str_strip_prefix, str_trim, strip_leading, trim,
};

verus! {

/// Why a handler gave up.
#[derive(Debug, Clone, Copy, PartialEq, Eq, Structural)]
pub enum BotError {
    /// The store could not take a new row.
    Store(DbError),
    /// A button's data did not end in a number.
    InvalidCallbackId,
    /// A button named a message that is not stored.
    MessageNotFound,
    /// A button named a proposal that has no items.
    ProposalNotFound,
}

/// An empty list of effects.
pub fn no_effects() -> (r: Vec<Effect>)
    ensures
        effect_views(r@) == Seq::<EffectView>::empty(),
{
    let r: Vec<Effect> = Vec::new();
    proof {
        assert(effect_views(r@) =~= Seq::<EffectView>::empty());
    }
    r
}

/// A list holding one effect.
pub fn just(e: Effect) -> (r: Vec<Effect>)
    ensures
        effect_views(r@) == seq![e@],
{
    let mut r: Vec<Effect> = Vec::new();
    let ghost ev = e@;
    r.push(e);
    proof {
        assert(effect_views(r@) =~= seq![ev]);
    }
    r
}

/// A list holding two effects.
pub fn pair(a: Effect, b: Effect) -> (r: Vec<Effect>)
    ensures
        effect_views(r@) == seq![a@, b@],
{
    let mut r: Vec<Effect> = Vec::new();
    let ghost av = a@;
    let ghost bv = b@;
    r.push(a);
    r.push(b);
    proof {
        assert(effect_views(r@) =~= seq![av, bv]);
    }
    r
}

/// Appends `e` to `v`.
pub fn push_effect(v: &mut Vec<Effect>, e: Effect)
    ensures
        effect_views(final(v)@) == effect_views(old(v)@).push(e@),
{
    let ghost ev = e@;
    v.push(e);
    proof {
        assert(effect_views(final(v)@) =~= effect_views(old(v)@).push(ev));
    }
}


/// The commands the bot knows.
pub enum Command {
    Start,
    Proposals,
    AddAdmin,
    RemoveAdmin,
    Admins,
    Banned,
    Pardon,
    Reply,
    Lang,
    Other,
}

/// The command a word names, compared without regard to ASCII letter case.
/// (Rust's full `to_lowercase` agrees: no non-ASCII character lowercases
/// to a letter of these words without adding another character.)
pub open spec fn command_named(w: Seq<char>) -> Command {
    let l = lower_seq(w);
    if l == "start"@ {
        Command::Start
    } else if l == "proposals"@ {
        Command::Proposals
    } else if l == "addadmin"@ {
        Command::AddAdmin
    } else if l == "removeadmin"@ {
        Command::RemoveAdmin
    } else if l == "admins"@ {
        Command::Admins
    } else if l == "banned"@ {
        Command::Banned
    } else if l == "pardon"@ {
        Command::Pardon
    } else if l == "reply"@ {
        Command::Reply
    } else if l == "lang"@ {
        Command::Lang
    } else {
        Command::Other
    }
}

/// A command message split into its command (the first word without its
/// leading slashes) and its argument (what follows the first white space,
/// trimmed).
pub open spec fn parse_command(text: Seq<char>) -> (Command, Seq<char>) {
    let parts = split_first_ws(text);
    (
        command_named(strip_leading(parts.0, '/')),
        trim(
            match parts.1 {
                Some(r) => r,
                None => Seq::empty(),
            },
        ),
    )
}

fn command_of(w: &str) -> (r: Command)
    ensures
        r == command_named(w@),
{
    if str_matches_lowercased(w, "start") {
        Command::Start
    } else if str_matches_lowercased(w, "proposals") {
        Command::Proposals
    } else if str_matches_lowercased(w, "addadmin") {
        Command::AddAdmin
    } else if str_matches_lowercased(w, "removeadmin") {
        Command::RemoveAdmin
    } else if str_matches_lowercased(w, "admins") {
        Command::Admins
    } else if str_matches_lowercased(w, "banned") {
        Command::Banned
    } else if str_matches_lowercased(w, "pardon") {
        Command::Pardon
    } else if str_matches_lowercased(w, "reply") {
        Command::Reply
    } else if str_matches_lowercased(w, "lang") {
        Command::Lang
    } else {
        Command::Other
    }
}

/// Splits a command message into its command and argument.
pub fn read_command(text: &str) -> (r: (Command, &str))
    ensures
        (r.0, r.1@) == parse_command(text@),
{
    let (first, rest) = str_split_first_ws(text);
    let cmd = command_of(str_strip_leading(first, '/'));
    let args = match rest {
        Some(r) => str_trim(r),
        None => {
            proof {
                reveal_strlit("");
                assert(trim(Seq::<char>::empty()) == Seq::<char>::empty());
            }
            ""
        },
    };
    (cmd, args)
}

/// What handling a message leads to: effects, or (for `/addadmin`) a name
/// to look up before [`crate::bot::admin::finish_add_admin`].
#[derive(Debug)]
pub enum MessageStep {
    Done(Vec<Effect>),
    LookUpName { chat_id: i64, target_id: i64, lang: Locale },
}

/// A [`MessageStep`] as values.
pub enum MessageStepView {
    Done(Seq<EffectView>),
    LookUpName { chat_id: i64, target_id: i64, lang: Locale },
}

impl View for MessageStep {
    type V = MessageStepView;

    open spec fn view(&self) -> MessageStepView {
        match self {
            MessageStep::Done(v) => MessageStepView::Done(effect_views(v@)),
            MessageStep::LookUpName { chat_id, target_id, lang } => MessageStepView::LookUpName {
                chat_id: *chat_id,
                target_id: *target_id,
                lang: *lang,
            },
        }
    }
}

/// The view of a message handler's result.
pub open spec fn message_step_result(r: Result<MessageStep, BotError>) -> Result<MessageStepView, BotError> {
    match r {
        Ok(s) => Ok(s@),
        Err(e) => Err(e),
    }
}

/// Effects as a finished step.
pub open spec fn done(v: Seq<EffectView>) -> Result<MessageStepView, BotError> {
    Ok(MessageStepView::Done(v))
}

/// What a command leads to; `d` is the store before, `d2` after.
pub open spec fn command_result(
    d: DbView,
    d2: DbView,
    r: Result<MessageStepView, BotError>,
    owner_id: i64,
    user_id: i64,
    chat_id: i64,
    text: Seq<char>,
) -> bool {
    let (cmd, args) = parse_command(text);
    match cmd {
        Command::Start => {
            let o = start_outcome(d, owner_id, user_id, chat_id, args);
            d2 == o.0 && r == done(o.1)
        },
        Command::Proposals => d2 == d && r == done(proposals_reply(d, owner_id, user_id, chat_id)),
        Command::AddAdmin => d2 == d && r == match add_admin_step(d, owner_id, user_id, chat_id, args) {
            AddAdminStepView::Reply(v) => done(v),
            AddAdminStepView::LookUpName { target_id, lang } => Ok(
                MessageStepView::LookUpName { chat_id: chat_id, target_id: target_id, lang: lang },
            ),
        },
        Command::RemoveAdmin => {
            let o = remove_admin_outcome(d, owner_id, user_id, chat_id, args);
            d2 == o.0 && r == done(o.1)
        },
        Command::Admins => d2 == d && r == done(admins_reply(d, owner_id, user_id, chat_id)),
        Command::Banned => d2 == d && r == done(banned_reply(d, owner_id, user_id, chat_id)),
        Command::Pardon => {
            let o = pardon_outcome(d, owner_id, user_id, chat_id, args);
            d2 == o.0 && r == done(o.1)
        },
        Command::Reply => {
            let o = reply_command_outcome(d, user_id, chat_id, args);
            d2 == o.0 && r == done(o.1)
        },
        Command::Lang => {
            let o = set_language_outcome(d, owner_id, user_id, chat_id, args);
            d2 == o.0 && r == done(o.1)
        },
        Command::Other => d2 == d && r == done(Seq::empty()),
    }
}

/// The effects of a finished step, or its error (nothing for a lookup).
pub open spec fn step_effects(r: Result<MessageStepView, BotError>) -> Result<Seq<EffectView>, BotError> {
    match r {
        Ok(MessageStepView::Done(v)) => Ok(v),
        Ok(MessageStepView::LookUpName { .. }) => Ok(Seq::empty()),
        Err(e) => Err(e),
    }
}

/// What a message leads to. Messages without a sender are ignored; texts
/// that begin with `/` are commands; otherwise the sender's dialogue state
/// decides: a reply to a post, a rejection reason, a ban reason, or else a
/// new proposal.
pub open spec fn message_result(
    d: DbView,
    d2: DbView,
    r: Result<MessageStepView, BotError>,
    owner_id: i64,
    channel_id: i64,
    msg: IncomingMessage,
) -> bool {
    match msg.from_id {
        None => d2 == d && r == done(Seq::empty()),
        Some(user_id) => {
            let text = opt_text(msg.text);
            let st = d.user_state(user_id);
            if text is Some && has_prefix(text->0, "/"@) {
                command_result(d, d2, r, owner_id, user_id, msg.chat_id, text->0)
            } else if st is Some && st->0.state == "reply_mode"@ {
                r is Ok && r->Ok_0 is Done && reply_content_result(
                    d,
                    d2,
                    step_effects(r)->Ok_0,
                    channel_id,
                    msg,
                    user_id,
                    st->0.temp_target_id,
                )
            } else if st is Some && st->0.state == "reason"@ {
                let o = send_reason_outcome(d, user_id, msg.chat_id, text, st->0.temp_target_id);
                d2 == o.0 && r == done(o.1)
            } else if st is Some && st->0.state == "ban_reason"@ {
                r is Ok && r->Ok_0 is Done && send_ban_reason_result(
                    d,
                    d2,
                    step_effects(r)->Ok_0,
                    user_id,
                    msg.chat_id,
                    text,
                    st->0.temp_target_id,
                )
            } else {
                !(r matches Ok(MessageStepView::LookUpName { .. })) && proposal_result(
                    d,
                    d2,
                    step_effects(r),
                    channel_id,
                    msg,
                    user_id,
                )
            }
        },
    }
}

fn dispatch_command(db: &mut Database, config: &Config, user_id: i64, chat_id: i64, text: &str) -> (r: Result<MessageStep, BotError>)
    requires
        old(db)@.wf(),
    ensures
        final(db)@.wf(),
        command_result(old(db)@, final(db)@, message_step_result(r), config.owner_id, user_id, chat_id, text@),
{
    let (cmd, args) = read_command(text);
    match cmd {
        Command::Start => Ok(MessageStep::Done(handle_start(db, config, user_id, chat_id, args))),
        Command::Proposals => Ok(MessageStep::Done(handle_proposals(db, config, user_id, chat_id))),
        Command::AddAdmin => match handle_add_admin(db, config, user_id, chat_id, args) {
            AddAdminStep::Reply(v) => Ok(MessageStep::Done(v)),
            AddAdminStep::LookUpName { target_id, lang } => Ok(MessageStep::LookUpName { chat_id, target_id, lang }),
        },
        Command::RemoveAdmin => Ok(MessageStep::Done(handle_remove_admin(db, config, user_id, chat_id, args))),
        Command::Admins => Ok(MessageStep::Done(handle_admins(db, config, user_id, chat_id))),
        Command::Banned => Ok(MessageStep::Done(handle_banned(db, config, user_id, chat_id))),
        Command::Pardon => Ok(MessageStep::Done(handle_pardon(db, config, user_id, chat_id, args))),
        Command::Reply => Ok(MessageStep::Done(handle_reply_command(db, user_id, chat_id, args))),
        Command::Lang => Ok(MessageStep::Done(handle_set_language(db, config, user_id, chat_id, args))),
        Command::Other => Ok(MessageStep::Done(no_effects())),
    }
}

/// Handles an incoming message; see [`message_result`].
pub fn handle_message(db: &mut Database, config: &Config, msg: &IncomingMessage) -> (r: Result<MessageStep, BotError>)
    requires
        old(db)@.wf(),
    ensures
        final(db)@.wf(),
        message_result(old(db)@, final(db)@, message_step_result(r), config.owner_id, config.channel_id, *msg),
{
    let user_id = match msg.from_id {
        Some(u) => u,
        None => return Ok(MessageStep::Done(no_effects())),
    };
    if let Some(text) = &msg.text {
        if str_strip_prefix(text.as_str(), "/").is_some() {
            return dispatch_command(db, config, user_id, msg.chat_id, text.as_str());
        }
    }
    if let Some(us) = db.get_user_state(user_id) {
        let state = us.state.as_str();
        if crate::text::str_equal(state, "reply_mode") {
            return Ok(MessageStep::Done(handle_reply_content(db, config, msg, user_id, us.temp_target_id)));
        }
        if crate::text::str_equal(state, "reason") {
            return Ok(MessageStep::Done(handle_send_reason(db, user_id, msg.chat_id, &msg.text, us.temp_target_id)));
        }
        if crate::text::str_equal(state, "ban_reason") {
            return Ok(MessageStep::Done(handle_send_ban_reason(db, user_id, msg.chat_id, &msg.text, us.temp_target_id)));
        }
    }
    match handle_proposal(db, config, msg, user_id) {
        Ok(v) => Ok(MessageStep::Done(v)),
        Err(e) => Err(e),
    }
}

} // verus!
