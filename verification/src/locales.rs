//! Languages and the localized texts that the bot sends.

use vstd::prelude::*;
use vstd::string::*;

use crate::text::{decimal, i64_to_decimal, lower_seq, nat_digits, str_matches_lowercased, usize_to_decimal};

verus! {

/// The languages the bot speaks.
#[derive(Debug, Clone, Copy, PartialEq, Eq, Structural)]
pub enum Locale {
    En,
    Ru,
}

/// Which language a setting names: the text compared without regard to
/// ASCII letter case. (Rust's full `to_lowercase` agrees with this on the
/// two words, since no non-ASCII character lowercases to `e`, `n`, `r` or `u`.)
pub open spec fn parse_locale(s: Seq<char>) -> Option<Locale> {
    if lower_seq(s) == "en"@ {
        Some(Locale::En)
    } else if lower_seq(s) == "ru"@ {
        Some(Locale::Ru)
    } else {
        None
    }
}

/// The code under which a language is stored.
pub open spec fn locale_code(l: Locale) -> Seq<char> {
    match l {
        Locale::En => "en"@,
        Locale::Ru => "ru"@,
    }
}

impl Locale {
    /// Reads a language code, `en` or `ru` in any letter case.
    pub fn parse(s: &str) -> (r: Option<Locale>)
        ensures
            r == parse_locale(s@),
    {
        if str_matches_lowercased(s, "en") {
            Some(Locale::En)
        } else if str_matches_lowercased(s, "ru") {
            Some(Locale::Ru)
        } else {
            None
        }
    }

    /// The stored code of the language.
    pub fn as_str(&self) -> (r: &'static str)
        ensures
            r@ == locale_code(*self),
    {
        match self {
            Locale::En => "en",
            Locale::Ru => "ru",
        }
    }
}

/// Reading a language back from its code gives the same language.
pub proof fn lemma_parse_as_str(l: Locale)
    ensures
        parse_locale(locale_code(l)) == Some(l),
{
    reveal_strlit("en");
    reveal_strlit("ru");
    assert(lower_seq("en"@) =~= "en"@);
    assert(lower_seq("ru"@) =~= "ru"@);
    assert("en"@ != "ru"@) by {
        assert("en"@[0] != "ru"@[0]);
    }
}

/// What [`L10n::welcome`] says.
pub open spec fn welcome_text(l: Locale) -> Seq<char> {
    match l {
        Locale::En => "🤖 Welcome to the anonymous proposal bot!\n\nJust send your proposal, idea, or message here, and it will be anonymously reviewed by moderators.\n\nYour identity will be hidden - moderators will only see the content of your message.\n\n❓ What you can send:\n• Text proposals\n• Photos\n• Documents\n• Videos\n• Video notes\n• Audio and voice messages\n• Stickers\n\nYour proposal will be reviewed shortly!"@,
        Locale::Ru => "🤖 Добро пожаловать в анонимную предложку!\n\nПросто отправьте сюда ваше предложение, идею или сообщение, и оно будет анонимно рассмотрено модераторами.\n\nВаша личность будет скрыта - модераторы увидят только содержание вашего сообщения.\n\n❓ Что можно отправлять:\n• Текстовые предложения\n• Фотографии\n• Документы\n• Видео\n• Кружочки (видеосообщения)\n• Аудио и голосовые сообщения\n• Стикеры\n\nВаше предложение будет рассмотрено в ближайшее время!"@,
    }
}

/// What [`L10n::only_owner_add_admins`] says.
pub open spec fn only_owner_add_admins_text(l: Locale) -> Seq<char> {
    match l {
        Locale::En => "❌ Only the owner can add admins."@,
        Locale::Ru => "❌ Только владелец бота может добавлять администраторов."@,
    }
}

/// What [`L10n::add_admin_usage`] says.
pub open spec fn add_admin_usage_text(l: Locale) -> Seq<char> {
    match l {
        Locale::En => "📝 Usage: /addadmin <user_ID>\n\nExample: /addadmin 123456789"@,
        Locale::Ru => "📝 Использование: /addadmin <ID_пользователя>\n\nПример: /addadmin 123456789"@,
    }
}

/// What [`L10n::already_owner`] says.
pub open spec fn already_owner_text(l: Locale) -> Seq<char> {
    match l {
        Locale::En => "❌ You are already the owner."@,
        Locale::Ru => "❌ Вы уже являетесь владельцем бота."@,
    }
}

/// What [`L10n::admin_already_exists`] says.
pub open spec fn admin_already_exists_text(l: Locale, id: int) -> Seq<char> {
    match l {
        Locale::En => "❌ User "@ + decimal(id) + " is already an admin."@,
        Locale::Ru => "❌ Пользователь "@ + decimal(id) + " уже является администратором."@,
    }
}

/// What [`L10n::admin_added`] says.
pub open spec fn admin_added_text(l: Locale, name: Seq<char>) -> Seq<char> {
    match l {
        Locale::En => "✅ User "@ + name + " added as admin!"@,
        Locale::Ru => "✅ Пользователь "@ + name + " добавлен как администратор!"@,
    }
}

/// What [`L10n::admin_added_notification`] says.
pub open spec fn admin_added_notification_text(l: Locale) -> Seq<char> {
    match l {
        Locale::En => "🎉 You have been added as a moderator!\n\nUse /start to access the moderation panel."@,
        Locale::Ru => "🎉 Вы были добавлены как модератор бота-предложки!\n\nИспользуйте команду /start для доступа к панели модерации."@,
    }
}

/// What [`L10n::only_owner_remove_admins`] says.
pub open spec fn only_owner_remove_admins_text(l: Locale) -> Seq<char> {
    match l {
        Locale::En => "❌ Only the owner can remove admins."@,
        Locale::Ru => "❌ Только владелец может удалять администраторов."@,
    }
}

/// What [`L10n::remove_admin_usage`] says.
pub open spec fn remove_admin_usage_text(l: Locale) -> Seq<char> {
    match l {
        Locale::En => "📝 Usage: /removeadmin <user_ID>\n\nExample: /removeadmin 123456789"@,
        Locale::Ru => "📝 Использование: /removeadmin <ID_пользователя>\n\nПример: /removeadmin 123456789"@,
    }
}

/// What [`L10n::cannot_remove_owner`] says.
pub open spec fn cannot_remove_owner_text(l: Locale) -> Seq<char> {
    match l {
        Locale::En => "❌ Cannot remove the owner."@,
        Locale::Ru => "❌ Нельзя удалить владельца бота."@,
    }
}

/// What [`L10n::admin_not_found`] says.
pub open spec fn admin_not_found_text(l: Locale) -> Seq<char> {
    match l {
        Locale::En => "❌ User is not an admin."@,
        Locale::Ru => "❌ Пользователь не является администратором."@,
    }
}

/// What [`L10n::admin_removed`] says.
pub open spec fn admin_removed_text(l: Locale, id: int) -> Seq<char> {
    match l {
        Locale::En => "✅ Admin "@ + decimal(id) + " removed."@,
        Locale::Ru => "✅ Администратор "@ + decimal(id) + " удалён."@,
    }
}

/// What [`L10n::admin_removed_notification`] says.
pub open spec fn admin_removed_notification_text(l: Locale) -> Seq<char> {
    match l {
        Locale::En => "⚠️ You are no longer a moderator."@,
        Locale::Ru => "⚠️ Вы больше не являетесь модератором бота."@,
    }
}

/// What [`L10n::only_owner_list_admins`] says.
pub open spec fn only_owner_list_admins_text(l: Locale) -> Seq<char> {
    match l {
        Locale::En => "❌ Only the owner can list admins."@,
        Locale::Ru => "❌ Только владелец может просматривать список администраторов."@,
    }
}

/// What [`L10n::no_admins`] says.
pub open spec fn no_admins_text(l: Locale) -> Seq<char> {
    match l {
        Locale::En => "📋 No moderators."@,
        Locale::Ru => "📋 Список модераторов пуст."@,
    }
}

/// What [`L10n::admins_list_header`] says.
pub open spec fn admins_list_header_text(l: Locale, owner_id: int) -> Seq<char> {
    match l {
        Locale::En => "📋 Moderators:\n\n👑 Owner: ID "@ + decimal(owner_id) + "\n"@,
        Locale::Ru => "📋 Список модераторов:\n\n👑 Владелец: ID "@ + decimal(owner_id) + "\n"@,
    }
}

/// What [`L10n::no_access`] says.
pub open spec fn no_access_text(l: Locale) -> Seq<char> {
    match l {
        Locale::En => "❌ No access."@,
        Locale::Ru => "❌ У вас нет доступа к этой функции."@,
    }
}

/// What [`L10n::no_active_bans`] says.
pub open spec fn no_active_bans_text(l: Locale) -> Seq<char> {
    match l {
        Locale::En => "✅ No active bans."@,
        Locale::Ru => "✅ Список банов пуст."@,
    }
}

/// What [`L10n::active_bans_header`] says.
pub open spec fn active_bans_header_text(l: Locale) -> Seq<char> {
    match l {
        Locale::En => "🚫 Active bans:\n\n"@,
        Locale::Ru => "🚫 Активные блокировки:\n\n"@,
    }
}

/// What [`L10n::ban_record_entry`] says.
pub open spec fn ban_record_entry_text(l: Locale, i: nat, ban_id: Seq<char>, reason: Seq<char>, date: Seq<char>) -> Seq<char> {
    match l {
        Locale::En => nat_digits(i) + ". "@ + ban_id + "\n   Reason: "@ + reason + "\n   Date: "@ + date + "\n"@,
        Locale::Ru => nat_digits(i) + ". "@ + ban_id + "\n   Причина: "@ + reason + "\n   Дата: "@ + date + "\n"@,
    }
}

/// What [`L10n::pardon_usage`] says.
pub open spec fn pardon_usage_text(l: Locale) -> Seq<char> {
    match l {
        Locale::En => "📝 Usage: /pardon <BAN-ID>"@,
        Locale::Ru => "📝 Использование: /pardon <BAN-ID>"@,
    }
}

/// What [`L10n::ban_not_found`] says.
pub open spec fn ban_not_found_text(l: Locale) -> Seq<char> {
    match l {
        Locale::En => "❌ Ban not found or already pardoned."@,
        Locale::Ru => "❌ Бан не найден или уже снят."@,
    }
}

/// What [`L10n::access_restored`] says.
pub open spec fn access_restored_text(l: Locale) -> Seq<char> {
    match l {
        Locale::En => "✅ Your access has been restored."@,
        Locale::Ru => "✅ Ваш доступ восстановлен."@,
    }
}

/// What [`L10n::ban_deactivated`] says.
pub open spec fn ban_deactivated_text(l: Locale, ban_id: Seq<char>) -> Seq<char> {
    match l {
        Locale::En => "✅ Ban "@ + ban_id + " deactivated."@,
        Locale::Ru => "✅ Бан "@ + ban_id + " деактивирован."@,
    }
}

/// What [`L10n::no_new_proposals`] says.
pub open spec fn no_new_proposals_text(l: Locale) -> Seq<char> {
    match l {
        Locale::En => "✅ No new proposals."@,
        Locale::Ru => "✅ Нет новых предложений."@,
    }
}

/// What [`L10n::proposal_items_count`] says.
pub open spec fn proposal_items_count_text(l: Locale, count: nat) -> Seq<char> {
    match l {
        Locale::En => "📨 Proposal ("@ + nat_digits(count) + " item(s)):"@,
        Locale::Ru => "📨 Предложение ("@ + nat_digits(count) + " элем.):"@,
    }
}

/// What [`L10n::failed_display_media`] says.
pub open spec fn failed_display_media_text(l: Locale, e: Seq<char>) -> Seq<char> {
    match l {
        Locale::En => "❌ Failed to display media: "@ + e,
        Locale::Ru => "❌ Ошибка отображения медиа: "@ + e,
    }
}

/// What [`L10n::proposal_action_header`] says.
pub open spec fn proposal_action_header_text(l: Locale, id: int, date: Seq<char>) -> Seq<char> {
    match l {
        Locale::En => "📨 Proposal #"@ + decimal(id) + "\n⏰ "@ + date + "\n\nChoose action:"@,
        Locale::Ru => "📨 Предложение #"@ + decimal(id) + "\n⏰ "@ + date + "\n\nВыберите действие:"@,
    }
}

/// What [`L10n::approve_btn`] says.
pub open spec fn approve_btn_text(l: Locale) -> Seq<char> {
    match l {
        Locale::En => "✅ APPROVE"@,
        Locale::Ru => "✅ ОДОБРИТЬ"@,
    }
}

/// What [`L10n::reject_btn`] says.
pub open spec fn reject_btn_text(l: Locale) -> Seq<char> {
    match l {
        Locale::En => "❌ REJECT"@,
        Locale::Ru => "❌ ОТКЛОНИТЬ"@,
    }
}

/// What [`L10n::published`] says.
pub open spec fn published_text(l: Locale) -> Seq<char> {
    match l {
        Locale::En => "✅ Published!"@,
        Locale::Ru => "✅ Опубликовано!"@,
    }
}

/// What [`L10n::published_no_id`] says.
pub open spec fn published_no_id_text(l: Locale) -> Seq<char> {
    match l {
        Locale::En => "❌ Published but failed to retrieve message ID"@,
        Locale::Ru => "❌ Опубликовано, но не удалось получить ID сообщения"@,
    }
}

/// What [`L10n::failed_publish`] says.
pub open spec fn failed_publish_text(l: Locale) -> Seq<char> {
    match l {
        Locale::En => "❌ Failed to publish"@,
        Locale::Ru => "❌ Ошибка публикации"@,
    }
}

/// What [`L10n::rejected`] says.
pub open spec fn rejected_text(l: Locale) -> Seq<char> {
    match l {
        Locale::En => "✅ Rejected!"@,
        Locale::Ru => "✅ Отклонено!"@,
    }
}

/// What [`L10n::reason_btn`] says.
pub open spec fn reason_btn_text(l: Locale) -> Seq<char> {
    match l {
        Locale::En => "Reason"@,
        Locale::Ru => "Причина"@,
    }
}

/// What [`L10n::next_btn`] says.
pub open spec fn next_btn_text(l: Locale) -> Seq<char> {
    match l {
        Locale::En => "Next"@,
        Locale::Ru => "Далее"@,
    }
}

/// What [`L10n::ban_btn`] says.
pub open spec fn ban_btn_text(l: Locale) -> Seq<char> {
    match l {
        Locale::En => "Ban"@,
        Locale::Ru => "Бан"@,
    }
}

/// What [`L10n::choose_action`] says.
pub open spec fn choose_action_text(l: Locale) -> Seq<char> {
    match l {
        Locale::En => "Choose action:"@,
        Locale::Ru => "Выберите действие:"@,
    }
}

/// What [`L10n::enter_rejection_reason`] says.
pub open spec fn enter_rejection_reason_text(l: Locale) -> Seq<char> {
    match l {
        Locale::En => "Enter rejection reason:"@,
        Locale::Ru => "Введите причину отказа:"@,
    }
}

/// What [`L10n::enter_reason_callback`] says.
pub open spec fn enter_reason_callback_text(l: Locale) -> Seq<char> {
    match l {
        Locale::En => "✅ Enter reason"@,
        Locale::Ru => "✅ Введите причину"@,
    }
}

/// What [`L10n::enter_ban_reason`] says.
pub open spec fn enter_ban_reason_text(l: Locale) -> Seq<char> {
    match l {
        Locale::En => "Enter ban reason:"@,
        Locale::Ru => "Введите причину блокировки:"@,
    }
}

/// What [`L10n::send_reply_to_post`] says.
pub open spec fn send_reply_to_post_text(l: Locale) -> Seq<char> {
    match l {
        Locale::En => "✍️ Send your reply to the post."@,
        Locale::Ru => "✍️ Отправьте ваш ответ на пост."@,
    }
}

/// What [`L10n::invalid_reply_link`] says.
pub open spec fn invalid_reply_link_text(l: Locale) -> Seq<char> {
    match l {
        Locale::En => "❌ Invalid reply link."@,
        Locale::Ru => "❌ Неверная ссылка для ответа."@,
    }
}

/// What [`L10n::user_banned`] says.
pub open spec fn user_banned_text(l: Locale) -> Seq<char> {
    match l {
        Locale::En => "🚫 You are banned."@,
        Locale::Ru => "🚫 Вы заблокированы."@,
    }
}

/// What [`L10n::owner_panel`] says.
pub open spec fn owner_panel_text(l: Locale) -> Seq<char> {
    match l {
        Locale::En => "👑 Owner Panel\n\nCommands:\n/addadmin <ID>\n/removeadmin <ID>\n/admins\n/banned\n/proposals\n/pardon <BAN-ID>\n/lang <en|ru>"@,
        Locale::Ru => "👑 Панель владельца\n\nКоманды:\n/addadmin <ID>\n/removeadmin <ID>\n/admins\n/banned\n/proposals\n/pardon <BAN-ID>\n/lang <en|ru>"@,
    }
}

/// What [`L10n::mod_panel`] says.
pub open spec fn mod_panel_text(l: Locale) -> Seq<char> {
    match l {
        Locale::En => "🛠️ Moderator Panel\n\nCommands:\n/proposals"@,
        Locale::Ru => "🛠️ Панель модератора\n\nКоманды:\n/proposals"@,
    }
}

/// What [`L10n::reply_usage`] says.
pub open spec fn reply_usage_text(l: Locale) -> Seq<char> {
    match l {
        Locale::En => "📝 Usage: /reply <post_ID>"@,
        Locale::Ru => "📝 Использование: /reply <ID_поста>"@,
    }
}

/// What [`L10n::post_not_found`] says.
pub open spec fn post_not_found_text(l: Locale) -> Seq<char> {
    match l {
        Locale::En => "❌ Post not found."@,
        Locale::Ru => "❌ Пост не найден."@,
    }
}

/// What [`L10n::proposal_accepted`] says.
pub open spec fn proposal_accepted_text(l: Locale) -> Seq<char> {
    match l {
        Locale::En => "✅ Your proposal has been accepted! It will be reviewed by moderators anonymously."@,
        Locale::Ru => "✅ Ваше предложение принято! Оно будет рассмотрено модераторами анонимно."@,
    }
}

/// What [`L10n::reply_accepted`] says.
pub open spec fn reply_accepted_text(l: Locale) -> Seq<char> {
    match l {
        Locale::En => "✅ Your reply has been accepted!"@,
        Locale::Ru => "✅ Ваш ответ принят!"@,
    }
}

/// What [`L10n::error_sending_reply`] says.
pub open spec fn error_sending_reply_text(l: Locale) -> Seq<char> {
    match l {
        Locale::En => "❌ Error sending reply."@,
        Locale::Ru => "❌ Ошибка при отправке ответа."@,
    }
}

/// What [`L10n::rejected_reason`] says.
pub open spec fn rejected_reason_text(l: Locale, reason: Seq<char>) -> Seq<char> {
    match l {
        Locale::En => "Your message was rejected. Reason: "@ + reason,
        Locale::Ru => "Ваше сообщение отклонено по причине: "@ + reason,
    }
}

/// What [`L10n::reason_sent`] says.
pub open spec fn reason_sent_text(l: Locale) -> Seq<char> {
    match l {
        Locale::En => "✅ Reason sent."@,
        Locale::Ru => "✅ Причина отправлена."@,
    }
}

/// What [`L10n::user_banned_appeal`] says.
pub open spec fn user_banned_appeal_text(l: Locale, ban_id: Seq<char>) -> Seq<char> {
    match l {
        Locale::En => "🚫 You are banned. Appeal code: "@ + ban_id,
        Locale::Ru => "🚫 Вы заблокированы. Код обращения: "@ + ban_id,
    }
}

/// What [`L10n::user_banned_success`] says.
pub open spec fn user_banned_success_text(l: Locale) -> Seq<char> {
    match l {
        Locale::En => "✅ User banned."@,
        Locale::Ru => "✅ Пользователь заблокирован."@,
    }
}

/// What [`L10n::error_banning_user`] says.
pub open spec fn error_banning_user_text(l: Locale) -> Seq<char> {
    match l {
        Locale::En => "❌ Error banning user."@,
        Locale::Ru => "❌ Ошибка при блокировке."@,
    }
}

/// What [`L10n::new_proposal_notif`] says.
pub open spec fn new_proposal_notif_text(l: Locale, id: Seq<char>, text: Seq<char>, media_type: Seq<char>) -> Seq<char> {
    match l {
        Locale::En => "📨 New proposal!\n\nID: "@ + id + "\n💬 "@ + text + "\n📁 Type: "@ + media_type + "\n\n/proposals"@,
        Locale::Ru => "📨 Новое предложение!\n\nID: "@ + id + "\n💬 "@ + text + "\n📁 Тип: "@ + media_type + "\n\n/proposals"@,
    }
}

/// What [`L10n::text_proposal`] says.
pub open spec fn text_proposal_text(l: Locale, caption: Seq<char>) -> Seq<char> {
    match l {
        Locale::En => "💬 Text proposal:\n"@ + caption,
        Locale::Ru => "💬 Текст предложения:\n"@ + caption,
    }
}

/// What [`L10n::media_proposal_text`] says.
pub open spec fn media_proposal_text_text(l: Locale, media_type: Seq<char>, caption: Seq<char>) -> Seq<char> {
    match l {
        Locale::En => "💬 "@ + media_type + "\n"@ + caption,
        Locale::Ru => "💬 "@ + media_type + "\n"@ + caption,
    }
}

/// What [`L10n::photo_text`] says.
pub open spec fn photo_text_text(l: Locale) -> Seq<char> {
    match l {
        Locale::En => "🖼️ Photo"@,
        Locale::Ru => "🖼️ Фото"@,
    }
}

/// What [`L10n::document_text`] says.
pub open spec fn document_text_text(l: Locale, name: Seq<char>) -> Seq<char> {
    match l {
        Locale::En => "📄 Document: "@ + name,
        Locale::Ru => "📄 Документ: "@ + name,
    }
}

/// What [`L10n::video_text`] says.
pub open spec fn video_text_text(l: Locale) -> Seq<char> {
    match l {
        Locale::En => "🎥 Video"@,
        Locale::Ru => "🎥 Видео"@,
    }
}

/// What [`L10n::video_note_text`] says.
pub open spec fn video_note_text_text(l: Locale) -> Seq<char> {
    match l {
        Locale::En => "📹 Video note"@,
        Locale::Ru => "📹 Кружочек (видеосообщение)"@,
    }
}

/// What [`L10n::audio_text`] says.
pub open spec fn audio_text_text(l: Locale, title: Seq<char>) -> Seq<char> {
    match l {
        Locale::En => "🎵 "@ + title,
        Locale::Ru => "🎵 "@ + title,
    }
}

/// What [`L10n::voice_text`] says.
pub open spec fn voice_text_text(l: Locale) -> Seq<char> {
    match l {
        Locale::En => "🎤 Voice message"@,
        Locale::Ru => "🎤 Голосовое сообщение"@,
    }
}

/// What [`L10n::sticker_text`] says.
pub open spec fn sticker_text_text(l: Locale) -> Seq<char> {
    match l {
        Locale::En => "😊 Sticker"@,
        Locale::Ru => "😊 Стикер"@,
    }
}

/// What [`L10n::media_content_text`] says.
pub open spec fn media_content_text_text(l: Locale) -> Seq<char> {
    match l {
        Locale::En => "📦 Media content"@,
        Locale::Ru => "📦 Медиа-контент"@,
    }
}

/// What [`L10n::reply_quote`] says.
pub open spec fn reply_quote_text(l: Locale, quoted: Seq<char>) -> Seq<char> {
    match l {
        Locale::En => "💬 Reply:\n\n"@ + quoted,
        Locale::Ru => "💬 Ответ:\n\n"@ + quoted,
    }
}

/// What [`L10n::lang_usage`] says.
pub open spec fn lang_usage_text(l: Locale) -> Seq<char> {
    match l {
        Locale::En => "📝 Usage: /lang <en|ru>"@,
        Locale::Ru => "📝 Использование: /lang <en|ru>"@,
    }
}

/// What [`L10n::lang_invalid`] says.
pub open spec fn lang_invalid_text(l: Locale) -> Seq<char> {
    match l {
        Locale::En => "❌ Invalid language. Use 'en' or 'ru'."@,
        Locale::Ru => "❌ Неверный язык. Используйте 'en' или 'ru'."@,
    }
}

/// What [`L10n::lang_updated`] says.
pub open spec fn lang_updated_text(l: Locale) -> Seq<char> {
    match l {
        Locale::En => "✅ Language updated to English."@,
        Locale::Ru => "✅ Язык изменен на Русский."@,
    }
}

/// The bot's texts, one function per message, each in both languages.
pub struct L10n;

impl L10n {
    /// The localized `welcome` text; see [`welcome_text`].
    pub fn welcome(l: Locale) -> (r: &'static str)
        ensures
            r@ == welcome_text(l),
    {
        match l {
            Locale::En => "🤖 Welcome to the anonymous proposal bot!\n\nJust send your proposal, idea, or message here, and it will be anonymously reviewed by moderators.\n\nYour identity will be hidden - moderators will only see the content of your message.\n\n❓ What you can send:\n• Text proposals\n• Photos\n• Documents\n• Videos\n• Video notes\n• Audio and voice messages\n• Stickers\n\nYour proposal will be reviewed shortly!",
            Locale::Ru => "🤖 Добро пожаловать в анонимную предложку!\n\nПросто отправьте сюда ваше предложение, идею или сообщение, и оно будет анонимно рассмотрено модераторами.\n\nВаша личность будет скрыта - модераторы увидят только содержание вашего сообщения.\n\n❓ Что можно отправлять:\n• Текстовые предложения\n• Фотографии\n• Документы\n• Видео\n• Кружочки (видеосообщения)\n• Аудио и голосовые сообщения\n• Стикеры\n\nВаше предложение будет рассмотрено в ближайшее время!",
        }
    }

    /// The localized `only_owner_add_admins` text; see [`only_owner_add_admins_text`].
    pub fn only_owner_add_admins(l: Locale) -> (r: &'static str)
        ensures
            r@ == only_owner_add_admins_text(l),
    {
        match l {
            Locale::En => "❌ Only the owner can add admins.",
            Locale::Ru => "❌ Только владелец бота может добавлять администраторов.",
        }
    }

    /// The localized `add_admin_usage` text; see [`add_admin_usage_text`].
    pub fn add_admin_usage(l: Locale) -> (r: &'static str)
        ensures
            r@ == add_admin_usage_text(l),
    {
        match l {
            Locale::En => "📝 Usage: /addadmin <user_ID>\n\nExample: /addadmin 123456789",
            Locale::Ru => "📝 Использование: /addadmin <ID_пользователя>\n\nПример: /addadmin 123456789",
        }
    }

    /// The localized `already_owner` text; see [`already_owner_text`].
    pub fn already_owner(l: Locale) -> (r: &'static str)
        ensures
            r@ == already_owner_text(l),
    {
        match l {
            Locale::En => "❌ You are already the owner.",
            Locale::Ru => "❌ Вы уже являетесь владельцем бота.",
        }
    }

    /// The localized `admin_already_exists` text; see [`admin_already_exists_text`].
    pub fn admin_already_exists(l: Locale, id: i64) -> (r: String)
        ensures
            r@ == admin_already_exists_text(l, id as int),
    {
        match l {
            Locale::En => {
                let mut s = String::from_str("❌ User ");
                let n = i64_to_decimal(id);
                s.append(n.as_str());
                s.append(" is already an admin.");
                s
            },
            Locale::Ru => {
                let mut s = String::from_str("❌ Пользователь ");
                let n = i64_to_decimal(id);
                s.append(n.as_str());
                s.append(" уже является администратором.");
                s
            },
        }
    }

    /// The localized `admin_added` text; see [`admin_added_text`].
    pub fn admin_added(l: Locale, name: &str) -> (r: String)
        ensures
            r@ == admin_added_text(l, name@),
    {
        match l {
            Locale::En => {
                let mut s = String::from_str("✅ User ");
                s.append(name);
                s.append(" added as admin!");
                s
            },
            Locale::Ru => {
                let mut s = String::from_str("✅ Пользователь ");
                s.append(name);
                s.append(" добавлен как администратор!");
                s
            },
        }
    }

    /// The localized `admin_added_notification` text; see [`admin_added_notification_text`].
    pub fn admin_added_notification(l: Locale) -> (r: &'static str)
        ensures
            r@ == admin_added_notification_text(l),
    {
        match l {
            Locale::En => "🎉 You have been added as a moderator!\n\nUse /start to access the moderation panel.",
            Locale::Ru => "🎉 Вы были добавлены как модератор бота-предложки!\n\nИспользуйте команду /start для доступа к панели модерации.",
        }
    }

    /// The localized `only_owner_remove_admins` text; see [`only_owner_remove_admins_text`].
    pub fn only_owner_remove_admins(l: Locale) -> (r: &'static str)
        ensures
            r@ == only_owner_remove_admins_text(l),
    {
        match l {
            Locale::En => "❌ Only the owner can remove admins.",
            Locale::Ru => "❌ Только владелец может удалять администраторов.",
        }
    }

    /// The localized `remove_admin_usage` text; see [`remove_admin_usage_text`].
    pub fn remove_admin_usage(l: Locale) -> (r: &'static str)
        ensures
            r@ == remove_admin_usage_text(l),
    {
        match l {
            Locale::En => "📝 Usage: /removeadmin <user_ID>\n\nExample: /removeadmin 123456789",
            Locale::Ru => "📝 Использование: /removeadmin <ID_пользователя>\n\nПример: /removeadmin 123456789",
        }
    }

    /// The localized `cannot_remove_owner` text; see [`cannot_remove_owner_text`].
    pub fn cannot_remove_owner(l: Locale) -> (r: &'static str)
        ensures
            r@ == cannot_remove_owner_text(l),
    {
        match l {
            Locale::En => "❌ Cannot remove the owner.",
            Locale::Ru => "❌ Нельзя удалить владельца бота.",
        }
    }

    /// The localized `admin_not_found` text; see [`admin_not_found_text`].
    pub fn admin_not_found(l: Locale) -> (r: &'static str)
        ensures
            r@ == admin_not_found_text(l),
    {
        match l {
            Locale::En => "❌ User is not an admin.",
            Locale::Ru => "❌ Пользователь не является администратором.",
        }
    }

    /// The localized `admin_removed` text; see [`admin_removed_text`].
    pub fn admin_removed(l: Locale, id: i64) -> (r: String)
        ensures
            r@ == admin_removed_text(l, id as int),
    {
        match l {
            Locale::En => {
                let mut s = String::from_str("✅ Admin ");
                let n = i64_to_decimal(id);
                s.append(n.as_str());
                s.append(" removed.");
                s
            },
            Locale::Ru => {
                let mut s = String::from_str("✅ Администратор ");
                let n = i64_to_decimal(id);
                s.append(n.as_str());
                s.append(" удалён.");
                s
            },
        }
    }

    /// The localized `admin_removed_notification` text; see [`admin_removed_notification_text`].
    pub fn admin_removed_notification(l: Locale) -> (r: &'static str)
        ensures
            r@ == admin_removed_notification_text(l),
    {
        match l {
            Locale::En => "⚠️ You are no longer a moderator.",
            Locale::Ru => "⚠️ Вы больше не являетесь модератором бота.",
        }
    }

    /// The localized `only_owner_list_admins` text; see [`only_owner_list_admins_text`].
    pub fn only_owner_list_admins(l: Locale) -> (r: &'static str)
        ensures
            r@ == only_owner_list_admins_text(l),
    {
        match l {
            Locale::En => "❌ Only the owner can list admins.",
            Locale::Ru => "❌ Только владелец может просматривать список администраторов.",
        }
    }

    /// The localized `no_admins` text; see [`no_admins_text`].
    pub fn no_admins(l: Locale) -> (r: &'static str)
        ensures
            r@ == no_admins_text(l),
    {
        match l {
            Locale::En => "📋 No moderators.",
            Locale::Ru => "📋 Список модераторов пуст.",
        }
    }

    /// The localized `admins_list_header` text; see [`admins_list_header_text`].
    pub fn admins_list_header(l: Locale, owner_id: i64) -> (r: String)
        ensures
            r@ == admins_list_header_text(l, owner_id as int),
    {
        match l {
            Locale::En => {
                let mut s = String::from_str("📋 Moderators:\n\n👑 Owner: ID ");
                let n = i64_to_decimal(owner_id);
                s.append(n.as_str());
                s.append("\n");
                s
            },
            Locale::Ru => {
                let mut s = String::from_str("📋 Список модераторов:\n\n👑 Владелец: ID ");
                let n = i64_to_decimal(owner_id);
                s.append(n.as_str());
                s.append("\n");
                s
            },
        }
    }

    /// The localized `no_access` text; see [`no_access_text`].
    pub fn no_access(l: Locale) -> (r: &'static str)
        ensures
            r@ == no_access_text(l),
    {
        match l {
            Locale::En => "❌ No access.",
            Locale::Ru => "❌ У вас нет доступа к этой функции.",
        }
    }

    /// The localized `no_active_bans` text; see [`no_active_bans_text`].
    pub fn no_active_bans(l: Locale) -> (r: &'static str)
        ensures
            r@ == no_active_bans_text(l),
    {
        match l {
            Locale::En => "✅ No active bans.",
            Locale::Ru => "✅ Список банов пуст.",
        }
    }

    /// The localized `active_bans_header` text; see [`active_bans_header_text`].
    pub fn active_bans_header(l: Locale) -> (r: &'static str)
        ensures
            r@ == active_bans_header_text(l),
    {
        match l {
            Locale::En => "🚫 Active bans:\n\n",
            Locale::Ru => "🚫 Активные блокировки:\n\n",
        }
    }

    /// The localized `ban_record_entry` text; see [`ban_record_entry_text`].
    pub fn ban_record_entry(l: Locale, i: usize, ban_id: &str, reason: &str, date: &str) -> (r: String)
        ensures
            r@ == ban_record_entry_text(l, i as nat, ban_id@, reason@, date@),
    {
        match l {
            Locale::En => {
                let mut s = String::new();
                let n = usize_to_decimal(i);
                s.append(n.as_str());
                s.append(". ");
                s.append(ban_id);
                s.append("\n   Reason: ");
                s.append(reason);
                s.append("\n   Date: ");
                s.append(date);
                s.append("\n");
                s
            },
            Locale::Ru => {
                let mut s = String::new();
                let n = usize_to_decimal(i);
                s.append(n.as_str());
                s.append(". ");
                s.append(ban_id);
                s.append("\n   Причина: ");
                s.append(reason);
                s.append("\n   Дата: ");
                s.append(date);
                s.append("\n");
                s
            },
        }
    }

    /// The localized `pardon_usage` text; see [`pardon_usage_text`].
    pub fn pardon_usage(l: Locale) -> (r: &'static str)
        ensures
            r@ == pardon_usage_text(l),
    {
        match l {
            Locale::En => "📝 Usage: /pardon <BAN-ID>",
            Locale::Ru => "📝 Использование: /pardon <BAN-ID>",
        }
    }

    /// The localized `ban_not_found` text; see [`ban_not_found_text`].
    pub fn ban_not_found(l: Locale) -> (r: &'static str)
        ensures
            r@ == ban_not_found_text(l),
    {
        match l {
            Locale::En => "❌ Ban not found or already pardoned.",
            Locale::Ru => "❌ Бан не найден или уже снят.",
        }
    }

    /// The localized `access_restored` text; see [`access_restored_text`].
    pub fn access_restored(l: Locale) -> (r: &'static str)
        ensures
            r@ == access_restored_text(l),
    {
        match l {
            Locale::En => "✅ Your access has been restored.",
            Locale::Ru => "✅ Ваш доступ восстановлен.",
        }
    }

    /// The localized `ban_deactivated` text; see [`ban_deactivated_text`].
    pub fn ban_deactivated(l: Locale, ban_id: &str) -> (r: String)
        ensures
            r@ == ban_deactivated_text(l, ban_id@),
    {
        match l {
            Locale::En => {
                let mut s = String::from_str("✅ Ban ");
                s.append(ban_id);
                s.append(" deactivated.");
                s
            },
            Locale::Ru => {
                let mut s = String::from_str("✅ Бан ");
                s.append(ban_id);
                s.append(" деактивирован.");
                s
            },
        }
    }

    /// The localized `no_new_proposals` text; see [`no_new_proposals_text`].
    pub fn no_new_proposals(l: Locale) -> (r: &'static str)
        ensures
            r@ == no_new_proposals_text(l),
    {
        match l {
            Locale::En => "✅ No new proposals.",
            Locale::Ru => "✅ Нет новых предложений.",
        }
    }

    /// The localized `proposal_items_count` text; see [`proposal_items_count_text`].
    pub fn proposal_items_count(l: Locale, count: usize) -> (r: String)
        ensures
            r@ == proposal_items_count_text(l, count as nat),
    {
        match l {
            Locale::En => {
                let mut s = String::from_str("📨 Proposal (");
                let n = usize_to_decimal(count);
                s.append(n.as_str());
                s.append(" item(s)):");
                s
            },
            Locale::Ru => {
                let mut s = String::from_str("📨 Предложение (");
                let n = usize_to_decimal(count);
                s.append(n.as_str());
                s.append(" элем.):");
                s
            },
        }
    }

    /// The localized `failed_display_media` text; see [`failed_display_media_text`].
    pub fn failed_display_media(l: Locale, e: &str) -> (r: String)
        ensures
            r@ == failed_display_media_text(l, e@),
    {
        match l {
            Locale::En => {
                let mut s = String::from_str("❌ Failed to display media: ");
                s.append(e);
                s
            },
            Locale::Ru => {
                let mut s = String::from_str("❌ Ошибка отображения медиа: ");
                s.append(e);
                s
            },
        }
    }

    /// The localized `proposal_action_header` text; see [`proposal_action_header_text`].
    pub fn proposal_action_header(l: Locale, id: i64, date: &str) -> (r: String)
        ensures
            r@ == proposal_action_header_text(l, id as int, date@),
    {
        match l {
            Locale::En => {
                let mut s = String::from_str("📨 Proposal #");
                let n = i64_to_decimal(id);
                s.append(n.as_str());
                s.append("\n⏰ ");
                s.append(date);
                s.append("\n\nChoose action:");
                s
            },
            Locale::Ru => {
                let mut s = String::from_str("📨 Предложение #");
                let n = i64_to_decimal(id);
                s.append(n.as_str());
                s.append("\n⏰ ");
                s.append(date);
                s.append("\n\nВыберите действие:");
                s
            },
        }
    }

    /// The localized `approve_btn` text; see [`approve_btn_text`].
    pub fn approve_btn(l: Locale) -> (r: &'static str)
        ensures
            r@ == approve_btn_text(l),
    {
        match l {
            Locale::En => "✅ APPROVE",
            Locale::Ru => "✅ ОДОБРИТЬ",
        }
    }

    /// The localized `reject_btn` text; see [`reject_btn_text`].
    pub fn reject_btn(l: Locale) -> (r: &'static str)
        ensures
            r@ == reject_btn_text(l),
    {
        match l {
            Locale::En => "❌ REJECT",
            Locale::Ru => "❌ ОТКЛОНИТЬ",
        }
    }

    /// The localized `published` text; see [`published_text`].
    pub fn published(l: Locale) -> (r: &'static str)
        ensures
            r@ == published_text(l),
    {
        match l {
            Locale::En => "✅ Published!",
            Locale::Ru => "✅ Опубликовано!",
        }
    }

    /// The localized `published_no_id` text; see [`published_no_id_text`].
    pub fn published_no_id(l: Locale) -> (r: &'static str)
        ensures
            r@ == published_no_id_text(l),
    {
        match l {
            Locale::En => "❌ Published but failed to retrieve message ID",
            Locale::Ru => "❌ Опубликовано, но не удалось получить ID сообщения",
        }
    }

    /// The localized `failed_publish` text; see [`failed_publish_text`].
    pub fn failed_publish(l: Locale) -> (r: &'static str)
        ensures
            r@ == failed_publish_text(l),
    {
        match l {
            Locale::En => "❌ Failed to publish",
            Locale::Ru => "❌ Ошибка публикации",
        }
    }

    /// The localized `rejected` text; see [`rejected_text`].
    pub fn rejected(l: Locale) -> (r: &'static str)
        ensures
            r@ == rejected_text(l),
    {
        match l {
            Locale::En => "✅ Rejected!",
            Locale::Ru => "✅ Отклонено!",
        }
    }

    /// The localized `reason_btn` text; see [`reason_btn_text`].
    pub fn reason_btn(l: Locale) -> (r: &'static str)
        ensures
            r@ == reason_btn_text(l),
    {
        match l {
            Locale::En => "Reason",
            Locale::Ru => "Причина",
        }
    }

    /// The localized `next_btn` text; see [`next_btn_text`].
    pub fn next_btn(l: Locale) -> (r: &'static str)
        ensures
            r@ == next_btn_text(l),
    {
        match l {
            Locale::En => "Next",
            Locale::Ru => "Далее",
        }
    }

    /// The localized `ban_btn` text; see [`ban_btn_text`].
    pub fn ban_btn(l: Locale) -> (r: &'static str)
        ensures
            r@ == ban_btn_text(l),
    {
        match l {
            Locale::En => "Ban",
            Locale::Ru => "Бан",
        }
    }

    /// The localized `choose_action` text; see [`choose_action_text`].
    pub fn choose_action(l: Locale) -> (r: &'static str)
        ensures
            r@ == choose_action_text(l),
    {
        match l {
            Locale::En => "Choose action:",
            Locale::Ru => "Выберите действие:",
        }
    }

    /// The localized `enter_rejection_reason` text; see [`enter_rejection_reason_text`].
    pub fn enter_rejection_reason(l: Locale) -> (r: &'static str)
        ensures
            r@ == enter_rejection_reason_text(l),
    {
        match l {
            Locale::En => "Enter rejection reason:",
            Locale::Ru => "Введите причину отказа:",
        }
    }

    /// The localized `enter_reason_callback` text; see [`enter_reason_callback_text`].
    pub fn enter_reason_callback(l: Locale) -> (r: &'static str)
        ensures
            r@ == enter_reason_callback_text(l),
    {
        match l {
            Locale::En => "✅ Enter reason",
            Locale::Ru => "✅ Введите причину",
        }
    }

    /// The localized `enter_ban_reason` text; see [`enter_ban_reason_text`].
    pub fn enter_ban_reason(l: Locale) -> (r: &'static str)
        ensures
            r@ == enter_ban_reason_text(l),
    {
        match l {
            Locale::En => "Enter ban reason:",
            Locale::Ru => "Введите причину блокировки:",
        }
    }

    /// The localized `send_reply_to_post` text; see [`send_reply_to_post_text`].
    pub fn send_reply_to_post(l: Locale) -> (r: &'static str)
        ensures
            r@ == send_reply_to_post_text(l),
    {
        match l {
            Locale::En => "✍️ Send your reply to the post.",
            Locale::Ru => "✍️ Отправьте ваш ответ на пост.",
        }
    }

    /// The localized `invalid_reply_link` text; see [`invalid_reply_link_text`].
    pub fn invalid_reply_link(l: Locale) -> (r: &'static str)
        ensures
            r@ == invalid_reply_link_text(l),
    {
        match l {
            Locale::En => "❌ Invalid reply link.",
            Locale::Ru => "❌ Неверная ссылка для ответа.",
        }
    }

    /// The localized `user_banned` text; see [`user_banned_text`].
    pub fn user_banned(l: Locale) -> (r: &'static str)
        ensures
            r@ == user_banned_text(l),
    {
        match l {
            Locale::En => "🚫 You are banned.",
            Locale::Ru => "🚫 Вы заблокированы.",
        }
    }

    /// The localized `owner_panel` text; see [`owner_panel_text`].
    pub fn owner_panel(l: Locale) -> (r: &'static str)
        ensures
            r@ == owner_panel_text(l),
    {
        match l {
            Locale::En => "👑 Owner Panel\n\nCommands:\n/addadmin <ID>\n/removeadmin <ID>\n/admins\n/banned\n/proposals\n/pardon <BAN-ID>\n/lang <en|ru>",
            Locale::Ru => "👑 Панель владельца\n\nКоманды:\n/addadmin <ID>\n/removeadmin <ID>\n/admins\n/banned\n/proposals\n/pardon <BAN-ID>\n/lang <en|ru>",
        }
    }

    /// The localized `mod_panel` text; see [`mod_panel_text`].
    pub fn mod_panel(l: Locale) -> (r: &'static str)
        ensures
            r@ == mod_panel_text(l),
    {
        match l {
            Locale::En => "🛠️ Moderator Panel\n\nCommands:\n/proposals",
            Locale::Ru => "🛠️ Панель модератора\n\nКоманды:\n/proposals",
        }
    }

    /// The localized `reply_usage` text; see [`reply_usage_text`].
    pub fn reply_usage(l: Locale) -> (r: &'static str)
        ensures
            r@ == reply_usage_text(l),
    {
        match l {
            Locale::En => "📝 Usage: /reply <post_ID>",
            Locale::Ru => "📝 Использование: /reply <ID_поста>",
        }
    }

    /// The localized `post_not_found` text; see [`post_not_found_text`].
    pub fn post_not_found(l: Locale) -> (r: &'static str)
        ensures
            r@ == post_not_found_text(l),
    {
        match l {
            Locale::En => "❌ Post not found.",
            Locale::Ru => "❌ Пост не найден.",
        }
    }

    /// The localized `proposal_accepted` text; see [`proposal_accepted_text`].
    pub fn proposal_accepted(l: Locale) -> (r: &'static str)
        ensures
            r@ == proposal_accepted_text(l),
    {
        match l {
            Locale::En => "✅ Your proposal has been accepted! It will be reviewed by moderators anonymously.",
            Locale::Ru => "✅ Ваше предложение принято! Оно будет рассмотрено модераторами анонимно.",
        }
    }

    /// The localized `reply_accepted` text; see [`reply_accepted_text`].
    pub fn reply_accepted(l: Locale) -> (r: &'static str)
        ensures
            r@ == reply_accepted_text(l),
    {
        match l {
            Locale::En => "✅ Your reply has been accepted!",
            Locale::Ru => "✅ Ваш ответ принят!",
        }
    }

    /// The localized `error_sending_reply` text; see [`error_sending_reply_text`].
    pub fn error_sending_reply(l: Locale) -> (r: &'static str)
        ensures
            r@ == error_sending_reply_text(l),
    {
        match l {
            Locale::En => "❌ Error sending reply.",
            Locale::Ru => "❌ Ошибка при отправке ответа.",
        }
    }

    /// The localized `rejected_reason` text; see [`rejected_reason_text`].
    pub fn rejected_reason(l: Locale, reason: &str) -> (r: String)
        ensures
            r@ == rejected_reason_text(l, reason@),
    {
        match l {
            Locale::En => {
                let mut s = String::from_str("Your message was rejected. Reason: ");
                s.append(reason);
                s
            },
            Locale::Ru => {
                let mut s = String::from_str("Ваше сообщение отклонено по причине: ");
                s.append(reason);
                s
            },
        }
    }

    /// The localized `reason_sent` text; see [`reason_sent_text`].
    pub fn reason_sent(l: Locale) -> (r: &'static str)
        ensures
            r@ == reason_sent_text(l),
    {
        match l {
            Locale::En => "✅ Reason sent.",
            Locale::Ru => "✅ Причина отправлена.",
        }
    }

    /// The localized `user_banned_appeal` text; see [`user_banned_appeal_text`].
    pub fn user_banned_appeal(l: Locale, ban_id: &str) -> (r: String)
        ensures
            r@ == user_banned_appeal_text(l, ban_id@),
    {
        match l {
            Locale::En => {
                let mut s = String::from_str("🚫 You are banned. Appeal code: ");
                s.append(ban_id);
                s
            },
            Locale::Ru => {
                let mut s = String::from_str("🚫 Вы заблокированы. Код обращения: ");
                s.append(ban_id);
                s
            },
        }
    }

    /// The localized `user_banned_success` text; see [`user_banned_success_text`].
    pub fn user_banned_success(l: Locale) -> (r: &'static str)
        ensures
            r@ == user_banned_success_text(l),
    {
        match l {
            Locale::En => "✅ User banned.",
            Locale::Ru => "✅ Пользователь заблокирован.",
        }
    }

    /// The localized `error_banning_user` text; see [`error_banning_user_text`].
    pub fn error_banning_user(l: Locale) -> (r: &'static str)
        ensures
            r@ == error_banning_user_text(l),
    {
        match l {
            Locale::En => "❌ Error banning user.",
            Locale::Ru => "❌ Ошибка при блокировке.",
        }
    }

    /// The localized `new_proposal_notif` text; see [`new_proposal_notif_text`].
    pub fn new_proposal_notif(l: Locale, id: &str, text: &str, media_type: &str) -> (r: String)
        ensures
            r@ == new_proposal_notif_text(l, id@, text@, media_type@),
    {
        match l {
            Locale::En => {
                let mut s = String::from_str("📨 New proposal!\n\nID: ");
                s.append(id);
                s.append("\n💬 ");
                s.append(text);
                s.append("\n📁 Type: ");
                s.append(media_type);
                s.append("\n\n/proposals");
                s
            },
            Locale::Ru => {
                let mut s = String::from_str("📨 Новое предложение!\n\nID: ");
                s.append(id);
                s.append("\n💬 ");
                s.append(text);
                s.append("\n📁 Тип: ");
                s.append(media_type);
                s.append("\n\n/proposals");
                s
            },
        }
    }

    /// The localized `text_proposal` text; see [`text_proposal_text`].
    pub fn text_proposal(l: Locale, caption: &str) -> (r: String)
        ensures
            r@ == text_proposal_text(l, caption@),
    {
        match l {
            Locale::En => {
                let mut s = String::from_str("💬 Text proposal:\n");
                s.append(caption);
                s
            },
            Locale::Ru => {
                let mut s = String::from_str("💬 Текст предложения:\n");
                s.append(caption);
                s
            },
        }
    }

    /// The localized `media_proposal_text` text; see [`media_proposal_text_text`].
    pub fn media_proposal_text(l: Locale, media_type: &str, caption: &str) -> (r: String)
        ensures
            r@ == media_proposal_text_text(l, media_type@, caption@),
    {
        match l {
            Locale::En => {
                let mut s = String::from_str("💬 ");
                s.append(media_type);
                s.append("\n");
                s.append(caption);
                s
            },
            Locale::Ru => {
                let mut s = String::from_str("💬 ");
                s.append(media_type);
                s.append("\n");
                s.append(caption);
                s
            },
        }
    }

    /// The localized `photo_text` text; see [`photo_text_text`].
    pub fn photo_text(l: Locale) -> (r: &'static str)
        ensures
            r@ == photo_text_text(l),
    {
        match l {
            Locale::En => "🖼️ Photo",
            Locale::Ru => "🖼️ Фото",
        }
    }

    /// The localized `document_text` text; see [`document_text_text`].
    pub fn document_text(l: Locale, name: &str) -> (r: String)
        ensures
            r@ == document_text_text(l, name@),
    {
        match l {
            Locale::En => {
                let mut s = String::from_str("📄 Document: ");
                s.append(name);
                s
            },
            Locale::Ru => {
                let mut s = String::from_str("📄 Документ: ");
                s.append(name);
                s
            },
        }
    }

    /// The localized `video_text` text; see [`video_text_text`].
    pub fn video_text(l: Locale) -> (r: &'static str)
        ensures
            r@ == video_text_text(l),
    {
        match l {
            Locale::En => "🎥 Video",
            Locale::Ru => "🎥 Видео",
        }
    }

    /// The localized `video_note_text` text; see [`video_note_text_text`].
    pub fn video_note_text(l: Locale) -> (r: &'static str)
        ensures
            r@ == video_note_text_text(l),
    {
        match l {
            Locale::En => "📹 Video note",
            Locale::Ru => "📹 Кружочек (видеосообщение)",
        }
    }

    /// The localized `audio_text` text; see [`audio_text_text`].
    pub fn audio_text(l: Locale, title: &str) -> (r: String)
        ensures
            r@ == audio_text_text(l, title@),
    {
        match l {
            Locale::En => {
                let mut s = String::from_str("🎵 ");
                s.append(title);
                s
            },
            Locale::Ru => {
                let mut s = String::from_str("🎵 ");
                s.append(title);
                s
            },
        }
    }

    /// The localized `voice_text` text; see [`voice_text_text`].
    pub fn voice_text(l: Locale) -> (r: &'static str)
        ensures
            r@ == voice_text_text(l),
    {
        match l {
            Locale::En => "🎤 Voice message",
            Locale::Ru => "🎤 Голосовое сообщение",
        }
    }

    /// The localized `sticker_text` text; see [`sticker_text_text`].
    pub fn sticker_text(l: Locale) -> (r: &'static str)
        ensures
            r@ == sticker_text_text(l),
    {
        match l {
            Locale::En => "😊 Sticker",
            Locale::Ru => "😊 Стикер",
        }
    }

    /// The localized `media_content_text` text; see [`media_content_text_text`].
    pub fn media_content_text(l: Locale) -> (r: &'static str)
        ensures
            r@ == media_content_text_text(l),
    {
        match l {
            Locale::En => "📦 Media content",
            Locale::Ru => "📦 Медиа-контент",
        }
    }

    /// The localized `reply_quote` text; see [`reply_quote_text`].
    pub fn reply_quote(l: Locale, quoted: &str) -> (r: String)
        ensures
            r@ == reply_quote_text(l, quoted@),
    {
        match l {
            Locale::En => {
                let mut s = String::from_str("💬 Reply:\n\n");
                s.append(quoted);
                s
            },
            Locale::Ru => {
                let mut s = String::from_str("💬 Ответ:\n\n");
                s.append(quoted);
                s
            },
        }
    }

    /// The localized `lang_usage` text; see [`lang_usage_text`].
    pub fn lang_usage(l: Locale) -> (r: &'static str)
        ensures
            r@ == lang_usage_text(l),
    {
        match l {
            Locale::En => "📝 Usage: /lang <en|ru>",
            Locale::Ru => "📝 Использование: /lang <en|ru>",
        }
    }

    /// The localized `lang_invalid` text; see [`lang_invalid_text`].
    pub fn lang_invalid(l: Locale) -> (r: &'static str)
        ensures
            r@ == lang_invalid_text(l),
    {
        match l {
            Locale::En => "❌ Invalid language. Use 'en' or 'ru'.",
            Locale::Ru => "❌ Неверный язык. Используйте 'en' или 'ru'.",
        }
    }

    /// The localized `lang_updated` text; see [`lang_updated_text`].
    pub fn lang_updated(l: Locale) -> (r: &'static str)
        ensures
            r@ == lang_updated_text(l),
    {
        match l {
            Locale::En => "✅ Language updated to English.",
            Locale::Ru => "✅ Язык изменен на Русский.",
        }
    }
}

} // verus!
