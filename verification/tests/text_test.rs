use posterbot::bot::media::escape_html;
use posterbot::config::{Config, ConfigError};
use posterbot::locales::{L10n, Locale};
use posterbot::text::{i64_to_decimal, str_parse_i64, str_split_first_ws, str_strip_prefix, str_trim, usize_to_decimal};
use posterbot::uid::{format_ban_code, format_uuid, generate_ban_id};

#[test]
fn test_locale_parse_ignores_ascii_case() {
    assert_eq!(Locale::parse("en"), Some(Locale::En));
    assert_eq!(Locale::parse("EN"), Some(Locale::En));
    assert_eq!(Locale::parse("Ru"), Some(Locale::Ru));
    assert_eq!(Locale::parse("de"), None);
    assert_eq!(Locale::parse(" en"), None);
    assert_eq!(Locale::parse(""), None);
}

#[test]
fn test_locale_code_roundtrip() {
    for l in [Locale::En, Locale::Ru] {
        assert_eq!(Locale::parse(l.as_str()), Some(l));
    }
    assert_eq!(Locale::En.as_str(), "en");
    assert_eq!(Locale::Ru.as_str(), "ru");
}

#[test]
fn test_formatted_texts() {
    assert_eq!(L10n::admin_already_exists(Locale::En, 42), "❌ User 42 is already an admin.");
    assert_eq!(L10n::admin_removed(Locale::Ru, -7), "✅ Администратор -7 удалён.");
    assert_eq!(L10n::admins_list_header(Locale::En, 1), "📋 Moderators:\n\n👑 Owner: ID 1\n");
    assert_eq!(
        L10n::ban_record_entry(Locale::En, 3, "BAN-ABC123", "Spam", "01.02.2024 10:00"),
        "3. BAN-ABC123\n   Reason: Spam\n   Date: 01.02.2024 10:00\n"
    );
    assert_eq!(L10n::proposal_items_count(Locale::En, 2), "📨 Proposal (2 item(s)):");
    assert_eq!(
        L10n::new_proposal_notif(Locale::En, "g", "hi", "text"),
        "📨 New proposal!\n\nID: g\n💬 hi\n📁 Type: text\n\n/proposals"
    );
    assert_eq!(L10n::reply_quote(Locale::Ru, "q"), "💬 Ответ:\n\nq");
    assert_eq!(L10n::welcome(Locale::En).lines().next(), Some("🤖 Welcome to the anonymous proposal bot!"));
    assert_eq!(L10n::lang_updated(Locale::Ru), "✅ Язык изменен на Русский.");
}

#[test]
fn test_decimal_rendering() {
    assert_eq!(i64_to_decimal(0), "0");
    assert_eq!(i64_to_decimal(-1001234567890), "-1001234567890");
    assert_eq!(i64_to_decimal(i64::MIN), "-9223372036854775808");
    assert_eq!(i64_to_decimal(i64::MAX), "9223372036854775807");
    assert_eq!(usize_to_decimal(10), "10");
}

#[test]
fn test_parse_i64_like_std() {
    for s in ["0", "123", "-5", "+7", "", "+", "-", "12a", " 1", "9223372036854775807", "9223372036854775808", "-9223372036854775808", "-9223372036854775809", "007", "1_000"] {
        assert_eq!(str_parse_i64(s), s.parse::<i64>().ok(), "input {:?}", s);
    }
}

#[test]
fn test_trim_like_std() {
    for s in ["  x y \t", "\u{a0}hello\u{3000}", "", "   ", "a", "\n\r\u{85}z\u{2028}"] {
        assert_eq!(str_trim(s), s.trim(), "input {:?}", s);
    }
}

#[test]
fn test_split_and_prefix() {
    assert_eq!(str_split_first_ws("/start  reply_5"), ("/start", Some(" reply_5")));
    assert_eq!(str_split_first_ws("/admins"), ("/admins", None));
    assert_eq!(str_strip_prefix("reply_12", "reply_"), Some("12"));
    assert_eq!(str_strip_prefix("repl", "reply_"), None);
}

#[test]
fn test_escape_html() {
    assert_eq!(escape_html("a < b && c > \"d\""), "a &lt; b &amp;&amp; c &gt; &quot;d&quot;");
    assert_eq!(escape_html("Привет 'x'"), "Привет 'x'");
    assert_eq!(escape_html(""), "");
}

#[test]
fn test_uuid_text_forms() {
    let b: [u8; 16] = [0x00, 0x01, 0x02, 0x03, 0x04, 0x05, 0x46, 0x07, 0x88, 0x09, 0x0a, 0x0b, 0xfc, 0x0d, 0xde, 0xff];
    assert_eq!(format_uuid(&b), "00010203-0405-4607-8809-0a0bfc0ddeff");
    assert_eq!(format_ban_code(&[0xab, 0xcd, 0xef, 0, 0, 0, 0x40, 0, 0x80, 0, 0, 0, 0, 0, 0, 0]), "BAN-ABCDEF");
}

#[test]
fn test_generated_ban_ids_have_the_appeal_shape() {
    let a = generate_ban_id();
    let b = generate_ban_id();
    for id in [&a, &b] {
        assert_eq!(id.len(), 10);
        assert!(id.starts_with("BAN-"));
        assert!(id[4..].chars().all(|c| c.is_ascii_digit() || ('A'..='F').contains(&c)));
    }
}

#[test]
fn test_config_from_values() {
    let s = |v: &str| Some(v.to_string());
    let c = Config::from_values(s("tok"), s("123"), None, s("-1001"), s("botname"), None).unwrap();
    assert_eq!(c.bot_token, "tok");
    assert_eq!(c.owner_id, 123);
    assert_eq!(c.owner_name, "Owner");
    assert_eq!(c.channel_id, -1001);
    assert_eq!(c.bot_username, "botname");
    assert_eq!(c.db_path, "data/bot.db");
    let c = Config::from_values(s("tok"), s("1"), s("Ann"), s("2"), s("b"), s("x.db")).unwrap();
    assert_eq!(c.owner_name, "Ann");
    assert_eq!(c.db_path, "x.db");
    assert_eq!(Config::from_values(None, s("1"), None, s("2"), s("b"), None).unwrap_err(), ConfigError::TokenMissing);
    assert_eq!(Config::from_values(s("t"), None, None, s("2"), s("b"), None).unwrap_err(), ConfigError::OwnerIdMissing);
    assert_eq!(Config::from_values(s("t"), s("x"), None, s("2"), s("b"), None).unwrap_err(), ConfigError::OwnerIdNotNumber);
    assert_eq!(Config::from_values(s("t"), s("1"), None, None, s("b"), None).unwrap_err(), ConfigError::ChannelIdMissing);
    assert_eq!(Config::from_values(s("t"), s("1"), None, s(" 2"), s("b"), None).unwrap_err(), ConfigError::ChannelIdNotNumber);
    assert_eq!(Config::from_values(s("t"), s("1"), None, s("2"), None, None).unwrap_err(), ConfigError::BotUsernameMissing);
    assert_eq!(ConfigError::OwnerIdNotNumber.describe(), "OWNER_ID must be a number");
}
