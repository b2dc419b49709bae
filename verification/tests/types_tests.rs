use telegram_cjk_search_bot::normalize::{normalize_live, ChatInfo, LiveMessage, Sender};
use telegram_cjk_search_bot::types::{make_key, Chat, Message, DATE_MAX, DATE_MIN};

const BOT_ID: u64 = 4242;

fn chat(id: i64, title: &str) -> ChatInfo {
    ChatInfo { id, title: Some(title.to_string()), is_supergroup: true }
}

fn user(first: &str, last: Option<&str>, is_bot: bool) -> Sender {
    Sender {
        id: 1,
        is_bot,
        first_name: first.to_string(),
        last_name: last.map(|l| l.to_string()),
    }
}

fn text_message(id: i32, date: i64, first: &str, text: &str) -> LiveMessage {
    LiveMessage {
        id,
        date,
        chat: chat(-1001, "test"),
        from: Some(user(first, Some("Bar"), false)),
        sender_chat: None,
        via_bot: None,
        text: Some(text.to_string()),
        caption: None,
    }
}

fn photo_message() -> LiveMessage {
    LiveMessage {
        id: 3,
        date: 1689731481,
        chat: chat(-1001, "test"),
        from: Some(user("Foo", Some("Bar"), false)),
        sender_chat: None,
        via_bot: None,
        text: None,
        caption: Some("112".to_string()),
    }
}

fn stored(chat_id: i64, id: i32, date: i64) -> Message {
    Message {
        key: make_key(chat_id, id),
        text: "t".to_string(),
        from: "f".to_string(),
        id,
        chat_id,
        date,
    }
}

#[test]
fn message_date_format_test() {
    let msg = normalize_live(&text_message(2, 1689699600, "Fop", "2"), BOT_ID).unwrap();
    // Asia/Shanghai is eight hours east of UTC.
    assert_eq!(msg.format_time(8 * 3600), "2023-07-19");
}

#[test]
fn message_channel_anonymous_test() {
    let raw = LiveMessage {
        id: 139417,
        date: 1689781753,
        chat: chat(-1002, "test2"),
        from: Some(user("Group", None, true)),
        sender_chat: Some(chat(-1002, "test2")),
        via_bot: None,
        text: Some("test".to_string()),
        caption: None,
    };
    let msg = normalize_live(&raw, BOT_ID).unwrap();
    assert_eq!(msg.from, "test2");
}

#[test]
fn message_user_test() {
    let msg = normalize_live(&text_message(2, 1689731458, "Foo", "2"), BOT_ID).unwrap();
    assert_eq!(msg.from, "Foo Bar@test");
}

#[test]
fn message_text_form_text_test() {
    let msg = normalize_live(&text_message(2, 1689731458, "Foo", "2"), BOT_ID).unwrap();
    assert_eq!(msg.text, "2");
}

#[test]
fn message_text_from_caption_test() {
    let msg = normalize_live(&photo_message(), BOT_ID).unwrap();
    assert_eq!(msg.text, "112")
}

#[test]
fn message_link_test() {
    let msg = normalize_live(&photo_message(), BOT_ID).unwrap();
    assert_eq!(msg.link(), "https://t.me/c/1/3")
}

#[test]
fn live_message_fields_carry_over() {
    let msg = normalize_live(&photo_message(), BOT_ID).unwrap();
    assert_eq!(msg.key, "-1001_3");
    assert_eq!(msg.id, 3);
    assert_eq!(msg.chat_id, -1001);
    assert_eq!(msg.date, 1689731481);
}

#[test]
fn key_joins_chat_and_number() {
    assert_eq!(make_key(-1001234567890, 42), "-1001234567890_42");
    assert_eq!(make_key(0, 0), "0_0");
    assert_eq!(make_key(5, -7), "5_-7");
    assert_eq!(make_key(i64::MIN, i32::MIN), "-9223372036854775808_-2147483648");
    assert_eq!(make_key(i64::MAX, i32::MAX), "9223372036854775807_2147483647");
}

#[test]
fn keys_of_distinct_messages_differ() {
    assert_ne!(make_key(-1001, 23), make_key(-10012, 3));
    assert_ne!(make_key(1, 11), make_key(11, 1));
}

#[test]
fn link_cuts_four_characters() {
    assert_eq!(stored(-1001234567890, 77, 0).link(), "https://t.me/c/1234567890/77");
    // The cut is made whatever the four characters are.
    assert_eq!(stored(12345, 6, 0).link(), "https://t.me/c/5/6");
    assert_eq!(stored(-100, 6, 0).link(), "https://t.me/c//6");
    assert_eq!(stored(1000, -1, 0).link(), "https://t.me/c//-1");
}

#[test]
fn link_needs_four_characters() {
    assert!(stored(-1001, 1, 0).has_link());
    assert!(stored(-100, 1, 0).has_link());
    assert!(stored(1000, 1, 0).has_link());
    assert!(!stored(-99, 1, 0).has_link());
    assert!(!stored(999, 1, 0).has_link());
    assert!(!stored(0, 1, 0).has_link());
}

#[test]
fn format_time_follows_the_offset() {
    let msg = stored(-1001, 1, 1689699600);
    assert_eq!(msg.format_time(0), "2023-07-18");
    assert_eq!(msg.format_time(7 * 3600 - 1), "2023-07-18");
    assert_eq!(msg.format_time(7 * 3600), "2023-07-19");
    assert_eq!(msg.format_time(-86_399), "2023-07-17");
    assert_eq!(stored(-1001, 1, 0).format_time(0), "1970-01-01");
    assert_eq!(stored(-1001, 1, -1).format_time(0), "1969-12-31");
}

#[test]
fn format_time_covers_the_calendar() {
    assert!(stored(-1001, 1, DATE_MIN).has_date());
    assert!(stored(-1001, 1, DATE_MAX).has_date());
    assert!(!stored(-1001, 1, DATE_MIN - 1).has_date());
    assert!(!stored(-1001, 1, DATE_MAX + 1).has_date());
    assert_eq!(stored(-1001, 1, DATE_MIN).format_time(0), "-262143-01-01");
    assert_eq!(stored(-1001, 1, DATE_MAX).format_time(0), "+262142-12-31");
    assert_eq!(stored(-1001, 1, DATE_MAX).format_time(86_399), "+262143-01-01");
    assert_eq!(stored(-1001, 1, DATE_MIN).format_time(-86_399), "-262144-12-31");
    // The limits are those of the calendar itself.
    assert!(chrono::DateTime::from_timestamp(DATE_MIN, 0).is_some());
    assert!(chrono::DateTime::from_timestamp(DATE_MAX, 0).is_some());
    assert!(chrono::DateTime::from_timestamp(DATE_MIN - 1, 0).is_none());
    assert!(chrono::DateTime::from_timestamp(DATE_MAX + 1, 0).is_none());
}

#[test]
fn chat_from_identifier() {
    assert_eq!(Chat::from(-1001), Chat { id: -1001 });
    assert_ne!(Chat::from(-1001), Chat::from(-1002));
}
