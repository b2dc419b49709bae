use telegram_cjk_search_bot::auth::AuthCache;
use telegram_cjk_search_bot::handlers::{
    command_handler, inline_handler, message_handler, normal_message_handler, Command,
    CommandAction, CommandEvent, InlineAction, InlineEvent,
};
use telegram_cjk_search_bot::membership::Membership;
use telegram_cjk_search_bot::normalize::{ChatInfo, LiveMessage, Sender};
use telegram_cjk_search_bot::registry::EnabledChatSet;
use telegram_cjk_search_bot::search::Hit;
use telegram_cjk_search_bot::types::{make_key, Chat, Message};

const BOT_ID: u64 = 4242;
const ROOM: Chat = Chat { id: -1001 };

fn live(text: Option<&str>, caption: Option<&str>) -> LiveMessage {
    LiveMessage {
        id: 5,
        date: 1_700_000_000,
        chat: ChatInfo { id: ROOM.id, title: Some("room".to_string()), is_supergroup: true },
        from: Some(Sender {
            id: 9,
            is_bot: false,
            first_name: "Ann".to_string(),
            last_name: None,
        }),
        sender_chat: None,
        via_bot: None,
        text: text.map(|t| t.to_string()),
        caption: caption.map(|c| c.to_string()),
    }
}

fn hit(chat_id: i64, id: i32) -> Hit {
    Hit {
        message: Message {
            key: make_key(chat_id, id),
            text: "text".to_string(),
            from: "Ann@room".to_string(),
            id,
            chat_id,
            date: 0,
        },
        formatted_text: "text".to_string(),
    }
}

#[test]
fn help_is_answered_at_once() {
    for sender in [Some(9), None] {
        let event = CommandEvent::Received { command: Command::Help, chat: ROOM, sender };
        assert_eq!(command_handler(event), CommandAction::SendHelp);
    }
}

#[test]
fn start_and_stop_ask_for_the_sender() {
    for command in [Command::Start, Command::Stop] {
        let event = CommandEvent::Received { command, chat: ROOM, sender: Some(9) };
        assert_eq!(command_handler(event), CommandAction::CheckMembership { chat: ROOM, user: 9 });
        let event = CommandEvent::Received { command, chat: ROOM, sender: None };
        assert_eq!(command_handler(event), CommandAction::Nothing);
    }
}

#[test]
fn only_privileged_senders_change_the_registry() {
    let answered = |command, membership| {
        command_handler(CommandEvent::Answered { command, chat: ROOM, membership })
    };
    assert_eq!(
        answered(Command::Start, Membership::Privileged),
        CommandAction::EnableChat { chat: ROOM }
    );
    assert_eq!(
        answered(Command::Stop, Membership::Privileged),
        CommandAction::DisableChat { chat: ROOM }
    );
    assert_eq!(answered(Command::Help, Membership::Privileged), CommandAction::Nothing);
    for membership in [Membership::Present, Membership::Absent, Membership::Error] {
        assert_eq!(answered(Command::Start, membership), CommandAction::Nothing);
        assert_eq!(answered(Command::Stop, membership), CommandAction::Nothing);
    }
}

#[test]
fn ordinary_messages_are_stored() {
    assert!(message_handler(&live(Some("hello"), None), BOT_ID, false));
    assert!(message_handler(&live(None, Some("photo")), BOT_ID, false));
    // A caption is never read as a command.
    assert!(message_handler(&live(None, Some("/start")), BOT_ID, true));
}

#[test]
fn messages_that_are_not_stored() {
    assert!(!message_handler(&live(Some("/start"), None), BOT_ID, true));
    assert!(!message_handler(&live(None, None), BOT_ID, false));
    let mut msg = live(Some("hello"), None);
    msg.chat.is_supergroup = false;
    assert!(!message_handler(&msg, BOT_ID, false));
    let mut msg = live(Some("hello"), None);
    msg.via_bot = Some(BOT_ID);
    assert!(!message_handler(&msg, BOT_ID, false));
    let mut msg = live(Some("hello"), None);
    msg.via_bot = Some(BOT_ID + 1);
    assert!(message_handler(&msg, BOT_ID, false));
    let mut msg = live(Some("hello"), None);
    msg.from.as_mut().unwrap().is_bot = true;
    assert!(!message_handler(&msg, BOT_ID, false));
    let mut msg = live(Some("hello"), None);
    msg.from = None;
    assert!(message_handler(&msg, BOT_ID, false));
}

#[test]
fn message_from_a_chat_that_is_not_enabled_writes_nothing() {
    let mut registry = EnabledChatSet::new();
    assert!(normal_message_handler(&live(Some("hello"), None), BOT_ID, &registry).is_none());
    registry.enable(Chat { id: -1002 });
    assert!(normal_message_handler(&live(Some("hello"), None), BOT_ID, &registry).is_none());
    registry.enable(ROOM);
    let written = normal_message_handler(&live(Some("hello"), None), BOT_ID, &registry).unwrap();
    assert_eq!(written.key, "-1001_5");
    assert_eq!(written.text, "hello");
    assert_eq!(written.from, "Ann@room");
    registry.disable(ROOM);
    assert!(normal_message_handler(&live(Some("hello"), None), BOT_ID, &registry).is_none());
}

#[test]
fn rejected_message_writes_nothing_even_where_enabled() {
    let mut registry = EnabledChatSet::new();
    registry.enable(ROOM);
    assert!(normal_message_handler(&live(Some(""), None), BOT_ID, &registry).is_none());
    assert!(normal_message_handler(&live(None, None), BOT_ID, &registry).is_none());
}

#[test]
fn first_query_leads_to_a_scan() {
    let mut cache = AuthCache::new();
    let action = inline_handler(&mut cache, InlineEvent::Query { user: 7, now: 1000 });
    assert!(matches!(action, InlineAction::Scan { user: 7 }));
}

#[test]
fn scan_is_stored_and_set_to_expire() {
    let mut cache = AuthCache::new();
    let scan = vec![(ROOM, Membership::Present), (Chat { id: -1002 }, Membership::Error)];
    let action = inline_handler(&mut cache, InlineEvent::Scanned { user: 7, now: 1000, scan });
    match action {
        InlineAction::Search { allowed, expire_after_secs } => {
            assert_eq!(allowed, vec![ROOM]);
            assert_eq!(expire_after_secs, Some(120));
        }
        other => panic!("unexpected action: {:?}", other),
    }
    assert_eq!(cache.lookup(7, 1001), Some(vec![ROOM]));
}

#[test]
fn repeated_query_is_answered_from_the_cache() {
    let mut cache = AuthCache::new();
    let scan = vec![(ROOM, Membership::Present)];
    inline_handler(&mut cache, InlineEvent::Scanned { user: 7, now: 1000, scan });
    match inline_handler(&mut cache, InlineEvent::Query { user: 7, now: 1119 }) {
        InlineAction::Search { allowed, expire_after_secs } => {
            assert_eq!(allowed, vec![ROOM]);
            assert_eq!(expire_after_secs, None);
        }
        other => panic!("unexpected action: {:?}", other),
    }
    let action = inline_handler(&mut cache, InlineEvent::Query { user: 7, now: 1120 });
    assert!(matches!(action, InlineAction::Scan { user: 7 }));
    let action = inline_handler(&mut cache, InlineEvent::Query { user: 8, now: 1001 });
    assert!(matches!(action, InlineAction::Scan { user: 8 }));
}

#[test]
fn expiry_event_drops_the_entry() {
    let mut cache = AuthCache::new();
    let scan = vec![(ROOM, Membership::Present)];
    inline_handler(&mut cache, InlineEvent::Scanned { user: 7, now: 1000, scan });
    let action = inline_handler(&mut cache, InlineEvent::Expired { user: 7 });
    assert!(matches!(action, InlineAction::Nothing));
    let action = inline_handler(&mut cache, InlineEvent::Query { user: 7, now: 1001 });
    assert!(matches!(action, InlineAction::Scan { user: 7 }));
    let action = inline_handler(&mut cache, InlineEvent::Expired { user: 7 });
    assert!(matches!(action, InlineAction::Nothing));
}

#[test]
fn found_hits_are_answered_within_the_allowed_chats() {
    let mut cache = AuthCache::new();
    let event = InlineEvent::Found {
        allowed: vec![ROOM],
        hits: vec![hit(-1001, 1), hit(-1002, 2), hit(-1001, 3)],
        utc_offset_secs: 0,
    };
    match inline_handler(&mut cache, event) {
        InlineAction::Answer { articles } => {
            let ids: Vec<&str> = articles.iter().map(|a| a.id.as_str()).collect();
            assert_eq!(ids, vec!["-1001_1", "-1001_3"]);
            assert_eq!(articles[0].description, "Ann@room@1970-01-01");
        }
        other => panic!("unexpected action: {:?}", other),
    }
    let event = InlineEvent::Found { allowed: vec![], hits: vec![hit(-1001, 1)], utc_offset_secs: 0 };
    match inline_handler(&mut cache, event) {
        InlineAction::Answer { articles } => assert!(articles.is_empty()),
        other => panic!("unexpected action: {:?}", other),
    }
}
