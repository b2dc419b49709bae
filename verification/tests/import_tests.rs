use telegram_cjk_search_bot::export::{
    import_batches, normalize_export, supergroup_id, ExportChat, ExportRecord, ImportError,
    Normalized, TextEntity, INSERT_BATCH_LIMIT,
};
use telegram_cjk_search_bot::normalize::{normalize_live, ChatInfo, LiveMessage, Sender};

fn record(id: i32, text: &str) -> ExportRecord {
    ExportRecord {
        id,
        kind: "message".to_string(),
        date_unixtime: "1689699600".to_string(),
        from: Some("Foo Bar".to_string()),
        from_id: Some("user1".to_string()),
        via_bot: None,
        text_entities: vec![TextEntity { text: text.to_string() }],
    }
}

fn export(id: i64, messages: Vec<ExportRecord>) -> ExportChat {
    ExportChat {
        name: "test".to_string(),
        kind: "private_supergroup".to_string(),
        id,
        messages,
    }
}

fn kept(out: Normalized) -> telegram_cjk_search_bot::types::Message {
    match out {
        Normalized::Keep(m) => m,
        other => panic!("not kept: {:?}", other),
    }
}

#[test]
fn supergroup_id_carries_the_prefix() {
    assert_eq!(supergroup_id(1), Some(-1001));
    assert_eq!(supergroup_id(0), Some(-1000));
    assert_eq!(supergroup_id(1234567890), Some(-1001234567890));
    assert_eq!(supergroup_id(9999999999999999), Some(-1009999999999999999));
    assert_eq!(supergroup_id(10000000000000000), None);
    assert_eq!(supergroup_id(i64::MAX), None);
    assert_eq!(supergroup_id(-1), None);
    assert_eq!(supergroup_id(i64::MIN), None);
}

#[test]
fn exported_record_becomes_a_message() {
    let doc = export(1, vec![]);
    let m = kept(normalize_export(&doc, &record(3, "hello"), "@finder_bot"));
    assert_eq!(m.key, "-1001_3");
    assert_eq!(m.text, "hello");
    assert_eq!(m.from, "Foo Bar@test");
    assert_eq!(m.id, 3);
    assert_eq!(m.chat_id, -1001);
    assert_eq!(m.date, 1689699600);
}

#[test]
fn text_entities_are_joined_in_order() {
    let doc = export(1, vec![]);
    let mut rec = record(3, "");
    rec.text_entities = vec![
        TextEntity { text: "see ".to_string() },
        TextEntity { text: "https://example.org".to_string() },
        TextEntity { text: "".to_string() },
        TextEntity { text: " 已读".to_string() },
    ];
    assert_eq!(rec.text(), "see https://example.org 已读");
    assert_eq!(kept(normalize_export(&doc, &rec, "@b")).text, "see https://example.org 已读");
}

#[test]
fn deleted_account_gets_a_placeholder() {
    let doc = export(1, vec![]);
    let mut rec = record(3, "hello");
    rec.from = None;
    rec.from_id = Some("user5550001".to_string());
    assert_eq!(kept(normalize_export(&doc, &rec, "@b")).from, "已销号user5550001@test");
}

#[test]
fn record_through_the_bot_itself_is_skipped() {
    let doc = export(1, vec![]);
    let mut rec = record(3, "hello");
    rec.via_bot = Some("@finder_bot".to_string());
    assert!(matches!(normalize_export(&doc, &rec, "@finder_bot"), Normalized::Skip));
    // Whatever else the record holds.
    rec.date_unixtime = "never".to_string();
    rec.from = None;
    assert!(matches!(normalize_export(&doc, &rec, "@finder_bot"), Normalized::Skip));
    // Another bot's records are kept.
    let mut rec = record(3, "hello");
    rec.via_bot = Some("@other_bot".to_string());
    assert!(matches!(normalize_export(&doc, &rec, "@finder_bot"), Normalized::Keep(_)));
    rec.via_bot = Some("finder_bot".to_string());
    assert!(matches!(normalize_export(&doc, &rec, "@finder_bot"), Normalized::Keep(_)));
}

#[test]
fn records_that_are_left_out() {
    let doc = export(1, vec![]);
    let mut rec = record(3, "hello");
    rec.kind = "service".to_string();
    assert!(matches!(normalize_export(&doc, &rec, "@b"), Normalized::Skip));
    let mut rec = record(3, "hello");
    rec.from_id = None;
    assert!(matches!(normalize_export(&doc, &rec, "@b"), Normalized::Skip));
    assert!(matches!(normalize_export(&doc, &record(3, ""), "@b"), Normalized::Skip));
    let mut rec = record(3, "");
    rec.text_entities = vec![];
    assert!(matches!(normalize_export(&doc, &rec, "@b"), Normalized::Skip));
    // A record that is left out is not held to its date.
    let mut rec = record(3, "");
    rec.date_unixtime = "never".to_string();
    assert!(matches!(normalize_export(&doc, &rec, "@b"), Normalized::Skip));
}

#[test]
fn malformed_date_is_an_error() {
    let doc = export(1, vec![]);
    for bad in ["", "never", "1689699600.5", "99999999999999999999", "8210266876800", "-8334601228801"] {
        let mut rec = record(3, "hello");
        rec.date_unixtime = bad.to_string();
        assert!(matches!(
            normalize_export(&doc, &rec, "@b"),
            Normalized::Malformed(ImportError::Date)
        ));
    }
    for good in ["0", "-1", "8210266876799", "-8334601228800"] {
        let mut rec = record(3, "hello");
        rec.date_unixtime = good.to_string();
        assert!(matches!(normalize_export(&doc, &rec, "@b"), Normalized::Keep(_)));
    }
}

#[test]
fn chat_id_out_of_range_is_an_error() {
    let rec = record(3, "hello");
    assert!(matches!(
        normalize_export(&export(-1, vec![]), &rec, "@b"),
        Normalized::Malformed(ImportError::ChatId)
    ));
    assert!(matches!(
        normalize_export(&export(i64::MAX, vec![]), &rec, "@b"),
        Normalized::Malformed(ImportError::ChatId)
    ));
    // The chat's identifier is reported before the record's date.
    let mut rec = record(3, "hello");
    rec.date_unixtime = "never".to_string();
    assert!(matches!(
        normalize_export(&export(-1, vec![]), &rec, "@b"),
        Normalized::Malformed(ImportError::ChatId)
    ));
}

#[test]
fn live_and_exported_copy_have_the_same_key() {
    let live = LiveMessage {
        id: 3,
        date: 1689699600,
        chat: ChatInfo { id: -1001234567890, title: Some("test".to_string()), is_supergroup: true },
        from: Some(Sender {
            id: 1,
            is_bot: false,
            first_name: "Foo".to_string(),
            last_name: Some("Bar".to_string()),
        }),
        sender_chat: None,
        via_bot: None,
        text: Some("hello".to_string()),
        caption: None,
    };
    let a = normalize_live(&live, 4242).unwrap();
    let b = kept(normalize_export(&export(1234567890, vec![]), &record(3, "hello"), "@b"));
    assert_eq!(a.key, "-1001234567890_3");
    assert_eq!(a.key, b.key);
    assert_eq!(a.chat_id, b.chat_id);
    assert_eq!(a.id, b.id);
    assert_eq!(a.from, b.from);
    assert_eq!(a.text, b.text);
    assert_eq!(a.date, b.date);
}

#[test]
fn import_needs_a_supergroup() {
    let mut doc = export(1, vec![record(1, "a")]);
    doc.kind = "private_group".to_string();
    assert_eq!(import_batches(&doc, "finder_bot").unwrap_err(), ImportError::NotSupergroup);
    doc.kind = "".to_string();
    assert_eq!(import_batches(&doc, "finder_bot").unwrap_err(), ImportError::NotSupergroup);
    doc.kind = "public_supergroup".to_string();
    assert_eq!(import_batches(&doc, "finder_bot").unwrap().len(), 1);
}

#[test]
fn import_of_nothing_gives_no_batch() {
    assert!(import_batches(&export(1, vec![]), "finder_bot").unwrap().is_empty());
    let mut skipped = record(1, "a");
    skipped.kind = "service".to_string();
    assert!(import_batches(&export(1, vec![skipped]), "finder_bot").unwrap().is_empty());
    // With nothing to import, the chat's identifier is never read.
    assert!(import_batches(&export(-1, vec![record(1, "")]), "finder_bot").unwrap().is_empty());
}

#[test]
fn import_keeps_order_and_drops_rejects() {
    let mut via = record(2, "b");
    via.via_bot = Some("@finder_bot".to_string());
    let doc = export(1, vec![record(1, "a"), via, record(3, ""), record(4, "d")]);
    let batches = import_batches(&doc, "finder_bot").unwrap();
    assert_eq!(batches.len(), 1);
    let keys: Vec<&str> = batches[0].iter().map(|m| m.key.as_str()).collect();
    assert_eq!(keys, vec!["-1001_1", "-1001_4"]);
}

#[test]
fn import_stops_at_the_first_malformed_record() {
    let mut bad_date = record(2, "b");
    bad_date.date_unixtime = "never".to_string();
    let doc = export(1, vec![record(1, "a"), bad_date, record(3, "c")]);
    assert_eq!(import_batches(&doc, "finder_bot").unwrap_err(), ImportError::Date);
    let doc = export(-5, vec![record(1, "a")]);
    assert_eq!(import_batches(&doc, "finder_bot").unwrap_err(), ImportError::ChatId);
}

fn batch_sizes(n: usize) -> Vec<usize> {
    let records: Vec<ExportRecord> = (0..n).map(|i| record(i as i32, "x")).collect();
    let batches = import_batches(&export(1, records), "finder_bot").unwrap();
    let mut next: i32 = 0;
    for batch in &batches {
        for m in batch {
            assert_eq!(m.id, next);
            next += 1;
        }
    }
    assert_eq!(next as usize, n);
    batches.iter().map(|b| b.len()).collect()
}

#[test]
fn batch_boundary_2001() {
    assert_eq!(INSERT_BATCH_LIMIT, 2000);
    assert_eq!(batch_sizes(2001), vec![2000, 1]);
}

#[test]
fn batch_sizes_around_the_limit() {
    assert_eq!(batch_sizes(0), Vec::<usize>::new());
    assert_eq!(batch_sizes(1), vec![1]);
    assert_eq!(batch_sizes(1999), vec![1999]);
    assert_eq!(batch_sizes(2000), vec![2000]);
    assert_eq!(batch_sizes(4000), vec![2000, 2000]);
    assert_eq!(batch_sizes(4001), vec![2000, 2000, 1]);
}
