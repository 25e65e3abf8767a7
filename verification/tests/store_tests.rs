use manami::message_store::{
    delete_message, get_messages, insert_messages, update_message, BindValue, DeleteRecord, MessageRecord,
    StoreStep, UpdateRecord, INSERT_MESSAGE_SQL, UPDATE_MESSAGE_SQL,
};
use manami::text::parse_usize;

fn answer(step: StoreStep) -> (u16, String) {
    match step {
        StoreStep::Answer(r) => (r.status, r.body),
        StoreStep::Run { .. } => panic!("expected an answer"),
    }
}

fn texts(p: &[BindValue]) -> Vec<String> {
    p.iter()
        .map(|b| match b {
            BindValue::Text(s) => s.clone(),
            _ => panic!("expected text"),
        })
        .collect()
}

fn record(id: &str, content: &str) -> MessageRecord {
    MessageRecord {
        message_id: id.to_owned(),
        channel_id: "ch".to_owned(),
        user_id: "u".to_owned(),
        timestamp: "2024-01-01".to_owned(),
        content: content.to_owned(),
    }
}

#[test]
fn insert_steps() {
    assert_eq!(answer(insert_messages(None)), (400, "Failed to parse request body".to_owned()));
    assert_eq!(answer(insert_messages(Some(vec![]))), (200, "No messages to insert".to_owned()));
    match insert_messages(Some(vec![record("1", "a"), record("2", "b")])) {
        StoreStep::Run { sql, params, then } => {
            assert_eq!(sql, INSERT_MESSAGE_SQL);
            assert_eq!(params.len(), 2);
            assert_eq!(texts(&params[0]), vec!["1", "ch", "u", "2024-01-01", "a"]);
            assert_eq!(texts(&params[1]), vec!["2", "ch", "u", "2024-01-01", "b"]);
            assert_eq!(then.body, "Messages inserted successfully");
        }
        _ => panic!("expected a statement"),
    }
}

#[test]
fn update_and_delete_steps() {
    assert_eq!(answer(update_message(None)).0, 400);
    assert_eq!(answer(delete_message(None)).1, "Failed to parse request body");
    match delete_message(Some(DeleteRecord { message_id: "9".to_owned() })) {
        StoreStep::Run { sql, params, then } => {
            assert_eq!(sql, "DELETE FROM message WHERE message_id = ?1");
            assert_eq!(params.len(), 1);
            assert_eq!(texts(&params[0]), vec!["9"]);
            assert_eq!(then.body, "Message deleted successfully");
        }
        _ => panic!(),
    }
    match update_message(Some(UpdateRecord { message_id: "9".to_owned(), content: "new".to_owned() })) {
        StoreStep::Run { sql, params, then } => {
            assert_eq!(sql, UPDATE_MESSAGE_SQL);
            assert_eq!(texts(&params[0]), vec!["new", "9"]);
            assert_eq!(then.body, "Message updated successfully");
        }
        _ => panic!(),
    }
}

#[test]
fn listing_parameters() {
    let e = get_messages(None, Some("5".into()), None, None, None, None, None, None).unwrap_err();
    assert_eq!((e.status, e.body.as_str()), (400, "Missing query parameter: channel_id"));
    let e = get_messages(Some("c".into()), Some("x".into()), None, None, None, None, None, None).unwrap_err();
    assert_eq!(e.body, "Missing or invalid query parameter: limit");
    let e = get_messages(Some("c".into()), None, None, None, None, None, None, None).unwrap_err();
    assert_eq!(e.status, 400);
    let q = get_messages(
        Some("c".into()),
        Some("20".into()),
        Some("Desc".into()),
        Some("true".into()),
        Some("1".into()),
        None,
        Some("3".into()),
        None,
    )
    .unwrap();
    assert_eq!(q.channel_id, "c");
    assert_eq!(q.limit, 20);
    assert!(q.descending);
    assert!(q.summary_pending_only);
    assert_eq!(q.from.as_deref(), Some("1"));
    assert_eq!(q.after.as_deref(), Some("3"));
    assert!(q.sql().ends_with("ORDER BY timestamp DESC, message_id DESC LIMIT ?7"));
    let p = q.params();
    assert_eq!(p.len(), 7);
    assert!(matches!(&p[0], BindValue::Text(c) if c == "c"));
    assert!(matches!(&p[1], BindValue::Text(f) if f == "1"));
    assert!(matches!(&p[2], BindValue::Null));
    assert!(matches!(&p[3], BindValue::Text(a) if a == "3"));
    assert!(matches!(&p[4], BindValue::Null));
    assert!(matches!(&p[5], BindValue::Bool(true)));
    assert!(matches!(&p[6], BindValue::Count(20)));
    let q = get_messages(Some("c".into()), Some("1".into()), Some("desc".into()), Some("yes".into()), None, None, None, None)
        .unwrap();
    assert!(!q.descending);
    assert!(!q.summary_pending_only);
    assert!(q.sql().ends_with("ORDER BY timestamp ASC, message_id ASC LIMIT ?7"));
}

#[test]
fn usize_parsing_matches_std() {
    for t in ["0", "42", "+7", "", "+", "-1", " 1", "1 ", "12a", "007", "18446744073709551615", "18446744073709551616", "٣"] {
        assert_eq!(parse_usize(t), t.parse::<usize>().ok(), "{t}");
    }
}
