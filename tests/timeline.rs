use matrix_session::rooms::{
    classify_event, messages_response, page_messages, parse_room, room_info, EventKind, Message,
    MessageContent, RawEvent,
};
use matrix_session::error::SessionError;

fn text(sender: &str, body: &str, ts: u64) -> RawEvent {
    RawEvent {
        kind: EventKind::Decrypted {
            sender: sender.to_string(),
            content: Some(MessageContent::Text(body.to_string())),
        },
        timestamp: Some(ts),
    }
}

fn plain(sender: &str, content: MessageContent, ts: Option<u64>) -> RawEvent {
    RawEvent { kind: EventKind::PlainText { sender: sender.to_string(), content: Some(content) }, timestamp: ts }
}

fn undecryptable(ts: u64) -> RawEvent {
    RawEvent { kind: EventKind::UnableToDecrypt, timestamp: Some(ts) }
}

fn is_placeholder(m: &Message) -> bool {
    m.sender == "[Encrypted]" && m.body == "\u{1F512} Waiting for encryption keys..."
}

#[test]
fn room_ids_are_checked() {
    assert_eq!(parse_room("!abc:example.org").unwrap().as_str(), "!abc:example.org");
    assert!(parse_room("!x").is_ok());
    assert!(matches!(parse_room("abc:example.org"), Err(SessionError::InvalidRoom(_))));
    assert!(matches!(parse_room(""), Err(SessionError::InvalidRoom(_))));
    assert!(matches!(parse_room("!a\0b:example.org"), Err(SessionError::InvalidRoom(_))));
    assert!(matches!(parse_room("#alias:example.org"), Err(SessionError::InvalidRoom(_))));
}

#[test]
fn room_name_falls_back_to_id() {
    let r = room_info("!r:x".to_string(), None, Some("topic".to_string()));
    assert_eq!(r.room_id, "!r:x");
    assert_eq!(r.name, Some("!r:x".to_string()));
    assert_eq!(r.topic, Some("topic".to_string()));
    let r = room_info("!r:x".to_string(), Some("Lounge".to_string()), None);
    assert_eq!(r.name, Some("Lounge".to_string()));
    assert_eq!(r.topic, None);
}

#[test]
fn classify_decrypted_plain_and_missing_keys() {
    let m = classify_event(&text("@a:x", "hi", 5)).unwrap();
    assert_eq!((m.sender.as_str(), m.body.as_str(), m.timestamp), ("@a:x", "hi", 5));
    let m = classify_event(&plain("@b:x", MessageContent::Notice("note".to_string()), None)).unwrap();
    assert_eq!((m.sender.as_str(), m.body.as_str(), m.timestamp), ("@b:x", "note", 0));
    let m = classify_event(&plain("@b:x", MessageContent::Emote("waves".to_string()), Some(9))).unwrap();
    assert_eq!(m.body, "* waves");
    let m = classify_event(&undecryptable(7)).unwrap();
    assert!(is_placeholder(&m));
    assert_eq!(m.timestamp, 7);
}

#[test]
fn classify_skips_other_content() {
    assert!(classify_event(&plain("@b:x", MessageContent::Other, Some(1))).is_none());
    let e = RawEvent { kind: EventKind::Decrypted { sender: "@a:x".to_string(), content: None }, timestamp: Some(1) };
    assert!(classify_event(&e).is_none());
}

#[test]
fn page_is_returned_oldest_first() {
    let page = vec![text("@a:x", "newest", 30), text("@a:x", "middle", 20), text("@a:x", "oldest", 10)];
    let ms = page_messages(&page);
    let bodies: Vec<&str> = ms.iter().map(|m| m.body.as_str()).collect();
    assert_eq!(bodies, vec!["oldest", "middle", "newest"]);
    let times: Vec<u64> = ms.iter().map(|m| m.timestamp).collect();
    assert!(times.windows(2).all(|w| w[0] <= w[1]));
}

#[test]
fn undecryptable_events_become_placeholders_in_place() {
    let page = vec![
        text("@a:x", "four", 4),
        undecryptable(3),
        plain("@b:x", MessageContent::Other, Some(2)),
        undecryptable(1),
        text("@a:x", "zero", 0),
    ];
    let ms = page_messages(&page);
    assert_eq!(ms.len(), 4);
    assert_eq!(ms.iter().filter(|m| is_placeholder(m)).count(), 2);
    assert_eq!(ms[0].body, "zero");
    assert!(is_placeholder(&ms[1]) && ms[1].timestamp == 1);
    assert!(is_placeholder(&ms[2]) && ms[2].timestamp == 3);
    assert_eq!(ms[3].body, "four");
}

#[test]
fn empty_page_has_no_more_even_with_cursor() {
    let r = messages_response(&vec![], Some("t1".to_string()));
    assert!(!r.has_more);
    assert!(r.messages.is_empty());
    assert_eq!(r.next_token, Some("t1".to_string()));
}

#[test]
fn more_needs_cursor_and_events() {
    let page = vec![text("@a:x", "m", 1)];
    let r = messages_response(&page, Some("t2".to_string()));
    assert!(r.has_more);
    assert_eq!(r.next_token, Some("t2".to_string()));
    let r = messages_response(&page, None);
    assert!(!r.has_more);
    assert_eq!(r.next_token, None);
    // Events that all get skipped still count as a non-empty page.
    let r = messages_response(&vec![plain("@b:x", MessageContent::Other, None)], Some("t3".to_string()));
    assert!(r.has_more);
    assert!(r.messages.is_empty());
}
