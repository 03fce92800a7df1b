use async_wsocket::{CloseFrame, Message};

#[test]
fn empty_text_has_no_length() {
    let msg = Message::Text(String::new());
    assert_eq!(msg.len(), 0);
    assert!(msg.is_empty());
}

#[test]
fn binary_length_is_byte_count() {
    let msg = Message::Binary(vec![1, 2, 3]);
    assert_eq!(msg.len(), 3);
    assert!(!msg.is_empty());
}

#[test]
fn close_without_frame_has_no_length() {
    let msg = Message::Close(None);
    assert_eq!(msg.len(), 0);
    assert!(msg.is_empty());
}

#[test]
fn close_length_is_reason_length() {
    let frame = CloseFrame { code: 1000, reason: String::from("bye") };
    let msg = Message::Close(Some(frame));
    assert_eq!(msg.len(), 3);
    assert!(!msg.is_empty());
}

#[test]
fn close_with_empty_reason_is_empty() {
    let frame = CloseFrame { code: 1001, reason: String::new() };
    assert!(Message::Close(Some(frame)).is_empty());
}

#[test]
fn text_length_counts_bytes_not_chars() {
    // Two chars, seven bytes in UTF-8.
    let msg = Message::Text(String::from("\u{20ac}\u{1f600}"));
    assert_eq!(msg.len(), 7);
}

#[test]
fn ping_and_pong_length_is_byte_count() {
    assert_eq!(Message::Ping(vec![]).len(), 0);
    assert!(Message::Ping(vec![]).is_empty());
    assert_eq!(Message::Pong(vec![1, 2, 3]).len(), 3);
    assert_eq!(Message::Ping(vec![9; 124]).len(), 124);
}

#[test]
fn is_empty_agrees_with_len() {
    let all = vec![
        Message::Text(String::from("hello")),
        Message::Text(String::new()),
        Message::Binary(vec![]),
        Message::Binary(vec![0]),
        Message::Ping(vec![]),
        Message::Pong(vec![7]),
        Message::Close(None),
        Message::Close(Some(CloseFrame { code: 1000, reason: String::from("x") })),
    ];
    for msg in all.iter() {
        assert_eq!(msg.is_empty(), msg.len() == 0);
    }
}

#[test]
fn messages_compare_by_content() {
    assert_eq!(Message::Text(String::from("a")), Message::Text(String::from("a")));
    assert_ne!(Message::Text(String::from("a")), Message::Binary(vec![b'a']));
    assert_ne!(Message::Ping(vec![1]), Message::Pong(vec![1]));
    assert!(Message::Text(String::from("a")) < Message::Text(String::from("b")));
    assert!(Message::Text(String::from("z")) < Message::Binary(vec![]));
    let msg = Message::Close(Some(CloseFrame { code: 4000, reason: String::from("why") }));
    assert_eq!(msg.clone(), msg);
}
