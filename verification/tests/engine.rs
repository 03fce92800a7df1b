use async_wsocket::{CloseFrame, Error, Message};
use tokio_tungstenite::tungstenite::protocol::frame::coding::CloseCode;
use tokio_tungstenite::tungstenite::protocol::frame::Frame;
use tokio_tungstenite::tungstenite::protocol::CloseFrame as EngineCloseFrame;
use tokio_tungstenite::tungstenite::error::{CapacityError, ProtocolError, TlsError, UrlError};
use tokio_tungstenite::tungstenite::Error as EngineError;
use tokio_tungstenite::tungstenite::Message as EngineMessage;

fn there_and_back(msg: Message) -> Message {
    Message::from_engine(msg.into_engine())
}

#[test]
fn round_trip_gives_the_message_back() {
    let all = vec![
        Message::Text(String::from("hello")),
        Message::Binary(vec![0, 1, 2]),
        Message::Ping(vec![]),
        Message::Pong(vec![1, 2, 3]),
        Message::Close(Some(CloseFrame { code: 1000, reason: String::from("bye") })),
        Message::Close(None),
    ];
    for msg in all.iter() {
        assert_eq!(&msg.clone().round_trip(), msg);
    }
    let frame = CloseFrame { code: 3000, reason: String::from("done") };
    assert_eq!(frame.clone().round_trip(), frame);
}

#[test]
fn tls_error_of_the_engine_is_a_network_error() {
    let tls = EngineError::Tls(TlsError::InvalidDnsName);
    assert_eq!(Error::of_engine(&tls), Error::Network);
}

#[test]
fn capacity_error_of_the_engine_is_an_upgrade_error() {
    let full = EngineError::WriteBufferFull(EngineMessage::Close(None));
    assert_eq!(Error::of_engine(&full), Error::Upgrade);
    let big = EngineError::Capacity(CapacityError::TooManyHeaders);
    assert_eq!(Error::of_engine(&big), Error::Upgrade);
}

#[test]
fn round_trip_text() {
    let msg = Message::Text(String::from("hello"));
    assert_eq!(there_and_back(msg.clone()), msg);
}

#[test]
fn round_trip_binary() {
    let msg = Message::Binary(vec![0, 1, 2]);
    assert_eq!(there_and_back(msg.clone()), msg);
}

#[test]
fn round_trip_ping() {
    let msg = Message::Ping(vec![]);
    assert_eq!(there_and_back(msg.clone()), msg);
}

#[test]
fn round_trip_pong() {
    let msg = Message::Pong(vec![1, 2, 3]);
    assert_eq!(there_and_back(msg.clone()), msg);
}

#[test]
fn round_trip_close_with_frame() {
    let msg = Message::Close(Some(CloseFrame { code: 1000, reason: String::from("bye") }));
    assert_eq!(there_and_back(msg.clone()), msg);
}

#[test]
fn round_trip_close_without_frame() {
    let msg = Message::Close(None);
    assert_eq!(there_and_back(msg.clone()), msg);
}

#[test]
fn round_trip_keeps_every_close_code() {
    let mut code: u16 = 0;
    loop {
        let frame = CloseFrame { code, reason: String::from("r") };
        assert_eq!(CloseFrame::from_engine(frame.clone().into_engine()), frame);
        if code == u16::MAX {
            break;
        }
        code += 1;
    }
}

#[test]
fn into_engine_builds_the_same_variant() {
    assert_eq!(
        Message::Text(String::from("hello")).into_engine(),
        EngineMessage::Text("hello".into())
    );
    assert_eq!(
        Message::Binary(vec![0, 1, 2]).into_engine(),
        EngineMessage::Binary(vec![0, 1, 2].into())
    );
    assert_eq!(Message::Ping(vec![4]).into_engine(), EngineMessage::Ping(vec![4].into()));
    assert_eq!(Message::Pong(vec![5]).into_engine(), EngineMessage::Pong(vec![5].into()));
    assert_eq!(Message::Close(None).into_engine(), EngineMessage::Close(None));
}

#[test]
fn close_frame_into_engine_names_the_code() {
    let frame = CloseFrame { code: 1000, reason: String::from("bye") }.into_engine();
    assert_eq!(frame.code, CloseCode::Normal);
    assert_eq!(frame.reason.as_str(), "bye");
    let frame = CloseFrame { code: 1001, reason: String::new() }.into_engine();
    assert_eq!(frame.code, CloseCode::Away);
    let frame = CloseFrame { code: 4321, reason: String::new() }.into_engine();
    assert_eq!(u16::from(frame.code), 4321);
}

#[test]
fn from_engine_reads_the_same_variant() {
    assert_eq!(
        Message::from_engine(EngineMessage::Text("hi".into())),
        Message::Text(String::from("hi"))
    );
    assert_eq!(
        Message::from_engine(EngineMessage::Binary(vec![9, 8].into())),
        Message::Binary(vec![9, 8])
    );
    assert_eq!(Message::from_engine(EngineMessage::Ping(vec![1].into())), Message::Ping(vec![1]));
    assert_eq!(Message::from_engine(EngineMessage::Pong(vec![2].into())), Message::Pong(vec![2]));
    let frame = EngineCloseFrame { code: CloseCode::Policy, reason: "no".into() };
    assert_eq!(
        Message::from_engine(EngineMessage::Close(Some(frame))),
        Message::Close(Some(CloseFrame { code: 1008, reason: String::from("no") }))
    );
}

#[test]
fn close_frame_from_engine_numbers_the_code() {
    let frame = EngineCloseFrame { code: CloseCode::Abnormal, reason: "gone".into() };
    assert_eq!(
        CloseFrame::from_engine(frame),
        CloseFrame { code: 1006, reason: String::from("gone") }
    );
}

#[test]
fn try_from_engine_reads_messages() {
    assert_eq!(
        Message::try_from_engine(EngineMessage::Text("hi".into())),
        Some(Message::Text(String::from("hi")))
    );
    assert_eq!(Message::try_from_engine(EngineMessage::Close(None)), Some(Message::Close(None)));
}

#[test]
fn try_from_engine_refuses_a_raw_frame() {
    let raw = EngineMessage::Frame(Frame::ping(vec![1, 2]));
    assert_eq!(Message::try_from_engine(raw), None);
}

#[test]
fn io_error_of_the_engine_is_a_network_error() {
    let io = std::io::Error::new(std::io::ErrorKind::ConnectionReset, "reset");
    assert_eq!(Error::of_engine(&EngineError::Io(io)), Error::Network);
}

#[test]
fn other_errors_of_the_engine_are_upgrade_errors() {
    assert_eq!(Error::of_engine(&EngineError::ConnectionClosed), Error::Upgrade);
    assert_eq!(Error::of_engine(&EngineError::AlreadyClosed), Error::Upgrade);
    assert_eq!(Error::of_engine(&EngineError::Utf8), Error::Upgrade);
    assert_eq!(Error::of_engine(&EngineError::AttackAttempt), Error::Upgrade);
    assert_eq!(
        Error::of_engine(&EngineError::Protocol(ProtocolError::HandshakeIncomplete)),
        Error::Upgrade
    );
    assert_eq!(Error::of_engine(&EngineError::Url(UrlError::NoHostName)), Error::Upgrade);
}
