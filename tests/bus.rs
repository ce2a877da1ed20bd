use std::cell::RefCell;
use std::rc::Rc;

use gamer::{
    decode, encode, format_code, parse_code_text, EventRunner, Gamer, GamerError, Inbound, Outbound, Session,
    SessionState, HEARTBEAT_INTERVAL,
};

type Handler = Box<dyn Fn(String)>;

fn recording_bus(code: usize) -> (Gamer<Handler>, Rc<RefCell<Vec<String>>>) {
    let seen = Rc::new(RefCell::new(Vec::new()));
    let sink = seen.clone();
    let mut gamer: Gamer<Handler> = Gamer::new();
    gamer
        .register(code, Box::new(move |d: String| sink.borrow_mut().push(d)))
        .unwrap();
    (gamer, seen)
}

fn reply_text(r: Option<Outbound>) -> Option<String> {
    match r {
        Some(Outbound::Text(s)) => Some(s),
        Some(Outbound::Ping) => panic!("a ping is no reply"),
        None => None,
    }
}

#[test]
fn registered_handler_records_payload_once() {
    let (gamer, seen) = recording_bus(1);
    let mut session = Session::new(true);
    let frame = r#"{"code":"1","data":"Hello"}"#;
    let reply = reply_text(session.on_inbound(&gamer, Inbound::Text(frame.to_string())));
    assert_eq!(*seen.borrow(), vec!["Hello".to_string()]);
    assert!(session.is_open());
    assert_eq!(reply, Some(frame.to_string()));
}

#[test]
fn frame_without_code_gets_diagnostic() {
    let (gamer, seen) = recording_bus(1);
    let mut session = Session::new(true);
    let reply = reply_text(session.on_inbound(&gamer, Inbound::Text(r#"{"data":"x"}"#.to_string())));
    assert!(seen.borrow().is_empty());
    assert_eq!(reply, Some("invalid message code".to_string()));
    assert!(session.is_open());
}

#[test]
fn one_probe_after_one_interval() {
    let mut session = Session::new(true);
    assert_eq!(HEARTBEAT_INTERVAL, 10);
    assert_eq!(session.on_time(9), 0);
    assert_eq!(session.on_time(1), 1);
    let mut fresh = Session::new(false);
    assert_eq!(fresh.on_time(10), 1);
}

#[test]
fn probes_follow_the_interval() {
    let mut session = Session::new(true);
    assert_eq!(session.on_time(25), 2);
    assert_eq!(session.on_time(5), 1);
    assert_eq!(session.on_time(u64::MAX), u64::MAX / 10);
    session.on_write_failed();
    assert_eq!(session.state(), SessionState::Closing);
    assert_eq!(session.on_time(100), 0);
}

#[test]
fn duplicate_registration_fails() {
    let mut gamer: Gamer<Handler> = Gamer::new();
    assert_eq!(gamer.register(7, Box::new(|_d: String| {})), Ok(()));
    assert_eq!(gamer.register(7, Box::new(|_d: String| {})), Err(GamerError::DuplicateEventCode(7)));
    assert_eq!(gamer.events.len(), 1);
}

#[test]
fn duplicate_registration_keeps_first_handler() {
    let (mut gamer, seen) = recording_bus(3);
    let other = Rc::new(RefCell::new(0));
    let other_sink = other.clone();
    let r = gamer.register(3, Box::new(move |_d: String| *other_sink.borrow_mut() += 1));
    assert_eq!(r, Err(GamerError::DuplicateEventCode(3)));
    assert_eq!(gamer.dispatch(3, "p".to_string()), Ok(()));
    assert_eq!(*seen.borrow(), vec!["p".to_string()]);
    assert_eq!(*other.borrow(), 0);
}

#[test]
fn unknown_code_gets_diagnostic_and_session_stays_open() {
    let (gamer, seen) = recording_bus(1);
    let mut session = Session::new(true);
    let reply = reply_text(session.on_inbound(&gamer, Inbound::Text(r#"{"code":"2","data":"x"}"#.to_string())));
    assert_eq!(reply, Some("unknown event code".to_string()));
    assert!(seen.borrow().is_empty());
    assert!(session.is_open());
    assert_eq!(gamer.dispatch(2, "x".to_string()), Err(GamerError::UnknownEventCode(2)));
}

#[test]
fn encode_then_decode_round_trips() {
    let cases: Vec<(usize, &str)> = vec![
        (0, ""),
        (1, "Hello"),
        (100, r#"{"message":"hi"}"#),
        (42, "quote \" backslash \\ newline \n tab \t"),
        (9, "caf\u{e9} \u{1f600}"),
        (usize::MAX, "end"),
    ];
    for (code, data) in cases {
        let m = decode(&encode(code, data)).unwrap();
        assert_eq!(m.code, code);
        assert_eq!(m.data, data);
    }
}

#[test]
fn encode_writes_canonical_frame() {
    assert_eq!(encode(1, "Hello"), r#"{"code":"1","data":"Hello"}"#);
    assert_eq!(encode(305, "a\"b"), r#"{"code":"305","data":"a\"b"}"#);
}

#[test]
fn missing_members_are_reported() {
    assert_eq!(decode(r#"{"data":"x"}"#).unwrap_err(), GamerError::MissingCode);
    assert_eq!(decode(r#"{"code":"1"}"#).unwrap_err(), GamerError::MissingData);
    assert_eq!(decode(r#"{}"#).unwrap_err(), GamerError::MissingCode);
    assert_eq!(decode(r#"{"code":"x","data":"y"}"#).unwrap_err(), GamerError::InvalidCode);
    assert_eq!(decode(r#"{"code":-1,"data":"y"}"#).unwrap_err(), GamerError::InvalidCode);
    assert_eq!(decode(r#"{"code":true,"data":"y"}"#).unwrap_err(), GamerError::InvalidCode);
    assert_eq!(decode(r#"{"code":"18446744073709551616","data":"y"}"#).unwrap_err(), GamerError::InvalidCode);
}

#[test]
fn missing_members_reach_no_handler() {
    let (gamer, seen) = recording_bus(1);
    assert_eq!(gamer.handle_text_message(r#"{"code":"1"}"#, true), Some("invalid message data".to_string()));
    assert_eq!(gamer.handle_text_message(r#"{"data":"1"}"#, true), Some("invalid message code".to_string()));
    assert!(seen.borrow().is_empty());
}

#[test]
fn malformed_frames_are_reported() {
    assert_eq!(decode("not json").unwrap_err(), GamerError::MalformedFrame);
    assert_eq!(decode("[1,2]").unwrap_err(), GamerError::MalformedFrame);
    assert_eq!(decode(r#""text""#).unwrap_err(), GamerError::MalformedFrame);
    let (gamer, _seen) = recording_bus(1);
    assert_eq!(gamer.handle_text_message("{", true), Some("invalid message".to_string()));
}

#[test]
fn numeric_and_text_codes_are_accepted() {
    let m = decode(r#"{"code":7,"data":"x"}"#).unwrap();
    assert_eq!((m.code, m.data.as_str()), (7, "x"));
    let m = decode(r#"{"code":"+12","data":"y"}"#).unwrap();
    assert_eq!((m.code, m.data.as_str()), (12, "y"));
}

#[test]
fn structured_payload_is_passed_as_json_text() {
    let m = decode(r#"{"code":"100","data":{"message":"hi"}}"#).unwrap();
    assert_eq!(m.code, 100);
    assert_eq!(m.data, r#"{"message":"hi"}"#);
    let m = decode(r#"{"code":"5","data":12}"#).unwrap();
    assert_eq!(m.data, "12");
}

#[test]
fn code_text_parsing() {
    assert_eq!(parse_code_text("0"), Some(0));
    assert_eq!(parse_code_text("42"), Some(42));
    assert_eq!(parse_code_text("+5"), Some(5));
    assert_eq!(parse_code_text("007"), Some(7));
    assert_eq!(parse_code_text(""), None);
    assert_eq!(parse_code_text("+"), None);
    assert_eq!(parse_code_text("-1"), None);
    assert_eq!(parse_code_text("1a"), None);
    assert_eq!(parse_code_text(" 1"), None);
    assert_eq!(parse_code_text("18446744073709551615"), Some(u64::MAX));
    assert_eq!(parse_code_text("18446744073709551616"), None);
}

#[test]
fn code_text_formatting() {
    assert_eq!(format_code(0), "0");
    assert_eq!(format_code(7), "7");
    assert_eq!(format_code(1234), "1234");
    assert_eq!(format_code(u64::MAX), "18446744073709551615");
}

#[test]
fn session_lifecycle() {
    let (gamer, seen) = recording_bus(1);
    let mut session = Session::new(true);
    assert_eq!(session.state(), SessionState::Open);
    assert!(session.on_inbound(&gamer, Inbound::Pong).is_none());
    assert!(session.on_inbound(&gamer, Inbound::Other).is_none());
    assert_eq!(session.state(), SessionState::Open);
    session.on_loops_stopped();
    assert_eq!(session.state(), SessionState::Open);
    assert!(session.on_inbound(&gamer, Inbound::Close).is_none());
    assert_eq!(session.state(), SessionState::Closing);
    let late = session.on_inbound(&gamer, Inbound::Text(r#"{"code":"1","data":"late"}"#.to_string()));
    assert!(late.is_none());
    assert!(seen.borrow().is_empty());
    session.on_loops_stopped();
    assert_eq!(session.state(), SessionState::Closed);
}

#[test]
fn read_failure_starts_closing() {
    let gamer: Gamer<Handler> = Gamer::new();
    let mut session = Session::new(true);
    assert!(session.on_inbound(&gamer, Inbound::ReadFailed).is_none());
    assert_eq!(session.state(), SessionState::Closing);
    session.on_write_failed();
    assert_eq!(session.state(), SessionState::Closing);
}

#[test]
fn echo_can_be_switched_off() {
    let (gamer, seen) = recording_bus(1);
    let mut session = Session::new(false);
    let reply = session.on_inbound(&gamer, Inbound::Text(r#"{"code":1,"data":"quiet"}"#.to_string()));
    assert!(reply.is_none());
    assert_eq!(*seen.borrow(), vec!["quiet".to_string()]);
}

#[test]
fn lookup_and_unregister() {
    let (mut gamer, seen) = recording_bus(4);
    assert_eq!(gamer.lookup(4).map(|e| e.code), Some(4));
    assert!(gamer.lookup(5).is_none());
    let removed = gamer.unregister(4).unwrap();
    assert_eq!(removed.code, 4);
    assert!(gamer.lookup(4).is_none());
    assert!(gamer.unregister(4).is_none());
    assert_eq!(gamer.dispatch(4, "x".to_string()), Err(GamerError::UnknownEventCode(4)));
    assert!(seen.borrow().is_empty());
    assert_eq!(gamer.register(4, Box::new(|_d: String| {})), Ok(()));
}

#[test]
fn run_event_calls_handler() {
    let (mut gamer, seen) = recording_bus(100);
    assert_eq!(gamer.run_event(100, "a".to_string()), Ok(()));
    assert_eq!(gamer.run_event(100, "b".to_string()), Ok(()));
    assert_eq!(gamer.run_event(101, "c".to_string()), Err(GamerError::UnknownEventCode(101)));
    assert_eq!(*seen.borrow(), vec!["a".to_string(), "b".to_string()]);
}

#[test]
fn error_messages() {
    assert_eq!(GamerError::MalformedFrame.message(), "invalid message");
    assert_eq!(GamerError::MissingCode.message(), "invalid message code");
    assert_eq!(GamerError::InvalidCode.message(), "invalid message code");
    assert_eq!(GamerError::MissingData.message(), "invalid message data");
    assert_eq!(GamerError::UnknownEventCode(3).message(), "unknown event code");
    assert_eq!(GamerError::DuplicateEventCode(3).message(), "duplicate event code");
}

#[test]
fn encode_escapes_control_characters() {
    assert_eq!(encode(1, "\u{1}\u{8}\u{c}\r\\"), r#"{"code":"1","data":"\u0001\b\f\r\\"}"#);
    assert_eq!(encode(2, "\u{1f}"), r#"{"code":"2","data":"\u001f"}"#);
}

#[test]
fn non_object_frame_gets_invalid_message() {
    let (gamer, seen) = recording_bus(1);
    assert_eq!(gamer.handle_text_message("[1,2]", true), Some("invalid message".to_string()));
    assert_eq!(gamer.handle_text_message("12", true), Some("invalid message".to_string()));
    assert!(seen.borrow().is_empty());
}

#[test]
fn text_frame_with_numeric_code_reaches_handler() {
    let (gamer, seen) = recording_bus(1);
    assert_eq!(gamer.handle_text_message(r#"{"code":1,"data":"x"}"#, false), None);
    assert_eq!(gamer.handle_text_message(r#"{"code":1.5,"data":"y"}"#, false), Some("invalid message code".to_string()));
    assert_eq!(*seen.borrow(), vec!["x".to_string()]);
}
