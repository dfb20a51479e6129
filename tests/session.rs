use vulcast::transport::{Ending, Reply, SessionPhase};
use vulcast::wire::{
    connection_init_frame, decimal_text, parse_decimal, parse_server_message, start_message, stop_message, text_eq,
};
use vulcast::{Dispatch, RelaySession, ServerMessage, TransportError};

fn open_session() -> RelaySession {
    let mut s = RelaySession::new();
    assert_eq!(s.on_message(ServerMessage::ConnectionAck), Dispatch::Opened);
    s
}

fn data(id: u64, payload: &str) -> ServerMessage {
    ServerMessage::Data { id, payload: payload.to_string() }
}

#[test]
fn requests_wait_for_acknowledgement() {
    let mut s = RelaySession::new();
    assert_eq!(s.phase(), SessionPhase::AwaitingAck);
    assert_eq!(s.request(), Err(TransportError::NotOpen));
    assert_eq!(s.subscribe(), Err(TransportError::NotOpen));
    assert_eq!(s.on_message(ServerMessage::ConnectionAck), Dispatch::Opened);
    assert_eq!(s.phase(), SessionPhase::Open);
    assert_eq!(s.request(), Ok(1));
    assert_eq!(s.on_message(ServerMessage::ConnectionAck), Dispatch::Ignored);
}

#[test]
fn out_of_order_responses_reach_their_requests() {
    let mut s = open_session();
    let first = s.request().unwrap();
    let second = s.request().unwrap();
    assert_ne!(first, second);
    assert_eq!(
        s.on_message(data(second, "{\"b\":2}")),
        Dispatch::Resolve { id: second, reply: Reply::Data("{\"b\":2}".to_string()) }
    );
    assert_eq!(
        s.on_message(data(first, "{\"a\":1}")),
        Dispatch::Resolve { id: first, reply: Reply::Data("{\"a\":1}".to_string()) }
    );
    // each slot resolves once
    assert_eq!(s.on_message(data(first, "{}")), Dispatch::Ignored);
}

#[test]
fn ids_increase() {
    let mut s = open_session();
    assert_eq!(s.request(), Ok(1));
    assert_eq!(s.subscribe(), Ok(2));
    assert_eq!(s.request(), Ok(3));
}

#[test]
fn server_error_resolves_request() {
    let mut s = open_session();
    let id = s.request().unwrap();
    assert_eq!(
        s.on_message(ServerMessage::Error { id, payload: "oops".to_string() }),
        Dispatch::Resolve { id, reply: Reply::ServerError("oops".to_string()) }
    );
}

#[test]
fn complete_without_data_resolves_request_empty() {
    let mut s = open_session();
    let id = s.request().unwrap();
    assert_eq!(s.on_message(ServerMessage::Complete { id }), Dispatch::Resolve { id, reply: Reply::NoData });
}

#[test]
fn subscription_receives_many_then_ends() {
    let mut s = open_session();
    let id = s.subscribe().unwrap();
    assert_eq!(s.on_message(data(id, "1")), Dispatch::Deliver { id, payload: "1".to_string() });
    assert_eq!(s.on_message(data(id, "2")), Dispatch::Deliver { id, payload: "2".to_string() });
    assert_eq!(s.on_message(ServerMessage::Complete { id }), Dispatch::End { id, ending: Ending::Completed });
    assert_eq!(s.on_message(data(id, "3")), Dispatch::Ignored);
}

#[test]
fn subscription_error_ends_it() {
    let mut s = open_session();
    let id = s.subscribe().unwrap();
    assert_eq!(
        s.on_message(ServerMessage::Error { id, payload: "bad".to_string() }),
        Dispatch::End { id, ending: Ending::ServerError("bad".to_string()) }
    );
}

#[test]
fn cancelling_one_subscription_leaves_the_other() {
    let mut s = open_session();
    let a = s.subscribe().unwrap();
    let b = s.subscribe().unwrap();
    assert!(s.cancel(a));
    assert!(!s.cancel(a));
    assert_eq!(s.on_message(data(a, "x")), Dispatch::Ignored);
    assert_eq!(s.on_message(data(b, "y")), Dispatch::Deliver { id: b, payload: "y".to_string() });
}

#[test]
fn unknown_ids_and_keep_alives_are_ignored() {
    let mut s = open_session();
    assert_eq!(s.on_message(data(99, "x")), Dispatch::Ignored);
    assert_eq!(s.on_message(ServerMessage::Complete { id: 5 }), Dispatch::Ignored);
    assert_eq!(s.on_message(ServerMessage::KeepAlive), Dispatch::Ignored);
}

#[test]
fn connection_error_is_reported() {
    let mut s = RelaySession::new();
    assert_eq!(
        s.on_message(ServerMessage::ConnectionError { payload: "no".to_string() }),
        Dispatch::Rejected("no".to_string())
    );
}

#[test]
fn shutdown_hands_back_everything_in_flight() {
    let mut s = open_session();
    let r1 = s.request().unwrap();
    let s1 = s.subscribe().unwrap();
    let r2 = s.request().unwrap();
    let s2 = s.subscribe().unwrap();
    s.on_message(data(r1, "done"));
    let closure = s.shutdown();
    assert_eq!(closure.requests, vec![r2]);
    assert_eq!(closure.subscriptions, vec![s1, s2]);
    assert_eq!(s.phase(), SessionPhase::Closed);
    assert_eq!(s.request(), Err(TransportError::TransportClosed));
    assert_eq!(s.subscribe(), Err(TransportError::TransportClosed));
    assert_eq!(s.on_message(data(s1, "late")), Dispatch::Ignored);
    let again = s.shutdown();
    assert!(again.requests.is_empty() && again.subscriptions.is_empty());
}

#[test]
fn decimal_text_of_numbers() {
    assert_eq!(decimal_text(0), "0");
    assert_eq!(decimal_text(7), "7");
    assert_eq!(decimal_text(10), "10");
    assert_eq!(decimal_text(12345), "12345");
    assert_eq!(decimal_text(u64::MAX), "18446744073709551615");
}

#[test]
fn parse_decimal_accepts_digit_runs_that_fit() {
    assert_eq!(parse_decimal("42"), Some(42));
    assert_eq!(parse_decimal("0"), Some(0));
    assert_eq!(parse_decimal("007"), Some(7));
    assert_eq!(parse_decimal("18446744073709551615"), Some(u64::MAX));
    assert_eq!(parse_decimal("18446744073709551616"), None);
    assert_eq!(parse_decimal(""), None);
    assert_eq!(parse_decimal("4a"), None);
    assert_eq!(parse_decimal("-1"), None);
}

#[test]
fn text_eq_compares_characters() {
    assert!(text_eq("data", "data"));
    assert!(!text_eq("data", "date"));
    assert!(!text_eq("data", "dat"));
}

#[test]
fn client_frames_are_exact() {
    assert_eq!(start_message(7, "{\"query\":\"q\"}"), "{\"id\":\"7\",\"type\":\"start\",\"payload\":{\"query\":\"q\"}}");
    assert_eq!(stop_message(12), "{\"id\":\"12\",\"type\":\"stop\"}");
    assert_eq!(
        connection_init_frame("abc"),
        "{\"type\":\"connection_init\",\"payload\":{\"token\":\"abc\"}}"
    );
}

#[test]
fn init_frame_escapes_token() {
    assert_eq!(
        connection_init_frame("a\"b\\c\n"),
        "{\"type\":\"connection_init\",\"payload\":{\"token\":\"a\\\"b\\\\c\\n\"}}"
    );
}

#[test]
fn server_messages_are_read_by_tag() {
    assert_eq!(parse_server_message("connection_ack", None, String::new()), Some(ServerMessage::ConnectionAck));
    assert_eq!(parse_server_message("ka", None, String::new()), Some(ServerMessage::KeepAlive));
    assert_eq!(
        parse_server_message("data", Some("3"), "{}".to_string()),
        Some(ServerMessage::Data { id: 3, payload: "{}".to_string() })
    );
    assert_eq!(
        parse_server_message("error", Some("4"), "[]".to_string()),
        Some(ServerMessage::Error { id: 4, payload: "[]".to_string() })
    );
    assert_eq!(parse_server_message("complete", Some("5"), String::new()), Some(ServerMessage::Complete { id: 5 }));
    assert_eq!(
        parse_server_message("connection_error", None, "x".to_string()),
        Some(ServerMessage::ConnectionError { payload: "x".to_string() })
    );
    assert_eq!(parse_server_message("data", None, "{}".to_string()), None);
    assert_eq!(parse_server_message("data", Some("x1"), "{}".to_string()), None);
    assert_eq!(parse_server_message("mystery", Some("1"), "{}".to_string()), None);
}

#[test]
fn written_ids_read_back() {
    let mut s = open_session();
    let id = s.request().unwrap();
    let text = decimal_text(id);
    let m = parse_server_message("data", Some(&text), "1".to_string()).unwrap();
    assert_eq!(s.on_message(m), Dispatch::Resolve { id, reply: Reply::Data("1".to_string()) });
}
