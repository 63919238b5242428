use codex_core::inbound::{classify, MsgClass, MsgShape};
use codex_core::session::{LineAction, SessionCore};

fn value(text: &str) -> serde_json::Value {
    serde_json::from_str(text).unwrap()
}

#[test]
fn request_ids_strictly_increase_and_never_repeat() {
    let mut s = SessionCore::new(String::from("ws1"));
    let params = b"{}".to_vec();
    let (id1, _) = s.send_request("thread/start", &params);
    let (id2, _) = s.send_request("thread/start", &params);
    let (id3, _) = s.send_request("model/list", &params);
    assert_eq!((id1, id2, id3), (1, 2, 3));
    assert!(id1 < id2 && id2 < id3);
}

#[test]
fn request_frame_is_exact() {
    let mut s = SessionCore::new(String::from("ws1"));
    let params = b"{\"x\":1}".to_vec();
    let (id, line) = s.send_request("initialize", &params);
    assert_eq!(id, 1);
    assert_eq!(line, b"{\"id\":1,\"method\":\"initialize\",\"params\":{\"x\":1}}\n".to_vec());
}

#[test]
fn response_resolves_exactly_its_waiter_and_only_once() {
    let mut s = SessionCore::new(String::from("ws1"));
    let params = b"{}".to_vec();
    let (id1, _) = s.send_request("a", &params);
    let (id2, _) = s.send_request("b", &params);
    let reply = "{\"id\": 1, \"result\": {\"ok\": true}}";
    match s.handle_line(reply) {
        LineAction::Fulfill { id, value: v } => {
            assert_eq!(id, id1);
            assert_eq!(v, value(reply));
        },
        _ => panic!("expected the pending request to be fulfilled"),
    }
    match s.handle_line(reply) {
        LineAction::DropLate { id } => assert_eq!(id, id1),
        _ => panic!("a second response with the same id must be a no-op"),
    }
    match s.handle_line("{\"id\": 2, \"result\": null}") {
        LineAction::Fulfill { id, .. } => assert_eq!(id, id2),
        _ => panic!("the other waiter must still be pending"),
    }
}

#[test]
fn malformed_line_reports_once_and_reading_goes_on() {
    let mut s = SessionCore::new(String::from("ws1"));
    let params = b"{}".to_vec();
    let (id1, _) = s.send_request("a", &params);
    match s.handle_line("not-json") {
        LineAction::ParseError { event } => {
            let text = String::from_utf8(event).unwrap();
            assert!(text.starts_with("{\"method\":\"codex/parseError\",\"params\":{\"error\":\""));
            assert!(text.ends_with("\"raw\":\"not-json\"}}"));
        },
        _ => panic!("a malformed line must become a parse-error event"),
    }
    match s.handle_line("{\"id\": 1, \"result\": 7}") {
        LineAction::Fulfill { id, .. } => assert_eq!(id, id1),
        _ => panic!("a valid line after a malformed one must still be routed"),
    }
}

#[test]
fn notification_is_forwarded_and_leaves_the_table_alone() {
    let mut s = SessionCore::new(String::from("ws1"));
    let params = b"{}".to_vec();
    let (id1, _) = s.send_request("a", &params);
    let line = "{\"method\": \"codex/ping\"}";
    match s.handle_line(line) {
        LineAction::Forward { value: v } => assert_eq!(v, value(line)),
        _ => panic!("a notification must be forwarded"),
    }
    match s.handle_line("{\"id\": 1, \"result\": null}") {
        LineAction::Fulfill { id, .. } => assert_eq!(id, id1),
        _ => panic!("the pending table must be untouched by a notification"),
    }
}

#[test]
fn server_request_with_id_is_forwarded_not_correlated() {
    let mut s = SessionCore::new(String::from("ws1"));
    let line = "{\"id\": 7, \"method\": \"serverRequest\", \"params\": {}}";
    match s.handle_line(line) {
        LineAction::Forward { value: v } => assert_eq!(v, value(line)),
        _ => panic!("a server request must be forwarded even though it has an id"),
    }
}

#[test]
fn classification_precedence_is_exact() {
    let shape = |id: Option<u64>, m: bool, r: bool, e: bool| MsgShape {
        id,
        has_method: m,
        has_result: r,
        has_error: e,
    };
    assert_eq!(classify(&shape(Some(1), false, true, false)), MsgClass::Response { id: 1 });
    assert_eq!(classify(&shape(Some(1), true, true, false)), MsgClass::Response { id: 1 });
    assert_eq!(classify(&shape(Some(1), true, false, true)), MsgClass::Response { id: 1 });
    assert_eq!(classify(&shape(Some(7), true, false, false)), MsgClass::ServerRequest { id: 7 });
    assert_eq!(classify(&shape(Some(5), false, false, false)), MsgClass::Response { id: 5 });
    assert_eq!(classify(&shape(None, true, false, false)), MsgClass::Notification);
    assert_eq!(classify(&shape(None, false, true, false)), MsgClass::Unroutable);
    assert_eq!(classify(&shape(None, false, false, false)), MsgClass::Unroutable);
}

#[test]
fn bare_id_fallback_still_resolves_the_waiter() {
    let mut s = SessionCore::new(String::from("ws1"));
    let params = b"{}".to_vec();
    let (id1, _) = s.send_request("a", &params);
    match s.handle_line("{\"id\": 1}") {
        LineAction::Fulfill { id, .. } => assert_eq!(id, id1),
        _ => panic!("an id with no method and no result must fall back to a response"),
    }
}

#[test]
fn blank_and_unroutable_lines_do_nothing() {
    let mut s = SessionCore::new(String::from("ws1"));
    assert!(matches!(s.handle_line("   "), LineAction::Ignored));
    assert!(matches!(s.handle_line(""), LineAction::Ignored));
    assert!(matches!(s.handle_line("\u{b}\t"), LineAction::Ignored));
    assert!(matches!(s.handle_line("{}"), LineAction::Unroutable));
    assert!(matches!(s.handle_line("{\"result\": 1}"), LineAction::Unroutable));
}

#[test]
fn teardown_cancels_every_pending_waiter() {
    let mut s = SessionCore::new(String::from("ws1"));
    let params = b"{}".to_vec();
    let _ = s.send_request("a", &params);
    let _ = s.send_request("b", &params);
    let (id3, _) = s.send_request("c", &params);
    assert_eq!(id3, 3);
    assert!(matches!(s.handle_line("{\"id\": 1, \"result\": null}"), LineAction::Fulfill { .. }));
    assert!(matches!(s.handle_line("{\"id\": 2, \"result\": null}"), LineAction::Fulfill { .. }));
    let canceled = s.teardown();
    assert_eq!(canceled, vec![3]);
    match s.handle_line("{\"id\": 3, \"result\": null}") {
        LineAction::DropLate { id } => assert_eq!(id, 3),
        _ => panic!("after teardown nothing is pending"),
    }
}

#[test]
fn stderr_lines_become_events_except_blank_ones() {
    let s = SessionCore::new(String::from("ws1"));
    assert_eq!(s.handle_stderr_line("  \t"), None);
    let event = s.handle_stderr_line("warning: slow start").unwrap();
    assert_eq!(
        String::from_utf8(event).unwrap(),
        "{\"method\":\"codex/stderr\",\"params\":{\"message\":\"warning: slow start\"}}"
    );
}

#[test]
fn notification_and_response_frames_are_exact() {
    let s = SessionCore::new(String::from("ws1"));
    assert_eq!(s.send_notification("initialized", None), b"{\"method\":\"initialized\"}\n".to_vec());
    let params = b"{\"a\":1}".to_vec();
    assert_eq!(
        s.send_notification("status", Some(&params)),
        b"{\"method\":\"status\",\"params\":{\"a\":1}}\n".to_vec()
    );
    let result = b"{\"ok\":true}".to_vec();
    assert_eq!(s.send_response(9, &result), b"{\"id\":9,\"result\":{\"ok\":true}}\n".to_vec());
    let big = b"null".to_vec();
    assert_eq!(
        s.send_response(18446744073709551615, &big),
        b"{\"id\":18446744073709551615,\"result\":null}\n".to_vec()
    );
}
