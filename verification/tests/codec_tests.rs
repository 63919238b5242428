use codex_core::protocol::{
    build_connected_event, build_disconnected_event, build_notification, build_parse_error_event,
    build_request, build_response, build_stderr_event,
};

#[test]
fn strings_are_escaped_as_json_literals() {
    let msg = build_stderr_event("a\"b\\c\nd\te\u{1}");
    assert_eq!(
        String::from_utf8(msg).unwrap(),
        "{\"method\":\"codex/stderr\",\"params\":{\"message\":\"a\\\"b\\\\c\\nd\\te\\u0001\"}}"
    );
}

#[test]
fn control_characters_get_their_short_or_hex_escapes() {
    let msg = build_stderr_event("\u{8}\u{c}\r\u{1f}");
    assert_eq!(
        String::from_utf8(msg).unwrap(),
        "{\"method\":\"codex/stderr\",\"params\":{\"message\":\"\\b\\f\\r\\u001f\"}}"
    );
}

#[test]
fn multi_byte_text_passes_through_unescaped() {
    let msg = build_stderr_event("héllo ✓");
    assert_eq!(
        String::from_utf8(msg).unwrap(),
        "{\"method\":\"codex/stderr\",\"params\":{\"message\":\"héllo ✓\"}}"
    );
}

#[test]
fn parse_error_event_carries_error_and_raw_line() {
    let msg = build_parse_error_event("expected value", "not-json");
    assert_eq!(
        String::from_utf8(msg).unwrap(),
        "{\"method\":\"codex/parseError\",\"params\":{\"error\":\"expected value\",\"raw\":\"not-json\"}}"
    );
}

#[test]
fn connected_event_names_the_workspace() {
    let msg = build_connected_event("ws-42");
    assert_eq!(
        String::from_utf8(msg).unwrap(),
        "{\"method\":\"codex/connected\",\"params\":{\"workspaceId\":\"ws-42\"}}"
    );
}

#[test]
fn disconnected_event_names_the_workspace() {
    let msg = build_disconnected_event("ws-42");
    assert_eq!(
        String::from_utf8(msg).unwrap(),
        "{\"method\":\"codex/disconnected\",\"params\":{\"workspaceId\":\"ws-42\"}}"
    );
}

#[test]
fn frames_end_with_exactly_one_newline() {
    let params = b"null".to_vec();
    let line = build_request(12, "turn/start", &params);
    assert_eq!(
        String::from_utf8(line).unwrap(),
        "{\"id\":12,\"method\":\"turn/start\",\"params\":null}\n"
    );
    assert_eq!(
        build_notification("initialized", None),
        b"{\"method\":\"initialized\"}\n".to_vec()
    );
    assert_eq!(build_response(0, &params), b"{\"id\":0,\"result\":null}\n".to_vec());
}
