use codex_core::handshake::{
    decide_after_initialize, initialize_params, HandshakeDecision, InitOutcome,
    HANDSHAKE_TIMEOUT_SECS,
};

#[test]
fn handshake_deadline_and_params_are_fixed() {
    assert_eq!(HANDSHAKE_TIMEOUT_SECS, 15);
    assert_eq!(
        String::from_utf8(initialize_params()).unwrap(),
        "{\"clientInfo\":{\"name\":\"codex_monitor\",\"title\":\"CodexMonitor\",\"version\":\"0.1.0\"}}"
    );
}

#[test]
fn handshake_timeout_kills_the_process_and_fails_the_spawn() {
    match decide_after_initialize(InitOutcome::TimedOut, "ws1") {
        HandshakeDecision::Fail { kill, error } => {
            assert!(kill);
            assert_eq!(
                error,
                "Codex app-server did not respond to initialize. Check that `codex app-server` works in Terminal."
            );
        },
        _ => panic!("an unanswered initialize must fail the spawn"),
    }
}

#[test]
fn handshake_cancellation_propagates_its_error() {
    let outcome = InitOutcome::Canceled { error: String::from("request canceled") };
    match decide_after_initialize(outcome, "ws1") {
        HandshakeDecision::Fail { kill, error } => {
            assert!(!kill);
            assert_eq!(error, "request canceled");
        },
        _ => panic!("a canceled initialize must fail the spawn"),
    }
}

#[test]
fn initialize_error_payload_fails_the_spawn() {
    let value: serde_json::Value =
        serde_json::from_str("{\"id\": 1, \"error\": {\"code\": -1}}").unwrap();
    match decide_after_initialize(InitOutcome::Answered { value }, "ws1") {
        HandshakeDecision::Fail { kill, error } => {
            assert!(kill);
            assert_eq!(error, "initialize failed: {\"error\":{\"code\":-1},\"id\":1}");
        },
        _ => panic!("an error payload must fail the spawn"),
    }
}

#[test]
fn successful_initialize_completes_the_handshake() {
    let value: serde_json::Value =
        serde_json::from_str("{\"id\": 1, \"result\": {\"ok\": true}}").unwrap();
    match decide_after_initialize(InitOutcome::Answered { value }, "ws-9") {
        HandshakeDecision::Proceed { initialized_line, connected } => {
            assert_eq!(initialized_line, b"{\"method\":\"initialized\"}\n".to_vec());
            assert_eq!(
                String::from_utf8(connected).unwrap(),
                "{\"method\":\"codex/connected\",\"params\":{\"workspaceId\":\"ws-9\"}}"
            );
        },
        _ => panic!("a clean initialize response must complete the handshake"),
    }
}
