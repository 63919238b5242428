use codex_core::commands::{
    account_rate_limits, archive_thread, list_threads, model_list, resume_thread,
    respond_to_server_request, send_user_message, skills_list, start_review, start_thread,
    turn_interrupt,
};
use codex_core::session::SessionCore;

fn session() -> SessionCore {
    SessionCore::new(String::from("ws1"))
}

fn text(line: Vec<u8>) -> String {
    String::from_utf8(line).unwrap()
}

#[test]
fn start_thread_sends_the_workspace_root() {
    let mut s = session();
    let (id, line) = start_thread(&mut s, "/work/repo");
    assert_eq!(id, 1);
    assert_eq!(
        text(line),
        "{\"id\":1,\"method\":\"thread/start\",\"params\":{\"cwd\":\"/work/repo\",\"approvalPolicy\":\"on-request\"}}\n"
    );
}

#[test]
fn resume_and_archive_carry_the_thread_id() {
    let mut s = session();
    let (_, line) = resume_thread(&mut s, "t-1");
    assert_eq!(
        text(line),
        "{\"id\":1,\"method\":\"thread/resume\",\"params\":{\"threadId\":\"t-1\"}}\n"
    );
    let (_, line) = archive_thread(&mut s, "t-1");
    assert_eq!(
        text(line),
        "{\"id\":2,\"method\":\"thread/archive\",\"params\":{\"threadId\":\"t-1\"}}\n"
    );
}

#[test]
fn list_threads_writes_null_for_absent_options() {
    let mut s = session();
    let (_, line) = list_threads(&mut s, None, None);
    assert_eq!(
        text(line),
        "{\"id\":1,\"method\":\"thread/list\",\"params\":{\"cursor\":null,\"limit\":null}}\n"
    );
    let cursor = String::from("abc");
    let (_, line) = list_threads(&mut s, Some(&cursor), Some(50));
    assert_eq!(
        text(line),
        "{\"id\":2,\"method\":\"thread/list\",\"params\":{\"cursor\":\"abc\",\"limit\":50}}\n"
    );
}

#[test]
fn default_access_mode_writes_within_the_workspace() {
    let mut s = session();
    let (_, line) = send_user_message(&mut s, "t-1", "hello", None, None, None, "/w");
    assert_eq!(
        text(line),
        String::from("{\"id\":1,\"method\":\"turn/start\",\"params\":{\"threadId\":\"t-1\",")
            + "\"input\":[{\"type\":\"text\",\"text\":\"hello\"}],\"cwd\":\"/w\","
            + "\"approvalPolicy\":\"on-request\",\"sandboxPolicy\":{\"type\":\"workspaceWrite\","
            + "\"writableRoots\":[\"/w\"],\"networkAccess\":true},\"model\":null,\"effort\":null}}\n"
    );
}

#[test]
fn full_access_mode_needs_no_approval() {
    let mut s = session();
    let mode = String::from("full-access");
    let model = String::from("o3");
    let effort = String::from("high");
    let (_, line) =
        send_user_message(&mut s, "t-1", "go", Some(&model), Some(&effort), Some(&mode), "/w");
    let t = text(line);
    assert!(t.contains("\"approvalPolicy\":\"never\""));
    assert!(t.contains("\"sandboxPolicy\":{\"type\":\"dangerFullAccess\"}"));
    assert!(t.contains("\"model\":\"o3\""));
    assert!(t.contains("\"effort\":\"high\""));
}

#[test]
fn read_only_mode_forbids_writes_but_asks_approval() {
    let mut s = session();
    let mode = String::from("read-only");
    let (_, line) = send_user_message(&mut s, "t-1", "look", None, None, Some(&mode), "/w");
    let t = text(line);
    assert!(t.contains("\"approvalPolicy\":\"on-request\""));
    assert!(t.contains("\"sandboxPolicy\":{\"type\":\"readOnly\"}"));
}

#[test]
fn turn_interrupt_names_thread_and_turn() {
    let mut s = session();
    let (_, line) = turn_interrupt(&mut s, "t-1", "turn-9");
    assert_eq!(
        text(line),
        "{\"id\":1,\"method\":\"turn/interrupt\",\"params\":{\"threadId\":\"t-1\",\"turnId\":\"turn-9\"}}\n"
    );
}

#[test]
fn start_review_embeds_the_target_and_optional_delivery() {
    let mut s = session();
    let target: serde_json::Value =
        serde_json::from_str("{\"type\": \"uncommitted\"}").unwrap();
    let delivery = String::from("inline");
    let (_, line) = start_review(&mut s, "t-1", &target, Some(&delivery));
    assert_eq!(
        text(line),
        String::from("{\"id\":1,\"method\":\"review/start\",\"params\":{\"threadId\":\"t-1\",")
            + "\"target\":{\"type\":\"uncommitted\"},\"delivery\":\"inline\"}}\n"
    );
    let (_, line) = start_review(&mut s, "t-1", &target, None);
    assert_eq!(
        text(line),
        String::from("{\"id\":2,\"method\":\"review/start\",\"params\":{\"threadId\":\"t-1\",")
            + "\"target\":{\"type\":\"uncommitted\"}}}\n"
    );
}

#[test]
fn model_list_and_rate_limits_and_skills() {
    let mut s = session();
    let (_, line) = model_list(&mut s);
    assert_eq!(text(line), "{\"id\":1,\"method\":\"model/list\",\"params\":{}}\n");
    let (_, line) = account_rate_limits(&mut s);
    assert_eq!(
        text(line),
        "{\"id\":2,\"method\":\"account/rateLimits/read\",\"params\":null}\n"
    );
    let (_, line) = skills_list(&mut s, "/w");
    assert_eq!(
        text(line),
        "{\"id\":3,\"method\":\"skills/list\",\"params\":{\"cwd\":\"/w\"}}\n"
    );
}

#[test]
fn responding_to_a_server_request_renders_the_result() {
    let s = session();
    let result: serde_json::Value = serde_json::from_str("{\"ok\": true}").unwrap();
    let line = respond_to_server_request(&s, 7, &result);
    assert_eq!(text(line), "{\"id\":7,\"result\":{\"ok\":true}}\n");
}
