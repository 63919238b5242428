//! The application-facing command surface: each operation builds its exact
//! parameter payload and resolves to one request or response frame on the
//! session identified by the caller.
//!
//! The caller looks the session up by workspace id (failing with its
//! unknown-workspace condition when none is registered), writes the returned
//! frame, and awaits the returned id.

use vstd::prelude::*;

verus! {

use vstd::string::StringSliceAdditionalSpecFns;
use vstd::string::StringExecFns;
use vstd::string::StrSliceExecFns;
use crate::inbound::{rendered_of, value_to_string};
use crate::protocol::{quoted, request_frame, response_frame, append_quoted};
use crate::session::{SessionCore, request_step};
use crate::text::{dec_digits, utf8_bytes, append_str, append_dec, append_bytes};

/// `{"cwd":<cwd>,"approvalPolicy":"on-request"}`.
pub open spec fn start_thread_params(cwd: Seq<u8>) -> Seq<u8> {
    "{\"cwd\":".spec_bytes() + quoted(cwd) + ",\"approvalPolicy\":\"on-request\"}".spec_bytes()
}

/// `{"threadId":<thread_id>}`.
pub open spec fn thread_id_params(thread_id: Seq<u8>) -> Seq<u8> {
    "{\"threadId\":".spec_bytes() + quoted(thread_id) + "}".spec_bytes()
}

/// The bytes of an optional string argument.
pub open spec fn opt_string_bytes(v: Option<&String>) -> Option<Seq<u8>> {
    match v {
        Some(s) => Some(utf8_bytes(s@)),
        None => None,
    }
}

/// A string field's value, or `null` when absent.
pub open spec fn opt_quoted(v: Option<Seq<u8>>) -> Seq<u8> {
    match v {
        Some(s) => quoted(s),
        None => "null".spec_bytes(),
    }
}

/// `{"cursor":<cursor or null>,"limit":<limit or null>}`.
pub open spec fn list_threads_params(cursor: Option<Seq<u8>>, limit: Option<u32>) -> Seq<u8> {
    "{\"cursor\":".spec_bytes() + opt_quoted(cursor) + ",\"limit\":".spec_bytes() + (match limit {
        Some(n) => dec_digits(n as nat),
        None => "null".spec_bytes(),
    }) + "}".spec_bytes()
}

/// The sandbox policy an access mode resolves to: full access is
/// unrestricted, read-only forbids writes, and anything else may write within
/// the workspace root with network access.
pub open spec fn sandbox_policy_json(mode: Seq<char>, cwd: Seq<u8>) -> Seq<u8> {
    if mode == "full-access"@ {
        "{\"type\":\"dangerFullAccess\"}".spec_bytes()
    } else if mode == "read-only"@ {
        "{\"type\":\"readOnly\"}".spec_bytes()
    } else {
        "{\"type\":\"workspaceWrite\",\"writableRoots\":[".spec_bytes() + quoted(cwd)
            + "],\"networkAccess\":true}".spec_bytes()
    }
}

/// Full access needs no approval; every other mode asks on request.
pub open spec fn approval_policy_json(mode: Seq<char>) -> Seq<u8> {
    if mode == "full-access"@ {
        "\"never\"".spec_bytes()
    } else {
        "\"on-request\"".spec_bytes()
    }
}

/// The params of a user turn: the message as a single text input, the
/// workspace root, and the policies the access mode resolves to.
pub open spec fn send_user_message_params(
    thread_id: Seq<u8>,
    text: Seq<u8>,
    cwd: Seq<u8>,
    mode: Seq<char>,
    model: Option<Seq<u8>>,
    effort: Option<Seq<u8>>,
) -> Seq<u8> {
    "{\"threadId\":".spec_bytes() + quoted(thread_id) + ",\"input\":[{\"type\":\"text\",\"text\":".spec_bytes()
        + quoted(text) + "}],\"cwd\":".spec_bytes() + quoted(cwd)
        + ",\"approvalPolicy\":".spec_bytes() + approval_policy_json(mode)
        + ",\"sandboxPolicy\":".spec_bytes() + sandbox_policy_json(mode, cwd)
        + ",\"model\":".spec_bytes() + opt_quoted(model) + ",\"effort\":".spec_bytes()
        + opt_quoted(effort) + "}".spec_bytes()
}

/// `{"threadId":<thread_id>,"turnId":<turn_id>}`.
pub open spec fn turn_interrupt_params(thread_id: Seq<u8>, turn_id: Seq<u8>) -> Seq<u8> {
    "{\"threadId\":".spec_bytes() + quoted(thread_id) + ",\"turnId\":".spec_bytes() + quoted(
        turn_id,
    ) + "}".spec_bytes()
}

/// `{"threadId":<thread_id>,"target":<target>}`, with the delivery mode when
/// one was chosen.
pub open spec fn start_review_params(
    thread_id: Seq<u8>,
    target: Seq<u8>,
    delivery: Option<Seq<u8>>,
) -> Seq<u8> {
    "{\"threadId\":".spec_bytes() + quoted(thread_id) + ",\"target\":".spec_bytes() + target
        + (match delivery {
        Some(d) => ",\"delivery\":".spec_bytes() + quoted(d),
        None => Seq::<u8>::empty(),
    }) + "}".spec_bytes()
}

/// `{"cwd":<cwd>}`.
pub open spec fn skills_list_params(cwd: Seq<u8>) -> Seq<u8> {
    "{\"cwd\":".spec_bytes() + quoted(cwd) + "}".spec_bytes()
}

fn append_opt_quoted(out: &mut Vec<u8>, v: Option<&String>)
    ensures
        final(out)@ == old(out)@ + opt_quoted(
            match v {
                Some(s) => Some(utf8_bytes(s@)),
                None => None,
            },
        ),
{
    match v {
        Some(s) => {
            let s_str = s.as_str();
            append_quoted(out, s_str);
        },
        None => append_str(out, "null"),
    }
}

/// Starts a new thread in the workspace root.
pub fn start_thread(session: &mut SessionCore, cwd: &str) -> (r: (u64, Vec<u8>))
    requires
        old(session).wf(),
        old(session).next_id < u64::MAX,
    ensures
        final(session).wf(),
        request_step(*old(session), *final(session), r.0),
        r.1@ == request_frame(r.0, "thread/start".spec_bytes(), start_thread_params(
            cwd.spec_bytes(),
        )),
{
    let mut params: Vec<u8> = Vec::new();
    append_str(&mut params, "{\"cwd\":");
    append_quoted(&mut params, cwd);
    append_str(&mut params, ",\"approvalPolicy\":\"on-request\"}");
    proof {
        assert(params@ =~= start_thread_params(cwd.spec_bytes()));
    }
    session.send_request("thread/start", &params)
}

/// Resumes an existing thread by id.
pub fn resume_thread(session: &mut SessionCore, thread_id: &str) -> (r: (u64, Vec<u8>))
    requires
        old(session).wf(),
        old(session).next_id < u64::MAX,
    ensures
        final(session).wf(),
        request_step(*old(session), *final(session), r.0),
        r.1@ == request_frame(r.0, "thread/resume".spec_bytes(), thread_id_params(
            thread_id.spec_bytes(),
        )),
{
    let params = build_thread_id_params(thread_id);
    session.send_request("thread/resume", &params)
}

/// Archives a thread by id.
pub fn archive_thread(session: &mut SessionCore, thread_id: &str) -> (r: (u64, Vec<u8>))
    requires
        old(session).wf(),
        old(session).next_id < u64::MAX,
    ensures
        final(session).wf(),
        request_step(*old(session), *final(session), r.0),
        r.1@ == request_frame(r.0, "thread/archive".spec_bytes(), thread_id_params(
            thread_id.spec_bytes(),
        )),
{
    let params = build_thread_id_params(thread_id);
    session.send_request("thread/archive", &params)
}

fn build_thread_id_params(thread_id: &str) -> (params: Vec<u8>)
    ensures
        params@ == thread_id_params(thread_id.spec_bytes()),
{
    let mut params: Vec<u8> = Vec::new();
    append_str(&mut params, "{\"threadId\":");
    append_quoted(&mut params, thread_id);
    append_str(&mut params, "}");
    proof {
        assert(params@ =~= thread_id_params(thread_id.spec_bytes()));
    }
    params
}

/// Lists threads, with an optional paging cursor and page size.
pub fn list_threads(session: &mut SessionCore, cursor: Option<&String>, limit: Option<u32>) -> (r:
    (u64, Vec<u8>))
    requires
        old(session).wf(),
        old(session).next_id < u64::MAX,
    ensures
        final(session).wf(),
        request_step(*old(session), *final(session), r.0),
        r.1@ == request_frame(r.0, "thread/list".spec_bytes(), list_threads_params(
            match cursor {
                Some(c) => Some(utf8_bytes(c@)),
                None => None,
            },
            limit,
        )),
{
    let mut params: Vec<u8> = Vec::new();
    append_str(&mut params, "{\"cursor\":");
    append_opt_quoted(&mut params, cursor);
    append_str(&mut params, ",\"limit\":");
    match limit {
        Some(n) => append_dec(&mut params, n as u64),
        None => append_str(&mut params, "null"),
    }
    append_str(&mut params, "}");
    proof {
        assert(params@ =~= list_threads_params(
            match cursor {
                Some(c) => Some(utf8_bytes(c@)),
                None => None,
            },
            limit,
        ));
    }
    session.send_request("thread/list", &params)
}

/// Sends a user message: resolves the access mode to its sandbox and
/// approval policies and starts a turn.
pub fn send_user_message(
    session: &mut SessionCore,
    thread_id: &str,
    text: &str,
    model: Option<&String>,
    effort: Option<&String>,
    access_mode: Option<&String>,
    cwd: &str,
) -> (r: (u64, Vec<u8>))
    requires
        old(session).wf(),
        old(session).next_id < u64::MAX,
    ensures
        final(session).wf(),
        request_step(*old(session), *final(session), r.0),
        r.1@ == request_frame(r.0, "turn/start".spec_bytes(), send_user_message_params(
            thread_id.spec_bytes(),
            text.spec_bytes(),
            cwd.spec_bytes(),
            match access_mode {
                Some(m) => m@,
                None => "current"@,
            },
            match model {
                Some(m) => Some(utf8_bytes(m@)),
                None => None,
            },
            match effort {
                Some(e) => Some(utf8_bytes(e@)),
                None => None,
            },
        )),
{
    let ghost mode: Seq<char> = match access_mode {
        Some(m) => m@,
        None => "current"@,
    };
    let full_access: bool = match access_mode {
        Some(m) => m.eq(&String::from_str("full-access")),
        None => false,
    };
    let read_only: bool = match access_mode {
        Some(m) => m.eq(&String::from_str("read-only")),
        None => false,
    };
    proof {
        if access_mode is None {
            reveal_strlit("current");
            reveal_strlit("full-access");
            reveal_strlit("read-only");
            assert("current"@.len() == 7);
            assert("full-access"@.len() == 11);
            assert("read-only"@.len() == 9);
            assert(mode != "full-access"@);
            assert(mode != "read-only"@);
        }
        assert(full_access == (mode == "full-access"@));
        assert(read_only == (mode == "read-only"@));
    }
    let mut params: Vec<u8> = Vec::new();
    append_str(&mut params, "{\"threadId\":");
    append_quoted(&mut params, thread_id);
    append_str(&mut params, ",\"input\":[{\"type\":\"text\",\"text\":");
    append_quoted(&mut params, text);
    append_str(&mut params, "}],\"cwd\":");
    append_quoted(&mut params, cwd);
    append_str(&mut params, ",\"approvalPolicy\":");
    if full_access {
        append_str(&mut params, "\"never\"");
    } else {
        append_str(&mut params, "\"on-request\"");
    }
    append_str(&mut params, ",\"sandboxPolicy\":");
    if full_access {
        append_str(&mut params, "{\"type\":\"dangerFullAccess\"}");
    } else if read_only {
        append_str(&mut params, "{\"type\":\"readOnly\"}");
    } else {
        append_str(&mut params, "{\"type\":\"workspaceWrite\",\"writableRoots\":[");
        append_quoted(&mut params, cwd);
        append_str(&mut params, "],\"networkAccess\":true}");
    }
    append_str(&mut params, ",\"model\":");
    append_opt_quoted(&mut params, model);
    append_str(&mut params, ",\"effort\":");
    append_opt_quoted(&mut params, effort);
    append_str(&mut params, "}");
    proof {
        assert(params@ =~= send_user_message_params(
            thread_id.spec_bytes(),
            text.spec_bytes(),
            cwd.spec_bytes(),
            mode,
            match model {
                Some(m) => Some(utf8_bytes(m@)),
                None => None,
            },
            match effort {
                Some(e) => Some(utf8_bytes(e@)),
                None => None,
            },
        ));
    }
    session.send_request("turn/start", &params)
}

/// Interrupts a running turn.
pub fn turn_interrupt(session: &mut SessionCore, thread_id: &str, turn_id: &str) -> (r: (
    u64,
    Vec<u8>,
))
    requires
        old(session).wf(),
        old(session).next_id < u64::MAX,
    ensures
        final(session).wf(),
        request_step(*old(session), *final(session), r.0),
        r.1@ == request_frame(r.0, "turn/interrupt".spec_bytes(), turn_interrupt_params(
            thread_id.spec_bytes(),
            turn_id.spec_bytes(),
        )),
{
    let mut params: Vec<u8> = Vec::new();
    append_str(&mut params, "{\"threadId\":");
    append_quoted(&mut params, thread_id);
    append_str(&mut params, ",\"turnId\":");
    append_quoted(&mut params, turn_id);
    append_str(&mut params, "}");
    proof {
        assert(params@ =~= turn_interrupt_params(thread_id.spec_bytes(), turn_id.spec_bytes()));
    }
    session.send_request("turn/interrupt", &params)
}

/// Starts a review of the given target; the target payload is rendered as it
/// came from the caller.
pub fn start_review(
    session: &mut SessionCore,
    thread_id: &str,
    target: &serde_json::Value,
    delivery: Option<&String>,
) -> (r: (u64, Vec<u8>))
    requires
        old(session).wf(),
        old(session).next_id < u64::MAX,
    ensures
        final(session).wf(),
        request_step(*old(session), *final(session), r.0),
        r.1@ == request_frame(r.0, "review/start".spec_bytes(), start_review_params(
            thread_id.spec_bytes(),
            utf8_bytes(rendered_of(*target)),
            opt_string_bytes(delivery),
        )),
{
    let rendered = value_to_string(target);
    let target_bytes = rendered.as_str().as_bytes_vec();
    let mut params: Vec<u8> = Vec::new();
    append_str(&mut params, "{\"threadId\":");
    append_quoted(&mut params, thread_id);
    append_str(&mut params, ",\"target\":");
    append_bytes(&mut params, &target_bytes);
    match delivery {
        Some(d) => {
            append_str(&mut params, ",\"delivery\":");
            append_quoted(&mut params, d.as_str());
        },
        None => {},
    }
    append_str(&mut params, "}");
    proof {
        assert(params@ =~= start_review_params(
            thread_id.spec_bytes(),
            target_bytes@,
            opt_string_bytes(delivery),
        ));
    }
    session.send_request("review/start", &params)
}

/// Lists the models the agent offers.
pub fn model_list(session: &mut SessionCore) -> (r: (u64, Vec<u8>))
    requires
        old(session).wf(),
        old(session).next_id < u64::MAX,
    ensures
        final(session).wf(),
        request_step(*old(session), *final(session), r.0),
        r.1@ == request_frame(r.0, "model/list".spec_bytes(), "{}".spec_bytes()),
{
    let mut params: Vec<u8> = Vec::new();
    append_str(&mut params, "{}");
    proof {
        assert(params@ =~= "{}".spec_bytes());
    }
    session.send_request("model/list", &params)
}

/// Reads the account's rate limits; the request carries a null payload.
pub fn account_rate_limits(session: &mut SessionCore) -> (r: (u64, Vec<u8>))
    requires
        old(session).wf(),
        old(session).next_id < u64::MAX,
    ensures
        final(session).wf(),
        request_step(*old(session), *final(session), r.0),
        r.1@ == request_frame(r.0, "account/rateLimits/read".spec_bytes(), "null".spec_bytes()),
{
    let mut params: Vec<u8> = Vec::new();
    append_str(&mut params, "null");
    proof {
        assert(params@ =~= "null".spec_bytes());
    }
    session.send_request("account/rateLimits/read", &params)
}

/// Lists the skills available in the workspace root.
pub fn skills_list(session: &mut SessionCore, cwd: &str) -> (r: (u64, Vec<u8>))
    requires
        old(session).wf(),
        old(session).next_id < u64::MAX,
    ensures
        final(session).wf(),
        request_step(*old(session), *final(session), r.0),
        r.1@ == request_frame(r.0, "skills/list".spec_bytes(), skills_list_params(
            cwd.spec_bytes(),
        )),
{
    let mut params: Vec<u8> = Vec::new();
    append_str(&mut params, "{\"cwd\":");
    append_quoted(&mut params, cwd);
    append_str(&mut params, "}");
    proof {
        assert(params@ =~= skills_list_params(cwd.spec_bytes()));
    }
    session.send_request("skills/list", &params)
}

/// Answers a server request seen on the output stream, by its id; the result
/// payload is rendered as it came from the caller.
pub fn respond_to_server_request(session: &SessionCore, request_id: u64, result: &serde_json::Value)
    -> (line: Vec<u8>)
    ensures
        line@ == response_frame(request_id, utf8_bytes(rendered_of(*result))),
{
    let rendered = value_to_string(result);
    let result_bytes = rendered.as_str().as_bytes_vec();
    let line = session.send_response(request_id, &result_bytes);
    proof {
        assert(line@ == response_frame(request_id, result_bytes@));
    }
    line
}

} // verus!
