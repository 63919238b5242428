//! The line codec: every outbound message is one JSON object rendered
//! compactly and terminated by a single newline. The exact bytes of each frame
//! are pinned down by spec functions over the byte sequences of their parts.

use vstd::prelude::*;

verus! {

use vstd::string::StringSliceAdditionalSpecFns;
use vstd::string::StrSliceExecFns;
use crate::text::{
    escape_bytes, dec_digits, append_escaped, append_dec, append_str, append_bytes,
};

/// A JSON string literal: the escaped bytes between double quotes.
pub open spec fn quoted(s: Seq<u8>) -> Seq<u8> {
    "\"".spec_bytes() + escape_bytes(s) + "\"".spec_bytes()
}

/// `{"id":<id>,"method":"<method>","params":<params>}` and a newline.
pub open spec fn request_frame(id: u64, method: Seq<u8>, params: Seq<u8>) -> Seq<u8> {
    "{\"id\":".spec_bytes() + dec_digits(id as nat) + ",\"method\":".spec_bytes() + quoted(method)
        + ",\"params\":".spec_bytes() + params + "}\n".spec_bytes()
}

/// `{"method":"<method>"}` or `{"method":"<method>","params":<params>}` and a
/// newline; the params field is omitted entirely when absent.
pub open spec fn notification_frame(method: Seq<u8>, params: Option<Seq<u8>>) -> Seq<u8> {
    match params {
        Some(p) => "{\"method\":".spec_bytes() + quoted(method) + ",\"params\":".spec_bytes() + p
            + "}\n".spec_bytes(),
        None => "{\"method\":".spec_bytes() + quoted(method) + "}\n".spec_bytes(),
    }
}

/// `{"id":<id>,"result":<result>}` and a newline; the frame that answers a
/// server request carries no method field.
pub open spec fn response_frame(id: u64, result: Seq<u8>) -> Seq<u8> {
    "{\"id\":".spec_bytes() + dec_digits(id as nat) + ",\"result\":".spec_bytes() + result
        + "}\n".spec_bytes()
}

/// The synthetic message reporting a line that did not parse as JSON.
pub open spec fn parse_error_event(err: Seq<u8>, raw: Seq<u8>) -> Seq<u8> {
    "{\"method\":\"codex/parseError\",\"params\":{\"error\":".spec_bytes() + quoted(err)
        + ",\"raw\":".spec_bytes() + quoted(raw) + "}}".spec_bytes()
}

/// The synthetic message carrying one line of the process's error stream.
pub open spec fn stderr_event(line: Seq<u8>) -> Seq<u8> {
    "{\"method\":\"codex/stderr\",\"params\":{\"message\":".spec_bytes() + quoted(line)
        + "}}".spec_bytes()
}

/// The synthetic notice that a session finished its handshake.
pub open spec fn connected_event(workspace_id: Seq<u8>) -> Seq<u8> {
    "{\"method\":\"codex/connected\",\"params\":{\"workspaceId\":".spec_bytes()
        + quoted(workspace_id) + "}}".spec_bytes()
}

/// The synthetic notice that a session's process exited and its pending
/// waiters were released.
pub open spec fn disconnected_event(workspace_id: Seq<u8>) -> Seq<u8> {
    "{\"method\":\"codex/disconnected\",\"params\":{\"workspaceId\":".spec_bytes()
        + quoted(workspace_id) + "}}".spec_bytes()
}

/// Appends a quoted, escaped JSON string literal built from `s`.
pub fn append_quoted(out: &mut Vec<u8>, s: &str)
    ensures
        final(out)@ == old(out)@ + quoted(s.spec_bytes()),
{
    let bytes = s.as_bytes_vec();
    append_str(out, "\"");
    append_escaped(out, &bytes);
    append_str(out, "\"");
    proof {
        assert(out@ =~= old(out)@ + quoted(s.spec_bytes()));
    }
}

/// Builds one request frame.
pub fn build_request(id: u64, method: &str, params: &Vec<u8>) -> (line: Vec<u8>)
    ensures
        line@ == request_frame(id, method.spec_bytes(), params@),
{
    let mut out: Vec<u8> = Vec::new();
    append_str(&mut out, "{\"id\":");
    append_dec(&mut out, id);
    append_str(&mut out, ",\"method\":");
    append_quoted(&mut out, method);
    append_str(&mut out, ",\"params\":");
    append_bytes(&mut out, params);
    append_str(&mut out, "}\n");
    proof {
        assert(out@ =~= request_frame(id, method.spec_bytes(), params@));
    }
    out
}

/// Builds one notification frame, leaving the params field out when there are
/// none.
pub fn build_notification(method: &str, params: Option<&Vec<u8>>) -> (line: Vec<u8>)
    ensures
        line@ == notification_frame(
            method.spec_bytes(),
            match params {
                Some(p) => Some(p@),
                None => None,
            },
        ),
{
    let mut out: Vec<u8> = Vec::new();
    append_str(&mut out, "{\"method\":");
    append_quoted(&mut out, method);
    match params {
        Some(p) => {
            append_str(&mut out, ",\"params\":");
            append_bytes(&mut out, p);
            append_str(&mut out, "}\n");
            proof {
                assert(out@ =~= notification_frame(method.spec_bytes(), Some(p@)));
            }
        },
        None => {
            append_str(&mut out, "}\n");
            proof {
                assert(out@ =~= notification_frame(method.spec_bytes(), None));
            }
        },
    }
    out
}

/// Builds one response frame.
pub fn build_response(id: u64, result: &Vec<u8>) -> (line: Vec<u8>)
    ensures
        line@ == response_frame(id, result@),
{
    let mut out: Vec<u8> = Vec::new();
    append_str(&mut out, "{\"id\":");
    append_dec(&mut out, id);
    append_str(&mut out, ",\"result\":");
    append_bytes(&mut out, result);
    append_str(&mut out, "}\n");
    proof {
        assert(out@ =~= response_frame(id, result@));
    }
    out
}

/// Builds the parse-error message for a rejected line.
pub fn build_parse_error_event(err: &str, raw: &str) -> (msg: Vec<u8>)
    ensures
        msg@ == parse_error_event(err.spec_bytes(), raw.spec_bytes()),
{
    let mut out: Vec<u8> = Vec::new();
    append_str(&mut out, "{\"method\":\"codex/parseError\",\"params\":{\"error\":");
    append_quoted(&mut out, err);
    append_str(&mut out, ",\"raw\":");
    append_quoted(&mut out, raw);
    append_str(&mut out, "}}");
    proof {
        assert(out@ =~= parse_error_event(err.spec_bytes(), raw.spec_bytes()));
    }
    out
}

/// Builds the diagnostic message for one line of the error stream.
pub fn build_stderr_event(line: &str) -> (msg: Vec<u8>)
    ensures
        msg@ == stderr_event(line.spec_bytes()),
{
    let mut out: Vec<u8> = Vec::new();
    append_str(&mut out, "{\"method\":\"codex/stderr\",\"params\":{\"message\":");
    append_quoted(&mut out, line);
    append_str(&mut out, "}}");
    proof {
        assert(out@ =~= stderr_event(line.spec_bytes()));
    }
    out
}

/// Builds the connected notice for a workspace.
pub fn build_connected_event(workspace_id: &str) -> (msg: Vec<u8>)
    ensures
        msg@ == connected_event(workspace_id.spec_bytes()),
{
    let mut out: Vec<u8> = Vec::new();
    append_str(&mut out, "{\"method\":\"codex/connected\",\"params\":{\"workspaceId\":");
    append_quoted(&mut out, workspace_id);
    append_str(&mut out, "}}");
    proof {
        assert(out@ =~= connected_event(workspace_id.spec_bytes()));
    }
    out
}

/// Builds the disconnected notice for a workspace, emitted when its process
/// exits so that observers learn the session is gone.
pub fn build_disconnected_event(workspace_id: &str) -> (msg: Vec<u8>)
    ensures
        msg@ == disconnected_event(workspace_id.spec_bytes()),
{
    let mut out: Vec<u8> = Vec::new();
    append_str(&mut out, "{\"method\":\"codex/disconnected\",\"params\":{\"workspaceId\":");
    append_quoted(&mut out, workspace_id);
    append_str(&mut out, "}}");
    proof {
        assert(out@ =~= disconnected_event(workspace_id.spec_bytes()));
    }
    out
}

} // verus!
