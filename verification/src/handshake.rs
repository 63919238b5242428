//! The bounded-time initialization sequence run once per session: what to
//! send, and what to do with each possible outcome of the `initialize`
//! request. Only the caller can await or kill a process, so the decision
//! comes back as a value it must act on.

use vstd::prelude::*;

verus! {

use vstd::string::StringSliceAdditionalSpecFns;
use vstd::string::StringExecFns;
use crate::inbound::{field_present, rendered_of, value_has_field, value_to_string};
use crate::protocol::{
    notification_frame, connected_event, build_notification, build_connected_event,
};
use crate::text::append_str;

/// How long the `initialize` request may wait for its response, in seconds.
pub const HANDSHAKE_TIMEOUT_SECS: u64 = 15;

/// The params of the `initialize` request: the client identifying itself.
pub open spec fn initialize_params_text() -> Seq<u8> {
    "{\"clientInfo\":{\"name\":\"codex_monitor\",\"title\":\"CodexMonitor\",\"version\":\"0.1.0\"}}".spec_bytes()
}

/// Builds the params of the `initialize` request.
pub fn initialize_params() -> (params: Vec<u8>)
    ensures
        params@ == initialize_params_text(),
{
    let mut out: Vec<u8> = Vec::new();
    append_str(
        &mut out,
        "{\"clientInfo\":{\"name\":\"codex_monitor\",\"title\":\"CodexMonitor\",\"version\":\"0.1.0\"}}",
    );
    proof {
        assert(out@ =~= initialize_params_text());
    }
    out
}

/// How the awaited `initialize` request came back.
pub enum InitOutcome {
    /// No response arrived within the handshake deadline.
    TimedOut,
    /// The pending request was canceled before a response arrived; the
    /// cancellation error's text.
    Canceled { error: String },
    /// A response arrived and fulfilled the request.
    Answered { value: serde_json::Value },
}

/// What the spawner must do next.
pub enum HandshakeDecision {
    /// The spawn fails with this error; when `kill` is set the process must
    /// first be forcibly terminated. No session is handed to the registry.
    Fail { kill: bool, error: String },
    /// The handshake succeeded: write the `initialized` notification, emit
    /// the connected notice, and only then hand the session out.
    Proceed { initialized_line: Vec<u8>, connected: Vec<u8> },
}

/// Decides the rest of the handshake from the outcome of `initialize`.
///
/// A deadline expiry turns into a failure that kills the process, so a spawn
/// can never hang on an unresponsive binary; a cancellation propagates its
/// error; a response that carries an `error` field fails the spawn and also
/// terminates the process; any other response completes the handshake.
pub fn decide_after_initialize(outcome: InitOutcome, workspace_id: &str) -> (r: HandshakeDecision)
    ensures
        match outcome {
            InitOutcome::TimedOut => r matches HandshakeDecision::Fail { kill, error } && kill
                && error@
                == "Codex app-server did not respond to initialize. Check that `codex app-server` works in Terminal."@,
            InitOutcome::Canceled { error: e } => r matches HandshakeDecision::Fail {
                kill,
                error,
            } && !kill && error@ == e@,
            InitOutcome::Answered { value } => {
                &&& field_present(value, "error"@) ==> (r matches HandshakeDecision::Fail {
                    kill,
                    error,
                } && kill && error@ == "initialize failed: "@ + rendered_of(value))
                &&& !field_present(value, "error"@) ==> (r matches HandshakeDecision::Proceed {
                    initialized_line,
                    connected,
                } && initialized_line@ == notification_frame("initialized".spec_bytes(), None)
                    && connected@ == connected_event(workspace_id.spec_bytes()))
            },
        },
{
    match outcome {
        InitOutcome::TimedOut => HandshakeDecision::Fail {
            kill: true,
            error: String::from_str(
                "Codex app-server did not respond to initialize. Check that `codex app-server` works in Terminal.",
            ),
        },
        InitOutcome::Canceled { error } => HandshakeDecision::Fail { kill: false, error },
        InitOutcome::Answered { value } => {
            if value_has_field(&value, "error") {
                let rendered = value_to_string(&value);
                let mut msg = String::from_str("initialize failed: ");
                msg.append(rendered.as_str());
                proof {
                    assert(msg@ == "initialize failed: "@ + rendered@);
                }
                HandshakeDecision::Fail { kill: true, error: msg }
            } else {
                HandshakeDecision::Proceed {
                    initialized_line: build_notification("initialized", None),
                    connected: build_connected_event(workspace_id),
                }
            }
        },
    }
}

} // verus!
