//! The health probe: interpreting the outcome of each bounded sub-check and
//! aggregating the three of them into one report. The probe never fails as a
//! whole — a missing binary is a normal, reportable outcome.

use vstd::prelude::*;

verus! {

use vstd::string::StringExecFns;
use crate::strings::{trimmed, trim_ascii};

/// How long each sub-probe may run, in seconds.
pub const PROBE_TIMEOUT_SECS: u64 = 5;

/// What running one probe command came to. The caller runs the command under
/// the probe deadline and reports the outcome as plain values.
pub enum ProbeOutcome {
    /// The binary was not found on the augmented PATH.
    NotFound,
    /// The binary was found but could not be launched; the launch error's
    /// text.
    LaunchFailed { detail: String },
    /// The command did not finish within the probe deadline.
    TimedOut,
    /// The command ran to completion with this status and captured output.
    Exited { success: bool, stdout: String, stderr: String },
}

/// Whether a probe ran to completion successfully.
pub open spec fn probe_success(o: ProbeOutcome) -> bool {
    match o {
        ProbeOutcome::Exited { success, stdout: _, stderr: _ } => success,
        _ => false,
    }
}

/// The detail text of a failed run: the trimmed error stream if it says
/// anything, else the trimmed output stream.
pub open spec fn failure_detail(stdout: Seq<char>, stderr: Seq<char>) -> Seq<char> {
    if trimmed(stderr).len() > 0 {
        trimmed(stderr)
    } else {
        trimmed(stdout)
    }
}

/// The aggregate health report. Every field is plain data; failures are
/// recorded, never raised.
pub struct DoctorReport {
    /// Both the version check and the protocol readiness check passed.
    pub ok: bool,
    /// The binary the probes ran, when an override or a setting named one.
    pub codex_bin: Option<String>,
    /// The trimmed output of the version check, when it succeeded and said
    /// anything.
    pub version: Option<String>,
    /// The protocol readiness check ran and exited successfully.
    pub app_server_ok: bool,
    /// Why the version or readiness check failed, when one did.
    pub details: Option<String>,
    /// The augmented PATH the probes ran under.
    pub path: Option<String>,
    /// The companion runtime responded to its version check.
    pub node_ok: bool,
    /// The companion runtime's trimmed version output, when it gave one.
    pub node_version: Option<String>,
    /// Why the companion runtime check failed, when it did.
    pub node_details: Option<String>,
}

/// Interprets the version probe of the binary: a found, working binary yields
/// its trimmed version text; every failure yields the guidance text the
/// caller surfaces.
pub fn check_codex_installation(outcome: ProbeOutcome) -> (r: Result<Option<String>, String>)
    ensures
        match outcome {
            ProbeOutcome::NotFound => r matches Err(e) && e@
                == "Codex CLI not found. Install Codex and ensure `codex` is on your PATH."@,
            ProbeOutcome::LaunchFailed { detail } => r matches Err(e) && e@ == detail@,
            ProbeOutcome::TimedOut => r matches Err(e) && e@
                == "Timed out while checking Codex CLI. Make sure `codex --version` runs in Terminal."@,
            ProbeOutcome::Exited { success, stdout, stderr } => {
                if success {
                    if trimmed(stdout@).len() == 0 {
                        r matches Ok(v) && v is None
                    } else {
                        r matches Ok(v) && v matches Some(s) && s@ == trimmed(stdout@)
                    }
                } else {
                    if failure_detail(stdout@, stderr@).len() == 0 {
                        r matches Err(e) && e@
                            == "Codex CLI failed to start. Try running `codex --version` in Terminal."@
                    } else {
                        r matches Err(e) && e@ == "Codex CLI failed to start: "@ + failure_detail(
                            stdout@,
                            stderr@,
                        ) + ". Try running `codex --version` in Terminal."@
                    }
                }
            },
        },
{
    match outcome {
        ProbeOutcome::NotFound => Err(
            String::from_str(
                "Codex CLI not found. Install Codex and ensure `codex` is on your PATH.",
            ),
        ),
        ProbeOutcome::LaunchFailed { detail } => Err(detail),
        ProbeOutcome::TimedOut => Err(
            String::from_str(
                "Timed out while checking Codex CLI. Make sure `codex --version` runs in Terminal.",
            ),
        ),
        ProbeOutcome::Exited { success, stdout, stderr } => {
            if success {
                let version = trim_ascii(stdout.as_str());
                if version.as_str().is_empty() {
                    Ok(None)
                } else {
                    Ok(Some(version))
                }
            } else {
                let from_err = trim_ascii(stderr.as_str());
                let detail = if from_err.as_str().is_empty() {
                    trim_ascii(stdout.as_str())
                } else {
                    from_err
                };
                if detail.as_str().is_empty() {
                    Err(
                        String::from_str(
                            "Codex CLI failed to start. Try running `codex --version` in Terminal.",
                        ),
                    )
                } else {
                    let mut msg = String::from_str("Codex CLI failed to start: ");
                    msg.append(detail.as_str());
                    msg.append(". Try running `codex --version` in Terminal.");
                    Err(msg)
                }
            }
        },
    }
}

/// Whether the protocol readiness probe counts as passed: only a run that
/// finished and exited successfully does.
pub fn app_server_ready(outcome: &ProbeOutcome) -> (r: bool)
    ensures
        r == probe_success(*outcome),
{
    match outcome {
        ProbeOutcome::Exited { success, stdout: _, stderr: _ } => *success,
        _ => false,
    }
}

/// The companion runtime's share of the report.
pub struct NodeReport {
    pub ok: bool,
    pub version: Option<String>,
    pub details: Option<String>,
}

/// Interprets the companion runtime's version probe, independently of the
/// binary's own checks.
pub fn interpret_node_probe(outcome: ProbeOutcome) -> (r: NodeReport)
    ensures
        match outcome {
            ProbeOutcome::NotFound => {
                &&& !r.ok
                &&& r.version is None
                &&& r.details matches Some(d) && d@ == "Node not found on PATH."@
            },
            ProbeOutcome::LaunchFailed { detail } => {
                &&& !r.ok
                &&& r.version is None
                &&& r.details matches Some(d) && d@ == detail@
            },
            ProbeOutcome::TimedOut => {
                &&& !r.ok
                &&& r.version is None
                &&& r.details matches Some(d) && d@ == "Timed out while checking Node."@
            },
            ProbeOutcome::Exited { success, stdout, stderr } => {
                if success {
                    &&& r.ok == (trimmed(stdout@).len() != 0)
                    &&& if trimmed(stdout@).len() == 0 {
                        r.version is None
                    } else {
                        r.version matches Some(v) && v@ == trimmed(stdout@)
                    }
                    &&& r.details is None
                } else {
                    &&& !r.ok
                    &&& r.version is None
                    &&& r.details matches Some(d) && d@ == (if failure_detail(
                        stdout@,
                        stderr@,
                    ).len() == 0 {
                        "Node failed to start."@
                    } else {
                        failure_detail(stdout@, stderr@)
                    })
                }
            },
        },
{
    match outcome {
        ProbeOutcome::NotFound => NodeReport {
            ok: false,
            version: None,
            details: Some(String::from_str("Node not found on PATH.")),
        },
        ProbeOutcome::LaunchFailed { detail } => NodeReport {
            ok: false,
            version: None,
            details: Some(detail),
        },
        ProbeOutcome::TimedOut => NodeReport {
            ok: false,
            version: None,
            details: Some(String::from_str("Timed out while checking Node.")),
        },
        ProbeOutcome::Exited { success, stdout, stderr } => {
            if success {
                let version = trim_ascii(stdout.as_str());
                if version.as_str().is_empty() {
                    NodeReport { ok: false, version: None, details: None }
                } else {
                    NodeReport { ok: true, version: Some(version), details: None }
                }
            } else {
                let from_err = trim_ascii(stderr.as_str());
                let detail = if from_err.as_str().is_empty() {
                    trim_ascii(stdout.as_str())
                } else {
                    from_err
                };
                if detail.as_str().is_empty() {
                    NodeReport {
                        ok: false,
                        version: None,
                        details: Some(String::from_str("Node failed to start.")),
                    }
                } else {
                    NodeReport { ok: false, version: None, details: Some(detail) }
                }
            }
        },
    }
}

/// Aggregates the three probe outcomes. The report is `ok` exactly when the
/// version check succeeded and the readiness check passed; a version-check
/// failure is recorded in the details instead of being raised; the companion
/// runtime's fields are carried through untouched, whatever the binary's
/// checks said.
pub fn build_doctor_report(
    resolved: Option<String>,
    path_env: Option<String>,
    version: Result<Option<String>, String>,
    app_server_ok: bool,
    node: NodeReport,
) -> (r: DoctorReport)
    ensures
        r.codex_bin == resolved,
        r.path == path_env,
        r.app_server_ok == app_server_ok,
        r.node_ok == node.ok,
        r.node_version == node.version,
        r.node_details == node.details,
        match version {
            Ok(v) => {
                &&& r.version == v
                &&& r.ok == (v is Some && app_server_ok)
                &&& if app_server_ok {
                    r.details is None
                } else {
                    r.details matches Some(d) && d@ == "Failed to run `codex app-server --help`."@
                }
            },
            Err(e) => {
                &&& r.version is None
                &&& !r.ok
                &&& r.details matches Some(d) && d@ == e@
            },
        },
{
    match version {
        Ok(v) => {
            let ok = v.is_some() && app_server_ok;
            let details = if app_server_ok {
                None
            } else {
                Some(String::from_str("Failed to run `codex app-server --help`."))
            };
            DoctorReport {
                ok,
                codex_bin: resolved,
                version: v,
                app_server_ok,
                details,
                path: path_env,
                node_ok: node.ok,
                node_version: node.version,
                node_details: node.details,
            }
        },
        Err(e) => DoctorReport {
            ok: false,
            codex_bin: resolved,
            version: None,
            app_server_ok,
            details: Some(e),
            path: path_env,
            node_ok: node.ok,
            node_version: node.version,
            node_details: node.details,
        },
    }
}

} // verus!
