use codex_core::doctor::{
    app_server_ready, build_doctor_report, check_codex_installation, interpret_node_probe,
    NodeReport, ProbeOutcome, PROBE_TIMEOUT_SECS,
};

fn exited(success: bool, stdout: &str, stderr: &str) -> ProbeOutcome {
    ProbeOutcome::Exited {
        success,
        stdout: String::from(stdout),
        stderr: String::from(stderr),
    }
}

#[test]
fn probe_timeout_is_fixed() {
    assert_eq!(PROBE_TIMEOUT_SECS, 5);
}

#[test]
fn version_check_trims_and_reads_the_output() {
    assert_eq!(
        check_codex_installation(exited(true, "  codex-cli 1.2.3 \n", "")),
        Ok(Some(String::from("codex-cli 1.2.3")))
    );
    assert_eq!(check_codex_installation(exited(true, "   \n", "ignored")), Ok(None));
}

#[test]
fn version_check_failures_carry_guidance() {
    assert_eq!(
        check_codex_installation(ProbeOutcome::NotFound),
        Err(String::from(
            "Codex CLI not found. Install Codex and ensure `codex` is on your PATH."
        ))
    );
    assert_eq!(
        check_codex_installation(ProbeOutcome::TimedOut),
        Err(String::from(
            "Timed out while checking Codex CLI. Make sure `codex --version` runs in Terminal."
        ))
    );
    assert_eq!(
        check_codex_installation(exited(false, "", " boom ")),
        Err(String::from(
            "Codex CLI failed to start: boom. Try running `codex --version` in Terminal."
        ))
    );
    assert_eq!(
        check_codex_installation(exited(false, "out detail", "")),
        Err(String::from(
            "Codex CLI failed to start: out detail. Try running `codex --version` in Terminal."
        ))
    );
    assert_eq!(
        check_codex_installation(exited(false, " ", " ")),
        Err(String::from(
            "Codex CLI failed to start. Try running `codex --version` in Terminal."
        ))
    );
    assert_eq!(
        check_codex_installation(ProbeOutcome::LaunchFailed { detail: String::from("denied") }),
        Err(String::from("denied"))
    );
}

#[test]
fn readiness_counts_only_a_successful_exit() {
    assert!(app_server_ready(&exited(true, "", "")));
    assert!(!app_server_ready(&exited(false, "", "")));
    assert!(!app_server_ready(&ProbeOutcome::NotFound));
    assert!(!app_server_ready(&ProbeOutcome::TimedOut));
}

#[test]
fn node_probe_is_interpreted_independently() {
    let ok = interpret_node_probe(exited(true, "v20.1.0\n", ""));
    assert!(ok.ok);
    assert_eq!(ok.version, Some(String::from("v20.1.0")));
    assert_eq!(ok.details, None);

    let missing = interpret_node_probe(ProbeOutcome::NotFound);
    assert!(!missing.ok);
    assert_eq!(missing.version, None);
    assert_eq!(missing.details, Some(String::from("Node not found on PATH.")));

    let silent = interpret_node_probe(exited(true, "", ""));
    assert!(!silent.ok);
    assert_eq!(silent.version, None);

    let failed = interpret_node_probe(exited(false, "", ""));
    assert_eq!(failed.details, Some(String::from("Node failed to start.")));

    let timed = interpret_node_probe(ProbeOutcome::TimedOut);
    assert_eq!(timed.details, Some(String::from("Timed out while checking Node.")));
}

#[test]
fn absent_binary_yields_a_report_not_an_error() {
    let version = check_codex_installation(ProbeOutcome::NotFound);
    let node = interpret_node_probe(exited(true, "v20.1.0\n", ""));
    let report = build_doctor_report(
        None,
        Some(String::from("/usr/bin:/bin")),
        version,
        false,
        node,
    );
    assert!(!report.ok);
    assert_eq!(report.version, None);
    let details = report.details.expect("a failure must be explained");
    assert!(!details.is_empty());
    assert!(report.node_ok);
    assert_eq!(report.node_version, Some(String::from("v20.1.0")));
    assert_eq!(report.node_details, None);
    assert_eq!(report.path, Some(String::from("/usr/bin:/bin")));
}

#[test]
fn healthy_probes_yield_an_ok_report() {
    let version = check_codex_installation(exited(true, "1.0.0", ""));
    let node = interpret_node_probe(ProbeOutcome::NotFound);
    let report = build_doctor_report(
        Some(String::from("codex")),
        None,
        version,
        true,
        node,
    );
    assert!(report.ok);
    assert!(report.app_server_ok);
    assert_eq!(report.version, Some(String::from("1.0.0")));
    assert_eq!(report.details, None);
    assert_eq!(report.codex_bin, Some(String::from("codex")));
    assert!(!report.node_ok);
}

#[test]
fn readiness_failure_alone_is_reported() {
    let version = check_codex_installation(exited(true, "1.0.0", ""));
    let node = interpret_node_probe(exited(true, "v20", ""));
    let report = build_doctor_report(None, None, version, false, node);
    assert!(!report.ok);
    assert_eq!(report.version, Some(String::from("1.0.0")));
    assert_eq!(
        report.details,
        Some(String::from("Failed to run `codex app-server --help`."))
    );
    let _ = NodeReport { ok: false, version: None, details: None };
}
