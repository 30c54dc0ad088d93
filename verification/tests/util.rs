//! Names, versions and the runtime's answers.

use sodagun::util::{
    check_msb_version, dashify, is_terminal_status, judge_msb_version, map_sandbox_err,
    map_snapshot_err, parse_msb_version, status_label, MsbProbe, RuntimeError, RuntimeErrorKind, SandboxStatus,
    REQUIRED_MSB_VERSION,
};

#[test]
fn dashify_collapses_separators() {
    assert_eq!(dashify("feature/my-thing"), "feature-my-thing");
    assert_eq!(dashify("feat_underscore/sub"), "feat-underscore-sub");
    assert_eq!(dashify("alpine:latest"), "alpine-latest");
    assert_eq!(dashify("ghcr.io/foo/bar:v1"), "ghcr.io-foo-bar-v1");
}

#[test]
fn dashify_preserves_dots_and_hyphens() {
    assert_eq!(dashify("v1.2.3-rc1"), "v1.2.3-rc1");
}

#[test]
fn dashify_twice_is_dashify_once() {
    let once = dashify("a b@c:d_e/f");
    assert_eq!(once, "a-b-c-d-e-f");
    assert_eq!(dashify(&once), once);
}

#[test]
fn parse_msb_version_full() {
    assert_eq!(parse_msb_version("0.5.4"), Some((0, 5, 4)));
    assert_eq!(parse_msb_version("1.0.0"), Some((1, 0, 0)));
    assert_eq!(parse_msb_version("0.4.6"), Some((0, 4, 6)));
}

#[test]
fn parse_msb_version_two_components_defaults_patch_to_zero() {
    assert_eq!(parse_msb_version("0.5"), Some((0, 5, 0)));
}

#[test]
fn parse_msb_version_invalid_returns_none() {
    assert_eq!(parse_msb_version(""), None);
    assert_eq!(parse_msb_version("abc"), None);
    assert_eq!(parse_msb_version("v0.5.4"), None);
}

#[test]
fn parse_msb_version_edges() {
    assert_eq!(parse_msb_version("0.5.x"), Some((0, 5, 0)));
    assert_eq!(parse_msb_version("4294967295.0"), Some((u32::MAX, 0, 0)));
    assert_eq!(parse_msb_version("4294967296.0"), None);
    assert_eq!(parse_msb_version("1"), None);
    assert_eq!(parse_msb_version("1.2.3.4"), Some((1, 2, 3)));
}

#[test]
fn msb_version_comparison() {
    assert!((0, 5, 4) >= REQUIRED_MSB_VERSION);
    assert!((0, 4, 6) < REQUIRED_MSB_VERSION);
    assert!((0, 6, 0) >= REQUIRED_MSB_VERSION);
    assert!((1, 0, 0) >= REQUIRED_MSB_VERSION);
}

fn ran(stdout: &[u8]) -> MsbProbe {
    MsbProbe::Ran { path: "/usr/bin/msb".to_string(), stdout: stdout.to_vec() }
}

#[test]
fn msb_check_accepts_recent_versions() {
    assert!(check_msb_version(&ran(b"msb 0.5.0\n")).is_ok());
    assert!(check_msb_version(&ran(b"  msb\t1.2.3  extra")).is_ok());
}

#[test]
fn msb_check_complaints() {
    let message = |p: MsbProbe| {
        let e = check_msb_version(&p).unwrap_err();
        assert_eq!(e.code, "SANDBOX_ERROR");
        e.message
    };
    assert_eq!(
        message(MsbProbe::Unresolved("no such file".to_string())),
        "could not resolve msb binary: no such file"
    );
    assert_eq!(
        message(MsbProbe::NotRun("denied".to_string())),
        "failed to run `msb --version`: denied"
    );
    assert_eq!(message(ran(b"msb\n")), "unexpected `msb --version` output: \"msb\\n\"");
    assert_eq!(message(ran(b"msb dev")), "could not parse `msb --version` output: \"msb dev\"");
    assert_eq!(
        message(ran(b"msb 0.4.6\n")),
        "msb at /usr/bin/msb is version 0.4.6, but sodagun requires >= 0.5.0 — run: msb self update"
    );
    assert_eq!(message(ran(b"msb \xff")), "could not parse `msb --version` output: \"msb \u{fffd}\"");
}

#[test]
fn runtime_errors_are_mapped() {
    let e = |kind| RuntimeError { kind, text: "boom".to_string() };
    let m = map_sandbox_err(&e(RuntimeErrorKind::SandboxNotFound), "s");
    assert_eq!((m.code, m.message.as_str()), ("SANDBOX_NOT_FOUND", "sandbox 's' not found"));
    let m = map_sandbox_err(&e(RuntimeErrorKind::SnapshotNotFound), "s");
    assert_eq!((m.code, m.message.as_str()), ("SANDBOX_ERROR", "boom"));
    let m = map_snapshot_err(&e(RuntimeErrorKind::SnapshotNotFound), "n");
    assert_eq!((m.code, m.message.as_str()), ("SNAPSHOT_NOT_FOUND", "snapshot 'n' not found"));
    let m = map_snapshot_err(&e(RuntimeErrorKind::Other), "n");
    assert_eq!((m.code, m.message.as_str()), ("SNAPSHOT_ERROR", "boom"));
}

#[test]
fn statuses() {
    let all = [
        (SandboxStatus::Running, "running", false),
        (SandboxStatus::Draining, "draining", false),
        (SandboxStatus::Paused, "paused", false),
        (SandboxStatus::Stopped, "stopped", true),
        (SandboxStatus::Crashed, "crashed", true),
    ];
    for (s, label, terminal) in all {
        assert_eq!(status_label(s), label);
        assert_eq!(is_terminal_status(s), terminal);
    }
}

#[test]
fn msb_output_is_judged_by_its_second_word() {
    assert!(judge_msb_version("/m", "msb 0.5.0", "").is_ok());
    assert!(judge_msb_version("/m", "msb 0.5.0-rc1", "").is_ok());
    assert!(judge_msb_version("/m", "x 0.4.9 0.9.9", "").is_err());
    let err = judge_msb_version("/m", "msb", "<msb>").unwrap_err();
    assert_eq!(err.message, "unexpected `msb --version` output: <msb>");
}
