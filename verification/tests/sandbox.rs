//! Workspaces and their sandboxes.

use microsandbox_network::policy::Action;
use serde_json::Value;
use sodagun::commands::launch::{
    add_git_access, add_secret, add_variable, allowed_hosts, begin_launch, boot_error, boot_note,
    boot_source, launch_error, BootSource, LaunchPlan,
};
use sodagun::commands::launch_run::LaunchRun;
use sodagun::commands::sandbox::{
    attach_error, attach_invocation, connect_error, exec_error, exec_invocation, hidden_note,
    list_error, list_lines, list_sandboxes, poll_until_stopped, read_sandbox_name, removal_error,
    removal_target, stop_action, stop_error, stop_message, AttachArgs, ExecArgs, Poll, StopAction,
};
use sodagun::commands::start::{
    after_launching, after_reserving, check_start, choose_config, plan_start, repo_config,
    worktree_config, FoundPolicies, ProjectConfig, StartAction, StartArgs, StartPlan,
};
use sodagun::config::{
    default_image_config, merge_sandbox_configs, ConfigAction, ConfigFile, EnvValue, FileRead,
    ImageFileReplies, NamedPolicy, NetworkConfig, RawImageConfig, RawSandboxConfig, SecretConfig,
    UserConfigFile, ValueSource,
};
use sodagun::error::SodagunError;
use sodagun::git_access::{GitAccessSpec, GitMount};
use sodagun::network::policy::CliNetOptions;
use sodagun::table::Table;
use sodagun::util::{RuntimeError, RuntimeErrorKind, SandboxStatus};
use sodagun::values::{
    command_note, control_error, env_value_question, resolve_env_value, resolve_secret_value,
    resolve_value_source, run_value_cmd, secret_question, source_question, validate_value_str,
    CommandOutcome, HostAnswer, HostQuestion,
};
use sodagun::workspace::{RecordWrite, WorkspaceMetadata, METADATA_FILE, WORKSPACE_VERSION};

const ROOT: &str = "/tmp/sodagun_repo_feat_01234567";

fn text(s: &str) -> Option<String> {
    Some(s.to_string())
}

fn fault(e: &SodagunError) -> (&str, &str) {
    (e.code, e.message.as_str())
}

fn meta(sandbox: Option<&str>) -> WorkspaceMetadata {
    let mut m = WorkspaceMetadata::new(
        "/repo".to_string(),
        "main".to_string(),
        "/root/main".to_string(),
    );
    m.sandbox_name = sandbox.map(str::to_string);
    m
}

/// The record as it stands in its file.
fn to_json(m: &WorkspaceMetadata) -> String {
    let mut fields = serde_json::Map::new();
    fields.insert("version".to_string(), Value::from(m.version));
    fields.insert("repo_path".to_string(), Value::from(m.repo_path.as_str()));
    fields.insert("branch".to_string(), Value::from(m.branch.as_str()));
    fields.insert("created_at".to_string(), Value::from(m.created_at.as_str()));
    fields.insert("worktree_path".to_string(), Value::from(m.worktree_path.as_str()));
    fields.insert("sandbox_name".to_string(), Value::from(m.sandbox_name.clone()));
    serde_json::to_string_pretty(&Value::Object(fields)).unwrap()
}

/// What reading that file finds.
fn from_json(contents: &str) -> FileRead<WorkspaceMetadata> {
    let v: Value = match serde_json::from_str(contents) {
        Ok(v) => v,
        Err(e) => return FileRead::Malformed(e.to_string()),
    };
    let field = |name: &str| v[name].as_str().map(str::to_string);
    FileRead::Parsed(WorkspaceMetadata {
        version: v["version"].as_u64().unwrap() as u32,
        repo_path: field("repo_path").unwrap(),
        branch: field("branch").unwrap(),
        created_at: field("created_at").unwrap(),
        worktree_path: field("worktree_path").unwrap(),
        sandbox_name: field("sandbox_name"),
    })
}

// ── Records ──────────────────────────────────────────────────────────────────

#[test]
fn write_and_read_roundtrip() {
    let meta = WorkspaceMetadata::new(
        "/repo/path".to_string(),
        "feature/my-thing".to_string(),
        "/root/feature-my-thing".to_string(),
    );
    let created_at = meta.created_at.clone();
    let stored = to_json(&meta);
    WorkspaceMetadata::write(ROOT, &RecordWrite::Stored).unwrap();
    let read_back = WorkspaceMetadata::read(ROOT, from_json(&stored)).unwrap();
    assert_eq!(read_back.version, WORKSPACE_VERSION);
    assert_eq!(read_back.repo_path, "/repo/path");
    assert_eq!(read_back.branch, "feature/my-thing");
    assert_eq!(read_back.created_at, created_at);
    assert_eq!(read_back.worktree_path, "/root/feature-my-thing");
    assert!(read_back.sandbox_name.is_none());
}

#[test]
fn set_name_is_read_back_from_its_text() {
    let stored = to_json(&meta(Some("sodagun-a-01")));
    let renamed =
        WorkspaceMetadata::set_sandbox_name(ROOT, from_json(&stored), text("sodagun-b-02")).unwrap();
    let read_back = WorkspaceMetadata::read(ROOT, from_json(&to_json(&renamed))).unwrap();
    assert_eq!(read_back.sandbox_name.as_deref(), Some("sodagun-b-02"));
    assert_eq!(read_back.repo_path, "/repo");
    assert_eq!(read_back.branch, "main");
    let err = WorkspaceMetadata::read(ROOT, from_json("{")).unwrap_err();
    assert_eq!(err.code, "WORKSPACE_INVALID");
}

#[test]
fn read_missing_returns_workspace_not_found() {
    let err = WorkspaceMetadata::read(ROOT, FileRead::Missing).unwrap_err();
    assert_eq!(err.code, "WORKSPACE_NOT_FOUND");
    assert_eq!(
        err.message,
        format!("no sodagun.json found in {ROOT}; was this rootdir created by sodagun?")
    );
}

#[test]
fn set_sandbox_name_updates_file() {
    let updated = WorkspaceMetadata::set_sandbox_name(
        ROOT,
        FileRead::Parsed(meta(None)),
        text("sodagun-main-abc123"),
    )
    .unwrap();
    assert_eq!(updated.sandbox_name.as_deref(), Some("sodagun-main-abc123"));
    assert_eq!(updated.repo_path, "/repo");
    let cleared =
        WorkspaceMetadata::set_sandbox_name(ROOT, FileRead::Parsed(updated), None).unwrap();
    assert!(cleared.sandbox_name.is_none());
    let err = WorkspaceMetadata::set_sandbox_name(ROOT, FileRead::Missing, None).unwrap_err();
    assert_eq!(err.code, "WORKSPACE_NOT_FOUND");
}

#[test]
fn record_failures() {
    assert_eq!(WorkspaceMetadata::path("/r"), "/r/sodagun.json");
    assert_eq!(METADATA_FILE, "sodagun.json");
    let err = WorkspaceMetadata::write("/r", &RecordWrite::NotStored("full".to_string())).unwrap_err();
    assert_eq!(fault(&err), ("WORKSPACE_INVALID", "failed to write /r/sodagun.json: full"));
    let err =
        WorkspaceMetadata::write("/r", &RecordWrite::NotSerialized("x".to_string())).unwrap_err();
    assert_eq!(fault(&err), ("WORKSPACE_INVALID", "failed to serialize workspace metadata: x"));
    let err = WorkspaceMetadata::read("/r", FileRead::Unreadable("no".to_string())).unwrap_err();
    assert_eq!(fault(&err), ("WORKSPACE_INVALID", "failed to read /r/sodagun.json: no"));
    let err = WorkspaceMetadata::read("/r", FileRead::Malformed("bad".to_string())).unwrap_err();
    assert_eq!(fault(&err), ("WORKSPACE_INVALID", "malformed sodagun.json in /r: bad"));
}

#[test]
fn records_are_made_at_a_time() {
    let m = WorkspaceMetadata::new_at(
        "/r".to_string(),
        "b".to_string(),
        "/w".to_string(),
        "2026-05-30T12:00:00Z".to_string(),
    );
    assert_eq!(m.created_at, "2026-05-30T12:00:00Z");
    assert_eq!((m.version, m.branch.as_str(), m.worktree_path.as_str()), (1, "b", "/w"));
    assert_eq!(meta(None).created_at.len(), 20);
}

#[test]
fn sandbox_names_come_from_the_record() {
    assert_eq!(read_sandbox_name(ROOT, FileRead::Parsed(meta(Some("s")))).unwrap(), "s");
    let err = read_sandbox_name("/r", FileRead::Parsed(meta(None))).unwrap_err();
    assert_eq!(
        fault(&err),
        ("SANDBOX_NOT_STARTED", "no sandbox has been started for this workspace: /r")
    );
    let err = read_sandbox_name("/r", FileRead::Missing).unwrap_err();
    assert_eq!(err.code, "WORKSPACE_NOT_FOUND");
}

#[test]
fn removal_targets() {
    let (name, orphan) = removal_target(ROOT, FileRead::Parsed(meta(Some("s")))).unwrap();
    assert_eq!((name.as_str(), orphan), ("s", false));
    let (name, orphan) = removal_target(ROOT, FileRead::Parsed(meta(None))).unwrap();
    assert_eq!((name.as_str(), orphan), ("sodagun_repo_feat_01234567", true));
    let err = removal_target("/", FileRead::Parsed(meta(None))).unwrap_err();
    assert_eq!(
        fault(&err),
        ("WORKSPACE_INVALID", "cannot derive sandbox name from workspace path: /")
    );
    let not_found =
        || SodagunError { code: "SANDBOX_NOT_FOUND", message: "sandbox 's' not found".to_string() };
    assert_eq!(removal_error(true, not_found(), "/r").code, "SANDBOX_NOT_STARTED");
    assert_eq!(removal_error(false, not_found(), "/r").code, "SANDBOX_NOT_FOUND");
    let other = SodagunError { code: "SANDBOX_ERROR", message: "x".to_string() };
    assert_eq!(fault(&removal_error(true, other, "/r")), ("SANDBOX_ERROR", "x"));
}

// ── Values ───────────────────────────────────────────────────────────────────

fn source(value: Option<&str>, env: Option<&str>, cmd: Option<&str>) -> ValueSource {
    ValueSource {
        value: value.map(str::to_string),
        value_from_env: env.map(str::to_string),
        value_from_cmd: cmd.map(str::to_string),
    }
}

fn secret(value: Option<&str>, env: Option<&str>, cmd: Option<&str>) -> SecretConfig {
    SecretConfig {
        value: value.map(str::to_string),
        value_from_env: env.map(str::to_string),
        value_from_cmd: cmd.map(str::to_string),
        allowed_hosts: vec!["a.b".to_string(), "*.c".to_string()],
    }
}

fn ended(success: bool, code: Option<i32>, stdout: &[u8]) -> CommandOutcome {
    CommandOutcome::Ended { success, code, stdout: stdout.to_vec() }
}

#[test]
fn commands_give_their_output() {
    assert_eq!(run_value_cmd("V", "echo hello", ended(true, Some(0), b"hello \n\n")).unwrap(), "hello");
    let message = |o| {
        let e = run_value_cmd("V", "exit 1", o).unwrap_err();
        assert_eq!(e.code, "CONFIG_INVALID");
        e.message
    };
    assert_eq!(message(ended(false, Some(1), b"")), "'V': value_from_cmd exited with code 1: exit 1");
    assert_eq!(message(ended(false, None, b"")), "'V': value_from_cmd exited with code -1: exit 1");
    assert_eq!(message(ended(true, Some(0), b"\xff")), "'V': value_from_cmd output is not valid UTF-8");
    assert_eq!(
        message(CommandOutcome::NotRun("gone".to_string())),
        "'V': failed to run value_from_cmd: gone"
    );
    assert_eq!(command_note("V", "c"), "'V': running value_from_cmd: c");
    assert_eq!(
        run_value_cmd("V", "c", ended(true, Some(0), "é\u{2003}".as_bytes())).unwrap(),
        "é"
    );
}

#[test]
fn values_are_single_lines() {
    assert!(validate_value_str("L", "plain é").is_ok());
    for bad in ["a\nb", "\r", "\0", "\u{7f}", "\u{85}"] {
        let e = validate_value_str("L", bad).unwrap_err();
        assert_eq!(e.code, "CONFIG_INVALID");
        assert!(e.message.contains("control character"));
        let c = bad.chars().find(|c| c.is_control()).unwrap();
        assert_eq!(
            e.message,
            format!(
                "'L': value contains a control character ({c:?}); values must be single-line plain text; got: {bad:?}"
            )
        );
    }
}

#[test]
fn control_characters_are_quoted() {
    assert_eq!(
        fault(&control_error("L", "'?'", "\"v\"")),
        (
            "CONFIG_INVALID",
            "'L': value contains a control character ('?'); values must be single-line plain text; got: \"v\""
        )
    );
}

#[test]
fn sources_ask_the_host() {
    assert!(matches!(source_question(&source(Some("v"), None, None)), Some(HostQuestion::Nothing)));
    assert!(matches!(
        source_question(&source(None, Some("E"), None)),
        Some(HostQuestion::Variable(v)) if v == "E"
    ));
    assert!(matches!(
        source_question(&source(None, None, Some("c"))),
        Some(HostQuestion::Command(c)) if c == "c"
    ));
    assert!(source_question(&source(None, None, None)).is_none());
    assert!(source_question(&source(Some("v"), Some("E"), None)).is_none());
    assert!(matches!(
        env_value_question(&EnvValue::Literal("x".to_string())),
        Some(HostQuestion::Nothing)
    ));
    assert!(matches!(
        secret_question(&secret(None, Some("E"), None)),
        Some(HostQuestion::Variable(v)) if v == "E"
    ));
}

#[test]
fn sources_resolve() {
    let v = resolve_value_source("N", &source(Some("a\nb"), None, None), HostAnswer::Nothing).unwrap();
    assert_eq!(v, "a\nb");
    let e = resolve_env_value(
        "N",
        &EnvValue::Dynamic(source(Some("a\nb"), None, None)),
        HostAnswer::Nothing,
    )
    .unwrap_err();
    assert!(e.message.contains("control character"));
    let from_env = EnvValue::Dynamic(source(None, Some("E"), None));
    let v = resolve_env_value("N", &from_env, HostAnswer::Variable(text("x"))).unwrap();
    assert_eq!(v, "x");
    let e = resolve_env_value("N", &from_env, HostAnswer::Variable(None)).unwrap_err();
    assert_eq!(
        fault(&e),
        ("CONFIG_INVALID", "'N' references env var 'E' which is not set")
    );
    let e = resolve_env_value("N", &EnvValue::Dynamic(source(None, None, None)), HostAnswer::Nothing)
        .unwrap_err();
    assert_eq!(
        e.message,
        "'N' must set exactly one of 'value', 'value_from_env', or 'value_from_cmd'"
    );
    let s = secret(None, None, Some("c"));
    let v = resolve_secret_value("N", &s, HostAnswer::Command(ended(true, Some(0), b"tok\n"))).unwrap();
    assert_eq!(v, "tok");
    let e = resolve_secret_value("N", &s, HostAnswer::Command(ended(true, Some(0), b"l1\nl2")))
        .unwrap_err();
    assert!(e.message.contains("control character"));
    let e = resolve_secret_value("N", &secret(None, Some("E"), None), HostAnswer::Variable(None))
        .unwrap_err();
    assert_eq!(e.message, "secret 'N' references env var 'E' which is not set");
    let e = resolve_secret_value("N", &secret(Some("v"), Some("E"), None), HostAnswer::Nothing)
        .unwrap_err();
    assert_eq!(
        e.message,
        "secret 'N' must set exactly one of 'value', 'value_from_env', or 'value_from_cmd'"
    );
}

// ── Starting ─────────────────────────────────────────────────────────────────

fn start_args(workspace: &str) -> StartArgs {
    StartArgs {
        workspace_path: workspace.to_string(),
        config: None,
        net_rules: vec![],
        net_default_egress: None,
        net_default_ingress: None,
    }
}

fn no_policies() -> FoundPolicies {
    FoundPolicies { path: None, file: FileRead::NoPath, dir: None, files: FileRead::NoPath }
}

fn project(sandbox: RawSandboxConfig) -> Option<ProjectConfig> {
    let image = RawImageConfig {
        base_image: text("debian"),
        base_snapshot: None,
        dockerfile: None,
        namespace_repository: None,
        version: None,
        setup_script: None,
        setup_script_path: None,
        setup_files: vec![],
        env: Table::new(),
    };
    Some(ProjectConfig {
        path: "/w/sodagun.toml".to_string(),
        read: FileRead::Parsed(ConfigFile { image: Some(image), sandbox: Some(sandbox), registry: None }),
        replies: ImageFileReplies {
            current_dir: "/cwd".to_string(),
            dockerfile_is_file: false,
            script: Err("none".to_string()),
            setup_files: vec![],
        },
    })
}

#[test]
fn start_needs_a_worktree_without_sandbox() {
    assert!(check_start(&meta(None), true).is_ok());
    let err = check_start(&meta(Some("s")), true).unwrap_err();
    assert_eq!(
        fault(&err),
        (
            "SANDBOX_ALREADY_STARTED",
            "sandbox 's' is already started for this workspace; stop or remove it first"
        )
    );
    let err = check_start(&meta(None), false).unwrap_err();
    assert_eq!(
        fault(&err),
        ("WORKTREE_NOT_FOUND", "worktree path does not exist or is not a directory: /root/main")
    );
}

#[test]
fn one_sandbox_for_a_workspace() {
    let reserved =
        WorkspaceMetadata::set_sandbox_name(ROOT, FileRead::Parsed(meta(None)), text("s")).unwrap();
    assert_eq!(check_start(&reserved, true).unwrap_err().code, "SANDBOX_ALREADY_STARTED");
    let released =
        WorkspaceMetadata::set_sandbox_name(ROOT, FileRead::Parsed(reserved), None).unwrap();
    assert!(check_start(&released, true).is_ok());
    assert!(read_sandbox_name(ROOT, FileRead::Parsed(released)).is_err());
}

#[test]
fn config_is_looked_for_in_order() {
    let m = meta(None);
    assert_eq!(worktree_config(&m), "/root/main/sodagun.toml");
    assert_eq!(repo_config(&m), "/repo/sodagun.toml");
    let given = choose_config(Some("/c.toml"), &m, true, true);
    assert_eq!((given.path.as_deref(), given.note), (Some("/c.toml"), None));
    let c = choose_config(None, &m, true, true);
    assert_eq!((c.path.as_deref(), c.note), (Some("/root/main/sodagun.toml"), None));
    let c = choose_config(None, &m, false, true);
    assert_eq!(c.path.as_deref(), Some("/repo/sodagun.toml"));
    assert_eq!(
        c.note.as_deref(),
        Some("no sodagun.toml in worktree; using project config from /repo/sodagun.toml")
    );
    let c = choose_config(None, &m, false, false);
    assert_eq!((c.path, c.note), (None, None));
}

#[test]
fn start_without_any_config() {
    let plan = plan_start(&start_args(ROOT), None, FileRead::NoPath, no_policies()).unwrap();
    assert_eq!(plan.sandbox_name, "sodagun_repo_feat_01234567");
    assert_eq!(plan.image.base_image.as_deref(), Some("alpine:latest"));
    assert_eq!(plan.sandbox.working_dir, "/workspace");
    assert!(!plan.cli_net.has_config());
    assert!(plan.policies.is_empty());
}

#[test]
fn start_merges_user_and_project() {
    let user = FileRead::Parsed(UserConfigFile {
        sandbox: Some(RawSandboxConfig { cpus: Some(4), memory_mb: Some(1), ..Default::default() }),
        image: None,
        registry: None,
    });
    let mut args = start_args(ROOT);
    args.net_rules = vec!["allow@host:tcp:80".to_string()];
    args.net_default_egress = text("deny");
    let config = project(RawSandboxConfig { memory_mb: Some(2), ..Default::default() });
    let plan = plan_start(&args, config, user, no_policies()).unwrap();
    assert_eq!((plan.sandbox.cpus, plan.sandbox.memory_mb), (4, 2));
    assert_eq!(plan.image.base_image.as_deref(), Some("debian"));
    assert_eq!(plan.cli_net.rules.len(), 1);
    assert_eq!(plan.cli_net.default_egress, Some(ConfigAction::Deny));
    assert_eq!(plan.cli_net.default_ingress, None);
}

#[test]
fn start_failures() {
    let err = plan_start(&start_args("/"), None, FileRead::NoPath, no_policies()).unwrap_err();
    assert_eq!(fault(&err), ("WORKSPACE_INVALID", "workspace path has no directory name: /"));
    let mut args = start_args(ROOT);
    args.net_rules = vec!["nope".to_string()];
    let err = plan_start(&args, None, FileRead::NoPath, no_policies()).unwrap_err();
    assert_eq!(err.code, "CONFIG_INVALID");
    let mut missing = project(RawSandboxConfig::default());
    if let Some(c) = &mut missing {
        c.read = FileRead::Missing;
    }
    let err = plan_start(&args, missing, FileRead::NoPath, no_policies()).unwrap_err();
    assert_eq!(fault(&err), ("CONFIG_NOT_FOUND", "no config file at /w/sodagun.toml"));
    let err = plan_start(&args, None, FileRead::Malformed("m".to_string()), no_policies()).unwrap_err();
    assert_eq!(err.message, "invalid TOML in user config: m");
}

#[test]
fn start_refuses_redefined_builtin_policies() {
    let mut file = Table::new();
    file.insert(
        "none".to_string(),
        NamedPolicy { default_egress: Some(ConfigAction::Allow), default_ingress: None, rules: vec![] },
    );
    let found = FoundPolicies {
        path: Some("/x/sodagun/network-policies.toml".to_string()),
        file: FileRead::Parsed(file),
        dir: None,
        files: FileRead::Missing,
    };
    let err = plan_start(&start_args(ROOT), None, FileRead::NoPath, found).unwrap_err();
    assert_eq!(err.code, "CONFIG_INVALID");
    assert!(err.message.contains("reserved"));
}

#[test]
fn names_are_reserved_and_released() {
    let e = || SodagunError { code: "X", message: "y".to_string() };
    assert!(matches!(after_reserving(Ok(())), StartAction::Launch));
    assert!(matches!(after_reserving(Err(e())), StartAction::Fail(x) if x.code == "X"));
    assert!(matches!(after_launching(Ok(())), StartAction::Report));
    assert!(matches!(after_launching(Err(e())), StartAction::Release(x) if x.code == "X"));
}

// ── Launching ────────────────────────────────────────────────────────────────

fn start_plan(sandbox: RawSandboxConfig) -> StartPlan {
    StartPlan {
        sandbox_name: "s".to_string(),
        image: default_image_config(),
        sandbox: merge_sandbox_configs(None, sandbox).unwrap(),
        policies: Table::new(),
        policies_dir: None,
        cli_net: CliNetOptions { rules: vec![], default_egress: None, default_ingress: None },
    }
}

fn begun(sandbox: RawSandboxConfig) -> LaunchPlan {
    begin_launch(&start_plan(sandbox), Some("/wt"), Some("/home/me")).unwrap()
}

#[test]
fn boot_sources() {
    let mut image = default_image_config();
    assert!(matches!(boot_source(&image), BootSource::Image(i) if i == "alpine:latest"));
    image.setup_script = text("#!/bin/sh\n");
    let boot = boot_source(&image);
    assert!(matches!(&boot, BootSource::ProjectSnapshot(s) if s == "alpine-latest_qAdtPSjSHgIB"));
    assert_eq!(
        boot_note(&boot).as_deref(),
        Some("booting from project snapshot: alpine-latest_qAdtPSjSHgIB")
    );
    image.setup_script = None;
    image.base_image = None;
    assert!(matches!(boot_source(&image), BootSource::Unset));
    assert!(boot_note(&BootSource::Unset).is_none());
    image.base_snapshot = text("snap");
    assert_eq!(boot_note(&boot_source(&image)).as_deref(), Some("booting from snapshot: snap"));
    let e = |kind| RuntimeError { kind, text: "boom".to_string() };
    let err = boot_error("n", &e(RuntimeErrorKind::SnapshotNotFound));
    assert_eq!(
        fault(&err),
        (
            "SNAPSHOT_NOT_FOUND",
            "snapshot 'n' not found — run 'sodagun snapshot create <rootdir>' first"
        )
    );
    assert_eq!(fault(&boot_error("n", &e(RuntimeErrorKind::Other))), ("SNAPSHOT_ERROR", "boom"));
}

#[test]
fn network_is_off_unless_configured() {
    assert!(begun(RawSandboxConfig::default()).network.is_none());
    let mut raw = RawSandboxConfig::default();
    raw.network = NetworkConfig { policy: text("allow-all"), ..Default::default() };
    let launch = begun(raw);
    assert_eq!(launch.network.unwrap().default_egress, Action::Allow);
    let mut plan = start_plan(RawSandboxConfig::default());
    plan.cli_net.default_ingress = Some(ConfigAction::Deny);
    let launch = begin_launch(&plan, Some("/wt"), None).unwrap();
    assert_eq!(launch.network.unwrap().default_ingress, Action::Deny);
    let mut raw = RawSandboxConfig::default();
    raw.network.policy = text("my-nonexistent-policy");
    let err = begin_launch(&start_plan(raw), Some("/wt"), None).unwrap_err();
    assert_eq!(err.code, "CONFIG_INVALID");
}

#[test]
fn worktree_is_mounted_before_volumes() {
    let launch = begun(RawSandboxConfig {
        volumes: vec!["~/x:/x:ro".to_string(), "/y:/y:noexec".to_string()],
        ..Default::default()
    });
    let shown: Vec<(&str, &str, bool, bool)> = launch
        .mounts
        .iter()
        .map(|m| (m.host.as_str(), m.guest.as_str(), m.flags.readonly, m.flags.noexec))
        .collect();
    assert_eq!(
        shown,
        vec![
            ("/wt", "/workspace", false, false),
            ("/home/me/x", "/x", true, false),
            ("/y", "/y", false, true),
        ]
    );
    assert_eq!((launch.name.as_str(), launch.cpus, launch.memory_mb), ("s", 1, 512));
}

#[test]
fn launches_that_cannot_begin() {
    let err = begin_launch(&start_plan(RawSandboxConfig::default()), None, None).unwrap_err();
    assert_eq!(fault(&err), ("CONFIG_INVALID", "worktree path contains non-UTF-8 characters"));
    let raw = RawSandboxConfig { volumes: vec!["~/x:/x".to_string()], ..Default::default() };
    let err = begin_launch(&start_plan(raw), Some("/wt"), None).unwrap_err();
    assert_eq!(err.message, "cannot expand '~' in volume: $HOME is not set");
    assert_eq!(fault(&launch_error("boom")), ("SANDBOX_ERROR", "failed to create sandbox: boom"));
}

#[test]
fn configuration_wins_over_git_variables() {
    let mut raw = RawSandboxConfig::default();
    raw.env.insert("GIT_DIR".to_string(), EnvValue::Literal("/mine".to_string()));
    raw.secrets.insert("GIT_COMMON_DIR".to_string(), secret(Some("s"), None, None));
    let plan = start_plan(raw);
    let launch = begin_launch(&plan, Some("/wt"), None).unwrap();
    let git = GitAccessSpec {
        mounts: vec![GitMount {
            host: "/g".to_string(),
            guest: "/workspace.git".to_string(),
            readonly: true,
        }],
        env: vec![
            ("GIT_DIR".to_string(), "/theirs".to_string()),
            ("GIT_COMMON_DIR".to_string(), "/theirs".to_string()),
            ("GIT_WORK_TREE".to_string(), "/workspace".to_string()),
        ],
    };
    let launch = add_git_access(launch, git, &plan.sandbox);
    assert_eq!(launch.mounts.len(), 2);
    assert!(launch.mounts[1].flags.readonly && !launch.mounts[1].flags.noexec);
    assert_eq!(launch.env, vec![("GIT_WORK_TREE".to_string(), "/workspace".to_string())]);
    let launch = add_variable(
        launch,
        "GIT_DIR",
        plan.sandbox.env.get("GIT_DIR").unwrap(),
        HostAnswer::Nothing,
    )
    .unwrap();
    assert_eq!(launch.env[1], ("GIT_DIR".to_string(), "/mine".to_string()));
}

fn no_git() -> GitAccessSpec {
    GitAccessSpec { mounts: vec![], env: vec![("GIT_DIR".to_string(), "/g".to_string())] }
}

fn asking_config() -> RawSandboxConfig {
    let mut raw = RawSandboxConfig::default();
    raw.env.insert("B".to_string(), EnvValue::Literal("1".to_string()));
    raw.env.insert("A".to_string(), EnvValue::Dynamic(source(None, Some("HOST_A"), None)));
    raw.secrets.insert("K".to_string(), secret(None, None, Some("pass show k")));
    raw.secrets.insert("L".to_string(), secret(Some("plain"), None, None));
    raw
}

#[test]
fn every_variable_and_secret_is_asked_for_in_order() {
    let plan = start_plan(asking_config());
    let launch = begin_launch(&plan, Some("/wt"), None).unwrap();
    let mut run = LaunchRun::new(launch, no_git(), &plan.sandbox);
    let mut asked = vec![];
    while let Some((name, question)) = run.question() {
        let answer = match &question {
            Some(HostQuestion::Variable(v)) => HostAnswer::Variable(Some(format!("value of {v}"))),
            Some(HostQuestion::Command(_)) => HostAnswer::Command(ended(true, Some(0), b"tok\n")),
            _ => HostAnswer::Nothing,
        };
        asked.push(name);
        run = run.answer(answer).unwrap();
    }
    assert_eq!(asked, ["B", "A", "K", "L"]);
    let launch = run.finish();
    let pair = |k: &str, v: &str| (k.to_string(), v.to_string());
    assert_eq!(
        launch.env,
        vec![pair("GIT_DIR", "/g"), pair("B", "1"), pair("A", "value of HOST_A")]
    );
    let secrets: Vec<_> =
        launch.secrets.iter().map(|s| (s.name.as_str(), s.value.as_str(), s.hosts.len())).collect();
    assert_eq!(secrets, [("K", "tok", 2), ("L", "plain", 2)]);
    assert_eq!((launch.name.as_str(), launch.mounts.len()), ("s", 1));
}

#[test]
fn the_first_value_that_fails_ends_a_launch() {
    let plan = start_plan(asking_config());
    let launch = begin_launch(&plan, Some("/wt"), None).unwrap();
    let run = LaunchRun::new(launch, no_git(), &plan.sandbox);
    let run = run.answer(HostAnswer::Nothing).unwrap();
    let err = match run.answer(HostAnswer::Variable(None)) {
        Err(e) => e,
        Ok(_) => panic!("no error"),
    };
    assert_eq!(err.code, "CONFIG_INVALID");
    assert!(err.message.contains("references env var 'HOST_A' which is not set"));
}

#[test]
fn secrets_are_bound_to_hosts() {
    let launch = add_secret(
        begun(RawSandboxConfig::default()),
        "K",
        &secret(None, Some("E"), None),
        HostAnswer::Variable(text("tok")),
    )
    .unwrap();
    assert_eq!(launch.secrets.len(), 1);
    let s = &launch.secrets[0];
    assert_eq!((s.name.as_str(), s.value.as_str()), ("K", "tok"));
    assert_eq!((s.hosts[0].host.as_str(), s.hosts[0].pattern), ("a.b", false));
    assert_eq!((s.hosts[1].host.as_str(), s.hosts[1].pattern), ("*.c", true));
    assert!(allowed_hosts(&vec![]).is_empty());
    let err = add_secret(
        begun(RawSandboxConfig::default()),
        "K",
        &secret(None, Some("E"), None),
        HostAnswer::Variable(None),
    )
    .unwrap_err();
    assert_eq!(err.message, "secret 'K' references env var 'E' which is not set");
}

// ── Running sandboxes ────────────────────────────────────────────────────────

#[test]
fn commands_in_running_sandboxes() {
    let exec = ExecArgs {
        workspace_path: ROOT.to_string(),
        cmd: "cargo".to_string(),
        args: vec!["test".to_string()],
        no_login: true,
        env: vec![],
    };
    let (prog, args) = exec_invocation(&exec, &Table::new());
    assert_eq!((prog.as_str(), args), ("cargo", vec!["test".to_string()]));
    let attach = AttachArgs {
        workspace_path: ROOT.to_string(),
        no_login: false,
        env: vec![],
        cmd: vec![],
    };
    let (prog, args) = attach_invocation(&attach, &Table::new());
    assert_eq!(prog, "/bin/sh");
    assert_eq!(args, ["-l", "-c", "exec \"$0\" \"$@\"", "/bin/sh"]);
}

#[test]
fn runtime_failures() {
    assert_eq!(
        fault(&connect_error("s", "e")),
        ("SANDBOX_ERROR", "failed to connect to sandbox 's': e")
    );
    assert_eq!(fault(&exec_error("s", "e")), ("SANDBOX_ERROR", "exec failed in sandbox 's': e"));
    assert_eq!(fault(&attach_error("e")), ("SANDBOX_ERROR", "attach session failed: e"));
    assert_eq!(fault(&list_error("e")), ("SANDBOX_ERROR", "failed to list sandboxes: e"));
    assert_eq!(fault(&stop_error("s", "e")), ("SANDBOX_ERROR", "failed to stop sandbox 's': e"));
    assert_eq!(stop_message(true), "Stop signal sent.");
    assert_eq!(stop_message(false), "Stopped.");
}

#[test]
fn only_ours_are_listed() {
    let all = vec![
        ("sodagun_a".to_string(), SandboxStatus::Running),
        ("other".to_string(), SandboxStatus::Running),
        ("sodagun-snap-1".to_string(), SandboxStatus::Stopped),
    ];
    let (rows, hidden) = list_sandboxes(&all);
    assert_eq!(
        rows,
        vec![
            ("sodagun_a".to_string(), "running".to_string()),
            ("sodagun-snap-1".to_string(), "stopped".to_string()),
        ]
    );
    assert_eq!(hidden, 1);
    assert_eq!(
        list_lines(&rows),
        ["NAME            STATUS", "sodagun_a       running", "sodagun-snap-1  stopped"]
    );
    assert_eq!(list_lines(&vec![]), ["NAME  STATUS"]);
    assert_eq!(
        hidden_note(1).as_deref(),
        Some("1 non-sodagun sandbox(es) hidden; run `msb list` to see all microsandbox VMs")
    );
    assert!(hidden_note(0).is_none());
}

#[test]
fn columns_are_as_wide_as_the_longest_name_has_bytes() {
    let rows = vec![("sodagun-é".to_string(), "running".to_string())];
    let width = "sodagun-é".len();
    let expected = vec![
        format!("{:<width$}  {}", "NAME", "STATUS"),
        format!("{:<width$}  {}", "sodagun-é", "running"),
    ];
    assert_eq!(list_lines(&rows), expected);
}

#[test]
fn stopping() {
    assert_eq!(stop_action(SandboxStatus::Crashed, false), StopAction::Leave);
    assert_eq!(stop_action(SandboxStatus::Running, true), StopAction::Signal);
    assert_eq!(stop_action(SandboxStatus::Paused, false), StopAction::SignalAndWait);
}

#[test]
fn waiting_for_a_stop() {
    assert!(matches!(poll_until_stopped("s", SandboxStatus::Stopped, true, 30), Poll::Stopped));
    assert!(matches!(poll_until_stopped("s", SandboxStatus::Crashed, false, 30), Poll::Stopped));
    assert!(matches!(poll_until_stopped("s", SandboxStatus::Draining, false, 30), Poll::Wait));
    match poll_until_stopped("s", SandboxStatus::Running, true, 30) {
        Poll::TimedOut(e) => assert_eq!(
            fault(&e),
            ("SANDBOX_ERROR", "timed out waiting for sandbox 's' to stop after 30s")
        ),
        _ => panic!("no timeout"),
    }
}
