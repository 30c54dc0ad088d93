//! What the commands answer, as text and as JSON.

use sodagun::commands::git::{
    advance as advance_worktree, plan_worktree, workspace_record, AddWorktreeArgs, Progress, Step,
    StepOutcome, WorktreePlan,
};
use sodagun::commands::launch::{add_secret, add_variable, begin_launch};
use sodagun::commands::sandbox::{
    list_lines, list_sandboxes, read_sandbox_name, removal_error, removal_target,
};
use sodagun::commands::snapshot::{
    advance as advance_snapshot, create_message, remove_result, snapshot_config_path,
    snapshot_to_create, snapshot_to_remove, BuildEvent, BuildNames, BuildNext, BuildStep,
};
use sodagun::commands::start::{
    check_start, choose_config, plan_start, FoundPolicies, ProjectConfig, StartArgs, StartPlan,
};
use sodagun::config::{
    dockerfile_image_tag, image_to_build, load_image_config, merge_registry_configs,
    merge_user_image_config, ConfigAction, ConfigFile, EnvValue, FileRead, ImageConfig,
    ImageFileReplies, NamedPolicy, RawImageConfig, RawSandboxConfig, RegistryConfig, SecretConfig,
    UserImageConfig, ValueSource,
};
use sodagun::context::{Context, OutputFormat};
use sodagun::error::{handle_error, ErrorReport, SodagunError};
use sodagun::table::Table;
use sodagun::util::{map_sandbox_err, RuntimeError, RuntimeErrorKind, SandboxStatus};
use sodagun::values::{CommandOutcome, HostAnswer};
use sodagun::workspace::WorkspaceMetadata;

fn text_contains(err: &SodagunError, code: &str) {
    let ctx = Context { output: OutputFormat::Text, quiet: false };
    match handle_error(ctx, err) {
        ErrorReport::Text { detail } => assert!(detail.contains(code), "{detail}"),
        ErrorReport::Json { .. } => panic!("JSON"),
    }
}

fn json_is(err: &SodagunError, expected: &str) {
    let ctx = Context { output: OutputFormat::Json, quiet: false };
    match handle_error(ctx, err) {
        ErrorReport::Json { code } => assert_eq!(code, expected),
        ErrorReport::Text { .. } => panic!("text"),
    }
}

fn some(s: &str) -> Option<String> {
    Some(s.to_string())
}

// ── git add-worktree ─────────────────────────────────────────────────────────

fn worktree_args(branch: &str, prefix: Option<&str>, base: &str) -> AddWorktreeArgs {
    AddWorktreeArgs {
        repo_path: "/t/repo".to_string(),
        branch_name: branch.to_string(),
        dir_prefix: prefix.map(str::to_string),
        base: base.to_string(),
    }
}

fn planned(branch: &str, prefix: Option<&str>) -> (WorktreePlan, WorkspaceMetadata) {
    let args = worktree_args(branch, prefix, "origin/main");
    let plan = plan_worktree(&args, Some("/t/repo"), "/tmp");
    let record = workspace_record(&args, Some("/t/repo"), &plan);
    (plan, record)
}

#[test]
fn default_creates_workspace_under_tmp() {
    let (plan, record) = planned("feature-a", None);
    assert!(plan.rootdir.starts_with("/tmp/sodagun_repo_feature-a_"));
    assert_eq!(plan.worktree_path, format!("{}/feature-a", plan.rootdir));
    assert_eq!(WorkspaceMetadata::path(&plan.rootdir), format!("{}/sodagun.json", plan.rootdir));
    assert_eq!(record.version, 1);
    assert_eq!(record.branch, "feature-a");
    assert!(record.sandbox_name.is_none());
}

#[test]
fn custom_dir_prefix() {
    let (plan, _) = planned("feature-b", Some("/t/worktrees"));
    assert!(plan.rootdir.starts_with("/t/worktrees/sodagun_repo_feature-b_"));
    assert_eq!(plan.worktree_path, format!("{}/feature-b", plan.rootdir));
}

#[test]
fn branch_with_slash_sanitized_in_dir() {
    let (plan, record) = planned("feature/my-thing", None);
    assert_eq!(plan.worktree_path, format!("{}/feature-my-thing", plan.rootdir));
    assert_eq!(record.branch, "feature/my-thing");
}

fn worktree_error(branch: &str, base: &str, step: Step, outcome: StepOutcome) -> SodagunError {
    match advance_worktree(&worktree_args(branch, None, base), step, outcome) {
        Progress::Abort { error, .. } => error,
        _ => panic!("no error"),
    }
}

fn repo_not_found() -> SodagunError {
    let failed = StepOutcome::Failed("no repository".to_string());
    worktree_error("branch", "origin/main", Step::OpenRepo, failed)
}

#[test]
fn repo_not_found_text() {
    text_contains(&repo_not_found(), "REPO_NOT_FOUND");
}

#[test]
fn repo_not_found_json() {
    json_is(&repo_not_found(), "REPO_NOT_FOUND");
}

fn missing_base() -> SodagunError {
    let missing = StepOutcome::NotFound("reference not found".to_string());
    worktree_error("branch", "refs/heads/nonexistent", Step::ResolveBase, missing)
}

#[test]
fn base_not_found() {
    text_contains(&missing_base(), "BASE_NOT_FOUND");
}

#[test]
fn base_not_found_json() {
    json_is(&missing_base(), "BASE_NOT_FOUND");
}

#[test]
fn branch_already_exists() {
    let there = StepOutcome::Exists("a reference with that name already exists".to_string());
    let err = worktree_error("existing-branch", "origin/main", Step::CreateBranch, there);
    text_contains(&err, "BRANCH_EXISTS");
}

#[test]
fn branch_already_exists_json() {
    let there = StepOutcome::Exists("a reference with that name already exists".to_string());
    let err = worktree_error("existing-branch-2", "origin/main", Step::CreateBranch, there);
    json_is(&err, "BRANCH_EXISTS");
}

// ── sandbox list, stop and remove ────────────────────────────────────────────

const ROOTDIR: &str = "/t/workspace";

fn workspace(sandbox: Option<&str>) -> FileRead<WorkspaceMetadata> {
    let mut meta = WorkspaceMetadata::new_at(
        "/test/repo".to_string(),
        "feature".to_string(),
        "/t/workspace/feature".to_string(),
        "2026-01-01T00:00:00Z".to_string(),
    );
    meta.sandbox_name = sandbox.map(str::to_string);
    FileRead::Parsed(meta)
}

#[test]
fn list_returns_ok_json_shape() {
    let all = vec![("sodagun_a".to_string(), SandboxStatus::Running)];
    let (rows, hidden) = list_sandboxes(&all);
    assert_eq!(rows, vec![("sodagun_a".to_string(), "running".to_string())]);
    assert_eq!(hidden, 0);
}

#[test]
fn list_text_prints_header() {
    let (rows, _) = list_sandboxes(&vec![]);
    let lines = list_lines(&rows);
    assert!(lines[0].contains("NAME"));
    assert!(lines[0].contains("STATUS"));
}

fn not_found(name: &str) -> SodagunError {
    let e = RuntimeError { kind: RuntimeErrorKind::SandboxNotFound, text: "gone".to_string() };
    map_sandbox_err(&e, name)
}

fn stop_error_in(read: FileRead<WorkspaceMetadata>, rootdir: &str) -> SodagunError {
    match read_sandbox_name(rootdir, read) {
        Ok(name) => not_found(&name),
        Err(e) => e,
    }
}

fn remove_error_in(read: FileRead<WorkspaceMetadata>, rootdir: &str) -> SodagunError {
    match removal_target(rootdir, read) {
        Ok((name, orphan)) => removal_error(orphan, not_found(&name), rootdir),
        Err(e) => e,
    }
}

#[test]
fn stop_workspace_not_found_text() {
    let err = stop_error_in(FileRead::Missing, "/nonexistent/rootdir");
    text_contains(&err, "WORKSPACE_NOT_FOUND");
}

#[test]
fn stop_workspace_not_found_json() {
    json_is(&stop_error_in(FileRead::Missing, "/nonexistent/rootdir"), "WORKSPACE_NOT_FOUND");
}

#[test]
fn stop_not_started_text() {
    text_contains(&stop_error_in(workspace(None), ROOTDIR), "SANDBOX_NOT_STARTED");
}

#[test]
fn stop_not_started_json() {
    json_is(&stop_error_in(workspace(None), ROOTDIR), "SANDBOX_NOT_STARTED");
}

#[test]
fn stop_sandbox_not_found_text() {
    let err = stop_error_in(workspace(Some("sodagun-nonexistent-00000000")), ROOTDIR);
    text_contains(&err, "SANDBOX_NOT_FOUND");
}

#[test]
fn stop_sandbox_not_found_json() {
    let err = stop_error_in(workspace(Some("sodagun-nonexistent-00000000")), ROOTDIR);
    json_is(&err, "SANDBOX_NOT_FOUND");
}

#[test]
fn remove_workspace_not_found_text() {
    let err = remove_error_in(FileRead::Missing, "/nonexistent/rootdir");
    text_contains(&err, "WORKSPACE_NOT_FOUND");
}

#[test]
fn remove_workspace_not_found_json() {
    json_is(&remove_error_in(FileRead::Missing, "/nonexistent/rootdir"), "WORKSPACE_NOT_FOUND");
}

#[test]
fn remove_not_started_text() {
    text_contains(&remove_error_in(workspace(None), ROOTDIR), "SANDBOX_NOT_STARTED");
}

#[test]
fn remove_not_started_json() {
    json_is(&remove_error_in(workspace(None), ROOTDIR), "SANDBOX_NOT_STARTED");
}

#[test]
fn remove_sandbox_not_found_text() {
    let err = remove_error_in(workspace(Some("sodagun-nonexistent-00000000")), ROOTDIR);
    text_contains(&err, "SANDBOX_NOT_FOUND");
}

#[test]
fn remove_sandbox_not_found_json() {
    let err = remove_error_in(workspace(Some("sodagun-nonexistent-00000000")), ROOTDIR);
    json_is(&err, "SANDBOX_NOT_FOUND");
}

// ── sandbox start ────────────────────────────────────────────────────────────

fn raw_image(base: Option<&str>) -> RawImageConfig {
    RawImageConfig {
        base_image: base.map(str::to_string),
        base_snapshot: None,
        dockerfile: None,
        namespace_repository: None,
        version: None,
        setup_script: None,
        setup_script_path: None,
        setup_files: vec![],
        env: Table::new(),
    }
}

fn no_replies() -> ImageFileReplies {
    ImageFileReplies {
        current_dir: "/cwd".to_string(),
        dockerfile_is_file: false,
        script: Err("none".to_string()),
        setup_files: vec![],
    }
}

fn file_with(image: RawImageConfig, sandbox: RawSandboxConfig) -> FileRead<ConfigFile> {
    FileRead::Parsed(ConfigFile { image: Some(image), sandbox: Some(sandbox), registry: None })
}

fn bad_toml() -> FileRead<ConfigFile> {
    FileRead::Malformed("expected `=`".to_string())
}

fn conflict() -> FileRead<ConfigFile> {
    let image = RawImageConfig { base_snapshot: some("my-snap"), ..raw_image(Some("debian")) };
    file_with(image, RawSandboxConfig::default())
}

fn start_with(
    path: &str,
    read: FileRead<ConfigFile>,
    found: FoundPolicies,
) -> Result<StartPlan, SodagunError> {
    let args = StartArgs {
        workspace_path: ROOTDIR.to_string(),
        config: None,
        net_rules: vec![],
        net_default_egress: None,
        net_default_ingress: None,
    };
    let config = ProjectConfig { path: path.to_string(), read, replies: no_replies() };
    plan_start(&args, Some(config), FileRead::Missing, found)
}

fn no_policies() -> FoundPolicies {
    FoundPolicies { path: None, file: FileRead::Missing, dir: None, files: FileRead::Missing }
}

fn start_error(path: &str, read: FileRead<ConfigFile>) -> SodagunError {
    start_with(path, read, no_policies()).unwrap_err()
}

#[test]
fn workspace_not_found_text() {
    let err = WorkspaceMetadata::read("/nonexistent/rootdir", FileRead::Missing).unwrap_err();
    text_contains(&err, "WORKSPACE_NOT_FOUND");
}

#[test]
fn workspace_not_found_json() {
    let err = WorkspaceMetadata::read("/nonexistent/rootdir", FileRead::Missing).unwrap_err();
    json_is(&err, "WORKSPACE_NOT_FOUND");
}

#[test]
fn config_not_found_explicit_text() {
    text_contains(&start_error("/nonexistent/sodagun.toml", FileRead::Missing), "CONFIG_NOT_FOUND");
}

#[test]
fn config_not_found_explicit_json() {
    json_is(&start_error("/nonexistent/sodagun.toml", FileRead::Missing), "CONFIG_NOT_FOUND");
}

#[test]
fn test_sandbox_start_config_invalid_bad_toml_text() {
    text_contains(&start_error("/t/workspace/feature/sodagun.toml", bad_toml()), "CONFIG_INVALID");
}

#[test]
fn test_sandbox_start_config_invalid_bad_toml_json() {
    json_is(&start_error("/t/workspace/feature/sodagun.toml", bad_toml()), "CONFIG_INVALID");
}

#[test]
fn test_sandbox_start_config_invalid_image_snapshot_conflict_text() {
    text_contains(&start_error("/t/workspace/feature/sodagun.toml", conflict()), "CONFIG_INVALID");
}

#[test]
fn test_sandbox_start_config_invalid_image_snapshot_conflict_json() {
    json_is(&start_error("/t/workspace/feature/sodagun.toml", conflict()), "CONFIG_INVALID");
}

fn record() -> WorkspaceMetadata {
    WorkspaceMetadata::read(ROOTDIR, workspace(None)).unwrap()
}

#[test]
fn config_resolution_worktree_over_repo() {
    let meta = record();
    assert!(check_start(&meta, true).is_ok());
    let choice = choose_config(None, &meta, true, true);
    assert_eq!(choice.path.as_deref(), Some("/t/workspace/feature/sodagun.toml"));
    text_contains(&start_error(&choice.path.unwrap(), bad_toml()), "CONFIG_INVALID");
}

#[test]
fn config_resolution_repo_fallback() {
    let choice = choose_config(None, &record(), false, true);
    assert_eq!(choice.path.as_deref(), Some("/test/repo/sodagun.toml"));
    text_contains(&start_error(&choice.path.unwrap(), bad_toml()), "CONFIG_INVALID");
}

fn started(sandbox: RawSandboxConfig) -> StartPlan {
    start_with("/t/sodagun.toml", file_with(raw_image(Some("alpine")), sandbox), no_policies())
        .unwrap()
}

fn ended(success: bool, code: i32, stdout: &[u8]) -> HostAnswer {
    HostAnswer::Command(CommandOutcome::Ended {
        success,
        code: Some(code),
        stdout: stdout.to_vec(),
    })
}

#[test]
fn config_invalid_value_from_cmd_nonzero_exit() {
    let secret = SecretConfig {
        value: None,
        value_from_env: None,
        value_from_cmd: some("exit 1"),
        allowed_hosts: vec![],
    };
    let launch = begin_launch(&started(RawSandboxConfig::default()), Some("/w"), None).unwrap();
    let err = add_secret(launch, "MY_SECRET", &secret, ended(false, 1, b"")).unwrap_err();
    text_contains(&err, "CONFIG_INVALID");
}

#[test]
fn config_invalid_unknown_policy_no_policies_file() {
    let mut sandbox = RawSandboxConfig::default();
    sandbox.network.policy = some("my-nonexistent-policy");
    let err = begin_launch(&started(sandbox), Some("/w"), None).unwrap_err();
    text_contains(&err, "CONFIG_INVALID");
}

fn from_cmd(cmd: &str) -> EnvValue {
    EnvValue::Dynamic(ValueSource {
        value: None,
        value_from_env: None,
        value_from_cmd: some(cmd),
    })
}

#[test]
fn config_invalid_value_from_cmd_multiline_output() {
    let launch = begin_launch(&started(RawSandboxConfig::default()), Some("/w"), None).unwrap();
    let value = from_cmd("printf 'line1\nline2'");
    let err = add_variable(launch, "MY_VAR", &value, ended(true, 0, b"line1\nline2")).unwrap_err();
    text_contains(&err, "CONFIG_INVALID");
    text_contains(&err, "control character");
}

#[test]
fn config_invalid_value_from_cmd_trailing_newline_accepted() {
    let launch = begin_launch(&started(RawSandboxConfig::default()), Some("/w"), None).unwrap();
    let launch =
        add_variable(launch, "MY_VAR", &from_cmd("echo hello"), ended(true, 0, b"hello\n")).unwrap();
    assert_eq!(launch.env, vec![("MY_VAR".to_string(), "hello".to_string())]);
}

#[test]
fn config_invalid_reserved_policy_name_redefined_in_file() {
    let mut file = Table::new();
    file.insert(
        "none".to_string(),
        NamedPolicy {
            default_egress: Some(ConfigAction::Allow),
            default_ingress: None,
            rules: vec![],
        },
    );
    let mut sandbox = RawSandboxConfig::default();
    sandbox.network.policy = some("none");
    let read = file_with(raw_image(Some("alpine")), sandbox);
    let found = FoundPolicies {
        path: Some("/x/sodagun/network-policies.toml".to_string()),
        file: FileRead::Parsed(file),
        dir: None,
        files: FileRead::Missing,
    };
    let err = start_with("/t/sodagun.toml", read, found).unwrap_err();
    text_contains(&err, "CONFIG_INVALID");
    text_contains(&err, "reserved");
}

// ── snapshot ─────────────────────────────────────────────────────────────────

fn snapshot_image(read: FileRead<ConfigFile>) -> Result<ImageConfig, SodagunError> {
    let path = snapshot_config_path(None, "/t/project");
    load_image_config(&path, read, no_replies())
}

fn create_error(read: FileRead<ConfigFile>) -> SodagunError {
    match snapshot_image(read) {
        Ok(image) => snapshot_to_create(&image).unwrap_err(),
        Err(e) => e,
    }
}

fn no_image_section() -> FileRead<ConfigFile> {
    FileRead::Parsed(ConfigFile {
        image: None,
        sandbox: Some(RawSandboxConfig { working_dir: some("/workspace"), ..Default::default() }),
        registry: None,
    })
}

fn no_script() -> FileRead<ConfigFile> {
    file_with(raw_image(Some("alpine:latest")), RawSandboxConfig::default())
}

#[test]
fn snapshot_create_config_not_found_text() {
    text_contains(&create_error(FileRead::Missing), "CONFIG_NOT_FOUND");
}

#[test]
fn snapshot_create_config_not_found_json() {
    json_is(&create_error(FileRead::Missing), "CONFIG_NOT_FOUND");
}

#[test]
fn snapshot_create_invalid_toml_text() {
    text_contains(&create_error(bad_toml()), "CONFIG_INVALID");
}

#[test]
fn snapshot_create_invalid_toml_json() {
    json_is(&create_error(bad_toml()), "CONFIG_INVALID");
}

#[test]
fn snapshot_create_missing_image_section_text() {
    text_contains(&create_error(no_image_section()), "CONFIG_INVALID");
}

#[test]
fn snapshot_create_missing_image_section_json() {
    json_is(&create_error(no_image_section()), "CONFIG_INVALID");
}

#[test]
fn snapshot_create_base_conflict_text() {
    text_contains(&create_error(conflict()), "CONFIG_INVALID");
}

#[test]
fn snapshot_create_base_conflict_json() {
    json_is(&create_error(conflict()), "CONFIG_INVALID");
}

#[test]
fn snapshot_create_no_setup_script_text() {
    text_contains(&create_error(no_script()), "CONFIG_INVALID");
}

#[test]
fn snapshot_create_no_setup_script_json() {
    json_is(&create_error(no_script()), "CONFIG_INVALID");
}

fn with_script(script: &str) -> ImageConfig {
    let image = RawImageConfig { setup_script: some(script), ..raw_image(Some("alpine:latest")) };
    snapshot_image(file_with(image, RawSandboxConfig::default())).unwrap()
}

fn remove_missing(force: bool) -> Result<(), SodagunError> {
    let name = snapshot_to_remove(&with_script("#!/bin/sh\necho nonexistent\n")).unwrap();
    let outcome =
        Err(RuntimeError { kind: RuntimeErrorKind::SnapshotNotFound, text: "gone".to_string() });
    remove_result(&outcome, force, &name)
}

#[test]
fn snapshot_remove_not_found_text() {
    text_contains(&remove_missing(false).unwrap_err(), "SNAPSHOT_NOT_FOUND");
}

#[test]
fn snapshot_remove_not_found_json() {
    json_is(&remove_missing(false).unwrap_err(), "SNAPSHOT_NOT_FOUND");
}

#[test]
fn snapshot_remove_force_nonexistent_succeeds() {
    assert!(remove_missing(true).is_ok());
}

/// Runs the steps of a build in which all goes well; `exists` says whether the snapshot is there
/// already. Tells whether it was found.
fn create(script: &str, force: bool, exists: bool) -> (String, bool) {
    let names = BuildNames {
        snapshot: snapshot_to_create(&with_script(script)).unwrap(),
        sandbox: "sodagun-snap-01234567".to_string(),
    };
    let mut step = BuildStep::Look;
    for _ in 0..20 {
        let event = match step {
            BuildStep::Look if !exists => BuildEvent::NotFound,
            BuildStep::Watch => BuildEvent::Exited(0),
            _ => BuildEvent::Done,
        };
        match advance_snapshot(&names, force, step, &event).0 {
            BuildNext::Do(s) => step = s,
            BuildNext::AlreadyExists => return (names.snapshot, true),
            BuildNext::Created => return (names.snapshot, false),
            BuildNext::Abort { error, .. } => panic!("{error:?}"),
        }
    }
    panic!("no end")
}

#[test]
fn snapshot_create_and_idempotent() {
    let script = "#!/bin/sh\napk add --no-cache git\n";
    let (name, already_existed) = create(script, false, false);
    assert!(!name.is_empty());
    assert!(!already_existed);
    let (again, already_existed) = create(script, false, true);
    assert_eq!(again, name);
    assert!(already_existed);
}

#[test]
fn snapshot_create_force_recreates() {
    let (name, already_existed) = create("#!/bin/sh\napk add --no-cache curl\n", true, true);
    assert!(create_message(&name, already_existed).contains("Created snapshot:"));
}

// ── Images from a Dockerfile ─────────────────────────────────────────────────

fn dockerfile_image(raw: RawImageConfig, is_file: bool) -> Result<String, SodagunError> {
    let replies = ImageFileReplies { dockerfile_is_file: is_file, ..no_replies() };
    let read = file_with(raw, RawSandboxConfig::default());
    let image = load_image_config("/t/sodagun.toml", read, replies)?;
    let image = merge_user_image_config(UserImageConfig::default(), image);
    image_to_build(&image)?;
    let registry = merge_registry_configs(RegistryConfig::default(), RegistryConfig::default());
    dockerfile_image_tag(&image, &registry, b"FROM alpine\n")
}

fn with_dockerfile(repository: Option<&str>) -> RawImageConfig {
    RawImageConfig {
        dockerfile: some("Dockerfile"),
        namespace_repository: repository.map(str::to_string),
        ..raw_image(None)
    }
}

#[test]
fn create_image_config_not_found() {
    let err = load_image_config("/nonexistent/rootdir/sodagun.toml", FileRead::Missing, no_replies())
        .unwrap_err();
    text_contains(&err, "CONFIG_NOT_FOUND");
}

#[test]
fn create_image_config_not_found_json() {
    let err = load_image_config("/nonexistent/rootdir/sodagun.toml", FileRead::Missing, no_replies())
        .unwrap_err();
    json_is(&err, "CONFIG_NOT_FOUND");
}

#[test]
fn create_image_no_dockerfile_in_config() {
    let err = dockerfile_image(raw_image(Some("alpine")), false).unwrap_err();
    text_contains(&err, "CONFIG_INVALID");
    text_contains(&err, "no 'dockerfile'");
}

#[test]
fn create_image_dockerfile_not_exists() {
    let raw = RawImageConfig {
        dockerfile: some("./nonexistent.Dockerfile"),
        ..with_dockerfile(Some("org/repo"))
    };
    text_contains(&dockerfile_image(raw, false).unwrap_err(), "CONFIG_INVALID");
}

#[test]
fn create_image_dockerfile_base_image_conflict() {
    let raw = RawImageConfig { base_image: some("alpine"), ..with_dockerfile(Some("org/repo")) };
    let err = dockerfile_image(raw, true).unwrap_err();
    text_contains(&err, "CONFIG_INVALID");
    text_contains(&err, "mutually exclusive");
}

#[test]
fn create_image_dockerfile_base_snapshot_conflict() {
    let raw = RawImageConfig { base_snapshot: some("my-snap"), ..with_dockerfile(Some("org/repo")) };
    let err = dockerfile_image(raw, true).unwrap_err();
    text_contains(&err, "CONFIG_INVALID");
    text_contains(&err, "mutually exclusive");
}

#[test]
fn create_image_missing_namespace_repository() {
    let err = dockerfile_image(with_dockerfile(None), true).unwrap_err();
    text_contains(&err, "CONFIG_INVALID");
    text_contains(&err, "namespace_repository");
}

#[test]
fn create_image_missing_registry_host() {
    let err = dockerfile_image(with_dockerfile(Some("org/repo")), true).unwrap_err();
    text_contains(&err, "CONFIG_INVALID");
    text_contains(&err, "registry.host");
}

#[test]
fn create_image_missing_registry_host_json() {
    let err = dockerfile_image(with_dockerfile(Some("org/repo")), true).unwrap_err();
    json_is(&err, "CONFIG_INVALID");
}
