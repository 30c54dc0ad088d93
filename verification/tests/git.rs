//! Worktrees, their metadata, and git in the guest.

use sodagun::commands::git::{
    advance, check_conflicts, plan_worktree, plan_worktree_as, repo_name, sanitize_branch,
    sanitize_repo, workspace_record, AddWorktreeArgs, Progress, Step, StepOutcome,
};
use sodagun::config::GitAccess;
use sodagun::error::SodagunError;
use sodagun::git_access::{git_access_spec, logs_dir, GitAccessSpec, GitDirs, GitMount};
use sodagun::git_meta::{
    admin_pointer, common_git_dir, common_pointer, commondir_file, normalize_commondir,
    worktree_admin_dir, COMMONDIR_POINTER,
};

fn args(repo: &str, branch: &str, prefix: Option<&str>) -> AddWorktreeArgs {
    AddWorktreeArgs {
        repo_path: repo.to_string(),
        branch_name: branch.to_string(),
        dir_prefix: prefix.map(str::to_string),
        base: "origin/main".to_string(),
    }
}

// ── Names ────────────────────────────────────────────────────────────────────

#[test]
fn rootdir_has_expected_structure() {
    let plan = plan_worktree(&args("/src/myrepo", "feature/x", Some("/tmp")), None, "/var/tmp");
    assert!(plan.rootdir.starts_with("/tmp/"));
    let name = &plan.rootdir["/tmp/".len()..];
    assert!(name.starts_with("sodagun_myrepo_feature-x_"), "name={name}");
    let suffix = name.trim_start_matches("sodagun_myrepo_feature-x_");
    assert_eq!(suffix.len(), 8, "suffix={suffix}");
    assert!(suffix.chars().all(|c| c.is_ascii_hexdigit()), "suffix={suffix}");
}

#[test]
fn branch_sanitization() {
    assert_eq!(sanitize_branch("feature/my-thing"), "feature-my-thing");
    assert_eq!(sanitize_branch("feat_underscore/sub"), "feat-underscore-sub");
}

#[test]
fn repo_names() {
    assert_eq!(repo_name(Some("/a/real"), "."), "real");
    assert_eq!(repo_name(None, "/a/given/"), "given");
    assert_eq!(repo_name(Some("/"), "/x/y"), "y");
    assert_eq!(repo_name(None, "."), "repo");
    assert_eq!(repo_name(None, ".."), "repo");
    assert_eq!(sanitize_repo("my_repo/x"), "my-repo/x");
}

#[test]
fn planned_names() {
    let plan = plan_worktree_as(&args(".", "a/b_c", None), Some("/src/my_repo"), "/tmp", "0123abcd");
    assert_eq!(plan.rootdir, "/tmp/sodagun_my-repo_a-b-c_0123abcd");
    assert_eq!(plan.worktree_path, "/tmp/sodagun_my-repo_a-b-c_0123abcd/a-b-c");
    assert_eq!(plan.worktree_name, "a-b-c");
    let parts: Vec<&str> = plan.rootdir["/tmp/".len()..].split('_').collect();
    assert_eq!(parts, ["sodagun", "my-repo", "a-b-c", "0123abcd"]);
}

#[test]
fn two_plans_differ() {
    let a = plan_worktree(&args("/r", "b", None), None, "/tmp");
    let b = plan_worktree(&args("/r", "b", None), None, "/tmp");
    assert_ne!(a.rootdir, b.rootdir);
}

#[test]
fn records_of_new_workspaces() {
    let a = args("./repo", "feat/x", None);
    let plan = plan_worktree_as(&a, Some("/src/repo"), "/tmp", "0123abcd");
    let record = workspace_record(&a, Some("/src/repo"), &plan);
    assert_eq!(record.version, 1);
    assert_eq!(record.repo_path, "/src/repo");
    assert_eq!(record.branch, "feat/x");
    assert_eq!(record.worktree_path, "/tmp/sodagun_repo_feat-x_0123abcd/feat-x");
    assert!(record.sandbox_name.is_none());
    assert_eq!(workspace_record(&a, None, &plan).repo_path, "./repo");
}

// ── Steps ────────────────────────────────────────────────────────────────────

const ALL: [Step; 9] = [
    Step::OpenRepo,
    Step::ResolveBase,
    Step::PeelCommit,
    Step::CreateBranch,
    Step::CheckConflicts,
    Step::CreateRootdir,
    Step::AddWorktree,
    Step::NormalizePointer,
    Step::WriteMetadata,
];

#[test]
fn steps_in_order() {
    let a = args("/r", "b", None);
    for i in 0..ALL.len() {
        match advance(&a, ALL[i], StepOutcome::Done) {
            Progress::Next(s) => assert_eq!(s, ALL[i + 1]),
            Progress::Finished => assert_eq!(i, ALL.len() - 1),
            Progress::Abort { .. } => panic!("step {i}"),
        }
    }
}

#[test]
fn failures_undo_what_was_made() {
    let a = args("/r", "b", None);
    for i in 0..ALL.len() {
        match advance(&a, ALL[i], StepOutcome::Failed("why".to_string())) {
            Progress::Abort { delete_branch, remove_rootdir, .. } => {
                assert_eq!(delete_branch, i >= 4, "step {i}");
                assert_eq!(remove_rootdir, i >= 6, "step {i}");
            }
            _ => panic!("step {i}"),
        }
    }
}

fn abort(step: Step, outcome: StepOutcome) -> (&'static str, String) {
    match advance(&args("/r", "feat/x", None), step, outcome) {
        Progress::Abort { error, .. } => (error.code, error.message),
        _ => panic!("no error"),
    }
}

#[test]
fn step_errors() {
    let failed = || StepOutcome::Failed("why".to_string());
    let gone = || StepOutcome::NotFound("object is gone".to_string());
    let there = || StepOutcome::Exists("it is there".to_string());
    let check = |step, outcome, code: &str, message: &str| {
        let (c, m) = abort(step, outcome);
        assert_eq!((c, m.as_str()), (code, message));
    };
    check(Step::OpenRepo, failed(), "REPO_NOT_FOUND", "Repository not found at /r");
    check(Step::ResolveBase, gone(), "BASE_NOT_FOUND", "Base ref 'origin/main' not found");
    check(Step::ResolveBase, failed(), "BASE_INVALID", "Could not resolve 'origin/main' to a commit");
    check(Step::PeelCommit, failed(), "BASE_INVALID", "Could not resolve 'origin/main' to a commit");
    check(Step::CreateBranch, there(), "BRANCH_EXISTS", "Branch 'feat/x' already exists");
    check(Step::CreateBranch, failed(), "GIT_ERROR", "why");
    check(Step::CreateBranch, gone(), "GIT_ERROR", "object is gone");
    check(Step::CheckConflicts, there(), "WORKTREE_EXISTS", "Worktree 'feat/x' already exists");
    check(Step::CreateRootdir, failed(), "GIT_ERROR", "failed to create workspace rootdir: why");
    check(Step::AddWorktree, failed(), "GIT_ERROR", "why");
    check(Step::NormalizePointer, failed(), "GIT_ERROR", "why");
    let refused = SodagunError { code: "WORKSPACE_INVALID", message: "full".to_string() };
    check(Step::WriteMetadata, StepOutcome::Refused(refused), "WORKSPACE_INVALID", "full");
}

#[test]
fn conflicts() {
    let names = vec!["a".to_string(), "b".to_string()];
    assert!(matches!(check_conflicts(false, false, &names, "c"), StepOutcome::Done));
    assert!(matches!(check_conflicts(false, false, &names, "b"), StepOutcome::Exists(_)));
    assert!(matches!(check_conflicts(true, false, &vec![], "c"), StepOutcome::Exists(_)));
    assert!(matches!(check_conflicts(false, true, &vec![], "c"), StepOutcome::Exists(_)));
}

// ── Metadata of a worktree ───────────────────────────────────────────────────

#[test]
fn normalize_commondir_writes_relative_pointer() {
    let admin = "/t/repo/.git/worktrees/feat";
    assert_eq!(commondir_file(admin), "/t/repo/.git/worktrees/feat/commondir");
    assert_eq!(COMMONDIR_POINTER, "../..\n");
    normalize_commondir(admin, &Ok(())).unwrap();
    let written = Ok(COMMONDIR_POINTER.to_string());
    assert_eq!(
        common_pointer(admin, &written).unwrap(),
        "/t/repo/.git/worktrees/feat/../.."
    );
    let common = common_git_dir(admin, &written, Ok("/t/repo/.git".to_string())).unwrap();
    assert!(common.ends_with("repo/.git"));
    let err = normalize_commondir(admin, &Err("denied".to_string())).unwrap_err();
    assert_eq!(
        (err.code, err.message.as_str()),
        ("GIT_ERROR", "cannot write /t/repo/.git/worktrees/feat/commondir: denied")
    );
}

#[test]
fn admin_dir_resolves_from_dotgit_pointer() {
    let dotgit = Ok("gitdir: /t/repo/.git/worktrees/feat\n".to_string());
    let canonical = Ok("/t/repo/.git/worktrees/feat".to_string());
    assert_eq!(
        worktree_admin_dir("/t/ws/feat", &dotgit, canonical).unwrap(),
        "/t/repo/.git/worktrees/feat"
    );
}

#[test]
fn pointers() {
    let read = |s: &str| Ok(s.to_string());
    assert_eq!(admin_pointer("/w", &read("gitdir:../x \n")).unwrap(), "/w/../x");
    assert_eq!(admin_pointer("/w", &read("gitdir: /x\n")).unwrap(), "/x");
    let err = admin_pointer("/w", &read("ref: x")).unwrap_err();
    assert_eq!((err.code, err.message.as_str()), ("GIT_ERROR", "/w/.git has no gitdir pointer"));
    let err = admin_pointer("/w", &Err("gone".to_string())).unwrap_err();
    assert_eq!(err.message, "cannot read /w/.git (is this a linked worktree?): gone");
    let err = worktree_admin_dir("/w", &read("gitdir: x"), Err("gone".to_string())).unwrap_err();
    assert_eq!(err.message, "worktree admin dir /w/x: gone");
    assert_eq!(common_pointer("/a", &read(" /g \n")).unwrap(), "/g");
    let err = common_pointer("/a", &Err("gone".to_string())).unwrap_err();
    assert_eq!(err.message, "cannot read /a/commondir: gone");
    let err = common_git_dir("/a", &read("../.."), Err("gone".to_string())).unwrap_err();
    assert_eq!(err.message, "git common dir /a/../..: gone");
}

// ── Git in the guest ─────────────────────────────────────────────────────────

const WORKTREE: &str = "/t/ws/feat";
const GIT_DIR: &str = "/t/repo/.git";
const ADMIN: &str = "/t/repo/.git/worktrees/feat";

fn dirs() -> Result<GitDirs, SodagunError> {
    Ok(GitDirs { admin: ADMIN.to_string(), common: GIT_DIR.to_string() })
}

fn spec(access: GitAccess, gitconfig: Option<&str>) -> GitAccessSpec {
    git_access_spec(WORKTREE, "/workspace", access, gitconfig, dirs(), &Ok(())).unwrap()
}

fn shown(mounts: &[GitMount]) -> Vec<(&str, &str, bool)> {
    mounts.iter().map(|m| (m.host.as_str(), m.guest.as_str(), m.readonly)).collect()
}

fn var<'a>(spec: &'a GitAccessSpec, name: &str) -> Option<&'a str> {
    spec.env.iter().find(|(k, _)| k == name).map(|(_, v)| v.as_str())
}

#[test]
fn none_yields_empty_spec() {
    let s = spec(GitAccess::Nothing, None);
    assert!(s.mounts.is_empty());
    assert!(s.env.is_empty());
}

#[test]
fn env_wires_git_at_guest_paths() {
    let s = spec(GitAccess::Full, None);
    assert_eq!(var(&s, "GIT_DIR"), Some("/workspace.git/worktrees/feat"));
    assert_eq!(var(&s, "GIT_COMMON_DIR"), Some("/workspace.git"));
    assert_eq!(var(&s, "GIT_WORK_TREE"), Some("/workspace"));
    assert_eq!(var(&s, "GIT_CONFIG_COUNT"), Some("2"));
    assert_eq!(var(&s, "GIT_CONFIG_KEY_0"), Some("core.hooksPath"));
    assert_eq!(var(&s, "GIT_CONFIG_VALUE_0"), Some("/dev/null"));
    assert_eq!(var(&s, "GIT_CONFIG_KEY_1"), Some("gc.auto"));
    assert_eq!(var(&s, "GIT_CONFIG_VALUE_1"), Some("0"));
}

#[test]
fn full_mounts_whole_git_dir_rw() {
    let s = spec(GitAccess::Full, None);
    assert_eq!(shown(&s.mounts), vec![(GIT_DIR, "/workspace.git", false)]);
}

#[test]
fn data_layers_ro_git_with_rw_data_and_pinned_pointers() {
    let s = spec(GitAccess::Data, None);
    assert_eq!(
        shown(&s.mounts),
        vec![
            (GIT_DIR, "/workspace.git", true),
            ("/t/repo/.git/objects", "/workspace.git/objects", false),
            ("/t/repo/.git/refs", "/workspace.git/refs", false),
            ("/t/repo/.git/logs", "/workspace.git/logs", false),
            (ADMIN, "/workspace.git/worktrees/feat", false),
            (
                "/t/repo/.git/worktrees/feat/commondir",
                "/workspace.git/worktrees/feat/commondir",
                true
            ),
            ("/t/repo/.git/worktrees/feat/gitdir", "/workspace.git/worktrees/feat/gitdir", true),
            ("/t/ws/feat/.git", "/workspace/.git", true),
        ]
    );
    assert_eq!(logs_dir(GIT_DIR), "/t/repo/.git/logs");
}

#[test]
fn missing_dotgit_pointer_fails() {
    let dirs = admin_pointer("/t/plain", &Err("No such file".to_string()))
        .map(|_| GitDirs { admin: String::new(), common: String::new() });
    assert!(git_access_spec("/t/plain", "/workspace", GitAccess::Data, None, dirs, &Ok(())).is_err());
}

#[test]
fn gitconfig_mounted_ro_for_data_rw_for_full() {
    for (access, readonly) in [(GitAccess::Data, true), (GitAccess::Full, false)] {
        let s = spec(access, Some("/home/.gitconfig"));
        let mount = s
            .mounts
            .iter()
            .find(|m| m.guest == "/workspace.gitconfig")
            .expect("gitconfig mount present");
        assert_eq!(mount.host, "/home/.gitconfig");
        assert_eq!(mount.readonly, readonly);
        assert_eq!(var(&s, "GIT_CONFIG_GLOBAL"), Some("/workspace.gitconfig"));
    }
}

#[test]
fn no_gitconfig_no_global_env() {
    let s = spec(GitAccess::Data, None);
    assert!(s.env.iter().all(|(k, _)| k != "GIT_CONFIG_GLOBAL"));
    assert!(s.mounts.iter().all(|m| m.guest != "/workspace.gitconfig"));
}

#[test]
fn parents_are_mounted_first() {
    let s = spec(GitAccess::Data, Some("/home/.gitconfig"));
    for i in 0..s.mounts.len() {
        for j in 0..i {
            let below = format!("{}/", s.mounts[i].guest);
            assert!(!s.mounts[j].guest.starts_with(&below), "{i} {j}");
        }
    }
    let mut names: Vec<&str> = s.env.iter().map(|(k, _)| k.as_str()).collect();
    names.sort();
    names.dedup();
    assert_eq!(names.len(), s.env.len());
}

#[test]
fn git_access_failures() {
    let failed = git_access_spec(
        WORKTREE,
        "/w/",
        GitAccess::Data,
        None,
        dirs(),
        &Err("denied".to_string()),
    )
    .unwrap_err();
    assert_eq!(
        (failed.code, failed.message.as_str()),
        ("GIT_ACCESS_INVALID", "cannot create /t/repo/.git/logs: denied")
    );
    let nameless = Ok(GitDirs { admin: "/".to_string(), common: GIT_DIR.to_string() });
    let failed =
        git_access_spec(WORKTREE, "/w", GitAccess::Full, None, nameless, &Ok(())).unwrap_err();
    assert_eq!(
        (failed.code, failed.message.as_str()),
        ("GIT_ACCESS_INVALID", "admin dir has no name: /")
    );
    let ok = git_access_spec(
        WORKTREE,
        "/w//",
        GitAccess::Full,
        None,
        dirs(),
        &Err("not asked for".to_string()),
    )
    .unwrap();
    assert_eq!(ok.mounts[0].guest, "/w.git");
    assert_eq!(var(&ok, "GIT_WORK_TREE"), Some("/w//"));
}
