//! `sandbox start`: which configuration applies, under which name, and in what order the record
//! and the sandbox are made.

use crate::commands::sandbox::{not_started, sandbox_of};
use crate::config::image_table::{default_image_config, is_resolved, ImageFileReplies};
use crate::config::load::{
    load_config, load_failure, load_user_network_policies, load_user_sandbox_config,
    policies_dir_failure, policies_file_fails, policies_file_fails_with, policies_in_dir,
    policies_in_file, replies_match, user_content, user_failure, ConfigFile, FileRead, PolicyFile,
    UserConfigFile,
};
use crate::config::merge::{
    clashing, merge_gives, merge_sandbox_configs, merged_env, merged_secrets,
};
use crate::config::{
    rule_models, ConfigAction, ImageConfig, NamedPolicy, RawSandboxConfig, RuleModel, SandboxConfig,
    SetupFile,
};
use crate::error::{failure, fault, Failure, SodagunError};
use crate::network::flag::{action_named, parse_action, parse_net_rules, values_meant};
use crate::network::policy::CliNetOptions;
use crate::path::{file_name, join, join_path, path_file_name};
use crate::table::Table;
use crate::text::{opt_str, opt_text, texts};
use crate::workspace::WorkspaceMetadata;
use vstd::prelude::*;

verus! {

/// Arguments of `sandbox start`.
#[derive(Debug)]
pub struct StartArgs {
    /// Root directory of the workspace.
    pub workspace_path: String,
    /// Path of the configuration file, where it is not the one to be found.
    pub config: Option<String>,
    /// Network rules, after those of the configuration.
    pub net_rules: Vec<String>,
    /// `allow` or `deny`.
    pub net_default_egress: Option<String>,
    /// `allow` or `deny`.
    pub net_default_ingress: Option<String>,
}

// ── May it start? ─────────────────────────────────────────────────────────────

/// Why a workspace's sandbox may not be started, if it may not.
pub open spec fn start_obstacle(meta: WorkspaceMetadata, worktree_is_dir: bool) -> Option<Failure> {
    match meta.sandbox_name {
        Some(name) => Some(
            failure(
                "SANDBOX_ALREADY_STARTED"@,
                "sandbox '"@ + name@
                    + "' is already started for this workspace; stop or remove it first"@,
            ),
        ),
        None => if worktree_is_dir {
            None
        } else {
            Some(
                failure(
                    "WORKTREE_NOT_FOUND"@,
                    "worktree path does not exist or is not a directory: "@
                        + meta.worktree_path@,
                ),
            )
        },
    }
}

/// Checks that a workspace's sandbox may be started.
pub fn check_start(meta: &WorkspaceMetadata, worktree_is_dir: bool) -> (r: Result<
    (),
    SodagunError,
>)
    ensures
        match r {
            Ok(()) => start_obstacle(*meta, worktree_is_dir) is None,
            Err(e) => start_obstacle(*meta, worktree_is_dir) == Some(e@),
        },
{
    if let Some(name) = &meta.sandbox_name {
        return Err(
            fault(
                "SANDBOX_ALREADY_STARTED",
                "sandbox '".to_owned().concat(name.as_str()).concat(
                    "' is already started for this workspace; stop or remove it first",
                ),
            ),
        );
    }
    if !worktree_is_dir {
        return Err(
            fault(
                "WORKTREE_NOT_FOUND",
                "worktree path does not exist or is not a directory: ".to_owned().concat(
                    meta.worktree_path.as_str(),
                ),
            ),
        );
    }
    Ok(())
}

// ── Which configuration ───────────────────────────────────────────────────────

/// The configuration file to use, and what to say about it.
#[derive(Debug)]
pub struct ConfigChoice {
    pub path: Option<String>,
    pub note: Option<String>,
}

/// The configuration file in the worktree.
pub fn worktree_config(meta: &WorkspaceMetadata) -> (r: String)
    ensures
        r@ == join(meta.worktree_path@, "sodagun.toml"@),
{
    join_path(meta.worktree_path.as_str(), "sodagun.toml")
}

/// The configuration file in the repository.
pub fn repo_config(meta: &WorkspaceMetadata) -> (r: String)
    ensures
        r@ == join(meta.repo_path@, "sodagun.toml"@),
{
    join_path(meta.repo_path.as_str(), "sodagun.toml")
}

/// The configuration file to use: the one given, or else the worktree's, or else the
/// repository's, so that a branch without a file of its own uses the project's.
pub open spec fn config_chosen(
    given: Option<Seq<char>>,
    meta: WorkspaceMetadata,
    in_worktree: bool,
    in_repo: bool,
) -> Option<Seq<char>> {
    match given {
        Some(p) => Some(p),
        None => if in_worktree {
            Some(join(meta.worktree_path@, "sodagun.toml"@))
        } else if in_repo {
            Some(join(meta.repo_path@, "sodagun.toml"@))
        } else {
            None
        },
    }
}

/// What is said where the repository's configuration file is used.
pub open spec fn config_note(
    given: Option<Seq<char>>,
    meta: WorkspaceMetadata,
    in_worktree: bool,
    in_repo: bool,
) -> Option<Seq<char>> {
    if given is None && !in_worktree && in_repo {
        Some(
            "no sodagun.toml in worktree; using project config from "@ + join(
                meta.repo_path@,
                "sodagun.toml"@,
            ),
        )
    } else {
        None
    }
}

/// The configuration file to use; `in_worktree` and `in_repo` tell whether [`worktree_config`]
/// and [`repo_config`] exist.
pub fn choose_config(
    given: Option<&str>,
    meta: &WorkspaceMetadata,
    in_worktree: bool,
    in_repo: bool,
) -> (r: ConfigChoice)
    ensures
        opt_text(r.path) == config_chosen(opt_str(given), *meta, in_worktree, in_repo),
        opt_text(r.note) == config_note(opt_str(given), *meta, in_worktree, in_repo),
{
    match given {
        Some(p) => ConfigChoice { path: Some(p.to_owned()), note: None },
        None => {
            if in_worktree {
                ConfigChoice { path: Some(worktree_config(meta)), note: None }
            } else if in_repo {
                let path = repo_config(meta);
                let note = "no sodagun.toml in worktree; using project config from ".to_owned().concat(
                    path.as_str(),
                );
                ConfigChoice { path: Some(path), note: Some(note) }
            } else {
                ConfigChoice { path: None, note: None }
            }
        },
    }
}

// ── Plan ──────────────────────────────────────────────────────────────────────

/// The configuration file that applies: its path, what it holds, and the files it names.
#[derive(Debug)]
pub struct ProjectConfig {
    pub path: String,
    pub read: FileRead<ConfigFile>,
    pub replies: ImageFileReplies,
}

/// The user's network policies: the path of the file that may hold many and what is in it, the
/// directory that holds one in each of its files and what is in that.
#[derive(Debug)]
pub struct FoundPolicies {
    pub path: Option<String>,
    pub file: FileRead<Table<NamedPolicy>>,
    pub dir: Option<String>,
    pub files: FileRead<Vec<PolicyFile>>,
}

/// Everything that is known before a sandbox is launched.
#[derive(Debug)]
pub struct StartPlan {
    pub sandbox_name: String,
    pub image: ImageConfig,
    pub sandbox: SandboxConfig,
    pub policies: Table<NamedPolicy>,
    /// The directory of network policies, if it exists.
    pub policies_dir: Option<String>,
    pub cli_net: CliNetOptions,
}

/// Whether `image` is the image that is used where there is no configuration file.
pub open spec fn is_default_image(image: ImageConfig) -> bool {
    &&& opt_text(image.base_image) == Some("alpine:latest"@)
    &&& image.base_snapshot is None
    &&& image.dockerfile is None
    &&& image.namespace_repository is None
    &&& image.version is None
    &&& image.setup_script is None
    &&& image.setup_files@ == Seq::<SetupFile>::empty()
    &&& image.env@ == Map::<Seq<char>, String>::empty()
}

/// What the project's configuration fails with, if it does.
pub open spec fn project_failure(config: Option<ProjectConfig>) -> Option<Failure> {
    match config {
        Some(c) => load_failure(c.path@, c.read, c.replies),
        None => None,
    }
}

/// Whether `image` is the project's image.
pub open spec fn project_image(config: Option<ProjectConfig>, image: ImageConfig) -> bool {
    match config {
        Some(c) => is_resolved(image, c.read->Parsed_0.image->0, c.path@, c.replies),
        None => is_default_image(image),
    }
}

/// Whether `raw` is the optional table `given`, or blank where there is none.
pub open spec fn is_table(given: Option<RawSandboxConfig>, raw: RawSandboxConfig) -> bool {
    match given {
        Some(g) => raw == g,
        None => raw.blank(),
    }
}

/// The project's `[sandbox]` table.
pub open spec fn project_table(config: Option<ProjectConfig>) -> Option<RawSandboxConfig> {
    match config {
        Some(c) => c.read->Parsed_0.sandbox,
        None => None,
    }
}

/// The user's `[sandbox]` table.
pub open spec fn user_table(user: FileRead<UserConfigFile>) -> Option<RawSandboxConfig> {
    match user_content(user) {
        Some(file) => file.sandbox,
        None => None,
    }
}

/// What a workspace path without a name is answered with.
pub open spec fn nameless(workspace: Seq<char>) -> Failure {
    failure("WORKSPACE_INVALID"@, "workspace path has no directory name: "@ + workspace)
}

/// The default that an option sets.
pub open spec fn default_meant(word: Option<String>) -> Option<ConfigAction> {
    match word {
        Some(w) => action_named(w@),
        None => None,
    }
}

/// Whether the options for defaults hold what they may hold.
pub open spec fn defaults_valid(args: StartArgs) -> bool {
    &&& args.net_default_egress matches Some(w) ==> action_named(w@) is Some
    &&& args.net_default_ingress matches Some(w) ==> action_named(w@) is Some
}

/// Whether `plan` is what the arguments and configurations stand for.
pub open spec fn is_start_plan(
    plan: StartPlan,
    args: StartArgs,
    config: Option<ProjectConfig>,
    user: FileRead<UserConfigFile>,
    found: FoundPolicies,
) -> bool {
    &&& Some(plan.sandbox_name@) == file_name(args.workspace_path@)
    &&& project_image(config, plan.image)
    &&& exists|u: RawSandboxConfig, p: RawSandboxConfig|
        {
            &&& is_table(user_table(user), u)
            &&& is_table(project_table(config), p)
            &&& #[trigger] merge_gives(Ok(plan.sandbox), u, p)
        }
    &&& plan.policies@ == policies_in_file(found.file).union_prefer_right(
        policies_in_dir(found.files),
    )
    &&& plan.policies_dir == if found.files is Parsed {
        found.dir
    } else {
        None
    }
    &&& values_meant(texts(args.net_rules@)) == Ok::<Seq<RuleModel>, Failure>(
        rule_models(plan.cli_net.rules@),
    )
    &&& plan.cli_net.default_egress == default_meant(args.net_default_egress)
    &&& plan.cli_net.default_ingress == default_meant(args.net_default_ingress)
}

/// Whether planning fails with `e`: the first of the project's file, the user's file, the network
/// policies, the merged tables, the workspace's name and the network rules that is wrong.
pub open spec fn start_fails_with(
    e: SodagunError,
    args: StartArgs,
    config: Option<ProjectConfig>,
    user: FileRead<UserConfigFile>,
    found: FoundPolicies,
) -> bool {
    if project_failure(config) is Some {
        project_failure(config) == Some(e@)
    } else if user_failure(user) is Some {
        user_failure(user) == Some(e@)
    } else if policies_file_fails(found.file) {
        policies_file_fails_with(found.file, e@)
    } else if policies_dir_failure(found.files) is Some {
        policies_dir_failure(found.files) == Some(e@)
    } else if tables_clash(user_table(user), project_table(config)) {
        exists|u: RawSandboxConfig, p: RawSandboxConfig|
            {
                &&& is_table(user_table(user), u)
                &&& is_table(project_table(config), p)
                &&& #[trigger] merge_gives(Err(e), u, p)
            }
    } else if file_name(args.workspace_path@) is None {
        e@ == nameless(args.workspace_path@)
    } else {
        values_meant(texts(args.net_rules@)) == Err::<Seq<RuleModel>, Failure>(e@)
    }
}

/// Whether some name is both a variable and a secret once two tables have been merged.
pub open spec fn tables_clash(
    user: Option<RawSandboxConfig>,
    project: Option<RawSandboxConfig>,
) -> bool {
    exists|u: RawSandboxConfig, p: RawSandboxConfig|
        is_table(user, u) && is_table(project, p) && #[trigger] clashing(u, p)
}

/// Whether tables clash is seen from any two configurations that stand for them.
proof fn lemma_tables_clash(
    user: Option<RawSandboxConfig>,
    project: Option<RawSandboxConfig>,
    u: RawSandboxConfig,
    p: RawSandboxConfig,
)
    requires
        is_table(user, u),
        is_table(project, p),
    ensures
        tables_clash(user, project) <==> clashing(u, p),
{
    if tables_clash(user, project) {
        let (u1, p1) = choose|u1: RawSandboxConfig, p1: RawSandboxConfig|
            is_table(user, u1) && is_table(project, p1) && #[trigger] clashing(u1, p1);
        assert(merged_env(u1, p1) == merged_env(u, p));
        assert(merged_secrets(u1, p1) == merged_secrets(u, p));
    }
}

/// The default that an option sets.
fn default_of(word: &Option<String>) -> (r: Option<ConfigAction>)
    requires
        word matches Some(w) ==> action_named(w@) is Some,
    ensures
        r == default_meant(*word),
{
    match word {
        Some(w) => Some(parse_action(w.as_str())),
        None => None,
    }
}

/// Settles everything that is known before a sandbox is launched. `config` is the configuration
/// file that applies, if any; `user` is the user's own; `found` is what there is of network
/// policies. The sandbox is named after the workspace's root directory, so
/// that there is one sandbox for one workspace.
pub fn plan_start(
    args: &StartArgs,
    config: Option<ProjectConfig>,
    user: FileRead<UserConfigFile>,
    found: FoundPolicies,
) -> (r: Result<StartPlan, SodagunError>)
    requires
        defaults_valid(*args),
        config matches Some(c) ==> replies_match(c.read, c.replies),
    ensures
        match r {
            Ok(plan) => {
                &&& project_failure(config) is None
                &&& user_failure(user) is None
                &&& !policies_file_fails(found.file)
                &&& policies_dir_failure(found.files) is None
                &&& is_start_plan(plan, *args, config, user, found)
            },
            Err(e) => start_fails_with(e, *args, config, user, found),
        },
{
    let (image, raw_project) = match config {
        Some(c) => match load_config(c.path.as_str(), c.read, c.replies) {
            Ok(pair) => pair,
            Err(e) => return Err(e),
        },
        None => (default_image_config(), RawSandboxConfig::default()),
    };
    let raw_user = match load_user_sandbox_config(user) {
        Ok(u) => u,
        Err(e) => return Err(e),
    };
    let (policies, policies_dir) = match load_user_network_policies(
        found.path,
        found.file,
        found.dir,
        found.files,
    ) {
        Ok(pair) => pair,
        Err(e) => return Err(e),
    };
    let ghost u0 = raw_user;
    let ghost p0 = raw_project;
    let merged = merge_sandbox_configs(raw_user, raw_project);
    let ghost u = match u0 {
        Some(u) => u,
        None => choose|u: RawSandboxConfig| u.blank() && #[trigger] merge_gives(merged, u, p0),
    };
    assert(merge_gives(merged, u, p0));
    proof {
        lemma_tables_clash(user_table(user), project_table(config), u, p0);
    }
    let sandbox = match merged {
        Ok(s) => s,
        Err(e) => return Err(e),
    };
    let sandbox_name = match path_file_name(args.workspace_path.as_str()) {
        Some(n) => n,
        None => {
            return Err(
                fault(
                    "WORKSPACE_INVALID",
                    "workspace path has no directory name: ".to_owned().concat(
                        args.workspace_path.as_str(),
                    ),
                ),
            );
        },
    };
    let rules = match parse_net_rules(&args.net_rules) {
        Ok(rules) => rules,
        Err(e) => return Err(e),
    };
    let cli_net = CliNetOptions {
        rules,
        default_egress: default_of(&args.net_default_egress),
        default_ingress: default_of(&args.net_default_ingress),
    };
    Ok(StartPlan { sandbox_name, image, sandbox, policies, policies_dir, cli_net })
}

// ── Record and launch ─────────────────────────────────────────────────────────

/// What to do next.
#[derive(Debug)]
pub enum StartAction {
    Launch,
    /// Take the name out of the record, whether that works or not, and report the error.
    Release(SodagunError),
    /// Report success.
    Report,
    /// Report an error.
    Fail(SodagunError),
}

/// What to do after the name was reserved, or was not.
pub open spec fn next_after_reserving(outcome: Result<(), SodagunError>) -> StartAction {
    match outcome {
        Ok(()) => StartAction::Launch,
        Err(e) => StartAction::Fail(e),
    }
}

/// What to do after the launch.
pub open spec fn next_after_launching(outcome: Result<(), SodagunError>) -> StartAction {
    match outcome {
        Ok(()) => StartAction::Report,
        Err(e) => StartAction::Release(e),
    }
}

/// What to do after the name was reserved, or was not. The name is written before the launch, so
/// that a sandbox that runs can always be found by its workspace, even where we are interrupted.
pub fn after_reserving(outcome: Result<(), SodagunError>) -> (r: StartAction)
    ensures
        r == next_after_reserving(outcome),
{
    match outcome {
        Ok(()) => StartAction::Launch,
        Err(e) => StartAction::Fail(e),
    }
}

/// What to do after the launch: where it failed, the name is released, so that the workspace can
/// be used again.
pub fn after_launching(outcome: Result<(), SodagunError>) -> (r: StartAction)
    ensures
        r == next_after_launching(outcome),
{
    match outcome {
        Ok(()) => StartAction::Report,
        Err(e) => StartAction::Release(e),
    }
}

/// What exists because of a start: the name in the record, and the sandbox.
pub ghost struct Started {
    pub recorded: bool,
    pub running: bool,
}

/// What exists after a start with these outcomes of reserving, launching and, where it comes to
/// that, releasing.
pub open spec fn started(
    reserving: Result<(), SodagunError>,
    launching: Result<(), SodagunError>,
    released: bool,
) -> Started {
    match next_after_reserving(reserving) {
        StartAction::Launch => match next_after_launching(launching) {
            StartAction::Release(_) => Started { recorded: !released, running: false },
            _ => Started { recorded: true, running: true },
        },
        _ => Started { recorded: false, running: false },
    }
}

/// A sandbox that runs is in its workspace's record; and where releasing works, what is in the
/// record runs.
pub proof fn law_record_tells_what_runs(
    reserving: Result<(), SodagunError>,
    launching: Result<(), SodagunError>,
    released: bool,
)
    ensures
        started(reserving, launching, released).running ==> started(
            reserving,
            launching,
            released,
        ).recorded,
        released && started(reserving, launching, released).recorded ==> started(
            reserving,
            launching,
            released,
        ).running,
        started(reserving, launching, released).running <==> reserving is Ok && launching is Ok,
{
}

/// One workspace has one sandbox: while the record names one, that is the one to be found, and no
/// other can be started; once the name is taken out of the record, none is found, and one can be
/// started wherever the worktree is there.
pub proof fn law_one_sandbox_for_a_workspace(
    rootdir: Seq<char>,
    meta: WorkspaceMetadata,
    name: Option<String>,
    worktree_is_dir: bool,
)
    ensures
        ({
            let record = WorkspaceMetadata { sandbox_name: name, ..meta };
            match name {
                Some(n) => {
                    &&& sandbox_of(rootdir, FileRead::Parsed(record)) == Ok::<Seq<char>, Failure>(
                        n@,
                    )
                    &&& start_obstacle(record, worktree_is_dir) matches Some(e) && e.code
                        == "SANDBOX_ALREADY_STARTED"@
                },
                None => {
                    &&& sandbox_of(rootdir, FileRead::Parsed(record)) == Err::<
                        Seq<char>,
                        Failure,
                    >(not_started(rootdir))
                    &&& start_obstacle(record, worktree_is_dir) is None <==> worktree_is_dir
                },
            }
        }),
{
}

} // verus!
