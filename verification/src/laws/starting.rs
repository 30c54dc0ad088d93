//! Laws of `sandbox start` before the launch: whether it may start, and with which configuration.

use crate::commands::start::{
    after_launching, after_reserving, check_start, choose_config, plan_start, project_table,
    tables_clash, user_table, ConfigChoice, FoundPolicies, ProjectConfig, StartAction, StartArgs,
    StartPlan,
};
use crate::config::{ConfigAction, ImageConfig, NamedPolicy, RawSandboxConfig};
use crate::config::load::{
    load_config, load_user_network_policies, replies_match, FileRead, UserConfigFile,
};
use crate::config::merge::merge_gives;
use crate::error::SodagunError;
use crate::network::flag::values_meant;
use crate::path::path_file_name;
use crate::project::{find_project_dir, first_git, first_marked, first_toml, DirProbe, ProjectDir};
use crate::table::Table;
use crate::text::texts;
use crate::workspace::WorkspaceMetadata;
use vstd::prelude::*;

verus! {

/// A sandbox may start exactly where the record names none and the worktree is there. One that
/// runs already is told apart from a worktree that is gone, and comes first.
pub proof fn law_may_start(
    meta: WorkspaceMetadata,
    worktree_is_dir: bool,
    r: Result<(), SodagunError>,
)
    requires
        call_ensures(check_start, (&meta, worktree_is_dir), r),
    ensures
        r is Ok <==> meta.sandbox_name is None && worktree_is_dir,
        meta.sandbox_name is Some ==> r->Err_0@.code == "SANDBOX_ALREADY_STARTED"@,
        meta.sandbox_name is None && !worktree_is_dir ==> r->Err_0@.code == "WORKTREE_NOT_FOUND"@,
{
}

/// A configuration file that is given is used; else the worktree's where it is there; else the
/// repository's where it is there; else none. Only the repository's is spoken of.
pub proof fn law_nearest_configuration_is_used(
    given: Option<&str>,
    meta: WorkspaceMetadata,
    in_worktree: bool,
    in_repo: bool,
    r: ConfigChoice,
    worktree: String,
    repo: String,
)
    requires
        call_ensures(choose_config, (given, &meta, in_worktree, in_repo), r),
        call_ensures(crate::commands::start::worktree_config, (&meta,), worktree),
        call_ensures(crate::commands::start::repo_config, (&meta,), repo),
    ensures
        given is Some ==> r.path is Some && r.path->0@ == given->0@,
        given is None && in_worktree ==> r.path is Some && r.path->0@ == worktree@,
        given is None && !in_worktree && in_repo ==> r.path is Some && r.path->0@ == repo@,
        given is None && !in_worktree && !in_repo ==> r.path is None,
        r.note is Some <==> given is None && !in_worktree && in_repo,
        worktree@ == crate::path::join(meta.worktree_path@, "sodagun.toml"@),
        repo@ == crate::path::join(meta.repo_path@, "sodagun.toml"@),
{
}

/// The name is in the record before the sandbox is launched, and a launch that failed takes it out
/// again; the error that is reported is the one that came.
pub proof fn law_reserve_then_launch(
    reserved: Result<(), SodagunError>,
    launched: Result<(), SodagunError>,
    first: StartAction,
    second: StartAction,
)
    requires
        call_ensures(after_reserving, (reserved,), first),
        call_ensures(after_launching, (launched,), second),
    ensures
        reserved is Ok ==> first is Launch,
        reserved is Err ==> first == StartAction::Fail(reserved->Err_0),
        launched is Ok ==> second is Report,
        launched is Err ==> second == StartAction::Release(launched->Err_0),
{
}

/// The sandbox of a workspace has the name of the workspace's root directory.
pub proof fn law_sandbox_has_the_workspaces_name(
    path: &str,
    name: Option<String>,
    args: StartArgs,
    config: Option<ProjectConfig>,
    user: FileRead<UserConfigFile>,
    found: FoundPolicies,
    plan: StartPlan,
)
    requires
        path@ == args.workspace_path@,
        call_ensures(path_file_name, (path,), name),
        call_ensures(plan_start, (&args, config, user, found), Ok(plan)),
    ensures
        name is Some,
        plan.sandbox_name@ == name->0@,
{
}

/// The plan of a start layers the project's sandbox table over the user's over the defaults: what
/// the project's file sets holds, and what only the user's file sets holds where it does not.
pub proof fn law_plan_layers_the_tables(
    args: StartArgs,
    config: Option<ProjectConfig>,
    user: FileRead<UserConfigFile>,
    found: FoundPolicies,
    plan: StartPlan,
)
    requires
        call_ensures(plan_start, (&args, config, user, found), Ok(plan)),
    ensures
        config matches Some(c) ==> {
            &&& c.read is Parsed
            &&& c.read->Parsed_0.image is Some
            &&& c.read->Parsed_0.sandbox matches Some(t) ==> {
                &&& t.cpus is Some ==> plan.sandbox.cpus == t.cpus->0
                &&& t.memory_mb is Some ==> plan.sandbox.memory_mb == t.memory_mb->0
                &&& t.working_dir is Some ==> plan.sandbox.working_dir@ == t.working_dir->0@
                &&& t.git_access is Some ==> plan.sandbox.git_access == t.git_access->0
                &&& t.network.policy is Some ==> plan.sandbox.network.policy == t.network.policy
                &&& forall|k: Seq<char>| #[trigger]
                    t.env@.dom().contains(k) ==> plan.sandbox.env@.dom().contains(k)
                        && plan.sandbox.env@[k] == t.env@[k]
                &&& forall|k: Seq<char>| #[trigger]
                    t.secrets@.dom().contains(k) ==> plan.sandbox.secrets@.dom().contains(k)
                        && plan.sandbox.secrets@[k] == t.secrets@[k]
            }
        },
        user matches FileRead::Parsed(f) ==> (f.sandbox matches Some(u) ==> {
            let silent = config is None || config->0.read->Parsed_0.sandbox is None;
            &&& silent && u.cpus is Some ==> plan.sandbox.cpus == u.cpus->0
            &&& silent && u.memory_mb is Some ==> plan.sandbox.memory_mb == u.memory_mb->0
            &&& silent && u.working_dir is Some ==> plan.sandbox.working_dir@ == u.working_dir->0@
            &&& silent && u.git_access is Some ==> plan.sandbox.git_access == u.git_access->0
            &&& plan.sandbox.volumes@.len() >= u.volumes@.len()
            &&& plan.sandbox.volumes@.take(u.volumes@.len() as int) == u.volumes@
        }),
        config is None ==> plan.image.base_image is Some && plan.image.base_image->0@
            == "alpine:latest"@ && plan.image.setup_script is None,
{
    let (u, p) = choose|u: RawSandboxConfig, p: RawSandboxConfig|
        {
            &&& crate::commands::start::is_table(crate::commands::start::user_table(user), u)
            &&& crate::commands::start::is_table(crate::commands::start::project_table(config), p)
            &&& #[trigger] merge_gives(Ok(plan.sandbox), u, p)
        };
    assert(plan.sandbox.volumes@.take(u.volumes@.len() as int) =~= u.volumes@);
}

/// A start is planned exactly where the project's file can be loaded, the user's file and the
/// policies can be used, no name is both a variable and a secret, the workspace has a name, and
/// every rule of the command line can be read. The project's file is looked at first, and its error
/// is the one that is reported.
pub proof fn law_starts_that_are_planned(
    args: StartArgs,
    config: Option<ProjectConfig>,
    user: FileRead<UserConfigFile>,
    found: FoundPolicies,
    r: Result<StartPlan, SodagunError>,
    project: Result<(ImageConfig, RawSandboxConfig), SodagunError>,
    policies: Result<(Table<NamedPolicy>, Option<String>), SodagunError>,
)
    requires
        call_ensures(plan_start, (&args, config, user, found), r),
        config matches Some(c) ==> replies_match(c.read, c.replies),
        config matches Some(c) ==> exists|path: &str|
            path@ == c.path@ && #[trigger] call_ensures(
                load_config,
                (path, c.read, c.replies),
                project,
            ),
        call_ensures(
            load_user_network_policies,
            (found.path, found.file, found.dir, found.files),
            policies,
        ),
    ensures
        config is Some && project is Err ==> r is Err && r->Err_0@ == project->Err_0@,
        user is Unreadable || user is Malformed ==> r is Err,
        policies is Err ==> r is Err,
        crate::path::file_name(args.workspace_path@) is None ==> r is Err,
        values_meant(texts(args.net_rules@)) is Err ==> r is Err,
        r is Err ==> {
            ||| config is Some && project is Err
            ||| user is Unreadable
            ||| user is Malformed
            ||| policies is Err
            ||| tables_clash(user_table(user), project_table(config))
            ||| crate::path::file_name(args.workspace_path@) is None
            ||| values_meant(texts(args.net_rules@)) is Err
        },
{
}

/// The options of the command line are in the plan: each default as its word says, and the rules
/// in their order.
pub proof fn law_plan_has_the_options(
    args: StartArgs,
    config: Option<ProjectConfig>,
    user: FileRead<UserConfigFile>,
    found: FoundPolicies,
    plan: StartPlan,
)
    requires
        call_ensures(plan_start, (&args, config, user, found), Ok(plan)),
    ensures
        args.net_default_egress is None ==> plan.cli_net.default_egress is None,
        args.net_default_egress is Some && args.net_default_egress->0@ == "allow"@
            ==> plan.cli_net.default_egress == Some(ConfigAction::Allow),
        args.net_default_egress is Some && args.net_default_egress->0@ == "deny"@
            ==> plan.cli_net.default_egress == Some(ConfigAction::Deny),
        args.net_default_ingress is None ==> plan.cli_net.default_ingress is None,
        args.net_default_ingress is Some && args.net_default_ingress->0@ == "allow"@
            ==> plan.cli_net.default_ingress == Some(ConfigAction::Allow),
        args.net_default_ingress is Some && args.net_default_ingress->0@ == "deny"@
            ==> plan.cli_net.default_ingress == Some(ConfigAction::Deny),
        values_meant(texts(args.net_rules@)) is Ok,
        values_meant(texts(args.net_rules@))->Ok_0 == Seq::new(
            plan.cli_net.rules@.len(),
            |i: int| plan.cli_net.rules@[i]@,
        ),
{
    crate::laws::networking::law_words();
    assert(values_meant(texts(args.net_rules@))->Ok_0 =~= Seq::new(
        plan.cli_net.rules@.len(),
        |i: int| plan.cli_net.rules@[i]@,
    ));
}

/// The policies of the plan are those of the user's file and those of the policy directory, which
/// win; the directory is in the plan exactly where it exists.
pub proof fn law_plan_has_the_policies(
    args: StartArgs,
    config: Option<ProjectConfig>,
    user: FileRead<UserConfigFile>,
    found: FoundPolicies,
    plan: StartPlan,
)
    requires
        call_ensures(plan_start, (&args, config, user, found), Ok(plan)),
    ensures
        found.files is Parsed ==> plan.policies_dir == found.dir,
        !(found.files is Parsed) ==> plan.policies_dir is None,
        found.file matches FileRead::Parsed(t) ==> forall|k: Seq<char>| #[trigger]
            t@.dom().contains(k) ==> plan.policies@.dom().contains(k),
        found.file matches FileRead::Parsed(t) ==> (!(found.files is Parsed) ==> plan.policies@
            == t@),
{
    if let FileRead::Parsed(t) = found.file {
        if !(found.files is Parsed) {
            assert(plan.policies@ =~= t@);
        }
    }
}

// ── The project's root directory ──────────────────────────────────────────────

proof fn lemma_first_marked(probes: Seq<DirProbe>, i: int)
    requires
        0 <= i < probes.len(),
        probes[i].has_toml || probes[i].has_git,
        forall|j: int|
            0 <= j < i ==> !(#[trigger] probes[j]).has_toml && !probes[j].has_git,
    ensures
        first_marked(probes) == Some(probes[i].dir@),
    decreases probes.len(),
{
    if i > 0 {
        assert(!probes[0].has_toml && !probes[0].has_git);
        let rest = probes.skip(1);
        assert forall|j: int| 0 <= j < i - 1 implies !(#[trigger] rest[j]).has_toml
            && !rest[j].has_git by {
            assert(rest[j] == probes[j + 1]);
        }
        lemma_first_marked(rest, i - 1);
    }
}

proof fn lemma_none_marked(probes: Seq<DirProbe>)
    requires
        forall|j: int|
            0 <= j < probes.len() ==> !(#[trigger] probes[j]).has_toml && !probes[j].has_git,
    ensures
        first_marked(probes) is None,
    decreases probes.len(),
{
    if probes.len() > 0 {
        let rest = probes.skip(1);
        assert(!probes[0].has_toml && !probes[0].has_git);
        assert forall|j: int| 0 <= j < rest.len() implies !(#[trigger] rest[j]).has_toml
            && !rest[j].has_git by {
            assert(rest[j] == probes[j + 1]);
        }
        lemma_none_marked(rest);
    }
}

/// The project's root directory is the one given, or else the nearest that holds a `sodagun.toml`
/// or a `.git`; where none does, there is none.
pub proof fn law_nearest_marked_directory(
    given: Option<&str>,
    probes: Vec<DirProbe>,
    quiet: bool,
    r: Result<ProjectDir, String>,
    i: int,
)
    requires
        call_ensures(find_project_dir, (given, &probes, quiet), r),
        0 <= i <= probes@.len(),
        i < probes@.len() ==> probes@[i].has_toml || probes@[i].has_git,
        forall|j: int|
            0 <= j < i ==> !(#[trigger] probes@[j]).has_toml && !probes@[j].has_git,
    ensures
        given is Some ==> r is Ok && r->Ok_0.dir@ == given->0@ && r->Ok_0.warning is None,
        given is None && i < probes@.len() ==> r is Ok && r->Ok_0.dir@ == probes@[i].dir@,
        given is None && i == probes@.len() ==> r is Err,
{
    if i < probes@.len() {
        lemma_first_marked(probes@, i);
    } else {
        lemma_none_marked(probes@);
    }
}

proof fn lemma_first_toml(probes: Seq<DirProbe>, i: int)
    requires
        0 <= i <= probes.len(),
        i < probes.len() ==> probes[i].has_toml,
        forall|j: int| 0 <= j < i ==> !(#[trigger] probes[j]).has_toml,
    ensures
        i < probes.len() ==> first_toml(probes) == Some(probes[i].dir@),
        i == probes.len() ==> first_toml(probes) is None,
    decreases probes.len(),
{
    if i > 0 {
        assert(!probes[0].has_toml);
        let rest = probes.skip(1);
        assert forall|j: int| 0 <= j < i - 1 implies !(#[trigger] rest[j]).has_toml by {
            assert(rest[j] == probes[j + 1]);
        }
        lemma_first_toml(rest, i - 1);
    }
}

proof fn lemma_first_git(probes: Seq<DirProbe>, i: int)
    requires
        0 <= i <= probes.len(),
        i < probes.len() ==> probes[i].has_git,
        forall|j: int| 0 <= j < i ==> !(#[trigger] probes[j]).has_git,
    ensures
        i < probes.len() ==> first_git(probes) == Some(probes[i].dir@),
        i == probes.len() ==> first_git(probes) is None,
    decreases probes.len(),
{
    if i > 0 {
        assert(!probes[0].has_git);
        let rest = probes.skip(1);
        assert forall|j: int| 0 <= j < i - 1 implies !(#[trigger] rest[j]).has_git by {
            assert(rest[j] == probes[j + 1]);
        }
        lemma_first_git(rest, i - 1);
    }
}

/// There is a warning exactly where the nearest `sodagun.toml` and the nearest `.git` are in
/// different directories and we are not to be quiet; it names both.
pub proof fn law_misplaced_file_is_warned_of(
    probes: Vec<DirProbe>,
    quiet: bool,
    p: ProjectDir,
    t: int,
    g: int,
)
    requires
        call_ensures(find_project_dir, (None, &probes, quiet), Ok(p)),
        0 <= t <= probes@.len(),
        t < probes@.len() ==> probes@[t].has_toml,
        forall|j: int| 0 <= j < t ==> !(#[trigger] probes@[j]).has_toml,
        0 <= g <= probes@.len(),
        g < probes@.len() ==> probes@[g].has_git,
        forall|j: int| 0 <= j < g ==> !(#[trigger] probes@[j]).has_git,
    ensures
        p.warning is Some <==> {
            &&& !quiet
            &&& t < probes@.len()
            &&& g < probes@.len()
            &&& probes@[t].dir@ != probes@[g].dir@
        },
        p.warning is Some ==> p.warning->0@ == "sodagun.toml should be at the project root ("@
            + probes@[g].dir@ + "), not "@ + probes@[t].dir@,
{
    lemma_first_toml(probes@, t);
    lemma_first_git(probes@, g);
}

} // verus!
