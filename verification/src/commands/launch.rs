//! Launching a sandbox: what it boots from, what it may reach, and what it sees.

use crate::commands::start::StartPlan;
use crate::config::volume::{parse_volume, volume_meant, MountFlags};
use crate::config::{EnvValue, ImageConfig, SandboxConfig, SecretConfig};
use crate::error::{failure, fault, Failure, SodagunError};
use crate::git_access::{env_models, GitAccessSpec, MountModel};
use crate::network::policy::{
    build_network_policy, invalid_policy, policy_known, policy_plan, unknown_policy,
};
use crate::network::sdk::{build_complaint, buildable, built, policy_model};
use crate::text::{contains_char, has_char, opt_str, opt_text, texts};
use crate::util::{RuntimeError, RuntimeErrorKind};
use crate::values::{
    answers, env_question, env_value, question_of, resolve_env_value, resolve_secret_value,
    secret_source, secret_value, HostAnswer,
};
use microsandbox_network::policy::NetworkPolicy;
use vstd::prelude::*;

verus! {

// ── Boot ──────────────────────────────────────────────────────────────────────

/// What a sandbox boots from.
#[derive(Debug)]
pub enum BootSource {
    /// The snapshot that the project's setup script made; it must exist.
    ProjectSnapshot(String),
    Image(String),
    Snapshot(String),
    /// Nothing is configured.
    Unset,
}

/// What a `BootSource` says.
pub ghost enum BootModel {
    ProjectSnapshot(Seq<char>),
    Image(Seq<char>),
    Snapshot(Seq<char>),
    Unset,
}

impl View for BootSource {
    type V = BootModel;

    open spec fn view(&self) -> BootModel {
        match self {
            BootSource::ProjectSnapshot(s) => BootModel::ProjectSnapshot(s@),
            BootSource::Image(s) => BootModel::Image(s@),
            BootSource::Snapshot(s) => BootModel::Snapshot(s@),
            BootSource::Unset => BootModel::Unset,
        }
    }
}

/// What a sandbox boots from: the project's snapshot where there is a setup script, and else the
/// base.
pub open spec fn boot_meant(image: ImageConfig) -> BootModel {
    match image.snapshot() {
        Some(name) => BootModel::ProjectSnapshot(name),
        None => match (image.base_image, image.base_snapshot) {
            (Some(i), _) => BootModel::Image(i@),
            (None, Some(s)) => BootModel::Snapshot(s@),
            (None, None) => BootModel::Unset,
        },
    }
}

/// What a sandbox boots from.
pub fn boot_source(image: &ImageConfig) -> (r: BootSource)
    ensures
        r@ == boot_meant(*image),
{
    match image.derived_snapshot_name() {
        Some(name) => BootSource::ProjectSnapshot(name),
        None => match &image.base_image {
            Some(i) => BootSource::Image(i.clone()),
            None => match &image.base_snapshot {
                Some(s) => BootSource::Snapshot(s.clone()),
                None => BootSource::Unset,
            },
        },
    }
}

/// What is logged about the boot.
pub fn boot_note(boot: &BootSource) -> (r: Option<String>)
    ensures
        opt_text(r) == match boot@ {
            BootModel::ProjectSnapshot(s) => Some("booting from project snapshot: "@ + s),
            BootModel::Image(s) => Some("booting from image: "@ + s),
            BootModel::Snapshot(s) => Some("booting from snapshot: "@ + s),
            BootModel::Unset => None,
        },
{
    match boot {
        BootSource::ProjectSnapshot(s) => Some(
            "booting from project snapshot: ".to_owned().concat(s.as_str()),
        ),
        BootSource::Image(s) => Some("booting from image: ".to_owned().concat(s.as_str())),
        BootSource::Snapshot(s) => Some("booting from snapshot: ".to_owned().concat(s.as_str())),
        BootSource::Unset => None,
    }
}

/// The error for a project's snapshot that could not be looked up.
pub fn boot_error(name: &str, e: &RuntimeError) -> (r: SodagunError)
    ensures
        r@ == if e.kind == RuntimeErrorKind::SnapshotNotFound {
            failure(
                "SNAPSHOT_NOT_FOUND"@,
                "snapshot '"@ + name@
                    + "' not found — run 'sodagun snapshot create <rootdir>' first"@,
            )
        } else {
            failure("SNAPSHOT_ERROR"@, e.text@)
        },
{
    if e.kind == RuntimeErrorKind::SnapshotNotFound {
        fault(
            "SNAPSHOT_NOT_FOUND",
            "snapshot '".to_owned().concat(name).concat(
                "' not found — run 'sodagun snapshot create <rootdir>' first",
            ),
        )
    } else {
        fault("SNAPSHOT_ERROR", e.text.clone())
    }
}

// ── Mounts ────────────────────────────────────────────────────────────────────

/// A directory or file of the host that the sandbox sees.
#[derive(Debug)]
pub struct Mount {
    pub host: String,
    pub guest: String,
    pub flags: MountFlags,
}

/// The contents of mounts.
pub open spec fn mounts_model(mounts: Seq<Mount>) -> Seq<(Seq<char>, Seq<char>, MountFlags)> {
    Seq::new(mounts.len(), |i: int| (mounts[i].host@, mounts[i].guest@, mounts[i].flags))
}

/// The mounts that volumes stand for, or what the first that is wrong is answered with.
pub open spec fn volumes_meant(volumes: Seq<Seq<char>>, home: Option<Seq<char>>) -> Result<
    Seq<(Seq<char>, Seq<char>, MountFlags)>,
    Failure,
>
    decreases volumes.len(),
{
    if volumes.len() == 0 {
        Ok(Seq::empty())
    } else {
        match volumes_meant(volumes.drop_last(), home) {
            Err(e) => Err(e),
            Ok(before) => match volume_meant(volumes.last(), home) {
                Err(e) => Err(e),
                Ok(m) => Ok(before.push(m)),
            },
        }
    }
}

proof fn lemma_first_volume_error(volumes: Seq<Seq<char>>, home: Option<Seq<char>>, n: int)
    requires
        0 <= n <= volumes.len(),
        volumes_meant(volumes.take(n), home) is Err,
    ensures
        volumes_meant(volumes, home) == volumes_meant(volumes.take(n), home),
    decreases volumes.len(),
{
    if n < volumes.len() {
        assert(volumes.drop_last().take(n) =~= volumes.take(n));
        lemma_first_volume_error(volumes.drop_last(), home, n);
    } else {
        assert(volumes.take(n) =~= volumes);
    }
}

/// The mounts that volumes stand for.
fn parse_volumes(volumes: &Vec<String>, home: Option<&str>) -> (r: Result<
    Vec<Mount>,
    SodagunError,
>)
    ensures
        match r {
            Ok(mounts) => volumes_meant(texts(volumes@), opt_str(home)) == Ok::<
                Seq<(Seq<char>, Seq<char>, MountFlags)>,
                Failure,
            >(mounts_model(mounts@)),
            Err(e) => volumes_meant(texts(volumes@), opt_str(home)) == Err::<
                Seq<(Seq<char>, Seq<char>, MountFlags)>,
                Failure,
            >(e@),
        },
{
    let ghost all = texts(volumes@);
    let mut mounts: Vec<Mount> = Vec::new();
    let mut i: usize = 0;
    assert(mounts_model(mounts@) =~= Seq::empty());
    while i < volumes.len()
        invariant
            i <= volumes.len(),
            all == texts(volumes@),
            volumes_meant(all.take(i as int), opt_str(home)) == Ok::<
                Seq<(Seq<char>, Seq<char>, MountFlags)>,
                Failure,
            >(mounts_model(mounts@)),
        decreases volumes.len() - i,
    {
        proof {
            assert(all.take(i + 1).drop_last() =~= all.take(i as int));
            assert(all.take(i + 1).last() == volumes@[i as int]@);
        }
        match parse_volume(volumes[i].as_str(), home) {
            Ok((host, guest, flags)) => {
                let ghost before = mounts@;
                mounts.push(Mount { host, guest, flags });
                assert(mounts_model(mounts@) =~= mounts_model(before).push((host@, guest@, flags)));
            },
            Err(e) => {
                proof {
                    lemma_first_volume_error(all, opt_str(home), i + 1);
                }
                return Err(e);
            },
        }
        i += 1;
    }
    assert(all.take(i as int) =~= all);
    Ok(mounts)
}

// ── The launch ────────────────────────────────────────────────────────────────

/// A host that a secret may be sent to.
#[derive(Debug)]
pub struct AllowedHost {
    pub host: String,
    /// Whether it stands for more than one host.
    pub pattern: bool,
}

/// A secret that a sandbox is given.
#[derive(Debug)]
pub struct SecretPlan {
    pub name: String,
    pub value: String,
    pub hosts: Vec<AllowedHost>,
}

/// What a sandbox is launched with.
#[derive(Debug)]
pub struct LaunchPlan {
    pub name: String,
    pub boot: BootSource,
    pub cpus: u8,
    pub memory_mb: u32,
    pub working_dir: String,
    /// The network policy; a sandbox without one has no network.
    pub network: Option<NetworkPolicy>,
    /// In the order in which they are to be made.
    pub mounts: Vec<Mount>,
    /// In the order in which they are to be set.
    pub env: Vec<(String, String)>,
    pub secrets: Vec<SecretPlan>,
}

/// Whether a sandbox has a network at all: where nothing is configured, it has none.
pub open spec fn networked(plan: StartPlan) -> bool {
    plan.sandbox.network.configured() || plan.cli_net.configured()
}

/// What keeps the network policy from being built, if anything.
pub open spec fn network_failure(plan: StartPlan) -> Option<Failure> {
    let net = plan.sandbox.network;
    let policies = plan.policies@;
    if !networked(plan) {
        None
    } else if !policy_known(net, policies) {
        Some(unknown_policy(net.policy->0@, opt_text(plan.policies_dir)))
    } else if !buildable(policy_plan(net, plan.cli_net, policies)) {
        Some(invalid_policy(build_complaint(policy_plan(net, plan.cli_net, policies))))
    } else {
        None
    }
}

/// What keeps a sandbox from being launched before git, variables and secrets are looked at, if
/// anything. A worktree path that is not text is `None`.
pub open spec fn launch_failure(
    plan: StartPlan,
    worktree: Option<Seq<char>>,
    home: Option<Seq<char>>,
) -> Option<Failure> {
    match network_failure(plan) {
        Some(e) => Some(e),
        None => match worktree {
            None => Some(
                failure("CONFIG_INVALID"@, "worktree path contains non-UTF-8 characters"@),
            ),
            Some(_) => match volumes_meant(texts(plan.sandbox.volumes@), home) {
                Err(e) => Some(e),
                Ok(_) => None,
            },
        },
    }
}

/// Whether `launch` is what `plan` stands for, before git, variables and secrets.
pub open spec fn is_begun(
    launch: LaunchPlan,
    plan: StartPlan,
    worktree: Seq<char>,
    home: Option<Seq<char>>,
) -> bool {
    let c = plan.sandbox;
    &&& launch.name@ == plan.sandbox_name@
    &&& launch.boot@ == boot_meant(plan.image)
    &&& launch.cpus == c.cpus
    &&& launch.memory_mb == c.memory_mb
    &&& launch.working_dir@ == c.working_dir@
    &&& launch.network is Some <==> networked(plan)
    &&& launch.network matches Some(p) ==> policy_model(p) == built(
        policy_plan(c.network, plan.cli_net, plan.policies@),
    )
    &&& mounts_model(launch.mounts@) == seq![
        (worktree, c.working_dir@, MountFlags { readonly: false, noexec: false }),
    ] + volumes_meant(texts(c.volumes@), home)->Ok_0
    &&& launch.env@ == Seq::<(String, String)>::empty()
    &&& launch.secrets@ == Seq::<SecretPlan>::empty()
}

/// The network policy of a sandbox, or none.
fn network_of(plan: &StartPlan) -> (r: Result<Option<NetworkPolicy>, SodagunError>)
    ensures
        match r {
            Ok(p) => {
                &&& network_failure(*plan) is None
                &&& p is Some <==> networked(*plan)
                &&& p matches Some(policy) ==> policy_model(policy) == built(
                    policy_plan(plan.sandbox.network, plan.cli_net, plan.policies@),
                )
            },
            Err(e) => network_failure(*plan) == Some(e@),
        },
{
    if !plan.sandbox.network.has_config() && !plan.cli_net.has_config() {
        return Ok(None);
    }
    let dir = match &plan.policies_dir {
        Some(d) => Some(d.as_str()),
        None => None,
    };
    match build_network_policy(&plan.sandbox.network, &plan.cli_net, &plan.policies, dir) {
        Ok(p) => Ok(Some(p)),
        Err(e) => Err(e),
    }
}

/// Begins a launch: boot, resources, network, worktree and volumes. The worktree is mounted first,
/// at the working directory.
pub fn begin_launch(plan: &StartPlan, worktree: Option<&str>, home: Option<&str>) -> (r: Result<
    LaunchPlan,
    SodagunError,
>)
    ensures
        match r {
            Ok(launch) => {
                &&& launch_failure(*plan, opt_str(worktree), opt_str(home)) is None
                &&& is_begun(launch, *plan, worktree->0@, opt_str(home))
            },
            Err(e) => launch_failure(*plan, opt_str(worktree), opt_str(home)) == Some(e@),
        },
{
    let boot = boot_source(&plan.image);
    let network = match network_of(plan) {
        Ok(n) => n,
        Err(e) => return Err(e),
    };
    let worktree = match worktree {
        Some(w) => w,
        None => {
            return Err(
                fault(
                    "CONFIG_INVALID",
                    "worktree path contains non-UTF-8 characters".to_owned(),
                ),
            );
        },
    };
    let mut volumes = match parse_volumes(&plan.sandbox.volumes, home) {
        Ok(v) => v,
        Err(e) => return Err(e),
    };
    let ghost parsed = volumes@;
    let working_dir = plan.sandbox.working_dir.as_str();
    let mut mounts: Vec<Mount> = Vec::new();
    mounts.push(
        Mount {
            host: worktree.to_owned(),
            guest: working_dir.to_owned(),
            flags: MountFlags { readonly: false, noexec: false },
        },
    );
    mounts.append(&mut volumes);
    assert(mounts_model(mounts@) =~= seq![
        (worktree@, working_dir@, MountFlags { readonly: false, noexec: false }),
    ] + mounts_model(parsed));
    Ok(
        LaunchPlan {
            name: plan.sandbox_name.clone(),
            boot,
            cpus: plan.sandbox.cpus,
            memory_mb: plan.sandbox.memory_mb,
            working_dir: working_dir.to_owned(),
            network,
            mounts,
            env: Vec::new(),
            secrets: Vec::new(),
        },
    )
}

// ── Git ───────────────────────────────────────────────────────────────────────

/// The mounts for git as mounts of a sandbox.
pub open spec fn git_mounts_model(mounts: Seq<MountModel>) -> Seq<
    (Seq<char>, Seq<char>, MountFlags),
> {
    Seq::new(
        mounts.len(),
        |i: int|
            (
                mounts[i].host,
                mounts[i].guest,
                MountFlags { readonly: mounts[i].readonly, noexec: false },
            ),
    )
}

/// The variables of `env` that are neither a configured variable nor a configured secret.
pub open spec fn not_configured(
    env: Seq<(Seq<char>, Seq<char>)>,
    variables: Set<Seq<char>>,
    secrets: Set<Seq<char>>,
) -> Seq<(Seq<char>, Seq<char>)>
    decreases env.len(),
{
    if env.len() == 0 {
        Seq::empty()
    } else {
        let before = not_configured(env.drop_last(), variables, secrets);
        let name = env.last().0;
        if variables.contains(name) || secrets.contains(name) {
            before
        } else {
            before.push(env.last())
        }
    }
}

/// Adds access to git: its mounts after all others, since some lie below the worktree, and those
/// of its variables that the configuration does not set itself.
pub fn add_git_access(launch: LaunchPlan, git: GitAccessSpec, config: &SandboxConfig) -> (r:
    LaunchPlan)
    ensures
        mounts_model(r.mounts@) == mounts_model(launch.mounts@) + git_mounts_model(git@.mounts),
        env_models(r.env@) == env_models(launch.env@) + not_configured(
            git@.env,
            config.env@.dom(),
            config.secrets@.dom(),
        ),
        r == (LaunchPlan { mounts: r.mounts, env: r.env, ..launch }),
{
    let mut launch = launch;
    let ghost start_mounts = mounts_model(launch.mounts@);
    let ghost start_env = env_models(launch.env@);
    let ghost all_mounts = git@.mounts;
    let ghost all_env = git@.env;
    let ghost untouched = launch;
    let mut mounts = launch.mounts;
    assert(start_mounts + git_mounts_model(all_mounts).take(0) =~= start_mounts);
    for m in it: git.mounts
        invariant
            it.seq() == git.mounts@,
            all_mounts == git@.mounts,
            mounts_model(mounts@) == start_mounts + git_mounts_model(all_mounts).take(it.index()),
    {
        let ghost before = mounts@;
        let ghost i = it.index();
        let flags = MountFlags { readonly: m.readonly, noexec: false };
        let mount = Mount { host: m.host, guest: m.guest, flags };
        mounts.push(mount);
        proof {
            let added = (mount.host@, mount.guest@, mount.flags);
            assert(git_mounts_model(all_mounts)[i] == added);
            assert(mounts_model(mounts@) =~= mounts_model(before).push(added));
            assert(git_mounts_model(all_mounts).take(i + 1) =~= git_mounts_model(
                all_mounts,
            ).take(i).push(added));
            assert(mounts_model(mounts@) =~= start_mounts + git_mounts_model(all_mounts).take(
                i + 1,
            ));
        }
    }
    assert(git_mounts_model(all_mounts).take(all_mounts.len() as int) =~= git_mounts_model(
        all_mounts,
    ));
    let mut env = launch.env;
    assert(all_env.take(0) =~= Seq::empty());
    assert(start_env + not_configured(
        all_env.take(0),
        config.env@.dom(),
        config.secrets@.dom(),
    ) =~= start_env);
    for pair in it: git.env
        invariant
            it.seq() == git.env@,
            all_env == env_models(git.env@),
            env_models(env@) == start_env + not_configured(
                all_env.take(it.index()),
                config.env@.dom(),
                config.secrets@.dom(),
            ),
    {
        let ghost before = env@;
        let ghost i = it.index();
        let ghost had = not_configured(
            all_env.take(i),
            config.env@.dom(),
            config.secrets@.dom(),
        );
        proof {
            assert(all_env.take(i + 1).drop_last() =~= all_env.take(i));
            assert(all_env.take(i + 1).last() == (pair.0@, pair.1@));
        }
        let configured = config.env.contains_key(pair.0.as_str()) || config.secrets.contains_key(
            pair.0.as_str(),
        );
        if !configured {
            let ghost added = (pair.0@, pair.1@);
            env.push(pair);
            assert(env_models(env@) =~= env_models(before).push(added));
            assert(start_env + had.push(added) =~= (start_env + had).push(added));
        }
    }
    assert(all_env.take(all_env.len() as int) =~= all_env);
    launch.mounts = mounts;
    launch.env = env;
    launch
}

// ── Variables and secrets ─────────────────────────────────────────────────────

/// Adds a configured variable, given the host's answer.
pub fn add_variable(
    launch: LaunchPlan,
    name: &str,
    val: &EnvValue,
    answer: HostAnswer,
) -> (r: Result<LaunchPlan, SodagunError>)
    requires
        answers(env_question(*val), answer),
    ensures
        match r {
            Ok(l) => {
                &&& env_value(name@, *val, answer) is Ok
                &&& env_models(l.env@) == env_models(launch.env@).push(
                    (name@, env_value(name@, *val, answer)->Ok_0),
                )
                &&& l == (LaunchPlan { env: l.env, ..launch })
            },
            Err(e) => env_value(name@, *val, answer) == Err::<Seq<char>, Failure>(e@),
        },
{
    match resolve_env_value(name, val, answer) {
        Ok(v) => {
            let mut launch = launch;
            let ghost before = launch.env@;
            let mut env = launch.env;
            env.push((name.to_owned(), v));
            assert(env_models(env@) =~= env_models(before).push((name@, v@)));
            launch.env = env;
            Ok(launch)
        },
        Err(e) => Err(e),
    }
}

/// The hosts that a secret may be sent to; one with a `*` is a pattern.
pub open spec fn hosts_model(hosts: Seq<AllowedHost>) -> Seq<(Seq<char>, bool)> {
    Seq::new(hosts.len(), |i: int| (hosts[i].host@, hosts[i].pattern))
}

/// What a list of allowed hosts stands for.
pub open spec fn hosts_meant(hosts: Seq<Seq<char>>) -> Seq<(Seq<char>, bool)> {
    Seq::new(hosts.len(), |i: int| (hosts[i], has_char(hosts[i], '*')))
}

/// The hosts that a secret may be sent to.
pub fn allowed_hosts(hosts: &Vec<String>) -> (r: Vec<AllowedHost>)
    ensures
        hosts_model(r@) == hosts_meant(texts(hosts@)),
{
    let mut r: Vec<AllowedHost> = Vec::new();
    let mut i: usize = 0;
    while i < hosts.len()
        invariant
            i <= hosts.len(),
            hosts_model(r@) == hosts_meant(texts(hosts@)).take(i as int),
        decreases hosts.len() - i,
    {
        let ghost before = r@;
        let h = AllowedHost {
            host: hosts[i].clone(),
            pattern: contains_char(hosts[i].as_str(), '*'),
        };
        r.push(h);
        assert(hosts_meant(texts(hosts@))[i as int] == (h.host@, h.pattern));
        assert(hosts_model(r@) =~= hosts_model(before).push((h.host@, h.pattern)));
        assert(hosts_meant(texts(hosts@)).take(i + 1) =~= hosts_meant(texts(hosts@)).take(
            i as int,
        ).push((h.host@, h.pattern)));
        i += 1;
    }
    assert(hosts_meant(texts(hosts@)).take(i as int) =~= hosts_meant(texts(hosts@)));
    r
}

/// Adds a configured secret, given the host's answer.
pub fn add_secret(launch: LaunchPlan, name: &str, secret: &SecretConfig, answer: HostAnswer) -> (r:
    Result<LaunchPlan, SodagunError>)
    requires
        answers(question_of(secret_source(*secret)), answer),
    ensures
        match r {
            Ok(l) => {
                &&& secret_value(name@, *secret, answer) is Ok
                &&& l.secrets@.len() == launch.secrets@.len() + 1
                &&& l.secrets@.drop_last() == launch.secrets@
                &&& l.secrets@.last().name@ == name@
                &&& l.secrets@.last().value@ == secret_value(name@, *secret, answer)->Ok_0
                &&& hosts_model(l.secrets@.last().hosts@) == hosts_meant(
                    texts(secret.allowed_hosts@),
                )
                &&& l == (LaunchPlan { secrets: l.secrets, ..launch })
            },
            Err(e) => secret_value(name@, *secret, answer) == Err::<Seq<char>, Failure>(e@),
        },
{
    match resolve_secret_value(name, secret, answer) {
        Ok(value) => {
            let mut launch = launch;
            let mut secrets = launch.secrets;
            secrets.push(
                SecretPlan {
                    name: name.to_owned(),
                    value,
                    hosts: allowed_hosts(&secret.allowed_hosts),
                },
            );
            launch.secrets = secrets;
            assert(launch.secrets@.drop_last() =~= secrets@.drop_last());
            Ok(launch)
        },
        Err(e) => Err(e),
    }
}

/// The error for a sandbox that could not be made.
pub fn launch_error(why: &str) -> (e: SodagunError)
    ensures
        e@ == failure("SANDBOX_ERROR"@, "failed to create sandbox: "@ + why@),
{
    fault("SANDBOX_ERROR", "failed to create sandbox: ".to_owned().concat(why))
}

// ── Laws ──────────────────────────────────────────────────────────────────────

/// A sandbox for which no network is configured has none.
pub proof fn law_no_network_by_default(
    launch: LaunchPlan,
    plan: StartPlan,
    worktree: Seq<char>,
    home: Option<Seq<char>>,
)
    requires
        is_begun(launch, plan, worktree, home),
        !plan.sandbox.network.configured(),
        !plan.cli_net.configured(),
    ensures
        launch.network is None,
{
}

/// Whether no name occurs twice.
pub open spec fn names_distinct(env: Seq<(Seq<char>, Seq<char>)>) -> bool {
    forall|i: int, j: int|
        0 <= i < j < env.len() ==> (#[trigger] env[i]).0 != (#[trigger] env[j]).0
}

/// What the configuration sets wins over git's variables: none of those that are kept is
/// configured, and those that are left out are.
pub proof fn law_configuration_wins_over_git(
    env: Seq<(Seq<char>, Seq<char>)>,
    variables: Set<Seq<char>>,
    secrets: Set<Seq<char>>,
)
    ensures
        forall|i: int|
            0 <= i < not_configured(env, variables, secrets).len() ==> {
                let kept = #[trigger] not_configured(env, variables, secrets)[i];
                !variables.contains(kept.0) && !secrets.contains(kept.0) && env.contains(kept)
            },
        forall|i: int|
            0 <= i < env.len() ==> variables.contains((#[trigger] env[i]).0) || secrets.contains(
                env[i].0,
            ) || not_configured(env, variables, secrets).contains(env[i]),
    decreases env.len(),
{
    if env.len() > 0 {
        let init = env.drop_last();
        law_configuration_wins_over_git(init, variables, secrets);
        let before = not_configured(init, variables, secrets);
        let now = not_configured(env, variables, secrets);
        assert forall|i: int| 0 <= i < now.len() implies {
            let kept = #[trigger] now[i];
            !variables.contains(kept.0) && !secrets.contains(kept.0) && env.contains(kept)
        } by {
            if i < before.len() {
                assert(now[i] == before[i]);
                let k = choose|k: int| 0 <= k < init.len() && init[k] == before[i];
                assert(env[k] == now[i]);
            } else {
                assert(env[env.len() - 1] == now[i]);
            }
        }
        assert forall|i: int| 0 <= i < env.len() implies variables.contains((#[trigger] env[i]).0)
            || secrets.contains(env[i].0) || now.contains(env[i]) by {
            if i < init.len() {
                assert(env[i] == init[i]);
                if before.contains(init[i]) {
                    let k = choose|k: int| 0 <= k < before.len() && before[k] == init[i];
                    assert(now[k] == env[i]);
                }
            } else if !variables.contains(env[i].0) && !secrets.contains(env[i].0) {
                assert(now[now.len() - 1] == env[i]);
            }
        }
    }
}

/// No variable of a sandbox is set twice: neither by git, nor by git and the configuration.
pub proof fn law_no_variable_is_set_twice(
    env: Seq<(Seq<char>, Seq<char>)>,
    variables: Set<Seq<char>>,
    secrets: Set<Seq<char>>,
    configured: Seq<(Seq<char>, Seq<char>)>,
)
    requires
        names_distinct(env),
        names_distinct(configured),
        forall|i: int|
            0 <= i < configured.len() ==> variables.contains((#[trigger] configured[i]).0),
    ensures
        names_distinct(not_configured(env, variables, secrets) + configured),
    decreases env.len(),
{
    let kept = not_configured(env, variables, secrets);
    let all = kept + configured;
    law_configuration_wins_over_git(env, variables, secrets);
    lemma_kept_distinct(env, variables, secrets);
    assert forall|i: int, j: int| 0 <= i < j < all.len() implies (#[trigger] all[i]).0 != (
    #[trigger] all[j]).0 by {
        if j < kept.len() {
            assert(all[i] == kept[i] && all[j] == kept[j]);
        } else if i < kept.len() {
            assert(all[i] == kept[i] && all[j] == configured[j - kept.len()]);
        } else {
            assert(all[i] == configured[i - kept.len()] && all[j] == configured[j - kept.len()]);
        }
    }
}

proof fn lemma_kept_distinct(
    env: Seq<(Seq<char>, Seq<char>)>,
    variables: Set<Seq<char>>,
    secrets: Set<Seq<char>>,
)
    requires
        names_distinct(env),
    ensures
        names_distinct(not_configured(env, variables, secrets)),
    decreases env.len(),
{
    if env.len() > 0 {
        let init = env.drop_last();
        assert forall|i: int, j: int| 0 <= i < j < init.len() implies (#[trigger] init[i]).0 != (
        #[trigger] init[j]).0 by {
            assert(env[i].0 != env[j].0);
        }
        lemma_kept_distinct(init, variables, secrets);
        law_configuration_wins_over_git(init, variables, secrets);
        let before = not_configured(init, variables, secrets);
        let now = not_configured(env, variables, secrets);
        assert forall|i: int, j: int| 0 <= i < j < now.len() implies (#[trigger] now[i]).0 != (
        #[trigger] now[j]).0 by {
            assert(now[i] == before[i]);
            if j < before.len() {
                assert(now[j] == before[j]);
            } else {
                let k = choose|k: int| 0 <= k < init.len() && init[k] == before[i];
                assert(env[k].0 != env[env.len() - 1].0);
            }
        }
    }
}

} // verus!
