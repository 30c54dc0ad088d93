//! Laws of `sandbox start`: what a sandbox is launched with.

use crate::commands::launch::{
    add_git_access, allowed_hosts, begin_launch, boot_source, git_mounts_model, hosts_meant,
    hosts_model, mounts_model, not_configured, volumes_meant, AllowedHost, BootModel, BootSource,
    LaunchPlan, Mount,
};
use crate::commands::launch_run::{secret_models, secrets_set, variables_set, LaunchRun};
use crate::commands::start::StartPlan;
use crate::config::{EnvValue, ImageConfig, SandboxConfig};
use crate::config::volume::{volume_meant, MountFlags};
use crate::error::{Failure, SodagunError};
use crate::git_access::{env_models, mount_models, GitAccessSpec, GitMount};
use crate::laws::host_values::{comes_from, lemma_source};
use crate::laws::running::printable;
use crate::laws::texts::law_has_char;
use crate::network::policy::{build_network_policy, policy_known, policy_plan};
use crate::network::sdk::{built, policy_model};
use crate::text::{opt_str, opt_text, texts};
use crate::values::{
    env_value, lemma_first_control, secret_owner, secret_source, secret_value, variable_owner,
    HostAnswer, HostQuestion,
};
use microsandbox_network::policy::NetworkPolicy;
use vstd::prelude::*;

verus! {

proof fn lemma_git_mounts(before: Seq<Mount>, git: Seq<GitMount>, after: Seq<Mount>)
    requires
        mounts_model(after) == mounts_model(before) + git_mounts_model(mount_models(git)),
    ensures
        after.len() == before.len() + git.len(),
        forall|i: int|
            0 <= i < git.len() ==> {
                let m = after[before.len() + i];
                &&& m.host@ == (#[trigger] git[i]).host@
                &&& m.guest@ == git[i].guest@
                &&& m.flags.readonly <==> git[i].readonly
                &&& !m.flags.noexec
            },
        forall|i: int|
            0 <= i < before.len() ==> {
                let m = #[trigger] after[i];
                &&& m.host@ == before[i].host@
                &&& m.guest@ == before[i].guest@
                &&& m.flags == before[i].flags
            },
{
    let n = before.len() as int;
    assert(mounts_model(after).len() == after.len());
    assert(mounts_model(before).len() == n);
    assert forall|i: int| 0 <= i < git.len() implies {
        let m = after[n + i];
        &&& m.host@ == (#[trigger] git[i]).host@
        &&& m.guest@ == git[i].guest@
        &&& m.flags.readonly <==> git[i].readonly
        &&& !m.flags.noexec
    } by {
        assert(mounts_model(after)[n + i] == git_mounts_model(mount_models(git))[i]);
    }
    assert forall|i: int| 0 <= i < n implies {
        let m = #[trigger] after[i];
        &&& m.host@ == before[i].host@
        &&& m.guest@ == before[i].guest@
        &&& m.flags == before[i].flags
    } by {
        assert(mounts_model(after)[i] == mounts_model(before)[i]);
    }
}

/// A git mount reaches the sandbox as it is: behind the mounts that were there before, in their
/// order, with the same host path and the same guest path, read-only exactly where it is to be
/// read-only, and with programs allowed. The mounts that were there before stay as they were, and
/// so does everything else but the variables.
pub proof fn law_git_mounts_reach_the_sandbox(
    launch: LaunchPlan,
    git: GitAccessSpec,
    config: SandboxConfig,
    r: LaunchPlan,
)
    requires
        call_ensures(add_git_access, (launch, git, &config), r),
    ensures
        r.mounts@.len() == launch.mounts@.len() + git.mounts@.len(),
        forall|i: int|
            0 <= i < git.mounts@.len() ==> {
                let m = r.mounts@[launch.mounts@.len() + i];
                &&& m.host@ == (#[trigger] git.mounts@[i]).host@
                &&& m.guest@ == git.mounts@[i].guest@
                &&& m.flags.readonly <==> git.mounts@[i].readonly
                &&& !m.flags.noexec
            },
        forall|i: int|
            0 <= i < launch.mounts@.len() ==> {
                let m = #[trigger] r.mounts@[i];
                &&& m.host@ == launch.mounts@[i].host@
                &&& m.guest@ == launch.mounts@[i].guest@
                &&& m.flags == launch.mounts@[i].flags
            },
        r.name == launch.name,
        r.boot == launch.boot,
        r.cpus == launch.cpus,
        r.memory_mb == launch.memory_mb,
        r.working_dir == launch.working_dir,
        r.network == launch.network,
        r.secrets == launch.secrets,
{
    lemma_git_mounts(launch.mounts@, git.mounts@, r.mounts@);
}

/// The same holds of a launch that was filled in: behind the mounts that it began with come those
/// of git, as they are.
pub proof fn law_filled_in_launch_has_the_git_mounts(
    run: LaunchRun,
    git: Seq<GitMount>,
    r: LaunchPlan,
)
    requires
        run.git().mounts == mount_models(git),
        call_ensures(LaunchRun::finish, (run,), r),
    ensures
        r.mounts@.len() == run.begun().mounts@.len() + git.len(),
        forall|i: int|
            0 <= i < git.len() ==> {
                let m = r.mounts@[run.begun().mounts@.len() + i];
                &&& m.host@ == (#[trigger] git[i]).host@
                &&& m.guest@ == git[i].guest@
                &&& m.flags.readonly <==> git[i].readonly
                &&& !m.flags.noexec
            },
        forall|i: int|
            0 <= i < run.begun().mounts@.len() ==> {
                let m = #[trigger] r.mounts@[i];
                &&& m.host@ == run.begun().mounts@[i].host@
                &&& m.guest@ == run.begun().mounts@[i].guest@
                &&& m.flags == run.begun().mounts@[i].flags
            },
        r.name == run.begun().name,
        r.boot == run.begun().boot,
        r.cpus == run.begun().cpus,
        r.memory_mb == run.begun().memory_mb,
        r.working_dir == run.begun().working_dir,
        r.network == run.begun().network,
{
    lemma_git_mounts(run.begun().mounts@, git, r.mounts@);
}

/// The worktree is the first mount of a sandbox: at the working directory, to read and to write.
pub proof fn law_worktree_is_mounted_writable(
    plan: StartPlan,
    worktree: &str,
    home: Option<&str>,
    launch: LaunchPlan,
)
    requires
        call_ensures(begin_launch, (&plan, Some(worktree), home), Ok(launch)),
    ensures
        launch.mounts@.len() >= 1,
        launch.mounts@[0].host@ == worktree@,
        launch.mounts@[0].guest@ == plan.sandbox.working_dir@,
        !launch.mounts@[0].flags.readonly,
        !launch.mounts@[0].flags.noexec,
{
    let m = mounts_model(launch.mounts@);
    assert(m.len() == launch.mounts@.len());
    assert(m[0] == (
        launch.mounts@[0].host@,
        launch.mounts@[0].guest@,
        launch.mounts@[0].flags,
    ));
}

proof fn lemma_volumes(volumes: Seq<Seq<char>>, home: Option<Seq<char>>)
    ensures
        volumes_meant(volumes, home) is Ok <==> forall|i: int|
            0 <= i < volumes.len() ==> volume_meant(#[trigger] volumes[i], home) is Ok,
        volumes_meant(volumes, home) matches Ok(m) ==> m.len() == volumes.len() && forall|i: int|
            0 <= i < volumes.len() ==> #[trigger] m[i] == volume_meant(volumes[i], home)->Ok_0,
    decreases volumes.len(),
{
    if volumes.len() > 0 {
        let init = volumes.drop_last();
        lemma_volumes(init, home);
        assert(forall|i: int| 0 <= i < init.len() ==> init[i] == volumes[i]);
        if volumes_meant(init, home) is Err {
            let k = choose|i: int|
                0 <= i < init.len() && volume_meant(#[trigger] init[i], home) is Err;
            assert(volumes[k] == init[k]);
        }
    }
}

/// Behind the worktree come the configured volumes, each once, in the order in which they are
/// configured, and nothing else.
pub proof fn law_every_volume_is_mounted(
    plan: StartPlan,
    worktree: &str,
    home: Option<&str>,
    launch: LaunchPlan,
    i: int,
)
    requires
        call_ensures(begin_launch, (&plan, Some(worktree), home), Ok(launch)),
        0 <= i < plan.sandbox.volumes@.len(),
    ensures
        launch.mounts@.len() == 1 + plan.sandbox.volumes@.len(),
        ({
            let m = launch.mounts@[1 + i];
            volume_meant(plan.sandbox.volumes@[i]@, opt_str(home)) == Ok::<
                (Seq<char>, Seq<char>, MountFlags),
                Failure,
            >((m.host@, m.guest@, m.flags))
        }),
{
    let home = opt_str(home);
    let volumes = texts(plan.sandbox.volumes@);
    lemma_volumes(volumes, home);
    let m = mounts_model(launch.mounts@);
    assert(m.len() == launch.mounts@.len());
    assert(volumes[i] == plan.sandbox.volumes@[i]@);
    assert(m[1 + i] == volumes_meant(volumes, home)->Ok_0[i]);
}

/// A sandbox gets the name, the resources and the working directory of its plan, and begins
/// without variables and secrets.
pub proof fn law_resources_are_as_configured(
    plan: StartPlan,
    worktree: Option<&str>,
    home: Option<&str>,
    launch: LaunchPlan,
)
    requires
        call_ensures(begin_launch, (&plan, worktree, home), Ok(launch)),
    ensures
        launch.name@ == plan.sandbox_name@,
        launch.cpus == plan.sandbox.cpus,
        launch.memory_mb == plan.sandbox.memory_mb,
        launch.working_dir@ == plan.sandbox.working_dir@,
        launch.env@.len() == 0,
        launch.secrets@.len() == 0,
{
}

/// A sandbox has a network exactly where a policy, a rule or a default is given, in the
/// configuration or on the command line.
pub proof fn law_network_only_where_asked_for(
    plan: StartPlan,
    worktree: Option<&str>,
    home: Option<&str>,
    launch: LaunchPlan,
)
    requires
        call_ensures(begin_launch, (&plan, worktree, home), Ok(launch)),
    ensures
        launch.network is Some <==> {
            ||| plan.sandbox.network.policy is Some
            ||| plan.sandbox.network.rules@.len() > 0
            ||| plan.sandbox.network.default_egress is Some
            ||| plan.sandbox.network.default_ingress is Some
            ||| plan.cli_net.rules@.len() > 0
            ||| plan.cli_net.default_egress is Some
            ||| plan.cli_net.default_ingress is Some
        },
{
}

/// A policy is built from what is configured and from the command line, with the policies that
/// are known.
pub proof fn law_network_is_the_policy_built(
    plan: StartPlan,
    worktree: Option<&str>,
    home: Option<&str>,
    launch: LaunchPlan,
)
    requires
        call_ensures(begin_launch, (&plan, worktree, home), Ok(launch)),
        launch.network is Some,
    ensures
        policy_known(plan.sandbox.network, plan.policies@),
        policy_model(launch.network->0) == built(
            policy_plan(plan.sandbox.network, plan.cli_net, plan.policies@),
        ),
{
}

/// An image with a setup script boots from the snapshot that is derived from it, and never from
/// its base; one without boots from its base image, or else from its base snapshot.
pub proof fn law_boot_source(image: ImageConfig, boot: BootSource)
    requires
        call_ensures(boot_source, (&image,), boot),
    ensures
        image.setup_script is Some ==> boot@ == BootModel::ProjectSnapshot(image.snapshot()->0),
        image.setup_script is None && image.base_image is Some ==> boot@ == BootModel::Image(
            image.base_image->0@,
        ),
        image.setup_script is None && image.base_image is None && image.base_snapshot is Some
            ==> boot@ == BootModel::Snapshot(image.base_snapshot->0@),
        image.setup_script is None && image.base_image is None && image.base_snapshot is None
            ==> boot@ is Unset,
{
}

/// A launch begins exactly where its worktree's path is text, each of its volumes can be read, and
/// its network policy, where it has one, can be built.
pub proof fn law_launches_that_begin(
    plan: StartPlan,
    worktree: Option<&str>,
    home: Option<&str>,
    r: Result<LaunchPlan, SodagunError>,
    dir: Option<&str>,
    network: Result<NetworkPolicy, SodagunError>,
)
    requires
        call_ensures(begin_launch, (&plan, worktree, home), r),
        opt_str(dir) == opt_text(plan.policies_dir),
        call_ensures(
            build_network_policy,
            (&plan.sandbox.network, &plan.cli_net, &plan.policies, dir),
            network,
        ),
    ensures
        ({
            let asked = plan.sandbox.network.configured() || plan.cli_net.configured();
            let readable = forall|i: int|
                0 <= i < plan.sandbox.volumes@.len() ==> volume_meant(
                    (#[trigger] plan.sandbox.volumes@[i])@,
                    opt_str(home),
                ) is Ok;
            &&& r is Ok <==> worktree is Some && readable && (!asked || network is Ok)
            &&& asked && network is Err ==> r->Err_0@ == network->Err_0@
            &&& (!asked || network is Ok) && worktree is None ==> r->Err_0@.code
                == "CONFIG_INVALID"@
        }),
{
    let volumes = texts(plan.sandbox.volumes@);
    lemma_volumes(volumes, opt_str(home));
    assert(volumes.len() == plan.sandbox.volumes@.len());
    assert(forall|i: int|
        0 <= i < volumes.len() ==> volumes[i] == (#[trigger] plan.sandbox.volumes@[i])@);
    if volumes_meant(volumes, opt_str(home)) is Err {
        let k = choose|i: int|
            0 <= i < volumes.len() && volume_meant(#[trigger] volumes[i], opt_str(home)) is Err;
        assert(volume_meant(plan.sandbox.volumes@[k]@, opt_str(home)) is Err);
    }
}

/// A launch boots from what its image boots from.
pub proof fn law_launch_boots_its_image(
    plan: StartPlan,
    worktree: Option<&str>,
    home: Option<&str>,
    launch: LaunchPlan,
    boot: BootSource,
)
    requires
        call_ensures(begin_launch, (&plan, worktree, home), Ok(launch)),
        call_ensures(boot_source, (&plan.image,), boot),
    ensures
        launch.boot@ == boot@,
{
}

/// Of git's variables those that are not configured are kept, each in its place: what is kept of
/// two lots is what is kept of the first and then what is kept of the second, and a single
/// variable is kept as it is exactly where neither a variable nor a secret has its name.
pub proof fn law_git_variables_keep_their_order(
    first: Seq<(Seq<char>, Seq<char>)>,
    second: Seq<(Seq<char>, Seq<char>)>,
    one: (Seq<char>, Seq<char>),
    variables: Set<Seq<char>>,
    secrets: Set<Seq<char>>,
)
    ensures
        not_configured(first + second, variables, secrets) == not_configured(
            first,
            variables,
            secrets,
        ) + not_configured(second, variables, secrets),
        variables.contains(one.0) || secrets.contains(one.0) ==> not_configured(
            seq![one],
            variables,
            secrets,
        ).len() == 0,
        !variables.contains(one.0) && !secrets.contains(one.0) ==> not_configured(
            seq![one],
            variables,
            secrets,
        ) == seq![one],
    decreases second.len(),
{
    reveal_with_fuel(not_configured, 2);
    assert(seq![one].drop_last() =~= Seq::empty());
    assert(Seq::<(Seq<char>, Seq<char>)>::empty().push(one) =~= seq![one]);
    let kept = not_configured(first, variables, secrets);
    if second.len() == 0 {
        assert(first + second =~= first);
        assert(kept + not_configured(second, variables, secrets) =~= kept);
    } else {
        law_git_variables_keep_their_order(first, second.drop_last(), one, variables, secrets);
        assert((first + second).drop_last() =~= first + second.drop_last());
        assert((first + second).last() == second.last());
        assert(not_configured(first + second, variables, secrets) =~= kept + not_configured(
            second,
            variables,
            secrets,
        ));
    }
}

/// Every configured variable reaches the sandbox under its own name, behind git's, in the order of
/// the configuration, and no other variable does. A literal value reaches it unchanged; any other
/// is what its source gave when the host was asked.
pub proof fn law_every_variable_is_set(run: LaunchRun, r: LaunchPlan, i: int) -> (at: int)
    requires
        call_ensures(LaunchRun::finish, (run,), r),
        0 <= i < run.config().env.pairs().len(),
    ensures
        at == r.env@.len() - run.config().env.pairs().len() + i,
        0 <= at < r.env@.len(),
        r.env@[at].0@ == run.config().env.pairs()[i].0,
        printable(r.env@[at].1@),
        match run.config().env.pairs()[i].1 {
            EnvValue::Literal(s) => r.env@[at].1@ == s@,
            EnvValue::Dynamic(src) => comes_from(
                r.env@[at].1@,
                src.value,
                src.value_from_env,
                src.value_from_cmd,
                run.given()[i],
            ),
        },
{
    let pairs = run.config().env.pairs();
    let m = env_models(r.env@);
    let set = variables_set(pairs, run.given());
    let n = m.len() - set.len();
    assert(m.len() == r.env@.len());
    assert(env_value(pairs[i].0, pairs[i].1, run.given()[i]) is Ok);
    assert(m[n + i] == set[i]);
    assert(m[n + i] == (r.env@[n + i].0@, r.env@[n + i].1@));
    let name = pairs[i].0;
    let v = r.env@[n + i].1@;
    lemma_first_control(v);
    if let EnvValue::Dynamic(src) = pairs[i].1 {
        lemma_source(variable_owner(name), name, src, run.given()[i], v);
    }
    n + i
}

/// In front of the configured variables stand those that the launch began with, and then git's
/// that are not configured.
pub proof fn law_git_variables_are_set_first(run: LaunchRun, r: LaunchPlan)
    requires
        call_ensures(LaunchRun::finish, (run,), r),
        run.begun().env@.len() == 0,
    ensures
        env_models(r.env@).take(r.env@.len() - run.config().env.pairs().len()) == not_configured(
            run.git().env,
            run.config().env@.dom(),
            run.config().secrets@.dom(),
        ),
{
    let kept = not_configured(
        run.git().env,
        run.config().env@.dom(),
        run.config().secrets@.dom(),
    );
    let m = env_models(r.env@);
    let set = variables_set(run.config().env.pairs(), run.given());
    assert(env_models(run.begun().env@) =~= Seq::empty());
    assert(m =~= kept + set);
    assert(m.take(m.len() - set.len()) =~= kept);
}

/// Every configured secret reaches the sandbox under its own name, in the order of the
/// configuration, with the value that its source gave when the host was asked, and bound to exactly
/// the hosts that it is configured for: no host more, no host less, and one that holds a `*` as a
/// pattern.
pub proof fn law_every_secret_is_bound_to_its_hosts(run: LaunchRun, r: LaunchPlan, i: int) -> (
    at: int)
    requires
        call_ensures(LaunchRun::finish, (run,), r),
        0 <= i < run.config().secrets.pairs().len(),
    ensures
        at == r.secrets@.len() - run.config().secrets.pairs().len() + i,
        at == run.begun().secrets@.len() + i,
        0 <= at < r.secrets@.len(),
        ({
            let c = run.config().secrets.pairs()[i].1;
            let s = r.secrets@[at];
            &&& s.name@ == run.config().secrets.pairs()[i].0
            &&& printable(s.value@)
            &&& comes_from(
                s.value@,
                c.value,
                c.value_from_env,
                c.value_from_cmd,
                run.given_secrets()[i],
            )
            &&& s.hosts@.len() == c.allowed_hosts@.len()
            &&& forall|k: int|
                0 <= k < s.hosts@.len() ==> {
                    &&& (#[trigger] s.hosts@[k]).host@ == c.allowed_hosts@[k]@
                    &&& s.hosts@[k].pattern <==> c.allowed_hosts@[k]@.contains('*')
                }
        }),
{
    let pairs = run.config().secrets.pairs();
    let m = secret_models(r.secrets@);
    let set = secrets_set(pairs, run.given_secrets());
    let n = run.begun().secrets@.len() as int;
    assert(m.len() == r.secrets@.len());
    assert(secret_models(run.begun().secrets@).len() == n);
    assert(secret_value(pairs[i].0, pairs[i].1, run.given_secrets()[i]) is Ok);
    assert(m[n + i] == set[i]);
    lemma_allowed_hosts(pairs[i].1.allowed_hosts@, r.secrets@[n + i].hosts@);
    let name = pairs[i].0;
    let v = r.secrets@[n + i].value@;
    lemma_first_control(v);
    lemma_source(
        secret_owner(name),
        name,
        secret_source(pairs[i].1),
        run.given_secrets()[i],
        v,
    );
    n + i
}

proof fn lemma_allowed_hosts(configured: Seq<String>, hosts: Seq<AllowedHost>)
    requires
        hosts_model(hosts) == hosts_meant(texts(configured)),
    ensures
        hosts.len() == configured.len(),
        forall|k: int|
            0 <= k < hosts.len() ==> {
                &&& (#[trigger] hosts[k]).host@ == configured[k]@
                &&& hosts[k].pattern <==> configured[k]@.contains('*')
            },
{
    let m = hosts_model(hosts);
    assert(m.len() == hosts.len());
    assert forall|k: int| 0 <= k < hosts.len() implies {
        &&& (#[trigger] hosts[k]).host@ == configured[k]@
        &&& hosts[k].pattern <==> configured[k]@.contains('*')
    } by {
        assert(m[k] == (hosts[k].host@, hosts[k].pattern));
        assert(texts(configured)[k] == configured[k]@);
        law_has_char(configured[k]@, '*');
    }
}

/// The hosts that a secret may be sent to are those configured, in their order; a host is a
/// pattern exactly where it holds a `*`.
pub proof fn law_allowed_hosts(configured: Vec<String>, hosts: Vec<AllowedHost>)
    requires
        call_ensures(allowed_hosts, (&configured,), hosts),
    ensures
        hosts@.len() == configured@.len(),
        forall|k: int|
            0 <= k < hosts@.len() ==> {
                &&& (#[trigger] hosts@[k]).host@ == configured@[k]@
                &&& hosts@[k].pattern <==> configured@[k]@.contains('*')
            },
{
    lemma_allowed_hosts(configured@, hosts@);
}

/// Filling in begins with the launch and the access to git that it is given, and with nothing asked
/// yet.
pub proof fn law_filling_in_begins(
    launch: LaunchPlan,
    git: GitAccessSpec,
    config: SandboxConfig,
    run: LaunchRun,
)
    requires
        call_ensures(LaunchRun::new, (launch, git, &config), run),
    ensures
        run.config() == config,
        run.begun() == launch,
        run.git().mounts == mount_models(git.mounts@),
        run.git().env.len() == git.env@.len(),
        forall|i: int|
            0 <= i < git.env@.len() ==> run.git().env[i] == ((#[trigger] git.env@[i]).0@, git.env@[
                i
            ].1@),
        run.given().len() == 0,
        run.given_secrets().len() == 0,
{
}

/// What is asked of the host is what comes next: the variables in their order and then the secrets
/// in theirs, each once, until all are there.
pub proof fn law_everything_is_asked_for_in_order(
    run: LaunchRun,
    asked: Option<(String, Option<HostQuestion>)>,
)
    requires
        call_ensures(LaunchRun::question, (&run,), asked),
    ensures
        ({
            let env = run.config().env.pairs();
            let secrets = run.config().secrets.pairs();
            let v = run.given().len() as int;
            let s = run.given_secrets().len() as int;
            &&& v < env.len() ==> asked is Some && (asked->0).0@ == env[v].0
            &&& v >= env.len() && s < secrets.len() ==> asked is Some && (asked->0).0@
                == secrets[s].0
            &&& v >= env.len() && s >= secrets.len() ==> asked is None
        }),
{
}

/// An answer is taken for what was asked, and for nothing else: it is the variable's while there
/// are variables left, and else the secret's.
pub proof fn law_every_answer_is_kept(run: LaunchRun, answer: HostAnswer, next: LaunchRun)
    requires
        call_ensures(LaunchRun::answer, (run, answer), Ok(next)),
    ensures
        next.config() == run.config(),
        next.begun() == run.begun(),
        next.git() == run.git(),
        run.given().len() < run.config().env.pairs().len() ==> next.given() == run.given().push(
            answer,
        ) && next.given_secrets() == run.given_secrets(),
        run.given().len() >= run.config().env.pairs().len() ==> next.given() == run.given()
            && next.given_secrets() == run.given_secrets().push(answer),
{
}

} // verus!
