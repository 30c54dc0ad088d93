//! Layering: the project's configuration over the user's over the defaults.

use crate::config::{
    EnvValue, GitAccess, ImageConfig, NetworkConfig, RawSandboxConfig, RegistryConfig,
    SandboxConfig, SecretConfig, UserImageConfig,
};
use crate::error::{failure, fault, Failure, SodagunError};
use crate::table::{key_position, Table};
use vstd::prelude::*;

verus! {

/// The first of two optional values that is there.
pub open spec fn prefer<T>(first: Option<T>, second: Option<T>) -> Option<T> {
    match first {
        Some(_) => first,
        None => second,
    }
}

/// The first of two optional values that is there, or else `default`.
pub open spec fn layered<T>(project: Option<T>, user: Option<T>, default: T) -> T {
    match prefer(project, user) {
        Some(v) => v,
        None => default,
    }
}

/// The first of two optional values that is there.
fn either<T>(first: Option<T>, second: Option<T>) -> (r: Option<T>)
    ensures
        r == prefer(first, second),
{
    match first {
        Some(v) => Some(v),
        None => second,
    }
}

fn default_working_dir() -> (r: String)
    ensures
        r@ == "/workspace"@,
{
    "/workspace".to_owned()
}

fn default_memory_mb() -> (r: u32)
    ensures
        r == 512,
{
    512
}

fn default_cpus() -> (r: u8)
    ensures
        r == 1,
{
    1
}

/// Text of an optional value, or else `default`.
pub open spec fn layered_text(
    project: Option<String>,
    user: Option<String>,
    default: Seq<char>,
) -> Seq<char> {
    match prefer(project, user) {
        Some(v) => v@,
        None => default,
    }
}

/// What a name that is both a variable and a secret is answered with.
pub open spec fn name_clash(name: Seq<char>) -> Failure {
    failure(
        "CONFIG_INVALID"@,
        "'"@ + name + "' appears in both [sandbox.env] and [sandbox.secrets]"@,
    )
}

/// The environment after merging: the union, in which the project wins.
pub open spec fn merged_env(user: RawSandboxConfig, project: RawSandboxConfig) -> Map<
    Seq<char>,
    EnvValue,
> {
    user.env@.union_prefer_right(project.env@)
}

/// The secrets after merging: the union, in which the project wins.
pub open spec fn merged_secrets(user: RawSandboxConfig, project: RawSandboxConfig) -> Map<
    Seq<char>,
    SecretConfig,
> {
    user.secrets@.union_prefer_right(project.secrets@)
}

/// Whether `c` is `project` over `user` over the defaults.
pub open spec fn is_merged(
    c: SandboxConfig,
    user: RawSandboxConfig,
    project: RawSandboxConfig,
) -> bool {
    &&& c.working_dir@ == layered_text(project.working_dir, user.working_dir, "/workspace"@)
    &&& c.memory_mb == layered(project.memory_mb, user.memory_mb, 512u32)
    &&& c.cpus == layered(project.cpus, user.cpus, 1u8)
    &&& c.git_access == layered(project.git_access, user.git_access, GitAccess::Nothing)
    &&& c.volumes@ == user.volumes@ + project.volumes@
    &&& c.network.policy == prefer(project.network.policy, user.network.policy)
    &&& c.network.default_egress == prefer(
        project.network.default_egress,
        user.network.default_egress,
    )
    &&& c.network.default_ingress == prefer(
        project.network.default_ingress,
        user.network.default_ingress,
    )
    &&& c.network.rules@ == user.network.rules@ + project.network.rules@
    &&& c.env@ == merged_env(user, project)
    &&& c.secrets@ == merged_secrets(user, project)
}

/// Whether some name is both a variable and a secret after merging.
pub open spec fn clashing(user: RawSandboxConfig, project: RawSandboxConfig) -> bool {
    exists|name: Seq<char>|
        #[trigger] merged_env(user, project).dom().contains(name) && merged_secrets(
            user,
            project,
        ).dom().contains(name)
}

/// Whether merging `project` over `user` gives `r`: the merged configuration where no name is
/// both a variable and a secret, and otherwise the complaint about such a name.
pub open spec fn merge_gives(
    r: Result<SandboxConfig, SodagunError>,
    user: RawSandboxConfig,
    project: RawSandboxConfig,
) -> bool {
    match r {
        Ok(c) => !clashing(user, project) && is_merged(c, user, project),
        Err(e) => exists|name: Seq<char>|
            {
                &&& #[trigger] merged_env(user, project).dom().contains(name)
                &&& merged_secrets(user, project).dom().contains(name)
                &&& e@ == name_clash(name)
            },
    }
}

/// Whether `project` alone gives `r`: over a user's configuration in which nothing is set.
pub open spec fn project_gives(
    r: Result<SandboxConfig, SodagunError>,
    project: RawSandboxConfig,
) -> bool {
    exists|u: RawSandboxConfig| u.blank() && #[trigger] merge_gives(r, u, project)
}

/// The position in `secrets` of a name that is also in `env`.
fn shared_name(env: &Table<EnvValue>, secrets: &Table<SecretConfig>) -> (r: Option<usize>)
    ensures
        match r {
            Some(i) => {
                &&& i < secrets.pairs().len()
                &&& env@.dom().contains(secrets.pairs()[i as int].0)
                &&& secrets@.dom().contains(secrets.pairs()[i as int].0)
            },
            None => forall|name: Seq<char>| #[trigger]
                env@.dom().contains(name) ==> !secrets@.dom().contains(name),
        },
{
    let n = secrets.len();
    let mut i: usize = 0;
    while i < n
        invariant
            i <= n,
            n == secrets.pairs().len(),
            forall|j: int| 0 <= j < i ==> !env@.dom().contains((#[trigger] secrets.pairs()[j]).0),
        decreases n - i,
    {
        if env.contains_key(secrets.key_at(i)) {
            return Some(i);
        }
        i += 1;
    }
    proof {
        assert forall|name: Seq<char>| #[trigger]
            env@.dom().contains(name) implies !secrets@.dom().contains(name) by {
            if secrets@.dom().contains(name) {
                let j = key_position(secrets.pairs(), name);
                assert(secrets.pairs()[j].0 == name);
            }
        }
    }
    None
}

/// Merges the project's sandbox configuration over the user's.
///
/// Volumes and network rules are concatenated, the user's first. Variables and secrets are
/// united, and the project wins on a name that both have. Everything else is the project's
/// value, else the user's, else the default.
pub fn merge_sandbox_configs(
    user: Option<RawSandboxConfig>,
    project: RawSandboxConfig,
) -> (r: Result<SandboxConfig, SodagunError>)
    ensures
        match user {
            Some(u) => merge_gives(r, u, project),
            None => project_gives(r, project),
        },
{
    let user = match user {
        Some(u) => u,
        None => RawSandboxConfig::default(),
    };
    let ghost u = user;
    let ghost p = project;

    let mut volumes = user.volumes;
    let mut project_volumes = project.volumes;
    volumes.append(&mut project_volumes);
    let mut rules = user.network.rules;
    let mut project_rules = project.network.rules;
    rules.append(&mut project_rules);

    let mut env = user.env;
    env.extend(project.env);
    let mut secrets = user.secrets;
    secrets.extend(project.secrets);

    if let Some(i) = shared_name(&env, &secrets) {
        let key = secrets.key_at(i);
        assert(merged_env(u, p).dom().contains(key@));
        let r: Result<SandboxConfig, SodagunError> = Err(
            fault(
                "CONFIG_INVALID",
                "'".to_owned().concat(key).concat(
                    "' appears in both [sandbox.env] and [sandbox.secrets]",
                ),
            ),
        );
        assert(merge_gives(r, u, p));
        return r;
    }
    let working_dir = match either(project.working_dir, user.working_dir) {
        Some(d) => d,
        None => default_working_dir(),
    };
    let memory_mb = match either(project.memory_mb, user.memory_mb) {
        Some(m) => m,
        None => default_memory_mb(),
    };
    let cpus = match either(project.cpus, user.cpus) {
        Some(c) => c,
        None => default_cpus(),
    };
    let git_access = match either(project.git_access, user.git_access) {
        Some(g) => g,
        None => GitAccess::Nothing,
    };
    let r: Result<SandboxConfig, SodagunError> = Ok(
        SandboxConfig {
            working_dir,
            memory_mb,
            cpus,
            volumes,
            network: NetworkConfig {
                policy: either(project.network.policy, user.network.policy),
                default_egress: either(
                    project.network.default_egress,
                    user.network.default_egress,
                ),
                default_ingress: either(
                    project.network.default_ingress,
                    user.network.default_ingress,
                ),
                rules,
            },
            env,
            secrets,
            git_access,
        },
    );
    assert(merge_gives(r, u, p));
    r
}

/// Merges the project's registry configuration over the user's, field by field.
pub fn merge_registry_configs(user: RegistryConfig, project: RegistryConfig) -> (r: RegistryConfig)
    ensures
        r.host == prefer(project.host, user.host),
        r.insecure == prefer(project.insecure, user.insecure),
{
    RegistryConfig {
        host: either(project.host, user.host),
        insecure: either(project.insecure, user.insecure),
    }
}

/// Fills in from the user's image configuration what the project leaves open.
pub fn merge_user_image_config(user: UserImageConfig, project: ImageConfig) -> (r: ImageConfig)
    ensures
        r == (ImageConfig {
            namespace_repository: prefer(project.namespace_repository, user.namespace_repository),
            version: prefer(project.version, user.version),
            ..project
        }),
{
    let mut merged = project;
    merged.namespace_repository = either(merged.namespace_repository, user.namespace_repository);
    merged.version = either(merged.version, user.version);
    merged
}

} // verus!
