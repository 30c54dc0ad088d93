//! Laws of layering: the project's configuration over the user's over the defaults.

use crate::config::{
    GitAccess, ImageConfig, RawSandboxConfig, RegistryConfig, SandboxConfig, UserImageConfig,
};
use crate::config::merge::{
    merge_gives, merge_registry_configs, merge_sandbox_configs, merge_user_image_config,
};
use crate::error::SodagunError;
use vstd::prelude::*;

verus! {

/// What the project sets holds, whatever the user sets.
pub proof fn law_project_wins(
    user: RawSandboxConfig,
    project: RawSandboxConfig,
    c: SandboxConfig,
)
    requires
        call_ensures(merge_sandbox_configs, (Some(user), project), Ok(c)),
    ensures
        project.cpus is Some ==> c.cpus == project.cpus->0,
        project.memory_mb is Some ==> c.memory_mb == project.memory_mb->0,
        project.working_dir is Some ==> c.working_dir@ == project.working_dir->0@,
        project.git_access is Some ==> c.git_access == project.git_access->0,
        project.network.policy is Some ==> c.network.policy == project.network.policy,
        project.network.default_egress is Some ==> c.network.default_egress
            == project.network.default_egress,
        project.network.default_ingress is Some ==> c.network.default_ingress
            == project.network.default_ingress,
{
}

/// What the user sets holds where the project leaves it open.
pub proof fn law_user_fills_in(user: RawSandboxConfig, project: RawSandboxConfig, c: SandboxConfig)
    requires
        call_ensures(merge_sandbox_configs, (Some(user), project), Ok(c)),
    ensures
        project.cpus is None && user.cpus is Some ==> c.cpus == user.cpus->0,
        project.memory_mb is None && user.memory_mb is Some ==> c.memory_mb == user.memory_mb->0,
        project.working_dir is None && user.working_dir is Some ==> c.working_dir@
            == user.working_dir->0@,
        project.git_access is None && user.git_access is Some ==> c.git_access
            == user.git_access->0,
        project.network.policy is None ==> c.network.policy == user.network.policy,
        project.network.default_egress is None ==> c.network.default_egress
            == user.network.default_egress,
        project.network.default_ingress is None ==> c.network.default_ingress
            == user.network.default_ingress,
{
}

/// Where neither sets anything, a sandbox has one processor, 512 MiB, `/workspace` as its working
/// directory, and no access to git.
pub proof fn law_defaults(user: RawSandboxConfig, project: RawSandboxConfig, c: SandboxConfig)
    requires
        call_ensures(merge_sandbox_configs, (Some(user), project), Ok(c)),
    ensures
        project.cpus is None && user.cpus is None ==> c.cpus == 1,
        project.memory_mb is None && user.memory_mb is None ==> c.memory_mb == 512,
        project.working_dir is None && user.working_dir is None ==> c.working_dir@
            == "/workspace"@,
        project.git_access is None && user.git_access is None ==> c.git_access
            == GitAccess::Nothing,
{
}

/// Without a user's configuration the project's settings hold, and else the defaults.
pub proof fn law_project_alone(project: RawSandboxConfig, c: SandboxConfig)
    requires
        call_ensures(merge_sandbox_configs, (None, project), Ok(c)),
    ensures
        c.cpus == (if project.cpus is Some {
            project.cpus->0
        } else {
            1
        }),
        c.memory_mb == (if project.memory_mb is Some {
            project.memory_mb->0
        } else {
            512
        }),
        c.working_dir@ == (if project.working_dir is Some {
            project.working_dir->0@
        } else {
            "/workspace"@
        }),
        c.git_access == (if project.git_access is Some {
            project.git_access->0
        } else {
            GitAccess::Nothing
        }),
        c.volumes@ == project.volumes@,
        c.network.policy == project.network.policy,
        c.network.default_egress == project.network.default_egress,
        c.network.default_ingress == project.network.default_ingress,
        c.network.rules@ == project.network.rules@,
        c.env@ == project.env@,
        c.secrets@ == project.secrets@,
{
    let r = Ok::<SandboxConfig, SodagunError>(c);
    let u = choose|u: RawSandboxConfig| u.blank() && #[trigger] merge_gives(r, u, project);
    assert(c.volumes@ =~= project.volumes@);
    assert(c.network.rules@ =~= project.network.rules@);
    assert(c.env@ =~= project.env@);
    assert(c.secrets@ =~= project.secrets@);
}

/// Volumes and rules add up: all of the user's, then all of the project's, each in its order.
pub proof fn law_volumes_and_rules_add_up(
    user: RawSandboxConfig,
    project: RawSandboxConfig,
    c: SandboxConfig,
)
    requires
        call_ensures(merge_sandbox_configs, (Some(user), project), Ok(c)),
    ensures
        c.volumes@.len() == user.volumes@.len() + project.volumes@.len(),
        c.volumes@.take(user.volumes@.len() as int) == user.volumes@,
        c.volumes@.skip(user.volumes@.len() as int) == project.volumes@,
        c.network.rules@.len() == user.network.rules@.len() + project.network.rules@.len(),
        c.network.rules@.take(user.network.rules@.len() as int) == user.network.rules@,
        c.network.rules@.skip(user.network.rules@.len() as int) == project.network.rules@,
{
    assert(c.volumes@.take(user.volumes@.len() as int) =~= user.volumes@);
    assert(c.volumes@.skip(user.volumes@.len() as int) =~= project.volumes@);
    assert(c.network.rules@.take(user.network.rules@.len() as int) =~= user.network.rules@);
    assert(c.network.rules@.skip(user.network.rules@.len() as int) =~= project.network.rules@);
}

/// A variable or secret that the project has is the project's; one that only the user has is the
/// user's; there are no others.
pub proof fn law_variables_and_secrets_are_united(
    user: RawSandboxConfig,
    project: RawSandboxConfig,
    c: SandboxConfig,
    name: Seq<char>,
)
    requires
        call_ensures(merge_sandbox_configs, (Some(user), project), Ok(c)),
    ensures
        project.env@.dom().contains(name) ==> c.env@.dom().contains(name) && c.env@[name]
            == project.env@[name],
        !project.env@.dom().contains(name) && user.env@.dom().contains(name)
            ==> c.env@.dom().contains(name) && c.env@[name] == user.env@[name],
        !project.env@.dom().contains(name) && !user.env@.dom().contains(name)
            ==> !c.env@.dom().contains(name),
        project.secrets@.dom().contains(name) ==> c.secrets@.dom().contains(name)
            && c.secrets@[name] == project.secrets@[name],
        !project.secrets@.dom().contains(name) && user.secrets@.dom().contains(name)
            ==> c.secrets@.dom().contains(name) && c.secrets@[name] == user.secrets@[name],
        !project.secrets@.dom().contains(name) && !user.secrets@.dom().contains(name)
            ==> !c.secrets@.dom().contains(name),
        !(c.env@.dom().contains(name) && c.secrets@.dom().contains(name)),
{
}

/// A name that is a variable in one table and a secret in one is refused, and nothing else is: the
/// complaint names it.
pub proof fn law_name_in_both_is_refused(
    user: RawSandboxConfig,
    project: RawSandboxConfig,
    r: Result<SandboxConfig, SodagunError>,
)
    requires
        call_ensures(merge_sandbox_configs, (Some(user), project), r),
    ensures
        r is Err <==> exists|name: Seq<char>|
            #![trigger user.env@.dom().contains(name)]
            #![trigger project.env@.dom().contains(name)]
            {
                &&& user.env@.dom().contains(name) || project.env@.dom().contains(name)
                &&& user.secrets@.dom().contains(name) || project.secrets@.dom().contains(name)
            },
        r is Err ==> r->Err_0@.code == "CONFIG_INVALID"@ && exists|name: Seq<char>|
            #![trigger user.env@.dom().contains(name)]
            #![trigger project.env@.dom().contains(name)]
            {
                &&& user.env@.dom().contains(name) || project.env@.dom().contains(name)
                &&& user.secrets@.dom().contains(name) || project.secrets@.dom().contains(name)
                &&& r->Err_0@.message == "'"@ + name
                    + "' appears in both [sandbox.env] and [sandbox.secrets]"@
            },
{
    assert(merge_gives(r, user, project));
    let env = crate::config::merge::merged_env(user, project);
    let secrets = crate::config::merge::merged_secrets(user, project);
    assert forall|name: Seq<char>| #[trigger]
        env.dom().contains(name) <==> user.env@.dom().contains(name)
            || project.env@.dom().contains(name) by {}
    if r is Err {
        let e = r->Err_0;
        let name = choose|name: Seq<char>|
            {
                &&& #[trigger] env.dom().contains(name)
                &&& secrets.dom().contains(name)
                &&& e@ == crate::config::merge::name_clash(name)
            };
        assert(user.env@.dom().contains(name) || project.env@.dom().contains(name));
    } else {
        assert forall|name: Seq<char>|
            #![trigger user.env@.dom().contains(name)]
            #![trigger project.env@.dom().contains(name)]
            !({
                &&& user.env@.dom().contains(name) || project.env@.dom().contains(name)
                &&& user.secrets@.dom().contains(name) || project.secrets@.dom().contains(name)
            }) by {
            if user.env@.dom().contains(name) || project.env@.dom().contains(name) {
                assert(env.dom().contains(name));
            }
        }
    }
}

/// The project's registry settings win one by one, and the user's fill in.
pub proof fn law_registry_layers(user: RegistryConfig, project: RegistryConfig, r: RegistryConfig)
    requires
        call_ensures(merge_registry_configs, (user, project), r),
    ensures
        project.host is Some ==> r.host == project.host,
        project.host is None ==> r.host == user.host,
        project.insecure is Some ==> r.insecure == project.insecure,
        project.insecure is None ==> r.insecure == user.insecure,
{
}

/// The user's image settings fill in what the project leaves open of repository and version, and
/// change nothing else.
pub proof fn law_user_image_fills_in(user: UserImageConfig, project: ImageConfig, r: ImageConfig)
    requires
        call_ensures(merge_user_image_config, (user, project), r),
    ensures
        project.namespace_repository is Some ==> r.namespace_repository
            == project.namespace_repository,
        project.namespace_repository is None ==> r.namespace_repository
            == user.namespace_repository,
        project.version is Some ==> r.version == project.version,
        project.version is None ==> r.version == user.version,
        r.base_image == project.base_image,
        r.base_snapshot == project.base_snapshot,
        r.dockerfile == project.dockerfile,
        r.setup_script == project.setup_script,
        r.setup_files == project.setup_files,
        r.env == project.env,
{
}

} // verus!
