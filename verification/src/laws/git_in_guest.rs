//! Laws of git in the guest: what a sandbox sees of the repository behind its worktree.

use crate::config::GitAccess;
use crate::error::SodagunError;
use crate::git_access::{
    access_failure, access_meant, env_models, git_access_spec, guest_base, mount_models,
    GitAccessSpec, GitDirs, GitMount,
};
use crate::path::{file_name, join};
use crate::text::opt_str;
use vstd::prelude::*;

verus! {

/// Whether `host` is mounted at `guest`, to read and to write.
pub open spec fn writable_at(mounts: Seq<GitMount>, host: Seq<char>, guest: Seq<char>) -> bool {
    exists|i: int|
        0 <= i < mounts.len() && (#[trigger] mounts[i]).host@ == host && mounts[i].guest@ == guest
            && !mounts[i].readonly
}

/// Whether `host` is mounted at `guest`, to read only.
pub open spec fn readable_at(mounts: Seq<GitMount>, host: Seq<char>, guest: Seq<char>) -> bool {
    exists|i: int|
        0 <= i < mounts.len() && (#[trigger] mounts[i]).host@ == host && mounts[i].guest@ == guest
            && mounts[i].readonly
}

/// Whether a variable has this value.
pub open spec fn variable_is(
    env: Seq<(String, String)>,
    name: Seq<char>,
    value: Seq<char>,
) -> bool {
    exists|i: int| 0 <= i < env.len() && (#[trigger] env[i]).0@ == name && env[i].1@ == value
}

/// Whether a variable is set.
pub open spec fn variable_set(env: Seq<(String, String)>, name: Seq<char>) -> bool {
    exists|i: int| 0 <= i < env.len() && (#[trigger] env[i]).0@ == name
}

/// A working directory that does not end in a slash.
pub open spec fn plain(working_dir: Seq<char>) -> bool {
    working_dir.len() == 0 || working_dir.last() != '/'
}

proof fn lemma_plain(working_dir: Seq<char>)
    requires
        plain(working_dir),
    ensures
        guest_base(working_dir) == working_dir,
{
}

proof fn lemma_spec(
    access: GitAccess,
    worktree: Seq<char>,
    working_dir: Seq<char>,
    gitconfig: Option<Seq<char>>,
    dirs: GitDirs,
    spec: GitAccessSpec,
)
    requires
        plain(working_dir),
        spec@ == access_meant(
            access,
            worktree,
            working_dir,
            gitconfig,
            dirs.admin@,
            dirs.common@,
            file_name(dirs.admin@)->0,
        ),
    ensures
        ({
            let a = access_meant(
                access,
                worktree,
                working_dir,
                gitconfig,
                dirs.admin@,
                dirs.common@,
                file_name(dirs.admin@)->0,
            );
            &&& spec.mounts@.len() == a.mounts.len()
            &&& spec.env@.len() == a.env.len()
            &&& forall|i: int|
                0 <= i < a.mounts.len() ==> {
                    &&& (#[trigger] spec.mounts@[i]).host@ == a.mounts[i].host
                    &&& spec.mounts@[i].guest@ == a.mounts[i].guest
                    &&& spec.mounts@[i].readonly == a.mounts[i].readonly
                }
            &&& forall|i: int|
                0 <= i < a.env.len() ==> {
                    &&& (#[trigger] spec.env@[i]).0@ == a.env[i].0
                    &&& spec.env@[i].1@ == a.env[i].1
                }
            &&& guest_base(working_dir) == working_dir
        }),
{
    lemma_plain(working_dir);
    let m = mount_models(spec.mounts@);
    let e = env_models(spec.env@);
    assert(m.len() == spec.mounts@.len());
    assert(e.len() == spec.env@.len());
    assert forall|i: int| 0 <= i < m.len() implies {
        &&& (#[trigger] spec.mounts@[i]).host@ == m[i].host
        &&& spec.mounts@[i].guest@ == m[i].guest
        &&& spec.mounts@[i].readonly == m[i].readonly
    } by {
        assert(m[i] == spec.mounts@[i]@);
    }
    assert forall|i: int| 0 <= i < e.len() implies {
        &&& (#[trigger] spec.env@[i]).0@ == e[i].0
        &&& spec.env@[i].1@ == e[i].1
    } by {
        assert(e[i] == (spec.env@[i].0@, spec.env@[i].1@));
    }
}

/// Under full access the shared `.git` is mounted beside the worktree, at the working directory
/// with `.git` behind it, and the guest can write it, so that it can commit; so it can write the
/// user's git configuration, where there is one. Nothing else is mounted.
pub proof fn law_full_access_can_write(
    worktree: &str,
    working_dir: &str,
    gitconfig: Option<&str>,
    dirs: GitDirs,
    logs: Result<(), String>,
    spec: GitAccessSpec,
)
    requires
        plain(working_dir@),
        call_ensures(
            git_access_spec,
            (worktree, working_dir, GitAccess::Full, gitconfig, Ok(dirs), &logs),
            Ok(spec),
        ),
    ensures
        spec.mounts@[0].host@ == dirs.common@,
        spec.mounts@[0].guest@ == working_dir@ + ".git"@,
        !spec.mounts@[0].readonly,
        gitconfig is None ==> spec.mounts@.len() == 1,
        gitconfig is Some ==> spec.mounts@.len() == 2 && writable_at(
            spec.mounts@,
            gitconfig->0@,
            working_dir@ + ".gitconfig"@,
        ),
{
    lemma_spec(GitAccess::Full, worktree@, working_dir@, opt_str(gitconfig), dirs, spec);
    if gitconfig is Some {
        assert(spec.mounts@[1].host@ == gitconfig->0@);
    }
}

/// Under access to data the guest can write the objects, the references, the logs and the
/// worktree's administrative directory, each where git looks for it, so that it can commit.
pub proof fn law_data_access_can_commit(
    worktree: &str,
    working_dir: &str,
    gitconfig: Option<&str>,
    dirs: GitDirs,
    logs: Result<(), String>,
    spec: GitAccessSpec,
)
    requires
        plain(working_dir@),
        call_ensures(
            git_access_spec,
            (worktree, working_dir, GitAccess::Data, gitconfig, Ok(dirs), &logs),
            Ok(spec),
        ),
    ensures
        ({
            let git = working_dir@ + ".git"@;
            let m = spec.mounts@;
            &&& writable_at(m, join(dirs.common@, "objects"@), git + "/objects"@)
            &&& writable_at(m, join(dirs.common@, "refs"@), git + "/refs"@)
            &&& writable_at(m, join(dirs.common@, "logs"@), git + "/logs"@)
            &&& writable_at(m, dirs.admin@, git + "/worktrees/"@ + file_name(dirs.admin@)->0)
        }),
{
    lemma_spec(GitAccess::Data, worktree@, working_dir@, opt_str(gitconfig), dirs, spec);
    assert(spec.mounts@[1].host@ == join(dirs.common@, "objects"@));
    assert(spec.mounts@[2].host@ == join(dirs.common@, "refs"@));
    assert(spec.mounts@[3].host@ == join(dirs.common@, "logs"@));
    assert(spec.mounts@[4].host@ == dirs.admin@);
}

/// Under access to data everything else is there to read only: the shared `.git` as a whole, with
/// its configuration and hooks, the pointer files of the worktree and of its administrative
/// directory, and the user's git configuration.
pub proof fn law_data_access_keeps_the_rest(
    worktree: &str,
    working_dir: &str,
    gitconfig: Option<&str>,
    dirs: GitDirs,
    logs: Result<(), String>,
    spec: GitAccessSpec,
)
    requires
        plain(working_dir@),
        call_ensures(
            git_access_spec,
            (worktree, working_dir, GitAccess::Data, gitconfig, Ok(dirs), &logs),
            Ok(spec),
        ),
    ensures
        ({
            let git = working_dir@ + ".git"@;
            let own = git + "/worktrees/"@ + file_name(dirs.admin@)->0;
            let m = spec.mounts@;
            &&& readable_at(m, dirs.common@, git)
            &&& readable_at(m, join(dirs.admin@, "commondir"@), own + "/commondir"@)
            &&& readable_at(m, join(dirs.admin@, "gitdir"@), own + "/gitdir"@)
            &&& readable_at(m, join(worktree@, ".git"@), working_dir@ + "/.git"@)
            &&& gitconfig is None ==> m.len() == 8
            &&& gitconfig is Some ==> m.len() == 9 && readable_at(
                m,
                gitconfig->0@,
                working_dir@ + ".gitconfig"@,
            )
        }),
{
    lemma_spec(GitAccess::Data, worktree@, working_dir@, opt_str(gitconfig), dirs, spec);
    assert(spec.mounts@[0].host@ == dirs.common@);
    assert(spec.mounts@[5].host@ == join(dirs.admin@, "commondir"@));
    assert(spec.mounts@[6].host@ == join(dirs.admin@, "gitdir"@));
    assert(spec.mounts@[7].host@ == join(worktree@, ".git"@));
    if gitconfig is Some {
        assert(spec.mounts@[8].host@ == gitconfig->0@);
    }
}

/// Without access to git nothing is mounted and no variable is set, whatever is behind the
/// worktree.
pub proof fn law_no_access_gives_nothing(
    worktree: &str,
    working_dir: &str,
    gitconfig: Option<&str>,
    dirs: Result<GitDirs, SodagunError>,
    logs: Result<(), String>,
    r: Result<GitAccessSpec, SodagunError>,
)
    requires
        call_ensures(
            git_access_spec,
            (worktree, working_dir, GitAccess::Nothing, gitconfig, dirs, &logs),
            r,
        ),
    ensures
        r is Ok,
        r->Ok_0.mounts@.len() == 0,
        r->Ok_0.env@.len() == 0,
{
    assert(mount_models(r->Ok_0.mounts@).len() == 0);
    assert(env_models(r->Ok_0.env@).len() == 0);
}

/// Git's variables lead to the mounts: `GIT_COMMON_DIR` is where the shared `.git` is mounted,
/// `GIT_DIR` lies in it under the name of the administrative directory, `GIT_WORK_TREE` is the
/// working directory, and `GIT_CONFIG_GLOBAL` is where the user's git configuration is mounted,
/// and is set only where it is mounted.
pub proof fn law_git_variables_lead_to_the_mounts(
    worktree: &str,
    working_dir: &str,
    access: GitAccess,
    gitconfig: Option<&str>,
    dirs: GitDirs,
    logs: Result<(), String>,
    spec: GitAccessSpec,
)
    requires
        access != GitAccess::Nothing,
        plain(working_dir@),
        call_ensures(
            git_access_spec,
            (worktree, working_dir, access, gitconfig, Ok(dirs), &logs),
            Ok(spec),
        ),
    ensures
        ({
            let env = spec.env@;
            let git = spec.mounts@[0].guest@;
            &&& spec.mounts@[0].host@ == dirs.common@
            &&& variable_is(env, "GIT_COMMON_DIR"@, git)
            &&& variable_is(env, "GIT_DIR"@, git + "/worktrees/"@ + file_name(dirs.admin@)->0)
            &&& variable_is(env, "GIT_WORK_TREE"@, working_dir@)
            &&& gitconfig is Some ==> {
                &&& spec.mounts@.last().host@ == gitconfig->0@
                &&& variable_is(env, "GIT_CONFIG_GLOBAL"@, spec.mounts@.last().guest@)
            }
            &&& gitconfig is None ==> !variable_set(env, "GIT_CONFIG_GLOBAL"@)
        }),
{
    lemma_spec(access, worktree@, working_dir@, opt_str(gitconfig), dirs, spec);
    let env = spec.env@;
    assert(env[0].0@ == "GIT_DIR"@);
    assert(env[1].0@ == "GIT_COMMON_DIR"@);
    assert(env[2].0@ == "GIT_WORK_TREE"@);
    if gitconfig is Some {
        assert(env[8].0@ == "GIT_CONFIG_GLOBAL"@);
        assert(spec.mounts@.last() == spec.mounts@[spec.mounts@.len() - 1]);
    } else {
        reveal_strlit("GIT_DIR");
        reveal_strlit("GIT_COMMON_DIR");
        reveal_strlit("GIT_WORK_TREE");
        reveal_strlit("GIT_CONFIG_COUNT");
        reveal_strlit("GIT_CONFIG_KEY_0");
        reveal_strlit("GIT_CONFIG_VALUE_0");
        reveal_strlit("GIT_CONFIG_KEY_1");
        reveal_strlit("GIT_CONFIG_VALUE_1");
        reveal_strlit("GIT_CONFIG_GLOBAL");
        assert(env.len() == 8);
        assert(env[0].0@.len() == 7 && env[1].0@.len() == 14 && env[2].0@.len() == 13);
        assert(env[3].0@.len() == 16 && env[4].0@.len() == 16 && env[5].0@.len() == 18);
        assert(env[6].0@.len() == 16 && env[7].0@.len() == 18);
        assert("GIT_CONFIG_GLOBAL"@.len() == 17);
    }
}

/// In the guest git runs no hooks and collects no garbage by itself: two settings are given, and
/// they say so.
pub proof fn law_no_hooks_and_no_garbage_collection(
    worktree: &str,
    working_dir: &str,
    access: GitAccess,
    gitconfig: Option<&str>,
    dirs: GitDirs,
    logs: Result<(), String>,
    spec: GitAccessSpec,
)
    requires
        access != GitAccess::Nothing,
        plain(working_dir@),
        call_ensures(
            git_access_spec,
            (worktree, working_dir, access, gitconfig, Ok(dirs), &logs),
            Ok(spec),
        ),
    ensures
        variable_is(spec.env@, "GIT_CONFIG_COUNT"@, "2"@),
        variable_is(spec.env@, "GIT_CONFIG_KEY_0"@, "core.hooksPath"@),
        variable_is(spec.env@, "GIT_CONFIG_VALUE_0"@, "/dev/null"@),
        variable_is(spec.env@, "GIT_CONFIG_KEY_1"@, "gc.auto"@),
        variable_is(spec.env@, "GIT_CONFIG_VALUE_1"@, "0"@),
{
    lemma_spec(access, worktree@, working_dir@, opt_str(gitconfig), dirs, spec);
    assert(spec.env@[3].0@ == "GIT_CONFIG_COUNT"@);
    assert(spec.env@[4].0@ == "GIT_CONFIG_KEY_0"@);
    assert(spec.env@[5].0@ == "GIT_CONFIG_VALUE_0"@);
    assert(spec.env@[6].0@ == "GIT_CONFIG_KEY_1"@);
    assert(spec.env@[7].0@ == "GIT_CONFIG_VALUE_1"@);
}

/// A slash at the end of the working directory makes no difference: the mounts are the same, and so
/// are the variables, but for `GIT_WORK_TREE`, which is the working directory as it is given.
pub proof fn law_slash_at_the_end_makes_no_difference(
    worktree: &str,
    working_dir: &str,
    slashed: &str,
    access: GitAccess,
    gitconfig: Option<&str>,
    dirs: GitDirs,
    logs: Result<(), String>,
    spec: GitAccessSpec,
    other: GitAccessSpec,
)
    requires
        access != GitAccess::Nothing,
        slashed@ == working_dir@.push('/'),
        call_ensures(
            git_access_spec,
            (worktree, working_dir, access, gitconfig, Ok(dirs), &logs),
            Ok(spec),
        ),
        call_ensures(
            git_access_spec,
            (worktree, slashed, access, gitconfig, Ok(dirs), &logs),
            Ok(other),
        ),
    ensures
        spec.mounts@.len() == other.mounts@.len(),
        forall|i: int|
            0 <= i < spec.mounts@.len() ==> {
                &&& (#[trigger] spec.mounts@[i]).host@ == other.mounts@[i].host@
                &&& spec.mounts@[i].guest@ == other.mounts@[i].guest@
                &&& spec.mounts@[i].readonly == other.mounts@[i].readonly
            },
        spec.env@.len() == other.env@.len(),
        forall|i: int|
            0 <= i < spec.env@.len() ==> {
                &&& (#[trigger] spec.env@[i]).0@ == other.env@[i].0@
                &&& spec.env@[i].1@ == other.env@[i].1@ || spec.env@[i].0@ == "GIT_WORK_TREE"@
            },
        variable_is(other.env@, "GIT_WORK_TREE"@, slashed@),
{
    assert(working_dir@.push('/').drop_last() =~= working_dir@);
    assert(guest_base(slashed@) == guest_base(working_dir@));
    let m = mount_models(spec.mounts@);
    let n = mount_models(other.mounts@);
    let e = env_models(spec.env@);
    let f = env_models(other.env@);
    assert(m == n);
    assert(m.len() == spec.mounts@.len() && n.len() == other.mounts@.len());
    assert(e.len() == spec.env@.len() && f.len() == other.env@.len());
    assert forall|i: int| 0 <= i < spec.mounts@.len() implies {
        &&& (#[trigger] spec.mounts@[i]).host@ == other.mounts@[i].host@
        &&& spec.mounts@[i].guest@ == other.mounts@[i].guest@
        &&& spec.mounts@[i].readonly == other.mounts@[i].readonly
    } by {
        assert(m[i] == spec.mounts@[i]@ && n[i] == other.mounts@[i]@);
    }
    assert forall|i: int| 0 <= i < spec.env@.len() implies {
        &&& (#[trigger] spec.env@[i]).0@ == other.env@[i].0@
        &&& spec.env@[i].1@ == other.env@[i].1@ || spec.env@[i].0@ == "GIT_WORK_TREE"@
    } by {
        assert(e[i] == (spec.env@[i].0@, spec.env@[i].1@));
        assert(f[i] == (other.env@[i].0@, other.env@[i].1@));
    }
    assert(f[2] == (other.env@[2].0@, other.env@[2].1@));
}

/// Access is refused exactly where the directories behind the worktree are not known, the
/// administrative one has no name, or the logs, which are written under access to data alone,
/// cannot be made; directories that are not known are answered with why.
pub proof fn law_access_is_refused_only_for_a_reason(
    worktree: &str,
    working_dir: &str,
    access: GitAccess,
    gitconfig: Option<&str>,
    dirs: Result<GitDirs, SodagunError>,
    logs: Result<(), String>,
    r: Result<GitAccessSpec, SodagunError>,
)
    requires
        access != GitAccess::Nothing,
        call_ensures(
            git_access_spec,
            (worktree, working_dir, access, gitconfig, dirs, &logs),
            r,
        ),
    ensures
        r is Err <==> {
            ||| dirs is Err
            ||| file_name(dirs->Ok_0.admin@) is None
            ||| access == GitAccess::Data && logs is Err
        },
        dirs is Err ==> r->Err_0 == dirs->Err_0,
        dirs is Ok && r is Err ==> r->Err_0@.code == "GIT_ACCESS_INVALID"@,
{
    if let Ok(d) = dirs {
        assert(access_failure(access, d, logs) is Some <==> {
            ||| file_name(d.admin@) is None
            ||| access == GitAccess::Data && logs is Err
        });
    }
}

} // verus!
