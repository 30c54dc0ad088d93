//! Git in the guest: the mounts and variables that let a sandbox use the repository behind its
//! worktree.
//!
//! The shared `.git` is mounted at `<working_dir>.git`, and git is pointed at it by variables, so
//! that the pointer files on disk, which name host paths, are never consulted. What of it can be
//! written is what [`GitAccess`] says.

use crate::config::GitAccess;
use crate::error::{failure, fault, Failure, SodagunError};
use crate::path::{file_name, join, join_path, path_file_name};
use crate::text::{opt_str, starts_with, trim_end_char, trim_end_char_text};
use vstd::prelude::*;

verus! {

/// A directory or file of the host that the guest sees.
#[derive(Debug)]
pub struct GitMount {
    pub host: String,
    pub guest: String,
    pub readonly: bool,
}

/// Mounts, in the order in which they are to be made, and variables.
#[derive(Debug)]
pub struct GitAccessSpec {
    pub mounts: Vec<GitMount>,
    pub env: Vec<(String, String)>,
}

/// The directories behind a worktree, in canonical form.
#[derive(Debug)]
pub struct GitDirs {
    /// The worktree's administrative directory.
    pub admin: String,
    /// The shared `.git`.
    pub common: String,
}

/// The contents of a mount.
pub ghost struct MountModel {
    pub host: Seq<char>,
    pub guest: Seq<char>,
    pub readonly: bool,
}

impl View for GitMount {
    type V = MountModel;

    open spec fn view(&self) -> MountModel {
        MountModel { host: self.host@, guest: self.guest@, readonly: self.readonly }
    }
}

/// The contents of mounts.
pub open spec fn mount_models(mounts: Seq<GitMount>) -> Seq<MountModel> {
    Seq::new(mounts.len(), |i: int| mounts[i]@)
}

/// The contents of variables.
pub open spec fn env_models(env: Seq<(String, String)>) -> Seq<(Seq<char>, Seq<char>)> {
    Seq::new(env.len(), |i: int| (env[i].0@, env[i].1@))
}

/// The contents of a [`GitAccessSpec`].
pub ghost struct AccessModel {
    pub mounts: Seq<MountModel>,
    pub env: Seq<(Seq<char>, Seq<char>)>,
}

impl View for GitAccessSpec {
    type V = AccessModel;

    open spec fn view(&self) -> AccessModel {
        AccessModel { mounts: mount_models(self.mounts@), env: env_models(self.env@) }
    }
}

// ── Models ────────────────────────────────────────────────────────────────────

/// The working directory without slashes at its end.
pub open spec fn guest_base(working_dir: Seq<char>) -> Seq<char> {
    trim_end_char(working_dir, '/')
}

/// Where the guest sees the shared `.git`.
pub open spec fn guest_git(working_dir: Seq<char>) -> Seq<char> {
    guest_base(working_dir) + ".git"@
}

/// Where the guest sees the administrative directory called `name`.
pub open spec fn guest_admin(working_dir: Seq<char>, name: Seq<char>) -> Seq<char> {
    guest_git(working_dir) + "/worktrees/"@ + name
}

/// Where the guest sees the user's git configuration.
pub open spec fn guest_gitconfig(working_dir: Seq<char>) -> Seq<char> {
    guest_base(working_dir) + ".gitconfig"@
}

/// The mount of `host` at `guest`.
pub open spec fn mount(host: Seq<char>, guest: Seq<char>, readonly: bool) -> MountModel {
    MountModel { host, guest, readonly }
}

/// The variables that point git at the mounts, switch hooks off, which were made for the host,
/// and switch automatic garbage collection off, which would write where it may not.
pub open spec fn git_env(working_dir: Seq<char>, name: Seq<char>, with_config: bool) -> Seq<
    (Seq<char>, Seq<char>),
> {
    let fixed = seq![
        ("GIT_DIR"@, guest_admin(working_dir, name)),
        ("GIT_COMMON_DIR"@, guest_git(working_dir)),
        ("GIT_WORK_TREE"@, working_dir),
        ("GIT_CONFIG_COUNT"@, "2"@),
        ("GIT_CONFIG_KEY_0"@, "core.hooksPath"@),
        ("GIT_CONFIG_VALUE_0"@, "/dev/null"@),
        ("GIT_CONFIG_KEY_1"@, "gc.auto"@),
        ("GIT_CONFIG_VALUE_1"@, "0"@),
    ];
    if with_config {
        fixed.push(("GIT_CONFIG_GLOBAL"@, guest_gitconfig(working_dir)))
    } else {
        fixed
    }
}

/// The mounts for access to data: `.git` to read, and to write only what a commit writes. The
/// pointer files, which git on the host reads, stay as they are.
pub open spec fn data_mounts(
    worktree: Seq<char>,
    working_dir: Seq<char>,
    admin: Seq<char>,
    common: Seq<char>,
    name: Seq<char>,
) -> Seq<MountModel> {
    let git = guest_git(working_dir);
    let guest = guest_admin(working_dir, name);
    seq![
        mount(common, git, true),
        mount(join(common, "objects"@), git + "/objects"@, false),
        mount(join(common, "refs"@), git + "/refs"@, false),
        mount(join(common, "logs"@), git + "/logs"@, false),
        mount(admin, guest, false),
        mount(join(admin, "commondir"@), guest + "/commondir"@, true),
        mount(join(admin, "gitdir"@), guest + "/gitdir"@, true),
        mount(join(worktree, ".git"@), guest_base(working_dir) + "/.git"@, true),
    ]
}

/// The mounts for a kind of access, without the user's git configuration.
pub open spec fn access_mounts(
    access: GitAccess,
    worktree: Seq<char>,
    working_dir: Seq<char>,
    admin: Seq<char>,
    common: Seq<char>,
    name: Seq<char>,
) -> Seq<MountModel> {
    match access {
        GitAccess::Nothing => Seq::empty(),
        GitAccess::Full => seq![mount(common, guest_git(working_dir), false)],
        GitAccess::Data => data_mounts(worktree, working_dir, admin, common, name),
    }
}

/// Mounts and variables for a kind of access, with the user's git configuration if there is one:
/// to read for access to data, and else to write too.
pub open spec fn access_meant(
    access: GitAccess,
    worktree: Seq<char>,
    working_dir: Seq<char>,
    gitconfig: Option<Seq<char>>,
    admin: Seq<char>,
    common: Seq<char>,
    name: Seq<char>,
) -> AccessModel {
    let mounts = access_mounts(access, worktree, working_dir, admin, common, name);
    AccessModel {
        mounts: match gitconfig {
            Some(c) => mounts.push(
                mount(c, guest_gitconfig(working_dir), access == GitAccess::Data),
            ),
            None => mounts,
        },
        env: git_env(working_dir, name, gitconfig is Some),
    }
}

/// What is wrong with the directories behind a worktree, if anything. `logs` is the result of
/// making sure that the `logs` directory, which git makes only when it needs it, exists.
pub open spec fn access_failure(
    access: GitAccess,
    dirs: GitDirs,
    logs: Result<(), String>,
) -> Option<Failure> {
    if file_name(dirs.admin@) is None {
        Some(failure("GIT_ACCESS_INVALID"@, "admin dir has no name: "@ + dirs.admin@))
    } else {
        match (access, logs) {
            (GitAccess::Data, Err(why)) => Some(
                failure(
                    "GIT_ACCESS_INVALID"@,
                    "cannot create "@ + join(dirs.common@, "logs"@) + ": "@ + why@,
                ),
            ),
            _ => None,
        }
    }
}

// ── Code ──────────────────────────────────────────────────────────────────────

/// An error about git access.
fn invalid(message: String) -> (e: SodagunError)
    ensures
        e@ == failure("GIT_ACCESS_INVALID"@, message@),
{
    fault("GIT_ACCESS_INVALID", message)
}

/// Adds a variable.
fn push_var(env: &mut Vec<(String, String)>, name: &str, value: String)
    ensures
        env_models(final(env)@) == env_models(old(env)@).push((name@, value@)),
{
    let ghost before = env@;
    env.push((name.to_owned(), value));
    assert(env_models(env@) =~= env_models(before).push((name@, value@)));
}

/// Adds a mount.
fn push_mount(mounts: &mut Vec<GitMount>, host: String, guest: String, readonly: bool)
    ensures
        mount_models(final(mounts)@) == mount_models(old(mounts)@).push(
            mount(host@, guest@, readonly),
        ),
{
    let ghost before = mounts@;
    mounts.push(GitMount { host, guest, readonly });
    assert(mount_models(mounts@) =~= mount_models(before).push(mount(host@, guest@, readonly)));
}

/// Where `logs` must exist before access to data is given.
pub fn logs_dir(common: &str) -> (r: String)
    ensures
        r@ == join(common@, "logs"@),
{
    join_path(common, "logs")
}

/// The variables that point git at the mounts.
fn build_env(working_dir: &str, git: &str, admin: &str, gitconfig: Option<&str>) -> (r: Vec<
    (String, String),
>)
    ensures
        env_models(r@) == ({
            let fixed = seq![
                ("GIT_DIR"@, admin@),
                ("GIT_COMMON_DIR"@, git@),
                ("GIT_WORK_TREE"@, working_dir@),
                ("GIT_CONFIG_COUNT"@, "2"@),
                ("GIT_CONFIG_KEY_0"@, "core.hooksPath"@),
                ("GIT_CONFIG_VALUE_0"@, "/dev/null"@),
                ("GIT_CONFIG_KEY_1"@, "gc.auto"@),
                ("GIT_CONFIG_VALUE_1"@, "0"@),
            ];
            match gitconfig {
                Some(c) => fixed.push(("GIT_CONFIG_GLOBAL"@, c@)),
                None => fixed,
            }
        }),
{
    let mut env: Vec<(String, String)> = Vec::new();
    assert(env_models(env@) =~= Seq::empty());
    push_var(&mut env, "GIT_DIR", admin.to_owned());
    push_var(&mut env, "GIT_COMMON_DIR", git.to_owned());
    push_var(&mut env, "GIT_WORK_TREE", working_dir.to_owned());
    push_var(&mut env, "GIT_CONFIG_COUNT", "2".to_owned());
    push_var(&mut env, "GIT_CONFIG_KEY_0", "core.hooksPath".to_owned());
    push_var(&mut env, "GIT_CONFIG_VALUE_0", "/dev/null".to_owned());
    push_var(&mut env, "GIT_CONFIG_KEY_1", "gc.auto".to_owned());
    push_var(&mut env, "GIT_CONFIG_VALUE_1", "0".to_owned());
    assert(env_models(env@) =~= seq![
        ("GIT_DIR"@, admin@),
        ("GIT_COMMON_DIR"@, git@),
        ("GIT_WORK_TREE"@, working_dir@),
        ("GIT_CONFIG_COUNT"@, "2"@),
        ("GIT_CONFIG_KEY_0"@, "core.hooksPath"@),
        ("GIT_CONFIG_VALUE_0"@, "/dev/null"@),
        ("GIT_CONFIG_KEY_1"@, "gc.auto"@),
        ("GIT_CONFIG_VALUE_1"@, "0"@),
    ]);
    if let Some(c) = gitconfig {
        push_var(&mut env, "GIT_CONFIG_GLOBAL", c.to_owned());
    }
    env
}

/// The mounts for access to data.
fn build_data_mounts(worktree: &str, base: &str, git: &str, guest: &str, dirs: &GitDirs) -> (r: Vec<
    GitMount,
>)
    ensures
        mount_models(r@) == seq![
            mount(dirs.common@, git@, true),
            mount(join(dirs.common@, "objects"@), git@ + "/objects"@, false),
            mount(join(dirs.common@, "refs"@), git@ + "/refs"@, false),
            mount(join(dirs.common@, "logs"@), git@ + "/logs"@, false),
            mount(dirs.admin@, guest@, false),
            mount(join(dirs.admin@, "commondir"@), guest@ + "/commondir"@, true),
            mount(join(dirs.admin@, "gitdir"@), guest@ + "/gitdir"@, true),
            mount(join(worktree@, ".git"@), base@ + "/.git"@, true),
        ],
{
    let common = dirs.common.as_str();
    let admin = dirs.admin.as_str();
    let mut mounts: Vec<GitMount> = Vec::new();
    assert(mount_models(mounts@) =~= Seq::empty());
    push_mount(&mut mounts, common.to_owned(), git.to_owned(), true);
    push_mount(
        &mut mounts,
        join_path(common, "objects"),
        git.to_owned().concat("/objects"),
        false,
    );
    push_mount(&mut mounts, join_path(common, "refs"), git.to_owned().concat("/refs"), false);
    push_mount(&mut mounts, join_path(common, "logs"), git.to_owned().concat("/logs"), false);
    push_mount(&mut mounts, admin.to_owned(), guest.to_owned(), false);
    push_mount(
        &mut mounts,
        join_path(admin, "commondir"),
        guest.to_owned().concat("/commondir"),
        true,
    );
    push_mount(&mut mounts, join_path(admin, "gitdir"), guest.to_owned().concat("/gitdir"), true);
    push_mount(&mut mounts, join_path(worktree, ".git"), base.to_owned().concat("/.git"), true);
    assert(mount_models(mounts@) =~= seq![
        mount(dirs.common@, git@, true),
        mount(join(dirs.common@, "objects"@), git@ + "/objects"@, false),
        mount(join(dirs.common@, "refs"@), git@ + "/refs"@, false),
        mount(join(dirs.common@, "logs"@), git@ + "/logs"@, false),
        mount(dirs.admin@, guest@, false),
        mount(join(dirs.admin@, "commondir"@), guest@ + "/commondir"@, true),
        mount(join(dirs.admin@, "gitdir"@), guest@ + "/gitdir"@, true),
        mount(join(worktree@, ".git"@), base@ + "/.git"@, true),
    ]);
    mounts
}

/// The mounts and variables for a kind of access to the repository behind `worktree`, which the
/// guest sees at `working_dir`. `gitconfig` is the user's git configuration, if it exists; `dirs`
/// are the directories behind the worktree, and `logs` is the result of making sure that
/// [`logs_dir`] exists. Without access, neither is looked at.
pub fn git_access_spec(
    worktree: &str,
    working_dir: &str,
    access: GitAccess,
    gitconfig: Option<&str>,
    dirs: Result<GitDirs, SodagunError>,
    logs: &Result<(), String>,
) -> (r: Result<GitAccessSpec, SodagunError>)
    ensures
        match (access, dirs) {
            (GitAccess::Nothing, _) => r is Ok && r->Ok_0@ == (AccessModel {
                mounts: Seq::empty(),
                env: Seq::empty(),
            }),
            (_, Err(e)) => r is Err && r->Err_0 == e,
            (_, Ok(d)) => match r {
                Ok(spec) => {
                    &&& access_failure(access, d, *logs) is None
                    &&& spec@ == access_meant(
                        access,
                        worktree@,
                        working_dir@,
                        opt_str(gitconfig),
                        d.admin@,
                        d.common@,
                        file_name(d.admin@)->0,
                    )
                },
                Err(e) => access_failure(access, d, *logs) == Some(e@),
            },
        },
{
    if access == GitAccess::Nothing {
        let spec = GitAccessSpec { mounts: Vec::new(), env: Vec::new() };
        assert(mount_models(spec.mounts@) =~= Seq::empty());
        assert(env_models(spec.env@) =~= Seq::empty());
        return Ok(spec);
    }
    let dirs = match dirs {
        Ok(d) => d,
        Err(e) => return Err(e),
    };
    let name = match path_file_name(dirs.admin.as_str()) {
        Some(n) => n,
        None => {
            return Err(
                invalid("admin dir has no name: ".to_owned().concat(dirs.admin.as_str())),
            );
        },
    };
    let base = trim_end_char_text(working_dir, '/');
    let git = base.clone().concat(".git");
    let guest = git.clone().concat("/worktrees/").concat(name.as_str());
    let config = base.clone().concat(".gitconfig");
    let env = build_env(
        working_dir,
        git.as_str(),
        guest.as_str(),
        match gitconfig {
            Some(_) => Some(config.as_str()),
            None => None,
        },
    );
    let mut mounts: Vec<GitMount> = Vec::new();
    assert(mount_models(mounts@) =~= Seq::empty());
    if access == GitAccess::Data {
        if let Err(why) = logs {
            return Err(
                invalid(
                    "cannot create ".to_owned().concat(
                        logs_dir(dirs.common.as_str()).as_str(),
                    ).concat(": ").concat(why.as_str()),
                ),
            );
        }
        mounts =
        build_data_mounts(worktree, base.as_str(), git.as_str(), guest.as_str(), &dirs);
    } else {
        push_mount(&mut mounts, dirs.common.clone(), git.clone(), false);
        assert(mount_models(mounts@) =~= seq![mount(dirs.common@, git@, false)]);
    }
    if let Some(c) = gitconfig {
        push_mount(&mut mounts, c.to_owned(), config, access == GitAccess::Data);
    }
    Ok(GitAccessSpec { mounts, env })
}

// ── Laws ──────────────────────────────────────────────────────────────────────

/// Under access to data, the guest can write objects, references, logs and the worktree's own
/// administrative directory, and nothing else: in particular neither the repository's
/// configuration and hooks nor any of the pointer files.
pub proof fn law_data_access_writes_data_only(
    worktree: Seq<char>,
    working_dir: Seq<char>,
    gitconfig: Option<Seq<char>>,
    admin: Seq<char>,
    common: Seq<char>,
    name: Seq<char>,
    i: int,
)
    requires
        0 <= i < access_meant(
            GitAccess::Data,
            worktree,
            working_dir,
            gitconfig,
            admin,
            common,
            name,
        ).mounts.len(),
    ensures
        ({
            let m = access_meant(
                GitAccess::Data,
                worktree,
                working_dir,
                gitconfig,
                admin,
                common,
                name,
            ).mounts[i];
            !m.readonly ==> {
                ||| m.host == join(common, "objects"@)
                ||| m.host == join(common, "refs"@)
                ||| m.host == join(common, "logs"@)
                ||| m.host == admin
            }
        }),
{
}

/// Whether the guest path `inner` lies below the guest path `outer`.
pub open spec fn lies_below(inner: Seq<char>, outer: Seq<char>) -> bool {
    starts_with(inner, outer + "/"@)
}

/// Two texts that go on differently after a common start: neither begins with the other.
proof fn lemma_diverge(inner: Seq<char>, outer: Seq<char>, k: int)
    requires
        0 <= k < outer.len() + 1,
        k < inner.len() ==> inner[k] != (outer + "/"@)[k],
    ensures
        !lies_below(inner, outer),
{
    reveal_strlit("/");
    if lies_below(inner, outer) {
        let p = outer + "/"@;
        assert(inner.take(p.len() as int)[k] == p[k]);
        assert(inner.take(p.len() as int)[k] == inner[k]);
    }
}

/// A mount is made before everything that is mounted below it: no mount lies above an earlier
/// one.
#[verifier::rlimit(30)]
pub proof fn law_parents_are_mounted_first(
    access: GitAccess,
    worktree: Seq<char>,
    working_dir: Seq<char>,
    gitconfig: Option<Seq<char>>,
    admin: Seq<char>,
    common: Seq<char>,
    name: Seq<char>,
    i: int,
    j: int,
)
    requires
        0 <= i < j < access_meant(
            access,
            worktree,
            working_dir,
            gitconfig,
            admin,
            common,
            name,
        ).mounts.len(),
    ensures
        ({
            let a = access_meant(access, worktree, working_dir, gitconfig, admin, common, name);
            !lies_below(a.mounts[i].guest, a.mounts[j].guest)
        }),
{
    let mounts = access_meant(access, worktree, working_dir, gitconfig, admin, common, name).mounts;
    let outer = mounts[j].guest;
    let inner = mounts[i].guest;
    let base = guest_base(working_dir);
    let n = base.len() as int;
    reveal_strlit(".git");
    reveal_strlit(".gitconfig");
    reveal_strlit("/worktrees/");
    reveal_strlit("/objects");
    reveal_strlit("/refs");
    reveal_strlit("/logs");
    reveal_strlit("/commondir");
    reveal_strlit("/gitdir");
    reveal_strlit("/.git");
    reveal_strlit("/");
    if access == GitAccess::Full {
        assert(i == 0 && j == 1);
        lemma_diverge(inner, outer, n + 4);
    } else if j == 8 {
        // `<base>.gitconfig` against `<base>.git...` and `<base>/.git`.
        if i == 7 {
            lemma_diverge(inner, outer, n);
        } else {
            lemma_diverge(inner, outer, n + 4);
        }
    } else if j == 7 {
        // `<base>/.git` against `<base>.git...`.
        lemma_diverge(inner, outer, n);
    } else if i == 0 {
        lemma_diverge(inner, outer, n + 4);
    } else if j <= 4 {
        // Different names below `<base>.git/`; `worktrees` begins like none of the others.
        lemma_diverge(inner, outer, n + 5);
    } else {
        let a = guest_admin(working_dir, name).len() as int;
        if i < 4 {
            lemma_diverge(inner, outer, n + 5);
        } else if i == 4 {
            lemma_diverge(inner, outer, a);
        } else {
            lemma_diverge(inner, outer, a + 1);
        }
    }
}

/// No variable is set twice.
pub proof fn law_git_variables_are_distinct(
    working_dir: Seq<char>,
    name: Seq<char>,
    with_config: bool,
    i: int,
    j: int,
)
    requires
        0 <= i < j < git_env(working_dir, name, with_config).len(),
    ensures
        ({
            let env = git_env(working_dir, name, with_config);
            env[i].0 != env[j].0
        }),
{
    reveal_strlit("GIT_DIR");
    reveal_strlit("GIT_COMMON_DIR");
    reveal_strlit("GIT_WORK_TREE");
    reveal_strlit("GIT_CONFIG_COUNT");
    reveal_strlit("GIT_CONFIG_KEY_0");
    reveal_strlit("GIT_CONFIG_VALUE_0");
    reveal_strlit("GIT_CONFIG_KEY_1");
    reveal_strlit("GIT_CONFIG_VALUE_1");
    reveal_strlit("GIT_CONFIG_GLOBAL");
    let env = git_env(working_dir, name, with_config);
    assert(env[4].0[15] == '0' && env[6].0[15] == '1');
    assert(env[5].0[17] == '0' && env[7].0[17] == '1');
    assert(env[3].0[11] == 'C' && env[4].0[11] == 'K' && env[6].0[11] == 'K');
    assert(env[0].0.len() == 7 && env[1].0.len() == 14 && env[2].0.len() == 13);
    assert(env[3].0.len() == 16 && env[4].0.len() == 16 && env[6].0.len() == 16);
    assert(env[5].0.len() == 18 && env[7].0.len() == 18);
    if with_config {
        assert(env[8].0.len() == 17);
    }
}

} // verus!
