//! Laws of `git add-worktree`.

use crate::commands::git::{
    advance, branch_part, check_conflicts, is_planned, plan_worktree, plan_worktree_as, repo_name,
    repo_part, workspace_record, AddWorktreeArgs, Progress, Step, StepOutcome, WorktreePlan,
};
use crate::error::SodagunError;
use crate::git_meta::{admin_pointer, common_git_dir, common_pointer, worktree_admin_dir};
use crate::ident::is_short_id;
use crate::laws::paths::plain_name;
use crate::laws::texts::{law_has_char, law_prefix, law_replace, law_trim};
use crate::path::join;
use crate::text::{is_white_space, texts};
use crate::workspace::WorkspaceMetadata;
use vstd::prelude::*;

verus! {

// ── Names ─────────────────────────────────────────────────────────────────────

/// Whether `part` is `name` with `-` in place of every `_`.
pub open spec fn repo_dashed(part: Seq<char>, name: Seq<char>) -> bool {
    &&& part.len() == name.len()
    &&& forall|i: int|
        0 <= i < name.len() ==> #[trigger] part[i] == (if name[i] == '_' {
            '-'
        } else {
            name[i]
        })
}

/// Whether `part` is `name` with `-` in place of every `_` and every `/`.
pub open spec fn branch_dashed(part: Seq<char>, name: Seq<char>) -> bool {
    &&& part.len() == name.len()
    &&& forall|i: int|
        0 <= i < name.len() ==> #[trigger] part[i] == (if name[i] == '_' || name[i] == '/' {
            '-'
        } else {
            name[i]
        })
}

proof fn lemma_parts(repo: Seq<char>, branch: Seq<char>)
    ensures
        repo_dashed(repo_part(repo), repo),
        branch_dashed(branch_part(branch), branch),
{
    law_replace(repo, seq!['_'], '-');
    law_replace(branch, seq!['/', '_'], '-');
    let one = seq!['_'];
    let two = seq!['/', '_'];
    assert(one[0] == '_' && two[0] == '/' && two[1] == '_');
    assert forall|c: char| #[trigger] one.contains(c) == (c == '_') by {}
    assert forall|c: char| #[trigger] two.contains(c) == (c == '/' || c == '_') by {
        if two.contains(c) {
            let k = choose|k: int| 0 <= k < two.len() && two[k] == c;
        }
    }
}

proof fn lemma_repo_name(base: Seq<char>, repo: Seq<char>)
    requires
        plain_name(repo),
    ensures
        crate::path::file_name(base + seq!['/'] + repo) == Some(repo),
{
    law_has_char(repo, '/');
    crate::text::lemma_split_back(base, '/', repo);
    assert(crate::text::split(base + seq!['/'] + repo, '/').last() == repo);
}

/// A repository is called by the last name of its canonical path, or else by that of its path as it
/// is given, or else `repo`.
pub proof fn law_repository_name(
    base: Seq<char>,
    repo: Seq<char>,
    canonical: Option<&str>,
    given: &str,
    r: String,
)
    requires
        call_ensures(repo_name, (canonical, given), r),
        plain_name(repo),
    ensures
        canonical is Some && canonical->0@ == base + seq!['/'] + repo ==> r@ == repo,
        (canonical is None || crate::path::file_name(canonical->0@) is None) && given@ == base
            + seq!['/'] + repo ==> r@ == repo,
        (canonical is None || crate::path::file_name(canonical->0@) is None)
            && crate::path::file_name(given@) is None ==> r@ == "repo"@,
{
    lemma_repo_name(base, repo);
}

/// The root directory of a workspace lies in the directory asked for, or else in that for temporary
/// files. Its name is `sodagun`, the repository's name, the branch and an identifier, in this order
/// with `_` between them; in the parts `-` stands for what separates. The worktree lies in the root
/// directory under the branch's name.
pub proof fn law_workspace_names(
    args: AddWorktreeArgs,
    canonical: Option<&str>,
    given: &str,
    repo: String,
    temp_dir: &str,
    id: &str,
    plan: WorktreePlan,
) -> (part: Seq<char>)
    requires
        given@ == args.repo_path@,
        call_ensures(repo_name, (canonical, given), repo),
        call_ensures(plan_worktree_as, (&args, canonical, temp_dir, id), plan),
    ensures
        repo_dashed(part, repo@),
        branch_dashed(plan.worktree_name@, args.branch_name@),
        ({
            let name = "sodagun_"@ + part + "_"@ + plan.worktree_name@ + "_"@ + id@;
            &&& args.dir_prefix is Some ==> plan.rootdir@ == join(args.dir_prefix->0@, name)
            &&& args.dir_prefix is None ==> plan.rootdir@ == join(temp_dir@, name)
        }),
        plan.worktree_path@ == join(plan.rootdir@, plan.worktree_name@),
{
    lemma_parts(repo@, args.branch_name@);
    repo_part(repo@)
}

/// A new workspace is named in the same way, with an identifier of eight hexadecimal digits.
pub proof fn law_new_workspace_names(
    args: AddWorktreeArgs,
    canonical: Option<&str>,
    given: &str,
    repo: String,
    temp_dir: &str,
    plan: WorktreePlan,
) -> (parts: (Seq<char>, Seq<char>))
    requires
        given@ == args.repo_path@,
        call_ensures(repo_name, (canonical, given), repo),
        call_ensures(plan_worktree, (&args, canonical, temp_dir), plan),
    ensures
        repo_dashed(parts.0, repo@),
        branch_dashed(plan.worktree_name@, args.branch_name@),
        parts.1.len() == 8,
        forall|i: int|
            0 <= i < 8 ==> {
                ||| 0x30 <= (#[trigger] parts.1[i]) as u32 <= 0x39
                ||| 0x61 <= parts.1[i] as u32 <= 0x66
            },
        ({
            let name = "sodagun_"@ + parts.0 + "_"@ + plan.worktree_name@ + "_"@ + parts.1;
            &&& args.dir_prefix is Some ==> plan.rootdir@ == join(args.dir_prefix->0@, name)
            &&& args.dir_prefix is None ==> plan.rootdir@ == join(temp_dir@, name)
        }),
        plan.worktree_path@ == join(plan.rootdir@, plan.worktree_name@),
{
    lemma_parts(repo@, args.branch_name@);
    let id = choose|id: Seq<char>|
        is_short_id(id) && #[trigger] is_planned(plan, args, repo@, temp_dir@, id);
    (repo_part(repo@), id)
}

/// The record of a new workspace says where its worktree is, on which branch and of which
/// repository, and that no sandbox runs.
pub proof fn law_record_of_a_new_workspace(
    args: AddWorktreeArgs,
    canonical: Option<&str>,
    plan: WorktreePlan,
    r: WorkspaceMetadata,
)
    requires
        call_ensures(workspace_record, (&args, canonical, &plan), r),
    ensures
        r.version == 1,
        canonical is Some ==> r.repo_path@ == canonical->0@,
        canonical is None ==> r.repo_path@ == args.repo_path@,
        r.branch@ == args.branch_name@,
        r.worktree_path@ == plan.worktree_path@,
        r.sandbox_name is None,
        r.created_at@.len() >= 20,
        r.created_at@.last() == 'Z',
{
}

// ── Steps ─────────────────────────────────────────────────────────────────────

/// The steps come one after the other, each once it is known that the one before was done, and
/// nothing is undone on the way; the last makes the whole done.
pub proof fn law_steps_come_in_order(args: AddWorktreeArgs, step: Step, r: Progress)
    requires
        call_ensures(advance, (&args, step, StepOutcome::Done), r),
    ensures
        step == Step::OpenRepo ==> r == Progress::Next(Step::ResolveBase),
        step == Step::ResolveBase ==> r == Progress::Next(Step::PeelCommit),
        step == Step::PeelCommit ==> r == Progress::Next(Step::CreateBranch),
        step == Step::CreateBranch ==> r == Progress::Next(Step::CheckConflicts),
        step == Step::CheckConflicts ==> r == Progress::Next(Step::CreateRootdir),
        step == Step::CreateRootdir ==> r == Progress::Next(Step::AddWorktree),
        step == Step::AddWorktree ==> r == Progress::Next(Step::NormalizePointer),
        step == Step::NormalizePointer ==> r == Progress::Next(Step::WriteMetadata),
        step == Step::WriteMetadata ==> r is Finished,
{
}

/// A step that was not done ends the whole. What was made before is undone and nothing else is:
/// the branch from the step after its making on, the root directory likewise.
pub proof fn law_failed_step_undoes_what_was_made(
    args: AddWorktreeArgs,
    step: Step,
    outcome: StepOutcome,
    r: Progress,
)
    requires
        call_ensures(advance, (&args, step, outcome), r),
        !(outcome is Done),
    ensures
        r is Abort,
        r->delete_branch <==> {
            ||| step == Step::CheckConflicts
            ||| step == Step::CreateRootdir
            ||| step == Step::AddWorktree
            ||| step == Step::NormalizePointer
            ||| step == Step::WriteMetadata
        },
        r->remove_rootdir <==> {
            ||| step == Step::AddWorktree
            ||| step == Step::NormalizePointer
            ||| step == Step::WriteMetadata
        },
{
}

/// What a step that failed is answered with: each reason has a code of its own, an error of ours
/// is passed on as it is, and where git's own words are all there is, they are the message.
pub proof fn law_failed_step_is_answered(
    args: AddWorktreeArgs,
    step: Step,
    outcome: StepOutcome,
    r: Progress,
)
    requires
        call_ensures(advance, (&args, step, outcome), r),
        !(outcome is Done),
    ensures
        r is Abort,
        outcome matches StepOutcome::Refused(e) ==> r->error@ == e@,
        !(outcome is Refused) ==> {
            let code = r->error@.code;
            let message = r->error@.message;
            &&& step == Step::OpenRepo ==> code == "REPO_NOT_FOUND"@ && message
                == "Repository not found at "@ + args.repo_path@
            &&& step == Step::ResolveBase && outcome is NotFound ==> code == "BASE_NOT_FOUND"@
                && message == "Base ref '"@ + args.base@ + "' not found"@
            &&& step == Step::ResolveBase && !(outcome is NotFound) ==> code == "BASE_INVALID"@
            &&& step == Step::PeelCommit ==> code == "BASE_INVALID"@
            &&& step == Step::CreateBranch && outcome is Exists ==> code == "BRANCH_EXISTS"@
                && message == "Branch '"@ + args.branch_name@ + "' already exists"@
            &&& step == Step::CreateBranch && !(outcome is Exists) ==> code == "GIT_ERROR"@
            &&& step == Step::CheckConflicts ==> code == "WORKTREE_EXISTS"@
            &&& step == Step::CreateRootdir ==> code == "GIT_ERROR"@
            &&& step == Step::AddWorktree ==> code == "GIT_ERROR"@
            &&& step == Step::NormalizePointer ==> code == "GIT_ERROR"@
            &&& step == Step::WriteMetadata ==> code == "WORKSPACE_INVALID"@
            &&& outcome matches StepOutcome::Failed(why) ==> {
                &&& step == Step::CreateBranch ==> message == why@
                &&& step == Step::AddWorktree ==> message == why@
                &&& step == Step::CreateRootdir ==> message
                    == "failed to create workspace rootdir: "@ + why@
            }
            &&& step == Step::CreateBranch && outcome is NotFound ==> message
                == outcome->NotFound_0@
            &&& step == Step::AddWorktree && outcome is NotFound ==> message
                == outcome->NotFound_0@
            &&& step == Step::AddWorktree && outcome is Exists ==> message == outcome->Exists_0@
        },
{
}

/// Something is in the way exactly where the root directory or the worktree's path exists, or a
/// worktree of the repository has the name.
pub proof fn law_conflicts(
    rootdir_exists: bool,
    worktree_exists: bool,
    names: Vec<String>,
    name: &str,
    r: StepOutcome,
)
    requires
        call_ensures(check_conflicts, (rootdir_exists, worktree_exists, &names, name), r),
    ensures
        r is Exists <==> {
            ||| rootdir_exists
            ||| worktree_exists
            ||| exists|i: int| 0 <= i < names@.len() && (#[trigger] names@[i])@ == name@
        },
        r is Exists || r is Done,
{
    let t = texts(names@);
    assert(t.len() == names@.len());
    if t.contains(name@) {
        let k = choose|k: int| 0 <= k < t.len() && t[k] == name@;
        assert(names@[k]@ == name@);
    }
    if exists|i: int| 0 <= i < names@.len() && (#[trigger] names@[i])@ == name@ {
        let i = choose|i: int| 0 <= i < names@.len() && (#[trigger] names@[i])@ == name@;
        assert(t[i] == name@);
    }
}

// ── Pointers ──────────────────────────────────────────────────────────────────

/// Whether a text is white space only.
pub open spec fn blank(s: Seq<char>) -> bool {
    forall|i: int| 0 <= i < s.len() ==> is_white_space(#[trigger] s[i])
}

/// A `.git` file of a worktree that holds `gitdir:` and a path points to that path, seen from the
/// worktree; white space round the path does not count. Any other content points nowhere.
pub proof fn law_worktree_pointer(
    worktree: &str,
    before: Seq<char>,
    path: Seq<char>,
    after: Seq<char>,
    content: String,
    r: Result<String, SodagunError>,
)
    requires
        call_ensures(admin_pointer, (worktree, &Ok::<String, String>(content)), r),
        blank(before),
        blank(after),
        path.len() > 0,
        !is_white_space(path[0]),
        !is_white_space(path.last()),
    ensures
        content@ == "gitdir:"@ + before + path + after ==> r is Ok && r->Ok_0@ == join(
            worktree@,
            path,
        ),
        (forall|rest: Seq<char>| content@ != #[trigger] ("gitdir:"@ + rest)) ==> r is Err
            && r->Err_0@.code == "GIT_ERROR"@,
{
    reveal_strlit("gitdir:");
    law_prefix(content@, "gitdir:"@);
    law_trim(before, path, after);
    if content@ == "gitdir:"@ + before + path + after {
        assert(content@ == "gitdir:"@ + (before + path + after)) by {
            assert("gitdir:"@ + before + path + after =~= "gitdir:"@ + (before + path + after));
        }
        assert(content@.skip(7) =~= before + path + after);
    }
}

/// A `commondir` file points to the path that it holds, seen from the administrative directory.
pub proof fn law_common_pointer(
    admin: &str,
    before: Seq<char>,
    path: Seq<char>,
    after: Seq<char>,
    content: String,
    r: Result<String, SodagunError>,
)
    requires
        call_ensures(common_pointer, (admin, &Ok::<String, String>(content)), r),
        blank(before),
        blank(after),
        path.len() > 0,
        !is_white_space(path[0]),
        !is_white_space(path.last()),
        content@ == before + path + after,
    ensures
        r is Ok,
        r->Ok_0@ == join(admin@, path),
{
    law_trim(before, path, after);
}

/// The directories behind a worktree are the canonical forms of what the pointers point to; a
/// pointer that leads nowhere, or to what has no canonical form, is an error of git's.
pub proof fn law_directories_are_canonical(
    worktree: &str,
    dotgit: Result<String, String>,
    pointer: Result<String, SodagunError>,
    canonical: Result<String, String>,
    r: Result<String, SodagunError>,
    admin: &str,
    commondir: Result<String, String>,
    to_common: Result<String, SodagunError>,
    common: Result<String, SodagunError>,
)
    requires
        call_ensures(admin_pointer, (worktree, &dotgit), pointer),
        call_ensures(worktree_admin_dir, (worktree, &dotgit, canonical), r),
        call_ensures(common_pointer, (admin, &commondir), to_common),
        call_ensures(common_git_dir, (admin, &commondir, canonical), common),
    ensures
        r is Ok <==> pointer is Ok && canonical is Ok,
        r is Ok ==> r->Ok_0@ == canonical->Ok_0@,
        r is Err ==> r->Err_0@.code == "GIT_ERROR"@,
        common is Ok <==> to_common is Ok && canonical is Ok,
        common is Ok ==> common->Ok_0@ == canonical->Ok_0@,
        common is Err ==> common->Err_0@.code == "GIT_ERROR"@,
        dotgit is Err ==> pointer is Err,
        commondir is Err ==> to_common is Err,
{
}

} // verus!
