//! `git add-worktree`: a new branch in a worktree of its own, in a new workspace.

use crate::error::{failure, fault, Failure, SodagunError};
use crate::ident::{is_short_id, is_timestamp, new_short_id};
use crate::path::{file_name, join, join_path, lemma_joined_file_name, path_file_name};
use crate::text::{
    has_char, lemma_split_front, lemma_split_none, opt_str, replace_all, replace_chars, same_text,
    split, texts,
};
use crate::workspace::{WorkspaceMetadata, WORKSPACE_VERSION};
use vstd::prelude::*;

verus! {

/// Arguments of `git add-worktree`.
#[derive(Debug)]
pub struct AddWorktreeArgs {
    /// Path to the repository.
    pub repo_path: String,
    /// Name of the branch to create.
    pub branch_name: String,
    /// Directory to make the workspace in; the system's directory for temporary files if absent.
    pub dir_prefix: Option<String>,
    /// What the new branch is based on.
    pub base: String,
}

/// The names of a new workspace.
#[derive(Debug)]
pub struct WorktreePlan {
    /// Root directory of the workspace.
    pub rootdir: String,
    /// Where the worktree goes, below the root directory.
    pub worktree_path: String,
    /// What git calls the worktree.
    pub worktree_name: String,
}

// ── Names ─────────────────────────────────────────────────────────────────────

/// What a repository is called: the final name of its canonical path, or of its path as given.
pub open spec fn repo_named(canonical: Option<Seq<char>>, given: Seq<char>) -> Seq<char> {
    let from_canonical = match canonical {
        Some(c) => file_name(c),
        None => None,
    };
    match from_canonical {
        Some(n) => n,
        None => match file_name(given) {
            Some(n) => n,
            None => "repo"@,
        },
    }
}

/// A repository's name as part of a workspace's name, in which `_` separates the parts.
pub open spec fn repo_part(name: Seq<char>) -> Seq<char> {
    replace_chars(name, seq!['_'], '-')
}

/// A branch's name as part of a workspace's name, and as a worktree's name, which cannot hold
/// slashes.
pub open spec fn branch_part(branch: Seq<char>) -> Seq<char> {
    replace_chars(branch, seq!['/', '_'], '-')
}

/// The name of a workspace's root directory, which is the name of its sandbox too.
pub open spec fn workspace_name(repo: Seq<char>, branch: Seq<char>, id: Seq<char>) -> Seq<char> {
    "sodagun_"@ + repo_part(repo) + "_"@ + branch_part(branch) + "_"@ + id
}

/// The directory that a workspace is made in.
pub open spec fn prefix_of(args: AddWorktreeArgs, temp_dir: Seq<char>) -> Seq<char> {
    match args.dir_prefix {
        Some(d) => d@,
        None => temp_dir,
    }
}

/// Whether `plan` has the names for `args`, the repository name `repo` and the identifier `id`.
pub open spec fn is_planned(
    plan: WorktreePlan,
    args: AddWorktreeArgs,
    repo: Seq<char>,
    temp_dir: Seq<char>,
    id: Seq<char>,
) -> bool {
    &&& plan.worktree_name@ == branch_part(args.branch_name@)
    &&& plan.rootdir@ == join(
        prefix_of(args, temp_dir),
        workspace_name(repo, args.branch_name@, id),
    )
    &&& plan.worktree_path@ == join(plan.rootdir@, plan.worktree_name@)
}

/// Whether `plan` has the names for `args` and the repository name `repo`, with some identifier.
pub open spec fn is_newly_planned(
    plan: WorktreePlan,
    args: AddWorktreeArgs,
    repo: Seq<char>,
    temp_dir: Seq<char>,
) -> bool {
    exists|id: Seq<char>| is_short_id(id) && #[trigger] is_planned(plan, args, repo, temp_dir, id)
}

/// What a repository is called; `canonical` is the canonical form of its path, if there is one.
pub fn repo_name(canonical: Option<&str>, given: &str) -> (r: String)
    ensures
        r@ == repo_named(
            opt_str(canonical),
            given@,
        ),
{
    let from_canonical = match canonical {
        Some(c) => path_file_name(c),
        None => None,
    };
    match from_canonical {
        Some(n) => n,
        None => match path_file_name(given) {
            Some(n) => n,
            None => "repo".to_owned(),
        },
    }
}

/// A repository's name as part of a workspace's name.
pub fn sanitize_repo(name: &str) -> (r: String)
    ensures
        r@ == repo_part(name@),
{
    let from: [char; 1] = ['_'];
    assert(from@ =~= seq!['_']);
    replace_all(name, &from, '-')
}

/// A branch's name as part of a workspace's name.
pub fn sanitize_branch(branch: &str) -> (r: String)
    ensures
        r@ == branch_part(branch@),
{
    let from: [char; 2] = ['/', '_'];
    assert(from@ =~= seq!['/', '_']);
    replace_all(branch, &from, '-')
}

/// The names of a new workspace with the identifier `id`.
pub fn plan_worktree_as(
    args: &AddWorktreeArgs,
    canonical_repo: Option<&str>,
    temp_dir: &str,
    id: &str,
) -> (r: WorktreePlan)
    ensures
        is_planned(
            r,
            *args,
            repo_named(
                opt_str(canonical_repo),
                args.repo_path@,
            ),
            temp_dir@,
            id@,
        ),
{
    let repo = sanitize_repo(repo_name(canonical_repo, args.repo_path.as_str()).as_str());
    let branch = sanitize_branch(args.branch_name.as_str());
    let name = "sodagun_".to_owned().concat(repo.as_str()).concat("_").concat(
        branch.as_str(),
    ).concat("_").concat(id);
    let rootdir = match &args.dir_prefix {
        Some(d) => join_path(d.as_str(), name.as_str()),
        None => join_path(temp_dir, name.as_str()),
    };
    let worktree_path = join_path(rootdir.as_str(), branch.as_str());
    WorktreePlan { rootdir, worktree_path, worktree_name: branch }
}

/// The names of a new workspace, with a new identifier.
pub fn plan_worktree(args: &AddWorktreeArgs, canonical_repo: Option<&str>, temp_dir: &str) -> (r:
    WorktreePlan)
    ensures
        is_newly_planned(
            r,
            *args,
            repo_named(
                opt_str(canonical_repo),
                args.repo_path@,
            ),
            temp_dir@,
        ),
{
    let id = new_short_id();
    plan_worktree_as(args, canonical_repo, temp_dir, id.as_str())
}

/// The record of a new workspace: the repository by its canonical path, or as given where it has
/// none.
pub fn workspace_record(
    args: &AddWorktreeArgs,
    canonical_repo: Option<&str>,
    plan: &WorktreePlan,
) -> (r: WorkspaceMetadata)
    ensures
        r.version == WORKSPACE_VERSION,
        r.repo_path@ == match canonical_repo {
            Some(c) => c@,
            None => args.repo_path@,
        },
        r.branch@ == args.branch_name@,
        is_timestamp(r.created_at@),
        r.worktree_path@ == plan.worktree_path@,
        r.sandbox_name is None,
{
    let repo_path = match canonical_repo {
        Some(c) => c.to_owned(),
        None => args.repo_path.clone(),
    };
    WorkspaceMetadata::new(repo_path, args.branch_name.clone(), plan.worktree_path.clone())
}

// ── Steps ─────────────────────────────────────────────────────────────────────

/// What is done to add a worktree, in this order.
#[derive(Debug, Clone, Copy, PartialEq, Eq, Structural)]
pub enum Step {
    OpenRepo,
    ResolveBase,
    PeelCommit,
    CreateBranch,
    CheckConflicts,
    CreateRootdir,
    AddWorktree,
    /// Make the worktree's pointer to the shared `.git` relative.
    NormalizePointer,
    WriteMetadata,
}

/// What became of a step.
#[derive(Debug)]
pub enum StepOutcome {
    Done,
    /// What was looked for is not there; the failure in printed form.
    NotFound(String),
    /// What was to be made, or something in its way, is there already; the failure in printed
    /// form.
    Exists(String),
    /// It failed for another reason, in printed form.
    Failed(String),
    /// It failed with an error of ours.
    Refused(SodagunError),
}

/// What comes next.
#[derive(Debug)]
pub enum Progress {
    Next(Step),
    Finished,
    /// Give up, and undo what was made.
    Abort { error: SodagunError, delete_branch: bool, remove_rootdir: bool },
}

/// What `Progress` says.
pub ghost enum ProgressModel {
    Next(Step),
    Finished,
    Abort { error: Failure, delete_branch: bool, remove_rootdir: bool },
}

impl View for Progress {
    type V = ProgressModel;

    open spec fn view(&self) -> ProgressModel {
        match self {
            Progress::Next(s) => ProgressModel::Next(*s),
            Progress::Finished => ProgressModel::Finished,
            Progress::Abort { error, delete_branch, remove_rootdir } => ProgressModel::Abort {
                error: error@,
                delete_branch: *delete_branch,
                remove_rootdir: *remove_rootdir,
            },
        }
    }
}

/// The step after `step`.
pub open spec fn following(step: Step) -> Option<Step> {
    match step {
        Step::OpenRepo => Some(Step::ResolveBase),
        Step::ResolveBase => Some(Step::PeelCommit),
        Step::PeelCommit => Some(Step::CreateBranch),
        Step::CreateBranch => Some(Step::CheckConflicts),
        Step::CheckConflicts => Some(Step::CreateRootdir),
        Step::CreateRootdir => Some(Step::AddWorktree),
        Step::AddWorktree => Some(Step::NormalizePointer),
        Step::NormalizePointer => Some(Step::WriteMetadata),
        Step::WriteMetadata => None,
    }
}

/// Whether the branch has been created when `step` is tried.
pub open spec fn branch_made_before(step: Step) -> bool {
    ||| step == Step::CheckConflicts
    ||| step == Step::CreateRootdir
    ||| rootdir_made_before(step)
}

/// Whether the root directory has been created when `step` is tried.
pub open spec fn rootdir_made_before(step: Step) -> bool {
    ||| step == Step::AddWorktree
    ||| step == Step::NormalizePointer
    ||| step == Step::WriteMetadata
}

/// The printed form of a failure.
pub open spec fn failure_text(outcome: StepOutcome) -> Seq<char> {
    match outcome {
        StepOutcome::NotFound(why) => why@,
        StepOutcome::Exists(why) => why@,
        StepOutcome::Failed(why) => why@,
        _ => Seq::empty(),
    }
}

/// What a step that failed is reported as.
pub open spec fn step_failure(args: AddWorktreeArgs, step: Step, outcome: StepOutcome) -> Failure {
    match (step, outcome) {
        (_, StepOutcome::Refused(e)) => e@,
        (Step::OpenRepo, _) => failure(
            "REPO_NOT_FOUND"@,
            "Repository not found at "@ + args.repo_path@,
        ),
        (Step::ResolveBase, StepOutcome::NotFound(_)) => failure(
            "BASE_NOT_FOUND"@,
            "Base ref '"@ + args.base@ + "' not found"@,
        ),
        (Step::ResolveBase, _) => failure(
            "BASE_INVALID"@,
            "Could not resolve '"@ + args.base@ + "' to a commit"@,
        ),
        (Step::PeelCommit, _) => failure(
            "BASE_INVALID"@,
            "Could not resolve '"@ + args.base@ + "' to a commit"@,
        ),
        (Step::CreateBranch, StepOutcome::Exists(_)) => failure(
            "BRANCH_EXISTS"@,
            "Branch '"@ + args.branch_name@ + "' already exists"@,
        ),
        (Step::CreateBranch, _) => failure("GIT_ERROR"@, failure_text(outcome)),
        (Step::CheckConflicts, _) => failure(
            "WORKTREE_EXISTS"@,
            "Worktree '"@ + args.branch_name@ + "' already exists"@,
        ),
        (Step::CreateRootdir, _) => failure(
            "GIT_ERROR"@,
            "failed to create workspace rootdir: "@ + failure_text(outcome),
        ),
        (Step::AddWorktree, _) => failure("GIT_ERROR"@, failure_text(outcome)),
        (Step::NormalizePointer, _) => failure("GIT_ERROR"@, failure_text(outcome)),
        (Step::WriteMetadata, _) => failure("WORKSPACE_INVALID"@, failure_text(outcome)),
    }
}

/// What comes after `step` with this outcome.
pub open spec fn progress(
    args: AddWorktreeArgs,
    step: Step,
    outcome: StepOutcome,
) -> ProgressModel {
    if outcome is Done {
        match following(step) {
            Some(s) => ProgressModel::Next(s),
            None => ProgressModel::Finished,
        }
    } else {
        ProgressModel::Abort {
            error: step_failure(args, step, outcome),
            delete_branch: branch_made_before(step),
            remove_rootdir: rootdir_made_before(step),
        }
    }
}

/// The printed form of a failure.
fn into_text(outcome: StepOutcome) -> (r: String)
    ensures
        r@ == failure_text(outcome),
{
    match outcome {
        StepOutcome::NotFound(why) => why,
        StepOutcome::Exists(why) => why,
        StepOutcome::Failed(why) => why,
        _ => {
            let none = String::new();
            assert(none@ =~= Seq::empty());
            none
        },
    }
}

/// The error for a step that failed.
fn step_error(args: &AddWorktreeArgs, step: Step, outcome: StepOutcome) -> (e: SodagunError)
    ensures
        e@ == step_failure(*args, step, outcome),
{
    let base_invalid = "Could not resolve '".to_owned().concat(args.base.as_str()).concat(
        "' to a commit",
    );
    match (step, outcome) {
        (_, StepOutcome::Refused(e)) => e,
        (Step::OpenRepo, _) => fault(
            "REPO_NOT_FOUND",
            "Repository not found at ".to_owned().concat(args.repo_path.as_str()),
        ),
        (Step::ResolveBase, StepOutcome::NotFound(_)) => fault(
            "BASE_NOT_FOUND",
            "Base ref '".to_owned().concat(args.base.as_str()).concat("' not found"),
        ),
        (Step::ResolveBase, _) => fault("BASE_INVALID", base_invalid),
        (Step::PeelCommit, _) => fault("BASE_INVALID", base_invalid),
        (Step::CreateBranch, StepOutcome::Exists(_)) => fault(
            "BRANCH_EXISTS",
            "Branch '".to_owned().concat(args.branch_name.as_str()).concat("' already exists"),
        ),
        (Step::CreateBranch, other) => fault("GIT_ERROR", into_text(other)),
        (Step::CheckConflicts, _) => fault(
            "WORKTREE_EXISTS",
            "Worktree '".to_owned().concat(args.branch_name.as_str()).concat("' already exists"),
        ),
        (Step::CreateRootdir, other) => fault(
            "GIT_ERROR",
            "failed to create workspace rootdir: ".to_owned().concat(
                into_text(other).as_str(),
            ),
        ),
        (Step::AddWorktree, other) => fault("GIT_ERROR", into_text(other)),
        (Step::NormalizePointer, other) => fault("GIT_ERROR", into_text(other)),
        (Step::WriteMetadata, other) => fault("WORKSPACE_INVALID", into_text(other)),
    }
}

/// What comes after `step` with this outcome. Adding a worktree begins with [`Step::OpenRepo`].
pub fn advance(args: &AddWorktreeArgs, step: Step, outcome: StepOutcome) -> (r: Progress)
    ensures
        r@ == progress(*args, step, outcome),
{
    match outcome {
        StepOutcome::Done => match step {
            Step::OpenRepo => Progress::Next(Step::ResolveBase),
            Step::ResolveBase => Progress::Next(Step::PeelCommit),
            Step::PeelCommit => Progress::Next(Step::CreateBranch),
            Step::CreateBranch => Progress::Next(Step::CheckConflicts),
            Step::CheckConflicts => Progress::Next(Step::CreateRootdir),
            Step::CreateRootdir => Progress::Next(Step::AddWorktree),
            Step::AddWorktree => Progress::Next(Step::NormalizePointer),
            Step::NormalizePointer => Progress::Next(Step::WriteMetadata),
            Step::WriteMetadata => Progress::Finished,
        },
        failed => {
            let late = step == Step::AddWorktree || step == Step::NormalizePointer || step
                == Step::WriteMetadata;
            Progress::Abort {
                error: step_error(args, step, failed),
                delete_branch: late || step == Step::CheckConflicts || step
                    == Step::CreateRootdir,
                remove_rootdir: late,
            }
        },
    }
}

/// Whether something is in the way of a new worktree: its root directory, its path, or a worktree
/// of the same name.
pub open spec fn in_the_way(
    rootdir_exists: bool,
    worktree_exists: bool,
    names: Seq<Seq<char>>,
    name: Seq<char>,
) -> bool {
    rootdir_exists || worktree_exists || names.contains(name)
}

/// The outcome of [`Step::CheckConflicts`]; `names` are the worktrees that the repository has.
pub fn check_conflicts(
    rootdir_exists: bool,
    worktree_exists: bool,
    names: &Vec<String>,
    name: &str,
) -> (r: StepOutcome)
    ensures
        match r {
            StepOutcome::Exists(_) => in_the_way(
                rootdir_exists,
                worktree_exists,
                texts(names@),
                name@,
            ),
            StepOutcome::Done => !in_the_way(
                rootdir_exists,
                worktree_exists,
                texts(names@),
                name@,
            ),
            _ => false,
        },
{
    if rootdir_exists || worktree_exists {
        return StepOutcome::Exists(String::new());
    }
    let mut i: usize = 0;
    while i < names.len()
        invariant
            i <= names.len(),
            forall|j: int| 0 <= j < i ==> (#[trigger] names@[j])@ != name@,
        decreases names.len() - i,
    {
        if same_text(names[i].as_str(), name) {
            assert(texts(names@)[i as int] == name@);
            return StepOutcome::Exists(String::new());
        }
        i += 1;
    }
    proof {
        if texts(names@).contains(name@) {
            let j = choose|j: int| 0 <= j < texts(names@).len() && texts(names@)[j] == name@;
            assert(names@[j]@ == name@);
        }
    }
    StepOutcome::Done
}

// ── Laws ──────────────────────────────────────────────────────────────────────

/// What exists because of adding a worktree.
pub ghost struct Made {
    pub branch: bool,
    pub rootdir: bool,
}

/// What exists after a step with this outcome.
pub open spec fn made_after(made: Made, step: Step, outcome: StepOutcome) -> Made {
    if outcome is Done {
        Made {
            branch: made.branch || step == Step::CreateBranch,
            rootdir: made.rootdir || step == Step::CreateRootdir,
        }
    } else {
        made
    }
}

/// What exists after giving up and undoing.
pub open spec fn undone(made: Made, delete_branch: bool, remove_rootdir: bool) -> Made {
    Made { branch: made.branch && !delete_branch, rootdir: made.rootdir && !remove_rootdir }
}

/// A run from `step` with these outcomes: what exists at its end, and how it ended. A run that
/// the outcomes do not bring to an end stops with the next step.
pub open spec fn run_from(
    args: AddWorktreeArgs,
    made: Made,
    step: Step,
    outcomes: Seq<StepOutcome>,
) -> (Made, ProgressModel)
    decreases outcomes.len(),
{
    if outcomes.len() == 0 {
        (made, ProgressModel::Next(step))
    } else {
        let after = made_after(made, step, outcomes[0]);
        match progress(args, step, outcomes[0]) {
            ProgressModel::Next(s) => run_from(args, after, s, outcomes.skip(1)),
            ProgressModel::Finished => (after, ProgressModel::Finished),
            ProgressModel::Abort { error, delete_branch, remove_rootdir } => (
                undone(after, delete_branch, remove_rootdir),
                ProgressModel::Abort { error, delete_branch, remove_rootdir },
            ),
        }
    }
}

proof fn lemma_run_from(args: AddWorktreeArgs, step: Step, outcomes: Seq<StepOutcome>)
    ensures
        ({
            let made = Made { branch: branch_made_before(step), rootdir: rootdir_made_before(step) };
            let (end, how) = run_from(args, made, step, outcomes);
            &&& how is Abort ==> end == (Made { branch: false, rootdir: false })
            &&& how is Finished ==> end == (Made { branch: true, rootdir: true })
        }),
    decreases outcomes.len(),
{
    let made = Made { branch: branch_made_before(step), rootdir: rootdir_made_before(step) };
    if outcomes.len() > 0 {
        if let ProgressModel::Next(s) = progress(args, step, outcomes[0]) {
            assert(made_after(made, step, outcomes[0]) == (Made {
                branch: branch_made_before(s),
                rootdir: rootdir_made_before(s),
            }));
            lemma_run_from(args, s, outcomes.skip(1));
        }
    }
}

/// Whatever goes wrong and wherever, adding a worktree that fails leaves neither branch nor root
/// directory behind; one that succeeds has made both.
pub proof fn law_failure_leaves_nothing_behind(args: AddWorktreeArgs, outcomes: Seq<StepOutcome>)
    ensures
        ({
            let (end, how) = run_from(
                args,
                Made { branch: false, rootdir: false },
                Step::OpenRepo,
                outcomes,
            );
            &&& how is Abort ==> end == (Made { branch: false, rootdir: false })
            &&& how is Finished ==> end == (Made { branch: true, rootdir: true })
        }),
{
    lemma_run_from(args, Step::OpenRepo, outcomes);
}

/// Nine steps that succeed add a worktree.
pub proof fn law_nine_steps(args: AddWorktreeArgs)
    ensures
        run_from(
            args,
            Made { branch: false, rootdir: false },
            Step::OpenRepo,
            Seq::new(9, |i: int| StepOutcome::Done),
        ).1 == ProgressModel::Finished,
{
    reveal_with_fuel(run_from, 10);
}

proof fn lemma_part_has_no_separator(s: Seq<char>, from: Seq<char>, c: char)
    requires
        from.contains(c),
        c != '-',
    ensures
        !has_char(replace_chars(s, from, '-'), c),
{
    if has_char(replace_chars(s, from, '-'), c) {
        let i = choose|i: int|
            0 <= i < s.len() && #[trigger] replace_chars(s, from, '-')[i] == c;
        if from.contains(s[i]) {
        } else {
            assert(s[i] == c);
        }
    }
}

/// A workspace's name can be taken apart again: split at `_`, it is `sodagun`, the repository, the
/// branch and the identifier.
pub proof fn law_workspace_name_splits(repo: Seq<char>, branch: Seq<char>, id: Seq<char>)
    requires
        is_short_id(id),
    ensures
        split(workspace_name(repo, branch, id), '_') == seq![
            "sodagun"@,
            repo_part(repo),
            branch_part(branch),
            id,
        ],
{
    reveal_strlit("sodagun_");
    reveal_strlit("sodagun");
    reveal_strlit("_");
    let r = repo_part(repo);
    let b = branch_part(branch);
    assert(seq!['_'].contains('_')) by {
        assert(seq!['_'][0] == '_');
    }
    assert(seq!['/', '_'].contains('_')) by {
        assert(seq!['/', '_'][1] == '_');
    }
    lemma_part_has_no_separator(repo, seq!['_'], '_');
    lemma_part_has_no_separator(branch, seq!['/', '_'], '_');
    assert(!has_char(id, '_')) by {
        if has_char(id, '_') {
            let i = choose|i: int| 0 <= i < id.len() && id[i] == '_';
            assert(crate::ident::is_hex_digit(id[i]));
        }
    }
    assert(!has_char("sodagun"@, '_'));
    let u = seq!['_'];
    assert(workspace_name(repo, branch, id) =~= "sodagun"@ + u + (r + u + (b + u + id)));
    lemma_split_front("sodagun"@, '_', r + u + (b + u + id));
    lemma_split_front(r, '_', b + u + id);
    lemma_split_front(b, '_', id);
    lemma_split_none(id, '_');
    assert(split(workspace_name(repo, branch, id), '_') =~= seq!["sodagun"@, r, b, id]);
}

/// The final name of a workspace's root directory is the workspace's name, whatever directory it
/// is in.
pub proof fn law_rootdir_is_named_after_the_workspace(
    canonical: Option<Seq<char>>,
    given: Seq<char>,
    branch: Seq<char>,
    id: Seq<char>,
    prefix: Seq<char>,
)
    requires
        is_short_id(id),
    ensures
        ({
            let name = workspace_name(repo_named(canonical, given), branch, id);
            file_name(join(prefix, name)) == Some(name)
        }),
{
    let repo = repo_named(canonical, given);
    let name = workspace_name(repo, branch, id);
    reveal_strlit("sodagun_");
    reveal_strlit("_");
    reveal_strlit(".");
    reveal_strlit("..");
    reveal_strlit("repo");
    crate::path::lemma_file_name_has_no_slash(given);
    if let Some(c) = canonical {
        crate::path::lemma_file_name_has_no_slash(c);
    }
    assert(!has_char(repo, '/')) by {
        if repo == "repo"@ {
            assert(!has_char("repo"@, '/'));
        }
    }
    assert(seq!['/', '_'].contains('/')) by {
        assert(seq!['/', '_'][0] == '/');
    }
    lemma_part_has_no_separator(branch, seq!['/', '_'], '/');
    assert(!has_char(name, '/')) by {
        if has_char(name, '/') {
            let i = choose|i: int| 0 <= i < name.len() && name[i] == '/';
            let r = repo_part(repo);
            let b = branch_part(branch);
            let at_r = 8int;
            let at_b = at_r + r.len() + 1;
            let at_id = at_b + b.len() + 1;
            if at_r <= i < at_r + r.len() {
                assert(name[i] == r[i - at_r]);
                assert(repo[i - at_r] == '/');
            } else if at_b <= i < at_b + b.len() {
                assert(name[i] == b[i - at_b]);
            } else if i >= at_id {
                assert(name[i] == id[i - at_id]);
                assert(crate::ident::is_hex_digit(id[i - at_id]));
            }
        }
    }
    assert(name.len() > 8);
    lemma_joined_file_name(prefix, name);
}

} // verus!
