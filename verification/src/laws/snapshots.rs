//! Laws of `snapshot create`, `remove` and `clean`.

use crate::commands::build_plan::{assets_of, build_plan, guest_models, variables_of, BuildPlan};
use crate::commands::launch::BootModel;
use crate::commands::snapshot::{
    advance, clean_lines, clean_target, clean_text, remove_result, removed_from,
    snapshot_build_resources, snapshot_config_path, snapshot_labels, snapshot_to_create,
    snapshot_to_remove, BuildEvent, BuildNames, BuildNext, BuildNote, BuildStep, CleanRun,
    FoundSnapshot,
};
use crate::config::{ConfigAction, ImageConfig};
use crate::config::image::file_models;
use crate::error::SodagunError;
use crate::git_access::env_models;
use crate::host::lossy_text;
use crate::laws::texts::{law_cut, law_trim_end_char};
use crate::network::sdk::policy_model;
use crate::text::{opt_text, texts};
use crate::util::{RuntimeError, RuntimeErrorKind};
use vstd::prelude::*;

verus! {

// ── What is made ──────────────────────────────────────────────────────────────

/// The configuration file of a snapshot command is the one given, or else the project's.
pub proof fn law_snapshot_configuration(given: Option<&str>, project: &str, r: String)
    requires
        call_ensures(snapshot_config_path, (given, project), r),
    ensures
        given is Some ==> r@ == given->0@,
        given is None ==> r@ == crate::path::join(project@, "sodagun.toml"@),
{
}

/// What is created and what is removed is the snapshot that the image derives its name for, and
/// only an image with a setup script has one.
pub proof fn law_create_and_remove_mean_one_snapshot(
    image: ImageConfig,
    create: Result<String, SodagunError>,
    remove: Result<String, SodagunError>,
    derived: Option<String>,
)
    requires
        call_ensures(snapshot_to_create, (&image,), create),
        call_ensures(snapshot_to_remove, (&image,), remove),
        call_ensures(ImageConfig::derived_snapshot_name, (&image,), derived),
    ensures
        create is Ok <==> image.setup_script is Some,
        remove is Ok <==> image.setup_script is Some,
        create is Ok ==> derived is Some && create->Ok_0@ == derived->0@ && remove->Ok_0@
            == derived->0@,
        create is Err ==> create->Err_0@.code == "CONFIG_INVALID"@ && remove->Err_0@.code
            == "CONFIG_INVALID"@,
{
}

/// A snapshot is made with half of the memory and with all but two of the processors, but with one
/// at least; a machine of which nothing is known counts as one with one processor.
pub proof fn law_build_resources(memory: u64, cpus: Option<usize>, r: (u32, u8))
    requires
        call_ensures(snapshot_build_resources, (memory, cpus), r),
    ensures
        memory < 0x20_0000_0000_0000 ==> r.0 == memory as int / 2_097_152,
        r.1 >= 1,
        cpus is None ==> r.1 == 1,
        cpus matches Some(n) ==> {
            &&& n <= 3 ==> r.1 == 1
            &&& 3 <= n <= 257 ==> r.1 == n - 2
            &&& n >= 257 ==> r.1 == 255
        },
{
    let m = memory as int;
    assert(m / 1_048_576 / 2 == m / 2_097_152);
    if memory < 0x20_0000_0000_0000 {
        assert(m / 2_097_152 < 0x1_0000_0000);
    }
}

/// The sandbox that a snapshot is made in boots from the base image, or else from the base
/// snapshot, and never from the snapshot itself; it may reach everything, and has the resources
/// and the name that it is given.
pub proof fn law_build_boots_the_base(
    image: ImageConfig,
    script: &str,
    name: &str,
    memory: u32,
    cpus: u8,
    r: BuildPlan,
)
    requires
        call_ensures(build_plan, (&image, script, name, memory, cpus), r),
    ensures
        image.base_image is Some ==> r.boot@ == BootModel::Image(image.base_image->0@),
        image.base_image is None && image.base_snapshot is Some ==> r.boot@ == BootModel::Snapshot(
            image.base_snapshot->0@,
        ),
        image.base_image is None && image.base_snapshot is None ==> r.boot@ is Unset,
        policy_model(r.network).egress == ConfigAction::Allow,
        policy_model(r.network).ingress == ConfigAction::Allow,
        policy_model(r.network).rules.len() == 0,
        r.memory_mb == memory,
        r.cpus == cpus,
        r.name@ == name@,
        r.tmp_dir@ == "/tmp"@,
        r.tmp_mb == 8192,
{
}

/// In that sandbox the setup script is where it is run, as it is and executable, and each setup
/// file lies beside it under its own name, with its own bytes; none is missing.
pub proof fn law_build_has_script_and_files(
    image: ImageConfig,
    script: &str,
    name: &str,
    memory: u32,
    cpus: u8,
    r: BuildPlan,
    i: int,
)
    requires
        call_ensures(build_plan, (&image, script, name, memory, cpus), r),
    ensures
        r.script@ == script@,
        r.script_path@ == "/setup-assets"@ + "/"@ + "_setup"@,
        r.script_mode == 0o755,
        r.files@.len() == image.setup_files@.len(),
        0 <= i < image.setup_files@.len() ==> {
            &&& r.files@[i].path@ == "/setup-assets"@ + "/"@ + image.setup_files@[i].name@
            &&& r.files@[i].content@ == image.setup_files@[i].content@
        },
{
    let m = guest_models(r.files@);
    assert(m.len() == r.files@.len());
    if 0 <= i < image.setup_files@.len() {
        assert(m[i] == assets_of(file_models(image.setup_files@))[i]);
        assert(m[i] == (r.files@[i].path@, r.files@[i].content@));
    }
}

/// It has the variables of the image, each with its value, in their order.
pub proof fn law_build_has_the_variables(
    image: ImageConfig,
    script: &str,
    name: &str,
    memory: u32,
    cpus: u8,
    r: BuildPlan,
    i: int,
)
    requires
        call_ensures(build_plan, (&image, script, name, memory, cpus), r),
    ensures
        r.env@.len() == image.env.pairs().len(),
        0 <= i < r.env@.len() ==> r.env@[i].0@ == image.env.pairs()[i].0 && r.env@[i].1@
            == image.env.pairs()[i].1@,
{
    let m = env_models(r.env@);
    assert(m.len() == r.env@.len());
    if 0 <= i < r.env@.len() {
        assert(m[i] == variables_of(image.env.pairs())[i]);
        assert(m[i] == (r.env@[i].0@, r.env@[i].1@));
    }
}

/// A snapshot is labelled with who made it, for which repository, from which setup and from which
/// base; the setup is all that stands behind the first `_` of its name, and nothing where there is
/// none.
pub proof fn law_labels(
    front: Seq<char>,
    tag: Seq<char>,
    name: &str,
    repo: &str,
    image: ImageConfig,
    r: Vec<(&'static str, String)>,
)
    requires
        call_ensures(snapshot_labels, (name, repo, &image), r),
        !front.contains('_'),
        name@ == front + seq!['_'] + tag || name@ == front,
    ensures
        r@.len() == 4,
        r@[0].0@ == "created_by"@ && r@[0].1@ == "sodagun"@,
        r@[1].0@ == "repo_path"@ && r@[1].1@ == repo@,
        r@[2].0@ == "setup_hash"@,
        name@ == front + seq!['_'] + tag ==> r@[2].1@ == tag,
        name@ == front ==> r@[2].1@.len() == 0,
        r@[3].0@ == "source_image"@,
        image.base_image is Some ==> r@[3].1@ == image.base_image->0@,
        image.base_image is None && image.base_snapshot is Some ==> r@[3].1@
            == image.base_snapshot->0@,
{
    law_cut(front, '_', tag);
    let m = crate::commands::snapshot::labels_meant(name@, repo@, image);
    assert(m.len() == 4);
    assert((r@[0].0@, r@[0].1@) == m[0]);
    assert((r@[1].0@, r@[1].1@) == m[1]);
    assert((r@[2].0@, r@[2].1@) == m[2]);
    assert((r@[3].0@, r@[3].1@) == m[3]);
}

// ── How it is made ────────────────────────────────────────────────────────────

/// A snapshot that exists is left alone, unless it is to be made again; then it is removed first.
/// One that does not exist is made at once.
pub proof fn law_existing_snapshots(
    names: BuildNames,
    force: bool,
    event: BuildEvent,
    r: (BuildNext, Option<BuildNote>),
)
    requires
        call_ensures(advance, (&names, force, BuildStep::Look, &event), r),
    ensures
        event is Done && !force ==> r.0 is AlreadyExists,
        event is Done && force ==> r.0 == BuildNext::Do(BuildStep::RemoveOld),
        event is NotFound ==> r.0 == BuildNext::Do(BuildStep::Boot),
        !(event is Done || event is NotFound) ==> r.0 is Abort && !r.0->remove_sandbox,
{
}

/// The steps come one after the other, each where the one before was done. That the guest could
/// not write everything to disk, and that the sandbox could not be removed in the end, does not
/// matter; every other failure ends the whole, and a sandbox is removed only where the script has
/// failed in it.
pub proof fn law_build_steps(
    names: BuildNames,
    force: bool,
    step: BuildStep,
    event: BuildEvent,
    r: (BuildNext, Option<BuildNote>),
)
    requires
        call_ensures(advance, (&names, force, step, &event), r),
    ensures
        step == BuildStep::RemoveOld && event is Done ==> r.0 == BuildNext::Do(BuildStep::Boot),
        step == BuildStep::Boot && event is Done ==> r.0 == BuildNext::Do(BuildStep::RunScript),
        step == BuildStep::RunScript && event is Done ==> r.0 == BuildNext::Do(BuildStep::Watch),
        step == BuildStep::Flush ==> r.0 == BuildNext::Do(BuildStep::Stop),
        step == BuildStep::Stop && event is Done ==> r.0 == BuildNext::Do(BuildStep::Save),
        step == BuildStep::Save && event is Done ==> r.0 == BuildNext::Do(BuildStep::CleanUp),
        step == BuildStep::CleanUp ==> r.0 is Created,
        (step == BuildStep::RemoveOld || step == BuildStep::Boot || step == BuildStep::RunScript
            || step == BuildStep::Stop || step == BuildStep::Save) && !(event is Done) ==> r.0
            is Abort && !r.0->remove_sandbox,
        r.0 is Abort ==> r.0->error@.code == "SNAPSHOT_ERROR"@,
        r.0 is Created ==> step == BuildStep::CleanUp,
        r.0 == BuildNext::Do(BuildStep::Save) ==> step == BuildStep::Stop && event is Done,
        r.0 == BuildNext::Do(BuildStep::Flush) ==> step == BuildStep::Watch && event
            == BuildEvent::Exited(0),
{
}

/// The script is watched until it ends. It has succeeded exactly where it exits with code 0; where
/// it exits with another, cannot be run, or is lost, the whole ends and the sandbox is removed.
pub proof fn law_script_is_watched_to_its_end(
    names: BuildNames,
    force: bool,
    event: BuildEvent,
    r: (BuildNext, Option<BuildNote>),
)
    requires
        call_ensures(advance, (&names, force, BuildStep::Watch, &event), r),
    ensures
        event matches BuildEvent::Exited(code) ==> {
            &&& code == 0 ==> r.0 == BuildNext::Do(BuildStep::Flush)
            &&& code != 0 ==> r.0 is Abort && r.0->remove_sandbox
        },
        event is Failed || event is Ended ==> r.0 is Abort && r.0->remove_sandbox,
        event is Output || event is Other ==> r.0 == BuildNext::Do(BuildStep::Watch),
        event is Output ==> r.1 matches Some(BuildNote::Log(_)),
{
}

/// What the script prints is told as it is, but for the ends of lines behind it.
pub proof fn law_output_is_told(
    names: BuildNames,
    force: bool,
    bytes: Vec<u8>,
    told: Seq<char>,
    ends: nat,
    r: (BuildNext, Option<BuildNote>),
)
    requires
        call_ensures(
            advance,
            (&names, force, BuildStep::Watch, &BuildEvent::Output(bytes)),
            r,
        ),
        told.len() > 0 ==> told.last() != '\n',
        lossy_text(bytes@) == told + Seq::new(ends, |i: int| '\n'),
    ensures
        match r.1 {
            Some(BuildNote::Log(line)) => line@ == told,
            _ => false,
        },
{
    law_trim_end_char(told, '\n', ends);
}

/// What went wrong is said in the message, and a failure that does not matter is a warning.
pub proof fn law_failures_are_told(
    names: BuildNames,
    force: bool,
    step: BuildStep,
    why: String,
    r: (BuildNext, Option<BuildNote>),
)
    requires
        call_ensures(advance, (&names, force, step, &BuildEvent::Failed(why)), r),
    ensures
        r.0 is Abort ==> exists|what: Seq<char>|
            r.0->error@.message == #[trigger] (what + why@),
        step == BuildStep::Flush || step == BuildStep::CleanUp ==> r.1 matches Some(
            BuildNote::Warn(_),
        ),
{
    if r.0 is Abort {
        let what = match step {
            BuildStep::Look => "failed to check for existing snapshot: "@,
            BuildStep::RemoveOld => "failed to remove existing snapshot '"@ + names.snapshot@
                + "': "@,
            BuildStep::Boot => "failed to create ephemeral sandbox: "@,
            BuildStep::RunScript => "setup script failed to execute: "@,
            BuildStep::Watch => "setup script failed to spawn: "@,
            BuildStep::Stop => "failed to stop ephemeral sandbox: "@,
            _ => "failed to create snapshot: "@,
        };
        assert(r.0->error@.message == what + why@);
    }
}

// ── Remove and clean ──────────────────────────────────────────────────────────

/// Removing a snapshot succeeds where it was removed, and also, where that is asked for, where
/// there was none; otherwise the error says whether it was not there.
pub proof fn law_removing_a_snapshot(
    outcome: Result<(), RuntimeError>,
    force: bool,
    name: &str,
    r: Result<(), SodagunError>,
)
    requires
        call_ensures(remove_result, (&outcome, force, name), r),
    ensures
        r is Ok <==> outcome is Ok || (force && outcome->Err_0.kind
            == RuntimeErrorKind::SnapshotNotFound),
        r is Err && outcome->Err_0.kind == RuntimeErrorKind::SnapshotNotFound ==> r->Err_0@.code
            == "SNAPSHOT_NOT_FOUND"@,
        r is Err && outcome->Err_0.kind != RuntimeErrorKind::SnapshotNotFound ==> r->Err_0@.code
            == "SNAPSHOT_ERROR"@ && r->Err_0@.message == outcome->Err_0.text@,
{
}

/// Whether we made a snapshot for the repository at `repo`, as its labels say; one that cannot be
/// opened has none.
pub open spec fn made_by_us(s: FoundSnapshot, repo: Seq<char>) -> bool {
    match s.labels {
        Some(l) => {
            &&& l@.dom().contains("created_by"@)
            &&& l@["created_by"@]@ == "sodagun"@
            &&& l@.dom().contains("repo_path"@)
            &&& l@["repo_path"@]@ == repo
        },
        None => false,
    }
}

/// What a snapshot is called: by its name, or else by its digest.
pub open spec fn called(s: FoundSnapshot) -> Seq<char> {
    match s.name {
        Some(n) => n@,
        None => s.digest@,
    }
}

/// Whether one of the snapshots was made by us for the repository, and is called `id`.
pub open spec fn one_is_called(found: Seq<FoundSnapshot>, repo: Seq<char>, id: Seq<char>) -> bool {
    exists|i: int|
        0 <= i < found.len() && made_by_us(#[trigger] found[i], repo) && called(found[i]) == id
}

proof fn lemma_removed(found: Seq<FoundSnapshot>, repo: Seq<char>)
    ensures
        removed_from(found, repo).len() == found.filter(
            |s: FoundSnapshot| made_by_us(s, repo),
        ).len(),
        forall|i: int|
            0 <= i < found.len() && made_by_us(#[trigger] found[i], repo) ==> removed_from(
                found,
                repo,
            ).contains(called(found[i])),
        forall|j: int|
            0 <= j < removed_from(found, repo).len() ==> one_is_called(
                found,
                repo,
                #[trigger] removed_from(found, repo)[j],
            ),
    decreases found.len(),
{
    reveal(Seq::filter);
    let all = removed_from(found, repo);
    if found.len() > 0 {
        let init = found.drop_last();
        let n = init.len() as int;
        lemma_removed(init, repo);
        let before = removed_from(init, repo);
        let last = found.last();
        assert(found[n] == last);
        assert(last.removed_as(repo) == if made_by_us(last, repo) {
            Some(called(last))
        } else {
            None
        });
        assert forall|i: int| 0 <= i < found.len() && made_by_us(
            #[trigger] found[i],
            repo,
        ) implies all.contains(called(found[i])) by {
            if i < n {
                assert(init[i] == found[i]);
                let k = choose|k: int| 0 <= k < before.len() && before[k] == called(init[i]);
                assert(all[k] == called(found[i]));
            } else {
                assert(all[all.len() - 1] == called(last));
            }
        }
        assert forall|j: int| 0 <= j < all.len() implies one_is_called(
            found,
            repo,
            #[trigger] all[j],
        ) by {
            if j < before.len() {
                assert(before[j] == all[j]);
                assert(one_is_called(init, repo, before[j]));
                let i = choose|i: int|
                    0 <= i < init.len() && made_by_us(#[trigger] init[i], repo) && called(init[i])
                        == before[j];
                assert(found[i] == init[i]);
            } else {
                assert(called(found[n]) == all[j]);
            }
        }
    }
}

/// `snapshot clean` removes, of all the snapshots that it has looked at, just those that we made
/// for the repository: each of them, no other, and each as often as it was seen.
pub proof fn law_clean_removes_just_what_was_made(run: CleanRun, r: Vec<String>)
    requires
        call_ensures(CleanRun::finish, (run,), r),
    ensures
        r@.len() == run.seen().filter(
            |s: FoundSnapshot| made_by_us(s, run.repo_path()),
        ).len(),
        forall|i: int|
            0 <= i < run.seen().len() && made_by_us(#[trigger] run.seen()[i], run.repo_path())
                ==> exists|j: int|
                0 <= j < r@.len() && (#[trigger] r@[j])@ == called(run.seen()[i]),
        forall|j: int|
            0 <= j < r@.len() ==> one_is_called(
                run.seen(),
                run.repo_path(),
                (#[trigger] r@[j])@,
            ),
{
    let found = run.seen();
    let repo = run.repo_path();
    let all = removed_from(found, repo);
    lemma_removed(found, repo);
    assert(texts(r@).len() == r@.len());
    assert forall|i: int| 0 <= i < found.len() && made_by_us(
        #[trigger] found[i],
        repo,
    ) implies exists|j: int| 0 <= j < r@.len() && (#[trigger] r@[j])@ == called(found[i]) by {
        let k = choose|k: int| 0 <= k < all.len() && all[k] == called(found[i]);
        assert(r@[k]@ == texts(r@)[k]);
    }
    assert forall|j: int| 0 <= j < r@.len() implies one_is_called(
        found,
        repo,
        (#[trigger] r@[j])@,
    ) by {
        assert(texts(r@)[j] == r@[j]@);
        assert(one_is_called(found, repo, all[j]));
    }
}

/// A run begins for its repository, having seen and removed nothing.
pub proof fn law_clean_begins(repo: &str, run: CleanRun)
    requires
        call_ensures(CleanRun::new, (repo,), run),
    ensures
        run.repo_path() == repo@,
        run.seen().len() == 0,
        run.removed().len() == 0,
        run.awaited() is None,
{
}

/// They are removed in the order in which they are seen: what is removed of two lots is what is
/// removed of the first and then what is removed of the second.
pub proof fn law_clean_keeps_order(
    first: Seq<FoundSnapshot>,
    second: Seq<FoundSnapshot>,
    repo: Seq<char>,
)
    ensures
        removed_from(first + second, repo) == removed_from(first, repo) + removed_from(
            second,
            repo,
        ),
    decreases second.len(),
{
    if second.len() == 0 {
        assert(first + second =~= first);
        assert(removed_from(first, repo) + removed_from(second, repo) =~= removed_from(
            first,
            repo,
        ));
    } else {
        law_clean_keeps_order(first, second.drop_last(), repo);
        assert((first + second).drop_last() =~= first + second.drop_last());
        assert((first + second).last() == second.last());
        assert(removed_from(first + second, repo) =~= removed_from(first, repo) + removed_from(
            second,
            repo,
        ));
    }
}

/// A snapshot is removed as soon as it is looked at, exactly where we made it for the repository,
/// and under the name that it is called by. A removal that failed ends the run with the runtime's
/// error; one that worked is noted.
pub proof fn law_clean_looks_and_removes(
    run: CleanRun,
    snapshot: FoundSnapshot,
    looked: (CleanRun, Option<String>),
    outcome: Result<(), RuntimeError>,
    settled: Result<CleanRun, SodagunError>,
)
    requires
        call_ensures(CleanRun::look, (run, snapshot), looked),
        looked.1 is Some ==> call_ensures(CleanRun::settle, (looked.0, outcome), settled),
    ensures
        looked.1 is Some <==> made_by_us(snapshot, run.repo_path()),
        looked.1 is Some ==> looked.1->0@ == called(snapshot),
        looked.0.seen() == run.seen().push(snapshot),
        looked.0.repo_path() == run.repo_path(),
        looked.1 is Some ==> {
            &&& settled is Ok <==> outcome is Ok
            &&& settled is Ok ==> settled->Ok_0.removed() == run.removed().push(called(snapshot))
                && settled->Ok_0.seen() == run.seen().push(snapshot) && settled->Ok_0.repo_path()
                == run.repo_path()
            &&& settled is Err && outcome->Err_0.kind == RuntimeErrorKind::SnapshotNotFound
                ==> settled->Err_0@.code == "SNAPSHOT_NOT_FOUND"@
            &&& settled is Err && outcome->Err_0.kind != RuntimeErrorKind::SnapshotNotFound
                ==> settled->Err_0@.message == outcome->Err_0.text@
        },
{
}

/// One snapshot alone: it is a target exactly where its labels say that we made it for the
/// repository.
pub proof fn law_clean_target(
    snapshot: FoundSnapshot,
    name: Option<&str>,
    digest: &str,
    repo: &str,
    r: Option<String>,
)
    requires
        snapshot.labels is Some,
        crate::text::opt_str(name) == opt_text(snapshot.name),
        digest@ == snapshot.digest@,
        call_ensures(clean_target, (name, digest, Some(&snapshot.labels->0), repo), r),
    ensures
        r is Some <==> made_by_us(snapshot, repo@),
        r is Some ==> r->0@ == called(snapshot),
{
}

/// The printed result has a line for each snapshot that was removed, in their order, or one that
/// says that there was none.
pub proof fn law_clean_lines(removed: Vec<String>, lines: Vec<String>, i: int)
    requires
        call_ensures(clean_lines, (&removed,), lines),
    ensures
        removed@.len() == 0 ==> lines@.len() == 1,
        removed@.len() > 0 ==> lines@.len() == removed@.len(),
        0 <= i < removed@.len() ==> lines@[i]@ == "Removed: "@ + removed@[i]@,
{
    let t = texts(lines@);
    assert(t.len() == lines@.len());
    assert(texts(removed@).len() == removed@.len());
    if 0 <= i < removed@.len() {
        assert(t[i] == lines@[i]@);
        assert(clean_text(texts(removed@))[i] == "Removed: "@ + texts(removed@)[i]);
    }
}

} // verus!
