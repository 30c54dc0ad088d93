//! `snapshot create`, `remove` and `clean`.

use crate::commands::launch::{boot_meant, BootModel, BootSource};
use crate::config::image::{base_of, setup_bytes, snapshot_named};
use crate::config::{ImageConfig, SETUP_SCRIPT_NAME};
use crate::digest::content_tag;
use crate::error::{failure, fault, Failure, SodagunError};
use crate::host::{lossy_text, read_lossy};
use crate::ident::{is_short_id, new_short_id};
use crate::path::{join, join_path};
use crate::table::Table;
use crate::text::{
    cut, cut_text, decimal, decimal_text, lemma_find_char_at, opt_str, opt_text, same_text,
    signed_decimal, signed_decimal_text, texts, trim_end_char, trim_end_char_text,
};
use crate::util::{
    dashed, law_dashing, map_snapshot_err, separators, snapshot_failure, RuntimeError,
    RuntimeErrorKind,
};
use vstd::prelude::*;

verus! {

/// Directory of the guest that the setup script and the setup files are put into.
pub const SETUP_ASSETS_DIR: &'static str = "/setup-assets";

/// Size of `/tmp` while a snapshot is made, in MiB: builds need room.
pub const BUILD_TMP_MB: u32 = 8192;

/// Arguments of `snapshot create`.
#[derive(Debug)]
pub struct CreateArgs {
    /// Path of the configuration file; the project's if absent.
    pub config: Option<String>,
    /// Make the snapshot again where it exists.
    pub force: bool,
}

/// The configuration file of a snapshot command.
pub open spec fn snapshot_config(given: Option<Seq<char>>, project_dir: Seq<char>) -> Seq<char> {
    match given {
        Some(p) => p,
        None => join(project_dir, "sodagun.toml"@),
    }
}

/// The configuration file of a snapshot command: the one given, or else the project's.
pub fn snapshot_config_path(given: Option<&str>, project_dir: &str) -> (r: String)
    ensures
        r@ == snapshot_config(opt_str(given), project_dir@),
{
    match given {
        Some(p) => p.to_owned(),
        None => join_path(project_dir, "sodagun.toml"),
    }
}

// ── What is made ──────────────────────────────────────────────────────────────

/// The name of the snapshot to work on; `message` is the complaint where there is none.
fn required_snapshot(image: &ImageConfig, message: &str) -> (r: Result<String, SodagunError>)
    ensures
        match r {
            Ok(name) => image.snapshot() == Some(name@),
            Err(e) => image.snapshot() is None && e@ == failure("CONFIG_INVALID"@, message@),
        },
{
    match image.derived_snapshot_name() {
        Some(name) => Ok(name),
        None => Err(fault("CONFIG_INVALID", message.to_owned())),
    }
}

/// The name of the snapshot to create. Without a setup script there is nothing to create.
pub fn snapshot_to_create(image: &ImageConfig) -> (r: Result<String, SodagunError>)
    ensures
        match r {
            Ok(name) => image.snapshot() == Some(name@),
            Err(e) => image.snapshot() is None && e@ == failure(
                "CONFIG_INVALID"@,
                "no setup_script or setup_script_path in [image] — nothing to snapshot"@,
            ),
        },
{
    required_snapshot(
        image,
        "no setup_script or setup_script_path in [image] — nothing to snapshot",
    )
}

/// The name of the snapshot to remove. Without a setup script there is nothing to remove.
pub fn snapshot_to_remove(image: &ImageConfig) -> (r: Result<String, SodagunError>)
    ensures
        match r {
            Ok(name) => image.snapshot() == Some(name@),
            Err(e) => image.snapshot() is None && e@ == failure(
                "CONFIG_INVALID"@,
                "no setup_script or setup_script_path in [image] — nothing to remove"@,
            ),
        },
{
    required_snapshot(
        image,
        "no setup_script or setup_script_path in [image] — nothing to remove",
    )
}

/// The processors that a sandbox of a machine with this many is given: all but two, but at least
/// one, and no more than a sandbox can have.
pub open spec fn processors_used(known: int) -> int {
    if known - 2 < 1 {
        1
    } else if known - 2 > 255 {
        255
    } else {
        known - 2
    }
}

/// Memory in MiB and processors for making a snapshot: half of the memory and all but two of the
/// processors, at least one; `cpus` is the number of processors, if it is known, and one is
/// supposed where it is not. A memory too large for a sandbox wraps around.
pub fn snapshot_build_resources(total_memory: u64, cpus: Option<usize>) -> (r: (u32, u8))
    ensures
        r.0 == total_memory as int / 1_048_576 / 2 % 0x1_0000_0000,
        r.1 == processors_used(
            match cpus {
                Some(n) => n as int,
                None => 1,
            },
        ),
        r.1 >= 1,
{
    let half: u64 = total_memory / 1_048_576 / 2;
    assert(half as u32 == half % 0x1_0000_0000) by (bit_vector);
    let known: usize = match cpus {
        Some(n) => n,
        None => 1,
    };
    let used: u8 = if known <= 3 {
        1
    } else if known > 257 {
        255
    } else {
        (known - 2) as u8
    };
    (half as u32, used)
}

/// What is logged about the resources.
pub fn resources_note(memory_mb: u32, cpus: u8) -> (r: String)
    ensures
        r@ == "snapshot build resources: "@ + decimal(memory_mb as nat) + " MiB RAM, "@ + decimal(
            cpus as nat,
        ) + " CPUs"@,
{
    "snapshot build resources: ".to_owned().concat(
        decimal_text(memory_mb as u64).as_str(),
    ).concat(" MiB RAM, ").concat(decimal_text(cpus as u64).as_str()).concat(" CPUs")
}

/// What a snapshot's sandbox boots from: the base, and never a snapshot that was made from it.
pub open spec fn build_boot(image: ImageConfig) -> BootModel {
    match (image.base_image, image.base_snapshot) {
        (Some(i), _) => BootModel::Image(i@),
        (None, Some(s)) => BootModel::Snapshot(s@),
        (None, None) => BootModel::Unset,
    }
}

/// What a snapshot's sandbox boots from.
pub fn build_boot_source(image: &ImageConfig) -> (r: BootSource)
    ensures
        r@ == build_boot(*image),
{
    match &image.base_image {
        Some(i) => BootSource::Image(i.clone()),
        None => match &image.base_snapshot {
            Some(s) => BootSource::Snapshot(s.clone()),
            None => BootSource::Unset,
        },
    }
}

/// Where the guest finds the setup file called `name`.
pub open spec fn asset(name: Seq<char>) -> Seq<char> {
    SETUP_ASSETS_DIR@ + "/"@ + name
}

/// Where the guest finds the setup file called `name`.
pub fn asset_path(name: &str) -> (r: String)
    ensures
        r@ == asset(name@),
{
    SETUP_ASSETS_DIR.to_owned().concat("/").concat(name)
}

/// Where the guest finds the setup script.
pub fn script_path() -> (r: String)
    ensures
        r@ == asset(SETUP_SCRIPT_NAME@),
{
    asset_path(SETUP_SCRIPT_NAME)
}

/// The name of a sandbox that a snapshot is made in, with the identifier `id`.
pub fn ephemeral_name_as(id: &str) -> (r: String)
    ensures
        r@ == "sodagun-snap-"@ + id@,
{
    "sodagun-snap-".to_owned().concat(id)
}

/// The name of a sandbox that a snapshot is made in, with a new identifier.
pub fn ephemeral_name() -> (r: String)
    ensures
        exists|id: Seq<char>| is_short_id(id) && r@ == #[trigger] ("sodagun-snap-"@ + id),
{
    let id = new_short_id();
    let r = ephemeral_name_as(id.as_str());
    assert(r@ == "sodagun-snap-"@ + id@);
    r
}

/// All that follows the first `_` in a name, and nothing where there is none.
pub open spec fn after_separator(name: Seq<char>) -> Seq<char> {
    match cut(name, '_') {
        Some((_, rest)) => rest,
        None => Seq::empty(),
    }
}

/// The labels that a snapshot is given: who made it, for which repository, from what.
pub open spec fn labels_meant(
    name: Seq<char>,
    repo_path: Seq<char>,
    image: ImageConfig,
) -> Seq<(Seq<char>, Seq<char>)> {
    seq![
        ("created_by"@, "sodagun"@),
        ("repo_path"@, repo_path),
        ("setup_hash"@, after_separator(name)),
        ("source_image"@, base_of(image)),
    ]
}

/// The labels that a snapshot is given.
pub fn snapshot_labels(name: &str, repo_path: &str, image: &ImageConfig) -> (r: Vec<
    (&'static str, String),
>)
    ensures
        r@.len() == labels_meant(name@, repo_path@, *image).len(),
        forall|i: int|
            0 <= i < r@.len() ==> (#[trigger] r@[i].0@, r@[i].1@) == labels_meant(
                name@,
                repo_path@,
                *image,
            )[i],
{
    let hash = match cut_text(name, '_') {
        Some((_, rest)) => rest,
        None => {
            let none = String::new();
            assert(none@ =~= Seq::empty());
            none
        },
    };
    let mut labels: Vec<(&'static str, String)> = Vec::new();
    labels.push(("created_by", "sodagun".to_owned()));
    labels.push(("repo_path", repo_path.to_owned()));
    labels.push(("setup_hash", hash));
    labels.push(("source_image", image.base()));
    labels
}

// ── How it is made ────────────────────────────────────────────────────────────

/// What is done to make a snapshot, in this order; the old snapshot is removed only where there
/// is one.
#[derive(Debug, Clone, Copy, PartialEq, Eq, Structural)]
pub enum BuildStep {
    /// Look for the snapshot.
    Look,
    /// Remove the old snapshot.
    RemoveOld,
    /// Boot a sandbox to make the snapshot in.
    Boot,
    /// Start the setup script in it.
    RunScript,
    /// Wait for the script's next event.
    Watch,
    /// Have the guest write everything to disk.
    Flush,
    /// Stop the sandbox.
    Stop,
    /// Make the snapshot.
    Save,
    /// Remove the sandbox.
    CleanUp,
}

/// What became of a step, or happened to the script. Errors are in printed form.
#[derive(Debug)]
pub enum BuildEvent {
    Done,
    /// The snapshot that was looked for is not there.
    NotFound,
    Failed(String),
    /// The script printed something.
    Output(Vec<u8>),
    /// The script ended.
    Exited(i32),
    /// The connection to the script ended.
    Ended,
    /// Something that is of no concern.
    Other,
}

/// Something to tell the user.
#[derive(Debug)]
pub enum BuildNote {
    Log(String),
    Warn(String),
}

/// What comes next.
#[derive(Debug)]
pub enum BuildNext {
    Do(BuildStep),
    /// The snapshot was there, and stays as it was.
    AlreadyExists,
    /// The snapshot was made.
    Created,
    /// Give up, and remove the sandbox where that is said.
    Abort { error: SodagunError, remove_sandbox: bool },
}

/// What a `BuildNote` says.
pub ghost enum NoteModel {
    Log(Seq<char>),
    Warn(Seq<char>),
}

/// What a `BuildNext` says.
pub ghost enum NextModel {
    Do(BuildStep),
    AlreadyExists,
    Created,
    Abort { error: Failure, remove_sandbox: bool },
}

impl View for BuildNote {
    type V = NoteModel;

    open spec fn view(&self) -> NoteModel {
        match self {
            BuildNote::Log(s) => NoteModel::Log(s@),
            BuildNote::Warn(s) => NoteModel::Warn(s@),
        }
    }
}

impl View for BuildNext {
    type V = NextModel;

    open spec fn view(&self) -> NextModel {
        match self {
            BuildNext::Do(s) => NextModel::Do(*s),
            BuildNext::AlreadyExists => NextModel::AlreadyExists,
            BuildNext::Created => NextModel::Created,
            BuildNext::Abort { error, remove_sandbox } => NextModel::Abort {
                error: error@,
                remove_sandbox: *remove_sandbox,
            },
        }
    }
}

/// The names that making a snapshot is about.
#[derive(Debug)]
pub struct BuildNames {
    pub snapshot: String,
    /// The sandbox that the snapshot is made in.
    pub sandbox: String,
}

/// What an event that is a failure says.
pub open spec fn failure_text(event: BuildEvent) -> Seq<char> {
    match event {
        BuildEvent::Failed(why) => why@,
        BuildEvent::NotFound => "not found"@,
        _ => "unexpected event"@,
    }
}

/// Giving up with this message.
pub open spec fn abort(message: Seq<char>, remove_sandbox: bool) -> NextModel {
    NextModel::Abort { error: failure("SNAPSHOT_ERROR"@, message), remove_sandbox }
}

/// What a step that failed is reported as; before the script runs there is no sandbox to remove,
/// and one that could not be stopped or saved is left for a look at it.
pub open spec fn step_complaint(
    names: BuildNames,
    step: BuildStep,
    event: BuildEvent,
) -> Seq<char> {
    let why = failure_text(event);
    match step {
        BuildStep::Look => "failed to check for existing snapshot: "@ + why,
        BuildStep::RemoveOld => "failed to remove existing snapshot '"@ + names.snapshot@ + "': "@
            + why,
        BuildStep::Boot => "failed to create ephemeral sandbox: "@ + why,
        BuildStep::RunScript => "setup script failed to execute: "@ + why,
        BuildStep::Watch => "setup script failed to spawn: "@ + why,
        BuildStep::Stop => "failed to stop ephemeral sandbox: "@ + why,
        _ => "failed to create snapshot: "@ + why,
    }
}

/// What comes after `step` with this event.
pub open spec fn build_next(
    names: BuildNames,
    force: bool,
    step: BuildStep,
    event: BuildEvent,
) -> NextModel {
    match step {
        BuildStep::Look => match event {
            BuildEvent::Done => if force {
                NextModel::Do(BuildStep::RemoveOld)
            } else {
                NextModel::AlreadyExists
            },
            BuildEvent::NotFound => NextModel::Do(BuildStep::Boot),
            _ => abort(step_complaint(names, step, event), false),
        },
        BuildStep::RemoveOld => if event is Done {
            NextModel::Do(BuildStep::Boot)
        } else {
            abort(step_complaint(names, step, event), false)
        },
        BuildStep::Boot => if event is Done {
            NextModel::Do(BuildStep::RunScript)
        } else {
            abort(step_complaint(names, step, event), false)
        },
        BuildStep::RunScript => if event is Done {
            NextModel::Do(BuildStep::Watch)
        } else {
            abort(step_complaint(names, step, event), false)
        },
        BuildStep::Watch => match event {
            BuildEvent::Exited(code) => if code == 0 {
                NextModel::Do(BuildStep::Flush)
            } else {
                abort(
                    "setup script exited with non-zero status (code "@ + signed_decimal(
                        code as int,
                    ) + ")"@,
                    true,
                )
            },
            BuildEvent::Failed(_) => abort(step_complaint(names, step, event), true),
            BuildEvent::Ended => abort(
                "setup script exec session ended without exit event"@,
                true,
            ),
            _ => NextModel::Do(BuildStep::Watch),
        },
        BuildStep::Flush => NextModel::Do(BuildStep::Stop),
        BuildStep::Stop => if event is Done {
            NextModel::Do(BuildStep::Save)
        } else {
            abort(step_complaint(names, step, event), false)
        },
        BuildStep::Save => if event is Done {
            NextModel::Do(BuildStep::CleanUp)
        } else {
            abort(step_complaint(names, step, event), false)
        },
        BuildStep::CleanUp => NextModel::Created,
    }
}

/// What is told about an event: the script's output, and failures that do not matter.
pub open spec fn build_note(names: BuildNames, step: BuildStep, event: BuildEvent) -> Option<
    NoteModel,
> {
    match (step, event) {
        (BuildStep::Watch, BuildEvent::Output(bytes)) => Some(
            NoteModel::Log(trim_end_char(lossy_text(bytes@), '\n')),
        ),
        (BuildStep::Flush, BuildEvent::Failed(why)) => Some(
            NoteModel::Warn("sync before snapshot failed (continuing): "@ + why@),
        ),
        (BuildStep::CleanUp, BuildEvent::Failed(why)) => Some(
            NoteModel::Warn(
                "failed to remove ephemeral sandbox '"@ + names.sandbox@ + "': "@ + why@,
            ),
        ),
        _ => None,
    }
}

/// What an event that is a failure says.
fn failure_message(event: &BuildEvent) -> (r: String)
    ensures
        r@ == failure_text(*event),
{
    match event {
        BuildEvent::Failed(why) => why.clone(),
        BuildEvent::NotFound => "not found".to_owned(),
        _ => "unexpected event".to_owned(),
    }
}

/// Giving up with this message.
fn give_up(message: String, remove_sandbox: bool) -> (r: BuildNext)
    ensures
        r@ == abort(message@, remove_sandbox),
{
    BuildNext::Abort { error: fault("SNAPSHOT_ERROR", message), remove_sandbox }
}

/// Giving up because a step failed.
fn step_failed(names: &BuildNames, step: BuildStep, event: &BuildEvent, remove_sandbox: bool) -> (r:
    BuildNext)
    ensures
        r@ == abort(step_complaint(*names, step, *event), remove_sandbox),
{
    let why = failure_message(event);
    let start = match step {
        BuildStep::Look => "failed to check for existing snapshot: ".to_owned(),
        BuildStep::RemoveOld => "failed to remove existing snapshot '".to_owned().concat(
            names.snapshot.as_str(),
        ).concat("': "),
        BuildStep::Boot => "failed to create ephemeral sandbox: ".to_owned(),
        BuildStep::RunScript => "setup script failed to execute: ".to_owned(),
        BuildStep::Watch => "setup script failed to spawn: ".to_owned(),
        BuildStep::Stop => "failed to stop ephemeral sandbox: ".to_owned(),
        _ => "failed to create snapshot: ".to_owned(),
    };
    give_up(start.concat(why.as_str()), remove_sandbox)
}

/// What is told about an event.
fn note_about(names: &BuildNames, step: BuildStep, event: &BuildEvent) -> (r: Option<BuildNote>)
    ensures
        match r {
            Some(n) => build_note(*names, step, *event) == Some(n@),
            None => build_note(*names, step, *event) is None,
        },
{
    match (step, event) {
        (BuildStep::Watch, BuildEvent::Output(bytes)) => {
            let text = read_lossy(bytes.as_slice());
            Some(BuildNote::Log(trim_end_char_text(text.as_str(), '\n')))
        },
        (BuildStep::Flush, BuildEvent::Failed(why)) => Some(
            BuildNote::Warn(
                "sync before snapshot failed (continuing): ".to_owned().concat(why.as_str()),
            ),
        ),
        (BuildStep::CleanUp, BuildEvent::Failed(why)) => Some(
            BuildNote::Warn(
                "failed to remove ephemeral sandbox '".to_owned().concat(
                    names.sandbox.as_str(),
                ).concat("': ").concat(why.as_str()),
            ),
        ),
        _ => None,
    }
}

/// What comes after `step` with this event, and what to tell the user. Making a snapshot begins
/// with [`BuildStep::Look`].
pub fn advance(names: &BuildNames, force: bool, step: BuildStep, event: &BuildEvent) -> (r: (
    BuildNext,
    Option<BuildNote>,
))
    ensures
        r.0@ == build_next(*names, force, step, *event),
        match r.1 {
            Some(n) => build_note(*names, step, *event) == Some(n@),
            None => build_note(*names, step, *event) is None,
        },
{
    let note = note_about(names, step, event);
    let next = match (step, event) {
        (BuildStep::Look, BuildEvent::Done) => if force {
            BuildNext::Do(BuildStep::RemoveOld)
        } else {
            BuildNext::AlreadyExists
        },
        (BuildStep::Look, BuildEvent::NotFound) => BuildNext::Do(BuildStep::Boot),
        (BuildStep::RemoveOld, BuildEvent::Done) => BuildNext::Do(BuildStep::Boot),
        (BuildStep::Boot, BuildEvent::Done) => BuildNext::Do(BuildStep::RunScript),
        (BuildStep::RunScript, BuildEvent::Done) => BuildNext::Do(BuildStep::Watch),
        (BuildStep::Watch, BuildEvent::Exited(code)) => if *code == 0 {
            BuildNext::Do(BuildStep::Flush)
        } else {
            give_up(
                "setup script exited with non-zero status (code ".to_owned().concat(
                    signed_decimal_text(*code).as_str(),
                ).concat(")"),
                true,
            )
        },
        (BuildStep::Watch, BuildEvent::Failed(_)) => step_failed(names, step, event, true),
        (BuildStep::Watch, BuildEvent::Ended) => give_up(
            "setup script exec session ended without exit event".to_owned(),
            true,
        ),
        (BuildStep::Watch, _) => BuildNext::Do(BuildStep::Watch),
        (BuildStep::Flush, _) => BuildNext::Do(BuildStep::Stop),
        (BuildStep::Stop, BuildEvent::Done) => BuildNext::Do(BuildStep::Save),
        (BuildStep::Save, BuildEvent::Done) => BuildNext::Do(BuildStep::CleanUp),
        (BuildStep::CleanUp, _) => BuildNext::Created,
        _ => step_failed(names, step, event, false),
    };
    (next, note)
}

/// What is printed at the end of `snapshot create`.
pub fn create_message(name: &str, already_existed: bool) -> (r: String)
    ensures
        r@ == if already_existed {
            "Snapshot already exists: "@ + name@
        } else {
            "Created snapshot: "@ + name@
        },
{
    if already_existed {
        "Snapshot already exists: ".to_owned().concat(name)
    } else {
        "Created snapshot: ".to_owned().concat(name)
    }
}

// ── Remove and clean ──────────────────────────────────────────────────────────

/// The result of removing the snapshot `name`: with `force`, one that is not there is as good as
/// removed.
pub fn remove_result(outcome: &Result<(), RuntimeError>, force: bool, name: &str) -> (r: Result<
    (),
    SodagunError,
>)
    ensures
        match (*outcome, r) {
            (Ok(()), Ok(())) => true,
            (Err(e), Ok(())) => force && e.kind == RuntimeErrorKind::SnapshotNotFound,
            (Err(e), Err(x)) => !(force && e.kind == RuntimeErrorKind::SnapshotNotFound) && x@
                == snapshot_failure(e, name@),
            (Ok(()), Err(_)) => false,
        },
{
    match outcome {
        Ok(()) => Ok(()),
        Err(e) => {
            if force && e.kind == RuntimeErrorKind::SnapshotNotFound {
                Ok(())
            } else {
                Err(map_snapshot_err(e, name))
            }
        },
    }
}

/// Whether labels are those of a snapshot that we made for the repository at `repo_path`.
pub open spec fn made_for(labels: Map<Seq<char>, String>, repo_path: Seq<char>) -> bool {
    &&& labels.dom().contains("created_by"@) && labels["created_by"@]@ == "sodagun"@
    &&& labels.dom().contains("repo_path"@) && labels["repo_path"@]@ == repo_path
}

/// Whether labels have this value under this name.
fn label_is(labels: &Table<String>, name: &str, value: &str) -> (r: bool)
    ensures
        r == (labels@.dom().contains(name@) && labels@[name@]@ == value@),
{
    match labels.get(name) {
        Some(v) => same_text(v.as_str(), value),
        None => false,
    }
}

/// The name under which to remove a snapshot, if `snapshot clean` for the repository at
/// `repo_path` removes it: its own, or else its digest. A snapshot that cannot be opened has no
/// labels, and is left alone.
pub open spec fn cleaned_as(
    name: Option<Seq<char>>,
    digest: Seq<char>,
    labels: Option<Map<Seq<char>, String>>,
    repo_path: Seq<char>,
) -> Option<Seq<char>> {
    match labels {
        Some(l) => if made_for(l, repo_path) {
            Some(
                match name {
                    Some(n) => n,
                    None => digest,
                },
            )
        } else {
            None
        },
        None => None,
    }
}

/// The name under which to remove a snapshot, if it is to be removed.
pub fn clean_target(
    name: Option<&str>,
    digest: &str,
    labels: Option<&Table<String>>,
    repo_path: &str,
) -> (r: Option<String>)
    ensures
        opt_text(r) == cleaned_as(
            opt_str(name),
            digest@,
            match labels {
                Some(l) => Some(l@),
                None => None,
            },
            repo_path@,
        ),
{
    let labels = match labels {
        Some(l) => l,
        None => return None,
    };
    if !label_is(labels, "created_by", "sodagun") || !label_is(labels, "repo_path", repo_path) {
        return None;
    }
    match name {
        Some(n) => Some(n.to_owned()),
        None => Some(digest.to_owned()),
    }
}

/// A snapshot as the runtime knows it.
#[derive(Debug)]
pub struct FoundSnapshot {
    pub name: Option<String>,
    pub digest: String,
    /// Its labels; a snapshot that cannot be opened has none.
    pub labels: Option<Table<String>>,
}

impl FoundSnapshot {
    /// The name under which `snapshot clean` for the repository at `repo_path` removes it, if it
    /// does.
    pub open spec fn removed_as(self, repo_path: Seq<char>) -> Option<Seq<char>> {
        cleaned_as(
            opt_text(self.name),
            self.digest@,
            match self.labels {
                Some(l) => Some(l@),
                None => None,
            },
            repo_path,
        )
    }
}

/// The names under which `snapshot clean` for the repository at `repo_path` removes these
/// snapshots, in their order.
pub open spec fn removed_from(found: Seq<FoundSnapshot>, repo_path: Seq<char>) -> Seq<Seq<char>>
    decreases found.len(),
{
    if found.len() == 0 {
        Seq::empty()
    } else {
        let before = removed_from(found.drop_last(), repo_path);
        match found.last().removed_as(repo_path) {
            Some(id) => before.push(id),
            None => before,
        }
    }
}

/// A run of `snapshot clean` for one repository: it looks at one snapshot after the other, and has
/// each that it is to remove removed before it looks at the next.
pub struct CleanRun {
    repo_path: String,
    seen: Vec<FoundSnapshot>,
    removed: Vec<String>,
    awaited: Option<String>,
}

impl CleanRun {
    /// The repository.
    pub closed spec fn repo_path(self) -> Seq<char> {
        self.repo_path@
    }

    /// The snapshots it has looked at.
    pub closed spec fn seen(self) -> Seq<FoundSnapshot> {
        self.seen@
    }

    /// The names under which snapshots were removed.
    pub closed spec fn removed(self) -> Seq<Seq<char>> {
        texts(self.removed@)
    }

    /// The name under which the last snapshot is being removed.
    pub closed spec fn awaited(self) -> Option<Seq<char>> {
        opt_text(self.awaited)
    }

    /// What is to be removed among the snapshots seen was removed, but for the one awaited.
    #[verifier::type_invariant]
    spec fn holds(self) -> bool {
        texts(self.removed@) + (match self.awaited {
            Some(id) => seq![id@],
            None => Seq::empty(),
        }) == removed_from(self.seen@, self.repo_path@)
    }

    /// A run that has seen nothing.
    pub fn new(repo_path: &str) -> (r: CleanRun)
        ensures
            r.repo_path() == repo_path@,
            r.seen() == Seq::<FoundSnapshot>::empty(),
            r.removed() == Seq::<Seq<char>>::empty(),
            r.awaited() is None,
    {
        let seen: Vec<FoundSnapshot> = Vec::new();
        let removed: Vec<String> = Vec::new();
        assert(texts(removed@) =~= Seq::empty());
        assert(texts(removed@) + Seq::<Seq<char>>::empty() =~= removed_from(seen@, repo_path@));
        CleanRun { repo_path: repo_path.to_owned(), seen, removed, awaited: None }
    }

    /// Looks at a snapshot; the name under which it is to be removed now, if it is. What was to be
    /// removed among those before it is gone by then.
    pub fn look(self, snapshot: FoundSnapshot) -> (r: (CleanRun, Option<String>))
        requires
            self.awaited() is None,
        ensures
            r.0.repo_path() == self.repo_path(),
            r.0.seen() == self.seen().push(snapshot),
            r.0.removed() == self.removed(),
            r.0.removed() == removed_from(self.seen(), self.repo_path()),
            r.0.awaited() == opt_text(r.1),
            opt_text(r.1) == snapshot.removed_as(self.repo_path()),
    {
        proof {
            use_type_invariant(&self);
        }
        let id = clean_target(
            match &snapshot.name {
                Some(n) => Some(n.as_str()),
                None => None,
            },
            snapshot.digest.as_str(),
            snapshot.labels.as_ref(),
            self.repo_path.as_str(),
        );
        let mut seen = self.seen;
        seen.push(snapshot);
        let awaited = match &id {
            Some(i) => Some(i.clone()),
            None => None,
        };
        proof {
            let gone = texts(self.removed@);
            assert(seen@.drop_last() =~= self.seen@);
            assert(gone + Seq::<Seq<char>>::empty() =~= gone);
            if awaited is Some {
                assert(gone + seq![awaited->0@] =~= gone.push(awaited->0@));
            }
        }
        (CleanRun { repo_path: self.repo_path, seen, removed: self.removed, awaited }, id)
    }

    /// Takes note of what became of the removal. One that failed ends the run.
    pub fn settle(self, outcome: Result<(), RuntimeError>) -> (r: Result<CleanRun, SodagunError>)
        requires
            self.awaited() is Some,
        ensures
            match (outcome, r) {
                (Ok(()), Ok(next)) => {
                    &&& next.repo_path() == self.repo_path()
                    &&& next.seen() == self.seen()
                    &&& next.removed() == self.removed().push(self.awaited()->0)
                    &&& next.awaited() is None
                },
                (Err(e), Err(x)) => x@ == snapshot_failure(e, self.awaited()->0),
                _ => false,
            },
    {
        proof {
            use_type_invariant(&self);
        }
        let id = match self.awaited {
            Some(i) => i,
            None => String::new(),
        };
        match outcome {
            Ok(()) => {
                let mut removed = self.removed;
                removed.push(id);
                proof {
                    assert(texts(removed@) =~= texts(self.removed@).push(id@));
                    assert(texts(removed@) + Seq::<Seq<char>>::empty() =~= texts(self.removed@)
                        + seq![id@]);
                }
                Ok(CleanRun { repo_path: self.repo_path, seen: self.seen, removed, awaited: None })
            },
            Err(e) => Err(map_snapshot_err(&e, id.as_str())),
        }
    }

    /// The names under which snapshots were removed: of all that it has looked at, exactly those
    /// that were made for the repository.
    pub fn finish(self) -> (r: Vec<String>)
        requires
            self.awaited() is None,
        ensures
            texts(r@) == self.removed(),
            texts(r@) == removed_from(self.seen(), self.repo_path()),
    {
        proof {
            use_type_invariant(&self);
            assert(texts(self.removed@) + Seq::<Seq<char>>::empty() =~= texts(self.removed@));
        }
        self.removed
    }
}

/// What is logged before a snapshot is removed.
pub fn clean_note(id: &str) -> (r: String)
    ensures
        r@ == "removing snapshot: "@ + id@,
{
    "removing snapshot: ".to_owned().concat(id)
}

/// The error for snapshots that cannot be listed.
pub fn clean_list_error(why: &str) -> (e: SodagunError)
    ensures
        e@ == failure("SNAPSHOT_ERROR"@, "failed to list snapshots: "@ + why@),
{
    fault("SNAPSHOT_ERROR", "failed to list snapshots: ".to_owned().concat(why))
}

/// The repository that `snapshot clean` is for: the canonical path of the configuration file's
/// directory.
pub fn clean_repo(canonical: Option<String>) -> (r: Result<String, SodagunError>)
    ensures
        match canonical {
            Some(p) => r == Ok::<String, SodagunError>(p),
            None => r is Err && r->Err_0@ == failure(
                "CONFIG_INVALID"@,
                "cannot canonicalize project directory"@,
            ),
        },
{
    match canonical {
        Some(p) => Ok(p),
        None => Err(fault("CONFIG_INVALID", "cannot canonicalize project directory".to_owned())),
    }
}

/// What is printed at the end of `snapshot clean`.
pub open spec fn clean_text(removed: Seq<Seq<char>>) -> Seq<Seq<char>> {
    if removed.len() == 0 {
        seq!["No snapshots to clean."@]
    } else {
        Seq::new(removed.len(), |i: int| "Removed: "@ + removed[i])
    }
}

/// What is printed at the end of `snapshot clean`.
pub fn clean_lines(removed: &Vec<String>) -> (r: Vec<String>)
    ensures
        texts(r@) == clean_text(texts(removed@)),
{
    let mut lines: Vec<String> = Vec::new();
    if removed.len() == 0 {
        lines.push("No snapshots to clean.".to_owned());
        assert(texts(lines@) =~= seq!["No snapshots to clean."@]);
        return lines;
    }
    let ghost all = clean_text(texts(removed@));
    let mut i: usize = 0;
    assert(texts(lines@) =~= all.take(0));
    while i < removed.len()
        invariant
            i <= removed.len(),
            removed.len() > 0,
            all == clean_text(texts(removed@)),
            texts(lines@) == all.take(i as int),
        decreases removed.len() - i,
    {
        let ghost before = lines@;
        let line = "Removed: ".to_owned().concat(removed[i].as_str());
        lines.push(line);
        assert(all[i as int] == line@);
        assert(texts(lines@) =~= texts(before).push(line@));
        assert(all.take(i + 1) =~= all.take(i as int).push(line@));
        i += 1;
    }
    assert(all.take(i as int) =~= all);
    lines
}

// ── Laws ──────────────────────────────────────────────────────────────────────

/// What has been achieved while a snapshot is made.
pub ghost struct Achieved {
    pub script_succeeded: bool,
    pub stopped: bool,
    pub saved: bool,
}

/// What has been achieved after a step with this event.
pub open spec fn achieved_after(a: Achieved, step: BuildStep, event: BuildEvent) -> Achieved {
    Achieved {
        script_succeeded: a.script_succeeded || (step == BuildStep::Watch && event
            == BuildEvent::Exited(0)),
        stopped: a.stopped || (step == BuildStep::Stop && event is Done),
        saved: a.saved || (step == BuildStep::Save && event is Done),
    }
}

/// What must have been achieved when `step` is tried.
pub open spec fn achieved_before(step: BuildStep) -> Achieved {
    Achieved {
        script_succeeded: step == BuildStep::Flush || step == BuildStep::Stop || step
            == BuildStep::Save || step == BuildStep::CleanUp,
        stopped: step == BuildStep::Save || step == BuildStep::CleanUp,
        saved: step == BuildStep::CleanUp,
    }
}

/// A run from `step` with these events: what has been achieved at its end, and how it ended.
pub open spec fn build_run(
    names: BuildNames,
    force: bool,
    a: Achieved,
    step: BuildStep,
    events: Seq<BuildEvent>,
) -> (Achieved, NextModel)
    decreases events.len(),
{
    if events.len() == 0 {
        (a, NextModel::Do(step))
    } else {
        let after = achieved_after(a, step, events[0]);
        match build_next(names, force, step, events[0]) {
            NextModel::Do(s) => build_run(names, force, after, s, events.skip(1)),
            end => (after, end),
        }
    }
}

proof fn lemma_build_run(names: BuildNames, force: bool, step: BuildStep, events: Seq<BuildEvent>)
    ensures
        ({
            let (a, end) = build_run(names, force, achieved_before(step), step, events);
            &&& end is Created ==> a.script_succeeded && a.stopped && a.saved
            &&& a.saved ==> a.script_succeeded && a.stopped
            &&& end is AlreadyExists ==> !force && !a.saved
        }),
    decreases events.len(),
{
    if events.len() > 0 {
        if let NextModel::Do(s) = build_next(names, force, step, events[0]) {
            assert(achieved_after(achieved_before(step), step, events[0]) == achieved_before(s));
            lemma_build_run(names, force, s, events.skip(1));
        }
    }
}

/// A snapshot is reported as made only where the setup script succeeded, the sandbox was stopped
/// and the snapshot was saved; it is saved only after the other two; and without `--force` an
/// existing snapshot is never made again.
pub proof fn law_snapshot_holds_a_finished_setup(
    names: BuildNames,
    force: bool,
    events: Seq<BuildEvent>,
)
    ensures
        ({
            let (a, end) = build_run(
                names,
                force,
                achieved_before(BuildStep::Look),
                BuildStep::Look,
                events,
            );
            &&& end is Created ==> a.script_succeeded && a.stopped && a.saved
            &&& a.saved ==> a.script_succeeded && a.stopped
            &&& end is AlreadyExists ==> !force && !a.saved
        }),
{
    lemma_build_run(names, force, BuildStep::Look, events);
}

/// A sandbox in which the setup script failed is removed.
pub proof fn law_failed_setup_is_cleaned_up(names: BuildNames, force: bool, event: BuildEvent)
    ensures
        match build_next(names, force, BuildStep::Watch, event) {
            NextModel::Abort { remove_sandbox, .. } => remove_sandbox,
            _ => true,
        },
{
}

/// The label `setup_hash` is the part of the snapshot's name that stands for script and files,
/// and all of it: the part before it holds no `_`.
pub proof fn law_setup_hash_is_the_tag(
    base: Seq<char>,
    script: Seq<char>,
    files: Seq<(Seq<char>, Seq<u8>)>,
    repo_path: Seq<char>,
    image: ImageConfig,
)
    ensures
        labels_meant(snapshot_named(base, script, files), repo_path, image)[2] == (
            "setup_hash"@,
            content_tag(setup_bytes(script, files)),
        ),
{
    reveal_strlit("_");
    let tag = content_tag(setup_bytes(script, files));
    let front = dashed(base);
    let name = snapshot_named(base, script, files);
    law_dashing(base);
    assert(separators().contains('_'));
    assert forall|j: int| 0 <= j < front.len() implies name[j] != '_' by {
        assert(name[j] == front[j]);
        assert(!separators().contains(front[j]));
    }
    assert(name[front.len() as int] == '_');
    lemma_find_char_at(name, '_', front.len() as int);
    assert(name.skip(front.len() as int + 1) =~= tag);
}

/// `snapshot clean` finds what `snapshot create` has made for the same repository, and nothing
/// that was made for another.
pub proof fn law_clean_finds_what_create_made(
    name: Seq<char>,
    repo_path: Seq<char>,
    other: Seq<char>,
    image: ImageConfig,
    labels: Map<Seq<char>, String>,
)
    requires
        forall|i: int|
            0 <= i < labels_meant(name, repo_path, image).len() ==> {
                let l = #[trigger] labels_meant(name, repo_path, image)[i];
                labels.dom().contains(l.0) && labels[l.0]@ == l.1
            },
    ensures
        made_for(labels, other) <==> other == repo_path,
{
    let m = labels_meant(name, repo_path, image);
    assert(m[0] == ("created_by"@, "sodagun"@));
    assert(m[1] == ("repo_path"@, repo_path));
}

/// A sandbox boots from a project's snapshot exactly where there is one to create, and from just
/// the one that is created, while the snapshot itself is never made from a project's snapshot.
pub proof fn law_start_boots_what_create_made(image: ImageConfig)
    ensures
        match image.snapshot() {
            Some(name) => boot_meant(image) == BootModel::ProjectSnapshot(name),
            None => boot_meant(image) == build_boot(image),
        },
        build_boot(image) !is ProjectSnapshot,
{
}

} // verus!
