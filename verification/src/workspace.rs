//! A workspace's record, `sodagun.json`: which worktree it holds and which sandbox runs for it.

use crate::config::load::FileRead;
use crate::error::{failure, fault, Failure, SodagunError};
use crate::ident::{is_timestamp, now_iso8601};
use crate::path::{join, join_path};
use crate::text::opt_text;
use vstd::prelude::*;

verus! {

/// Name of the record in a workspace's root directory.
pub const METADATA_FILE: &'static str = "sodagun.json";

/// Version of the record's form.
pub const WORKSPACE_VERSION: u32 = 1;

/// A workspace's record.
#[derive(Debug)]
pub struct WorkspaceMetadata {
    pub version: u32,
    pub repo_path: String,
    pub branch: String,
    /// ISO 8601, in UTC.
    pub created_at: String,
    pub worktree_path: String,
    pub sandbox_name: Option<String>,
}

/// What became of writing a record; errors in printed form.
#[derive(Debug)]
pub enum RecordWrite {
    /// It could not be put into words.
    NotSerialized(String),
    /// It could not be stored.
    NotStored(String),
    Stored,
}

/// What reading a record fails with, if it does.
pub open spec fn read_failure(rootdir: Seq<char>, read: FileRead<WorkspaceMetadata>) -> Option<
    Failure,
> {
    match read {
        FileRead::Unreadable(why) => Some(
            failure(
                "WORKSPACE_INVALID"@,
                "failed to read "@ + join(rootdir, METADATA_FILE@) + ": "@ + why@,
            ),
        ),
        FileRead::Malformed(why) => Some(
            failure(
                "WORKSPACE_INVALID"@,
                "malformed sodagun.json in "@ + rootdir + ": "@ + why@,
            ),
        ),
        FileRead::Parsed(_) => None,
        _ => Some(
            failure(
                "WORKSPACE_NOT_FOUND"@,
                "no sodagun.json found in "@ + rootdir
                    + "; was this rootdir created by sodagun?"@,
            ),
        ),
    }
}

/// What writing a record fails with, if it does.
pub open spec fn write_failure(rootdir: Seq<char>, write: RecordWrite) -> Option<Failure> {
    match write {
        RecordWrite::NotSerialized(why) => Some(
            failure(
                "WORKSPACE_INVALID"@,
                "failed to serialize workspace metadata: "@ + why@,
            ),
        ),
        RecordWrite::NotStored(why) => Some(
            failure(
                "WORKSPACE_INVALID"@,
                "failed to write "@ + join(rootdir, METADATA_FILE@) + ": "@ + why@,
            ),
        ),
        RecordWrite::Stored => None,
    }
}

/// A record with another sandbox.
pub open spec fn with_name(meta: WorkspaceMetadata, name: Option<String>) -> WorkspaceMetadata {
    WorkspaceMetadata { sandbox_name: name, ..meta }
}

impl WorkspaceMetadata {
    /// A new record, made now.
    pub fn new(repo_path: String, branch: String, worktree_path: String) -> (r: Self)
        ensures
            is_timestamp(r.created_at@),
            r == (WorkspaceMetadata {
                version: WORKSPACE_VERSION,
                repo_path,
                branch,
                created_at: r.created_at,
                worktree_path,
                sandbox_name: None,
            }),
    {
        WorkspaceMetadata::new_at(repo_path, branch, worktree_path, now_iso8601())
    }

    /// A new record, made at a given time: of the current version and without a sandbox.
    pub fn new_at(
        repo_path: String,
        branch: String,
        worktree_path: String,
        created_at: String,
    ) -> (r: Self)
        ensures
            r == (WorkspaceMetadata {
                version: WORKSPACE_VERSION,
                repo_path,
                branch,
                created_at,
                worktree_path,
                sandbox_name: None,
            }),
    {
        WorkspaceMetadata {
            version: WORKSPACE_VERSION,
            repo_path,
            branch,
            created_at,
            worktree_path,
            sandbox_name: None,
        }
    }

    /// Where the record of a workspace is.
    pub fn path(rootdir: &str) -> (r: String)
        ensures
            r@ == join(rootdir@, METADATA_FILE@),
    {
        join_path(rootdir, METADATA_FILE)
    }

    /// The result of writing a record.
    pub fn write(rootdir: &str, write: &RecordWrite) -> (r: Result<(), SodagunError>)
        ensures
            match r {
                Ok(()) => write_failure(rootdir@, *write) is None,
                Err(e) => write_failure(rootdir@, *write) == Some(e@),
            },
    {
        match write {
            RecordWrite::NotSerialized(why) => Err(
                fault(
                    "WORKSPACE_INVALID",
                    "failed to serialize workspace metadata: ".to_owned().concat(why.as_str()),
                ),
            ),
            RecordWrite::NotStored(why) => Err(
                fault(
                    "WORKSPACE_INVALID",
                    "failed to write ".to_owned().concat(
                        WorkspaceMetadata::path(rootdir).as_str(),
                    ).concat(": ").concat(why.as_str()),
                ),
            ),
            RecordWrite::Stored => Ok(()),
        }
    }

    /// The record that was found in a workspace.
    pub fn read(rootdir: &str, read: FileRead<WorkspaceMetadata>) -> (r: Result<
        WorkspaceMetadata,
        SodagunError,
    >)
        ensures
            match r {
                Ok(meta) => read_failure(rootdir@, read) is None && read == FileRead::Parsed(meta),
                Err(e) => read_failure(rootdir@, read) == Some(e@),
            },
    {
        match read {
            FileRead::Parsed(meta) => Ok(meta),
            FileRead::Unreadable(why) => Err(
                fault(
                    "WORKSPACE_INVALID",
                    "failed to read ".to_owned().concat(
                        WorkspaceMetadata::path(rootdir).as_str(),
                    ).concat(": ").concat(why.as_str()),
                ),
            ),
            FileRead::Malformed(why) => Err(
                fault(
                    "WORKSPACE_INVALID",
                    "malformed sodagun.json in ".to_owned().concat(rootdir).concat(": ").concat(
                        why.as_str(),
                    ),
                ),
            ),
            _ => Err(
                fault(
                    "WORKSPACE_NOT_FOUND",
                    "no sodagun.json found in ".to_owned().concat(rootdir).concat(
                        "; was this rootdir created by sodagun?",
                    ),
                ),
            ),
        }
    }

    /// The record to write so that the workspace's sandbox is `name`: the record that was found,
    /// with nothing but the name changed.
    pub fn set_sandbox_name(
        rootdir: &str,
        read: FileRead<WorkspaceMetadata>,
        name: Option<String>,
    ) -> (r: Result<WorkspaceMetadata, SodagunError>)
        ensures
            match r {
                Ok(meta) => {
                    &&& read is Parsed
                    &&& meta == with_name(read->Parsed_0, name)
                },
                Err(e) => read_failure(rootdir@, read) == Some(e@),
            },
    {
        match WorkspaceMetadata::read(rootdir, read) {
            Ok(meta) => {
                let mut meta = meta;
                meta.sandbox_name = name;
                Ok(meta)
            },
            Err(e) => Err(e),
        }
    }
}

// ── Laws ──────────────────────────────────────────────────────────────────────

/// Whether `after` may be found where `before` was, once writing `record` had the outcome `write`:
/// a record that was stored is there, and one that was not put into words has left no trace. What
/// a failure to store leaves behind is open.
pub open spec fn left_by_write(
    before: FileRead<WorkspaceMetadata>,
    record: WorkspaceMetadata,
    write: RecordWrite,
    after: FileRead<WorkspaceMetadata>,
) -> bool {
    match write {
        RecordWrite::Stored => after == FileRead::Parsed(record),
        RecordWrite::NotSerialized(_) => after == before,
        RecordWrite::NotStored(_) => true,
    }
}

/// A record whose writing was reported as done is read back as it was, in every field; one whose
/// writing was not even tried leaves the next reading as it would have been.
pub proof fn law_written_record_is_read_back(
    rootdir: Seq<char>,
    before: FileRead<WorkspaceMetadata>,
    record: WorkspaceMetadata,
    write: RecordWrite,
    after: FileRead<WorkspaceMetadata>,
)
    requires
        left_by_write(before, record, write, after),
    ensures
        write_failure(rootdir, write) is None ==> {
            &&& read_failure(rootdir, after) is None
            &&& after->Parsed_0.version == record.version
            &&& after->Parsed_0.repo_path@ == record.repo_path@
            &&& after->Parsed_0.branch@ == record.branch@
            &&& after->Parsed_0.created_at@ == record.created_at@
            &&& after->Parsed_0.worktree_path@ == record.worktree_path@
            &&& opt_text(after->Parsed_0.sandbox_name) == opt_text(record.sandbox_name)
        },
        write is NotSerialized ==> read_failure(rootdir, after) == read_failure(rootdir, before),
{
}

/// What setting the name of a workspace's sandbox fails with, if it does: with the reading of the
/// record, or else with the writing.
pub open spec fn set_failure(
    rootdir: Seq<char>,
    before: FileRead<WorkspaceMetadata>,
    write: RecordWrite,
) -> Option<Failure> {
    match read_failure(rootdir, before) {
        Some(e) => Some(e),
        None => write_failure(rootdir, write),
    }
}

/// Whether `after` may be found where `before` was, once the sandbox's name was set to `name`.
/// Where there is no record to read, there is none to write.
pub open spec fn left_by_set(
    before: FileRead<WorkspaceMetadata>,
    name: Option<String>,
    write: RecordWrite,
    after: FileRead<WorkspaceMetadata>,
) -> bool {
    match before {
        FileRead::Parsed(old) => left_by_write(before, with_name(old, name), write, after),
        _ => after == before,
    }
}

/// Once a sandbox's name was set, the record is read back with that name and with every other
/// field as it was. Where the record could not be read, setting the name fails as reading did, and
/// what was there stays.
pub proof fn law_set_name_is_read_back(
    rootdir: Seq<char>,
    before: FileRead<WorkspaceMetadata>,
    name: Option<String>,
    write: RecordWrite,
    after: FileRead<WorkspaceMetadata>,
)
    requires
        left_by_set(before, name, write, after),
    ensures
        set_failure(rootdir, before, write) is None ==> {
            &&& before is Parsed
            &&& read_failure(rootdir, after) is None
            &&& opt_text(after->Parsed_0.sandbox_name) == opt_text(name)
            &&& after->Parsed_0.version == before->Parsed_0.version
            &&& after->Parsed_0.repo_path@ == before->Parsed_0.repo_path@
            &&& after->Parsed_0.branch@ == before->Parsed_0.branch@
            &&& after->Parsed_0.created_at@ == before->Parsed_0.created_at@
            &&& after->Parsed_0.worktree_path@ == before->Parsed_0.worktree_path@
        },
        read_failure(rootdir, before) is Some ==> {
            &&& set_failure(rootdir, before, write) == read_failure(rootdir, before)
            &&& after == before
        },
{
}

} // verus!
