//! Laws of workspaces' records, and of stopping and removing sandboxes.

use crate::commands::sandbox::{
    poll_until_stopped, read_sandbox_name, removal_error, removal_target, stop_action, Poll,
    StopAction,
};
use crate::config::load::FileRead;
use crate::error::SodagunError;
use crate::path::path_file_name;
use crate::util::SandboxStatus;
use crate::workspace::{RecordWrite, WorkspaceMetadata};
use vstd::prelude::*;

verus! {

/// The record of a workspace is `sodagun.json` in its root directory.
pub proof fn law_record_path(rootdir: &str, r: String)
    requires
        call_ensures(WorkspaceMetadata::path, (rootdir,), r),
    ensures
        r@ == crate::path::join(rootdir@, "sodagun.json"@),
{
}

/// A record is read exactly where one is there, and as it is; a record that is not there is told
/// apart from one that cannot be used.
pub proof fn law_record_is_read_as_it_is(
    rootdir: &str,
    found: FileRead<WorkspaceMetadata>,
    r: Result<WorkspaceMetadata, SodagunError>,
)
    requires
        call_ensures(WorkspaceMetadata::read, (rootdir, found), r),
    ensures
        r is Ok <==> found is Parsed,
        found is Parsed ==> r->Ok_0 == found->Parsed_0,
        found is Missing || found is NoPath ==> r->Err_0@.code == "WORKSPACE_NOT_FOUND"@,
        found is Unreadable || found is Malformed ==> r->Err_0@.code == "WORKSPACE_INVALID"@,
{
}

/// Writing a record succeeds exactly where it was stored.
pub proof fn law_record_is_written_where_it_is_stored(
    rootdir: &str,
    write: RecordWrite,
    r: Result<(), SodagunError>,
)
    requires
        call_ensures(WorkspaceMetadata::write, (rootdir, &write), r),
    ensures
        r is Ok <==> write is Stored,
        r is Err ==> r->Err_0@.code == "WORKSPACE_INVALID"@,
{
}

/// Setting the sandbox's name changes the name and nothing else; where there is no record, there
/// is none to write.
pub proof fn law_setting_the_name_changes_the_name(
    rootdir: &str,
    found: FileRead<WorkspaceMetadata>,
    name: Option<String>,
    r: Result<WorkspaceMetadata, SodagunError>,
)
    requires
        call_ensures(WorkspaceMetadata::set_sandbox_name, (rootdir, found, name), r),
    ensures
        r is Ok <==> found is Parsed,
        r is Ok ==> {
            let old = found->Parsed_0;
            let new = r->Ok_0;
            &&& new.sandbox_name == name
            &&& new.version == old.version
            &&& new.repo_path == old.repo_path
            &&& new.branch == old.branch
            &&& new.created_at == old.created_at
            &&& new.worktree_path == old.worktree_path
        },
{
}

/// A workspace's sandbox is the one that its record names; without a name it was not started.
pub proof fn law_sandbox_is_the_one_recorded(
    rootdir: &str,
    found: FileRead<WorkspaceMetadata>,
    r: Result<String, SodagunError>,
)
    requires
        call_ensures(read_sandbox_name, (rootdir, found), r),
    ensures
        r is Ok <==> found is Parsed && found->Parsed_0.sandbox_name is Some,
        r is Ok ==> r->Ok_0@ == found->Parsed_0.sandbox_name->0@,
        found is Parsed && found->Parsed_0.sandbox_name is None ==> r->Err_0@.code
            == "SANDBOX_NOT_STARTED"@,
        found is Missing || found is NoPath ==> r->Err_0@.code == "WORKSPACE_NOT_FOUND"@,
        found is Unreadable || found is Malformed ==> r->Err_0@.code == "WORKSPACE_INVALID"@,
{
}

/// What is removed is the sandbox that the record names, or else, as an orphan, the one that has
/// the name of the workspace's root directory; where that has none, there is nothing to remove.
pub proof fn law_what_is_removed(
    rootdir: &str,
    name: Option<String>,
    found: FileRead<WorkspaceMetadata>,
    r: Result<(String, bool), SodagunError>,
)
    requires
        call_ensures(path_file_name, (rootdir,), name),
        call_ensures(removal_target, (rootdir, found), r),
    ensures
        r is Ok <==> found is Parsed && (found->Parsed_0.sandbox_name is Some || name is Some),
        found is Parsed && found->Parsed_0.sandbox_name is Some ==> (r->Ok_0).0@
            == found->Parsed_0.sandbox_name->0@ && !(r->Ok_0).1,
        found is Parsed && found->Parsed_0.sandbox_name is None && name is Some ==> (r->Ok_0).0@
            == name->0@ && (r->Ok_0).1,
        found is Missing || found is NoPath ==> r->Err_0@.code == "WORKSPACE_NOT_FOUND"@,
        found is Parsed && r is Err ==> r->Err_0@.code == "WORKSPACE_INVALID"@,
{
}

/// An orphan that is not there was never started; every other error is passed on as it is.
pub proof fn law_missing_orphan_was_not_started(
    orphan: bool,
    e: SodagunError,
    rootdir: &str,
    r: SodagunError,
)
    requires
        call_ensures(removal_error, (orphan, e, rootdir), r),
    ensures
        orphan && e@.code == "SANDBOX_NOT_FOUND"@ ==> r@.code == "SANDBOX_NOT_STARTED"@,
        !(orphan && e@.code == "SANDBOX_NOT_FOUND"@) ==> r@ == e@,
{
}

/// Whether a sandbox in this state has come to its end.
pub open spec fn ended(status: SandboxStatus) -> bool {
    match status {
        SandboxStatus::Stopped => true,
        SandboxStatus::Crashed => true,
        SandboxStatus::Running => false,
        SandboxStatus::Draining => false,
        SandboxStatus::Paused => false,
    }
}

/// A sandbox that has ended is left alone; any other is told to stop, and is waited for unless
/// that is not wanted.
pub proof fn law_stopping(status: SandboxStatus, no_wait: bool, r: StopAction)
    requires
        call_ensures(stop_action, (status, no_wait), r),
    ensures
        ended(status) <==> r == StopAction::Leave,
        !ended(status) && no_wait ==> r == StopAction::Signal,
        !ended(status) && !no_wait ==> r == StopAction::SignalAndWait,
{
}

/// A sandbox that has ended is never late; one that has not is waited for until the time is up.
pub proof fn law_waiting(name: &str, status: SandboxStatus, late: bool, secs: u64, r: Poll)
    requires
        call_ensures(poll_until_stopped, (name, status, late, secs), r),
    ensures
        ended(status) <==> r is Stopped,
        !ended(status) && !late ==> r is Wait,
        !ended(status) && late ==> r is TimedOut,
{
}

} // verus!
