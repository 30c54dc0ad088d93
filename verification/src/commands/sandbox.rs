//! `sandbox attach`, `exec`, `list`, `stop` and `remove`.

use crate::config::load::FileRead;
use crate::error::{failure, fault, Failure, SodagunError};
use crate::guest::{build_guest_invocation, guest_invocation};
use crate::path::{file_name, path_file_name};
use crate::table::Table;
use crate::text::{decimal, decimal_text, has_prefix, same_text, starts_with, texts};
use crate::util::{is_terminal_status, label, status_label, terminal, SandboxStatus};
use crate::workspace::{read_failure, WorkspaceMetadata};
use vstd::prelude::*;
use vstd::utf8::encode_utf8;

verus! {

/// What the names of all our sandboxes begin with, those of workspaces and those that snapshots
/// are made in.
pub const SODAGUN_PREFIX: &'static str = "sodagun";

/// Arguments of `sandbox attach`.
#[derive(Debug)]
pub struct AttachArgs {
    /// Root directory of the workspace.
    pub workspace_path: String,
    /// Do not read profile files.
    pub no_login: bool,
    /// Variables for the command, as `KEY=VALUE`.
    pub env: Vec<String>,
    /// Command and arguments; a shell if empty.
    pub cmd: Vec<String>,
}

/// Arguments of `sandbox exec`.
#[derive(Debug)]
pub struct ExecArgs {
    /// Root directory of the workspace.
    pub workspace_path: String,
    pub cmd: String,
    pub args: Vec<String>,
    /// Do not read profile files.
    pub no_login: bool,
    /// Variables for the command, as `KEY=VALUE`.
    pub env: Vec<String>,
}

// ── Which sandbox ─────────────────────────────────────────────────────────────

/// What a workspace without a sandbox is answered with.
pub open spec fn not_started(rootdir: Seq<char>) -> Failure {
    failure(
        "SANDBOX_NOT_STARTED"@,
        "no sandbox has been started for this workspace: "@ + rootdir,
    )
}

/// `not_started` as an error.
fn not_started_error(rootdir: &str) -> (e: SodagunError)
    ensures
        e@ == not_started(rootdir@),
{
    fault(
        "SANDBOX_NOT_STARTED",
        "no sandbox has been started for this workspace: ".to_owned().concat(rootdir),
    )
}

/// The name of a workspace's sandbox, or why there is none.
pub open spec fn sandbox_of(rootdir: Seq<char>, read: FileRead<WorkspaceMetadata>) -> Result<
    Seq<char>,
    Failure,
> {
    match read_failure(rootdir, read) {
        Some(e) => Err(e),
        None => match read->Parsed_0.sandbox_name {
            Some(name) => Ok(name@),
            None => Err(not_started(rootdir)),
        },
    }
}

/// The name of a workspace's sandbox; `read` is the workspace's record.
pub fn read_sandbox_name(rootdir: &str, read: FileRead<WorkspaceMetadata>) -> (r: Result<
    String,
    SodagunError,
>)
    ensures
        match r {
            Ok(name) => sandbox_of(rootdir@, read) == Ok::<Seq<char>, Failure>(name@),
            Err(e) => sandbox_of(rootdir@, read) == Err::<Seq<char>, Failure>(e@),
        },
{
    match WorkspaceMetadata::read(rootdir, read) {
        Ok(meta) => match meta.sandbox_name {
            Some(name) => Ok(name),
            None => Err(not_started_error(rootdir)),
        },
        Err(e) => Err(e),
    }
}

// ── Attach and exec ───────────────────────────────────────────────────────────

/// Program and arguments of `sandbox exec`.
pub fn exec_invocation(args: &ExecArgs, env: &Table<String>) -> (r: (String, Vec<String>))
    ensures
        ({
            let g = guest_invocation(
                seq![args.cmd@] + texts(args.args@),
                env.pairs(),
                !args.no_login,
            );
            r.0@ == g.0 && texts(r.1@) == g.1
        }),
{
    let mut full: Vec<String> = Vec::new();
    full.push(args.cmd.clone());
    let mut i: usize = 0;
    assert(texts(full@) =~= seq![args.cmd@] + texts(args.args@).take(0));
    while i < args.args.len()
        invariant
            i <= args.args.len(),
            texts(full@) == seq![args.cmd@] + texts(args.args@).take(i as int),
        decreases args.args.len() - i,
    {
        let ghost before = full@;
        full.push(args.args[i].clone());
        assert(texts(full@) =~= texts(before).push(args.args@[i as int]@));
        assert(texts(full@) =~= seq![args.cmd@] + texts(args.args@).take(i + 1));
        i += 1;
    }
    assert(texts(args.args@).take(i as int) =~= texts(args.args@));
    build_guest_invocation(full.as_slice(), env, !args.no_login)
}

/// Program and arguments of `sandbox attach`.
pub fn attach_invocation(args: &AttachArgs, env: &Table<String>) -> (r: (String, Vec<String>))
    ensures
        ({
            let g = guest_invocation(texts(args.cmd@), env.pairs(), !args.no_login);
            r.0@ == g.0 && texts(r.1@) == g.1
        }),
{
    build_guest_invocation(args.cmd.as_slice(), env, !args.no_login)
}

/// The error for a sandbox that cannot be reached.
pub fn connect_error(name: &str, why: &str) -> (e: SodagunError)
    ensures
        e@ == failure(
            "SANDBOX_ERROR"@,
            "failed to connect to sandbox '"@ + name@ + "': "@ + why@,
        ),
{
    fault(
        "SANDBOX_ERROR",
        "failed to connect to sandbox '".to_owned().concat(name).concat("': ").concat(why),
    )
}

/// The error for a command that could not be run.
pub fn exec_error(name: &str, why: &str) -> (e: SodagunError)
    ensures
        e@ == failure("SANDBOX_ERROR"@, "exec failed in sandbox '"@ + name@ + "': "@ + why@),
{
    fault(
        "SANDBOX_ERROR",
        "exec failed in sandbox '".to_owned().concat(name).concat("': ").concat(why),
    )
}

/// The error for an interactive session that broke.
pub fn attach_error(why: &str) -> (e: SodagunError)
    ensures
        e@ == failure("SANDBOX_ERROR"@, "attach session failed: "@ + why@),
{
    fault("SANDBOX_ERROR", "attach session failed: ".to_owned().concat(why))
}

// ── List ──────────────────────────────────────────────────────────────────────

/// The sandboxes that are ours, with how their states are shown.
pub open spec fn ours(all: Seq<(String, SandboxStatus)>) -> Seq<(Seq<char>, Seq<char>)>
    decreases all.len(),
{
    if all.len() == 0 {
        Seq::empty()
    } else {
        let before = ours(all.drop_last());
        if starts_with(all.last().0@, SODAGUN_PREFIX@) {
            before.push((all.last().0@, label(all.last().1)))
        } else {
            before
        }
    }
}

/// The texts in rows of two.
pub open spec fn row_texts(rows: Seq<(String, String)>) -> Seq<(Seq<char>, Seq<char>)> {
    Seq::new(rows.len(), |i: int| (rows[i].0@, rows[i].1@))
}

proof fn lemma_ours_len(all: Seq<(String, SandboxStatus)>)
    ensures
        ours(all).len() <= all.len(),
    decreases all.len(),
{
    if all.len() > 0 {
        lemma_ours_len(all.drop_last());
    }
}

/// The sandboxes that are ours, and how many others there are.
pub fn list_sandboxes(all: &Vec<(String, SandboxStatus)>) -> (r: (Vec<(String, String)>, usize))
    ensures
        row_texts(r.0@) == ours(all@),
        r.1 == all@.len() - ours(all@).len(),
{
    let mut rows: Vec<(String, String)> = Vec::new();
    let mut i: usize = 0;
    assert(row_texts(rows@) =~= ours(all@.take(0)));
    while i < all.len()
        invariant
            i <= all.len(),
            row_texts(rows@) == ours(all@.take(i as int)),
        decreases all.len() - i,
    {
        proof {
            assert(all@.take(i + 1).drop_last() =~= all@.take(i as int));
            assert(all@.take(i + 1).last() == all@[i as int]);
        }
        let name = all[i].0.as_str();
        if has_prefix(name, SODAGUN_PREFIX) {
            let ghost before = rows@;
            let shown = status_label(all[i].1).to_owned();
            rows.push((name.to_owned(), shown));
            assert(row_texts(rows@) =~= row_texts(before).push((name@, shown@)));
        }
        i += 1;
    }
    assert(all@.take(i as int) =~= all@);
    proof {
        lemma_ours_len(all@);
        assert(row_texts(rows@).len() == rows@.len());
    }
    let hidden = all.len() - rows.len();
    (rows, hidden)
}

/// The error for sandboxes that cannot be listed.
pub fn list_error(why: &str) -> (e: SodagunError)
    ensures
        e@ == failure("SANDBOX_ERROR"@, "failed to list sandboxes: "@ + why@),
{
    fault("SANDBOX_ERROR", "failed to list sandboxes: ".to_owned().concat(why))
}

/// The number of bytes of a text.
pub open spec fn byte_len(s: Seq<char>) -> usize {
    encode_utf8(s).len() as usize
}

/// The width of the column of names: that of the widest name in bytes, and of its heading.
pub open spec fn name_width(rows: Seq<(Seq<char>, Seq<char>)>) -> usize
    decreases rows.len(),
{
    if rows.len() == 0 {
        4
    } else {
        let before = name_width(rows.drop_last());
        let own = byte_len(rows.last().0);
        if own > before {
            own
        } else {
            before
        }
    }
}

/// `s` filled up with spaces to `width` characters.
pub open spec fn padded(s: Seq<char>, width: nat) -> Seq<char> {
    if s.len() < width {
        s + Seq::new((width - s.len()) as nat, |i: int| ' ')
    } else {
        s
    }
}

/// One line of the list.
pub open spec fn list_line(row: (Seq<char>, Seq<char>), width: nat) -> Seq<char> {
    padded(row.0, width) + "  "@ + row.1
}

/// The list as text: a heading, and a line for each sandbox.
pub open spec fn list_text(rows: Seq<(Seq<char>, Seq<char>)>) -> Seq<Seq<char>> {
    let width = name_width(rows) as nat;
    seq![list_line(("NAME"@, "STATUS"@), width)] + Seq::new(
        rows.len(),
        |i: int| list_line(rows[i], width),
    )
}

/// `s` filled up with spaces to `width` characters.
fn pad(s: &str, width: usize) -> (r: String)
    ensures
        r@ == padded(s@, width as nat),
{
    let mut r = s.to_owned();
    let mut n = s.unicode_len();
    assert(s@ + Seq::new(0, |i: int| ' ') =~= s@);
    while n < width
        invariant
            s@.len() <= n,
            n <= width || n == s@.len(),
            r@ == s@ + Seq::new((n - s@.len()) as nat, |i: int| ' '),
        decreases width - n,
    {
        r.push(' ');
        assert(r@ =~= s@ + Seq::new((n + 1 - s@.len()) as nat, |i: int| ' '));
        n += 1;
    }
    assert(s@.len() >= width ==> r@ =~= s@);
    r
}

/// One line of the list.
fn render_line(name: &str, status: &str, width: usize) -> (r: String)
    ensures
        r@ == list_line((name@, status@), width as nat),
{
    pad(name, width).concat("  ").concat(status)
}

/// The width of the column of names.
fn column_width(rows: &Vec<(String, String)>) -> (r: usize)
    ensures
        r == name_width(row_texts(rows@)),
{
    let ghost all = row_texts(rows@);
    let mut w: usize = 4;
    let mut i: usize = 0;
    assert(all.take(0) =~= Seq::empty());
    while i < rows.len()
        invariant
            i <= rows.len(),
            all == row_texts(rows@),
            w == name_width(all.take(i as int)),
        decreases rows.len() - i,
    {
        proof {
            assert(all.take(i + 1).drop_last() =~= all.take(i as int));
            assert(all.take(i + 1).last() == all[i as int]);
        }
        let own = rows[i].0.as_str().len();
        if own > w {
            w = own;
        }
        i += 1;
    }
    assert(all.take(i as int) =~= all);
    w
}

/// The list as text.
pub fn list_lines(rows: &Vec<(String, String)>) -> (r: Vec<String>)
    ensures
        texts(r@) == list_text(row_texts(rows@)),
{
    let ghost all = row_texts(rows@);
    let width = column_width(rows);
    let mut lines: Vec<String> = Vec::new();
    lines.push(render_line("NAME", "STATUS", width));
    let mut i: usize = 0;
    assert(texts(lines@) =~= list_text(all).take(1));
    while i < rows.len()
        invariant
            i <= rows.len(),
            all == row_texts(rows@),
            width == name_width(all),
            texts(lines@) == list_text(all).take(i + 1),
        decreases rows.len() - i,
    {
        let ghost before = lines@;
        let line = render_line(rows[i].0.as_str(), rows[i].1.as_str(), width);
        lines.push(line);
        assert(list_text(all)[i + 1] == line@);
        assert(texts(lines@) =~= texts(before).push(line@));
        assert(texts(lines@) =~= list_text(all).take(i + 2));
        i += 1;
    }
    assert(list_text(all).take(i + 1) =~= list_text(all));
    lines
}

/// What is logged where sandboxes that are not ours were left out.
pub fn hidden_note(hidden: usize) -> (r: Option<String>)
    ensures
        match r {
            Some(s) => hidden > 0 && s@ == decimal(hidden as nat)
                + " non-sodagun sandbox(es) hidden; run `msb list` to see all microsandbox VMs"@,
            None => hidden == 0,
        },
{
    if hidden == 0 {
        None
    } else {
        Some(
            decimal_text(hidden as u64).concat(
                " non-sodagun sandbox(es) hidden; run `msb list` to see all microsandbox VMs",
            ),
        )
    }
}

// ── Stop ──────────────────────────────────────────────────────────────────────

/// The error for a sandbox that could not be stopped.
pub fn stop_error(name: &str, why: &str) -> (e: SodagunError)
    ensures
        e@ == failure("SANDBOX_ERROR"@, "failed to stop sandbox '"@ + name@ + "': "@ + why@),
{
    fault(
        "SANDBOX_ERROR",
        "failed to stop sandbox '".to_owned().concat(name).concat("': ").concat(why),
    )
}

/// What is printed once a sandbox has been stopped, or told to stop.
pub fn stop_message(no_wait: bool) -> (r: &'static str)
    ensures
        r@ == if no_wait {
            "Stop signal sent."@
        } else {
            "Stopped."@
        },
{
    if no_wait {
        "Stop signal sent."
    } else {
        "Stopped."
    }
}

/// What to do to stop a sandbox.
#[derive(Debug, Clone, Copy, PartialEq, Eq, Structural)]
pub enum StopAction {
    /// It has ended already.
    Leave,
    /// Ask it to stop.
    Signal,
    /// Ask it to stop, and wait until it has.
    SignalAndWait,
}

/// What to do to stop a sandbox with this status, where the runtime does not wait by itself. One
/// that has ended is left alone.
pub fn stop_action(status: SandboxStatus, no_wait: bool) -> (r: StopAction)
    ensures
        r == if terminal(status) {
            StopAction::Leave
        } else if no_wait {
            StopAction::Signal
        } else {
            StopAction::SignalAndWait
        },
{
    if is_terminal_status(status) {
        StopAction::Leave
    } else if no_wait {
        StopAction::Signal
    } else {
        StopAction::SignalAndWait
    }
}

/// What to do while waiting for a sandbox to stop.
#[derive(Debug)]
pub enum Poll {
    Stopped,
    /// Wait, and look again.
    Wait,
    TimedOut(SodagunError),
}

/// What to do when a sandbox that is to stop has this state, where the runtime does not wait by
/// itself. The state is looked at before the clock, so that a sandbox that has stopped is never
/// late.
pub fn poll_until_stopped(
    name: &str,
    status: SandboxStatus,
    deadline_passed: bool,
    timeout_secs: u64,
) -> (r: Poll)
    ensures
        match r {
            Poll::Stopped => terminal(status),
            Poll::Wait => !terminal(status) && !deadline_passed,
            Poll::TimedOut(e) => !terminal(status) && deadline_passed && e@ == failure(
                "SANDBOX_ERROR"@,
                "timed out waiting for sandbox '"@ + name@ + "' to stop after "@ + decimal(
                    timeout_secs as nat,
                ) + "s"@,
            ),
        },
{
    if is_terminal_status(status) {
        Poll::Stopped
    } else if deadline_passed {
        Poll::TimedOut(
            fault(
                "SANDBOX_ERROR",
                "timed out waiting for sandbox '".to_owned().concat(name).concat(
                    "' to stop after ",
                ).concat(decimal_text(timeout_secs).as_str()).concat("s"),
            ),
        )
    } else {
        Poll::Wait
    }
}

// ── Remove ────────────────────────────────────────────────────────────────────

/// The sandbox to remove for a workspace, and whether it is an orphan: where the record names no
/// sandbox, a start that failed may still have left one behind, under the workspace's own name.
pub open spec fn removal_of(rootdir: Seq<char>, read: FileRead<WorkspaceMetadata>) -> Result<
    (Seq<char>, bool),
    Failure,
> {
    match read_failure(rootdir, read) {
        Some(e) => Err(e),
        None => match read->Parsed_0.sandbox_name {
            Some(name) => Ok((name@, false)),
            None => match file_name(rootdir) {
                Some(name) => Ok((name, true)),
                None => Err(
                    failure(
                        "WORKSPACE_INVALID"@,
                        "cannot derive sandbox name from workspace path: "@ + rootdir,
                    ),
                ),
            },
        },
    }
}

/// The sandbox to remove for a workspace, and whether it is an orphan.
pub fn removal_target(rootdir: &str, read: FileRead<WorkspaceMetadata>) -> (r: Result<
    (String, bool),
    SodagunError,
>)
    ensures
        match r {
            Ok((name, orphan)) => removal_of(rootdir@, read) == Ok::<(Seq<char>, bool), Failure>(
                (name@, orphan),
            ),
            Err(e) => removal_of(rootdir@, read) == Err::<(Seq<char>, bool), Failure>(e@),
        },
{
    match WorkspaceMetadata::read(rootdir, read) {
        Ok(meta) => match meta.sandbox_name {
            Some(name) => Ok((name, false)),
            None => match path_file_name(rootdir) {
                Some(name) => Ok((name, true)),
                None => Err(
                    fault(
                        "WORKSPACE_INVALID",
                        "cannot derive sandbox name from workspace path: ".to_owned().concat(
                            rootdir,
                        ),
                    ),
                ),
            },
        },
        Err(e) => Err(e),
    }
}

/// What a removal that failed is reported as: an orphan that is not there was never started.
pub open spec fn removal_failure(orphan: bool, e: Failure, rootdir: Seq<char>) -> Failure {
    if orphan && e.code == "SANDBOX_NOT_FOUND"@ {
        not_started(rootdir)
    } else {
        e
    }
}

/// The error to report for a removal that failed.
pub fn removal_error(orphan: bool, e: SodagunError, rootdir: &str) -> (r: SodagunError)
    ensures
        r@ == removal_failure(orphan, e@, rootdir@),
{
    if orphan && same_text(e.code, "SANDBOX_NOT_FOUND") {
        not_started_error(rootdir)
    } else {
        e
    }
}

// ── Laws ──────────────────────────────────────────────────────────────────────

/// Only sandboxes of ours are listed.
pub proof fn law_only_ours_are_listed(all: Seq<(String, SandboxStatus)>)
    ensures
        forall|i: int|
            0 <= i < ours(all).len() ==> starts_with(
                (#[trigger] ours(all)[i]).0,
                SODAGUN_PREFIX@,
            ),
    decreases all.len(),
{
    if all.len() > 0 {
        law_only_ours_are_listed(all.drop_last());
        let before = ours(all.drop_last());
        assert forall|i: int| 0 <= i < ours(all).len() implies starts_with(
            (#[trigger] ours(all)[i]).0,
            SODAGUN_PREFIX@,
        ) by {
            if i < before.len() {
                assert(ours(all)[i] == before[i]);
            }
        }
    }
}

/// A sandbox that the runtime has, and whose record names it, can be stopped and removed under one
/// name.
pub proof fn law_stop_and_remove_agree(rootdir: Seq<char>, read: FileRead<WorkspaceMetadata>)
    requires
        sandbox_of(rootdir, read) is Ok,
    ensures
        removal_of(rootdir, read) == Ok::<(Seq<char>, bool), Failure>(
            (sandbox_of(rootdir, read)->Ok_0, false),
        ),
{
}

} // verus!
