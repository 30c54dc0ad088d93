//! Helpers shared by the commands: names, versions, and the answers of the sandbox runtime.

use crate::error::{failure, fault, Failure, SodagunError};
use crate::host::{lossy_text, read_lossy, show_text, shown_text};
use crate::text::{
    decimal, decimal_text, parse_unsigned, read_unsigned, replace_all, replace_chars, second_word,
    second_word_text, split, split_text, texts,
};
use vstd::prelude::*;

verus! {

// ── Names ─────────────────────────────────────────────────────────────────────

/// The characters that separate the parts of names and references: each becomes `-` where a
/// part is built into a name of ours, so that the name stays unambiguous.
pub open spec fn separators() -> Seq<char> {
    seq!['/', '_', ':', '@', ' ']
}

/// `s` with its separators replaced by `-`.
pub open spec fn dashed(s: Seq<char>) -> Seq<char> {
    replace_chars(s, separators(), '-')
}

/// Replaces the separators in `s` by `-`.
pub fn dashify(s: &str) -> (r: String)
    ensures
        r@ == dashed(s@),
{
    let from: [char; 5] = ['/', '_', ':', '@', ' '];
    assert(from@ =~= separators());
    replace_all(s, &from, '-')
}

/// A dashed text keeps its length, holds no separator, and is left alone by further dashing.
pub proof fn law_dashing(s: Seq<char>)
    ensures
        dashed(s).len() == s.len(),
        forall|i: int| 0 <= i < s.len() ==> !separators().contains(#[trigger] dashed(s)[i]),
        dashed(dashed(s)) == dashed(s),
{
    assert(!separators().contains('-'));
    assert(dashed(dashed(s)) =~= dashed(s));
}

// ── Version of the runtime ────────────────────────────────────────────────────

/// The least version of the `msb` program that understands us.
pub const REQUIRED_MSB_VERSION: (u32, u32, u32) = (0, 5, 0);

/// What is known of the installed `msb` program.
#[derive(Debug)]
pub enum MsbProbe {
    /// It was not found, and this is why.
    Unresolved(String),
    /// It could not be run, and this is why.
    NotRun(String),
    /// It ran, and this is what it printed.
    Ran { path: String, stdout: Vec<u8> },
}

/// The version that a dotted text stands for; the third part may be absent or unreadable and is
/// then 0.
pub open spec fn version_meant(s: Seq<char>) -> Option<(u32, u32, u32)> {
    let parts = split(s, '.');
    if parts.len() < 2 {
        None
    } else {
        match (
            parse_unsigned(parts[0], u32::MAX as nat),
            parse_unsigned(parts[1], u32::MAX as nat),
        ) {
            (Some(major), Some(minor)) => {
                let patch = if parts.len() < 3 {
                    None
                } else {
                    parse_unsigned(parts[2], u32::MAX as nat)
                };
                Some(
                    (
                        major as u32,
                        minor as u32,
                        match patch {
                            Some(p) => p as u32,
                            None => 0u32,
                        },
                    ),
                )
            },
            _ => None,
        }
    }
}

/// Whether version `a` is older than version `b`.
pub open spec fn older(a: (u32, u32, u32), b: (u32, u32, u32)) -> bool {
    ||| a.0 < b.0
    ||| a.0 == b.0 && a.1 < b.1
    ||| a.0 == b.0 && a.1 == b.1 && a.2 < b.2
}

/// The dotted form of a version.
pub open spec fn dotted(v: (u32, u32, u32)) -> Seq<char> {
    decimal(v.0 as nat) + "."@ + decimal(v.1 as nat) + "."@ + decimal(v.2 as nat)
}

/// What is wrong with an `msb` at `path` that prints `text`, if anything; `shown` is the text in
/// quotes. The version is the second word that it prints.
pub open spec fn version_complaint(path: Seq<char>, text: Seq<char>, shown: Seq<char>) -> Option<
    Seq<char>,
> {
    match second_word(text) {
        None => Some("unexpected `msb --version` output: "@ + shown),
        Some(word) => match version_meant(word) {
            None => Some("could not parse `msb --version` output: "@ + shown),
            Some(v) => if older(v, REQUIRED_MSB_VERSION) {
                Some(
                    "msb at "@ + path + " is version "@ + word + ", but sodagun requires >= "@
                        + dotted(REQUIRED_MSB_VERSION) + " — run: msb self update"@,
                )
            } else {
                None
            },
        },
    }
}

/// What is wrong with the installed `msb`, if anything.
pub open spec fn msb_complaint(probe: MsbProbe) -> Option<Seq<char>> {
    match probe {
        MsbProbe::Unresolved(why) => Some("could not resolve msb binary: "@ + why@),
        MsbProbe::NotRun(why) => Some("failed to run `msb --version`: "@ + why@),
        MsbProbe::Ran { path, stdout } => version_complaint(
            path@,
            lossy_text(stdout@),
            shown_text(lossy_text(stdout@)),
        ),
    }
}

/// Reads a dotted version.
pub fn parse_msb_version(s: &str) -> (r: Option<(u32, u32, u32)>)
    ensures
        r == version_meant(s@),
{
    let parts = split_text(s, '.');
    let ghost p = texts(parts@);
    if parts.len() < 2 {
        return None;
    }
    let max: u64 = u32::MAX as u64;
    assert(p[0] == parts@[0]@ && p[1] == parts@[1]@);
    let major = match read_unsigned(parts[0].as_str(), max) {
        Some(n) => n as u32,
        None => return None,
    };
    let minor = match read_unsigned(parts[1].as_str(), max) {
        Some(n) => n as u32,
        None => return None,
    };
    let patch = if parts.len() < 3 {
        0
    } else {
        assert(p[2] == parts@[2]@);
        match read_unsigned(parts[2].as_str(), max) {
            Some(n) => n as u32,
            None => 0,
        }
    };
    Some((major, minor, patch))
}

/// The dotted form of a version.
fn dotted_text(v: (u32, u32, u32)) -> (r: String)
    ensures
        r@ == dotted(v),
{
    decimal_text(v.0 as u64).concat(".").concat(decimal_text(v.1 as u64).as_str()).concat(
        ".",
    ).concat(decimal_text(v.2 as u64).as_str())
}

/// Checks that an `msb` at `path` that prints `text` is recent enough; `shown` is the text in
/// quotes.
pub fn judge_msb_version(path: &str, text: &str, shown: &str) -> (r: Result<(), SodagunError>)
    ensures
        match r {
            Ok(()) => version_complaint(path@, text@, shown@) is None,
            Err(e) => version_complaint(path@, text@, shown@) is Some && e@ == failure(
                "SANDBOX_ERROR"@,
                version_complaint(path@, text@, shown@)->0,
            ),
        },
{
    let word = match second_word_text(text) {
        Some(w) => w,
        None => {
            let message = "unexpected `msb --version` output: ".to_owned().concat(shown);
            return Err(fault("SANDBOX_ERROR", message));
        },
    };
    let version = match parse_msb_version(word.as_str()) {
        Some(v) => v,
        None => {
            let message = "could not parse `msb --version` output: ".to_owned().concat(shown);
            return Err(fault("SANDBOX_ERROR", message));
        },
    };
    if is_older(version, REQUIRED_MSB_VERSION) {
        let message = "msb at ".to_owned().concat(path).concat(" is version ").concat(
            word.as_str(),
        ).concat(", but sodagun requires >= ").concat(
            dotted_text(REQUIRED_MSB_VERSION).as_str(),
        ).concat(" — run: msb self update");
        return Err(fault("SANDBOX_ERROR", message));
    }
    Ok(())
}

/// Checks that the installed `msb` is recent enough.
pub fn check_msb_version(probe: &MsbProbe) -> (r: Result<(), SodagunError>)
    ensures
        match r {
            Ok(()) => msb_complaint(*probe) is None,
            Err(e) => msb_complaint(*probe) is Some && e@ == failure(
                "SANDBOX_ERROR"@,
                msb_complaint(*probe)->0,
            ),
        },
{
    match probe {
        MsbProbe::Unresolved(why) => Err(
            fault(
                "SANDBOX_ERROR",
                "could not resolve msb binary: ".to_owned().concat(why.as_str()),
            ),
        ),
        MsbProbe::NotRun(why) => Err(
            fault(
                "SANDBOX_ERROR",
                "failed to run `msb --version`: ".to_owned().concat(why.as_str()),
            ),
        ),
        MsbProbe::Ran { path, stdout } => {
            let text = read_lossy(stdout.as_slice());
            let shown = show_text(text.as_str());
            judge_msb_version(path.as_str(), text.as_str(), shown.as_str())
        },
    }
}

/// Whether version `a` is older than version `b`.
fn is_older(a: (u32, u32, u32), b: (u32, u32, u32)) -> (r: bool)
    ensures
        r == older(a, b),
{
    a.0 < b.0 || (a.0 == b.0 && (a.1 < b.1 || (a.1 == b.1 && a.2 < b.2)))
}

// ── Answers of the runtime ────────────────────────────────────────────────────

/// What kind of error the runtime reports.
#[derive(Debug, Clone, Copy, PartialEq, Eq, Structural)]
pub enum RuntimeErrorKind {
    SandboxNotFound,
    SnapshotNotFound,
    Other,
}

/// An error of the runtime: its kind, and how it prints.
#[derive(Debug)]
pub struct RuntimeError {
    pub kind: RuntimeErrorKind,
    pub text: String,
}

/// The state of a sandbox.
#[derive(Debug, Clone, Copy, PartialEq, Eq, Structural)]
pub enum SandboxStatus {
    Running,
    Draining,
    Paused,
    Stopped,
    Crashed,
}

/// What an error about the sandbox `name` is reported as.
pub open spec fn sandbox_failure(e: RuntimeError, name: Seq<char>) -> Failure {
    if e.kind == RuntimeErrorKind::SandboxNotFound {
        failure("SANDBOX_NOT_FOUND"@, "sandbox '"@ + name + "' not found"@)
    } else {
        failure("SANDBOX_ERROR"@, e.text@)
    }
}

/// What an error about the snapshot `name` is reported as.
pub open spec fn snapshot_failure(e: RuntimeError, name: Seq<char>) -> Failure {
    if e.kind == RuntimeErrorKind::SnapshotNotFound {
        failure("SNAPSHOT_NOT_FOUND"@, "snapshot '"@ + name + "' not found"@)
    } else {
        failure("SNAPSHOT_ERROR"@, e.text@)
    }
}

/// The error to report for a failed operation on a sandbox.
pub fn map_sandbox_err(e: &RuntimeError, name: &str) -> (r: SodagunError)
    ensures
        r@ == sandbox_failure(*e, name@),
{
    if e.kind == RuntimeErrorKind::SandboxNotFound {
        fault("SANDBOX_NOT_FOUND", "sandbox '".to_owned().concat(name).concat("' not found"))
    } else {
        fault("SANDBOX_ERROR", e.text.clone())
    }
}

/// The error to report for a failed operation on a snapshot.
pub fn map_snapshot_err(e: &RuntimeError, name: &str) -> (r: SodagunError)
    ensures
        r@ == snapshot_failure(*e, name@),
{
    if e.kind == RuntimeErrorKind::SnapshotNotFound {
        fault("SNAPSHOT_NOT_FOUND", "snapshot '".to_owned().concat(name).concat("' not found"))
    } else {
        fault("SNAPSHOT_ERROR", e.text.clone())
    }
}

/// How a status is shown.
pub open spec fn label(s: SandboxStatus) -> Seq<char> {
    match s {
        SandboxStatus::Running => "running"@,
        SandboxStatus::Draining => "draining"@,
        SandboxStatus::Paused => "paused"@,
        SandboxStatus::Stopped => "stopped"@,
        SandboxStatus::Crashed => "crashed"@,
    }
}

/// How a status is shown.
pub fn status_label(s: SandboxStatus) -> (r: &'static str)
    ensures
        r@ == label(s),
{
    match s {
        SandboxStatus::Running => "running",
        SandboxStatus::Draining => "draining",
        SandboxStatus::Paused => "paused",
        SandboxStatus::Stopped => "stopped",
        SandboxStatus::Crashed => "crashed",
    }
}

/// Whether a sandbox in this state has come to its end.
pub open spec fn terminal(s: SandboxStatus) -> bool {
    s == SandboxStatus::Stopped || s == SandboxStatus::Crashed
}

/// Whether a sandbox in this state has come to its end.
pub fn is_terminal_status(s: SandboxStatus) -> (r: bool)
    ensures
        r == terminal(s),
{
    s == SandboxStatus::Stopped || s == SandboxStatus::Crashed
}

} // verus!
