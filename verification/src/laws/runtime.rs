//! Laws of what the sandbox runtime and other programs tell us.

use crate::error::SodagunError;
use crate::host::{lossy_text, shown_text};
use crate::laws::texts::{law_decimal_is_read_back, law_has_char, law_second_word};
use crate::text::{
    decimal, is_white_space, lemma_split_front, lemma_split_none, parse_unsigned, split,
};
use crate::util::{
    check_msb_version, dashify, is_terminal_status, judge_msb_version, map_sandbox_err,
    map_snapshot_err, parse_msb_version, status_label, MsbProbe, RuntimeError, RuntimeErrorKind,
    SandboxStatus,
};
use vstd::prelude::*;

verus! {

/// A version in dotted form.
pub open spec fn written(major: u32, minor: u32, patch: u32) -> Seq<char> {
    decimal(major as nat) + seq!['.'] + decimal(minor as nat) + seq!['.'] + decimal(patch as nat)
}

proof fn lemma_no_dot(n: nat)
    ensures
        !crate::text::has_char(decimal(n), '.'),
{
    law_decimal_is_read_back(n, n);
    let d = decimal(n);
    if crate::text::has_char(d, '.') {
        let k = choose|k: int| 0 <= k < d.len() && d[k] == '.';
        assert(0x30 <= d[k] as u32 <= 0x39);
    }
}

proof fn lemma_written(major: u32, minor: u32, patch: u32)
    ensures
        split(written(major, minor, patch), '.') == seq![
            decimal(major as nat),
            decimal(minor as nat),
            decimal(patch as nat),
        ],
        split(decimal(major as nat) + seq!['.'] + decimal(minor as nat), '.') == seq![
            decimal(major as nat),
            decimal(minor as nat),
        ],
{
    let a = decimal(major as nat);
    let b = decimal(minor as nat);
    let c = decimal(patch as nat);
    let dot = seq!['.'];
    lemma_no_dot(major as nat);
    lemma_no_dot(minor as nat);
    lemma_no_dot(patch as nat);
    assert(written(major, minor, patch) =~= a + dot + (b + dot + c));
    lemma_split_front(a, '.', b + dot + c);
    lemma_split_front(b, '.', c);
    lemma_split_none(c, '.');
    lemma_split_front(a, '.', b);
    lemma_split_none(b, '.');
    assert(split(written(major, minor, patch), '.') =~= seq![a, b, c]);
    assert(split(a + dot + b, '.') =~= seq![a, b]);
}

/// A version in dotted form is read back; where its third part is missing, it is 0.
pub proof fn law_version_is_read_back(
    major: u32,
    minor: u32,
    patch: u32,
    s: &str,
    r: Option<(u32, u32, u32)>,
)
    requires
        call_ensures(parse_msb_version, (s,), r),
    ensures
        s@ == written(major, minor, patch) ==> r == Some((major, minor, patch)),
        s@ == decimal(major as nat) + seq!['.'] + decimal(minor as nat) ==> r == Some(
            (major, minor, 0u32),
        ),
{
    lemma_written(major, minor, patch);
    law_decimal_is_read_back(major as nat, u32::MAX as nat);
    law_decimal_is_read_back(minor as nat, u32::MAX as nat);
    law_decimal_is_read_back(patch as nat, u32::MAX as nat);
}

/// A version whose third part is no number counts as one without it; one whose first or second part
/// is no number is none.
pub proof fn law_versions_with_other_parts(
    major: u32,
    minor: u32,
    other: Seq<char>,
    s: &str,
    r: Option<(u32, u32, u32)>,
)
    requires
        call_ensures(parse_msb_version, (s,), r),
        !other.contains('.'),
        parse_unsigned(other, u32::MAX as nat) is None,
    ensures
        s@ == decimal(major as nat) + seq!['.'] + (decimal(minor as nat) + seq!['.'] + other) ==> r
            == Some((major, minor, 0u32)),
        s@ == decimal(major as nat) + seq!['.'] + other ==> r is None,
        s@ == other ==> r is None,
{
    let a = decimal(major as nat);
    let b = decimal(minor as nat);
    law_has_char(other, '.');
    lemma_no_dot(major as nat);
    lemma_no_dot(minor as nat);
    lemma_split_front(a, '.', b + seq!['.'] + other);
    lemma_split_front(b, '.', other);
    lemma_split_front(a, '.', other);
    lemma_split_none(other, '.');
    law_decimal_is_read_back(major as nat, u32::MAX as nat);
    law_decimal_is_read_back(minor as nat, u32::MAX as nat);
}

/// An `msb` that prints its name and then a word is accepted exactly where the word is a version,
/// and one not before 0.5.0.
pub proof fn law_recent_versions_are_accepted(
    lead: Seq<char>,
    program: Seq<char>,
    gap: Seq<char>,
    word: &str,
    rest: Seq<char>,
    version: Option<(u32, u32, u32)>,
    path: &str,
    text: &str,
    shown: &str,
    r: Result<(), SodagunError>,
)
    requires
        call_ensures(parse_msb_version, (word,), version),
        call_ensures(judge_msb_version, (path, text, shown), r),
        program.len() > 0,
        gap.len() > 0,
        word@.len() > 0,
        forall|i: int| 0 <= i < lead.len() ==> is_white_space(#[trigger] lead[i]),
        forall|i: int| 0 <= i < program.len() ==> !is_white_space(#[trigger] program[i]),
        forall|i: int| 0 <= i < gap.len() ==> is_white_space(#[trigger] gap[i]),
        forall|i: int| 0 <= i < word@.len() ==> !is_white_space(#[trigger] word@[i]),
        rest.len() > 0 ==> is_white_space(rest[0]),
        text@ == lead + program + gap + word@ + rest,
    ensures
        r is Ok <==> version is Some && ((version->0).0 >= 1 || (version->0).1 >= 5),
        r is Err ==> r->Err_0@.code == "SANDBOX_ERROR"@,
{
    law_second_word(lead, program, gap, word@, rest);
}

/// An `msb` that prints one word, or none, is not accepted.
pub proof fn law_version_must_be_printed(
    program: Seq<char>,
    gap: Seq<char>,
    path: &str,
    text: &str,
    shown: &str,
    r: Result<(), SodagunError>,
)
    requires
        call_ensures(judge_msb_version, (path, text, shown), r),
        program.len() > 0,
        gap.len() > 0,
        forall|i: int| 0 <= i < program.len() ==> !is_white_space(#[trigger] program[i]),
        forall|i: int| 0 <= i < gap.len() ==> is_white_space(#[trigger] gap[i]),
        text@ == program || text@ == program + gap,
    ensures
        r is Err,
{
    let none = Seq::<char>::empty();
    let word = seq!['x'];
    law_second_word(none, program, gap, word, none);
    assert(none + program + gap =~= program + gap);
    assert(none + program =~= program);
}

/// An `msb` that cannot be found or run is not accepted; one that runs is judged by what it prints.
pub proof fn law_installed_program_is_judged(
    probe: MsbProbe,
    r: Result<(), SodagunError>,
    path: &str,
    text: &str,
    shown: &str,
    judged: Result<(), SodagunError>,
)
    requires
        call_ensures(check_msb_version, (&probe,), r),
        call_ensures(judge_msb_version, (path, text, shown), judged),
    ensures
        probe is Unresolved || probe is NotRun ==> r is Err && r->Err_0@.code == "SANDBOX_ERROR"@,
        probe is Ran && text@ == lossy_text(probe->stdout@) && shown@ == shown_text(text@)
            && path@ == probe->path@ ==> (r is Ok <==> judged is Ok) && (r is Err ==> r->Err_0@
            == judged->Err_0@),
{
}

/// An error of the runtime is reported as what it is: that a sandbox or snapshot of that name is
/// not there, or else in the runtime's own words.
pub proof fn law_runtime_errors(
    e: RuntimeError,
    name: &str,
    sandbox: SodagunError,
    snapshot: SodagunError,
)
    requires
        call_ensures(map_sandbox_err, (&e, name), sandbox),
        call_ensures(map_snapshot_err, (&e, name), snapshot),
    ensures
        e.kind == RuntimeErrorKind::SandboxNotFound ==> sandbox@.code == "SANDBOX_NOT_FOUND"@
            && sandbox@.message == "sandbox '"@ + name@ + "' not found"@,
        e.kind != RuntimeErrorKind::SandboxNotFound ==> sandbox@.code == "SANDBOX_ERROR"@
            && sandbox@.message == e.text@,
        e.kind == RuntimeErrorKind::SnapshotNotFound ==> snapshot@.code == "SNAPSHOT_NOT_FOUND"@
            && snapshot@.message == "snapshot '"@ + name@ + "' not found"@,
        e.kind != RuntimeErrorKind::SnapshotNotFound ==> snapshot@.code == "SNAPSHOT_ERROR"@
            && snapshot@.message == e.text@,
{
}

/// Each state has a word of its own, and stopped and crashed sandboxes, and no others, have ended.
pub proof fn law_states(s: SandboxStatus, word: &'static str, over: bool)
    requires
        call_ensures(status_label, (s,), word),
        call_ensures(is_terminal_status, (s,), over),
    ensures
        s == SandboxStatus::Running ==> word@ == "running"@ && !over,
        s == SandboxStatus::Draining ==> word@ == "draining"@ && !over,
        s == SandboxStatus::Paused ==> word@ == "paused"@ && !over,
        s == SandboxStatus::Stopped ==> word@ == "stopped"@ && over,
        s == SandboxStatus::Crashed ==> word@ == "crashed"@ && over,
{
}

/// In a name that is built into another, a slash, an underscore, a colon, an at sign and a space
/// become `-`, and everything else stays.
pub proof fn law_separators_become_dashes(s: &str, r: String, i: int)
    requires
        call_ensures(dashify, (s,), r),
        0 <= i < s@.len(),
    ensures
        r@.len() == s@.len(),
        r@[i] == (if s@[i] == '/' || s@[i] == '_' || s@[i] == ':' || s@[i] == '@' || s@[i] == ' ' {
            '-'
        } else {
            s@[i]
        }),
{
    let from = crate::util::separators();
    assert(from[0] == '/' && from[1] == '_' && from[2] == ':' && from[3] == '@' && from[4] == ' ');
    if from.contains(s@[i]) {
        let k = choose|k: int| 0 <= k < from.len() && from[k] == s@[i];
    }
}

} // verus!
