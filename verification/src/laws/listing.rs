//! Laws of `sandbox list`.

use crate::commands::sandbox::{
    list_line, list_lines, list_sandboxes, list_text, name_width, ours, padded, row_texts,
    SODAGUN_PREFIX,
};
use crate::text::{starts_with, texts};
use crate::util::{label, SandboxStatus};
use vstd::prelude::*;
use vstd::utf8::encode_utf8;

verus! {

/// Whether a sandbox of this name is one of ours.
pub open spec fn own(name: Seq<char>) -> bool {
    exists|rest: Seq<char>| name == #[trigger] ("sodagun"@ + rest)
}

proof fn lemma_own(name: Seq<char>)
    ensures
        own(name) <==> starts_with(name, SODAGUN_PREFIX@),
{
    if own(name) {
        let rest = choose|rest: Seq<char>| name == #[trigger] ("sodagun"@ + rest);
        assert(name.take("sodagun"@.len() as int) =~= "sodagun"@);
    }
    if starts_with(name, SODAGUN_PREFIX@) {
        let rest = name.skip("sodagun"@.len() as int);
        assert(name =~= "sodagun"@ + rest);
    }
}

proof fn lemma_ours_has(all: Seq<(String, SandboxStatus)>, i: int) -> (j: int)
    requires
        0 <= i < all.len(),
        own(all[i].0@),
    ensures
        0 <= j < ours(all).len(),
        ours(all)[j] == (all[i].0@, label(all[i].1)),
    decreases all.len(),
{
    lemma_own(all.last().0@);
    if i == all.len() - 1 {
        ours(all).len() - 1
    } else {
        lemma_ours_has(all.drop_last(), i)
    }
}

/// Every sandbox whose name begins with `sodagun` is listed, whatever its state, and its row shows
/// its name and the word for that state.
pub proof fn law_every_own_sandbox_is_listed(
    all: Vec<(String, SandboxStatus)>,
    rows: Vec<(String, String)>,
    hidden: usize,
    i: int,
) -> (j: int)
    requires
        call_ensures(list_sandboxes, (&all,), (rows, hidden)),
        0 <= i < all@.len(),
        own(all@[i].0@),
    ensures
        0 <= j < rows@.len(),
        rows@[j].0@ == all@[i].0@,
        all@[i].1 == SandboxStatus::Running ==> rows@[j].1@ == "running"@,
        all@[i].1 == SandboxStatus::Draining ==> rows@[j].1@ == "draining"@,
        all@[i].1 == SandboxStatus::Paused ==> rows@[j].1@ == "paused"@,
        all@[i].1 == SandboxStatus::Stopped ==> rows@[j].1@ == "stopped"@,
        all@[i].1 == SandboxStatus::Crashed ==> rows@[j].1@ == "crashed"@,
{
    let j = lemma_ours_has(all@, i);
    assert(row_texts(rows@)[j] == (rows@[j].0@, rows@[j].1@));
    j
}

proof fn lemma_ours_from(all: Seq<(String, SandboxStatus)>, j: int) -> (i: int)
    requires
        0 <= j < ours(all).len(),
    ensures
        0 <= i < all.len(),
        own(all[i].0@),
        ours(all)[j].0 == all[i].0@,
    decreases all.len(),
{
    lemma_own(all.last().0@);
    let before = ours(all.drop_last());
    if j < before.len() {
        assert(ours(all)[j] == before[j]);
        lemma_ours_from(all.drop_last(), j)
    } else {
        all.len() - 1
    }
}

/// Every row is that of a sandbox whose name begins with `sodagun`.
pub proof fn law_no_other_sandbox_is_listed(
    all: Vec<(String, SandboxStatus)>,
    rows: Vec<(String, String)>,
    hidden: usize,
    j: int,
) -> (i: int)
    requires
        call_ensures(list_sandboxes, (&all,), (rows, hidden)),
        0 <= j < rows@.len(),
    ensures
        0 <= i < all@.len(),
        own(all@[i].0@),
        rows@[j].0@ == all@[i].0@,
{
    assert(row_texts(rows@)[j] == (rows@[j].0@, rows@[j].1@));
    lemma_ours_from(all@, j)
}

/// There are as many rows as there are sandboxes whose names begin with `sodagun`, and all others
/// are counted as hidden.
pub proof fn law_listed_and_hidden_are_all(
    all: Vec<(String, SandboxStatus)>,
    rows: Vec<(String, String)>,
    hidden: usize,
)
    requires
        call_ensures(list_sandboxes, (&all,), (rows, hidden)),
    ensures
        rows@.len() == all@.filter(|s: (String, SandboxStatus)| own(s.0@)).len(),
        hidden == all@.filter(|s: (String, SandboxStatus)| !own(s.0@)).len(),
        rows@.len() + hidden == all@.len(),
{
    lemma_counts(all@);
    assert(row_texts(rows@).len() == rows@.len());
}

proof fn lemma_counts(all: Seq<(String, SandboxStatus)>)
    ensures
        ours(all).len() == all.filter(|s: (String, SandboxStatus)| own(s.0@)).len(),
        all.len() - ours(all).len() == all.filter(
            |s: (String, SandboxStatus)| !own(s.0@),
        ).len(),
    decreases all.len(),
{
    reveal(Seq::filter);
    if all.len() > 0 {
        lemma_own(all.last().0@);
        lemma_counts(all.drop_last());
    }
}

/// The list keeps the order of the sandboxes: the list of two lots is the list of the first and
/// then that of the second, name for name and state for state.
pub proof fn law_list_keeps_order(
    first: Vec<(String, SandboxStatus)>,
    second: Vec<(String, SandboxStatus)>,
    both: Vec<(String, SandboxStatus)>,
    r: (Vec<(String, String)>, usize),
    r1: (Vec<(String, String)>, usize),
    r2: (Vec<(String, String)>, usize),
)
    requires
        both@ == first@ + second@,
        call_ensures(list_sandboxes, (&first,), r1),
        call_ensures(list_sandboxes, (&second,), r2),
        call_ensures(list_sandboxes, (&both,), r),
    ensures
        r.0@.len() == r1.0@.len() + r2.0@.len(),
        r.1 == r1.1 + r2.1,
        forall|i: int|
            0 <= i < r1.0@.len() ==> (#[trigger] r.0@[i]).0@ == r1.0@[i].0@ && r.0@[i].1@
                == r1.0@[i].1@,
        forall|i: int|
            0 <= i < r2.0@.len() ==> r.0@[r1.0@.len() + i].0@ == (#[trigger] r2.0@[i]).0@
                && r.0@[r1.0@.len() + i].1@ == r2.0@[i].1@,
{
    lemma_list_keeps_order(first@, second@);
    let n = r1.0@.len() as int;
    let t = row_texts(r.0@);
    let t1 = row_texts(r1.0@);
    let t2 = row_texts(r2.0@);
    assert(t == t1 + t2);
    assert(t.len() == r.0@.len() && t1.len() == n && t2.len() == r2.0@.len());
    assert forall|i: int| 0 <= i < n implies (#[trigger] r.0@[i]).0@ == r1.0@[i].0@
        && r.0@[i].1@ == r1.0@[i].1@ by {
        assert(t[i] == t1[i]);
    }
    assert forall|i: int| 0 <= i < r2.0@.len() implies r.0@[n + i].0@ == (
    #[trigger] r2.0@[i]).0@ && r.0@[n + i].1@ == r2.0@[i].1@ by {
        assert(t[n + i] == t2[i]);
    }
}

proof fn lemma_list_keeps_order(
    first: Seq<(String, SandboxStatus)>,
    second: Seq<(String, SandboxStatus)>,
)
    ensures
        ours(first + second) == ours(first) + ours(second),
    decreases second.len(),
{
    if second.len() == 0 {
        assert(first + second =~= first);
        assert(ours(first) + ours(second) =~= ours(first));
    } else {
        lemma_list_keeps_order(first, second.drop_last());
        assert((first + second).drop_last() =~= first + second.drop_last());
        assert((first + second).last() == second.last());
        assert(ours(first + second) =~= ours(first) + ours(second));
    }
}

proof fn lemma_width(rows: Seq<(Seq<char>, Seq<char>)>, i: int)
    requires
        0 <= i < rows.len(),
        forall|k: int|
            0 <= k < rows.len() ==> encode_utf8((#[trigger] rows[k]).0).len() <= usize::MAX,
    ensures
        encode_utf8(rows[i].0).len() <= name_width(rows),
    decreases rows.len(),
{
    if i < rows.len() - 1 {
        let init = rows.drop_last();
        assert forall|k: int| 0 <= k < init.len() implies encode_utf8(
            (#[trigger] init[k]).0,
        ).len() <= usize::MAX by {
            assert(init[k] == rows[k]);
        }
        lemma_width(init, i);
    }
}

/// The printed list has a heading and then one line for each row, in the order of the rows. The
/// line of a row is its name, then two spaces or more, and then its state.
pub proof fn law_each_line_shows_its_row(
    rows: Vec<(String, String)>,
    lines: Vec<String>,
    i: int,
) -> (gap: Seq<char>)
    requires
        call_ensures(list_lines, (&rows,), lines),
        0 <= i < rows@.len(),
    ensures
        lines@.len() == rows@.len() + 1,
        lines@[i + 1]@ == rows@[i].0@ + gap + rows@[i].1@,
        gap.len() >= 2,
        forall|k: int| 0 <= k < gap.len() ==> gap[k] == ' ',
{
    reveal_strlit("  ");
    let rows = rows@;
    let lines = lines@;
    let all = row_texts(rows);
    let width = name_width(all) as nat;
    assert(texts(lines).len() == lines.len());
    assert(texts(lines)[i + 1] == lines[i + 1]@);
    assert(list_text(all)[i + 1] == list_line(all[i], width));
    let name = rows[i].0@;
    let blank = if name.len() < width {
        (width - name.len()) as nat
    } else {
        0
    };
    let gap = Seq::new(blank + 2, |k: int| ' ');
    assert(lines[i + 1]@ =~= name + gap + rows[i].1@);
    gap
}

/// The states stand below one another: where a name takes no more room than its bytes do, its
/// state begins in the same column as that of the heading, and the column of names is wide enough
/// for each.
pub proof fn law_states_are_aligned(rows: Vec<(String, String)>, lines: Vec<String>, i: int) -> (
    column: int)
    requires
        call_ensures(list_lines, (&rows,), lines),
        0 <= i < rows@.len(),
        forall|k: int|
            0 <= k < rows@.len() ==> encode_utf8((#[trigger] rows@[k]).0@).len() <= usize::MAX,
        rows@[i].0@.len() <= encode_utf8(rows@[i].0@).len(),
    ensures
        column >= encode_utf8(rows@[i].0@).len() + 2,
        0 <= column <= lines@[i + 1]@.len(),
        0 <= column <= lines@[0]@.len(),
        lines@[i + 1]@.skip(column) == rows@[i].1@,
        lines@[0]@.skip(column) == "STATUS"@,
{
    reveal_strlit("  ");
    reveal_strlit("NAME");
    let rows = rows@;
    let lines = lines@;
    let all = row_texts(rows);
    let width = name_width(all) as nat;
    assert forall|k: int| 0 <= k < all.len() implies encode_utf8((#[trigger] all[k]).0).len()
        <= usize::MAX by {
        assert(all[k].0 == rows[k].0@);
    }
    lemma_width(all, i);
    lemma_heading_fits(all);
    assert(texts(lines).len() == lines.len());
    assert(texts(lines)[i + 1] == lines[i + 1]@ && texts(lines)[0] == lines[0]@);
    assert(list_text(all)[i + 1] == list_line(all[i], width));
    assert(list_text(all)[0] == list_line(("NAME"@, "STATUS"@), width));
    assert(padded(all[i].0, width).len() == width);
    assert(padded("NAME"@, width).len() == width);
    assert(lines[i + 1]@.skip(width as int + 2) =~= rows[i].1@);
    assert(lines[0]@.skip(width as int + 2) =~= "STATUS"@);
    (width + 2) as int
}

proof fn lemma_heading_fits(rows: Seq<(Seq<char>, Seq<char>)>)
    ensures
        name_width(rows) >= 4,
    decreases rows.len(),
{
    if rows.len() > 0 {
        lemma_heading_fits(rows.drop_last());
    }
}

} // verus!
