//! The names of snapshots.

use crate::config::merge::prefer;
use crate::config::{ImageConfig, SetupFile};
use crate::digest::{content_tag, is_tag, tag_of};
use crate::text::{
    codes, lemma_lex_le_total, lemma_lex_le_transitive, lemma_text_le_codes, lex_le, opt_text,
    text_at_most, text_le,
};
use crate::util::{dashed, dashify};
use vstd::prelude::*;
use vstd::relations::{
    antisymmetric, reflexive, sorted_by, strongly_connected, total_ordering, transitive,
};
use vstd::utf8::encode_utf8;

verus! {

// ── Snapshot names ────────────────────────────────────────────────────────────

/// Name and content of a setup file.
pub open spec fn file_model(f: SetupFile) -> (Seq<char>, Seq<u8>) {
    (f.name@, f.content@)
}

/// Names and contents of setup files.
pub open spec fn file_models(files: Seq<SetupFile>) -> Seq<(Seq<char>, Seq<u8>)> {
    Seq::new(files.len(), |i: int| file_model(files[i]))
}

/// `sorted` with `f` put behind every file whose name does not come after its own.
pub open spec fn placed(sorted: Seq<(Seq<char>, Seq<u8>)>, f: (Seq<char>, Seq<u8>)) -> Seq<
    (Seq<char>, Seq<u8>),
>
    decreases sorted.len(),
{
    if sorted.len() == 0 || text_le(sorted.last().0, f.0) {
        sorted.push(f)
    } else {
        placed(sorted.drop_last(), f).push(sorted.last())
    }
}

/// Files in the order of their names; files of one name keep their order.
pub open spec fn by_name(files: Seq<(Seq<char>, Seq<u8>)>) -> Seq<(Seq<char>, Seq<u8>)>
    decreases files.len(),
{
    if files.len() == 0 {
        files
    } else {
        placed(by_name(files.drop_last()), files.last())
    }
}

/// Names and contents one after the other.
pub open spec fn file_bytes(files: Seq<(Seq<char>, Seq<u8>)>) -> Seq<u8>
    decreases files.len(),
{
    if files.len() == 0 {
        Seq::empty()
    } else {
        file_bytes(files.drop_last()) + encode_utf8(files.last().0) + files.last().1
    }
}

/// What a snapshot is made from: the script, then the files in the order of their names.
pub open spec fn setup_bytes(script: Seq<char>, files: Seq<(Seq<char>, Seq<u8>)>) -> Seq<u8> {
    encode_utf8(script) + file_bytes(by_name(files))
}

/// A base's name, without separators, and a tag.
pub open spec fn tagged(base: Seq<char>, tag: Seq<char>) -> Seq<char> {
    dashed(base) + "_"@ + tag
}

/// The name of the snapshot that a script and files make from `base`.
pub open spec fn snapshot_named(
    base: Seq<char>,
    script: Seq<char>,
    files: Seq<(Seq<char>, Seq<u8>)>,
) -> Seq<char> {
    tagged(base, content_tag(setup_bytes(script, files)))
}

/// What an image starts from.
pub open spec fn base_of(image: ImageConfig) -> Seq<char> {
    match prefer(image.base_image, image.base_snapshot) {
        Some(b) => b@,
        None => Seq::empty(),
    }
}

impl ImageConfig {
    /// The name of the snapshot that this configuration makes; there is none without a setup
    /// script.
    pub open spec fn snapshot(&self) -> Option<Seq<char>> {
        match self.setup_script {
            Some(script) => Some(
                snapshot_named(base_of(*self), script@, file_models(self.setup_files@)),
            ),
            None => None,
        }
    }

    /// The name of the snapshot that this configuration makes.
    pub fn derived_snapshot_name(&self) -> (r: Option<String>)
        ensures
            opt_text(r) == self.snapshot(),
    {
        match &self.setup_script {
            Some(script) => {
                let base = self.base();
                Some(snapshot_name(base.as_str(), script.as_str(), self.setup_files.as_slice()))
            },
            None => None,
        }
    }

    /// What this image starts from.
    pub fn base(&self) -> (r: String)
        ensures
            r@ == base_of(*self),
    {
        match &self.base_image {
            Some(b) => b.clone(),
            None => match &self.base_snapshot {
                Some(b) => b.clone(),
                None => {
                    let none = String::new();
                    assert(none@ =~= Seq::empty());
                    none
                },
            },
        }
    }
}

/// The name of the snapshot that a script and files make from `base`: the base, `_` and twelve
/// URL-safe characters that stand for script and files.
pub fn snapshot_name(base: &str, script: &str, setup_files: &[SetupFile]) -> (r: String)
    ensures
        r@ == snapshot_named(base@, script@, file_models(setup_files@)),
        r@.take(dashed(base@).len() as int + 1) == dashed(base@) + "_"@,
        is_tag(r@.skip(dashed(base@).len() as int + 1)),
{
    let bytes = collect_setup(script, setup_files);
    let tag = tag_of(bytes.as_slice());
    let r = snapshot_name_as(base, tag.as_str());
    proof {
        reveal_strlit("_");
        let n = dashed(base@).len() as int + 1;
        assert(r@.take(n) =~= dashed(base@) + "_"@);
        assert(r@.skip(n) =~= tag@);
    }
    r
}

/// The name of the snapshot whose script and files `tag` stands for.
pub fn snapshot_name_as(base: &str, tag: &str) -> (r: String)
    ensures
        r@ == tagged(base@, tag@),
{
    dashify(base).concat("_").concat(tag)
}

/// The positions of files in the order of the files' names.
fn name_order(files: &[SetupFile]) -> (order: Vec<usize>)
    ensures
        order@.len() == files@.len(),
        forall|i: int| 0 <= i < order@.len() ==> (#[trigger] order@[i]) < files@.len(),
        by_name(file_models(files@)) == Seq::new(
            order@.len(),
            |i: int| file_model(files@[order@[i] as int]),
        ),
{
    let ghost all = file_models(files@);
    let mut order: Vec<usize> = Vec::new();
    let mut i: usize = 0;
    assert(all.take(0) =~= Seq::empty());
    while i < files.len()
        invariant
            i <= files.len(),
            all == file_models(files@),
            order@.len() == i,
            forall|j: int| 0 <= j < order@.len() ==> (#[trigger] order@[j]) < i,
            by_name(all.take(i as int)) =~= Seq::new(
                order@.len(),
                |j: int| file_model(files@[order@[j] as int]),
            ),
        decreases files.len() - i,
    {
        let ghost sorted = by_name(all.take(i as int));
        let ghost f = all[i as int];
        let mut k = order.len();
        proof {
            assert(all.take(i + 1).drop_last() =~= all.take(i as int));
            assert(sorted.take(k as int) =~= sorted);
            assert(sorted.skip(k as int) =~= Seq::empty());
            assert(placed(sorted, f) =~= placed(sorted.take(k as int), f) + sorted.skip(k as int));
        }
        while k > 0 && !text_at_most(files[order[k - 1]].name.as_str(), files[i].name.as_str())
            invariant
                k <= order@.len(),
                i < files@.len(),
                order@.len() == i,
                all == file_models(files@),
                f == all[i as int],
                forall|j: int| 0 <= j < order@.len() ==> (#[trigger] order@[j]) < i,
                sorted =~= Seq::new(order@.len(), |j: int| file_model(files@[order@[j] as int])),
                placed(sorted, f) == placed(sorted.take(k as int), f) + sorted.skip(k as int),
            decreases k,
        {
            proof {
                let head = sorted.take(k as int);
                assert(head.last() == file_model(files@[order@[k - 1] as int]));
                assert(head.drop_last() =~= sorted.take(k - 1));
                assert(placed(head, f) == placed(sorted.take(k - 1), f).push(sorted[k - 1]));
                assert(placed(head, f) + sorted.skip(k as int) =~= placed(sorted.take(k - 1), f)
                    + sorted.skip(k - 1));
            }
            k -= 1;
        }
        proof {
            let head = sorted.take(k as int);
            if k > 0 {
                assert(head.last() == file_model(files@[order@[k - 1] as int]));
            }
            assert(placed(head, f) == head.push(f));
            assert(placed(sorted, f) =~= sorted.insert(k as int, f));
        }
        let ghost before = order@;
        order.insert(k, i);
        proof {
            assert(all.take(i + 1).last() == f);
            assert(by_name(all.take(i + 1)) == placed(sorted, f));
            assert(Seq::new(order@.len(), |j: int| file_model(files@[order@[j] as int]))
                =~= sorted.insert(k as int, f));
        }
        i += 1;
    }
    assert(all.take(i as int) =~= all);
    order
}

/// What a snapshot is made from.
fn collect_setup(script: &str, files: &[SetupFile]) -> (r: Vec<u8>)
    ensures
        r@ == setup_bytes(script@, file_models(files@)),
{
    let order = name_order(files);
    let ghost sorted = by_name(file_models(files@));
    let mut bytes: Vec<u8> = Vec::new();
    bytes.extend_from_slice(script.as_bytes());
    let mut i: usize = 0;
    assert(file_bytes(sorted.take(0)) =~= Seq::empty());
    assert(bytes@ =~= encode_utf8(script@) + file_bytes(sorted.take(0)));
    while i < order.len()
        invariant
            i <= order.len(),
            order@.len() == files@.len(),
            forall|j: int| 0 <= j < order@.len() ==> (#[trigger] order@[j]) < files@.len(),
            sorted =~= Seq::new(order@.len(), |j: int| file_model(files@[order@[j] as int])),
            bytes@ == encode_utf8(script@) + file_bytes(sorted.take(i as int)),
        decreases order.len() - i,
    {
        let f = &files[order[i]];
        let ghost before = bytes@;
        bytes.extend_from_slice(f.name.as_str().as_bytes());
        bytes.extend_from_slice(f.content.as_slice());
        proof {
            assert(sorted.take(i + 1).drop_last() =~= sorted.take(i as int));
            assert(sorted.take(i + 1).last() == file_model(*f));
            assert(bytes@ =~= before + encode_utf8(f.name@) + f.content@);
            assert(before + encode_utf8(f.name@) + f.content@ =~= encode_utf8(script@)
                + file_bytes(sorted.take(i + 1)));
        }
        i += 1;
    }
    assert(sorted.take(i as int) =~= sorted);
    bytes
}

// ── Laws of snapshot names ────────────────────────────────────────────────────

/// The order of files by name and then by content.
pub open spec fn file_le(a: (Seq<char>, Seq<u8>), b: (Seq<char>, Seq<u8>)) -> bool {
    if a.0 != b.0 {
        text_le(a.0, b.0)
    } else {
        lex_le(byte_values(a.1), byte_values(b.1))
    }
}

/// The numbers of some bytes.
pub open spec fn byte_values(bytes: Seq<u8>) -> Seq<nat> {
    Seq::new(bytes.len(), |i: int| bytes[i] as nat)
}

/// Whether files of one name have one content.
pub open spec fn names_settle_contents(files: Seq<(Seq<char>, Seq<u8>)>) -> bool {
    forall|i: int, j: int|
        0 <= i < files.len() && 0 <= j < files.len() && (#[trigger] files[i]).0 == (
        #[trigger] files[j]).0 ==> files[i].1 == files[j].1
}

proof fn lemma_byte_values(a: Seq<u8>, b: Seq<u8>)
    ensures
        byte_values(a) == byte_values(b) ==> a == b,
{
    if byte_values(a) == byte_values(b) {
        assert(byte_values(a).len() == byte_values(b).len());
        assert forall|i: int| 0 <= i < a.len() implies a[i] == b[i] by {
            assert(byte_values(a)[i] == byte_values(b)[i]);
        }
        assert(a =~= b);
    }
}

proof fn lemma_file_le_total(a: (Seq<char>, Seq<u8>), b: (Seq<char>, Seq<u8>))
    ensures
        file_le(a, b) || file_le(b, a),
        file_le(a, b) && file_le(b, a) ==> a == b,
{
    lemma_text_le_codes(a.0, b.0);
    lemma_text_le_codes(b.0, a.0);
    lemma_lex_le_total(codes(a.0), codes(b.0));
    lemma_lex_le_total(byte_values(a.1), byte_values(b.1));
    lemma_byte_values(a.1, b.1);
}

proof fn lemma_file_le_transitive(
    a: (Seq<char>, Seq<u8>),
    b: (Seq<char>, Seq<u8>),
    c: (Seq<char>, Seq<u8>),
)
    requires
        file_le(a, b),
        file_le(b, c),
    ensures
        file_le(a, c),
{
    lemma_text_le_codes(a.0, b.0);
    lemma_text_le_codes(b.0, c.0);
    lemma_text_le_codes(a.0, c.0);
    lemma_text_le_codes(c.0, b.0);
    lemma_text_le_codes(b.0, a.0);
    if a.0 == b.0 && b.0 == c.0 {
        lemma_lex_le_transitive(byte_values(a.1), byte_values(b.1), byte_values(c.1));
    } else if a.0 != b.0 && b.0 != c.0 {
        lemma_lex_le_transitive(codes(a.0), codes(b.0), codes(c.0));
        if a.0 == c.0 {
            lemma_lex_le_total(codes(a.0), codes(b.0));
        }
    }
}

proof fn lemma_file_order()
    ensures
        total_ordering(|a: (Seq<char>, Seq<u8>), b: (Seq<char>, Seq<u8>)| file_le(a, b)),
{
    let le = |a: (Seq<char>, Seq<u8>), b: (Seq<char>, Seq<u8>)| file_le(a, b);
    assert forall|a: (Seq<char>, Seq<u8>), b: (Seq<char>, Seq<u8>)|
        #[trigger] le(a, b) || le(b, a) by {
        lemma_file_le_total(a, b);
    }
    assert forall|a: (Seq<char>, Seq<u8>), b: (Seq<char>, Seq<u8>)| #[trigger]
        le(a, b) && #[trigger] le(b, a) implies a == b by {
        lemma_file_le_total(a, b);
    }
    assert forall|a: (Seq<char>, Seq<u8>), b: (Seq<char>, Seq<u8>), c: (Seq<char>, Seq<u8>)|
        #[trigger] le(a, b) && #[trigger] le(b, c) implies le(a, c) by {
        lemma_file_le_transitive(a, b, c);
    }
    assert(reflexive(le));
    assert(antisymmetric(le));
    assert(transitive(le));
    assert(strongly_connected(le));
}

/// Placing a file adds just that file.
proof fn lemma_placed_multiset(sorted: Seq<(Seq<char>, Seq<u8>)>, f: (Seq<char>, Seq<u8>))
    ensures
        placed(sorted, f).to_multiset() == sorted.to_multiset().insert(f),
        placed(sorted, f).len() == sorted.len() + 1,
    decreases sorted.len(),
{
    broadcast use vstd::seq_lib::group_to_multiset_ensures;
    broadcast use vstd::multiset::group_multiset_axioms;

    if sorted.len() > 0 && !text_le(sorted.last().0, f.0) {
        let init = sorted.drop_last();
        lemma_placed_multiset(init, f);
        assert(sorted =~= init.push(sorted.last()));
        assert(placed(sorted, f).to_multiset() =~= sorted.to_multiset().insert(f));
    }
}

/// Sorting keeps the files.
proof fn lemma_by_name_multiset(files: Seq<(Seq<char>, Seq<u8>)>)
    ensures
        by_name(files).to_multiset() == files.to_multiset(),
    decreases files.len(),
{
    broadcast use vstd::seq_lib::group_to_multiset_ensures;

    if files.len() > 0 {
        lemma_by_name_multiset(files.drop_last());
        lemma_placed_multiset(by_name(files.drop_last()), files.last());
        assert(files =~= files.drop_last().push(files.last()));
    }
}

/// Placing a file into files that are in order keeps them in order.
proof fn lemma_placed_sorted(sorted: Seq<(Seq<char>, Seq<u8>)>, f: (Seq<char>, Seq<u8>))
    requires
        names_in_order(sorted),
    ensures
        names_in_order(placed(sorted, f)),
        placed(sorted, f).len() == sorted.len() + 1,
        forall|i: int|
            0 <= i < placed(sorted, f).len() ==> (#[trigger] placed(sorted, f)[i] == f
                || sorted.contains(placed(sorted, f)[i])),
    decreases sorted.len(),
{
    let r = placed(sorted, f);
    if sorted.len() == 0 || text_le(sorted.last().0, f.0) {
        assert forall|i: int, j: int| 0 <= i <= j < r.len() implies text_le(
            (#[trigger] r[i]).0,
            (#[trigger] r[j]).0,
        ) by {
            if j == sorted.len() {
                if i == j {
                    lemma_text_le_codes(f.0, f.0);
                    lemma_lex_le_total(codes(f.0), codes(f.0));
                } else {
                    let last = sorted.last();
                    assert(text_le(sorted[i].0, sorted[sorted.len() - 1].0));
                    lemma_text_le_codes(sorted[i].0, last.0);
                    lemma_text_le_codes(last.0, f.0);
                    lemma_text_le_codes(sorted[i].0, f.0);
                    lemma_lex_le_transitive(codes(sorted[i].0), codes(last.0), codes(f.0));
                }
            } else {
                assert(r[i] == sorted[i] && r[j] == sorted[j]);
            }
        }
    } else {
        let init = sorted.drop_last();
        let last = sorted.last();
        assert forall|i: int, j: int| 0 <= i <= j < init.len() implies text_le(
            (#[trigger] init[i]).0,
            (#[trigger] init[j]).0,
        ) by {
            assert(text_le(sorted[i].0, sorted[j].0));
        }
        lemma_placed_sorted(init, f);
        let head = placed(init, f);
        lemma_text_le_codes(last.0, f.0);
        lemma_text_le_codes(f.0, last.0);
        lemma_lex_le_total(codes(last.0), codes(f.0));
        assert forall|i: int, j: int| 0 <= i <= j < r.len() implies text_le(
            (#[trigger] r[i]).0,
            (#[trigger] r[j]).0,
        ) by {
            if j == head.len() {
                if i == j {
                    lemma_text_le_codes(last.0, last.0);
                    lemma_lex_le_total(codes(last.0), codes(last.0));
                } else if head[i] != f {
                    let k = choose|k: int| 0 <= k < init.len() && init[k] == head[i];
                    assert(text_le(sorted[k].0, sorted[sorted.len() - 1].0));
                }
            } else {
                assert(text_le(head[i].0, head[j].0));
            }
        }
        assert forall|i: int| 0 <= i < r.len() implies (#[trigger] r[i] == f || sorted.contains(
            r[i],
        )) by {
            if i < head.len() {
                if head[i] != f {
                    let k = choose|k: int| 0 <= k < init.len() && init[k] == head[i];
                    assert(sorted[k] == r[i]);
                }
            } else {
                assert(sorted[sorted.len() - 1] == r[i]);
            }
        }
    }
}

/// Whether files stand in the order of their names.
pub open spec fn names_in_order(files: Seq<(Seq<char>, Seq<u8>)>) -> bool {
    forall|i: int, j: int|
        0 <= i <= j < files.len() ==> text_le((#[trigger] files[i]).0, (#[trigger] files[j]).0)
}

/// Sorting puts files in the order of their names, and keeps just the files given.
pub proof fn law_by_name_sorts(files: Seq<(Seq<char>, Seq<u8>)>)
    ensures
        names_in_order(by_name(files)),
        by_name(files).to_multiset() == files.to_multiset(),
    decreases files.len(),
{
    lemma_by_name_multiset(files);
    if files.len() > 0 {
        law_by_name_sorts(files.drop_last());
        lemma_placed_sorted(by_name(files.drop_last()), files.last());
    }
}

/// The name of a snapshot does not depend on the order in which its files are listed, provided
/// that files of one name have one content.
pub proof fn law_snapshot_name_ignores_file_order(
    base: Seq<char>,
    script: Seq<char>,
    files: Seq<(Seq<char>, Seq<u8>)>,
    listed: Seq<(Seq<char>, Seq<u8>)>,
)
    requires
        files.to_multiset() == listed.to_multiset(),
        names_settle_contents(files),
    ensures
        snapshot_named(base, script, files) == snapshot_named(base, script, listed),
{
    let le = |a: (Seq<char>, Seq<u8>), b: (Seq<char>, Seq<u8>)| file_le(a, b);
    lemma_file_order();
    lemma_sorted_by_file(files, files);
    lemma_sorted_by_file(files, listed);
    law_by_name_sorts(files);
    law_by_name_sorts(listed);
    vstd::seq_lib::lemma_sorted_unique(by_name(files), by_name(listed), le);
}

/// Sorted by name, files are sorted by name and content.
proof fn lemma_sorted_by_file(
    files: Seq<(Seq<char>, Seq<u8>)>,
    listed: Seq<(Seq<char>, Seq<u8>)>,
)
    requires
        files.to_multiset() == listed.to_multiset(),
        names_settle_contents(files),
    ensures
        sorted_by(
            by_name(listed),
            |a: (Seq<char>, Seq<u8>), b: (Seq<char>, Seq<u8>)| file_le(a, b),
        ),
{
    broadcast use vstd::seq_lib::group_to_multiset_ensures;

    let le = |a: (Seq<char>, Seq<u8>), b: (Seq<char>, Seq<u8>)| file_le(a, b);
    law_by_name_sorts(listed);
    let s = by_name(listed);
    assert forall|i: int, j: int| 0 <= i < j < s.len() implies #[trigger] le(s[i], s[j]) by {
        assert(text_le(s[i].0, s[j].0));
        if s[i].0 == s[j].0 {
            assert(s.to_multiset().count(s[i]) > 0);
            assert(s.to_multiset().count(s[j]) > 0);
            assert(files.contains(s[i]) && files.contains(s[j]));
            let a = choose|a: int| 0 <= a < files.len() && files[a] == s[i];
            let b = choose|b: int| 0 <= b < files.len() && files[b] == s[j];
            assert(files[a].1 == files[b].1);
            lemma_lex_le_total(byte_values(s[i].1), byte_values(s[j].1));
        }
    }
}

} // verus!
