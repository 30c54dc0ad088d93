//! Laws of paths.

use crate::laws::texts::law_has_char;
use crate::path::{
    is_absolute, join_path, last_separator, lemma_file_name_has_no_slash, path_directory,
    path_file_name, path_parent, settled,
};
use crate::text::{
    find_char, has_char, lemma_find_char, lemma_split_front, lemma_split_none, opt_text, split,
};
use vstd::prelude::*;

verus! {

/// A name that can stand as a step of a path.
pub open spec fn plain_name(name: Seq<char>) -> bool {
    name.len() > 0 && name != "."@ && name != ".."@ && !name.contains('/')
}

/// A path that ends neither in a slash nor in `/.`, and is not empty.
pub open spec fn plain_path(p: Seq<char>) -> bool {
    p.len() > 0 && p.last() != '/' && !(p.len() > 1 && p.last() == '.' && p[p.len() - 2] == '/')
}

/// A path extended by an absolute one is that one; extended by any other, it begins with the one
/// and ends in the other, with one slash between them and nothing else.
pub proof fn law_join(base: &str, more: &str, r: String)
    requires
        call_ensures(join_path, (base, more), r),
    ensures
        more@.len() > 0 && more@[0] == '/' ==> r@ == more@,
        !(more@.len() > 0 && more@[0] == '/') ==> {
            &&& base@.len() == 0 ==> r@ == more@
            &&& base@.len() > 0 && base@.last() == '/' ==> r@ == base@ + more@
            &&& base@.len() > 0 && base@.last() != '/' ==> r@ == base@ + seq!['/'] + more@
        },
{
    reveal_strlit("/");
    assert("/"@ =~= seq!['/']);
    if base@.len() == 0 {
        assert(base@ + more@ =~= more@);
    }
}

/// A path is absolute exactly where it begins with a slash.
pub proof fn law_absolute(p: &str, r: bool)
    requires
        call_ensures(is_absolute, (p,), r),
    ensures
        r <==> p@.len() > 0 && p@[0] == '/',
{
}

/// The final name of a path that was extended by a name is that name, and a final name holds no
/// slash.
pub proof fn law_final_name(base: Seq<char>, name: Seq<char>, p: &str, r: Option<String>)
    requires
        call_ensures(path_file_name, (p,), r),
        plain_name(name),
    ensures
        p@ == name ==> r is Some && r->0@ == name,
        p@ == base + seq!['/'] + name ==> r is Some && r->0@ == name,
        r is Some ==> !r->0@.contains('/') && r->0@.len() > 0,
{
    law_has_char(name, '/');
    lemma_file_name_has_no_slash(p@);
    if r is Some {
        law_has_char(r->0@, '/');
        lemma_steps(crate::text::split(p@, '/'));
    }
    crate::text::lemma_split_none(name, '/');
    crate::text::lemma_split_back(base, '/', name);
    if p@ == base + seq!['/'] + name {
        let pieces = crate::text::split(p@, '/');
        assert(pieces.last() == name);
    }
}

proof fn lemma_steps(pieces: Seq<Seq<char>>)
    ensures
        crate::path::last_step(pieces) matches Some(s) ==> s.len() > 0,
    decreases pieces.len(),
{
    if pieces.len() > 0 {
        lemma_steps(pieces.drop_last());
    }
}

proof fn lemma_last_separator(front: Seq<char>, name: Seq<char>)
    requires
        !name.contains('/'),
        front.len() == 0 || front.last() == '/',
    ensures
        last_separator(front + name) == front.len() - 1,
    decreases name.len(),
{
    let p = front + name;
    if name.len() == 0 {
        assert(p =~= front);
    } else {
        assert(name.contains(name.last()));
        assert(p.last() == name.last());
        assert(p.drop_last() =~= front + name.drop_last());
        assert(!name.drop_last().contains('/')) by {
            if name.drop_last().contains('/') {
                let k = choose|k: int|
                    0 <= k < name.drop_last().len() && name.drop_last()[k] == '/';
                assert(name[k] == '/');
            }
        }
        lemma_last_separator(front, name.drop_last());
    }
}

proof fn lemma_settled(front: Seq<char>, name: Seq<char>)
    requires
        plain_name(name),
        front.len() == 0 || front.last() == '/',
    ensures
        settled(front + name) == front + name,
{
    reveal_strlit(".");
    let p = front + name;
    assert(name.contains(name.last()));
    if name.len() == 1 {
        if name[0] == '.' {
            assert(name =~= "."@);
        }
    } else {
        assert(name.contains(name[name.len() - 2]));
        assert(p[p.len() - 2] == name[name.len() - 2]);
    }
}

/// The parent of a path that was extended by a name is the path: of `dir/name` it is `dir`, of
/// `/name` the root, and of a bare name the empty path. The root and the empty path have none.
pub proof fn law_parent(dir: Seq<char>, name: Seq<char>, p: &str, r: Option<String>)
    requires
        call_ensures(path_parent, (p,), r),
        plain_name(name),
        plain_path(dir),
    ensures
        p@ == dir + seq!['/'] + name ==> r is Some && r->0@ == dir,
        p@ == seq!['/'] + name ==> r is Some && r->0@ == "/"@,
        p@ == name ==> r is Some && r->0@.len() == 0,
        p@ == "/"@ || p@.len() == 0 ==> r is None,
{
    reveal_strlit("/");
    assert("/"@ =~= seq!['/']);
    let front = dir + seq!['/'];
    lemma_last_separator(front, name);
    lemma_settled(front, name);
    assert((front + name).take(dir.len() as int) =~= dir);
    let root = seq!['/'];
    lemma_last_separator(root, name);
    lemma_settled(root, name);
    let none = Seq::<char>::empty();
    lemma_last_separator(none, name);
    lemma_settled(none, name);
    assert(none + name =~= name);
    assert(name != "/"@) by {
        if name == "/"@ {
            assert(name[0] == '/');
            assert(name.contains('/'));
        }
    }
    if p@.len() == 0 {
        assert(settled(p@) == p@);
    }
}

/// Slashes and `.` at the end of a path make no difference to its final name, nor to its parent; a
/// path that ends in `..` has no final name.
pub proof fn law_ends_of_paths(
    p: &str,
    slashed: &str,
    dotted: &str,
    up: &str,
    name: Option<String>,
    of_slashed: Option<String>,
    of_dotted: Option<String>,
    of_up: Option<String>,
    dir: Option<String>,
    dir_slashed: Option<String>,
    dir_dotted: Option<String>,
)
    requires
        p@.len() > 0,
        slashed@ == p@ + seq!['/'] + Seq::empty(),
        dotted@ == p@ + seq!['/'] + "."@,
        up@ == p@ + seq!['/'] + ".."@,
        call_ensures(path_file_name, (p,), name),
        call_ensures(path_file_name, (slashed,), of_slashed),
        call_ensures(path_file_name, (dotted,), of_dotted),
        call_ensures(path_file_name, (up,), of_up),
        call_ensures(path_parent, (p,), dir),
        call_ensures(path_parent, (slashed,), dir_slashed),
        call_ensures(path_parent, (dotted,), dir_dotted),
    ensures
        opt_text(of_slashed) == opt_text(name),
        opt_text(of_dotted) == opt_text(name),
        of_up is None,
        opt_text(dir_slashed) == opt_text(dir),
        opt_text(dir_dotted) == opt_text(dir),
{
    reveal_strlit(".");
    reveal_strlit("..");
    let none = Seq::<char>::empty();
    assert(!has_char("."@, '/'));
    assert(!has_char(".."@, '/'));
    assert(!has_char(none, '/'));
    lemma_split_end(p@, none);
    lemma_split_end(p@, "."@);
    lemma_split_end(p@, ".."@);
    let pieces = split(p@, '/');
    assert(pieces.push(none).drop_last() =~= pieces);
    assert(pieces.push("."@).drop_last() =~= pieces);
    assert(slashed@.drop_last() =~= p@);
    assert(dotted@.drop_last() =~= slashed@);
    assert(settled(slashed@) == settled(p@));
    assert(settled(dotted@) == settled(slashed@));
}

proof fn lemma_split_end(s: Seq<char>, end: Seq<char>)
    requires
        !has_char(end, '/'),
    ensures
        split(s + seq!['/'] + end, '/') == split(s, '/').push(end),
    decreases s.len(),
{
    let all = s + seq!['/'] + end;
    lemma_find_char(s, '/');
    let k = find_char(s, '/') as int;
    if k < s.len() {
        let rest = s.skip(k + 1);
        lemma_split_end(rest, end);
        assert(s =~= s.take(k) + seq!['/'] + rest);
        assert(all =~= s.take(k) + seq!['/'] + (rest + seq!['/'] + end));
        assert(!has_char(s.take(k), '/')) by {
            if has_char(s.take(k), '/') {
                let j = choose|j: int| 0 <= j < k && s.take(k)[j] == '/';
                assert(s[j] == '/');
            }
        }
        lemma_split_front(s.take(k), '/', rest + seq!['/'] + end);
        assert(split(all, '/') =~= split(s, '/').push(end));
    } else {
        assert(!has_char(s, '/'));
        lemma_split_front(s, '/', end);
        lemma_split_none(end, '/');
        lemma_split_none(s, '/');
        assert(split(all, '/') =~= split(s, '/').push(end));
    }
}

/// Files that a file `dir/name` names lie beside it: its directory is `dir`; that of a bare name is
/// the empty path.
pub proof fn law_directory(dir: Seq<char>, name: Seq<char>, p: &str, r: String, up: Option<String>)
    requires
        call_ensures(path_directory, (p,), r),
        call_ensures(path_parent, (p,), up),
        plain_name(name),
        plain_path(dir),
    ensures
        p@ == dir + seq!['/'] + name ==> r@ == dir,
        p@ == name ==> r@.len() == 0,
        up is Some ==> r@ == up->0@,
        up is None ==> r@ == "."@,
{
    law_parent(dir, name, p, up);
}

} // verus!
