//! Unix paths, as text: joining, taking apart, naming.

use crate::text::{chars_of, same_text, split, split_text, texts};
use vstd::prelude::*;

verus! {

/// Whether a path starts at the root.
pub open spec fn absolute(p: Seq<char>) -> bool {
    p.len() > 0 && p[0] == '/'
}

/// `base` extended by `more`; an absolute `more` stands alone.
pub open spec fn join(base: Seq<char>, more: Seq<char>) -> Seq<char> {
    if absolute(more) {
        more
    } else if base.len() == 0 || base.last() == '/' {
        base + more
    } else {
        base + "/"@ + more
    }
}

/// Whether a piece of a path stands for a step: neither empty nor `.`.
pub open spec fn is_step(piece: Seq<char>) -> bool {
    piece.len() > 0 && piece != "."@
}

/// The last of the pieces that stand for a step.
pub open spec fn last_step(pieces: Seq<Seq<char>>) -> Option<Seq<char>>
    decreases pieces.len(),
{
    if pieces.len() == 0 {
        None
    } else if is_step(pieces.last()) {
        Some(pieces.last())
    } else {
        last_step(pieces.drop_last())
    }
}

/// The final name of a path; a path that ends in `..`, or has no steps, has none.
pub open spec fn file_name(p: Seq<char>) -> Option<Seq<char>> {
    match last_step(split(p, '/')) {
        Some(name) => if name == ".."@ {
            None
        } else {
            Some(name)
        },
        None => None,
    }
}

/// `p` without the separators and `.` steps at its end.
pub open spec fn settled(p: Seq<char>) -> Seq<char>
    decreases p.len(),
{
    if p.len() > 1 && (p.last() == '/' || (p.last() == '.' && p[p.len() - 2] == '/')) {
        settled(p.drop_last())
    } else {
        p
    }
}

/// The position of the last separator of `p`, or -1.
pub open spec fn last_separator(p: Seq<char>) -> int
    decreases p.len(),
{
    if p.len() == 0 || p.last() == '/' {
        p.len() - 1
    } else {
        last_separator(p.drop_last())
    }
}

/// `p` without its last step; the root and the empty path have no parent.
pub open spec fn parent(p: Seq<char>) -> Option<Seq<char>> {
    let s = settled(p);
    let k = last_separator(s);
    if s.len() == 0 || s == "/"@ {
        None
    } else if k < 0 {
        Some(Seq::empty())
    } else if k == 0 {
        Some("/"@)
    } else {
        Some(settled(s.take(k)))
    }
}

/// The directory that paths in the file `p` are relative to.
pub open spec fn directory_of(p: Seq<char>) -> Seq<char> {
    match parent(p) {
        Some(d) => d,
        None => "."@,
    }
}

/// No piece of a split text holds the separator.
proof fn lemma_pieces_have_no_separator(s: Seq<char>, c: char, i: int)
    requires
        0 <= i < split(s, c).len(),
    ensures
        !crate::text::has_char(split(s, c)[i], c),
    decreases s.len(),
{
    crate::text::lemma_find_char(s, c);
    let k = crate::text::find_char(s, c) as int;
    if k < s.len() {
        if i > 0 {
            lemma_pieces_have_no_separator(s.skip(k + 1), c, i - 1);
        }
    }
}

/// The last step of pieces is one of the pieces.
proof fn lemma_last_step_is_a_piece(pieces: Seq<Seq<char>>)
    ensures
        last_step(pieces) matches Some(p) ==> pieces.contains(p),
    decreases pieces.len(),
{
    if pieces.len() > 0 {
        if is_step(pieces.last()) {
            assert(pieces[pieces.len() - 1] == pieces.last());
        } else {
            lemma_last_step_is_a_piece(pieces.drop_last());
            if let Some(p) = last_step(pieces.drop_last()) {
                let k = choose|k: int|
                    0 <= k < pieces.drop_last().len() && pieces.drop_last()[k] == p;
                assert(pieces[k] == p);
            }
        }
    }
}

/// A final name holds no slash.
pub proof fn lemma_file_name_has_no_slash(p: Seq<char>)
    ensures
        file_name(p) matches Some(n) ==> !crate::text::has_char(n, '/'),
{
    let pieces = split(p, '/');
    lemma_last_step_is_a_piece(pieces);
    if let Some(n) = last_step(pieces) {
        let k = choose|k: int| 0 <= k < pieces.len() && pieces[k] == n;
        lemma_pieces_have_no_separator(p, '/', k);
    }
}

/// The final name of a path that was extended by a name is that name.
pub proof fn lemma_joined_file_name(base: Seq<char>, name: Seq<char>)
    requires
        is_step(name),
        name != ".."@,
        !crate::text::has_char(name, '/'),
    ensures
        file_name(join(base, name)) == Some(name),
{
    reveal_strlit("/");
    assert(!absolute(name)) by {
        if absolute(name) {
            assert(name[0] == '/');
        }
    }
    let p = join(base, name);
    if base.len() == 0 {
        assert(p =~= name);
        crate::text::lemma_split_none(name, '/');
    } else {
        let front = if base.last() == '/' {
            base.drop_last()
        } else {
            base
        };
        assert(p =~= front + seq!['/'] + name);
        crate::text::lemma_split_back(front, '/', name);
    }
}

/// Whether `p` starts at the root.
pub fn is_absolute(p: &str) -> (r: bool)
    ensures
        r == absolute(p@),
{
    p.unicode_len() > 0 && p.get_char(0) == '/'
}

/// `base` extended by `more`.
pub fn join_path(base: &str, more: &str) -> (r: String)
    ensures
        r@ == join(base@, more@),
{
    let n = base.unicode_len();
    if is_absolute(more) {
        more.to_owned()
    } else if n == 0 || base.get_char(n - 1) == '/' {
        base.to_owned().concat(more)
    } else {
        base.to_owned().concat("/").concat(more)
    }
}

/// The final name of a path.
pub fn path_file_name(p: &str) -> (r: Option<String>)
    ensures
        crate::text::opt_text(r) == file_name(p@),
{
    let pieces = split_text(p, '/');
    let ghost all = texts(pieces@);
    let mut i = pieces.len();
    assert(all.take(i as int) =~= all);
    while i > 0
        invariant
            i <= pieces.len(),
            all == texts(pieces@),
            all == split(p@, '/'),
            last_step(all.take(i as int)) == last_step(all),
        decreases i,
    {
        let piece = &pieces[i - 1];
        assert(all.take(i as int).last() == piece@);
        assert(all.take(i as int).drop_last() =~= all.take(i - 1));
        if !piece.as_str().is_empty() && !same_text(piece.as_str(), ".") {
            if same_text(piece.as_str(), "..") {
                return None;
            }
            return Some(piece.as_str().to_owned());
        }
        i -= 1;
    }
    None
}

/// The number of characters of the settled form of the first `n` characters of `chars`.
fn settled_len(chars: &Vec<char>, n: usize) -> (r: usize)
    requires
        n <= chars.len(),
    ensures
        r <= n,
        chars@.take(r as int) == settled(chars@.take(n as int)),
{
    let mut r = n;
    while r > 1 && (chars[r - 1] == '/' || (chars[r - 1] == '.' && chars[r - 2] == '/'))
        invariant
            r <= n <= chars.len(),
            settled(chars@.take(r as int)) == settled(chars@.take(n as int)),
        decreases r,
    {
        assert(chars@.take(r as int).drop_last() =~= chars@.take(r - 1));
        r -= 1;
    }
    r
}

/// `p` without its last step.
pub fn path_parent(p: &str) -> (r: Option<String>)
    ensures
        crate::text::opt_text(r) == parent(p@),
{
    let chars = chars_of(p);
    assert(chars@.take(chars@.len() as int) =~= p@);
    let n = settled_len(&chars, chars.len());
    let ghost s = chars@.take(n as int);
    proof {
        reveal_strlit("/");
        if n == 1 && chars@[0] == '/' {
            assert(s =~= "/"@);
        }
    }
    if n == 0 || (n == 1 && chars[0] == '/') {
        return None;
    }
    let mut k = n;
    assert(s.take(k as int) =~= s);
    while k > 0 && chars[k - 1] != '/'
        invariant
            k <= n <= chars.len(),
            s == chars@.take(n as int),
            last_separator(s.take(k as int)) == last_separator(s),
        decreases k,
    {
        assert(s.take(k as int).drop_last() =~= s.take(k - 1));
        k -= 1;
    }
    if k == 0 {
        let none = String::new();
        assert(none@ =~= Seq::empty());
        return Some(none);
    }
    if k == 1 {
        return Some("/".to_owned());
    }
    let m = settled_len(&chars, k - 1);
    assert(s.take(k - 1) =~= chars@.take(k - 1));
    assert(p@.subrange(0, m as int) =~= chars@.take(m as int));
    Some(crate::text::part(p, 0, m))
}

/// The directory that paths in the file `p` are relative to.
pub fn path_directory(p: &str) -> (r: String)
    ensures
        r@ == directory_of(p@),
{
    match path_parent(p) {
        Some(d) => d,
        None => ".".to_owned(),
    }
}

} // verus!
