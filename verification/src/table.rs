//! A map from names to values that remembers the order in which names were added.

use crate::text::same_text;
use vstd::prelude::*;

verus! {

/// A map keyed by text. A name occurs at most once; entries stand in the order in which
/// their names first came in.
#[derive(Debug)]
pub struct Table<V> {
    entries: Vec<(String, V)>,
}

/// Whether `key` is the name of an entry.
pub open spec fn has_key<V>(pairs: Seq<(Seq<char>, V)>, key: Seq<char>) -> bool {
    exists|i: int| 0 <= i < pairs.len() && (#[trigger] pairs[i]).0 == key
}

/// The position of the entry named `key`; meaningful where there is one.
pub open spec fn key_position<V>(pairs: Seq<(Seq<char>, V)>, key: Seq<char>) -> int {
    choose|i: int| 0 <= i < pairs.len() && (#[trigger] pairs[i]).0 == key
}

/// Whether no name occurs twice.
pub open spec fn keys_distinct<V>(pairs: Seq<(Seq<char>, V)>) -> bool {
    forall|i: int, j: int|
        0 <= i < pairs.len() && 0 <= j < pairs.len() && i != j ==> (#[trigger] pairs[i]).0 != (
        #[trigger] pairs[j]).0
}

/// The entries after `key` was set to `value`: in place where the name is known, at the end
/// where it is new.
pub open spec fn pairs_insert<V>(
    pairs: Seq<(Seq<char>, V)>,
    key: Seq<char>,
    value: V,
) -> Seq<(Seq<char>, V)> {
    if has_key(pairs, key) {
        pairs.update(key_position(pairs, key), (key, value))
    } else {
        pairs.push((key, value))
    }
}

/// The entries of `base` after those of `more` were set one after the other.
pub open spec fn pairs_extend<V>(
    base: Seq<(Seq<char>, V)>,
    more: Seq<(Seq<char>, V)>,
) -> Seq<(Seq<char>, V)>
    decreases more.len(),
{
    if more.len() == 0 {
        base
    } else {
        pairs_insert(pairs_extend(base, more.drop_last()), more.last().0, more.last().1)
    }
}

/// The map that a list of entries stands for.
pub open spec fn pairs_map<V>(pairs: Seq<(Seq<char>, V)>) -> Map<Seq<char>, V> {
    Map::new(|k: Seq<char>| has_key(pairs, k), |k: Seq<char>| pairs[key_position(pairs, k)].1)
}

/// Setting an entry keeps names distinct and is an insertion into the map.
pub proof fn lemma_pairs_insert<V>(pairs: Seq<(Seq<char>, V)>, key: Seq<char>, value: V)
    requires
        keys_distinct(pairs),
    ensures
        keys_distinct(pairs_insert(pairs, key, value)),
        pairs_map(pairs_insert(pairs, key, value)) == pairs_map(pairs).insert(key, value),
{
    let after = pairs_insert(pairs, key, value);
    if has_key(pairs, key) {
        let p = key_position(pairs, key);
        assert forall|i: int, j: int|
            0 <= i < after.len() && 0 <= j < after.len() && i != j implies (#[trigger] after[i]).0
            != (#[trigger] after[j]).0 by {
            assert(pairs[i].0 != pairs[j].0);
        }
    } else {
        assert forall|i: int, j: int|
            0 <= i < after.len() && 0 <= j < after.len() && i != j implies (#[trigger] after[i]).0
            != (#[trigger] after[j]).0 by {
            if i < pairs.len() && j < pairs.len() {
                assert(pairs[i].0 != pairs[j].0);
            } else if i < pairs.len() {
                assert(pairs[i].0 != key);
            } else {
                assert(pairs[j].0 != key);
            }
        }
    }
    let lhs = pairs_map(after);
    let rhs = pairs_map(pairs).insert(key, value);
    assert forall|k: Seq<char>| lhs.dom().contains(k) <==> rhs.dom().contains(k) by {
        if has_key(pairs, k) {
            let i = key_position(pairs, k);
            assert(after[i].0 == k);
        }
        if k == key {
            let i = if has_key(pairs, key) {
                key_position(pairs, key)
            } else {
                pairs.len() as int
            };
            assert(after[i].0 == key);
        }
        if has_key(after, k) && k != key {
            let i = key_position(after, k);
            assert(pairs[i].0 == k);
        }
    }
    assert forall|k: Seq<char>| lhs.dom().contains(k) implies lhs[k] == rhs[k] by {
        let i = key_position(after, k);
        assert(after[i].0 == k);
        if k != key {
            assert(pairs[i].0 == k);
            let j = key_position(pairs, k);
            assert(pairs[j].0 == k);
            assert(i == j);
        } else {
            let p = if has_key(pairs, key) {
                key_position(pairs, key)
            } else {
                pairs.len() as int
            };
            assert(after[p].0 == key);
            assert(i == p);
        }
    }
    assert(lhs =~= rhs);
}

/// Setting the entries of `more` keeps names distinct, and `more` wins in the map.
pub proof fn lemma_pairs_extend<V>(base: Seq<(Seq<char>, V)>, more: Seq<(Seq<char>, V)>)
    requires
        keys_distinct(base),
        keys_distinct(more),
    ensures
        keys_distinct(pairs_extend(base, more)),
        pairs_map(pairs_extend(base, more)) == pairs_map(base).union_prefer_right(pairs_map(more)),
    decreases more.len(),
{
    if more.len() == 0 {
        assert(pairs_map(more).dom() =~= Set::empty());
        assert(pairs_map(base) =~= pairs_map(base).union_prefer_right(pairs_map(more)));
    } else {
        let init = more.drop_last();
        let last = more.last();
        assert forall|i: int, j: int|
            0 <= i < init.len() && 0 <= j < init.len() && i != j implies (#[trigger] init[i]).0 != (
        #[trigger] init[j]).0 by {
            assert(more[i].0 != more[j].0);
        }
        lemma_pairs_extend(base, init);
        lemma_pairs_insert(pairs_extend(base, init), last.0, last.1);
        lemma_pairs_insert(init, last.0, last.1);
        assert(!has_key(init, last.0)) by {
            if has_key(init, last.0) {
                let i = key_position(init, last.0);
                assert(more[i].0 == more[more.len() - 1].0);
            }
        }
        assert(pairs_insert(init, last.0, last.1) =~= more);
        assert(pairs_map(base).union_prefer_right(pairs_map(init)).insert(last.0, last.1)
            =~= pairs_map(base).union_prefer_right(pairs_map(init).insert(last.0, last.1)));
    }
}

impl<V> View for Table<V> {
    type V = Map<Seq<char>, V>;

    open spec fn view(&self) -> Map<Seq<char>, V> {
        pairs_map(self.pairs())
    }
}

impl<V> Table<V> {
    #[verifier::type_invariant]
    spec fn well_formed(self) -> bool {
        keys_distinct(self.pairs())
    }

    /// The entries in their order.
    pub closed spec fn pairs(&self) -> Seq<(Seq<char>, V)> {
        Seq::new(self.entries@.len(), |i: int| (self.entries@[i].0@, self.entries@[i].1))
    }

    /// A table without entries.
    pub fn new() -> (r: Self)
        ensures
            r.pairs() == Seq::<(Seq<char>, V)>::empty(),
            r@ == Map::<Seq<char>, V>::empty(),
    {
        let r = Table { entries: Vec::new() };
        proof {
            assert(r.pairs() =~= Seq::empty());
            assert(r@ =~= Map::empty());
        }
        r
    }

    /// The number of entries.
    pub fn len(&self) -> (r: usize)
        ensures
            r == self.pairs().len(),
            keys_distinct(self.pairs()),
    {
        proof {
            use_type_invariant(self);
        }
        self.entries.len()
    }

    /// Whether there is no entry.
    pub fn is_empty(&self) -> (r: bool)
        ensures
            r == (self.pairs().len() == 0),
    {
        self.entries.len() == 0
    }

    /// The name of the entry at position `i`.
    pub fn key_at(&self, i: usize) -> (r: &str)
        requires
            i < self.pairs().len(),
        ensures
            r@ == self.pairs()[i as int].0,
            self.pairs().len() <= usize::MAX,
    {
        assert(self.entries.len() == self.entries@.len());
        self.entries[i].0.as_str()
    }

    /// The value of the entry at position `i`.
    pub fn value_at(&self, i: usize) -> (r: &V)
        requires
            i < self.pairs().len(),
        ensures
            *r == self.pairs()[i as int].1,
    {
        &self.entries[i].1
    }

    /// The position of the entry named `key`.
    fn find(&self, key: &str) -> (r: Option<usize>)
        ensures
            match r {
                Some(i) => i < self.pairs().len() && self.pairs()[i as int].0 == key@
                    && has_key(self.pairs(), key@) && key_position(self.pairs(), key@) == i,
                None => !has_key(self.pairs(), key@),
            },
    {
        proof {
            use_type_invariant(self);
        }
        let mut i: usize = 0;
        while i < self.entries.len()
            invariant
                i <= self.entries.len(),
                keys_distinct(self.pairs()),
                forall|j: int| 0 <= j < i ==> (#[trigger] self.pairs()[j]).0 != key@,
            decreases self.entries.len() - i,
        {
            if same_text(self.entries[i].0.as_str(), key) {
                assert(self.pairs()[i as int].0 == key@);
                return Some(i);
            }
            assert(self.pairs()[i as int].0 != key@);
            i += 1;
        }
        None
    }

    /// Whether there is an entry named `key`.
    pub fn contains_key(&self, key: &str) -> (r: bool)
        ensures
            r == self@.dom().contains(key@),
    {
        self.find(key).is_some()
    }

    /// The value of the entry named `key`.
    pub fn get(&self, key: &str) -> (r: Option<&V>)
        ensures
            match r {
                Some(v) => self@.dom().contains(key@) && *v == self@[key@],
                None => !self@.dom().contains(key@),
            },
    {
        match self.find(key) {
            Some(i) => Some(&self.entries[i].1),
            None => None,
        }
    }

    /// Sets the entry named `key`, in place where there is one already.
    pub fn insert(&mut self, key: String, value: V)
        ensures
            final(self).pairs() == pairs_insert(old(self).pairs(), key@, value),
            final(self)@ == old(self)@.insert(key@, value),
    {
        proof {
            use_type_invariant(&*self);
            lemma_pairs_insert(self.pairs(), key@, value);
        }
        let at = self.find(key.as_str());
        let ghost before = self.pairs();
        let ghost name = key@;
        let mut entries: Vec<(String, V)> = Vec::new();
        std::mem::swap(&mut entries, &mut self.entries);
        match at {
            Some(i) => {
                entries.set(i, (key, value));
            },
            None => {
                entries.push((key, value));
            },
        }
        assert(Seq::new(entries@.len(), |i: int| (entries@[i].0@, entries@[i].1)) =~= pairs_insert(
            before,
            name,
            value,
        ));
        self.entries = entries;
    }

    /// Sets every entry of `other` in turn, so that `other` wins where both have a name.
    pub fn extend(&mut self, other: Table<V>)
        ensures
            final(self).pairs() == pairs_extend(old(self).pairs(), other.pairs()),
            final(self)@ == old(self)@.union_prefer_right(other@),
    {
        proof {
            use_type_invariant(&*self);
            use_type_invariant(&other);
            lemma_pairs_extend(self.pairs(), other.pairs());
        }
        let ghost base = self.pairs();
        let ghost more = other.pairs();
        let mut rest = other.entries;
        let mut forward: Vec<(String, V)> = Vec::new();
        // `pop` takes from the end, so turn the list round first.
        while rest.len() > 0
            invariant
                rest@.len() + forward@.len() == more.len(),
                forall|j: int|
                    0 <= j < rest@.len() ==> #[trigger] more[j] == (rest@[j].0@, rest@[j].1),
                forall|j: int|
                    0 <= j < forward@.len() ==> more[more.len() - 1 - j] == ((
                    #[trigger] forward@[j]).0@, forward@[j].1),
            decreases rest@.len(),
        {
            if let Some(e) = rest.pop() {
                forward.push(e);
            }
        }
        assert(more.take(0) =~= Seq::empty());
        let ghost mut done: int = 0;
        while forward.len() > 0
            invariant
                done + forward@.len() == more.len(),
                0 <= done,
                forall|j: int|
                    0 <= j < forward@.len() ==> more[more.len() - 1 - j] == ((
                    #[trigger] forward@[j]).0@, forward@[j].1),
                self.pairs() == pairs_extend(base, more.take(done)),
            decreases forward@.len(),
        {
            if let Some(e) = forward.pop() {
                proof {
                    assert(more.take(done + 1).drop_last() =~= more.take(done));
                    assert(more.take(done + 1).last() == more[done]);
                    done = done + 1;
                }
                self.insert(e.0, e.1);
            }
        }
        assert(more.take(done) =~= more);
    }
}

impl<V> Default for Table<V> {
    fn default() -> (r: Self)
        ensures
            r.pairs() == Seq::<(Seq<char>, V)>::empty(),
            r@ == Map::<Seq<char>, V>::empty(),
    {
        Table::new()
    }
}

} // verus!
