//! The user's word replacements, kept in the order of their phrases.

use vstd::prelude::*;

use crate::text;
use crate::text::{same_text, text_before};

verus! {

/// Phrases in strictly ascending order, so that none occurs twice.
pub open spec fn ascending(entries: Seq<(Seq<char>, Seq<char>)>) -> bool {
    forall|i: int, j: int|
        0 <= i < j < entries.len() ==> text::text_lt(
            (#[trigger] entries[i]).0,
            (#[trigger] entries[j]).0,
        )
}

/// The entries as a map from phrase to replacement.
pub open spec fn entry_map(entries: Seq<(Seq<char>, Seq<char>)>) -> Map<Seq<char>, Seq<char>>
    decreases entries.len(),
{
    if entries.len() == 0 {
        Map::empty()
    } else {
        entry_map(entries.drop_last()).insert(entries.last().0, entries.last().1)
    }
}

/// The characters of pairs of strings.
pub open spec fn pair_views(pairs: Seq<(String, String)>) -> Seq<(Seq<char>, Seq<char>)> {
    pairs.map_values(|p: (String, String)| (p.0@, p.1@))
}

/// A phrase is in the map if and only if some entry has it, and an entry's
/// phrase maps to what the entry says.
pub proof fn lemma_entry_map(entries: Seq<(Seq<char>, Seq<char>)>, i: int)
    requires
        ascending(entries),
        0 <= i < entries.len(),
    ensures
        entry_map(entries).contains_key(entries[i].0),
        entry_map(entries)[entries[i].0] == entries[i].1,
    decreases entries.len(),
{
    if i < entries.len() - 1 {
        let front = entries.drop_last();
        lemma_entry_map(front, i);
        text::lemma_text_lt_irreflexive(entries[i].0);
    }
}

/// A phrase that no entry has is not in the map.
pub proof fn lemma_entry_map_absent(entries: Seq<(Seq<char>, Seq<char>)>, key: Seq<char>)
    requires
        forall|i: int| 0 <= i < entries.len() ==> (#[trigger] entries[i]).0 != key,
    ensures
        !entry_map(entries).contains_key(key),
    decreases entries.len(),
{
    if entries.len() > 0 {
        let front = entries.drop_last();
        lemma_entry_map_absent(front, key);
    }
}

/// Putting an entry in its place inserts it into the map.
proof fn lemma_entry_map_put(
    entries: Seq<(Seq<char>, Seq<char>)>,
    at: int,
    key: Seq<char>,
    value: Seq<char>,
)
    requires
        ascending(entries),
        0 <= at <= entries.len(),
        forall|i: int| 0 <= i < at ==> text::text_lt((#[trigger] entries[i]).0, key),
        forall|i: int| at <= i < entries.len() ==> text::text_lt(key, (#[trigger] entries[i]).0),
    ensures
        ascending(entries.insert(at, (key, value))),
        entry_map(entries.insert(at, (key, value))) == entry_map(entries).insert(key, value),
    decreases entries.len(),
{
    let e = (key, value);
    let all = entries.insert(at, e);
    assert forall|i: int, j: int| 0 <= i < j < all.len() implies text::text_lt(
        (#[trigger] all[i]).0,
        (#[trigger] all[j]).0,
    ) by {
        let oi = if i < at { i } else { i - 1 };
        let oj = if j < at { j } else { j - 1 };
    }
    if at == entries.len() {
        assert(all.drop_last() == entries);
    } else {
        let front = entries.drop_last();
        let last = entries.last();
        lemma_entry_map_put(front, at, key, value);
        assert(all.drop_last() == front.insert(at, e));
        text::lemma_text_lt_irreflexive(key);
        assert(entry_map(front).insert(key, value).insert(last.0, last.1) =~= entry_map(
            front,
        ).insert(last.0, last.1).insert(key, value));
    }
}

/// Replacing an entry's text inserts the new text into the map.
proof fn lemma_entry_map_update(
    entries: Seq<(Seq<char>, Seq<char>)>,
    at: int,
    value: Seq<char>,
)
    requires
        ascending(entries),
        0 <= at < entries.len(),
    ensures
        ascending(entries.update(at, (entries[at].0, value))),
        entry_map(entries.update(at, (entries[at].0, value))) == entry_map(entries).insert(
            entries[at].0,
            value,
        ),
    decreases entries.len(),
{
    let key = entries[at].0;
    let all = entries.update(at, (key, value));
    let front = entries.drop_last();
    let last = entries.last();
    if at == entries.len() - 1 {
        assert(all.drop_last() == front);
        assert(entry_map(front).insert(key, value) =~= entry_map(front).insert(
            key,
            last.1,
        ).insert(key, value));
    } else {
        lemma_entry_map_update(front, at, value);
        assert(all.drop_last() == front.update(at, (key, value)));
        text::lemma_text_lt_irreflexive(key);
        assert(entry_map(front).insert(key, value).insert(last.0, last.1) =~= entry_map(
            front,
        ).insert(last.0, last.1).insert(key, value));
    }
}

/// A phrase of the map is that of some entry.
pub proof fn lemma_entry_of(entries: Seq<(Seq<char>, Seq<char>)>, key: Seq<char>) -> (i: int)
    requires
        entry_map(entries).contains_key(key),
    ensures
        0 <= i < entries.len(),
        entries[i].0 == key,
    decreases entries.len(),
{
    if entries.last().0 == key {
        entries.len() - 1
    } else {
        let i = lemma_entry_of(entries.drop_last(), key);
        i
    }
}

/// There is only one way to write a map as entries in ascending order.
pub proof fn entries_are_determined(a: Seq<(Seq<char>, Seq<char>)>, b: Seq<(Seq<char>, Seq<char>)>)
    requires
        ascending(a),
        ascending(b),
        entry_map(a) == entry_map(b),
    ensures
        a == b,
    decreases a.len(),
{
    if a.len() == 0 {
        if b.len() > 0 {
            lemma_entry_map(b, b.len() - 1);
        }
    } else {
        let x = a.last().0;
        lemma_entry_map(a, a.len() - 1);
        let j = lemma_entry_of(b, x);
        let y = b.last().0;
        lemma_entry_map(b, b.len() - 1);
        let i = lemma_entry_of(a, y);
        if x != y {
            text::lemma_text_lt_transitive(x, y, x);
            text::lemma_text_lt_irreflexive(x);
        }
        let (fa, fb) = (a.drop_last(), b.drop_last());
        assert forall|k: int| 0 <= k < fa.len() implies (#[trigger] fa[k]).0 != x by {
            text::lemma_text_lt_irreflexive(x);
        }
        assert forall|k: int| 0 <= k < fb.len() implies (#[trigger] fb[k]).0 != x by {
            text::lemma_text_lt_irreflexive(x);
        }
        lemma_entry_map_absent(fa, x);
        lemma_entry_map_absent(fb, x);
        assert(entry_map(fa) =~= entry_map(a).remove(x));
        assert(entry_map(fb) =~= entry_map(b).remove(x));
        entries_are_determined(fa, fb);
        assert(a =~= fa.push(a.last()));
    }
}

/// A map from phrases to what is typed in their place. Phrases are unique and
/// are walked in ascending order.
#[derive(Debug, PartialEq)]
pub struct Replacements {
    pairs: Vec<(String, String)>,
}

impl View for Replacements {
    type V = Map<Seq<char>, Seq<char>>;

    open spec fn view(&self) -> Map<Seq<char>, Seq<char>> {
        entry_map(self.entries())
    }
}

impl Replacements {
    /// The entries in ascending order of phrase.
    pub closed spec fn entries(&self) -> Seq<(Seq<char>, Seq<char>)> {
        pair_views(self.pairs@)
    }

    /// The entries are in ascending order.
    #[verifier::type_invariant]
    pub open spec fn well_formed(&self) -> bool {
        ascending(self.entries())
    }

    /// No replacements.
    pub fn new() -> (r: Replacements)
        ensures
            r@ == Map::<Seq<char>, Seq<char>>::empty(),
            r.entries() == Seq::<(Seq<char>, Seq<char>)>::empty(),
    {
        let pairs: Vec<(String, String)> = Vec::new();
        Replacements { pairs }
    }

    /// Sets what a phrase is replaced by, in place of anything set before.
    pub fn insert(&mut self, from: String, to: String)
        ensures
            final(self)@ == old(self)@.insert(from@, to@),
            final(self).well_formed(),
    {
        proof {
            use_type_invariant(&*self);
        }
        let ghost entries = self.entries();
        let mut pairs: Vec<(String, String)> = Vec::new();
        std::mem::swap(&mut pairs, &mut self.pairs);
        let mut at: usize = 0;
        while at < pairs.len() && text_before(pairs[at].0.as_str(), from.as_str())
            invariant
                at <= pairs@.len(),
                entries == pair_views(pairs@),
                forall|i: int| 0 <= i < at ==> text::text_lt((#[trigger] entries[i]).0, from@),
            decreases pairs@.len() - at,
        {
            at = at + 1;
        }
        if at < pairs.len() && same_text(pairs[at].0.as_str(), from.as_str()) {
            proof {
                lemma_entry_map_update(entries, at as int, to@);
            }
            let ghost value = to@;
            pairs.set(at, (from, to));
            assert(pair_views(pairs@) == entries.update(at as int, (entries[at as int].0, value)));
        } else {
            proof {
                assert forall|i: int| at <= i < entries.len() implies text::text_lt(
                    from@,
                    (#[trigger] entries[i]).0,
                ) by {
                    text::lemma_text_lt_total(entries[at as int].0, from@);
                    if i > at {
                        text::lemma_text_lt_transitive(from@, entries[at as int].0, entries[i].0);
                    }
                }
                lemma_entry_map_put(entries, at as int, from@, to@);
            }
            let ghost e = (from@, to@);
            pairs.insert(at, (from, to));
            assert(pair_views(pairs@) == entries.insert(at as int, e));
        }
        std::mem::swap(&mut pairs, &mut self.pairs);
    }

    /// How many phrases there are.
    pub fn len(&self) -> (n: usize)
        ensures
            n == self.entries().len(),
    {
        self.pairs.len()
    }

    /// The entry at a place in the ascending order.
    pub fn entry(&self, i: usize) -> (r: (&str, &str))
        requires
            i < self.entries().len(),
        ensures
            (r.0@, r.1@) == self.entries()[i as int],
    {
        (self.pairs[i].0.as_str(), self.pairs[i].1.as_str())
    }
}

impl Clone for Replacements {
    fn clone(&self) -> (r: Replacements)
        ensures
            r.entries() == self.entries(),
            r@ == self@,
    {
        proof {
            use_type_invariant(self);
        }
        let mut pairs: Vec<(String, String)> = Vec::new();
        let mut i: usize = 0;
        while i < self.pairs.len()
            invariant
                i <= self.pairs@.len(),
                pair_views(pairs@) == self.entries().take(i as int),
            decreases self.pairs@.len() - i,
        {
            let ghost before = pair_views(pairs@);
            pairs.push((self.pairs[i].0.clone(), self.pairs[i].1.clone()));
            assert(pair_views(pairs@) == before.push(self.entries()[i as int]));
            assert(self.entries().take(i + 1) == self.entries().take(i as int).push(
                self.entries()[i as int],
            ));
            i = i + 1;
        }
        Replacements { pairs }
    }
}

} // verus!
