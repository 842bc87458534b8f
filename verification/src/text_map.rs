//! A map from texts to values.

use vstd::prelude::*;
use crate::text::same_text;

verus! {

/// A value that a [`TextMap`] can hold: it can be copied, and compared with another one, by
/// what it stands for.
pub trait Entry: View + Sized {
    /// A second value that stands for the same.
    fn copy(&self) -> (r: Self)
        ensures
            r@ == self@,
    ;

    /// Whether both stand for the same.
    fn same(&self, other: &Self) -> (r: bool)
        ensures
            r == (self@ == other@),
    ;
}

impl Entry for String {
    fn copy(&self) -> (r: Self) {
        self.clone()
    }

    fn same(&self, other: &Self) -> (r: bool) {
        same_text(self.as_str(), other.as_str())
    }
}

impl Entry for bool {
    fn copy(&self) -> (r: Self) {
        *self
    }

    fn same(&self, other: &Self) -> (r: bool) {
        *self == *other
    }
}

/// A map from texts to values, in which no key occurs twice.
///
/// The entries are kept in the order in which their keys came in.
pub struct TextMap<V: View> {
    entries: Vec<(String, V)>,
}

/// The map that a list of entries stands for.
spec fn map_of<V: View>(entries: Seq<(String, V)>) -> Map<Seq<char>, V::V>
    decreases entries.len(),
{
    if entries.len() == 0 {
        Map::empty()
    } else {
        map_of(entries.drop_last()).insert(entries.last().0@, entries.last().1@)
    }
}

/// Whether no key occurs twice in a list of entries.
spec fn distinct<V: View>(entries: Seq<(String, V)>) -> bool {
    forall|i: int, j: int|
        0 <= i < j < entries.len() ==> (#[trigger] entries[i]).0@ != (#[trigger] entries[j]).0@
}

proof fn lemma_map_of<V: View>(entries: Seq<(String, V)>)
    requires
        distinct(entries),
    ensures
        map_of(entries).dom().finite(),
        map_of(entries).len() == entries.len(),
        forall|i: int|
            0 <= i < entries.len() ==> map_of(entries).contains_key((#[trigger] entries[i]).0@)
                && map_of(entries)[entries[i].0@] == entries[i].1@,
        forall|k: Seq<char>| #[trigger]
            map_of(entries).contains_key(k) ==> exists|i: int|
                0 <= i < entries.len() && (#[trigger] entries[i]).0@ == k,
    decreases entries.len(),
{
    if entries.len() > 0 {
        let rest = entries.drop_last();
        assert forall|i: int, j: int| 0 <= i < j < rest.len() implies (#[trigger] rest[i]).0@ != (
        #[trigger] rest[j]).0@ by {
            assert(rest[i] == entries[i] && rest[j] == entries[j]);
        }
        lemma_map_of(rest);
        let key = entries.last().0@;
        if map_of(rest).contains_key(key) {
            let i = choose|i: int| 0 <= i < rest.len() && (#[trigger] rest[i]).0@ == key;
            assert(entries[i].0@ == entries[entries.len() - 1].0@);
        }
        assert forall|i: int| 0 <= i < entries.len() implies map_of(entries).contains_key(
            (#[trigger] entries[i]).0@,
        ) && map_of(entries)[entries[i].0@] == entries[i].1@ by {
            if i < rest.len() {
                assert(rest[i] == entries[i]);
                assert(entries[i].0@ != entries[entries.len() - 1].0@);
            }
        }
        assert forall|k: Seq<char>| #[trigger] map_of(entries).contains_key(k) implies exists|
            i: int,
        | 0 <= i < entries.len() && (#[trigger] entries[i]).0@ == k by {
            if k != key {
                assert(map_of(rest).contains_key(k));
                let i = choose|i: int| 0 <= i < rest.len() && (#[trigger] rest[i]).0@ == k;
                assert(entries[i].0@ == k);
            } else {
                assert(entries[entries.len() - 1].0@ == k);
            }
        }
    }
}

impl<V: View> View for TextMap<V> {
    type V = Map<Seq<char>, V::V>;

    closed spec fn view(&self) -> Map<Seq<char>, V::V> {
        map_of(self.entries@)
    }
}

impl<V: View> TextMap<V> {
    #[verifier::type_invariant]
    spec fn keys_are_distinct(&self) -> bool {
        distinct(self.entries@)
    }

    /// The keys, in the order in which [`TextMap::key_at`] and [`TextMap::value_at`] count them.
    pub closed spec fn order(&self) -> Seq<Seq<char>> {
        Seq::new(self.entries@.len(), |i: int| self.entries@[i].0@)
    }

    /// The empty map.
    pub fn new() -> (r: Self)
        ensures
            r@ == Map::<Seq<char>, V::V>::empty(),
    {
        let entries: Vec<(String, V)> = Vec::new();
        TextMap { entries }
    }

    /// The number of keys.
    pub fn len(&self) -> (r: usize)
        ensures
            self@.dom().finite(),
            r == self@.len(),
            r == self.order().len(),
            self.order().no_duplicates(),
            forall|i: int| 0 <= i < r ==> self@.contains_key(#[trigger] self.order()[i]),
            forall|k: Seq<char>| #[trigger] self@.contains_key(k) ==> self.order().contains(k),
    {
        proof {
            use_type_invariant(self);
            lemma_map_of(self.entries@);
            assert forall|k: Seq<char>| #[trigger] self@.contains_key(k) implies self.order().contains(
                k,
            ) by {
                let i = choose|i: int|
                    0 <= i < self.entries@.len() && (#[trigger] self.entries@[i]).0@ == k;
                assert(self.order()[i] == k);
            }
            assert forall|i: int, j: int|
                0 <= i < self.order().len() && 0 <= j < self.order().len() && i
                    != j implies self.order()[i] != self.order()[j] by {
                if i < j {
                    assert(self.entries@[i].0@ != self.entries@[j].0@);
                } else {
                    assert(self.entries@[j].0@ != self.entries@[i].0@);
                }
            }
        }
        self.entries.len()
    }

    /// Whether the map has no key.
    pub fn is_empty(&self) -> (r: bool)
        ensures
            r == (self@ == Map::<Seq<char>, V::V>::empty()),
    {
        proof {
            use_type_invariant(self);
            lemma_map_of(self.entries@);
            if self.entries@.len() > 0 {
                assert(self@.contains_key(self.entries@[0].0@));
            }
        }
        self.entries.len() == 0
    }

    /// The key with the given number.
    pub fn key_at(&self, i: usize) -> (r: &str)
        requires
            i < self.order().len(),
        ensures
            r@ == self.order()[i as int],
    {
        self.entries[i].0.as_str()
    }

    /// The value under the key with the given number.
    pub fn value_at(&self, i: usize) -> (r: &V)
        requires
            i < self.order().len(),
        ensures
            r@ == self@[self.order()[i as int]],
    {
        proof {
            use_type_invariant(self);
            lemma_map_of(self.entries@);
        }
        &self.entries[i].1
    }

    fn position(&self, k: &str) -> (r: Option<usize>)
        ensures
            match r {
                Some(i) => i < self.entries@.len() && self.entries@[i as int].0@ == k@,
                None => forall|i: int|
                    0 <= i < self.entries@.len() ==> (#[trigger] self.entries@[i]).0@ != k@,
            },
            r is Some <==> self@.contains_key(k@),
    {
        proof {
            use_type_invariant(self);
            lemma_map_of(self.entries@);
        }
        let mut i: usize = 0;
        while i < self.entries.len()
            invariant
                i <= self.entries@.len(),
                forall|j: int| 0 <= j < i ==> (#[trigger] self.entries@[j]).0@ != k@,
                forall|j: int|
                    0 <= j < self.entries@.len() ==> self@.contains_key(
                        (#[trigger] self.entries@[j]).0@,
                    ),
            decreases self.entries@.len() - i,
        {
            if same_text(self.entries[i].0.as_str(), k) {
                return Some(i);
            }
            i += 1;
        }
        None
    }

    /// The value under a key.
    pub fn get(&self, k: &str) -> (r: Option<&V>)
        ensures
            match r {
                Some(v) => self@.contains_key(k@) && v@ == self@[k@],
                None => !self@.contains_key(k@),
            },
    {
        proof {
            use_type_invariant(self);
            lemma_map_of(self.entries@);
        }
        match self.position(k) {
            Some(i) => Some(&self.entries[i].1),
            None => None,
        }
    }

    /// Whether the map has a key.
    pub fn contains_key(&self, k: &str) -> (r: bool)
        ensures
            r == self@.contains_key(k@),
    {
        self.position(k).is_some()
    }

    /// Puts a value under a key, in place of the one that stood there.
    pub fn insert(&mut self, k: String, v: V)
        ensures
            final(self)@ == old(self)@.insert(k@, v@),
    {
        proof {
            use_type_invariant(&*self);
            lemma_map_of(self.entries@);
        }
        let at = self.position(k.as_str());
        let mut entries: Vec<(String, V)> = Vec::new();
        std::mem::swap(&mut entries, &mut self.entries);
        let ghost before = entries@;
        let ghost key = k@;
        let ghost value = v@;
        match at {
            Some(i) => {
                entries.set(i, (k, v));
                assert(distinct(entries@)) by {
                    assert forall|a: int, b: int| 0 <= a < b < entries@.len() implies (
                    #[trigger] entries@[a]).0@ != (#[trigger] entries@[b]).0@ by {
                        assert(before[a].0@ != before[b].0@);
                    }
                }
            },
            None => {
                entries.push((k, v));
                assert(distinct(entries@)) by {
                    assert forall|a: int, b: int| 0 <= a < b < entries@.len() implies (
                    #[trigger] entries@[a]).0@ != (#[trigger] entries@[b]).0@ by {
                        assert(entries@[a] == before[a]);
                        if b < before.len() {
                            assert(before[a].0@ != before[b].0@);
                        }
                    }
                }
            },
        }
        proof {
            lemma_map_of(entries@);
            let m = map_of(entries@);
            let grown = map_of(before).insert(key, value);
            assert(m =~= grown) by {
                assert forall|x: Seq<char>| #[trigger] m.contains_key(x) == grown.contains_key(x) && (
                m.contains_key(x) ==> m[x] == grown[x]) by {
                    if m.contains_key(x) {
                        let i = choose|i: int| 0 <= i < entries@.len() && (#[trigger] entries@[i]).0@ == x;
                        if i < before.len() && entries@[i] == before[i] {
                            assert(map_of(before).contains_key(before[i].0@));
                        }
                    }
                    if map_of(before).contains_key(x) {
                        let i = choose|i: int| 0 <= i < before.len() && (#[trigger] before[i]).0@ == x;
                        assert(entries@[i].0@ == x);
                    }
                    if at is Some {
                        assert(entries@[at->0 as int].0@ == key);
                    } else {
                        assert(entries@[before.len() as int].0@ == key);
                    }
                }
            }
        }
        self.entries = entries;
    }

    /// Takes a key out. Tells whether it was there.
    pub fn remove(&mut self, k: &str) -> (r: bool)
        ensures
            final(self)@ == old(self)@.remove(k@),
            r == old(self)@.contains_key(k@),
    {
        let there = self.contains_key(k);
        let other_key = |key: &str, value: &V| -> (keep: bool)
            ensures
                keep == (key@ != k@),
        {
            !same_text(key, k)
        };
        self.retain(other_key, Ghost(|key: Seq<char>, value: V::V| key != k@));
        assert(self@ =~= old(self)@.remove(k@));
        there
    }

    /// Keeps the entries that `keep` accepts; `kept` is what `keep` decides.
    pub fn retain<F>(
        &mut self,
        keep: F,
        Ghost(kept): Ghost<spec_fn(Seq<char>, V::V) -> bool>,
    ) where F: Fn(&str, &V) -> bool
        requires
            forall|k: &str, v: &V| #[trigger] keep.requires((k, v)),
            forall|k: &str, v: &V, b: bool| #[trigger]
                keep.ensures((k, v), b) ==> b == kept(k@, v@),
        ensures
            final(self)@ == old(self)@.restrict(
                Set::new(|k: Seq<char>| old(self)@.contains_key(k) && kept(k, old(self)@[k])),
            ),
    {
        proof {
            use_type_invariant(&*self);
            lemma_map_of(self.entries@);
        }
        let mut entries: Vec<(String, V)> = Vec::new();
        std::mem::swap(&mut entries, &mut self.entries);
        let ghost before = entries@;
        let ghost m = map_of(before);
        let mut i: usize = 0;
        while i < entries.len()
            invariant
                forall|k: &str, v: &V| #[trigger] keep.requires((k, v)),
                forall|k: &str, v: &V, b: bool| #[trigger]
                    keep.ensures((k, v), b) ==> b == kept(k@, v@),
                i <= entries@.len(),
                distinct(entries@),
                m == map_of(before),
                distinct(before),
                forall|j: int|
                    0 <= j < entries@.len() ==> m.contains_key((#[trigger] entries@[j]).0@)
                        && m[entries@[j].0@] == entries@[j].1@,
                forall|j: int|
                    0 <= j < i ==> kept((#[trigger] entries@[j]).0@, entries@[j].1@),
                forall|k: Seq<char>| #[trigger]
                    m.contains_key(k) && kept(k, m[k]) ==> exists|j: int|
                        0 <= j < entries@.len() && (#[trigger] entries@[j]).0@ == k,
            decreases entries@.len() - i,
        {
            let ghost pre = entries@;
            if keep(entries[i].0.as_str(), &entries[i].1) {
                i += 1;
            } else {
                entries.remove(i);
                proof {
                    assert forall|a: int, b: int| 0 <= a < b < entries@.len() implies (
                    #[trigger] entries@[a]).0@ != (#[trigger] entries@[b]).0@ by {
                        let a2 = if a < i { a } else { a + 1 };
                        let b2 = if b < i { b } else { b + 1 };
                        assert(entries@[a] == pre[a2] && entries@[b] == pre[b2]);
                    }
                    assert forall|j: int| 0 <= j < entries@.len() implies m.contains_key(
                        (#[trigger] entries@[j]).0@,
                    ) && m[entries@[j].0@] == entries@[j].1@ by {
                        let j2 = if j < i { j } else { j + 1 };
                        assert(entries@[j] == pre[j2]);
                    }
                    assert forall|k: Seq<char>| #[trigger]
                        m.contains_key(k) && kept(k, m[k]) implies exists|j: int|
                        0 <= j < entries@.len() && (#[trigger] entries@[j]).0@ == k by {
                        let j = choose|j: int| 0 <= j < pre.len() && (#[trigger] pre[j]).0@ == k;
                        assert(j != i);
                        let j2 = if j < i { j } else { j - 1 };
                        assert(entries@[j2] == pre[j]);
                    }
                }
            }
        }
        proof {
            lemma_map_of(entries@);
            let s = Set::new(|k: Seq<char>| m.contains_key(k) && kept(k, m[k]));
            let left = map_of(entries@);
            assert(left =~= m.restrict(s)) by {
                assert forall|k: Seq<char>| #[trigger] left.contains_key(k) == m.restrict(
                    s,
                ).contains_key(k) && (left.contains_key(k) ==> left[k] == m.restrict(s)[k]) by {
                    if left.contains_key(k) {
                        let j = choose|j: int| 0 <= j < entries@.len() && (#[trigger] entries@[j]).0@ == k;
                        assert(kept(entries@[j].0@, entries@[j].1@));
                    }
                    if m.restrict(s).contains_key(k) {
                        let j = choose|j: int| 0 <= j < entries@.len() && (#[trigger] entries@[j]).0@ == k;
                        assert(left.contains_key(entries@[j].0@));
                    }
                }
            }
        }
        self.entries = entries;
    }

    /// Takes all keys out.
    pub fn clear(&mut self)
        ensures
            final(self)@ == Map::<Seq<char>, V::V>::empty(),
    {
        self.entries = Vec::new();
    }
}

impl<V: Entry> TextMap<V> {
    /// A second map with the same entries.
    pub fn copy(&self) -> (r: Self)
        ensures
            r@ == self@,
    {
        let mut r: TextMap<V> = TextMap::new();
        r.extend(self);
        assert(r@ =~= self@);
        r
    }

    /// Puts all entries of another map in, over those that stand under the same keys.
    pub fn extend(&mut self, other: &TextMap<V>)
        ensures
            final(self)@ == old(self)@.union_prefer_right(other@),
    {
        let n = other.len();
        let ghost start = self@;
        let mut i: usize = 0;
        while i < n
            invariant
                i <= n == other.order().len(),
                other.order().no_duplicates(),
                forall|j: int| 0 <= j < n ==> other@.contains_key(#[trigger] other.order()[j]),
                forall|k: Seq<char>| #[trigger] self@.contains_key(k) <==> start.contains_key(k)
                    || other.order().take(i as int).contains(k),
                forall|k: Seq<char>| #[trigger]
                    self@.contains_key(k) ==> self@[k] == (if other.order().take(i as int).contains(
                        k,
                    ) {
                        other@[k]
                    } else {
                        start[k]
                    }),
            decreases n - i,
        {
            let key = other.key_at(i).to_owned();
            let value = other.value_at(i).copy();
            let ghost done = other.order().take(i as int);
            self.insert(key, value);
            proof {
                assert(other.order().take(i + 1) =~= done.push(other.order()[i as int]));
                assert forall|k: Seq<char>| #[trigger] done.push(other.order()[i as int]).contains(k)
                    <==> done.contains(k) || k == other.order()[i as int] by {
                    if done.contains(k) {
                        let j = choose|j: int| 0 <= j < done.len() && done[j] == k;
                        assert(done.push(other.order()[i as int])[j] == k);
                    }
                    assert(done.push(other.order()[i as int])[done.len() as int]
                        == other.order()[i as int]);
                }
            }
            i += 1;
        }
        assert(other.order().take(n as int) =~= other.order());
        assert(self@ =~= start.union_prefer_right(other@));
    }

    /// Whether both maps have the same entries.
    pub fn same(&self, other: &TextMap<V>) -> (r: bool)
        ensures
            r == (self@ == other@),
    {
        let n = self.len();
        if n != other.len() {
            return false;
        }
        let mut i: usize = 0;
        while i < n
            invariant
                i <= n == self.order().len(),
                forall|j: int| 0 <= j < n ==> self@.contains_key(#[trigger] self.order()[j]),
                forall|j: int|
                    0 <= j < i ==> other@.contains_key(#[trigger] self.order()[j])
                        && other@[self.order()[j]] == self@[self.order()[j]],
            decreases n - i,
        {
            match other.get(self.key_at(i)) {
                None => {
                    return false;
                },
                Some(v) => {
                    if !v.same(self.value_at(i)) {
                        return false;
                    }
                },
            }
            i += 1;
        }
        proof {
            assert(self@.dom().subset_of(other@.dom()));
            vstd::set_lib::lemma_subset_equality(self@.dom(), other@.dom());
            assert(self@ =~= other@);
        }
        true
    }
}

} // verus!
