//! Putting values in order.

use vstd::prelude::*;
use crate::text_map::{Entry, TextMap};

verus! {

/// A value with a rank among its kind.
pub trait Ranked: View + Sized {
    /// Whether a value has to come before another one.
    spec fn ahead(a: Self::V, b: Self::V) -> bool;

    /// Whether this value has to come before another one.
    fn is_ahead(&self, other: &Self) -> (r: bool)
        ensures
            r == Self::ahead(self@, other@),
    ;

    /// The rank is an order.
    proof fn ahead_is_an_order(a: Self::V, b: Self::V, c: Self::V)
        ensures
            !(Self::ahead(a, b) && Self::ahead(b, a)),
            Self::ahead(a, b) && Self::ahead(b, c) ==> Self::ahead(a, c),
    ;
}

/// What the values of a list stand for.
pub open spec fn views<T: View>(s: Seq<T>) -> Seq<T::V> {
    s.map_values(|t: T| t@)
}

/// Whether no value of a list has to come before an earlier one.
pub open spec fn ranked<T: Ranked>(s: Seq<T::V>) -> bool {
    forall|i: int, j: int| 0 <= i < j < s.len() ==> !T::ahead(#[trigger] s[j], #[trigger] s[i])
}

/// Whether a list holds the keys of a map, each once.
pub open spec fn lists_keys<W>(m: Map<Seq<char>, W>, ks: Seq<Seq<char>>) -> bool {
    ks.no_duplicates() && forall|k: Seq<char>| m.contains_key(k) <==> #[trigger] ks.contains(k)
}

/// Whether a list holds the values of a map, one for each key.
pub open spec fn lists_values<W>(m: Map<Seq<char>, W>, values: Seq<W>) -> bool {
    exists|ks: Seq<Seq<char>>| #[trigger]
        lists_keys(m, ks) && values == ks.map_values(|k: Seq<char>| m[k])
}

/// Whether a list of numbers holds each number below `n` once.
pub open spec fn arranges(order: Seq<usize>, n: nat) -> bool {
    order.no_duplicates() && order.len() == n && forall|i: int|
        0 <= i < order.len() ==> #[trigger] order[i] < n
}

/// The numbers of the items in the order of their ranks.
pub fn rank_order<T: Ranked>(items: &Vec<T>) -> (r: Vec<usize>)
    ensures
        arranges(r@, items@.len()),
        ranked::<T>(r@.map_values(|i: usize| items@[i as int]@)),
{
    let mut order: Vec<usize> = Vec::new();
    let mut n: usize = 0;
    while n < items.len()
        invariant
            n <= items.len(),
            arranges(order@, n as nat),
            forall|i: int, j: int|
                0 <= i < j < order@.len() ==> !T::ahead(
                    items@[#[trigger] order@[j] as int]@,
                    items@[#[trigger] order@[i] as int]@,
                ),
        decreases items.len() - n,
    {
        let ghost before = order@;
        let ghost x = items@[n as int]@;
        let mut p: usize = 0;
        while p < order.len() && !items[n].is_ahead(&items[order[p]])
            invariant
                n < items.len(),
                p <= order@.len(),
                x == items@[n as int]@,
                arranges(order@, n as nat),
                forall|q: int| 0 <= q < p ==> !T::ahead(x, items@[#[trigger] order@[q] as int]@),
            decreases order@.len() - p,
        {
            p += 1;
        }
        order.insert(p, n);
        proof {
            assert forall|i: int, j: int| 0 <= i < j < order@.len() implies !T::ahead(
                items@[#[trigger] order@[j] as int]@,
                items@[#[trigger] order@[i] as int]@,
            ) by {
                let i2 = if i < p { i } else { i - 1 };
                let j2 = if j < p { j } else { j - 1 };
                if i == p {
                    let y = items@[before[j2] as int]@;
                    let z = items@[before[p as int] as int]@;
                    T::ahead_is_an_order(y, x, z);
                    T::ahead_is_an_order(x, y, y);
                    if j2 > p {
                        assert(!T::ahead(items@[before[j2] as int]@, items@[before[p as int] as int]@));
                    }
                } else if j == p {
                    assert(order@[i] == before[i]);
                } else {
                    assert(order@[i] == before[i2] && order@[j] == before[j2]);
                }
            }
            assert forall|i: int, j: int|
                0 <= i < order@.len() && 0 <= j < order@.len() && i != j implies order@[i]
                != order@[j] by {
                let i2 = if i < p { i } else { i - 1 };
                let j2 = if j < p { j } else { j - 1 };
                if i != p {
                    assert(order@[i] == before[i2]);
                }
                if j != p {
                    assert(order@[j] == before[j2]);
                }
            }
            assert forall|i: int| 0 <= i < order@.len() implies #[trigger] order@[i] < n + 1 by {
                let i2 = if i < p { i } else { i - 1 };
                if i != p {
                    assert(order@[i] == before[i2]);
                }
            }
        }
        n += 1;
    }
    order
}

/// A second list of the values with the given numbers.
pub fn pick<T: Entry>(items: &Vec<T>, order: &Vec<usize>) -> (r: Vec<T>)
    requires
        forall|i: int| 0 <= i < order@.len() ==> #[trigger] order@[i] < items@.len(),
    ensures
        views(r@) == order@.map_values(|i: usize| items@[i as int]@),
{
    let mut out: Vec<T> = Vec::new();
    let mut n: usize = 0;
    while n < order.len()
        invariant
            n <= order.len(),
            out@.len() == n,
            forall|i: int| 0 <= i < order@.len() ==> #[trigger] order@[i] < items@.len(),
            forall|i: int| 0 <= i < n ==> (#[trigger] out@[i])@ == items@[order@[i] as int]@,
        decreases order.len() - n,
    {
        out.push(items[order[n]].copy());
        n += 1;
    }
    assert(views(out@) =~= order@.map_values(|i: usize| items@[i as int]@));
    out
}

/// The values of a map in the order of their ranks.
pub fn ranked_values<T: Ranked + Entry>(m: &TextMap<T>) -> (r: Vec<T>)
    ensures
        lists_values(m@, views(r@)),
        ranked::<T>(views(r@)),
{
    let mut items: Vec<T> = Vec::new();
    let count = m.len();
    let mut n: usize = 0;
    while n < count
        invariant
            n <= count == m.order().len(),
            items@.len() == n,
            forall|i: int| 0 <= i < n ==> (#[trigger] items@[i])@ == m@[m.order()[i]],
        decreases count - n,
    {
        items.push(m.value_at(n).copy());
        n += 1;
    }
    let order = rank_order(&items);
    let r = pick(&items, &order);
    proof {
        let ks = order@.map_values(|i: usize| m.order()[i as int]);
        assert(lists_keys(m@, ks)) by {
            assert forall|i: int, j: int|
                0 <= i < ks.len() && 0 <= j < ks.len() && i != j implies ks[i] != ks[j] by {
                assert(order@[i] != order@[j]);
            }
            assert forall|k: Seq<char>| m@.contains_key(k) <==> #[trigger] ks.contains(k) by {
                if m@.contains_key(k) {
                    assert(m.order().contains(k));
                    let at = choose|at: int| 0 <= at < m.order().len() && m.order()[at] == k;
                    lemma_arrangement_is_onto(order@, count as nat, at as usize);
                    let i = choose|i: int| 0 <= i < order@.len() && order@[i] == at as usize;
                    assert(ks[i] == k);
                }
                if ks.contains(k) {
                    let i = choose|i: int| 0 <= i < ks.len() && ks[i] == k;
                    assert(m@.contains_key(m.order()[order@[i] as int]));
                }
            }
        }
        assert(views(r@) =~= ks.map_values(|k: Seq<char>| m@[k]));
    }
    r
}

/// A list that holds `n` different numbers below `n` holds each of them.
pub proof fn lemma_arrangement_is_onto(order: Seq<usize>, n: nat, x: usize)
    requires
        arranges(order, n),
        x < n,
    ensures
        order.contains(x),
{
    let all = Set::new(|i: int| 0 <= i < n);
    vstd::set_lib::lemma_int_range(0, n as int);
    assert(all =~= vstd::set_lib::set_int_range(0, n as int));
    let ints = order.map_values(|i: usize| i as int);
    assert(ints.no_duplicates());
    ints.unique_seq_to_set();
    assert(ints.to_set().subset_of(all));
    vstd::set_lib::lemma_subset_equality(ints.to_set(), all);
    assert(ints.to_set().contains(x as int));
    let i = choose|i: int| 0 <= i < ints.len() && ints[i] == x as int;
    assert(order[i] == x);
}

// ---------------------------------------------------------------------------------------------
// Laws
// ---------------------------------------------------------------------------------------------

/// What the values of a list stand for is told place by place.
pub proof fn law_views_place_by_place<T: View>(s: Seq<T>, i: int)
    requires
        0 <= i < s.len(),
    ensures
        views(s).len() == s.len(),
        views(s)[i] == s[i]@,
{
}

/// A list of the values of a map is as long as the map has keys, has the value under each key, and
/// nothing else.
pub proof fn law_list_has_all_values<W>(m: Map<Seq<char>, W>, values: Seq<W>)
    requires
        lists_values(m, values),
    ensures
        values.len() == m.dom().len(),
        forall|k: Seq<char>| #[trigger] m.contains_key(k) ==> values.contains(m[k]),
        forall|v: W| #[trigger]
            values.contains(v) ==> exists|k: Seq<char>| #[trigger]
                m.contains_key(k) && m[k] == v,
{
    let ks = choose|ks: Seq<Seq<char>>| #[trigger]
        lists_keys(m, ks) && values == ks.map_values(|k: Seq<char>| m[k]);
    ks.unique_seq_to_set();
    assert(ks.to_set() =~= m.dom()) by {
        assert forall|k: Seq<char>| ks.to_set().contains(k) <==> m.dom().contains(k) by {
            assert(m.contains_key(k) <==> ks.contains(k));
        }
    }
    assert forall|k: Seq<char>| #[trigger] m.contains_key(k) implies values.contains(m[k]) by {
        assert(ks.contains(k));
        let i = choose|i: int| 0 <= i < ks.len() && ks[i] == k;
        assert(values[i] == m[k]);
    }
    assert forall|v: W| #[trigger] values.contains(v) implies exists|k: Seq<char>| #[trigger]
        m.contains_key(k) && m[k] == v by {
        let i = choose|i: int| 0 <= i < values.len() && values[i] == v;
        assert(ks.contains(ks[i]));
        assert(m.contains_key(ks[i]));
    }
}

/// In a list that is in order, a value that has to come before another one does not stand behind
/// it.
pub proof fn law_order_of_a_list<T: Ranked>(s: Seq<T::V>, i: int, j: int)
    requires
        ranked::<T>(s),
        0 <= i < s.len(),
        0 <= j < s.len(),
        i != j,
        T::ahead(s[i], s[j]),
    ensures
        i < j,
{
}

} // verus!
