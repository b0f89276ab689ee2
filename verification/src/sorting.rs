//! Sorting that keeps ties in the order of arrival.
//!
//! Items are ordered by an integer key.  [`stable_sorted`] says what the
//! sorted sequence is; [`stable_sorted_is_ordered`], [`stable_sorted_keeps_ties`]
//! and [`stable_sort_is_unique`] say why it deserves the name.

use vstd::prelude::*;
use vstd::seq_lib::*;

verus! {

/// The test that picks the items whose key is `k`.
pub open spec fn keyed<V>(key: spec_fn(V) -> int, k: int) -> spec_fn(V) -> bool {
    |v: V| key(v) == k
}

/// Keys never fall from one item to the next.
pub open spec fn ascending<V>(s: Seq<V>, key: spec_fn(V) -> int) -> bool {
    forall|i: int, j: int| 0 <= i < j < s.len() ==> key(s[i]) <= key(s[j])
}

/// Keys never rise from one item to the next.
pub open spec fn descending<V>(s: Seq<V>, key: spec_fn(V) -> int) -> bool {
    forall|i: int, j: int| 0 <= i < j < s.len() ==> key(s[i]) >= key(s[j])
}

/// For every key, `out` holds the items with that key that `inp` holds, in
/// the order in which `inp` holds them.
pub open spec fn keeps_ties<V>(out: Seq<V>, inp: Seq<V>, key: spec_fn(V) -> int) -> bool {
    forall|k: int| #[trigger] out.filter(keyed(key, k)) == inp.filter(keyed(key, k))
}

/// `out` is `inp` sorted by key, ties in the order of arrival.
pub open spec fn is_stable_sort<V>(out: Seq<V>, inp: Seq<V>, key: spec_fn(V) -> int) -> bool {
    ascending(out, key) && keeps_ties(out, inp, key)
}

/// Where an item with key `k` joins `s`: right behind the last item whose key
/// is no greater.
pub open spec fn slot<V>(s: Seq<V>, key: spec_fn(V) -> int, k: int) -> int
    decreases s.len(),
{
    if s.len() == 0 {
        0
    } else if key(s.last()) <= k {
        s.len() as int
    } else {
        slot(s.drop_last(), key, k)
    }
}

/// The items of `s` sorted by key, ties in the order of arrival: each item in
/// turn joins those that came before it at its `slot`.
pub open spec fn stable_sorted<V>(s: Seq<V>, key: spec_fn(V) -> int) -> Seq<V>
    decreases s.len(),
{
    if s.len() == 0 {
        Seq::empty()
    } else {
        let before = stable_sorted(s.drop_last(), key);
        before.insert(slot(before, key, key(s.last())), s.last())
    }
}

/// A slot lies within the sequence, and every item from it on has a greater
/// key.
pub proof fn slot_bounds<V>(s: Seq<V>, key: spec_fn(V) -> int, k: int)
    ensures
        0 <= slot(s, key, k) <= s.len(),
        forall|j: int| slot(s, key, k) <= j < s.len() ==> key(#[trigger] s[j]) > k,
        slot(s, key, k) > 0 ==> key(s[slot(s, key, k) - 1]) <= k,
    decreases s.len(),
{
    if s.len() > 0 && key(s.last()) > k {
        slot_bounds(s.drop_last(), key, k);
        assert forall|j: int| slot(s, key, k) <= j < s.len() implies key(#[trigger] s[j]) > k by {
            if j < s.len() - 1 {
                assert(s[j] == s.drop_last()[j]);
            }
        }
    }
}

/// The place that splits a sequence into keys no greater than `k` and keys
/// greater than `k` is the slot of `k`.
pub proof fn slot_is_split<V>(s: Seq<V>, key: spec_fn(V) -> int, k: int, p: int)
    requires
        0 <= p <= s.len(),
        forall|j: int| 0 <= j < p ==> key(#[trigger] s[j]) <= k,
        forall|j: int| p <= j < s.len() ==> key(#[trigger] s[j]) > k,
    ensures
        slot(s, key, k) == p,
    decreases s.len(),
{
    if s.len() > 0 {
        if key(s.last()) <= k {
            if p < s.len() {
                assert(key(s[s.len() - 1]) > k);
            }
        } else {
            if p == s.len() {
                assert(key(s[s.len() - 1]) <= k);
            }
            let front = s.drop_last();
            assert forall|j: int| 0 <= j < p implies key(#[trigger] front[j]) <= k by {
                assert(front[j] == s[j]);
            }
            assert forall|j: int| p <= j < front.len() implies key(#[trigger] front[j]) > k by {
                assert(front[j] == s[j]);
            }
            slot_is_split(front, key, k, p);
        }
    }
}

/// An ascending sequence stays ascending when an item joins it at its slot,
/// and the items of every key keep their order, the newcomer last among its
/// equals.
pub proof fn joining_at_slot<V>(out: Seq<V>, inp: Seq<V>, key: spec_fn(V) -> int, x: V)
    requires
        is_stable_sort(out, inp, key),
    ensures
        is_stable_sort(out.insert(slot(out, key, key(x)), x), inp.push(x), key),
{
    let p = slot(out, key, key(x));
    let joined = out.insert(p, x);
    slot_bounds(out, key, key(x));
    assert forall|j: int| 0 <= j < p implies key(#[trigger] out[j]) <= key(x) by {
        assert(key(out[j]) <= key(out[p - 1]));
    }
    assert forall|i: int, j: int| 0 <= i < j < joined.len() implies key(joined[i]) <= key(
        joined[j],
    ) by {
        let a = if i < p { out[i] } else if i == p { x } else { out[i - 1] };
        let b = if j < p { out[j] } else if j == p { x } else { out[j - 1] };
        assert(joined[i] == a);
        assert(joined[j] == b);
    }
    let front = out.subrange(0, p);
    let back = out.subrange(p, out.len() as int);
    assert(out =~= front + back);
    assert(joined =~= front.push(x) + back);
    assert forall|k: int| #[trigger] joined.filter(keyed(key, k)) == inp.push(x).filter(keyed(key, k)) by {
        let f = keyed(key, k);
        assert(out.filter(f) == inp.filter(f));
        Seq::filter_distributes_over_add(front, back, f);
        Seq::filter_distributes_over_add(front.push(x), back, f);
        front.lemma_filter_push(x, f);
        inp.lemma_filter_push(x, f);
        if f(x) {
            assert(back.all(|v: V| !f(v)));
            back.lemma_all_neg_filter_empty(f);
            assert(back.filter(f) =~= Seq::<V>::empty());
            assert(front.filter(f).push(x) + back.filter(f) =~= (front.filter(f) + back.filter(
                f,
            )).push(x));
        }
    }
}

/// The sorted sequence is ascending and keeps ties in the order of arrival.
pub proof fn stable_sorted_is_stable<V>(s: Seq<V>, key: spec_fn(V) -> int)
    ensures
        is_stable_sort(stable_sorted(s, key), s, key),
    decreases s.len(),
{
    if s.len() == 0 {
        assert(s =~= stable_sorted(s, key));
    } else {
        stable_sorted_is_stable(s.drop_last(), key);
        joining_at_slot(stable_sorted(s.drop_last(), key), s.drop_last(), key, s.last());
        assert(s.drop_last().push(s.last()) =~= s);
    }
}

/// Keys never fall along the sorted sequence.
pub proof fn stable_sorted_is_ordered<V>(s: Seq<V>, key: spec_fn(V) -> int)
    ensures
        ascending(stable_sorted(s, key), key),
{
    stable_sorted_is_stable(s, key);
}

/// The items of every key come out of sorting in the order in which they went
/// in.
pub proof fn stable_sorted_keeps_ties<V>(s: Seq<V>, key: spec_fn(V) -> int, k: int)
    ensures
        stable_sorted(s, key).filter(keyed(key, k)) == s.filter(keyed(key, k)),
{
    stable_sorted_is_stable(s, key);
}

/// Sorting neither adds nor drops an item.
pub proof fn stable_sorted_is_permutation<V>(s: Seq<V>, key: spec_fn(V) -> int)
    ensures
        stable_sorted(s, key).len() == s.len(),
        stable_sorted(s, key).to_multiset() == s.to_multiset(),
    decreases s.len(),
{
    if s.len() == 0 {
        assert(s =~= stable_sorted(s, key));
    } else {
        let before = stable_sorted(s.drop_last(), key);
        stable_sorted_is_permutation(s.drop_last(), key);
        slot_bounds(before, key, key(s.last()));
        to_multiset_insert(before, slot(before, key, key(s.last())), s.last());
        to_multiset_build(s.drop_last(), s.last());
        assert(s.drop_last().push(s.last()) =~= s);
    }
}

/// What holds of every item that goes into sorting holds of every item that
/// comes out.
pub proof fn stable_sorted_keeps_all<V>(
    s: Seq<V>,
    key: spec_fn(V) -> int,
    holds: spec_fn(V) -> bool,
)
    requires
        forall|i: int| 0 <= i < s.len() ==> holds(#[trigger] s[i]),
    ensures
        forall|i: int|
            0 <= i < stable_sorted(s, key).len() ==> holds(#[trigger] stable_sorted(s, key)[i]),
    decreases s.len(),
{
    if s.len() > 0 {
        let front = s.drop_last();
        let before = stable_sorted(front, key);
        let p = slot(before, key, key(s.last()));
        assert forall|i: int| 0 <= i < front.len() implies holds(#[trigger] front[i]) by {
            assert(front[i] == s[i]);
        }
        stable_sorted_keeps_all(front, key, holds);
        slot_bounds(before, key, key(s.last()));
        let after = before.insert(p, s.last());
        assert forall|i: int| 0 <= i < after.len() implies holds(#[trigger] after[i]) by {
            if i < p {
                assert(after[i] == before[i]);
            } else if i == p {
                assert(after[i] == s[s.len() - 1]);
            } else {
                assert(after[i] == before[i - 1]);
            }
        }
    }
}

/// The last item of a sequence has a key that some item of any sequence with
/// the same ties also has: so the greatest key of one is a key of the other.
proof fn last_key_is_shared<V>(a: Seq<V>, b: Seq<V>, key: spec_fn(V) -> int)
    requires
        a.len() > 0,
        keeps_ties(a, b, key),
    ensures
        exists|j: int| 0 <= j < b.len() && key(#[trigger] b[j]) == key(a.last()),
{
    let f = keyed(key, key(a.last()));
    assert(a.filter(f) == b.filter(f));
    assert(f(a[a.len() - 1]));
    a.lemma_filter_contains(f, a.len() - 1);
    let z = a.last();
    assert(b.filter(f).contains(z));
    b.lemma_filter_contains_rev(f, z);
    let j = choose|j: int| 0 <= j < b.len() && b[j] == z;
    assert(key(b[j]) == key(a.last()));
}

/// Two ascending sequences with the same ties are one sequence.
pub proof fn same_ties_same_order<V>(a: Seq<V>, b: Seq<V>, key: spec_fn(V) -> int)
    requires
        ascending(a, key),
        ascending(b, key),
        keeps_ties(a, b, key),
    ensures
        a == b,
    decreases a.len() + b.len(),
{
    assert(keeps_ties(b, a, key)) by {
        assert forall|k: int| #[trigger] b.filter(keyed(key, k)) == a.filter(keyed(key, k)) by {
            assert(a.filter(keyed(key, k)) == b.filter(keyed(key, k)));
        }
    }
    if a.len() == 0 && b.len() == 0 {
        assert(a =~= b);
    } else if a.len() == 0 {
        last_key_is_shared(b, a, key);
    } else if b.len() == 0 {
        last_key_is_shared(a, b, key);
    } else {
        let x = a.last();
        let y = b.last();
        last_key_is_shared(a, b, key);
        last_key_is_shared(b, a, key);
        assert(key(x) == key(y));
        let front_a = a.drop_last();
        let front_b = b.drop_last();
        assert(a =~= front_a.push(x));
        assert(b =~= front_b.push(y));
        assert forall|k: int| #[trigger]
            front_a.filter(keyed(key, k)) == front_b.filter(keyed(key, k)) by {
            let f = keyed(key, k);
            assert(a.filter(f) == b.filter(f));
            front_a.lemma_filter_push(x, f);
            front_b.lemma_filter_push(y, f);
            if f(x) {
                let fa = front_a.filter(f);
                let fb = front_b.filter(f);
                assert(fa.push(x) == fb.push(y));
                assert(fa =~= fa.push(x).drop_last());
                assert(fb =~= fb.push(y).drop_last());
            }
        }
        assert(x == y) by {
            let f = keyed(key, key(x));
            assert(a.filter(f) == b.filter(f));
            front_a.lemma_filter_push(x, f);
            front_b.lemma_filter_push(y, f);
            assert(front_a.filter(f).push(x).last() == x);
            assert(front_b.filter(f).push(y).last() == y);
        }
        assert(ascending(front_a, key)) by {
            assert forall|i: int, j: int| 0 <= i < j < front_a.len() implies key(front_a[i]) <= key(
                front_a[j],
            ) by {
                assert(key(a[i]) <= key(a[j]));
            }
        }
        assert(ascending(front_b, key)) by {
            assert forall|i: int, j: int| 0 <= i < j < front_b.len() implies key(front_b[i]) <= key(
                front_b[j],
            ) by {
                assert(key(b[i]) <= key(b[j]));
            }
        }
        same_ties_same_order(front_a, front_b, key);
    }
}

/// There is one way only to sort a sequence by key with ties in the order of
/// arrival: the way of `stable_sorted`.
pub proof fn stable_sort_is_unique<V>(out: Seq<V>, inp: Seq<V>, key: spec_fn(V) -> int)
    requires
        is_stable_sort(out, inp, key),
    ensures
        out == stable_sorted(inp, key),
{
    let sorted = stable_sorted(inp, key);
    stable_sorted_is_stable(inp, key);
    assert forall|k: int| #[trigger] out.filter(keyed(key, k)) == sorted.filter(keyed(key, k)) by {
        assert(sorted.filter(keyed(key, k)) == inp.filter(keyed(key, k)));
    }
    same_ties_same_order(out, sorted, key);
}

/// Sorts references by the keys handed along with them, ties in the order of
/// arrival.
pub(crate) fn sorted_refs<'a, T: DeepView>(
    items: &Vec<&'a T>,
    keys: &Vec<i128>,
    Ghost(key): Ghost<spec_fn(T::V) -> int>,
) -> (out: Vec<&'a T>)
    requires
        keys.len() == items.len(),
        forall|i: int| 0 <= i < items.len() ==> keys[i] as int == key(#[trigger] items[i].deep_view()),
    ensures
        out.deep_view() == stable_sorted(items.deep_view(), key),
{
    let mut out: Vec<&'a T> = Vec::new();
    let mut out_keys: Vec<i128> = Vec::new();
    let mut i: usize = 0;
    assert(items.deep_view().take(0) =~= Seq::<T::V>::empty());
    assert(out.deep_view() =~= Seq::<T::V>::empty());
    while i < items.len()
        invariant
            i <= items.len(),
            keys.len() == items.len(),
            out.len() == i,
            out_keys.len() == i,
            forall|j: int|
                0 <= j < items.len() ==> keys[j] as int == key(#[trigger] items[j].deep_view()),
            forall|j: int| 0 <= j < i ==> out_keys[j] as int == key(#[trigger] out[j].deep_view()),
            out.deep_view() == stable_sorted(items.deep_view().take(i as int), key),
        decreases items.len() - i,
    {
        let k = keys[i];
        let ghost sorted = out.deep_view();
        let ghost seen = items.deep_view().take(i as int);
        proof {
            stable_sorted_is_stable(seen, key);
        }
        let mut p: usize = 0;
        while p < out_keys.len() && out_keys[p] <= k
            invariant
                p <= out_keys.len(),
                forall|j: int| 0 <= j < p ==> out_keys[j] <= k,
            decreases out_keys.len() - p,
        {
            p += 1;
        }
        proof {
            assert forall|j: int| 0 <= j < p implies key(#[trigger] sorted[j]) <= k by {
                assert(out_keys[j] as int == key(out[j].deep_view()));
            }
            assert forall|j: int| p <= j < sorted.len() implies key(#[trigger] sorted[j]) > k by {
                assert(out_keys[p as int] as int == key(out[p as int].deep_view()));
                assert(out_keys[j] as int == key(out[j].deep_view()));
                assert(key(sorted[p as int]) <= key(sorted[j]));
            }
            slot_is_split(sorted, key, k as int, p as int);
        }
        out.insert(p, items[i]);
        out_keys.insert(p, k);
        proof {
            let x = items[i as int].deep_view();
            let next = items.deep_view().take(i + 1);
            assert(next.drop_last() =~= seen);
            assert(next.last() == x);
            assert(out.deep_view() =~= sorted.insert(p as int, x));
            assert forall|j: int| 0 <= j < i + 1 implies out_keys[j] as int == key(
                #[trigger] out[j].deep_view(),
            ) by {
                if j < p {
                    assert(out[j].deep_view() == sorted[j]);
                } else if j > p {
                    assert(out[j].deep_view() == sorted[j - 1]);
                }
            }
        }
        i += 1;
    }
    assert(items.deep_view().take(items.len() as int) =~= items.deep_view());
    out
}

} // verus!
