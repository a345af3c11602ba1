//! Stable ordering of a sequence under a relation that says which of two
//! items has to stand first.

use vstd::prelude::*;

verus! {

/// What `before` says of three items where it is the strict part of an
/// order with ties: where `a` stands before `c`, any `b` stands behind `a`
/// or before `c`.
pub open spec fn splits<T>(before: spec_fn(T, T) -> bool, a: T, b: T, c: T) -> bool {
    before(a, c) ==> before(a, b) || before(b, c)
}

/// What `before` says of two items where it is strict: not both stand
/// before the other.
pub open spec fn one_way<T>(before: spec_fn(T, T) -> bool, a: T, b: T) -> bool {
    before(a, b) ==> !before(b, a)
}

/// True when `before` is the strict part of an order in which items may
/// tie.
pub open spec fn is_strict_weak<T>(before: spec_fn(T, T) -> bool) -> bool {
    &&& forall|a: T, b: T| #[trigger] one_way(before, a, b)
    &&& forall|a: T, b: T, c: T| #[trigger] splits(before, a, b, c)
}

/// True when no item of `s` stands behind one that it has to precede.
pub open spec fn ordered<T>(s: Seq<T>, before: spec_fn(T, T) -> bool) -> bool {
    forall|i: int, j: int| 0 <= i < j < s.len() ==> !before(#[trigger] s[j], #[trigger] s[i])
}

/// Where `x` goes in the ordered `s`: right behind the last item that it
/// does not have to precede.
pub open spec fn slot<T>(s: Seq<T>, x: T, before: spec_fn(T, T) -> bool) -> int
    decreases s.len(),
{
    if s.len() > 0 && before(x, s.last()) {
        slot(s.drop_last(), x, before)
    } else {
        s.len() as int
    }
}

/// The items of `s` in order, those that tie in the order in which `s` has
/// them.
pub open spec fn sorted<T>(s: Seq<T>, before: spec_fn(T, T) -> bool) -> Seq<T>
    decreases s.len(),
{
    if s.len() == 0 {
        s
    } else {
        let head = sorted(s.drop_last(), before);
        head.insert(slot(head, s.last(), before), s.last())
    }
}

/// The slot of `x` lies within `s`, every item from it on is one that `x`
/// precedes, and the item before it is not.
pub proof fn lemma_slot<T>(s: Seq<T>, x: T, before: spec_fn(T, T) -> bool)
    ensures
        0 <= slot(s, x, before) <= s.len(),
        forall|k: int| slot(s, x, before) <= k < s.len() ==> before(x, #[trigger] s[k]),
        slot(s, x, before) > 0 ==> !before(x, s[slot(s, x, before) - 1]),
    decreases s.len(),
{
    if s.len() > 0 && before(x, s.last()) {
        let t = s.drop_last();
        lemma_slot(t, x, before);
        assert forall|k: int| slot(s, x, before) <= k < s.len() implies before(
            x,
            #[trigger] s[k],
        ) by {
            if k < t.len() {
                assert(t[k] == s[k]);
            }
        }
        if slot(s, x, before) > 0 {
            assert(t[slot(s, x, before) - 1] == s[slot(s, x, before) - 1]);
        }
    }
}

/// The slot is the only place with what `lemma_slot` says of it.
pub proof fn lemma_slot_found<T>(s: Seq<T>, x: T, before: spec_fn(T, T) -> bool, j: int)
    requires
        0 <= j <= s.len(),
        forall|k: int| j <= k < s.len() ==> before(x, #[trigger] s[k]),
        j > 0 ==> !before(x, s[j - 1]),
    ensures
        slot(s, x, before) == j,
    decreases s.len(),
{
    if s.len() > 0 && before(x, s.last()) {
        assert(j < s.len());
        let t = s.drop_last();
        assert forall|k: int| j <= k < t.len() implies before(x, #[trigger] t[k]) by {
            assert(t[k] == s[k]);
        }
        lemma_slot_found(t, x, before, j);
    } else if j < s.len() {
        assert(before(x, s[s.len() - 1]));
    }
}

/// Putting an item into its slot keeps an ordered sequence ordered.
pub proof fn lemma_insert_keeps_order<T>(s: Seq<T>, x: T, before: spec_fn(T, T) -> bool)
    requires
        is_strict_weak(before),
        ordered(s, before),
    ensures
        ordered(s.insert(slot(s, x, before), x), before),
{
    let j = slot(s, x, before);
    lemma_slot(s, x, before);
    let r = s.insert(j, x);
    assert forall|a: int, b: int| 0 <= a < b < r.len() implies !before(
        #[trigger] r[b],
        #[trigger] r[a],
    ) by {
        if b == j {
            assert(r[a] == s[a]);
            assert(splits(before, x, s[j - 1], s[a]));
            if a < j - 1 {
                assert(!before(s[j - 1], s[a]));
            }
        } else if a == j {
            assert(r[b] == s[b - 1]);
            assert(before(x, s[b - 1]));
            assert(one_way(before, x, s[b - 1]));
        } else {
            let a0 = if a < j {
                a
            } else {
                a - 1
            };
            let b0 = if b < j {
                b
            } else {
                b - 1
            };
            assert(r[a] == s[a0]);
            assert(r[b] == s[b0]);
            assert(a0 < b0);
        }
    }
}

/// Sorting puts every sequence in order, and keeps its length.
pub proof fn lemma_sorted_ordered<T>(s: Seq<T>, before: spec_fn(T, T) -> bool)
    requires
        is_strict_weak(before),
    ensures
        ordered(sorted(s, before), before),
        sorted(s, before).len() == s.len(),
    decreases s.len(),
{
    if s.len() > 0 {
        lemma_sorted_ordered(s.drop_last(), before);
        let head = sorted(s.drop_last(), before);
        lemma_slot(head, s.last(), before);
        lemma_insert_keeps_order(head, s.last(), before);
    }
}

/// Sorting keeps every item, as often as it was there.
pub proof fn lemma_sorted_permutes<T>(s: Seq<T>, before: spec_fn(T, T) -> bool)
    ensures
        sorted(s, before).to_multiset() == s.to_multiset(),
    decreases s.len(),
{
    broadcast use vstd::seq_lib::group_to_multiset_ensures;

    if s.len() > 0 {
        let t = s.drop_last();
        lemma_sorted_permutes(t, before);
        let head = sorted(t, before);
        let j = slot(head, s.last(), before);
        lemma_slot(head, s.last(), before);
        vstd::seq_lib::to_multiset_insert(head, j, s.last());
        assert(t.push(s.last()) =~= s);
    } else {
        assert(sorted(s, before) =~= s);
    }
}

/// Sorting changes nothing in which items a sequence holds.
pub proof fn lemma_sorted_contains<T>(s: Seq<T>, before: spec_fn(T, T) -> bool)
    ensures
        forall|x: T| #[trigger] sorted(s, before).contains(x) <==> s.contains(x),
{
    broadcast use vstd::seq_lib::group_to_multiset_ensures;

    lemma_sorted_permutes(s, before);
    let r = sorted(s, before);
    assert forall|x: T| #[trigger] r.contains(x) <==> s.contains(x) by {
        assert(r.contains(x) <==> r.to_multiset().count(x) > 0);
        assert(s.contains(x) <==> s.to_multiset().count(x) > 0);
    }
}

/// An ordered sequence is its own sorting.
pub proof fn lemma_sorted_of_ordered<T>(s: Seq<T>, before: spec_fn(T, T) -> bool)
    requires
        ordered(s, before),
    ensures
        sorted(s, before) == s,
    decreases s.len(),
{
    if s.len() > 0 {
        let t = s.drop_last();
        assert forall|i: int, j: int| 0 <= i < j < t.len() implies !before(
            #[trigger] t[j],
            #[trigger] t[i],
        ) by {
            assert(t[i] == s[i] && t[j] == s[j]);
        }
        lemma_sorted_of_ordered(t, before);
        if t.len() > 0 {
            assert(t.last() == s[t.len() - 1]);
            assert(!before(s[s.len() - 1], s[t.len() - 1]));
        }
        assert(slot(t, s.last(), before) == t.len());
        assert(t.insert(t.len() as int, s.last()) =~= s);
    }
}

/// Sorting a sorted sequence again changes nothing.
pub proof fn lemma_sorted_idempotent<T>(s: Seq<T>, before: spec_fn(T, T) -> bool)
    requires
        is_strict_weak(before),
    ensures
        sorted(sorted(s, before), before) == sorted(s, before),
{
    lemma_sorted_ordered(s, before);
    lemma_sorted_of_ordered(sorted(s, before), before);
}

} // verus!
