//! Dependency coordinates: which declared dependencies are well formed,
//! and the canonical order their rendered entries appear in. Rendering is
//! deterministic: it depends only on which coordinates are present, never
//! on the order a dependency map happens to be iterated in.

use vstd::prelude::*;
use vstd::seq_lib::{lemma_sorted_unique, lemma_multiset_commutative};
use vstd::multiset::Multiset;
use crate::config::Dependency;
use crate::text::{split_char, split_string, sort_strings, str_le_ord, lemma_str_le_total_ordering};

verus! {

/// The coordinate strings of a dependency list, in declaration order.
pub open spec fn dep_coords(deps: Seq<Dependency>) -> Seq<Seq<char>> {
    deps.map_values(|d: Dependency| d.coordinate@)
}

/// A coordinate is well formed when it has exactly three colon-separated
/// segments: group, artifact and version.
pub open spec fn valid_coord(c: Seq<char>) -> bool {
    split_char(c, ':').len() == 3
}

/// `valid_coord` as a predicate value.
pub open spec fn valid_coord_pred() -> spec_fn(Seq<char>) -> bool {
    |c: Seq<char>| valid_coord(c)
}

/// The well-formed coordinates of a dependency list, in declaration order.
pub open spec fn valid_coords(deps: Seq<Dependency>) -> Seq<Seq<char>> {
    dep_coords(deps).filter(valid_coord_pred())
}

/// The canonical rendering order: the well-formed coordinates sorted
/// lexicographically.
pub open spec fn sorted_coords(deps: Seq<Dependency>) -> Seq<Seq<char>> {
    valid_coords(deps).sort_by(str_le_ord())
}

proof fn lemma_filter_push<A>(s: Seq<A>, x: A, pred: spec_fn(A) -> bool)
    ensures
        s.push(x).filter(pred) == if pred(x) {
            s.filter(pred).push(x)
        } else {
            s.filter(pred)
        },
{
    reveal(Seq::filter);
    assert(s.push(x).drop_last() =~= s);
    assert(s.push(x).last() == x);
}

/// Collects the well-formed coordinates of a dependency list and sorts
/// them into the canonical rendering order.
pub fn sorted_valid_coordinates(deps: &Vec<Dependency>) -> (r: Vec<String>)
    ensures
        r.deep_view() == sorted_coords(deps@),
{
    let mut collected: Vec<String> = Vec::new();
    let n = deps.len();
    proof {
        assert(deps@.take(0) =~= Seq::<Dependency>::empty());
        reveal(Seq::filter);
        assert(dep_coords(deps@.take(0)) =~= Seq::<Seq<char>>::empty());
        assert(collected.deep_view() =~= valid_coords(deps@.take(0)));
    }
    for i in 0..n
        invariant
            n == deps.len(),
            collected.deep_view() == valid_coords(deps@.take(i as int)),
    {
        let parts = split_string(deps[i].coordinate.as_str(), ':');
        let ghost before = collected.deep_view();
        if parts.len() == 3 {
            collected.push(deps[i].coordinate.clone());
        }
        proof {
            assert(dep_coords(deps@.take(i + 1)) =~= dep_coords(deps@.take(i as int)).push(
                deps@[i as int].coordinate@,
            ));
            lemma_filter_push(
                dep_coords(deps@.take(i as int)),
                deps@[i as int].coordinate@,
                valid_coord_pred(),
            );
            if parts.len() == 3 {
                assert(collected.deep_view() =~= before.push(deps@[i as int].coordinate@));
            }
        }
    }
    proof {
        assert(deps@.take(n as int) =~= deps@);
    }
    sort_strings(&collected)
}

proof fn lemma_filter_singleton<A>(x: A, pred: spec_fn(A) -> bool)
    ensures
        seq![x].filter(pred) == if pred(x) {
            seq![x]
        } else {
            Seq::<A>::empty()
        },
{
    reveal_with_fuel(Seq::filter, 2);
    assert(seq![x].drop_last() =~= Seq::<A>::empty());
    assert(seq![x].last() == x);
    if pred(x) {
        assert(Seq::<A>::empty().push(x) =~= seq![x]);
    }
}

/// Filtering commutes with permutation: two sequences holding the same
/// multiset of elements filter to the same multiset.
proof fn lemma_filter_multiset_permutation<A>(s1: Seq<A>, s2: Seq<A>, pred: spec_fn(A) -> bool)
    requires
        s1.to_multiset() == s2.to_multiset(),
    ensures
        s1.filter(pred).to_multiset() == s2.filter(pred).to_multiset(),
    decreases s1.len(),
{
    broadcast use vstd::seq_lib::group_to_multiset_ensures;

    if s1.len() == 0 {
        assert(s2.to_multiset().len() == 0);
        assert(s2.len() == 0);
        assert(s1 =~= s2);
    } else {
        let x = s1.last();
        let rest1 = s1.drop_last();
        assert(s1 =~= rest1.push(x));
        assert(s1.to_multiset() =~= rest1.to_multiset().insert(x));
        assert(s2.to_multiset().count(x) > 0);
        assert(s2.contains(x));
        let i = choose|i: int| 0 <= i < s2.len() && s2[i] == x;
        assert(s2.remove(i).to_multiset() =~= s2.to_multiset().remove(x));
        assert(rest1.to_multiset() =~= s1.to_multiset().remove(x));
        lemma_filter_multiset_permutation(rest1, s2.remove(i), pred);
        lemma_filter_push(rest1, x, pred);

        let front = s2.subrange(0, i);
        let back = s2.subrange(i + 1, s2.len() as int);
        assert(s2 =~= front + (seq![x] + back));
        assert(s2.remove(i) =~= front + back);
        Seq::filter_distributes_over_add(front, seq![x] + back, pred);
        Seq::filter_distributes_over_add(seq![x], back, pred);
        Seq::filter_distributes_over_add(front, back, pred);
        lemma_filter_singleton(x, pred);
        let ff = front.filter(pred);
        let fb = back.filter(pred);
        lemma_multiset_commutative(ff, seq![x].filter(pred) + fb);
        lemma_multiset_commutative(seq![x].filter(pred), fb);
        lemma_multiset_commutative(ff, fb);
        if pred(x) {
            assert(seq![x].to_multiset() =~= Multiset::<A>::empty().insert(x));
            assert(s2.filter(pred).to_multiset() =~= s2.remove(i).filter(pred).to_multiset().insert(
                x,
            ));
            assert(s1.filter(pred).to_multiset() =~= rest1.filter(pred).to_multiset().insert(x));
        } else {
            assert(seq![x].filter(pred).to_multiset() =~= Multiset::<A>::empty());
            assert(s2.filter(pred).to_multiset() =~= s2.remove(i).filter(pred).to_multiset());
            assert(s1.filter(pred).to_multiset() =~= rest1.filter(pred).to_multiset());
        }
    }
}

/// An empty dependency list renders no coordinates.
pub proof fn lemma_sorted_coords_empty()
    ensures
        sorted_coords(Seq::<Dependency>::empty()) == Seq::<Seq<char>>::empty(),
{
    reveal(Seq::filter);
    lemma_str_le_total_ordering();
    assert(dep_coords(Seq::<Dependency>::empty()) =~= Seq::<Seq<char>>::empty());
    let empty_coords = valid_coords(Seq::<Dependency>::empty());
    assert(empty_coords =~= Seq::<Seq<char>>::empty());
    empty_coords.lemma_sort_by_ensures(str_le_ord());
    broadcast use vstd::seq_lib::group_to_multiset_ensures;

    assert(empty_coords.to_multiset().len() == 0);
    assert(sorted_coords(Seq::<Dependency>::empty()).to_multiset().len() == 0);
    assert(sorted_coords(Seq::<Dependency>::empty()).len() == 0);
    assert(sorted_coords(Seq::<Dependency>::empty()) =~= Seq::<Seq<char>>::empty());
}

/// Every coordinate in the canonical rendering order is well formed.
pub proof fn lemma_sorted_coords_valid(deps: Seq<Dependency>)
    ensures
        forall|i: int|
            0 <= i < sorted_coords(deps).len() ==> valid_coord(#[trigger] sorted_coords(deps)[i]),
{
    broadcast use vstd::seq_lib::group_to_multiset_ensures;

    lemma_str_le_total_ordering();
    valid_coords(deps).lemma_sort_by_ensures(str_le_ord());
    assert forall|i: int| 0 <= i < sorted_coords(deps).len() implies valid_coord(
        #[trigger] sorted_coords(deps)[i],
    ) by {
        let x = sorted_coords(deps)[i];
        assert(sorted_coords(deps).contains(x));
        assert(sorted_coords(deps).to_multiset().count(x) > 0);
        assert(valid_coords(deps).to_multiset().count(x) > 0);
        assert(valid_coords(deps).contains(x));
        let j = choose|j: int| 0 <= j < valid_coords(deps).len() && valid_coords(deps)[j] == x;
        dep_coords(deps).lemma_filter_pred(valid_coord_pred(), j);
    }
}

/// Deterministic ordering at the coordinate level: dependency lists that
/// present the same coordinates — in any order, with any names — have the
/// same canonical rendering order.
pub proof fn lemma_sorted_coords_deterministic(d1: Seq<Dependency>, d2: Seq<Dependency>)
    requires
        dep_coords(d1).to_multiset() == dep_coords(d2).to_multiset(),
    ensures
        sorted_coords(d1) == sorted_coords(d2),
{
    let leq = str_le_ord();
    lemma_str_le_total_ordering();
    lemma_filter_multiset_permutation(dep_coords(d1), dep_coords(d2), valid_coord_pred());
    valid_coords(d1).lemma_sort_by_ensures(leq);
    valid_coords(d2).lemma_sort_by_ensures(leq);
    assert(sorted_coords(d1).to_multiset() =~= sorted_coords(d2).to_multiset());
    lemma_sorted_unique(sorted_coords(d1), sorted_coords(d2), leq);
    assert(sorted_coords(d1) =~= sorted_coords(d2));
}

} // verus!
