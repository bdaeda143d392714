//! General laws of the container, stated over the mathematical views that
//! the operations' contracts use.

use vstd::prelude::*;

use crate::avec::view_eq_by;
use vstd::std_specs::cmp::PartialEqSpec;

verus! {

/// The view a sequence of single pushes leaves behind: starting from
/// `pre`, push each element of `vals` in order. This is exactly the step
/// that `AVec::push` ensures, iterated.
pub open spec fn pushed_view<T>(pre: Seq<T>, vals: Seq<T>) -> Seq<T>
    decreases vals.len(),
{
    if vals.len() == 0 {
        pre
    } else {
        pushed_view(pre.push(vals[0]), vals.drop_first())
    }
}

/// Pushing each element of `vals` in order appends `vals`: the live view
/// after a sequence of pushes is the starting view followed by the pushed
/// values in push order.
pub proof fn lemma_pushes_append<T>(pre: Seq<T>, vals: Seq<T>)
    ensures
        pushed_view(pre, vals) == pre + vals,
    decreases vals.len(),
{
    if vals.len() == 0 {
        assert(pre + vals =~= pre);
    } else {
        lemma_pushes_append(pre.push(vals[0]), vals.drop_first());
        assert(pre.push(vals[0]) + vals.drop_first() =~= pre + vals);
    }
}

/// Pushing `vals` into an empty container leaves the live view equal to
/// `vals` itself, in push order.
pub proof fn lemma_pushes_in_order<T>(vals: Seq<T>)
    ensures
        pushed_view(Seq::<T>::empty(), vals) == vals,
{
    lemma_pushes_append(Seq::<T>::empty(), vals);
    assert(Seq::<T>::empty() + vals =~= vals);
}

/// The values a run of pops returns, starting from live view `s`: each pop
/// takes the current last element, exactly the step `AVec::pop` ensures,
/// iterated until the container is empty.
pub open spec fn popped_values<T>(s: Seq<T>) -> Seq<T>
    decreases s.len(),
{
    if s.len() == 0 {
        Seq::empty()
    } else {
        seq![s.last()] + popped_values(s.drop_last())
    }
}

/// Popping every element of a container yields the values in exact reverse
/// order of the view; the container is then empty, so one further pop
/// returns nothing (`AVec::pop` ensures `None` on an empty view).
pub proof fn lemma_pops_reverse<T>(s: Seq<T>)
    ensures
        popped_values(s) == s.reverse(),
    decreases s.len(),
{
    if s.len() == 0 {
        assert(popped_values(s) =~= s.reverse());
    } else {
        lemma_pops_reverse(s.drop_last());
        assert(seq![s.last()] + s.drop_last().reverse() =~= s.reverse());
    }
}

/// Shrinking a view of length `n` down to `k` accounts for every element
/// exactly once: the kept prefix together with the destroyed elements (the
/// suffix, destroyed in descending order) is exactly the prior view — no
/// element is destroyed twice, none survives unaccounted, and no slot at
/// or beyond the length is ever involved.
pub proof fn lemma_shrink_partitions_view<T>(s: Seq<T>, k: int)
    requires
        0 <= k <= s.len(),
    ensures
        s.subrange(0, k).to_multiset().add(
            s.subrange(k, s.len() as int).reverse().to_multiset(),
        ) == s.to_multiset(),
{
    let kept = s.subrange(0, k);
    let dead = s.subrange(k, s.len() as int);
    dead.lemma_reverse_to_multiset();
    vstd::seq_lib::lemma_multiset_commutative(kept, dead);
    assert(kept + dead =~= s);
}

/// Destruction (`AVec::destroy`) accounts for every live element exactly
/// once: the final log is the prior log followed by the live view itself,
/// so each live element appears once more than before and nothing else
/// does.
pub proof fn lemma_destroy_accounts_once<T>(log: Seq<T>, live: Seq<T>)
    ensures
        (log + live).to_multiset() == log.to_multiset().add(live.to_multiset()),
        (log + live).len() == log.len() + live.len(),
{
    vstd::seq_lib::lemma_multiset_commutative(log, live);
}

/// Container equality (`AVec::eq_elems`) is reflexive whenever element
/// equality is: a container always compares equal to itself.
pub proof fn lemma_eq_elems_reflexive<T: PartialEq>(a: Seq<T>)
    requires
        forall|x: T| #[trigger] x.eq_spec(&x),
    ensures
        view_eq_by(a, a),
{
}

/// Container equality is symmetric whenever element equality is, whatever
/// allocator strategies built the two containers.
pub proof fn lemma_eq_elems_symmetric<T: PartialEq>(a: Seq<T>, b: Seq<T>)
    requires
        forall|x: T, y: T| #[trigger] x.eq_spec(&y) == y.eq_spec(&x),
    ensures
        view_eq_by(a, b) ==> view_eq_by(b, a),
{
}

/// When element equality means plain value equality, container equality
/// is exactly equality of the live views: two containers compare equal if
/// and only if they hold the same elements in the same order, no matter
/// which allocator strategy backs either one.
pub proof fn lemma_eq_elems_is_view_equality<T: PartialEq>(a: Seq<T>, b: Seq<T>)
    requires
        forall|x: T, y: T| #[trigger] x.eq_spec(&y) <==> x == y,
    ensures
        view_eq_by(a, b) <==> a == b,
{
    if view_eq_by(a, b) {
        assert(a =~= b);
    }
}

} // verus!
