//! Ordering laws of the deque, stated over the same sequence model that the
//! operation contracts use.
//!
//! `push_back` appends to the view (`v.push(x)`), `push_front` prepends
//! (`seq![x] + v`), and `pop_front` returns the head and keeps the tail. The
//! spec functions below fold those effects over a whole run of operations,
//! and the lemmas relate the folds: back-pushes drained from the front come
//! out first-in-first-out, front-pushes drained from the front come out
//! last-in-first-out, and a back-push followed by a back-pop is a no-op.

use vstd::prelude::*;

verus! {

/// The view after pushing each element of `pushed`, in order, at the back of
/// a deque whose view is `v`: each step is `push_back`'s effect on the view.
pub open spec fn after_push_backs<T>(v: Seq<T>, pushed: Seq<T>) -> Seq<T>
    decreases pushed.len(),
{
    if pushed.len() == 0 {
        v
    } else {
        after_push_backs(v.push(pushed[0]), pushed.subrange(1, pushed.len() as int))
    }
}

/// The view after pushing each element of `pushed`, in order, at the front of
/// a deque whose view is `v`: each step is `push_front`'s effect on the view.
pub open spec fn after_push_fronts<T>(v: Seq<T>, pushed: Seq<T>) -> Seq<T>
    decreases pushed.len(),
{
    if pushed.len() == 0 {
        v
    } else {
        after_push_fronts(seq![pushed[0]] + v, pushed.subrange(1, pushed.len() as int))
    }
}

/// The values returned by popping the front until the deque is empty: each
/// step is `pop_front`'s effect, the head comes out and the tail remains.
pub open spec fn front_pop_values<T>(v: Seq<T>) -> Seq<T>
    decreases v.len(),
{
    if v.len() == 0 {
        Seq::<T>::empty()
    } else {
        seq![v[0]] + front_pop_values(v.subrange(1, v.len() as int))
    }
}

/// Pushing at the back appends: the view afterwards is the old view followed
/// by the pushed values, in push order.
pub proof fn lemma_push_backs_append<T>(v: Seq<T>, pushed: Seq<T>)
    ensures
        after_push_backs(v, pushed) == v + pushed,
    decreases pushed.len(),
{
    if pushed.len() == 0 {
        assert(after_push_backs(v, pushed) =~= v + pushed);
    } else {
        let rest = pushed.subrange(1, pushed.len() as int);
        lemma_push_backs_append(v.push(pushed[0]), rest);
        assert(v.push(pushed[0]) + rest =~= v + pushed);
    }
}

/// Pushing at the front prepends in reverse: the view afterwards is the
/// pushed values, newest first, followed by the old view.
pub proof fn lemma_push_fronts_prepend_reversed<T>(v: Seq<T>, pushed: Seq<T>)
    ensures
        after_push_fronts(v, pushed) == pushed.reverse() + v,
    decreases pushed.len(),
{
    if pushed.len() == 0 {
        assert(after_push_fronts(v, pushed) =~= pushed.reverse() + v);
    } else {
        let rest = pushed.subrange(1, pushed.len() as int);
        lemma_push_fronts_prepend_reversed(seq![pushed[0]] + v, rest);
        assert(rest.reverse() + (seq![pushed[0]] + v) =~= pushed.reverse() + v);
    }
}

/// Draining from the front returns exactly the view, front to back.
pub proof fn lemma_front_pop_values_identity<T>(v: Seq<T>)
    ensures
        front_pop_values(v) == v,
    decreases v.len(),
{
    if v.len() == 0 {
        assert(front_pop_values(v) =~= v);
    } else {
        lemma_front_pop_values_identity(v.subrange(1, v.len() as int));
        assert(seq![v[0]] + v.subrange(1, v.len() as int) =~= v);
    }
}

/// First in, first out: values pushed at the back of an initially empty
/// deque and then popped from the front come out in exactly the order they
/// were pushed.
pub proof fn lemma_fifo<T>(pushed: Seq<T>)
    ensures
        front_pop_values(after_push_backs(Seq::<T>::empty(), pushed)) == pushed,
{
    lemma_push_backs_append(Seq::<T>::empty(), pushed);
    assert(Seq::<T>::empty() + pushed =~= pushed);
    lemma_front_pop_values_identity(pushed);
}

/// Last in, first out: values pushed at the front of an initially empty
/// deque and then popped from the front come out in exactly the reverse of
/// the order they were pushed.
pub proof fn lemma_lifo<T>(pushed: Seq<T>)
    ensures
        front_pop_values(after_push_fronts(Seq::<T>::empty(), pushed)) == pushed.reverse(),
{
    lemma_push_fronts_prepend_reversed(Seq::<T>::empty(), pushed);
    assert(pushed.reverse() + Seq::<T>::empty() =~= pushed.reverse());
    lemma_front_pop_values_identity(pushed.reverse());
}

/// Round trip: `push_back(x)` followed by `pop_back()` returns `x` and
/// restores the view — and with it the length and every other element —
/// to exactly what it was before the push.
pub proof fn lemma_push_back_pop_back_round_trip<T>(v: Seq<T>, x: T)
    ensures
        v.push(x).len() == v.len() + 1,
        v.push(x).last() == x,
        v.push(x).drop_last() == v,
{
    assert(v.push(x).drop_last() =~= v);
}

} // verus!
