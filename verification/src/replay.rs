//! Runs of appends and removals, as functions on the sequence of live
//! elements, and how the two undo each other.

use vstd::prelude::*;

verus! {

/// The element that a removal from the end of `s` hands out, if `s` has one.
pub open spec fn pop_result<T>(s: Seq<T>) -> Option<T> {
    if s.len() > 0 {
        Some(s.last())
    } else {
        None
    }
}

/// The elements that a removal from the end of `s` leaves behind.
pub open spec fn pop_rest<T>(s: Seq<T>) -> Seq<T> {
    if s.len() > 0 {
        s.drop_last()
    } else {
        s
    }
}

/// The elements after appending each of `vals`, first to last, behind `s`.
pub open spec fn push_all<T>(s: Seq<T>, vals: Seq<T>) -> Seq<T>
    decreases vals.len(),
{
    if vals.len() == 0 {
        s
    } else {
        push_all(s, vals.drop_last()).push(vals.last())
    }
}

/// The elements left after `n` removals from the end of `s`.
pub open spec fn pop_n<T>(s: Seq<T>, n: nat) -> Seq<T>
    decreases n,
{
    if n == 0 {
        s
    } else {
        pop_rest(pop_n(s, (n - 1) as nat))
    }
}

/// Appending one by one is concatenation.
pub proof fn lemma_push_all_is_concat<T>(s: Seq<T>, vals: Seq<T>)
    ensures
        push_all(s, vals) == s + vals,
    decreases vals.len(),
{
    if vals.len() == 0 {
        assert(s + vals =~= s);
    } else {
        lemma_push_all_is_concat(s, vals.drop_last());
        assert((s + vals.drop_last()).push(vals.last()) =~= s + vals);
    }
}

/// Removing `n` times from the end cuts off the last `n` elements, or all of
/// them where there are fewer.
pub proof fn lemma_pop_n_is_prefix<T>(s: Seq<T>, n: nat)
    ensures
        pop_n(s, n) == (if n <= s.len() {
            s.take(s.len() - n)
        } else {
            Seq::<T>::empty()
        }),
    decreases n,
{
    if n == 0 {
        assert(s.take(s.len() as int) =~= s);
    } else {
        lemma_pop_n_is_prefix(s, (n - 1) as nat);
        if n <= s.len() {
            assert(s.take(s.len() - n + 1).drop_last() =~= s.take(s.len() - n));
        } else if n - 1 == s.len() {
            assert(s.take(0) =~= Seq::<T>::empty());
        }
    }
}

/// Append and removal are inverse: after `vals` has been appended to an
/// empty array, removal number `i` (counted from zero) hands out the element
/// appended `i` places before the last, so the removals give `vals` back in
/// reverse; the removal that follows them all hands out nothing.
pub proof fn lemma_pops_reverse_pushes<T>(vals: Seq<T>, i: nat)
    requires
        i <= vals.len(),
    ensures
        i < vals.len() ==> pop_result(pop_n(push_all(Seq::<T>::empty(), vals), i)) == Some(
            vals[vals.len() - 1 - i],
        ),
        i == vals.len() ==> pop_result(pop_n(push_all(Seq::<T>::empty(), vals), i)) == None::<T>,
        pop_n(push_all(Seq::<T>::empty(), vals), vals.len()) == Seq::<T>::empty(),
{
    lemma_push_all_is_concat(Seq::<T>::empty(), vals);
    assert(Seq::<T>::empty() + vals =~= vals);
    lemma_pop_n_is_prefix(vals, i);
    lemma_pop_n_is_prefix(vals, vals.len());
    assert(vals.take(0) =~= Seq::<T>::empty());
}

/// The same from any starting point: appending `vals` behind `s` and then
/// removing as many elements as were appended leaves `s` as it was.
pub proof fn lemma_pops_undo_pushes<T>(s: Seq<T>, vals: Seq<T>)
    ensures
        pop_n(push_all(s, vals), vals.len()) == s,
{
    lemma_push_all_is_concat(s, vals);
    lemma_pop_n_is_prefix(s + vals, vals.len());
    assert((s + vals).take(s.len() as int) =~= s);
}

} // verus!
