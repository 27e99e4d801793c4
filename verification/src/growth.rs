//! The growth policy: how many slots an array reserves, and when that changes.

use vstd::arithmetic::power2::{lemma2_to64, lemma_pow2_strictly_increases, lemma_pow2_unfold, pow2};
use vstd::prelude::*;

verus! {

/// Capacity reported for element types that occupy no storage.
pub const UNBOUNDED: usize = usize::MAX;

/// Capacity that replaces `cap` when a full block has to grow: a first slot
/// where there was none, twice the slots otherwise.
pub open spec fn grown_cap(cap: nat) -> nat {
    if cap == 0 {
        1
    } else {
        2 * cap
    }
}

/// Capacity after one append onto `len` live elements held in `cap` slots.
pub open spec fn cap_after_push(len: nat, cap: nat) -> nat {
    if len == cap {
        grown_cap(cap)
    } else {
        cap
    }
}

/// Capacity after `k` appends, with no removal between them, onto an array
/// that started with no slots at all.
pub open spec fn cap_after_pushes(k: nat) -> nat
    decreases k,
{
    if k == 0 {
        0
    } else {
        cap_after_push((k - 1) as nat, cap_after_pushes((k - 1) as nat))
    }
}

/// `c` is the least power of two that is not below `k`.
pub open spec fn is_next_pow2(c: nat, k: nat) -> bool {
    exists|e: nat| #[trigger] pow2(e) == c && k <= c && (e > 0 ==> c < 2 * k)
}

/// A block of `cap` slots for elements of type `T` stays within the largest
/// size that can be requested from the allocator.
pub open spec fn block_fits<T>(cap: nat) -> bool {
    cap * vstd::layout::size_of::<T>() <= isize::MAX
}

/// Capacity doubling: an array that starts with no slots and receives `k`
/// appends in a row holds no slot for `k == 0`, and otherwise exactly the
/// least power of two that is at least `k`.
pub proof fn lemma_capacity_doubling(k: nat)
    ensures
        k == 0 ==> cap_after_pushes(k) == 0,
        k > 0 ==> is_next_pow2(cap_after_pushes(k), k),
    decreases k,
{
    if k == 1 {
        assert(cap_after_pushes(0) == 0);
        lemma2_to64();
        assert(pow2(0) == cap_after_pushes(1));
    } else if k > 1 {
        let j = (k - 1) as nat;
        lemma_capacity_doubling(j);
        let c = cap_after_pushes(j);
        let e = choose|e: nat| #[trigger] pow2(e) == c && j <= c && (e > 0 ==> c < 2 * j);
        if j == c {
            lemma_pow2_unfold(e + 1);
            assert(pow2(e + 1) == cap_after_pushes(k));
        } else {
            lemma2_to64();
            assert(pow2(e) == cap_after_pushes(k));
        }
    }
}

/// The least power of two at or above `k` is unique: two capacities that both
/// answer to that description are the same capacity.
pub proof fn lemma_next_pow2_unique(a: nat, b: nat, k: nat)
    requires
        k > 0,
        is_next_pow2(a, k),
        is_next_pow2(b, k),
    ensures
        a == b,
{
    let ea = choose|e: nat| #[trigger] pow2(e) == a && k <= a && (e > 0 ==> a < 2 * k);
    let eb = choose|e: nat| #[trigger] pow2(e) == b && k <= b && (e > 0 ==> b < 2 * k);
    lemma2_to64();
    if ea < eb {
        lemma_pow2_unfold(eb);
        if ea < eb - 1 {
            lemma_pow2_strictly_increases(ea, (eb - 1) as nat);
        }
    } else if eb < ea {
        lemma_pow2_unfold(ea);
        if eb < ea - 1 {
            lemma_pow2_strictly_increases(eb, (ea - 1) as nat);
        }
    }
}

} // verus!
