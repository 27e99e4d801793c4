//! The array itself: construction, append, removal from the end.

use crate::growth::{block_fits, cap_after_push, grown_cap, UNBOUNDED};
use crate::replay::{pop_rest, pop_result};
use vstd::prelude::*;

verus! {

/// A growable array of `T`.
///
/// Its view is the sequence of live elements, oldest first. Beside them it
/// keeps the number of slots it has reserved, which only ever grows.
pub struct MyVec<T> {
    data: Vec<T>,
    cap: usize,
}

impl<T> View for MyVec<T> {
    type V = Seq<T>;

    closed spec fn view(&self) -> Seq<T> {
        self.data@
    }
}

impl<T> MyVec<T> {
    /// The number of reserved slots.
    pub closed spec fn spec_cap(&self) -> usize {
        self.cap
    }

    /// Well-formedness: the live elements fit in the reserved slots; an
    /// element type without storage always reports the unbounded capacity;
    /// any other reserves a block that the allocator can be asked for.
    pub open spec fn wf(&self) -> bool {
        &&& self@.len() <= self.spec_cap()
        &&& vstd::layout::size_of::<T>() == 0 ==> self.spec_cap() == UNBOUNDED
        &&& vstd::layout::size_of::<T>() != 0 ==> block_fits::<T>(self.spec_cap() as nat)
    }

    /// What an indexed read at `i` yields: the live element there, if any.
    pub open spec fn spec_get(&self, i: usize) -> Option<&T> {
        if i < self@.len() {
            Some(&self@[i as int])
        } else {
            None
        }
    }

    /// What a mutable borrow of the live element at `i` amounts to: the
    /// borrow starts out as that element, `lent`, and the value it ends as,
    /// `returned`, takes the element's place in `after`, which otherwise
    /// equals `self`.
    pub open spec fn slot_lent(&self, after: &Self, i: usize, lent: T, returned: T) -> bool {
        &&& i < self@.len()
        &&& lent == self@[i as int]
        &&& after@ == self@.update(i as int, returned)
        &&& after.spec_cap() == self.spec_cap()
    }

    /// An append can go ahead: either a slot is free, or the block may grow.
    pub open spec fn can_push(&self) -> bool {
        self@.len() == self.spec_cap() ==> vstd::layout::size_of::<T>() != 0 && block_fits::<T>(
            grown_cap(self.spec_cap() as nat),
        )
    }

    /// An element type without storage never needs a slot: a well-formed
    /// array of such elements reports the unbounded capacity, an append is
    /// possible as long as the count of live elements can still rise, and it
    /// leaves the reported capacity where it was.
    pub proof fn lemma_zero_sized_cap(&self)
        requires
            self.wf(),
            vstd::layout::size_of::<T>() == 0,
        ensures
            self.spec_cap() == UNBOUNDED,
            self.can_push() <==> self@.len() < usize::MAX,
            self.can_push() ==> cap_after_push(self@.len(), self.spec_cap() as nat) == UNBOUNDED,
    {
    }

    /// An append never takes slots away, and a well-formed array that may
    /// take one more element still fits its block afterwards.
    pub proof fn lemma_push_keeps_slots(&self)
        requires
            self.wf(),
            self.can_push(),
        ensures
            self.spec_cap() <= cap_after_push(self@.len(), self.spec_cap() as nat) <= usize::MAX,
            self@.len() < cap_after_push(self@.len(), self.spec_cap() as nat),
    {
        let c = grown_cap(self.spec_cap() as nat);
        let s = vstd::layout::size_of::<T>();
        if self@.len() == self.spec_cap() {
            assert(c <= c * s) by (nonlinear_arith)
                requires
                    s >= 1,
            ;
        }
    }

    /// A read after a store: once a borrow of slot `i` has ended, a read at
    /// `i` finds the value that the borrow ended as, a read at any other
    /// index finds what it found before, and the array is as well-formed as
    /// it was.
    pub proof fn lemma_read_after_store(
        &self,
        after: &Self,
        i: usize,
        lent: T,
        returned: T,
        j: usize,
    )
        requires
            self.slot_lent(after, i, lent, returned),
        ensures
            after.spec_get(i) == Some(&returned),
            j != i ==> after.spec_get(j) == self.spec_get(j),
            self.wf() ==> after.wf(),
    {
    }

    /// A read after an append: the appended value is found at the index
    /// that was the length, every older element where it was, and nothing
    /// beyond.
    pub proof fn lemma_read_after_push(&self, after: &Self, v: T, j: usize)
        requires
            after@ == self@.push(v),
            after@.len() <= usize::MAX,
        ensures
            after.spec_get(self@.len() as usize) == Some(&v),
            j < self@.len() ==> after.spec_get(j) == self.spec_get(j),
            j > self@.len() ==> after.spec_get(j) == None::<&T>,
    {
    }

    /// Creates an empty array that has reserved nothing.
    pub fn new() -> (v: Self)
        ensures
            v.wf(),
            v@ == Seq::<T>::empty(),
            v.spec_cap() == (if vstd::layout::size_of::<T>() == 0 {
                UNBOUNDED
            } else {
                0usize
            }),
    {
        let cap: usize = if core::mem::size_of::<T>() == 0 {
            UNBOUNDED
        } else {
            0
        };
        MyVec { data: Vec::new(), cap }
    }

    /// Creates an empty array with `cap` slots reserved up front, so that the
    /// first `cap` appends find room.
    pub fn with_capacity(cap: usize) -> (v: Self)
        requires
            block_fits::<T>(cap as nat),
        ensures
            v.wf(),
            v@ == Seq::<T>::empty(),
            v.spec_cap() == (if vstd::layout::size_of::<T>() == 0 {
                UNBOUNDED
            } else {
                cap
            }),
    {
        let reported: usize = if core::mem::size_of::<T>() == 0 {
            UNBOUNDED
        } else {
            cap
        };
        MyVec { data: Vec::with_capacity(cap), cap: reported }
    }

    /// The number of reserved slots.
    pub fn cap(&self) -> (c: usize)
        ensures
            c == self.spec_cap(),
    {
        self.cap
    }

    /// The number of live elements.
    pub fn length(&self) -> (n: usize)
        ensures
            n == self@.len(),
    {
        self.data.len()
    }

    /// Appends `v` behind the live elements, growing the block first when it
    /// is full.
    pub fn push(&mut self, v: T)
        requires
            old(self).wf(),
            old(self).can_push(),
        ensures
            final(self).wf(),
            final(self)@ == old(self)@.push(v),
            final(self).spec_cap() == cap_after_push(
                old(self)@.len(),
                old(self).spec_cap() as nat,
            ),
    {
        if self.data.len() == self.cap {
            self.grow();
        }
        self.data.push(v);
    }

    /// Removes the newest live element and hands it out; `None` when there is
    /// none. The reserved slots stay.
    pub fn pop(&mut self) -> (r: Option<T>)
        ensures
            r == pop_result(old(self)@),
            final(self)@ == pop_rest(old(self)@),
            final(self).spec_cap() == old(self).spec_cap(),
            old(self).wf() ==> final(self).wf(),
    {
        let r = self.data.pop();
        assert(old(self)@.len() > 0 ==> self.data@ =~= old(self)@.drop_last());
        r
    }

    /// The element at `i`, or `None` when `i` is not the index of a live
    /// element.
    pub fn get(&self, i: usize) -> (r: Option<&T>)
        ensures
            r == self.spec_get(i),
    {
        if i >= self.data.len() {
            None
        } else {
            Some(&self.data[i])
        }
    }

    /// Mutable access to the element at `i`, or `None` when `i` is not the
    /// index of a live element. Whatever is written through the borrow is the
    /// element at `i` afterwards; nothing else changes.
    pub fn get_mut(&mut self, i: usize) -> (r: Option<&mut T>)
        ensures
            r.is_some() == (i < old(self)@.len()),
            old(self).wf() ==> final(self).wf(),
            r.is_none() ==> final(self)@ == old(self)@ && final(self).spec_cap() == old(
                self,
            ).spec_cap(),
            r.is_some() ==> old(self).slot_lent(
                final(self),
                i,
                *r.unwrap(),
                *final(r.unwrap()),
            ),
    {
        if i >= self.data.len() {
            None
        } else {
            Some(&mut self.data[i])
        }
    }

    /// Replaces a full block by one of the next capacity; the live elements
    /// move over unchanged.
    fn grow(&mut self)
        requires
            old(self).wf(),
            vstd::layout::size_of::<T>() != 0,
            block_fits::<T>(grown_cap(old(self).spec_cap() as nat)),
        ensures
            final(self).wf(),
            final(self)@ == old(self)@,
            final(self).spec_cap() == grown_cap(old(self).spec_cap() as nat),
    {
        proof {
            let c = grown_cap(self.cap as nat);
            let s = vstd::layout::size_of::<T>();
            assert(c <= c * s) by (nonlinear_arith)
                requires
                    s >= 1,
            ;
        }
        let new_cap: usize = if self.cap != 0 {
            self.cap * 2
        } else {
            1
        };
        self.data.reserve(new_cap - self.data.len());
        self.cap = new_cap;
    }
}

impl<T> core::ops::Index<usize> for MyVec<T> {
    type Output = T;

    /// The element at `i`, which has to be live.
    fn index(&self, i: usize) -> (r: &T)
        ensures
            Some(r) == self.spec_get(i),
    {
        &self.data[i]
    }
}

impl<T> vstd::std_specs::core::IndexSpecImpl<usize> for MyVec<T> {
    open spec fn index_req(&self, index: &usize) -> bool {
        *index < self@.len()
    }
}

impl<T> core::ops::IndexMut<usize> for MyVec<T> {
    /// Mutable access to the element at `i`, which has to be live.
    fn index_mut(&mut self, i: usize) -> (r: &mut T)
        requires
            i < old(self)@.len(),
        ensures
            old(self).slot_lent(final(self), i, *r, *final(r)),
            old(self).wf() ==> final(self).wf(),
    {
        &mut self.data[i]
    }
}

} // verus!
