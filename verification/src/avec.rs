//! The sequence container: one backing store plus a length, with the
//! user-facing operations.

use vstd::prelude::*;

use crate::allocator::Alloc;
use crate::raw_buf::RawBuf;
use core::cmp::Ordering;
use vstd::std_specs::cmp::OrdSpec;
use vstd::std_specs::cmp::PartialEqSpec;

verus! {

/// A growable sequence container parametric on an allocator capability
/// `A`. Slots `[0, len)` of the backing store hold the live elements; every
/// slot at or beyond `len` is uninitialized. Its view is the sequence of
/// live elements in order.
pub struct AVec<T, A: Alloc> {
    buf: RawBuf<T, A>,
    len: usize,
    destroyed_log: Ghost<Seq<T>>,
}

impl<T, A: Alloc> View for AVec<T, A> {
    type V = Seq<T>;

    closed spec fn view(&self) -> Seq<T> {
        Seq::new(self.len as nat, |i: int| self.buf@[i].unwrap())
    }
}

impl<T, A: Alloc> AVec<T, A> {
    /// Well-formed: the length never exceeds the capacity, every slot below
    /// the length holds a live element, and every slot at or beyond it is
    /// uninitialized.
    pub closed spec fn wf(&self) -> bool {
        &&& self.len <= self.buf@.len()
        &&& forall|i: int| 0 <= i < self.len ==> self.buf@[i] is Some
        &&& forall|i: int| self.len <= i < self.buf@.len() ==> self.buf@[i] is None
    }

    /// The capacity of the backing store, in element slots.
    pub closed spec fn cap(&self) -> nat {
        self.buf.cap()
    }

    /// Every element this container has destroyed so far, in destruction
    /// order. Popping is not destruction: a popped element moves out to
    /// the caller. Only shrinking and overwriting destroy elements.
    pub closed spec fn destroyed(&self) -> Seq<T> {
        self.destroyed_log@
    }

    /// The capacity of the backing store, in element slots.
    pub fn capacity(&self) -> (r: usize)
        ensures
            r == self.cap(),
    {
        self.buf.capacity()
    }

    /// The number of live elements.
    pub fn len(&self) -> (r: usize)
        ensures
            r == self@.len(),
    {
        self.len
    }

    /// Append `val` after the last live element. When the buffer is full
    /// the backing store first doubles, so a long run of pushes reallocates
    /// only a logarithmic number of times. Doubling past the addressable
    /// range would be the fatal capacity-overflow condition; the
    /// precondition rules it out.
    pub fn push(&mut self, val: T)
        requires
            old(self).wf(),
            old(self)@.len() == old(self).cap() ==> old(self).cap() * 2 <= usize::MAX,
        ensures
            final(self).wf(),
            final(self)@ == old(self)@.push(val),
            final(self).destroyed() == old(self).destroyed(),
            final(self).cap() == if old(self)@.len() < old(self).cap() {
                old(self).cap()
            } else if old(self).cap() == 0 {
                1nat
            } else {
                old(self).cap() * 2
            },
    {
        if self.len == self.buf.capacity() {
            self.buf.double();
        }
        self.buf.init_slot(self.len, val);
        self.len = self.len + 1;
        assert(self@ =~= old(self)@.push(val));
    }

    /// Remove and return the last live element, or `None` on an empty
    /// container. The slot it occupied is uninitialized afterwards; the
    /// capacity never changes.
    pub fn pop(&mut self) -> (r: Option<T>)
        requires
            old(self).wf(),
        ensures
            final(self).wf(),
            final(self).cap() == old(self).cap(),
            final(self).destroyed() == old(self).destroyed(),
            old(self)@.len() == 0 ==> r is None && final(self)@ == old(self)@,
            old(self)@.len() > 0 ==> r == Some(old(self)@.last())
                && final(self)@ == old(self)@.drop_last(),
    {
        if self.len == 0 {
            None
        } else {
            self.len = self.len - 1;
            let val = self.buf.take_slot(self.len);
            assert(self@ =~= old(self)@.drop_last());
            Some(val)
        }
    }

    /// Ensure capacity for at least `additional` elements beyond the
    /// current length, by one exact reservation; the live view never
    /// changes. A requirement past the addressable range would be the
    /// fatal capacity-overflow condition; the precondition rules it out.
    pub fn reserve(&mut self, additional: usize)
        requires
            old(self).wf(),
            old(self)@.len() + additional <= usize::MAX,
        ensures
            final(self).wf(),
            final(self)@ == old(self)@,
            final(self).destroyed() == old(self).destroyed(),
            final(self).cap() == if old(self).cap() >= old(self)@.len() + additional {
                old(self).cap()
            } else {
                (old(self)@.len() + additional) as nat
            },
    {
        self.buf.reserve(self.len, additional);
        assert(self@ =~= old(self)@);
    }

    /// Change the size of the backing store. Growing (`new_len` above the
    /// length) only reserves capacity: the length and the live view stay
    /// unchanged, a deliberate contract of this operation. Shrinking
    /// destroys the elements at indices `[new_len, len)` in descending
    /// index order, exactly once each, then shrinks the allocation to
    /// exactly `new_len` slots.
    pub fn resize(&mut self, new_len: usize)
        requires
            old(self).wf(),
        ensures
            final(self).wf(),
            new_len >= old(self)@.len() ==> {
                &&& final(self)@ == old(self)@
                &&& final(self).destroyed() == old(self).destroyed()
                &&& final(self).cap() == if old(self).cap() >= new_len {
                    old(self).cap()
                } else {
                    new_len as nat
                }
            },
            new_len < old(self)@.len() ==> {
                &&& final(self)@ == old(self)@.subrange(0, new_len as int)
                &&& final(self).destroyed() == old(self).destroyed() + old(self)@.subrange(
                    new_len as int,
                    old(self)@.len() as int,
                ).reverse()
                &&& final(self).cap() == new_len
            },
    {
        if new_len == self.len {
            assert(old(self)@.subrange(0, old(self)@.len() as int) =~= old(self)@);
            return ;
        }
        if new_len > self.len {
            let additional = new_len - self.len;
            self.reserve(additional);
            return ;
        }
        let ghost orig_view = self@;
        let ghost orig_dest = self.destroyed();
        let ghost orig_cap = self.cap();
        while self.len > new_len
            invariant
                self.wf(),
                new_len <= self.len,
                self.len <= orig_view.len(),
                self.cap() == orig_cap,
                self@ == orig_view.subrange(0, self.len as int),
                self.destroyed() == orig_dest + orig_view.subrange(
                    self.len as int,
                    orig_view.len() as int,
                ).reverse(),
            decreases self.len,
        {
            let ghost pre_len = self.len as int;
            self.len = self.len - 1;
            let ghost dead = orig_view[self.len as int];
            self.buf.destroy_slot(self.len);
            self.destroyed_log = Ghost(self.destroyed_log@.push(dead));
            proof {
                assert(self@ =~= orig_view.subrange(0, self.len as int));
                assert(orig_view.subrange(self.len as int, orig_view.len() as int).reverse()
                    =~= orig_view.subrange(pre_len, orig_view.len() as int).reverse().push(dead));
            }
        }
        self.buf.shrink_to_fit(new_len);
        assert(self@ =~= orig_view.subrange(0, new_len as int));
    }

    /// Consume `src` and push each of its values in order. One exact
    /// reservation for the source's length comes first, so none of the
    /// pushes reallocates.
    pub fn extend(&mut self, src: Vec<T>)
        requires
            old(self).wf(),
            old(self)@.len() + src@.len() <= usize::MAX,
        ensures
            final(self).wf(),
            final(self)@ == old(self)@ + src@,
            final(self).destroyed() == old(self).destroyed(),
            final(self).cap() == if old(self).cap() >= old(self)@.len() + src@.len() {
                old(self).cap()
            } else {
                (old(self)@.len() + src@.len()) as nat
            },
    {
        let ghost orig_view = self@;
        let ghost orig_dest = self.destroyed();
        let ghost all = src@;
        self.reserve(src.len());
        let ghost post_cap = self.cap();
        let mut src = src;
        while src.len() > 0
            invariant
                self.wf(),
                self.cap() == post_cap,
                self@.len() + src@.len() == orig_view.len() + all.len(),
                post_cap >= orig_view.len() + all.len(),
                self@ == orig_view + all.subrange(0, all.len() - src@.len()),
                src@ == all.subrange(all.len() - src@.len(), all.len() as int),
                self.destroyed() == orig_dest,
            decreases src@.len(),
        {
            let ghost done = all.len() - src@.len();
            let item = src.remove(0);
            assert(item == all[done]);
            self.push(item);
            proof {
                assert(self@ =~= orig_view + all.subrange(0, done + 1));
                assert(src@ =~= all.subrange(done + 1, all.len() as int));
            }
        }
        assert(self@ =~= orig_view + all);
    }

    /// Read the live element at index `ix`. Any index at or beyond the
    /// length is out of bounds and excluded up front; a rejected access
    /// would never alter the container.
    pub fn get(&self, ix: usize) -> (r: &T)
        requires
            self.wf(),
            ix < self@.len(),
        ensures
            *r == self@[ix as int],
    {
        self.buf.read_slot(ix)
    }

    /// Overwrite the live element at index `ix` with `val`; the element
    /// previously there is destroyed.
    pub fn set_at(&mut self, ix: usize, val: T)
        requires
            old(self).wf(),
            ix < old(self)@.len(),
        ensures
            final(self).wf(),
            final(self)@ == old(self)@.update(ix as int, val),
            final(self).cap() == old(self).cap(),
            final(self).destroyed() == old(self).destroyed().push(old(self)@[ix as int]),
    {
        let ghost dead = self@[ix as int];
        let _ = self.buf.take_slot(ix);
        self.buf.init_slot(ix, val);
        self.destroyed_log = Ghost(self.destroyed_log@.push(dead));
        assert(self@ =~= old(self)@.update(ix as int, val));
    }

    /// Deterministic teardown: destroy every live element in ascending
    /// index order, exactly once each, touching no slot at or beyond the
    /// length, then release the backing allocation. Returns the complete
    /// destruction log of this container's lifetime.
    pub fn destroy(self) -> (log: Ghost<Seq<T>>)
        requires
            self.wf(),
        ensures
            log@ == self.destroyed() + self@,
    {
        let ghost orig_view = self@;
        let ghost orig_dest = self.destroyed();
        let ghost orig_slots = self.buf@;
        let mut this = self;
        let mut i: usize = 0;
        while i < this.len
            invariant
                i <= this.len,
                this.len == orig_view.len(),
                this.buf@.len() == orig_slots.len(),
                this.len <= this.buf@.len(),
                forall|j: int| 0 <= j < i ==> this.buf@[j] is None,
                forall|j: int| i <= j < this.buf@.len() ==> this.buf@[j] == orig_slots[j],
                forall|j: int| i <= j < this.len ==> this.buf@[j] is Some,
                forall|j: int| this.len <= j < this.buf@.len() ==> this.buf@[j] is None,
                forall|j: int| i <= j < this.len ==> orig_view[j] == this.buf@[j].unwrap(),
                this.destroyed_log@ == orig_dest + orig_view.subrange(0, i as int),
            decreases this.len - i,
        {
            let ghost dead = orig_view[i as int];
            this.buf.destroy_slot(i);
            this.destroyed_log = Ghost(this.destroyed_log@.push(dead));
            proof {
                assert(orig_view.subrange(0, i + 1) =~= orig_view.subrange(0, i as int).push(
                    dead,
                ));
            }
            i = i + 1;
        }
        let AVec { buf, len: _, destroyed_log } = this;
        buf.release();
        proof {
            assert(destroyed_log@ =~= orig_dest + orig_view);
        }
        Ghost(destroyed_log@)
    }
}

/// Element-wise equality of two live views, by the element type's own
/// equality: same length, and equal elements at every index.
pub open spec fn view_eq_by<T: PartialEq>(a: Seq<T>, b: Seq<T>) -> bool {
    &&& a.len() == b.len()
    &&& forall|i: int| 0 <= i < a.len() ==> a[i].eq_spec(&b[i])
}

impl<T: PartialEq, A: Alloc> AVec<T, A> {
    /// Whether the two containers hold equal live views, element by
    /// element in order. The other container may have been built over any
    /// allocator strategy: the strategy never participates in comparison.
    pub fn eq_elems<A2: Alloc>(&self, other: &AVec<T, A2>) -> (r: bool)
        requires
            self.wf(),
            other.wf(),
        ensures
            T::obeys_eq_spec() ==> (r <==> view_eq_by(self@, other@)),
    {
        if self.len != other.len {
            return false;
        }
        let mut i: usize = 0;
        while i < self.len
            invariant
                self.wf(),
                other.wf(),
                self@.len() == other@.len(),
                i <= self@.len(),
                T::obeys_eq_spec() ==> forall|j: int| 0 <= j < i ==> self@[j].eq_spec(
                    &other@[j],
                ),
            decreases self@.len() - i,
        {
            if !self.get(i).eq(other.get(i)) {
                return false;
            }
            i = i + 1;
        }
        true
    }
}

/// Lexicographic order of two live views by the element type's own total
/// order: the first unequal pair of elements decides; a strict prefix
/// orders below the longer view.
pub open spec fn lex_cmp_spec<T: Ord>(a: Seq<T>, b: Seq<T>) -> Ordering
    decreases a.len(),
{
    if a.len() == 0 && b.len() == 0 {
        Ordering::Equal
    } else if a.len() == 0 {
        Ordering::Less
    } else if b.len() == 0 {
        Ordering::Greater
    } else {
        match a[0].cmp_spec(&b[0]) {
            Ordering::Equal => lex_cmp_spec(a.drop_first(), b.drop_first()),
            o => o,
        }
    }
}

impl<T: Ord, A: Alloc> AVec<T, A> {
    /// Compare the live views lexicographically. As with equality, the
    /// other container may be backed by any allocator strategy: the
    /// strategy never participates in comparison.
    pub fn lex_cmp<A2: Alloc>(&self, other: &AVec<T, A2>) -> (r: Ordering)
        requires
            self.wf(),
            other.wf(),
        ensures
            T::obeys_cmp_spec() ==> r == lex_cmp_spec(self@, other@),
    {
        let mut i: usize = 0;
        assert(self@.skip(0) =~= self@);
        assert(other@.skip(0) =~= other@);
        while i < self.len && i < other.len
            invariant
                self.wf(),
                other.wf(),
                i <= self@.len(),
                i <= other@.len(),
                T::obeys_cmp_spec() ==> lex_cmp_spec(self@, other@) == lex_cmp_spec(
                    self@.skip(i as int),
                    other@.skip(i as int),
                ),
            decreases self@.len() - i,
        {
            let ghost sa = self@.skip(i as int);
            let ghost sb = other@.skip(i as int);
            match self.get(i).cmp(other.get(i)) {
                Ordering::Equal => {
                    proof {
                        assert(sa.drop_first() =~= self@.skip(i + 1));
                        assert(sb.drop_first() =~= other@.skip(i + 1));
                    }
                    i = i + 1;
                },
                o => {
                    return o;
                },
            }
        }
        proof {
            if i == self@.len() {
                assert(self@.skip(i as int) =~= Seq::<T>::empty());
            }
            if i == other@.len() {
                assert(other@.skip(i as int) =~= Seq::<T>::empty());
            }
        }
        if self.len == other.len {
            Ordering::Equal
        } else if self.len < other.len {
            Ordering::Less
        } else {
            Ordering::Greater
        }
    }
}

impl<T: Copy, A: Alloc> AVec<T, A> {
    /// The live elements at indices `[start, end)`, copied out in order:
    /// the view over that contiguous sub-sequence.
    pub fn range_to_vec(&self, start: usize, end: usize) -> (r: Vec<T>)
        requires
            self.wf(),
            start <= end,
            end <= self@.len(),
        ensures
            r@ == self@.subrange(start as int, end as int),
    {
        let mut r: Vec<T> = Vec::new();
        let mut i: usize = start;
        while i < end
            invariant
                start <= i <= end,
                end <= self@.len(),
                self.wf(),
                r@ == self@.subrange(start as int, i as int),
            decreases end - i,
        {
            r.push(*self.buf.read_slot(i));
            proof {
                assert(self@.subrange(start as int, i + 1) =~= self@.subrange(
                    start as int,
                    i as int,
                ).push(self@[i as int]));
            }
            i = i + 1;
        }
        r
    }

    /// The whole live view, copied out in order.
    pub fn to_vec(&self) -> (r: Vec<T>)
        requires
            self.wf(),
        ensures
            r@ == self@,
    {
        let r = self.range_to_vec(0, self.len);
        assert(self@.subrange(0, self@.len() as int) =~= self@);
        r
    }
}

impl<T, A: Alloc + Default> AVec<T, A> {
    /// An empty container over a freshly obtained allocator handle: no
    /// live element and no allocation yet.
    pub fn new() -> (r: Self)
        ensures
            r.wf(),
            r@ == Seq::<T>::empty(),
            r.cap() == 0,
            r.destroyed() == Seq::<T>::empty(),
    {
        AVec { buf: RawBuf::new_in(A::default()), len: 0, destroyed_log: Ghost(Seq::empty()) }
    }

    /// An empty container whose backing store is pre-sized to exactly
    /// `cap` slots.
    pub fn with_capacity(cap: usize) -> (r: Self)
        ensures
            r.wf(),
            r@ == Seq::<T>::empty(),
            r.cap() == cap,
            r.destroyed() == Seq::<T>::empty(),
    {
        let mut res = Self::new();
        res.reserve(cap);
        res
    }
}

impl<T, A: Alloc + Default> Default for AVec<T, A> {
    /// Same as `new`: an empty container with no allocation.
    fn default() -> (r: Self)
        ensures
            r.wf(),
            r@ == Seq::<T>::empty(),
            r.cap() == 0,
            r.destroyed() == Seq::<T>::empty(),
    {
        Self::new()
    }
}

} // verus!
