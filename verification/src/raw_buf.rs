//! The backing store: one block of element slots obtained from an allocator
//! capability, with the capacity bookkeeping and the growth and shrink
//! entry points the container relies on.

use vstd::prelude::*;

use crate::allocator::Alloc;

verus! {

/// A raw growable buffer: a block of `cap()` element slots and the
/// allocator handle the block came from. The store never reads or writes an
/// element value on its own; it only carries slots, grows the block and
/// shrinks it. Its view is the sequence of slots, `None` for an
/// uninitialized slot and `Some` for a live element.
pub struct RawBuf<T, A: Alloc> {
    slots: Vec<Option<T>>,
    alloc: A,
}

impl<T, A: Alloc> View for RawBuf<T, A> {
    type V = Seq<Option<T>>;

    closed spec fn view(&self) -> Seq<Option<T>> {
        self.slots@
    }
}

impl<T, A: Alloc> RawBuf<T, A> {
    /// The current capacity, in element slots.
    pub open spec fn cap(&self) -> nat {
        self@.len()
    }

    /// A store with no allocation yet, over the given allocator handle.
    pub fn new_in(alloc: A) -> (r: Self)
        ensures
            r@ == Seq::<Option<T>>::empty(),
    {
        RawBuf { slots: Vec::new(), alloc }
    }

    /// The current capacity, in element slots.
    pub fn capacity(&self) -> (r: usize)
        ensures
            r == self.cap(),
    {
        self.slots.len()
    }

    /// Ensure the block holds at least `len + additional` slots, growing by
    /// an exact request to the allocator when it does not: this is the
    /// entry point behind an explicit reservation, driven by a caller-given
    /// size, not by fullness. Existing slots keep their exact content. A
    /// requirement past the addressable range would be the fatal
    /// capacity-overflow condition; the precondition rules it out before
    /// any allocator call could be made.
    pub fn reserve(&mut self, len: usize, additional: usize)
        requires
            len + additional <= usize::MAX,
        ensures
            final(self).cap() == if old(self).cap() >= len + additional {
                old(self).cap()
            } else {
                (len + additional) as nat
            },
            forall|i: int| 0 <= i < old(self).cap() && i < final(self).cap()
                ==> final(self)@[i] == old(self)@[i],
            forall|i: int| old(self).cap() <= i < final(self).cap() ==> final(self)@[i] is None,
    {
        let needed = len + additional;
        if self.slots.len() < needed {
            let mut block: Vec<Option<T>> = Vec::new();
            core::mem::swap(&mut block, &mut self.slots);
            self.slots = self.alloc.grow(block, needed);
        }
    }

    /// Grow the block to `max(1, 2 * cap())` slots: the amortization path
    /// behind `push`, driven purely by the buffer being full. Existing
    /// slots keep their exact content.
    pub fn double(&mut self)
        requires
            old(self).cap() * 2 <= usize::MAX,
        ensures
            final(self).cap() == if old(self).cap() == 0 { 1nat } else { old(self).cap() * 2 },
            forall|i: int| 0 <= i < old(self).cap() ==> final(self)@[i] == old(self)@[i],
            forall|i: int| old(self).cap() <= i < final(self).cap() ==> final(self)@[i] is None,
    {
        let cap = self.slots.len();
        let target = if cap == 0 { 1 } else { cap * 2 };
        let mut block: Vec<Option<T>> = Vec::new();
        core::mem::swap(&mut block, &mut self.slots);
        self.slots = self.alloc.grow(block, target);
    }

    /// Shrink the block to exactly `new_cap` slots. Every slot at or beyond
    /// `new_cap` must already be uninitialized: the caller destroys
    /// elements, never the store.
    pub fn shrink_to_fit(&mut self, new_cap: usize)
        requires
            new_cap <= old(self).cap(),
            forall|i: int| new_cap <= i < old(self).cap() ==> old(self)@[i] is None,
        ensures
            final(self)@ == old(self)@.subrange(0, new_cap as int),
    {
        let mut block: Vec<Option<T>> = Vec::new();
        core::mem::swap(&mut block, &mut self.slots);
        self.slots = self.alloc.shrink(block, new_cap);
    }

    /// Initialize the uninitialized slot `i` with `v`.
    pub fn init_slot(&mut self, i: usize, v: T)
        requires
            i < old(self).cap(),
            old(self)@[i as int] is None,
        ensures
            final(self)@ == old(self)@.update(i as int, Some(v)),
    {
        self.slots[i] = Some(v);
    }

    /// Move the live element out of slot `i`, leaving the slot
    /// uninitialized.
    pub fn take_slot(&mut self, i: usize) -> (v: T)
        requires
            i < old(self).cap(),
            old(self)@[i as int] is Some,
        ensures
            old(self)@[i as int] == Some(v),
            final(self)@ == old(self)@.update(i as int, None),
    {
        let slot = self.slots[i].take();
        slot.unwrap()
    }

    /// Destroy the live element in slot `i`, leaving the slot
    /// uninitialized. A slot is destroyed at most once: it must hold a live
    /// element when this is called.
    pub fn destroy_slot(&mut self, i: usize)
        requires
            i < old(self).cap(),
            old(self)@[i as int] is Some,
        ensures
            final(self)@ == old(self)@.update(i as int, None),
    {
        let _ = self.take_slot(i);
    }

    /// Read the live element in slot `i`.
    pub fn read_slot(&self, i: usize) -> (v: &T)
        requires
            i < self.cap(),
            self@[i as int] is Some,
        ensures
            self@[i as int] == Some(*v),
    {
        self.slots[i].as_ref().unwrap()
    }

    /// Release the block back to the allocator. Every slot must already be
    /// uninitialized.
    pub fn release(self)
        requires
            forall|i: int| 0 <= i < self.cap() ==> self@[i] is None,
    {
        let ghost pre = self@;
        let RawBuf { slots, mut alloc } = self;
        assert(forall|i: int| 0 <= i < slots@.len() ==> slots@[i] is None) by {
            assert(slots@ == pre);
        }
        alloc.deallocate(slots);
    }
}

} // verus!
