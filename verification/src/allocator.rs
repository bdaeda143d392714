//! The allocator capability: the minimal interface a backing store depends
//! on to obtain, grow, shrink and release a block of element slots, and the
//! three strategies that provide it.

use vstd::prelude::*;

verus! {

/// A block of raw storage, modelled at element granularity: `None` is an
/// uninitialized slot, `Some` a live element. A fresh block holds only
/// uninitialized slots; growth preserves existing slot contents exactly and
/// adds uninitialized slots; shrinking keeps a prefix whose dropped suffix
/// must already be uninitialized, so that no live element is ever destroyed
/// by the allocator itself.
///
/// Running out of memory is fatal and unrecoverable at this layer: a
/// request the system cannot satisfy aborts the process outright, so no
/// partially grown block is ever observable.
pub trait Alloc: Sized {
    /// Obtain a fresh block able to hold `count` elements, every slot
    /// uninitialized.
    fn allocate<T>(&mut self, count: usize) -> (block: Vec<Option<T>>)
        ensures
            block@.len() == count,
            forall|i: int| 0 <= i < count ==> block@[i] is None,
    ;

    /// Grow `block` to hold `new_count` elements. The first
    /// `block.len()` slots keep their exact content; the added slots are
    /// uninitialized. The returned block may or may not be the one passed in.
    fn grow<T>(&mut self, block: Vec<Option<T>>, new_count: usize) -> (r: Vec<Option<T>>)
        requires
            block@.len() <= new_count,
        ensures
            r@.len() == new_count,
            forall|i: int| 0 <= i < block@.len() ==> r@[i] == block@[i],
            forall|i: int| block@.len() <= i < new_count ==> r@[i] is None,
    ;

    /// Shrink `block` to hold exactly `new_count` elements, preserving the
    /// first `new_count` slots. The caller must already have destroyed every
    /// element at or beyond `new_count`.
    fn shrink<T>(&mut self, block: Vec<Option<T>>, new_count: usize) -> (r: Vec<Option<T>>)
        requires
            new_count <= block@.len(),
            forall|i: int| new_count <= i < block@.len() ==> block@[i] is None,
        ensures
            r@ == block@.subrange(0, new_count as int),
    ;

    /// Release `block`. Every slot must already be uninitialized, so no
    /// element is destroyed here; releasing a never-allocated (empty) block
    /// is a no-op.
    fn deallocate<T>(&mut self, block: Vec<Option<T>>)
        requires
            forall|i: int| 0 <= i < block@.len() ==> block@[i] is None,
    ;
}

/// A fresh block of `count` uninitialized slots.
fn fresh_block<T>(count: usize) -> (block: Vec<Option<T>>)
    ensures
        block@.len() == count,
        forall|i: int| 0 <= i < count ==> block@[i] is None,
{
    let mut block: Vec<Option<T>> = Vec::new();
    while block.len() < count
        invariant
            block@.len() <= count,
            forall|i: int| 0 <= i < block@.len() ==> block@[i] is None,
        decreases count - block@.len(),
    {
        block.push(None);
    }
    block
}

/// `block` grown to `new_count` slots: existing slots kept, new ones
/// uninitialized.
fn grown_block<T>(block: Vec<Option<T>>, new_count: usize) -> (r: Vec<Option<T>>)
    requires
        block@.len() <= new_count,
    ensures
        r@.len() == new_count,
        forall|i: int| 0 <= i < block@.len() ==> r@[i] == block@[i],
        forall|i: int| block@.len() <= i < new_count ==> r@[i] is None,
{
    let ghost orig = block@;
    let mut block = block;
    while block.len() < new_count
        invariant
            orig.len() <= block@.len() <= new_count,
            forall|i: int| 0 <= i < orig.len() ==> block@[i] == orig[i],
            forall|i: int| orig.len() <= i < block@.len() ==> block@[i] is None,
        decreases new_count - block@.len(),
    {
        block.push(None);
    }
    block
}

/// `block` shrunk to its first `new_count` slots.
fn shrunk_block<T>(block: Vec<Option<T>>, new_count: usize) -> (r: Vec<Option<T>>)
    requires
        new_count <= block@.len(),
    ensures
        r@ == block@.subrange(0, new_count as int),
{
    let mut block = block;
    block.truncate(new_count);
    block
}

/// The default system-backed allocator strategy.
pub struct Heap;

/// An allocator handle owned exclusively by a single backing store, released
/// together with it.
pub struct DynamicAlloc;

/// An allocator handle that many backing stores may reference concurrently;
/// sharing is a property of the allocator alone, never of a container.
pub struct SharedAlloc;

impl DynamicAlloc {
    /// A fresh, exclusively owned allocator handle.
    pub fn new_owned_handle() -> (r: DynamicAlloc) {
        DynamicAlloc
    }
}

impl Alloc for Heap {
    fn allocate<T>(&mut self, count: usize) -> (block: Vec<Option<T>>) {
        fresh_block(count)
    }

    fn grow<T>(&mut self, block: Vec<Option<T>>, new_count: usize) -> (r: Vec<Option<T>>) {
        grown_block(block, new_count)
    }

    fn shrink<T>(&mut self, block: Vec<Option<T>>, new_count: usize) -> (r: Vec<Option<T>>) {
        shrunk_block(block, new_count)
    }

    fn deallocate<T>(&mut self, block: Vec<Option<T>>) {
    }
}

impl Alloc for DynamicAlloc {
    fn allocate<T>(&mut self, count: usize) -> (block: Vec<Option<T>>) {
        fresh_block(count)
    }

    fn grow<T>(&mut self, block: Vec<Option<T>>, new_count: usize) -> (r: Vec<Option<T>>) {
        grown_block(block, new_count)
    }

    fn shrink<T>(&mut self, block: Vec<Option<T>>, new_count: usize) -> (r: Vec<Option<T>>) {
        shrunk_block(block, new_count)
    }

    fn deallocate<T>(&mut self, block: Vec<Option<T>>) {
    }
}

impl Alloc for SharedAlloc {
    fn allocate<T>(&mut self, count: usize) -> (block: Vec<Option<T>>) {
        fresh_block(count)
    }

    fn grow<T>(&mut self, block: Vec<Option<T>>, new_count: usize) -> (r: Vec<Option<T>>) {
        grown_block(block, new_count)
    }

    fn shrink<T>(&mut self, block: Vec<Option<T>>, new_count: usize) -> (r: Vec<Option<T>>) {
        shrunk_block(block, new_count)
    }

    fn deallocate<T>(&mut self, block: Vec<Option<T>>) {
    }
}

impl Default for Heap {
    fn default() -> (r: Heap) {
        Heap
    }
}

impl Default for DynamicAlloc {
    fn default() -> (r: DynamicAlloc) {
        DynamicAlloc::new_owned_handle()
    }
}

impl Default for SharedAlloc {
    fn default() -> (r: SharedAlloc) {
        SharedAlloc
    }
}

} // verus!
