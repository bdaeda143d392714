//! A growable, contiguous-element sequence container whose backing memory is
//! supplied by a pluggable allocator capability rather than a single global
//! allocator. The same container logic runs unchanged over a default
//! system-backed allocator, an exclusively owned dynamic allocator handle, or
//! a shared allocator handle.
//!
//! Memory is modelled at the granularity of element slots: a block is a
//! vector of optional elements, where `None` stands for an uninitialized
//! slot and `Some` for a live one. The container alone decides when a slot
//! is initialized or destroyed; the backing store and the allocator
//! capability only move whole blocks of slots around.

mod allocator;
mod avec;
pub mod laws;
mod raw_buf;

pub use allocator::Alloc;
pub use allocator::DynamicAlloc;
pub use allocator::Heap;
pub use allocator::SharedAlloc;
pub use avec::AVec;
pub use avec::lex_cmp_spec;
pub use avec::view_eq_by;
pub use raw_buf::RawBuf;
