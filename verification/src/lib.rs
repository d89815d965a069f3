//! A splice buffer: represents an edited text as an ordered chain of chunks
//! that reference the original source, so that surgical edits (insertions,
//! replacements, deletions) never copy the untouched parts of the text.

use vstd::prelude::*;

pub mod basic_types;
pub mod chunk;
pub mod span;

pub use basic_types::BasicCowStr;
pub use chunk::{Chunk, ChunkIdx, ChunkVec, EditOptions};
pub use span::Span;

verus! {

/// An offset into the source text; the whole system caps text lengths so
/// that every offset fits in 32 bits.
pub type TextSize = u32;

/// The string type held by chunks: either a borrow of the original source or
/// an owned replacement.
pub type CowStr<'text> = BasicCowStr<'text>;

} // verus!
