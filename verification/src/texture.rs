//! GPU-resident output buffer abstraction with explicit allocated/unallocated
//! and empty/non-empty states.

use vstd::prelude::*;
use crate::scene::Resolution;

verus! {

/// A node's output frame buffer.
///
/// Allocation (`allocated`) tracks whether a buffer of some size exists;
/// emptiness (`empty`) is a distinct logical flag meaning "no meaningful
/// content", consulted only for fallback decisions. A resource not yet ready
/// is represented by the texture staying empty, never by blocking a pass.
#[derive(Clone, Copy, PartialEq, Eq, Structural, Debug)]
pub struct NodeTexture {
    /// `Some(resolution)` once a buffer of that size is allocated.
    pub allocated: Option<Resolution>,
    /// True while the buffer holds no meaningful content.
    pub empty: bool,
}

impl NodeTexture {
    /// A fresh texture: unallocated and empty.
    pub fn new() -> (t: NodeTexture)
        ensures
            t.allocated is None,
            t.empty,
    {
        NodeTexture { allocated: None, empty: true }
    }

    /// Whether the texture holds no meaningful content.
    pub fn is_empty(&self) -> (r: bool)
        ensures
            r == self.empty,
    {
        self.empty
    }

    /// The allocated size, if any.
    pub fn resolution(&self) -> (r: Option<Resolution>)
        ensures
            r == self.allocated,
    {
        self.allocated
    }

    /// Allocate (or resize) the buffer to `resolution`. Contents stay as they
    /// were logically: emptiness is unchanged.
    pub fn ensure_size(&mut self, resolution: Resolution)
        ensures
            final(self).allocated == Some(resolution),
            final(self).empty == old(self).empty,
    {
        self.allocated = Some(resolution);
    }

    /// Record that a render pass produced meaningful content of size
    /// `resolution` in this texture.
    pub fn mark_filled(&mut self, resolution: Resolution)
        ensures
            final(self).allocated == Some(resolution),
            !final(self).empty,
    {
        self.allocated = Some(resolution);
        self.empty = false;
    }

    /// Drop the content without deallocating: the texture becomes empty.
    pub fn clear(&mut self)
        ensures
            final(self).allocated == old(self).allocated,
            final(self).empty,
    {
        self.empty = true;
    }
}

} // verus!
