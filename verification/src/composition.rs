//! Frame indices and composition metadata.

use vstd::prelude::*;

verus! {

/// Zero-based index of a frame in a composition.
pub struct FrameIndex(pub u64);

impl FrameIndex {
    /// Wraps a raw frame number.
    pub fn new(index: u64) -> (res: Self)
        ensures
            res.0 == index,
    {
        FrameIndex(index)
    }
}

impl From<FrameIndex> for u64 {
    fn from(frame_index: FrameIndex) -> (res: u64) {
        frame_index.0
    }
}

impl vstd::std_specs::convert::FromSpecImpl<FrameIndex> for u64 {
    open spec fn obeys_from_spec() -> bool {
        true
    }

    open spec fn from_spec(frame_index: FrameIndex) -> u64 {
        frame_index.0
    }
}

/// Size and length of a composition.
pub struct Composition {
    pub width: u32,
    pub height: u32,
    pub duration: u64,
}

} // verus!
