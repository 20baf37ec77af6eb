//! Video encoders: what a renderer hands them, frame by frame.

use vstd::prelude::*;

verus! {

/// A rendered frame: its size and its pixels as RGBA bytes, row by row.
#[derive(Debug, Clone, PartialEq, Eq)]
pub struct FrameBuffer {
    pub width: u32,
    pub height: u32,
    pub data: Vec<u8>,
}

/// Something that turns a sequence of frames into a video. It is prepared
/// once, handed the frames in order with their indices, and finished once;
/// each step may fail with a message.
pub trait Encoder {
    fn prepare(&mut self) -> Result<(), String>;

    fn encode_frame(&mut self, frame: &FrameBuffer, index: u32) -> Result<(), String>;

    fn finish(&mut self) -> Result<(), String>;
}

} // verus!
