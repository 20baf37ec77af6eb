//! Per-pixel effects that need no floating point.

use vstd::prelude::*;

verus! {

/// A colour with 8-bit channels.
#[derive(Debug, Clone, Copy, PartialEq, Eq, Structural)]
pub struct RgbColor {
    pub r: u8,
    pub g: u8,
    pub b: u8,
}

/// What an effect knows about the frame being rendered.
#[derive(Debug, Clone, Copy, PartialEq, Eq, Structural)]
pub struct RenderContext {
    pub width: u32,
    pub height: u32,
    pub frame: u64,
}

/// A per-pixel effect: prepared before rendering, applied to every pixel of
/// a frame, and released afterwards.
pub trait Effect {
    /// Prepares the effect; by default there is nothing to prepare, and it
    /// succeeds.
    fn init(&mut self) -> (res: Result<(), String>)
        default_ensures
            res is Ok,
    {
        Ok(())
    }

    /// Releases what the effect holds; by default nothing.
    fn dispose(&mut self) {
    }

    /// The colour of the pixel `(x, y)`, given its colour before the effect.
    fn apply(&self, input: RgbColor, x: u32, y: u32, ctx: &RenderContext) -> RgbColor;

    /// The effect's name.
    fn name(&self) -> &str;
}

/// An effect that runs the SDK noise plug-in; it passes pixels through
/// unchanged.
#[derive(Debug, Clone, Copy, PartialEq, Eq, Structural)]
pub struct AexNoiseEffect {}

impl Effect for AexNoiseEffect {
    /// Prepares the effect; it always succeeds.
    fn init(&mut self) -> (res: Result<(), String>)
        ensures
            res is Ok,
            *final(self) == *old(self),
    {
        Ok(())
    }

    /// Releases what the effect holds; it holds nothing.
    fn dispose(&mut self)
        ensures
            *final(self) == *old(self),
    {
    }

    /// The colour of the pixel `(x, y)`: the input colour.
    fn apply(&self, input: RgbColor, x: u32, y: u32, ctx: &RenderContext) -> (res: RgbColor)
        ensures
            res == input,
    {
        input
    }

    /// The effect's name.
    fn name(&self) -> (res: &str)
        ensures
            res@ == "AEX Noise Effect"@,
    {
        "AEX Noise Effect"
    }
}

} // verus!
