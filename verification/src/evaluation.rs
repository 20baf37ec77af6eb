//! The parts of operator evaluation that need no floating point: checks on
//! resolved inputs, selection, and one-step delays.

use vstd::prelude::*;
use crate::hashing::Image;
use crate::ops::{ImageDelay1Op, ValueDelay1Op, ValueSelectOp};
use crate::session::NodeState;
use crate::values::{Value, ValueKind};

verus! {

/// Why an operator could not be evaluated.
#[derive(Debug, Clone, Copy)]
#[allow(inconsistent_fields)]
pub enum EvalError {
    /// The two values of a selection are of different kinds.
    ValueSelectMismatch { left: ValueKind, right: ValueKind },
    /// Two images to be mixed differ in size (width, height).
    ImageSizeMismatch { left: (u32, u32), right: (u32, u32) },
}

/// Checks that two images to be mixed have the same size.
pub fn check_mix_sizes(a: &Image, b: &Image) -> (res: Result<(), EvalError>)
    ensures
        res is Ok <==> (a.width == b.width && a.height == b.height),
        res is Err ==> res == Err::<(), EvalError>(EvalError::ImageSizeMismatch {
            left: (a.width, a.height), right: (b.width, b.height),
        }),
{
    if a.width != b.width || a.height != b.height {
        return Err(EvalError::ImageSizeMismatch { left: (a.width, a.height), right: (b.width, b.height) });
    }
    Ok(())
}

/// Two images with the same size and the same pixels.
pub open spec fn same_image(a: Image, b: Image) -> bool {
    &&& a.width == b.width
    &&& a.height == b.height
    &&& a.rgba@ == b.rgba@
}

/// A copy of `image`.
fn copy_image(image: &Image) -> (res: Image)
    ensures
        same_image(res, *image),
{
    let rgba = image.rgba.clone();
    assert(rgba@ =~= image.rgba@);
    Image { width: image.width, height: image.height, rgba }
}

impl ValueSelectOp {
    /// The selected alternative: the first when the condition holds, else
    /// the second; a selection keeps no state.
    pub fn compute(&self, resolved: (bool, Value, Value)) -> (res: (Value, NodeState))
        ensures
            res.0 == (if resolved.0 { resolved.1 } else { resolved.2 }),
            res.1 == NodeState::Empty,
    {
        let (cond, a, b) = resolved;
        (if cond { a } else { b }, NodeState::Empty)
    }
}

/// One evaluation of a one-step value delay: its output is the input of the
/// previous evaluation (or the current input the first time), and it
/// remembers the current input and time (an `f64` bit pattern).
pub open spec fn spec_delay_step(state: NodeState, input: Value, time: u64) -> (Value, NodeState) {
    let previous = match state {
        NodeState::DelayValue { previous, .. } => previous,
        _ => None,
    };
    let output = match previous {
        Some(p) => p,
        None => input,
    };
    (output, NodeState::DelayValue { previous: Some(input), previous_time: Some(time) })
}

impl ValueDelay1Op {
    /// One evaluation of the delay (see [`spec_delay_step`]).
    pub fn compute(&self, input: Value, time: u64, state_in: &NodeState) -> (res: (Value, NodeState))
        ensures
            res == spec_delay_step(*state_in, input, time),
    {
        let previous = match state_in {
            NodeState::DelayValue { previous, .. } => *previous,
            _ => None,
        };
        let output = match previous {
            Some(p) => p,
            None => input,
        };
        (output, NodeState::DelayValue { previous: Some(input), previous_time: Some(time) })
    }
}

/// The image a one-step image delay remembers from its previous evaluation,
/// if any.
pub open spec fn remembered_image(state: NodeState) -> Option<Image> {
    match state {
        NodeState::DelayImage { previous, .. } => previous,
        _ => None,
    }
}

/// What a one-step image delay outputs for `input` in state `state`: the
/// remembered image, or `input` the first time.
pub open spec fn image_delay_output(state: NodeState, input: Image) -> Image {
    match remembered_image(state) {
        Some(p) => p,
        None => input,
    }
}

impl ImageDelay1Op {
    /// One evaluation of the delay: its output is (a copy of) the image of
    /// the previous evaluation, or of the current input the first time; it
    /// remembers the current input and time (an `f64` bit pattern).
    pub fn compute(&self, input: Image, time: u64, state_in: &NodeState) -> (res: (Image, NodeState))
        ensures
            same_image(res.0, image_delay_output(*state_in, input)),
            res.1 == (NodeState::DelayImage { previous: Some(input), previous_time: Some(time) }),
    {
        let output = match state_in {
            NodeState::DelayImage { previous: Some(p), .. } => copy_image(p),
            _ => copy_image(&input),
        };
        (output, NodeState::DelayImage { previous: Some(input), previous_time: Some(time) })
    }
}

/// A value delay outputs, at each evaluation, the input of the evaluation
/// before; the first time, its own input.
pub proof fn law_delay_outputs_previous_input(state: NodeState, x: Value, t1: u64, y: Value, t2: u64)
    ensures
        spec_delay_step(spec_delay_step(state, x, t1).1, y, t2).0 == x,
        spec_delay_step(NodeState::Empty, x, t1).0 == x,
{
}

/// An image delay outputs, at each evaluation, the image of the evaluation
/// before; the first time, its own input.
pub proof fn law_image_delay_outputs_previous_input(x: Image, t1: u64, y: Image)
    ensures
        image_delay_output(NodeState::DelayImage { previous: Some(x), previous_time: Some(t1) }, y) == x,
        image_delay_output(NodeState::Empty, x) == x,
{
}

} // verus!
