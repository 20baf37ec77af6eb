//! Resolving operators: once the evaluator has produced the values of an
//! operator's parameters and inputs, the operator keeps them together with
//! two change-detection hashes, one of its own parameters and one of its
//! inputs (zero where it has none).

use vstd::prelude::*;
use crate::evaluation::EvalError;
use crate::hashing::{
    color_size_words, hash_color_size, hash_f32, hash_f32_pair, hash_image, hash_image_pair, hash_select_inputs,
    hash_value, hash_value_pair, image_words, stream_digest, value_words, HashWord, Image,
};
use crate::ops::{
    ImageBlur1DOp, ImageDelay1Op, ImageMixOp, ImageSolidColorOp, ValueAddOp, ValueCompareGTOp, ValueConstOp,
    ValueDelay1Op, ValueLfoOp, ValueSelectOp, ValueSinOp,
};
use crate::values::Value;

verus! {

/// What an operator resolved to: the values it computes from and the
/// hashes of its parameters and of its inputs.
#[derive(Debug)]
pub struct ResolvedOp<T> {
    pub value: T,
    pub param_hash: u64,
    pub input_hash: u64,
}

/// The digest of one float (as its bit pattern).
pub open spec fn f32_digest(bits: u32) -> u64 {
    stream_digest(seq![HashWord::Word(bits)])
}

/// The digest of two floats (as bit patterns), one after the other.
pub open spec fn f32_pair_digest(a: u32, b: u32) -> u64 {
    stream_digest(seq![HashWord::Word(a), HashWord::Word(b)])
}

impl ValueConstOp {
    /// The constant, with the hash of the constant as its parameter hash.
    pub fn resolve(&self) -> (res: ResolvedOp<Value>)
        ensures
            res.value == self.value,
            res.param_hash == stream_digest(value_words(self.value)),
            res.input_hash == 0,
    {
        ResolvedOp { value: self.value, param_hash: hash_value(self.value), input_hash: 0 }
    }
}

impl ValueAddOp {
    /// The two terms `a` and `b`, hashed together as the inputs.
    pub fn resolve(&self, a: Value, b: Value) -> (res: ResolvedOp<(Value, Value)>)
        ensures
            res.value == (a, b),
            res.param_hash == 0,
            res.input_hash == stream_digest(value_words(a) + value_words(b)),
    {
        ResolvedOp { value: (a, b), param_hash: 0, input_hash: hash_value_pair(a, b) }
    }
}

impl ValueSinOp {
    /// The frequency and phase (float bit patterns), hashed together as the
    /// parameters.
    pub fn resolve(&self, freq: u32, phase: u32) -> (res: ResolvedOp<(u32, u32)>)
        ensures
            res.value == (freq, phase),
            res.param_hash == f32_pair_digest(freq, phase),
            res.input_hash == 0,
    {
        ResolvedOp { value: (freq, phase), param_hash: hash_f32_pair(freq, phase), input_hash: 0 }
    }
}

impl ValueCompareGTOp {
    /// The two compared floats (bit patterns), hashed together as the
    /// inputs.
    pub fn resolve(&self, a: u32, b: u32) -> (res: ResolvedOp<(u32, u32)>)
        ensures
            res.value == (a, b),
            res.param_hash == 0,
            res.input_hash == f32_pair_digest(a, b),
    {
        ResolvedOp { value: (a, b), param_hash: 0, input_hash: hash_f32_pair(a, b) }
    }
}

impl ValueSelectOp {
    /// The condition and the two alternatives, hashed together as the
    /// inputs; an error when the alternatives are of different kinds.
    pub fn resolve(&self, cond: bool, a: Value, b: Value) -> (res: Result<ResolvedOp<(bool, Value, Value)>, EvalError>)
        ensures
            res is Ok <==> a.spec_kind() == b.spec_kind(),
            res matches Err(e) ==> e == (EvalError::ValueSelectMismatch { left: a.spec_kind(), right: b.spec_kind() }),
            res matches Ok(r) ==> r.value == (cond, a, b) && r.param_hash == 0 && r.input_hash == stream_digest(
                seq![HashWord::Byte(if cond { 1u8 } else { 0u8 })] + value_words(a) + value_words(b),
            ),
    {
        if a.kind() != b.kind() {
            return Err(EvalError::ValueSelectMismatch { left: a.kind(), right: b.kind() });
        }
        Ok(ResolvedOp { value: (cond, a, b), param_hash: 0, input_hash: hash_select_inputs(cond, a, b) })
    }
}

impl ValueDelay1Op {
    /// The delayed input, hashed as the input.
    pub fn resolve(&self, input: Value) -> (res: ResolvedOp<Value>)
        ensures
            res.value == input,
            res.param_hash == 0,
            res.input_hash == stream_digest(value_words(input)),
    {
        ResolvedOp { value: input, param_hash: 0, input_hash: hash_value(input) }
    }
}

impl ValueLfoOp {
    /// The frequency, amplitude and phase (float bit patterns); the
    /// parameter hash combines the hash of the first two with that of the
    /// phase by exclusive or.
    pub fn resolve(&self, frequency: u32, amplitude: u32, phase: u32) -> (res: ResolvedOp<(u32, u32, u32)>)
        ensures
            res.value == (frequency, amplitude, phase),
            res.param_hash == f32_pair_digest(frequency, amplitude) ^ f32_digest(phase),
            res.input_hash == 0,
    {
        let param_hash = hash_f32_pair(frequency, amplitude) ^ hash_f32(phase);
        ResolvedOp { value: (frequency, amplitude, phase), param_hash, input_hash: 0 }
    }
}

impl ImageSolidColorOp {
    /// The colour (float bit patterns) and the operator's size, hashed
    /// together as the parameters.
    pub fn resolve(&self, color: (u32, u32, u32, u32)) -> (res: ResolvedOp<((u32, u32, u32, u32), u32, u32)>)
        ensures
            res.value == (color, self.width, self.height),
            res.param_hash == stream_digest(color_size_words(color, self.width, self.height)),
            res.input_hash == 0,
    {
        ResolvedOp {
            value: (color, self.width, self.height),
            param_hash: hash_color_size(color, self.width, self.height),
            input_hash: 0,
        }
    }
}

impl ImageMixOp {
    /// The two images and the blend factor (a float bit pattern): the
    /// factor is the parameter, the images are the inputs.
    pub fn resolve(&self, a: Image, b: Image, alpha: u32) -> (res: ResolvedOp<(Image, Image, u32)>)
        ensures
            res.value.0 == a,
            res.value.1 == b,
            res.value.2 == alpha,
            res.param_hash == f32_digest(alpha),
            res.input_hash == stream_digest(image_words(&a) + image_words(&b)),
    {
        let input_hash = hash_image_pair(&a, &b);
        let param_hash = hash_f32(alpha);
        ResolvedOp { value: (a, b, alpha), param_hash, input_hash }
    }
}

impl ImageBlur1DOp {
    /// The image to blur and the radius (a float bit pattern): the radius is
    /// the parameter, the image the input.
    pub fn resolve(&self, input: Image, radius: u32) -> (res: ResolvedOp<(Image, u32)>)
        ensures
            res.value.0 == input,
            res.value.1 == radius,
            res.param_hash == f32_digest(radius),
            res.input_hash == stream_digest(image_words(&input)),
    {
        let input_hash = hash_image(&input);
        let param_hash = hash_f32(radius);
        ResolvedOp { value: (input, radius), param_hash, input_hash }
    }
}

impl ImageDelay1Op {
    /// The delayed image, hashed as the input.
    pub fn resolve(&self, input: Image) -> (res: ResolvedOp<Image>)
        ensures
            res.value == input,
            res.param_hash == 0,
            res.input_hash == stream_digest(image_words(&input)),
    {
        let input_hash = hash_image(&input);
        ResolvedOp { value: input, param_hash: 0, input_hash }
    }
}

} // verus!
