//! Change detection for operator inputs: what each value or image feeds to
//! the hasher, word by word, and the digests of those streams.

use vstd::prelude::*;
use std::collections::hash_map::DefaultHasher;
use std::hash::Hasher;
use vstd::bytes::{spec_u32_to_le_bytes, u32_to_le_bytes};
use vstd::std_specs::hash::DefaultHasherAdditionalSpecFns;
use crate::values::Value;

verus! {

/// One write into the hasher.
#[derive(Debug, Clone, Copy, PartialEq, Eq, Structural)]
pub enum HashWord {
    /// A byte, hashed as a `u8`.
    Byte(u8),
    /// A 32-bit word, hashed as a `u32`.
    Word(u32),
}

/// An image: its size and its pixels as RGBA float bit patterns, row by row.
#[derive(Debug, Clone, PartialEq)]
pub struct Image {
    pub width: u32,
    pub height: u32,
    pub rgba: Vec<u32>,
}

/// The bytes that one write hands to the hasher: a byte alone, or a word's
/// four bytes, least significant first.
pub open spec fn word_bytes(word: HashWord) -> Seq<u8> {
    match word {
        HashWord::Byte(b) => seq![b],
        HashWord::Word(w) => spec_u32_to_le_bytes(w),
    }
}

/// The writes that a stream hands to the hasher, one per word.
pub open spec fn stream_writes(words: Seq<HashWord>) -> Seq<Seq<u8>> {
    words.map_values(|w: HashWord| word_bytes(w))
}

/// The digest of a stream: what a fresh hasher finishes with after the
/// stream's writes.
pub open spec fn stream_digest(words: Seq<HashWord>) -> u64 {
    DefaultHasher::spec_finish(stream_writes(words))
}

/// What a value feeds to the hasher: a tag byte for its kind (`0` float,
/// `1` to `3` for 2- to 4-vectors, `4` boolean), then its float components
/// as words, or its boolean as a byte.
pub open spec fn value_words(value: Value) -> Seq<HashWord> {
    match value {
        Value::Float(v) => seq![HashWord::Byte(0), HashWord::Word(v)],
        Value::Vec2(a, b) => seq![HashWord::Byte(1), HashWord::Word(a), HashWord::Word(b)],
        Value::Vec3(a, b, c) => seq![HashWord::Byte(2), HashWord::Word(a), HashWord::Word(b), HashWord::Word(c)],
        Value::Vec4(a, b, c, d) => seq![
            HashWord::Byte(3), HashWord::Word(a), HashWord::Word(b), HashWord::Word(c), HashWord::Word(d),
        ],
        Value::Bool(v) => seq![HashWord::Byte(4), HashWord::Byte(if v { 1 } else { 0 })],
    }
}

/// What an image feeds to the hasher: width, height, then every pixel
/// component.
pub open spec fn image_words(image: &Image) -> Seq<HashWord> {
    seq![HashWord::Word(image.width), HashWord::Word(image.height)]
        + image.rgba@.map_values(|c: u32| HashWord::Word(c))
}

/// Appends to `words` what `value` feeds to the hasher.
pub fn hash_value_into(value: Value, words: &mut Vec<HashWord>)
    ensures
        final(words)@ == old(words)@ + value_words(value),
{
    match value {
        Value::Float(v) => {
            words.push(HashWord::Byte(0));
            words.push(HashWord::Word(v));
        },
        Value::Vec2(a, b) => {
            words.push(HashWord::Byte(1));
            words.push(HashWord::Word(a));
            words.push(HashWord::Word(b));
        },
        Value::Vec3(a, b, c) => {
            words.push(HashWord::Byte(2));
            words.push(HashWord::Word(a));
            words.push(HashWord::Word(b));
            words.push(HashWord::Word(c));
        },
        Value::Vec4(a, b, c, d) => {
            words.push(HashWord::Byte(3));
            words.push(HashWord::Word(a));
            words.push(HashWord::Word(b));
            words.push(HashWord::Word(c));
            words.push(HashWord::Word(d));
        },
        Value::Bool(v) => {
            words.push(HashWord::Byte(4));
            words.push(HashWord::Byte(if v { 1 } else { 0 }));
        },
    }
    assert(final(words)@ =~= old(words)@ + value_words(value));
}

/// Appends to `words` what `image` feeds to the hasher.
pub fn hash_image_into(image: &Image, words: &mut Vec<HashWord>)
    ensures
        final(words)@ == old(words)@ + image_words(image),
{
    let ghost start = words@;
    words.push(HashWord::Word(image.width));
    words.push(HashWord::Word(image.height));
    let mut i: usize = 0;
    while i < image.rgba.len()
        invariant
            i <= image.rgba.len(),
            words@ == start + seq![HashWord::Word(image.width), HashWord::Word(image.height)]
                + image.rgba@.take(i as int).map_values(|c: u32| HashWord::Word(c)),
        decreases image.rgba.len() - i,
    {
        proof {
            assert(image.rgba@.take(i + 1).map_values(|c: u32| HashWord::Word(c))
                =~= image.rgba@.take(i as int).map_values(|c: u32| HashWord::Word(c)).push(HashWord::Word(image.rgba@[i as int])));
        }
        words.push(HashWord::Word(image.rgba[i]));
        i = i + 1;
    }
    proof { assert(image.rgba@.take(i as int) =~= image.rgba@); }
    assert(words@ =~= start + image_words(image));
}

/// The digest of a stream of hasher writes, from a fresh hasher.
pub fn digest(words: &Vec<HashWord>) -> (res: u64)
    ensures
        res == stream_digest(words@),
{
    let mut hasher = DefaultHasher::new();
    let mut i: usize = 0;
    while i < words.len()
        invariant
            i <= words.len(),
            hasher@ == stream_writes(words@.take(i as int)),
        decreases words.len() - i,
    {
        proof {
            assert(stream_writes(words@.take(i + 1)) =~= stream_writes(words@.take(i as int)).push(word_bytes(words@[i as int])));
        }
        match words[i] {
            HashWord::Byte(b) => {
                let one: Vec<u8> = vec![b];
                assert(one@ =~= seq![b]);
                hasher.write(one.as_slice());
            },
            HashWord::Word(w) => {
                let four = u32_to_le_bytes(w);
                hasher.write(four.as_slice());
            },
        }
        i = i + 1;
    }
    proof { assert(words@.take(i as int) =~= words@); }
    hasher.finish()
}

/// The words of a colour and a size, as a solid-colour image feeds them: a
/// tag byte `1`, the four colour components, the width and the height.
pub open spec fn color_size_words(color: (u32, u32, u32, u32), width: u32, height: u32) -> Seq<HashWord> {
    seq![
        HashWord::Byte(1), HashWord::Word(color.0), HashWord::Word(color.1), HashWord::Word(color.2),
        HashWord::Word(color.3), HashWord::Word(width), HashWord::Word(height),
    ]
}

/// What a colour and a size feed to the hasher.
pub fn color_size_stream(color: (u32, u32, u32, u32), width: u32, height: u32) -> (res: Vec<HashWord>)
    ensures
        res@ == color_size_words(color, width, height),
{
    let res = vec![
        HashWord::Byte(1),
        HashWord::Word(color.0),
        HashWord::Word(color.1),
        HashWord::Word(color.2),
        HashWord::Word(color.3),
        HashWord::Word(width),
        HashWord::Word(height),
    ];
    assert(res@ =~= color_size_words(color, width, height));
    res
}

/// Digest of a colour and a size.
pub fn hash_color_size(color: (u32, u32, u32, u32), width: u32, height: u32) -> (res: u64)
    ensures
        res == stream_digest(color_size_words(color, width, height)),
{
    digest(&color_size_stream(color, width, height))
}

/// What an image feeds to the hasher.
pub fn image_stream(image: &Image) -> (res: Vec<HashWord>)
    ensures
        res@ == image_words(image),
{
    let mut words = Vec::new();
    hash_image_into(image, &mut words);
    assert(words@ =~= image_words(image));
    words
}

/// Digest of an image.
pub fn hash_image(image: &Image) -> (res: u64)
    ensures
        res == stream_digest(image_words(image)),
{
    digest(&image_stream(image))
}

/// What two images feed to the hasher, one after the other.
pub fn image_pair_stream(a: &Image, b: &Image) -> (res: Vec<HashWord>)
    ensures
        res@ == image_words(a) + image_words(b),
{
    let mut words = Vec::new();
    hash_image_into(a, &mut words);
    hash_image_into(b, &mut words);
    assert(words@ =~= image_words(a) + image_words(b));
    words
}

/// Digest of two images, one after the other.
pub fn hash_image_pair(a: &Image, b: &Image) -> (res: u64)
    ensures
        res == stream_digest(image_words(a) + image_words(b)),
{
    digest(&image_pair_stream(a, b))
}

/// What a float (as its bit pattern) feeds to the hasher.
pub fn f32_stream(bits: u32) -> (res: Vec<HashWord>)
    ensures
        res@ == seq![HashWord::Word(bits)],
{
    let res = vec![HashWord::Word(bits)];
    assert(res@ =~= seq![HashWord::Word(bits)]);
    res
}

/// Digest of a float (as its bit pattern).
pub fn hash_f32(bits: u32) -> (res: u64)
    ensures
        res == stream_digest(seq![HashWord::Word(bits)]),
{
    digest(&f32_stream(bits))
}

/// What two floats (as bit patterns) feed to the hasher.
pub fn f32_pair_stream(a: u32, b: u32) -> (res: Vec<HashWord>)
    ensures
        res@ == seq![HashWord::Word(a), HashWord::Word(b)],
{
    let res = vec![HashWord::Word(a), HashWord::Word(b)];
    assert(res@ =~= seq![HashWord::Word(a), HashWord::Word(b)]);
    res
}

/// Digest of two floats (as bit patterns).
pub fn hash_f32_pair(a: u32, b: u32) -> (res: u64)
    ensures
        res == stream_digest(seq![HashWord::Word(a), HashWord::Word(b)]),
{
    digest(&f32_pair_stream(a, b))
}

/// What a value feeds to the hasher.
pub fn value_stream(value: Value) -> (res: Vec<HashWord>)
    ensures
        res@ == value_words(value),
{
    let mut words = Vec::new();
    hash_value_into(value, &mut words);
    assert(words@ =~= value_words(value));
    words
}

/// Digest of a value.
pub fn hash_value(value: Value) -> (res: u64)
    ensures
        res == stream_digest(value_words(value)),
{
    digest(&value_stream(value))
}

/// What two values feed to the hasher, one after the other.
pub fn value_pair_stream(a: Value, b: Value) -> (res: Vec<HashWord>)
    ensures
        res@ == value_words(a) + value_words(b),
{
    let mut words = Vec::new();
    hash_value_into(a, &mut words);
    hash_value_into(b, &mut words);
    assert(words@ =~= value_words(a) + value_words(b));
    words
}

/// Digest of two values, one after the other.
pub fn hash_value_pair(a: Value, b: Value) -> (res: u64)
    ensures
        res == stream_digest(value_words(a) + value_words(b)),
{
    digest(&value_pair_stream(a, b))
}

/// What the inputs of a selection feed to the hasher: the condition as a
/// byte, then the two values.
pub fn select_inputs_stream(cond: bool, a: Value, b: Value) -> (res: Vec<HashWord>)
    ensures
        res@ == seq![HashWord::Byte(if cond { 1 } else { 0 })] + value_words(a) + value_words(b),
{
    let mut words = Vec::new();
    words.push(HashWord::Byte(if cond { 1 } else { 0 }));
    hash_value_into(a, &mut words);
    hash_value_into(b, &mut words);
    assert(words@ =~= seq![HashWord::Byte(if cond { 1u8 } else { 0u8 })] + value_words(a) + value_words(b));
    words
}

/// Digest of the inputs of a selection.
pub fn hash_select_inputs(cond: bool, a: Value, b: Value) -> (res: u64)
    ensures
        res == stream_digest(seq![HashWord::Byte(if cond { 1u8 } else { 0u8 })] + value_words(a) + value_words(b)),
{
    digest(&select_inputs_stream(cond, a, b))
}

/// Different values feed different streams, so their digests can tell them
/// apart.
pub proof fn law_value_words_injective(a: Value, b: Value)
    ensures
        value_words(a) == value_words(b) ==> a == b,
{
    if value_words(a) == value_words(b) {
        assert(value_words(a)[0] == value_words(b)[0]);
        match a {
            Value::Float(x) => { assert(value_words(a)[1] == value_words(b)[1]); },
            Value::Vec2(x, y) => { assert(value_words(a)[1] == value_words(b)[1]); assert(value_words(a)[2] == value_words(b)[2]); },
            Value::Vec3(x, y, z) => {
                assert(value_words(a)[1] == value_words(b)[1]);
                assert(value_words(a)[2] == value_words(b)[2]);
                assert(value_words(a)[3] == value_words(b)[3]);
            },
            Value::Vec4(x, y, z, w) => {
                assert(value_words(a)[1] == value_words(b)[1]);
                assert(value_words(a)[2] == value_words(b)[2]);
                assert(value_words(a)[3] == value_words(b)[3]);
                assert(value_words(a)[4] == value_words(b)[4]);
            },
            Value::Bool(x) => { assert(value_words(a)[1] == value_words(b)[1]); },
        }
    }
}


/// Different images feed different streams.
pub proof fn law_image_words_injective(a: &Image, b: &Image)
    ensures
        image_words(a) == image_words(b) ==> a.width == b.width && a.height == b.height && a.rgba@ == b.rgba@,
{
    if image_words(a) == image_words(b) {
        assert(image_words(a)[0] == image_words(b)[0]);
        assert(image_words(a)[1] == image_words(b)[1]);
        assert(image_words(a).len() == image_words(b).len());
        assert(a.rgba@.len() == b.rgba@.len());
        assert forall|i: int| 0 <= i < a.rgba@.len() implies a.rgba@[i] == b.rgba@[i] by {
            assert(image_words(a)[i + 2] == image_words(b)[i + 2]);
        }
        assert(a.rgba@ =~= b.rgba@);
    }
}

/// Different streams hand the hasher different writes: a byte and a word
/// never give the same bytes, and no two words do.
pub proof fn law_stream_writes_injective(s: Seq<HashWord>, t: Seq<HashWord>)
    ensures
        stream_writes(s) == stream_writes(t) ==> s == t,
{
    vstd::bytes::lemma_auto_spec_u32_to_from_le_bytes();
    if stream_writes(s) == stream_writes(t) {
        assert(stream_writes(s).len() == stream_writes(t).len());
        assert(s.len() == t.len());
        assert forall|i: int| 0 <= i < s.len() implies s[i] == t[i] by {
            assert(stream_writes(s)[i] == stream_writes(t)[i]);
            assert(word_bytes(s[i]) == word_bytes(t[i]));
            match s[i] {
                HashWord::Byte(x) => {
                    match t[i] {
                        HashWord::Byte(y) => { assert(word_bytes(s[i])[0] == word_bytes(t[i])[0]); },
                        HashWord::Word(y) => { assert(word_bytes(t[i]).len() == 4); },
                    }
                },
                HashWord::Word(x) => {
                    match t[i] {
                        HashWord::Byte(y) => { assert(word_bytes(s[i]).len() == 4); },
                        HashWord::Word(y) => {
                            assert(vstd::bytes::spec_u32_from_le_bytes(spec_u32_to_le_bytes(x)) == x);
                            assert(vstd::bytes::spec_u32_from_le_bytes(spec_u32_to_le_bytes(y)) == y);
                        },
                    }
                },
            }
        }
        assert(s =~= t);
    }
}

} // verus!
