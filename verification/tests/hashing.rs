use nade::hashing::{
    digest, hash_color_size, hash_f32, hash_f32_pair, hash_image, hash_image_pair, hash_select_inputs, hash_value,
    hash_value_pair, image_stream, select_inputs_stream, value_stream, HashWord, Image,
};
use nade::values::Value;
use std::collections::hash_map::DefaultHasher;
use std::hash::{Hash, Hasher};

fn image(width: u32, height: u32, rgba: Vec<u32>) -> Image {
    Image { width, height, rgba }
}

#[test]
fn value_streams_tag_their_kind() {
    assert_eq!(value_stream(Value::Float(7)), vec![HashWord::Byte(0), HashWord::Word(7)]);
    assert_eq!(
        value_stream(Value::Vec2(1, 2)),
        vec![HashWord::Byte(1), HashWord::Word(1), HashWord::Word(2)]
    );
    assert_eq!(value_stream(Value::Bool(true)), vec![HashWord::Byte(4), HashWord::Byte(1)]);
    assert_eq!(
        select_inputs_stream(false, Value::Bool(false), Value::Float(3)),
        vec![HashWord::Byte(0), HashWord::Byte(4), HashWord::Byte(0), HashWord::Byte(0), HashWord::Word(3)]
    );
}

#[test]
fn image_stream_holds_size_then_pixels() {
    let img = image(1, 1, vec![10, 20, 30, 40]);
    assert_eq!(
        image_stream(&img),
        vec![
            HashWord::Word(1),
            HashWord::Word(1),
            HashWord::Word(10),
            HashWord::Word(20),
            HashWord::Word(30),
            HashWord::Word(40)
        ]
    );
}

#[test]
fn equal_inputs_give_equal_digests() {
    assert_eq!(hash_value(Value::Vec3(1, 2, 3)), hash_value(Value::Vec3(1, 2, 3)));
    assert_eq!(hash_f32(5), hash_f32(5));
    let a = image(2, 1, vec![0; 8]);
    let b = image(2, 1, vec![0; 8]);
    assert_eq!(hash_image(&a), hash_image(&b));
}

#[test]
fn different_inputs_give_different_digests() {
    assert_ne!(hash_value(Value::Float(1)), hash_value(Value::Float(2)));
    assert_ne!(hash_value(Value::Float(0)), hash_value(Value::Bool(false)));
    assert_ne!(hash_f32_pair(1, 2), hash_f32_pair(2, 1));
    assert_ne!(hash_value_pair(Value::Float(1), Value::Float(2)), hash_value(Value::Float(1)));
    assert_ne!(hash_select_inputs(true, Value::Float(1), Value::Float(1)), hash_select_inputs(false, Value::Float(1), Value::Float(1)));
    let a = image(1, 1, vec![1, 2, 3, 4]);
    let b = image(1, 1, vec![1, 2, 3, 5]);
    assert_ne!(hash_image(&a), hash_image(&b));
    assert_ne!(hash_image_pair(&a, &b), hash_image_pair(&b, &a));
    assert_ne!(hash_color_size((0, 0, 0, 0), 2, 3), hash_color_size((0, 0, 0, 0), 3, 2));
}

#[test]
fn digest_matches_hashing_the_words() {
    let mut hasher = DefaultHasher::new();
    1u8.hash(&mut hasher);
    for word in [1u32, 2, 3, 4, 640, 480] {
        word.hash(&mut hasher);
    }
    assert_eq!(hash_color_size((1, 2, 3, 4), 640, 480), hasher.finish());
    assert_eq!(digest(&vec![]), DefaultHasher::new().finish());
}
