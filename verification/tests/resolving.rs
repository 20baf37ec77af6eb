use nade::hashing::{hash_color_size, hash_f32, hash_f32_pair, hash_image, hash_image_pair, hash_value, hash_value_pair, Image};
use nade::ops::{
    ImageBlur1DOp, ImageDelay1Op, ImageMixOp, ImageSolidColorOp, ValueAddOp, ValueCompareGTOp, ValueConstOp,
    ValueDelay1Op, ValueLfoOp, ValueSinOp,
};
use nade::values::{NodeId, Value, ValueParam};

fn p(v: Value) -> ValueParam {
    ValueParam::new(v)
}

fn img(px: u32) -> Image {
    Image { width: 1, height: 1, rgba: vec![px, px, px, px] }
}

#[test]
fn value_operators_hash_their_parameters_or_inputs() {
    let c = ValueConstOp::new(Value::Float(9)).resolve();
    assert_eq!((c.value, c.param_hash, c.input_hash), (Value::Float(9), hash_value(Value::Float(9)), 0));
    let add = ValueAddOp::new(p(Value::Float(0)), p(Value::Float(0))).resolve(Value::Float(1), Value::Float(2));
    assert_eq!(add.param_hash, 0);
    assert_eq!(add.input_hash, hash_value_pair(Value::Float(1), Value::Float(2)));
    let sin = ValueSinOp::new(p(Value::Float(0)), p(Value::Float(0))).resolve(3, 4);
    assert_eq!((sin.param_hash, sin.input_hash), (hash_f32_pair(3, 4), 0));
    let gt = ValueCompareGTOp::new(p(Value::Float(0)), p(Value::Float(0))).resolve(3, 4);
    assert_eq!((gt.param_hash, gt.input_hash), (0, hash_f32_pair(3, 4)));
    let delay = ValueDelay1Op::new(p(Value::Float(0))).resolve(Value::Bool(true));
    assert_eq!(delay.input_hash, hash_value(Value::Bool(true)));
    let lfo = ValueLfoOp::new(p(Value::Float(0)), p(Value::Float(0)), p(Value::Float(0))).resolve(1, 2, 3);
    assert_eq!(lfo.param_hash, hash_f32_pair(1, 2) ^ hash_f32(3));
    assert_eq!(lfo.input_hash, 0);
    assert_eq!(lfo.value, (1, 2, 3));
}

#[test]
fn image_operators_hash_their_parameters_and_inputs() {
    let solid = ImageSolidColorOp::new(p(Value::Vec4(0, 0, 0, 0)), 640, 480).resolve((1, 2, 3, 4));
    assert_eq!(solid.value, ((1, 2, 3, 4), 640, 480));
    assert_eq!(solid.param_hash, hash_color_size((1, 2, 3, 4), 640, 480));
    let mix = ImageMixOp::new(NodeId::new(1), NodeId::new(2), p(Value::Float(0))).resolve(img(1), img(2), 7);
    assert_eq!(mix.param_hash, hash_f32(7));
    assert_eq!(mix.input_hash, hash_image_pair(&img(1), &img(2)));
    let blur = ImageBlur1DOp::new(NodeId::new(1), p(Value::Float(0))).resolve(img(3), 8);
    assert_eq!((blur.param_hash, blur.input_hash), (hash_f32(8), hash_image(&img(3))));
    let delay = ImageDelay1Op::new(NodeId::new(1)).resolve(img(4));
    assert_eq!((delay.param_hash, delay.input_hash), (0, hash_image(&img(4))));
    assert_eq!(delay.value, img(4));
}
