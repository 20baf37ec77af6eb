use nade::operators::{
    create_operator, next_operator_key, operator_definitions, operator_label, prev_operator_key, OPERATOR_COUNT,
};
use nade::ops::{ImageSolidColorOp, OperatorNode, MAX_IMAGE_EXTENT, MIN_IMAGE_EXTENT};
use nade::values::{OutputType, ParamKind, ParamValue, Value, ValueKind, ValueParam};

const KEYS: [&str; 12] = [
    "Value.Const",
    "Value.Add",
    "Value.Mul",
    "Value.Sin",
    "Value.CompareGT",
    "Value.Select",
    "Value.Delay1",
    "Value.LFO",
    "Image.SolidColor",
    "Image.Mix",
    "Image.Blur1D",
    "Image.Delay1",
];

#[test]
fn catalogue_lists_every_operator_in_order() {
    let defs = operator_definitions();
    assert_eq!(defs.len(), OPERATOR_COUNT);
    for (def, key) in defs.iter().zip(KEYS.iter()) {
        assert_eq!(def.key, *key);
        assert_eq!(def.label, *key);
    }
}

#[test]
fn next_key_steps_forward_and_wraps() {
    assert_eq!(next_operator_key("Value.Const"), Some("Value.Add"));
    assert_eq!(next_operator_key("Value.LFO"), Some("Image.SolidColor"));
    assert_eq!(next_operator_key("Image.Delay1"), Some("Value.Const"));
    assert_eq!(next_operator_key("Nothing"), None);
}

#[test]
fn prev_key_steps_back_and_wraps() {
    assert_eq!(prev_operator_key("Value.Add"), Some("Value.Const"));
    assert_eq!(prev_operator_key("Value.Const"), Some("Image.Delay1"));
    assert_eq!(prev_operator_key("Image.Mix"), Some("Image.SolidColor"));
    assert_eq!(prev_operator_key(""), None);
}

#[test]
fn next_then_prev_returns_to_every_key() {
    for key in KEYS.iter() {
        let next = next_operator_key(key).unwrap();
        assert_eq!(prev_operator_key(next), Some(*key));
        let prev = prev_operator_key(key).unwrap();
        assert_eq!(next_operator_key(prev), Some(*key));
    }
}

#[test]
fn label_is_the_key() {
    assert_eq!(operator_label("Image.Blur1D"), "Image.Blur1D");
    assert_eq!(operator_label("Custom.Thing"), "Custom.Thing");
}

#[test]
fn created_operators_carry_their_key() {
    for key in KEYS.iter() {
        let op = create_operator(key).unwrap();
        assert_eq!(op.name(), *key);
    }
    assert!(create_operator("Value.Unknown").is_none());
    for def in operator_definitions() {
        assert_eq!(def.create().unwrap().name(), def.key);
    }
}

#[test]
fn created_operators_report_their_output() {
    assert_eq!(create_operator("Value.Add").unwrap().output_type(), OutputType::Value);
    assert_eq!(create_operator("Image.Mix").unwrap().output_type(), OutputType::Image);
}

#[test]
fn solid_color_defaults_and_parameters() {
    let op = create_operator("Image.SolidColor").unwrap();
    let params = op.parameters();
    assert_eq!(params.len(), 3);
    assert_eq!(params[0].label, "Color");
    assert_eq!(params[1].label, "Width");
    assert_eq!(params[1].value, ParamValue::U32(256));
    assert_eq!(params[2].value, ParamValue::U32(256));
    assert_eq!(params[1].kind, ParamKind::U32 { min: MIN_IMAGE_EXTENT, max: MAX_IMAGE_EXTENT });
}

#[test]
fn solid_color_clamps_its_size() {
    let mut op = ImageSolidColorOp::new(ValueParam::new(Value::Vec4(0, 0, 0, 0)), 10, 10);
    assert!(op.set_parameter(1, ParamValue::U32(0)));
    assert_eq!(op.width, 1);
    assert!(op.set_parameter(2, ParamValue::U32(100_000)));
    assert_eq!(op.height, 4096);
    assert!(op.set_parameter(1, ParamValue::U32(640)));
    assert_eq!(op.width, 640);
    assert!(!op.set_parameter(1, ParamValue::ImageInput(nade::values::NodeId::new(3))));
    assert_eq!(op.width, 640);
    assert!(!op.set_parameter(3, ParamValue::U32(1)));
}

#[test]
fn value_parameter_replaces_value() {
    let mut node = create_operator("Value.Const").unwrap();
    let new_param = ValueParam::new(Value::Float(0x4000_0000));
    assert!(node.set_parameter(0, ParamValue::ValueParam(new_param)));
    match node {
        OperatorNode::ValueConst(op) => assert_eq!(op.value, Value::Float(0x4000_0000)),
        _ => panic!("kind changed"),
    }
    assert!(!node.set_parameter(0, ParamValue::U32(1)));
    assert!(!node.set_parameter(1, ParamValue::ValueParam(new_param)));
}

#[test]
fn value_kinds_are_reported() {
    assert_eq!(Value::Float(0).kind(), ValueKind::Float);
    assert_eq!(Value::Vec3(0, 0, 0).kind(), ValueKind::Vec3);
    assert_eq!(Value::Bool(true).kind(), ValueKind::Bool);
}

#[test]
fn node_set_parameter_sets_the_named_input() {
    let mut node = create_operator("Image.Mix").unwrap();
    assert!(node.set_parameter(0, ParamValue::ImageInput(nade::values::NodeId::new(7))));
    assert!(node.set_parameter(1, ParamValue::ImageInput(nade::values::NodeId::new(9))));
    match node {
        OperatorNode::ImageMix(op) => {
            assert_eq!(op.a, nade::values::NodeId::new(7));
            assert_eq!(op.b, nade::values::NodeId::new(9));
        },
        _ => panic!("kind changed"),
    }
    assert!(!node.set_parameter(2, ParamValue::U32(1)));
    assert!(!node.set_parameter(3, ParamValue::ImageInput(nade::values::NodeId::new(1))));
}

#[test]
fn node_parameters_follow_the_operator() {
    let mut node = create_operator("Value.Add").unwrap();
    let b = ValueParam::new(Value::Float(0x4040_0000));
    assert!(node.set_parameter(1, ParamValue::ValueParam(b)));
    let params = node.parameters();
    assert_eq!(params.len(), 2);
    assert_eq!(params[0].label, "A");
    assert_eq!(params[1].label, "B");
    assert_eq!(params[1].value, ParamValue::ValueParam(b));
    assert_ne!(params[0].value, ParamValue::ValueParam(b));
}
