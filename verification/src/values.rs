//! The values that flow through the operator graph and the parameters that
//! operators expose. Floating-point components are held as their IEEE-754
//! bit patterns (what `f32::to_bits` gives); arithmetic on them happens
//! outside this library.

use vstd::prelude::*;

verus! {

/// Identifies a node of the operator graph.
#[derive(Debug, Clone, Copy, PartialEq, Eq, Structural)]
pub struct NodeId(pub u64);

impl NodeId {
    /// The node id with number `value`.
    pub fn new(value: u64) -> (res: Self)
        ensures
            res.0 == value,
    {
        NodeId(value)
    }

    /// The number of the node id.
    pub fn value(self) -> (res: u64)
        ensures
            res == self.0,
    {
        self.0
    }
}

/// A value: a float, a 2-, 3- or 4-vector of floats (each held as its bit
/// pattern), or a boolean.
#[derive(Debug, Clone, Copy, PartialEq, Eq, Structural)]
pub enum Value {
    Float(u32),
    Vec2(u32, u32),
    Vec3(u32, u32, u32),
    Vec4(u32, u32, u32, u32),
    Bool(bool),
}

/// The kind of a value.
#[derive(Debug, Clone, Copy, PartialEq, Eq, Structural)]
pub enum ValueKind {
    Float,
    Vec2,
    Vec3,
    Vec4,
    Bool,
}

impl Value {
    /// The kind of the value.
    pub open spec fn spec_kind(self) -> ValueKind {
        match self {
            Value::Float(..) => ValueKind::Float,
            Value::Vec2(..) => ValueKind::Vec2,
            Value::Vec3(..) => ValueKind::Vec3,
            Value::Vec4(..) => ValueKind::Vec4,
            Value::Bool(..) => ValueKind::Bool,
        }
    }

    /// The kind of the value.
    #[verifier::when_used_as_spec(spec_kind)]
    pub fn kind(self) -> (res: ValueKind)
        ensures
            res == self.spec_kind(),
    {
        match self {
            Value::Float(..) => ValueKind::Float,
            Value::Vec2(..) => ValueKind::Vec2,
            Value::Vec3(..) => ValueKind::Vec3,
            Value::Vec4(..) => ValueKind::Vec4,
            Value::Bool(..) => ValueKind::Bool,
        }
    }
}

/// A parameter that holds a base value and may add the output of another
/// node to it.
#[derive(Debug, Clone, Copy, PartialEq, Eq, Structural)]
pub struct ValueParam {
    pub base: Value,
    pub mapping: Option<NodeId>,
}

impl ValueParam {
    /// A parameter with base value `base` and no mapping.
    pub fn new(base: Value) -> (res: Self)
        ensures
            res.base == base,
            res.mapping.is_none(),
    {
        ValueParam { base, mapping: None }
    }
}

/// How a value parameter is edited in the user interface.
#[derive(Debug, Clone, Copy, PartialEq, Eq, Structural)]
pub enum ValueParamUi {
    Default,
    Float,
    Bool,
    Color,
}

/// What kind of parameter an operator exposes.
#[derive(Debug, Clone, Copy, PartialEq, Eq, Structural)]
pub enum ParamKind {
    /// A value parameter, optionally of an expected kind, that may or may
    /// not be mapped to another node.
    ValueParam { expected: Option<ValueKind>, allow_mapping: bool, ui: ValueParamUi },
    /// An unsigned integer between `min` and `max`.
    U32 { min: u32, max: u32 },
    /// A reference to a node whose image is an input.
    ImageInput,
}

/// The current value of a parameter, or a new value for it.
#[derive(Debug, Clone, Copy, PartialEq, Eq, Structural)]
pub enum ParamValue {
    ValueParam(ValueParam),
    U32(u32),
    ImageInput(NodeId),
}

/// A parameter of an operator as shown to the user: label, kind and
/// current value.
#[derive(Debug)]
pub struct ParamDescriptor {
    pub label: String,
    pub kind: ParamKind,
    pub value: ParamValue,
}

/// A descriptor as its label, kind and value.
pub open spec fn descriptor_view(d: ParamDescriptor) -> (Seq<char>, ParamKind, ParamValue) {
    (d.label@, d.kind, d.value)
}

/// What an operator produces.
#[derive(Debug, Clone, Copy, PartialEq, Eq, Structural)]
pub enum OutputType {
    Value,
    Image,
}

/// A descriptor for the value parameter `param` labelled `label`.
pub fn value_param_descriptor(
    label: &str,
    param: &ValueParam,
    expected: Option<ValueKind>,
    allow_mapping: bool,
    ui: ValueParamUi,
) -> (res: ParamDescriptor)
    ensures
        res.label@ == label@,
        res.kind == (ParamKind::ValueParam { expected, allow_mapping, ui }),
        res.value == ParamValue::ValueParam(*param),
{
    ParamDescriptor {
        label: String::from_str(label),
        kind: ParamKind::ValueParam { expected, allow_mapping, ui },
        value: ParamValue::ValueParam(*param),
    }
}

/// A descriptor for an unsigned parameter labelled `label` with value
/// `value` between `min` and `max`.
pub fn u32_descriptor(label: &str, value: u32, min: u32, max: u32) -> (res: ParamDescriptor)
    ensures
        res.label@ == label@,
        res.kind == (ParamKind::U32 { min, max }),
        res.value == ParamValue::U32(value),
{
    ParamDescriptor { label: String::from_str(label), kind: ParamKind::U32 { min, max }, value: ParamValue::U32(value) }
}

/// A descriptor for the image input labelled `label` that reads from the
/// node `value`.
pub fn image_input_descriptor(label: &str, value: NodeId) -> (res: ParamDescriptor)
    ensures
        res.label@ == label@,
        res.kind == ParamKind::ImageInput,
        res.value == ParamValue::ImageInput(value),
{
    ParamDescriptor { label: String::from_str(label), kind: ParamKind::ImageInput, value: ParamValue::ImageInput(value) }
}

/// Stores a new value parameter; refuses values of any other kind.
pub fn set_value_param(target: &mut ValueParam, value: ParamValue) -> (res: bool)
    ensures
        res == (value is ValueParam),
        res ==> *final(target) == value->ValueParam_0,
        !res ==> *final(target) == *old(target),
{
    match value {
        ParamValue::ValueParam(param) => {
            *target = param;
            true
        },
        _ => false,
    }
}

/// `value` kept between `min` and `max`.
pub open spec fn clamp_u32(value: u32, min: u32, max: u32) -> u32 {
    if value < min { min } else if value > max { max } else { value }
}

/// Stores a new unsigned value, kept between `min` and `max`; refuses
/// values of any other kind.
pub fn set_u32(target: &mut u32, value: ParamValue, min: u32, max: u32) -> (res: bool)
    requires
        min <= max,
    ensures
        res == (value is U32),
        res ==> *final(target) == clamp_u32(value->U32_0, min, max),
        !res ==> *final(target) == *old(target),
{
    match value {
        ParamValue::U32(val) => {
            *target = if val < min { min } else if val > max { max } else { val };
            true
        },
        _ => false,
    }
}

/// Stores a new image input; refuses values of any other kind.
pub fn set_image_input(target: &mut NodeId, value: ParamValue) -> (res: bool)
    ensures
        res == (value is ImageInput),
        res ==> *final(target) == value->ImageInput_0,
        !res ==> *final(target) == *old(target),
{
    match value {
        ParamValue::ImageInput(node_id) => {
            *target = node_id;
            true
        },
        _ => false,
    }
}

} // verus!
