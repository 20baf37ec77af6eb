//! The catalogue of operators: their keys and labels, the operator each key
//! creates, and stepping through the catalogue.

use vstd::prelude::*;
use crate::ops::{
    ImageBlur1DOp, ImageDelay1Op, ImageMixOp, ImageSolidColorOp, OperatorNode, ValueAddOp, ValueCompareGTOp,
    ValueConstOp, ValueDelay1Op, ValueLfoOp, ValueMulOp, ValueSelectOp, ValueSinOp,
};
use crate::text::str_eq;
use crate::values::{NodeId, Value, ValueParam};

verus! {

/// Bit pattern of the float `0.0`.
pub const F32_ZERO: u32 = 0x0000_0000;
/// Bit pattern of the float `0.2`.
pub const F32_POINT_TWO: u32 = 0x3e4c_cccd;
/// Bit pattern of the float `0.5`.
pub const F32_HALF: u32 = 0x3f00_0000;
/// Bit pattern of the float `1.0`.
pub const F32_ONE: u32 = 0x3f80_0000;
/// Bit pattern of the float `4.0`.
pub const F32_FOUR: u32 = 0x4080_0000;

/// Number of operators in the catalogue.
pub const OPERATOR_COUNT: usize = 12;

/// One entry of the catalogue.
#[derive(Debug, Clone, Copy)]
pub struct OperatorDefinition {
    pub key: &'static str,
    pub label: &'static str,
}

/// The keys of the catalogue, in order.
pub open spec fn operator_keys() -> Seq<Seq<char>> {
    seq![
        "Value.Const"@, "Value.Add"@, "Value.Mul"@, "Value.Sin"@, "Value.CompareGT"@, "Value.Select"@,
        "Value.Delay1"@, "Value.LFO"@, "Image.SolidColor"@, "Image.Mix"@, "Image.Blur1D"@, "Image.Delay1"@,
    ]
}

impl OperatorDefinition {
    /// The operator this entry creates; `None` when its key is not in the
    /// catalogue.
    pub fn create(&self) -> (res: Option<OperatorNode>)
        ensures
            res is Some == operator_keys().contains(self.key@),
            res matches Some(op) ==> op == default_operator(key_index(self.key@).unwrap()) && op.key() == self.key@,
    {
        create_operator(self.key)
    }
}

/// The catalogue, in order; every entry's label is its key.
pub fn operator_definitions() -> (res: Vec<OperatorDefinition>)
    ensures
        res@.len() == OPERATOR_COUNT,
        forall|i: int| 0 <= i < OPERATOR_COUNT ==> (#[trigger] res@[i]).key@ == operator_keys()[i],
        forall|i: int| 0 <= i < OPERATOR_COUNT ==> (#[trigger] res@[i]).label@ == operator_keys()[i],
{
    let res = vec![
        OperatorDefinition { key: "Value.Const", label: "Value.Const" },
        OperatorDefinition { key: "Value.Add", label: "Value.Add" },
        OperatorDefinition { key: "Value.Mul", label: "Value.Mul" },
        OperatorDefinition { key: "Value.Sin", label: "Value.Sin" },
        OperatorDefinition { key: "Value.CompareGT", label: "Value.CompareGT" },
        OperatorDefinition { key: "Value.Select", label: "Value.Select" },
        OperatorDefinition { key: "Value.Delay1", label: "Value.Delay1" },
        OperatorDefinition { key: "Value.LFO", label: "Value.LFO" },
        OperatorDefinition { key: "Image.SolidColor", label: "Image.SolidColor" },
        OperatorDefinition { key: "Image.Mix", label: "Image.Mix" },
        OperatorDefinition { key: "Image.Blur1D", label: "Image.Blur1D" },
        OperatorDefinition { key: "Image.Delay1", label: "Image.Delay1" },
    ];
    assert forall|i: int| 0 <= i < OPERATOR_COUNT implies (#[trigger] res@[i]).key@ == operator_keys()[i]
        && res@[i].label@ == operator_keys()[i] by {}
    res
}

/// The position of `key` in the catalogue.
pub open spec fn key_index(key: Seq<char>) -> Option<int> {
    if operator_keys().contains(key) {
        Some(choose|i: int| 0 <= i < OPERATOR_COUNT && operator_keys()[i] == key)
    } else {
        None
    }
}

/// The keys of the catalogue differ from one another.
pub proof fn lemma_keys_distinct()
    ensures
        forall|i: int, j: int| 0 <= i < OPERATOR_COUNT && 0 <= j < OPERATOR_COUNT && i != j
            ==> operator_keys()[i] != operator_keys()[j],
{
    reveal_strlit("Value.Const");
    reveal_strlit("Value.Add");
    reveal_strlit("Value.Mul");
    reveal_strlit("Value.Sin");
    reveal_strlit("Value.CompareGT");
    reveal_strlit("Value.Select");
    reveal_strlit("Value.Delay1");
    reveal_strlit("Value.LFO");
    reveal_strlit("Image.SolidColor");
    reveal_strlit("Image.Mix");
    reveal_strlit("Image.Blur1D");
    reveal_strlit("Image.Delay1");
    assert forall|i: int, j: int| 0 <= i < OPERATOR_COUNT && 0 <= j < OPERATOR_COUNT && i != j
        implies operator_keys()[i] != operator_keys()[j] by {
        let ki = operator_keys()[i];
        let kj = operator_keys()[j];
        if ki.len() == kj.len() {
            // Keys of equal length differ in their first or their seventh character.
            assert(ki[0] != kj[0] || ki[6] != kj[6]);
        }
    }
}

/// Where `current` stands in the catalogue.
fn key_position(current: &str) -> (res: Option<usize>)
    ensures
        res is Some == operator_keys().contains(current@),
        res matches Some(i) ==> i < OPERATOR_COUNT && operator_keys()[i as int] == current@,
{
    let definitions = operator_definitions();
    let mut i: usize = 0;
    while i < definitions.len()
        invariant
            definitions@.len() == OPERATOR_COUNT,
            forall|k: int| 0 <= k < OPERATOR_COUNT ==> (#[trigger] definitions@[k]).key@ == operator_keys()[k],
            i <= definitions.len(),
            forall|k: int| 0 <= k < i ==> operator_keys()[k] != current@,
        decreases definitions.len() - i,
    {
        if str_eq(definitions[i].key, current) {
            return Some(i);
        }
        i = i + 1;
    }
    proof {
        if operator_keys().contains(current@) {
            let k = choose|k: int| 0 <= k < operator_keys().len() && operator_keys()[k] == current@;
            assert(operator_keys()[k] != current@);
        }
    }
    None
}

/// The label of the operator with key `key`; `key` itself when the
/// catalogue has no such operator.
pub fn operator_label(key: &str) -> (res: &str)
    ensures
        res@ == key@,
{
    match key_position(key) {
        Some(i) => {
            let definitions = operator_definitions();
            definitions[i].label
        },
        None => key,
    }
}

/// The key after `current` in the catalogue, wrapping around from the last
/// to the first; `None` when `current` is not in the catalogue.
pub open spec fn spec_next_key(current: Seq<char>) -> Option<Seq<char>> {
    match key_index(current) {
        Some(i) => Some(operator_keys()[(i + 1) % (OPERATOR_COUNT as int)]),
        None => None,
    }
}

/// The key before `current` in the catalogue, wrapping around from the
/// first to the last; `None` when `current` is not in the catalogue.
pub open spec fn spec_prev_key(current: Seq<char>) -> Option<Seq<char>> {
    match key_index(current) {
        Some(i) => Some(operator_keys()[(i + OPERATOR_COUNT - 1) % (OPERATOR_COUNT as int)]),
        None => None,
    }
}

/// The key after `current` in the catalogue (see [`spec_next_key`]).
pub fn next_operator_key(current: &str) -> (res: Option<&'static str>)
    ensures
        res is Some == spec_next_key(current@) is Some,
        res matches Some(k) ==> k@ == spec_next_key(current@).unwrap(),
{
    let i = key_position(current)?;
    proof { lemma_keys_distinct(); }
    let definitions = operator_definitions();
    Some(definitions[(i + 1) % definitions.len()].key)
}

/// The key before `current` in the catalogue (see [`spec_prev_key`]).
pub fn prev_operator_key(current: &str) -> (res: Option<&'static str>)
    ensures
        res is Some == spec_prev_key(current@) is Some,
        res matches Some(k) ==> k@ == spec_prev_key(current@).unwrap(),
{
    let i = key_position(current)?;
    proof { lemma_keys_distinct(); }
    let definitions = operator_definitions();
    Some(definitions[(i + definitions.len() - 1) % definitions.len()].key)
}

/// Stepping forward and then back through the catalogue returns to the
/// starting key, and so does stepping back and then forward; keys outside the
/// catalogue have neither neighbour.
pub proof fn law_next_prev_inverse(key: Seq<char>)
    ensures
        operator_keys().contains(key) ==> spec_prev_key(spec_next_key(key).unwrap()) == Some(key),
        operator_keys().contains(key) ==> spec_next_key(spec_prev_key(key).unwrap()) == Some(key),
        !operator_keys().contains(key) ==> spec_next_key(key) is None && spec_prev_key(key) is None,
{
    lemma_keys_distinct();
    if operator_keys().contains(key) {
        let i = key_index(key).unwrap();
        let n = (i + 1) % 12;
        assert(operator_keys().contains(operator_keys()[n]));
        assert(key_index(operator_keys()[n]) == Some(n));
        assert((n + 12 - 1) % 12 == i);
        let p = (i + 12 - 1) % 12;
        assert(operator_keys().contains(operator_keys()[p]));
        assert(key_index(operator_keys()[p]) == Some(p));
        assert((p + 1) % 12 == i);
    }
}

/// A float parameter with the given bit pattern and no mapping.
pub open spec fn float_param(bits: u32) -> ValueParam {
    ValueParam { base: Value::Float(bits), mapping: None }
}

/// The operator that the catalogue entry at `i` creates.
pub open spec fn default_operator(i: int) -> OperatorNode {
    if i == 0 {
        OperatorNode::ValueConst(ValueConstOp { value: Value::Float(F32_ZERO) })
    } else if i == 1 {
        OperatorNode::ValueAdd(ValueAddOp { a: float_param(F32_ZERO), b: float_param(F32_ZERO) })
    } else if i == 2 {
        OperatorNode::ValueMul(ValueMulOp { a: float_param(F32_ONE), b: float_param(F32_ONE) })
    } else if i == 3 {
        OperatorNode::ValueSin(ValueSinOp { freq: float_param(F32_ONE), phase: float_param(F32_ZERO) })
    } else if i == 4 {
        OperatorNode::ValueCompareGT(ValueCompareGTOp { a: float_param(F32_ZERO), b: float_param(F32_ZERO) })
    } else if i == 5 {
        OperatorNode::ValueSelect(ValueSelectOp {
            cond: ValueParam { base: Value::Bool(false), mapping: None },
            a: float_param(F32_ZERO),
            b: float_param(F32_ONE),
        })
    } else if i == 6 {
        OperatorNode::ValueDelay1(ValueDelay1Op { input: float_param(F32_ZERO) })
    } else if i == 7 {
        OperatorNode::ValueLfo(ValueLfoOp { frequency: float_param(F32_ONE), amplitude: float_param(F32_ONE), phase: float_param(F32_ZERO) })
    } else if i == 8 {
        OperatorNode::ImageSolidColor(ImageSolidColorOp {
            color: ValueParam { base: Value::Vec4(F32_POINT_TWO, F32_POINT_TWO, F32_POINT_TWO, F32_ONE), mapping: None },
            width: 256,
            height: 256,
        })
    } else if i == 9 {
        OperatorNode::ImageMix(ImageMixOp { a: NodeId(1), b: NodeId(1), alpha: float_param(F32_HALF) })
    } else if i == 10 {
        OperatorNode::ImageBlur1D(ImageBlur1DOp { input: NodeId(1), radius: float_param(F32_FOUR) })
    } else {
        OperatorNode::ImageDelay1(ImageDelay1Op { input: NodeId(1) })
    }
}

/// The operator the catalogue entry at `i` creates.
fn create_from_definition(i: usize) -> (res: OperatorNode)
    requires
        i < OPERATOR_COUNT,
    ensures
        res == default_operator(i as int),
{
    if i == 0 {
        OperatorNode::ValueConst(ValueConstOp::new(Value::Float(F32_ZERO)))
    } else if i == 1 {
        OperatorNode::ValueAdd(ValueAddOp::new(ValueParam::new(Value::Float(F32_ZERO)), ValueParam::new(Value::Float(F32_ZERO))))
    } else if i == 2 {
        OperatorNode::ValueMul(ValueMulOp::new(ValueParam::new(Value::Float(F32_ONE)), ValueParam::new(Value::Float(F32_ONE))))
    } else if i == 3 {
        OperatorNode::ValueSin(ValueSinOp::new(ValueParam::new(Value::Float(F32_ONE)), ValueParam::new(Value::Float(F32_ZERO))))
    } else if i == 4 {
        OperatorNode::ValueCompareGT(ValueCompareGTOp::new(ValueParam::new(Value::Float(F32_ZERO)), ValueParam::new(Value::Float(F32_ZERO))))
    } else if i == 5 {
        OperatorNode::ValueSelect(ValueSelectOp::new(
            ValueParam::new(Value::Bool(false)),
            ValueParam::new(Value::Float(F32_ZERO)),
            ValueParam::new(Value::Float(F32_ONE)),
        ))
    } else if i == 6 {
        OperatorNode::ValueDelay1(ValueDelay1Op::new(ValueParam::new(Value::Float(F32_ZERO))))
    } else if i == 7 {
        OperatorNode::ValueLfo(ValueLfoOp::new(
            ValueParam::new(Value::Float(F32_ONE)),
            ValueParam::new(Value::Float(F32_ONE)),
            ValueParam::new(Value::Float(F32_ZERO)),
        ))
    } else if i == 8 {
        OperatorNode::ImageSolidColor(ImageSolidColorOp::new(
            ValueParam::new(Value::Vec4(F32_POINT_TWO, F32_POINT_TWO, F32_POINT_TWO, F32_ONE)),
            256,
            256,
        ))
    } else if i == 9 {
        OperatorNode::ImageMix(ImageMixOp::new(NodeId::new(1), NodeId::new(1), ValueParam::new(Value::Float(F32_HALF))))
    } else if i == 10 {
        OperatorNode::ImageBlur1D(ImageBlur1DOp::new(NodeId::new(1), ValueParam::new(Value::Float(F32_FOUR))))
    } else {
        OperatorNode::ImageDelay1(ImageDelay1Op::new(NodeId::new(1)))
    }
}

/// The operator that the catalogue creates for `key`: the entry's default
/// operator (whose key is `key`), or `None` when the catalogue has no such
/// entry.
pub fn create_operator(key: &str) -> (res: Option<OperatorNode>)
    ensures
        res is Some == operator_keys().contains(key@),
        res matches Some(op) ==> op == default_operator(key_index(key@).unwrap()) && op.key() == key@,
{
    let i = key_position(key)?;
    proof {
        lemma_keys_distinct();
        assert(key_index(key@) == Some(i as int));
    }
    Some(create_from_definition(i))
}

} // verus!
