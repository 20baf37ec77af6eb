//! The operators of the node graph: their parameters and how parameters
//! are set. Evaluating an operator is floating-point work done outside this
//! library.

use vstd::prelude::*;
use crate::values::{
    clamp_u32, descriptor_view, image_input_descriptor, set_image_input, set_u32, set_value_param, u32_descriptor,
    value_param_descriptor, NodeId, OutputType, ParamDescriptor, ParamKind, ParamValue, Value, ValueKind,
    ValueParam, ValueParamUi,
};

verus! {

/// Smallest width or height of a solid-colour image.
pub const MIN_IMAGE_EXTENT: u32 = 1;

/// Largest width or height of a solid-colour image.
pub const MAX_IMAGE_EXTENT: u32 = 4096;

/// Outputs a constant value.
#[derive(Debug, Clone, Copy, PartialEq, Eq, Structural)]
pub struct ValueConstOp {
    pub value: Value,
}

impl ValueConstOp {
    /// The operator with the given parameters.
    pub fn new(value: Value) -> (res: Self)
        ensures
            res.value == value,
    {
        ValueConstOp { value }
    }

    /// The operator's key, "Value.Const".
    pub fn name(&self) -> (res: &'static str)
        ensures
            res@ == "Value.Const"@,
    {
        "Value.Const"
    }

    /// What the operator produces.
    pub fn output_type(&self) -> (res: OutputType)
        ensures
            res == OutputType::Value,
    {
        OutputType::Value
    }

    /// The kind of value the operator produces, if it produces a value.
    pub fn value_kind(&self) -> (res: Option<ValueKind>)
        ensures
            res == Some(self.value.spec_kind()),
    {
        Some(self.value.kind())
    }

    /// The operator's parameters as label, kind and value, in order.
    pub open spec fn param_views(self) -> Seq<(Seq<char>, ParamKind, ParamValue)> {
        seq![
            ("Value"@, ParamKind::ValueParam { expected: None, allow_mapping: false, ui: ValueParamUi::Default }, ParamValue::ValueParam(ValueParam { base: self.value, mapping: None })),
        ]
    }

    /// The operator with parameter `index` set to `value`, or `None` when
    /// there is no such parameter or the value is not of its kind.
    pub open spec fn set_result(self, index: int, value: ParamValue) -> Option<Self> {
        if index == 0 && value is ValueParam {
            Some(ValueConstOp { value: value->ValueParam_0.base })
        } else {
            None
        }
    }

    /// The operator's parameters, in order.
    pub fn parameters(&self) -> (res: Vec<ParamDescriptor>)
        ensures
            res@.map_values(|d: ParamDescriptor| descriptor_view(d)) == self.param_views(),
            res@.len() == 1,
            res@[0].label@ == "Value"@,
            res@[0].kind == (ParamKind::ValueParam { expected: None, allow_mapping: false, ui: ValueParamUi::Default }),
            res@[0].value == ParamValue::ValueParam(ValueParam { base: self.value, mapping: None }),
    {
        vec![
            value_param_descriptor("Value", &ValueParam { base: self.value, mapping: None }, None, false, ValueParamUi::Default),
        ]
    }

    /// Sets parameter `index` to `value`; reports whether the index
    /// exists and the value has the parameter's kind. Nothing else changes.
    pub fn set_parameter(&mut self, index: usize, value: ParamValue) -> (res: bool)
        ensures
            res == old(self).set_result(index as int, value) is Some,
            res ==> *final(self) == old(self).set_result(index as int, value).unwrap(),
            index >= 1 ==> !res,
            index == 0 ==> res == (value is ValueParam) && (res ==> final(self).value == value->ValueParam_0.base),
            !res ==> *final(self) == *old(self),
    {
        match index {
            0 => match value {
                ParamValue::ValueParam(param) => {
                    self.value = param.base;
                    true
                },
                _ => false,
            },
            _ => false,
        }
    }
}

/// Adds two values.
#[derive(Debug, Clone, Copy, PartialEq, Eq, Structural)]
pub struct ValueAddOp {
    pub a: ValueParam,
    pub b: ValueParam,
}

impl ValueAddOp {
    /// The operator with the given parameters.
    pub fn new(a: ValueParam, b: ValueParam) -> (res: Self)
        ensures
            res.a == a,
            res.b == b,
    {
        ValueAddOp { a, b }
    }

    /// The operator's key, "Value.Add".
    pub fn name(&self) -> (res: &'static str)
        ensures
            res@ == "Value.Add"@,
    {
        "Value.Add"
    }

    /// What the operator produces.
    pub fn output_type(&self) -> (res: OutputType)
        ensures
            res == OutputType::Value,
    {
        OutputType::Value
    }

    /// The kind of value the operator produces, if it produces a value.
    pub fn value_kind(&self) -> (res: Option<ValueKind>)
        ensures
            res == Some(self.a.base.spec_kind()),
    {
        Some(self.a.base.kind())
    }

    /// The operator's parameters as label, kind and value, in order.
    pub open spec fn param_views(self) -> Seq<(Seq<char>, ParamKind, ParamValue)> {
        seq![
            ("A"@, ParamKind::ValueParam { expected: None, allow_mapping: true, ui: ValueParamUi::Default }, ParamValue::ValueParam(self.a)),
            ("B"@, ParamKind::ValueParam { expected: None, allow_mapping: true, ui: ValueParamUi::Default }, ParamValue::ValueParam(self.b)),
        ]
    }

    /// The operator with parameter `index` set to `value`, or `None` when
    /// there is no such parameter or the value is not of its kind.
    pub open spec fn set_result(self, index: int, value: ParamValue) -> Option<Self> {
        if index == 0 && value is ValueParam {
            Some(ValueAddOp { a: value->ValueParam_0, ..self })
        } else if index == 1 && value is ValueParam {
            Some(ValueAddOp { b: value->ValueParam_0, ..self })
        } else {
            None
        }
    }

    /// The operator's parameters, in order.
    pub fn parameters(&self) -> (res: Vec<ParamDescriptor>)
        ensures
            res@.map_values(|d: ParamDescriptor| descriptor_view(d)) == self.param_views(),
            res@.len() == 2,
            res@[0].label@ == "A"@,
            res@[0].kind == (ParamKind::ValueParam { expected: None, allow_mapping: true, ui: ValueParamUi::Default }),
            res@[0].value == ParamValue::ValueParam(self.a),
            res@[1].label@ == "B"@,
            res@[1].kind == (ParamKind::ValueParam { expected: None, allow_mapping: true, ui: ValueParamUi::Default }),
            res@[1].value == ParamValue::ValueParam(self.b),
    {
        vec![
            value_param_descriptor("A", &self.a, None, true, ValueParamUi::Default),
            value_param_descriptor("B", &self.b, None, true, ValueParamUi::Default),
        ]
    }

    /// Sets parameter `index` to `value`; reports whether the index
    /// exists and the value has the parameter's kind. Nothing else changes.
    pub fn set_parameter(&mut self, index: usize, value: ParamValue) -> (res: bool)
        ensures
            res == old(self).set_result(index as int, value) is Some,
            res ==> *final(self) == old(self).set_result(index as int, value).unwrap(),
            index >= 2 ==> !res,
            index == 0 ==> res == (value is ValueParam) && (res ==> final(self).a == value->ValueParam_0),
            index == 1 ==> res == (value is ValueParam) && (res ==> final(self).b == value->ValueParam_0),
            !res ==> *final(self) == *old(self),
            index == 0 ==> final(self).b == old(self).b,
            index == 1 ==> final(self).a == old(self).a,
    {
        match index {
            0 => set_value_param(&mut self.a, value),
            1 => set_value_param(&mut self.b, value),
            _ => false,
        }
    }
}

/// Multiplies two values.
#[derive(Debug, Clone, Copy, PartialEq, Eq, Structural)]
pub struct ValueMulOp {
    pub a: ValueParam,
    pub b: ValueParam,
}

impl ValueMulOp {
    /// The operator with the given parameters.
    pub fn new(a: ValueParam, b: ValueParam) -> (res: Self)
        ensures
            res.a == a,
            res.b == b,
    {
        ValueMulOp { a, b }
    }

    /// The operator's key, "Value.Mul".
    pub fn name(&self) -> (res: &'static str)
        ensures
            res@ == "Value.Mul"@,
    {
        "Value.Mul"
    }

    /// What the operator produces.
    pub fn output_type(&self) -> (res: OutputType)
        ensures
            res == OutputType::Value,
    {
        OutputType::Value
    }

    /// The kind of value the operator produces, if it produces a value.
    pub fn value_kind(&self) -> (res: Option<ValueKind>)
        ensures
            res == Some(self.a.base.spec_kind()),
    {
        Some(self.a.base.kind())
    }

    /// The operator's parameters as label, kind and value, in order.
    pub open spec fn param_views(self) -> Seq<(Seq<char>, ParamKind, ParamValue)> {
        seq![
            ("A"@, ParamKind::ValueParam { expected: None, allow_mapping: true, ui: ValueParamUi::Default }, ParamValue::ValueParam(self.a)),
            ("B"@, ParamKind::ValueParam { expected: None, allow_mapping: true, ui: ValueParamUi::Default }, ParamValue::ValueParam(self.b)),
        ]
    }

    /// The operator with parameter `index` set to `value`, or `None` when
    /// there is no such parameter or the value is not of its kind.
    pub open spec fn set_result(self, index: int, value: ParamValue) -> Option<Self> {
        if index == 0 && value is ValueParam {
            Some(ValueMulOp { a: value->ValueParam_0, ..self })
        } else if index == 1 && value is ValueParam {
            Some(ValueMulOp { b: value->ValueParam_0, ..self })
        } else {
            None
        }
    }

    /// The operator's parameters, in order.
    pub fn parameters(&self) -> (res: Vec<ParamDescriptor>)
        ensures
            res@.map_values(|d: ParamDescriptor| descriptor_view(d)) == self.param_views(),
            res@.len() == 2,
            res@[0].label@ == "A"@,
            res@[0].kind == (ParamKind::ValueParam { expected: None, allow_mapping: true, ui: ValueParamUi::Default }),
            res@[0].value == ParamValue::ValueParam(self.a),
            res@[1].label@ == "B"@,
            res@[1].kind == (ParamKind::ValueParam { expected: None, allow_mapping: true, ui: ValueParamUi::Default }),
            res@[1].value == ParamValue::ValueParam(self.b),
    {
        vec![
            value_param_descriptor("A", &self.a, None, true, ValueParamUi::Default),
            value_param_descriptor("B", &self.b, None, true, ValueParamUi::Default),
        ]
    }

    /// Sets parameter `index` to `value`; reports whether the index
    /// exists and the value has the parameter's kind. Nothing else changes.
    pub fn set_parameter(&mut self, index: usize, value: ParamValue) -> (res: bool)
        ensures
            res == old(self).set_result(index as int, value) is Some,
            res ==> *final(self) == old(self).set_result(index as int, value).unwrap(),
            index >= 2 ==> !res,
            index == 0 ==> res == (value is ValueParam) && (res ==> final(self).a == value->ValueParam_0),
            index == 1 ==> res == (value is ValueParam) && (res ==> final(self).b == value->ValueParam_0),
            !res ==> *final(self) == *old(self),
            index == 0 ==> final(self).b == old(self).b,
            index == 1 ==> final(self).a == old(self).a,
    {
        match index {
            0 => set_value_param(&mut self.a, value),
            1 => set_value_param(&mut self.b, value),
            _ => false,
        }
    }
}

/// The sine of a phase that advances with time at a frequency.
#[derive(Debug, Clone, Copy, PartialEq, Eq, Structural)]
pub struct ValueSinOp {
    pub freq: ValueParam,
    pub phase: ValueParam,
}

impl ValueSinOp {
    /// The operator with the given parameters.
    pub fn new(freq: ValueParam, phase: ValueParam) -> (res: Self)
        ensures
            res.freq == freq,
            res.phase == phase,
    {
        ValueSinOp { freq, phase }
    }

    /// The operator's key, "Value.Sin".
    pub fn name(&self) -> (res: &'static str)
        ensures
            res@ == "Value.Sin"@,
    {
        "Value.Sin"
    }

    /// What the operator produces.
    pub fn output_type(&self) -> (res: OutputType)
        ensures
            res == OutputType::Value,
    {
        OutputType::Value
    }

    /// The kind of value the operator produces, if it produces a value.
    pub fn value_kind(&self) -> (res: Option<ValueKind>)
        ensures
            res == Some(ValueKind::Float),
    {
        Some(ValueKind::Float)
    }

    /// The operator's parameters as label, kind and value, in order.
    pub open spec fn param_views(self) -> Seq<(Seq<char>, ParamKind, ParamValue)> {
        seq![
            ("Frequency"@, ParamKind::ValueParam { expected: Some(ValueKind::Float), allow_mapping: true, ui: ValueParamUi::Float }, ParamValue::ValueParam(self.freq)),
            ("Phase"@, ParamKind::ValueParam { expected: Some(ValueKind::Float), allow_mapping: true, ui: ValueParamUi::Float }, ParamValue::ValueParam(self.phase)),
        ]
    }

    /// The operator with parameter `index` set to `value`, or `None` when
    /// there is no such parameter or the value is not of its kind.
    pub open spec fn set_result(self, index: int, value: ParamValue) -> Option<Self> {
        if index == 0 && value is ValueParam {
            Some(ValueSinOp { freq: value->ValueParam_0, ..self })
        } else if index == 1 && value is ValueParam {
            Some(ValueSinOp { phase: value->ValueParam_0, ..self })
        } else {
            None
        }
    }

    /// The operator's parameters, in order.
    pub fn parameters(&self) -> (res: Vec<ParamDescriptor>)
        ensures
            res@.map_values(|d: ParamDescriptor| descriptor_view(d)) == self.param_views(),
            res@.len() == 2,
            res@[0].label@ == "Frequency"@,
            res@[0].kind == (ParamKind::ValueParam { expected: Some(ValueKind::Float), allow_mapping: true, ui: ValueParamUi::Float }),
            res@[0].value == ParamValue::ValueParam(self.freq),
            res@[1].label@ == "Phase"@,
            res@[1].kind == (ParamKind::ValueParam { expected: Some(ValueKind::Float), allow_mapping: true, ui: ValueParamUi::Float }),
            res@[1].value == ParamValue::ValueParam(self.phase),
    {
        vec![
            value_param_descriptor("Frequency", &self.freq, Some(ValueKind::Float), true, ValueParamUi::Float),
            value_param_descriptor("Phase", &self.phase, Some(ValueKind::Float), true, ValueParamUi::Float),
        ]
    }

    /// Sets parameter `index` to `value`; reports whether the index
    /// exists and the value has the parameter's kind. Nothing else changes.
    pub fn set_parameter(&mut self, index: usize, value: ParamValue) -> (res: bool)
        ensures
            res == old(self).set_result(index as int, value) is Some,
            res ==> *final(self) == old(self).set_result(index as int, value).unwrap(),
            index >= 2 ==> !res,
            index == 0 ==> res == (value is ValueParam) && (res ==> final(self).freq == value->ValueParam_0),
            index == 1 ==> res == (value is ValueParam) && (res ==> final(self).phase == value->ValueParam_0),
            !res ==> *final(self) == *old(self),
            index == 0 ==> final(self).phase == old(self).phase,
            index == 1 ==> final(self).freq == old(self).freq,
    {
        match index {
            0 => set_value_param(&mut self.freq, value),
            1 => set_value_param(&mut self.phase, value),
            _ => false,
        }
    }
}

/// Whether one float is greater than another.
#[derive(Debug, Clone, Copy, PartialEq, Eq, Structural)]
pub struct ValueCompareGTOp {
    pub a: ValueParam,
    pub b: ValueParam,
}

impl ValueCompareGTOp {
    /// The operator with the given parameters.
    pub fn new(a: ValueParam, b: ValueParam) -> (res: Self)
        ensures
            res.a == a,
            res.b == b,
    {
        ValueCompareGTOp { a, b }
    }

    /// The operator's key, "Value.CompareGT".
    pub fn name(&self) -> (res: &'static str)
        ensures
            res@ == "Value.CompareGT"@,
    {
        "Value.CompareGT"
    }

    /// What the operator produces.
    pub fn output_type(&self) -> (res: OutputType)
        ensures
            res == OutputType::Value,
    {
        OutputType::Value
    }

    /// The kind of value the operator produces, if it produces a value.
    pub fn value_kind(&self) -> (res: Option<ValueKind>)
        ensures
            res == Some(ValueKind::Bool),
    {
        Some(ValueKind::Bool)
    }

    /// The operator's parameters as label, kind and value, in order.
    pub open spec fn param_views(self) -> Seq<(Seq<char>, ParamKind, ParamValue)> {
        seq![
            ("A"@, ParamKind::ValueParam { expected: Some(ValueKind::Float), allow_mapping: true, ui: ValueParamUi::Float }, ParamValue::ValueParam(self.a)),
            ("B"@, ParamKind::ValueParam { expected: Some(ValueKind::Float), allow_mapping: true, ui: ValueParamUi::Float }, ParamValue::ValueParam(self.b)),
        ]
    }

    /// The operator with parameter `index` set to `value`, or `None` when
    /// there is no such parameter or the value is not of its kind.
    pub open spec fn set_result(self, index: int, value: ParamValue) -> Option<Self> {
        if index == 0 && value is ValueParam {
            Some(ValueCompareGTOp { a: value->ValueParam_0, ..self })
        } else if index == 1 && value is ValueParam {
            Some(ValueCompareGTOp { b: value->ValueParam_0, ..self })
        } else {
            None
        }
    }

    /// The operator's parameters, in order.
    pub fn parameters(&self) -> (res: Vec<ParamDescriptor>)
        ensures
            res@.map_values(|d: ParamDescriptor| descriptor_view(d)) == self.param_views(),
            res@.len() == 2,
            res@[0].label@ == "A"@,
            res@[0].kind == (ParamKind::ValueParam { expected: Some(ValueKind::Float), allow_mapping: true, ui: ValueParamUi::Float }),
            res@[0].value == ParamValue::ValueParam(self.a),
            res@[1].label@ == "B"@,
            res@[1].kind == (ParamKind::ValueParam { expected: Some(ValueKind::Float), allow_mapping: true, ui: ValueParamUi::Float }),
            res@[1].value == ParamValue::ValueParam(self.b),
    {
        vec![
            value_param_descriptor("A", &self.a, Some(ValueKind::Float), true, ValueParamUi::Float),
            value_param_descriptor("B", &self.b, Some(ValueKind::Float), true, ValueParamUi::Float),
        ]
    }

    /// Sets parameter `index` to `value`; reports whether the index
    /// exists and the value has the parameter's kind. Nothing else changes.
    pub fn set_parameter(&mut self, index: usize, value: ParamValue) -> (res: bool)
        ensures
            res == old(self).set_result(index as int, value) is Some,
            res ==> *final(self) == old(self).set_result(index as int, value).unwrap(),
            index >= 2 ==> !res,
            index == 0 ==> res == (value is ValueParam) && (res ==> final(self).a == value->ValueParam_0),
            index == 1 ==> res == (value is ValueParam) && (res ==> final(self).b == value->ValueParam_0),
            !res ==> *final(self) == *old(self),
            index == 0 ==> final(self).b == old(self).b,
            index == 1 ==> final(self).a == old(self).a,
    {
        match index {
            0 => set_value_param(&mut self.a, value),
            1 => set_value_param(&mut self.b, value),
            _ => false,
        }
    }
}

/// One of two values, chosen by a condition.
#[derive(Debug, Clone, Copy, PartialEq, Eq, Structural)]
pub struct ValueSelectOp {
    pub cond: ValueParam,
    pub a: ValueParam,
    pub b: ValueParam,
}

impl ValueSelectOp {
    /// The operator with the given parameters.
    pub fn new(cond: ValueParam, a: ValueParam, b: ValueParam) -> (res: Self)
        ensures
            res.cond == cond,
            res.a == a,
            res.b == b,
    {
        ValueSelectOp { cond, a, b }
    }

    /// The operator's key, "Value.Select".
    pub fn name(&self) -> (res: &'static str)
        ensures
            res@ == "Value.Select"@,
    {
        "Value.Select"
    }

    /// What the operator produces.
    pub fn output_type(&self) -> (res: OutputType)
        ensures
            res == OutputType::Value,
    {
        OutputType::Value
    }

    /// The kind of value the operator produces, if it produces a value.
    pub fn value_kind(&self) -> (res: Option<ValueKind>)
        ensures
            res == Some(self.a.base.spec_kind()),
    {
        Some(self.a.base.kind())
    }

    /// The operator's parameters as label, kind and value, in order.
    pub open spec fn param_views(self) -> Seq<(Seq<char>, ParamKind, ParamValue)> {
        seq![
            ("Condition"@, ParamKind::ValueParam { expected: Some(ValueKind::Bool), allow_mapping: false, ui: ValueParamUi::Bool }, ParamValue::ValueParam(self.cond)),
            ("A"@, ParamKind::ValueParam { expected: None, allow_mapping: true, ui: ValueParamUi::Default }, ParamValue::ValueParam(self.a)),
            ("B"@, ParamKind::ValueParam { expected: None, allow_mapping: true, ui: ValueParamUi::Default }, ParamValue::ValueParam(self.b)),
        ]
    }

    /// The operator with parameter `index` set to `value`, or `None` when
    /// there is no such parameter or the value is not of its kind.
    pub open spec fn set_result(self, index: int, value: ParamValue) -> Option<Self> {
        if index == 0 && value is ValueParam {
            Some(ValueSelectOp { cond: value->ValueParam_0, ..self })
        } else if index == 1 && value is ValueParam {
            Some(ValueSelectOp { a: value->ValueParam_0, ..self })
        } else if index == 2 && value is ValueParam {
            Some(ValueSelectOp { b: value->ValueParam_0, ..self })
        } else {
            None
        }
    }

    /// The operator's parameters, in order.
    pub fn parameters(&self) -> (res: Vec<ParamDescriptor>)
        ensures
            res@.map_values(|d: ParamDescriptor| descriptor_view(d)) == self.param_views(),
            res@.len() == 3,
            res@[0].label@ == "Condition"@,
            res@[0].kind == (ParamKind::ValueParam { expected: Some(ValueKind::Bool), allow_mapping: false, ui: ValueParamUi::Bool }),
            res@[0].value == ParamValue::ValueParam(self.cond),
            res@[1].label@ == "A"@,
            res@[1].kind == (ParamKind::ValueParam { expected: None, allow_mapping: true, ui: ValueParamUi::Default }),
            res@[1].value == ParamValue::ValueParam(self.a),
            res@[2].label@ == "B"@,
            res@[2].kind == (ParamKind::ValueParam { expected: None, allow_mapping: true, ui: ValueParamUi::Default }),
            res@[2].value == ParamValue::ValueParam(self.b),
    {
        vec![
            value_param_descriptor("Condition", &self.cond, Some(ValueKind::Bool), false, ValueParamUi::Bool),
            value_param_descriptor("A", &self.a, None, true, ValueParamUi::Default),
            value_param_descriptor("B", &self.b, None, true, ValueParamUi::Default),
        ]
    }

    /// Sets parameter `index` to `value`; reports whether the index
    /// exists and the value has the parameter's kind. Nothing else changes.
    pub fn set_parameter(&mut self, index: usize, value: ParamValue) -> (res: bool)
        ensures
            res == old(self).set_result(index as int, value) is Some,
            res ==> *final(self) == old(self).set_result(index as int, value).unwrap(),
            index >= 3 ==> !res,
            index == 0 ==> res == (value is ValueParam) && (res ==> final(self).cond == value->ValueParam_0),
            index == 1 ==> res == (value is ValueParam) && (res ==> final(self).a == value->ValueParam_0),
            index == 2 ==> res == (value is ValueParam) && (res ==> final(self).b == value->ValueParam_0),
            !res ==> *final(self) == *old(self),
            index == 0 ==> final(self).a == old(self).a,
            index == 0 ==> final(self).b == old(self).b,
            index == 1 ==> final(self).cond == old(self).cond,
            index == 1 ==> final(self).b == old(self).b,
            index == 2 ==> final(self).cond == old(self).cond,
            index == 2 ==> final(self).a == old(self).a,
    {
        match index {
            0 => set_value_param(&mut self.cond, value),
            1 => set_value_param(&mut self.a, value),
            2 => set_value_param(&mut self.b, value),
            _ => false,
        }
    }
}

/// Its input as it was one evaluation earlier.
#[derive(Debug, Clone, Copy, PartialEq, Eq, Structural)]
pub struct ValueDelay1Op {
    pub input: ValueParam,
}

impl ValueDelay1Op {
    /// The operator with the given parameters.
    pub fn new(input: ValueParam) -> (res: Self)
        ensures
            res.input == input,
    {
        ValueDelay1Op { input }
    }

    /// The operator's key, "Value.Delay1".
    pub fn name(&self) -> (res: &'static str)
        ensures
            res@ == "Value.Delay1"@,
    {
        "Value.Delay1"
    }

    /// What the operator produces.
    pub fn output_type(&self) -> (res: OutputType)
        ensures
            res == OutputType::Value,
    {
        OutputType::Value
    }

    /// The kind of value the operator produces, if it produces a value.
    pub fn value_kind(&self) -> (res: Option<ValueKind>)
        ensures
            res == Some(self.input.base.spec_kind()),
    {
        Some(self.input.base.kind())
    }

    /// The operator's parameters as label, kind and value, in order.
    pub open spec fn param_views(self) -> Seq<(Seq<char>, ParamKind, ParamValue)> {
        seq![
            ("Input"@, ParamKind::ValueParam { expected: None, allow_mapping: true, ui: ValueParamUi::Default }, ParamValue::ValueParam(self.input)),
        ]
    }

    /// The operator with parameter `index` set to `value`, or `None` when
    /// there is no such parameter or the value is not of its kind.
    pub open spec fn set_result(self, index: int, value: ParamValue) -> Option<Self> {
        if index == 0 && value is ValueParam {
            Some(ValueDelay1Op { input: value->ValueParam_0 })
        } else {
            None
        }
    }

    /// The operator's parameters, in order.
    pub fn parameters(&self) -> (res: Vec<ParamDescriptor>)
        ensures
            res@.map_values(|d: ParamDescriptor| descriptor_view(d)) == self.param_views(),
            res@.len() == 1,
            res@[0].label@ == "Input"@,
            res@[0].kind == (ParamKind::ValueParam { expected: None, allow_mapping: true, ui: ValueParamUi::Default }),
            res@[0].value == ParamValue::ValueParam(self.input),
    {
        vec![
            value_param_descriptor("Input", &self.input, None, true, ValueParamUi::Default),
        ]
    }

    /// Sets parameter `index` to `value`; reports whether the index
    /// exists and the value has the parameter's kind. Nothing else changes.
    pub fn set_parameter(&mut self, index: usize, value: ParamValue) -> (res: bool)
        ensures
            res == old(self).set_result(index as int, value) is Some,
            res ==> *final(self) == old(self).set_result(index as int, value).unwrap(),
            index >= 1 ==> !res,
            index == 0 ==> res == (value is ValueParam) && (res ==> final(self).input == value->ValueParam_0),
            !res ==> *final(self) == *old(self),
    {
        match index {
            0 => set_value_param(&mut self.input, value),
            _ => false,
        }
    }
}

/// A low-frequency oscillator: a sine of given frequency, amplitude and phase.
#[derive(Debug, Clone, Copy, PartialEq, Eq, Structural)]
pub struct ValueLfoOp {
    pub frequency: ValueParam,
    pub amplitude: ValueParam,
    pub phase: ValueParam,
}

impl ValueLfoOp {
    /// The operator with the given parameters.
    pub fn new(frequency: ValueParam, amplitude: ValueParam, phase: ValueParam) -> (res: Self)
        ensures
            res.frequency == frequency,
            res.amplitude == amplitude,
            res.phase == phase,
    {
        ValueLfoOp { frequency, amplitude, phase }
    }

    /// The operator's key, "Value.LFO".
    pub fn name(&self) -> (res: &'static str)
        ensures
            res@ == "Value.LFO"@,
    {
        "Value.LFO"
    }

    /// What the operator produces.
    pub fn output_type(&self) -> (res: OutputType)
        ensures
            res == OutputType::Value,
    {
        OutputType::Value
    }

    /// The kind of value the operator produces, if it produces a value.
    pub fn value_kind(&self) -> (res: Option<ValueKind>)
        ensures
            res == Some(ValueKind::Float),
    {
        Some(ValueKind::Float)
    }

    /// The operator's parameters as label, kind and value, in order.
    pub open spec fn param_views(self) -> Seq<(Seq<char>, ParamKind, ParamValue)> {
        seq![
            ("Frequency"@, ParamKind::ValueParam { expected: Some(ValueKind::Float), allow_mapping: true, ui: ValueParamUi::Float }, ParamValue::ValueParam(self.frequency)),
            ("Amplitude"@, ParamKind::ValueParam { expected: Some(ValueKind::Float), allow_mapping: true, ui: ValueParamUi::Float }, ParamValue::ValueParam(self.amplitude)),
            ("Phase"@, ParamKind::ValueParam { expected: Some(ValueKind::Float), allow_mapping: true, ui: ValueParamUi::Float }, ParamValue::ValueParam(self.phase)),
        ]
    }

    /// The operator with parameter `index` set to `value`, or `None` when
    /// there is no such parameter or the value is not of its kind.
    pub open spec fn set_result(self, index: int, value: ParamValue) -> Option<Self> {
        if index == 0 && value is ValueParam {
            Some(ValueLfoOp { frequency: value->ValueParam_0, ..self })
        } else if index == 1 && value is ValueParam {
            Some(ValueLfoOp { amplitude: value->ValueParam_0, ..self })
        } else if index == 2 && value is ValueParam {
            Some(ValueLfoOp { phase: value->ValueParam_0, ..self })
        } else {
            None
        }
    }

    /// The operator's parameters, in order.
    pub fn parameters(&self) -> (res: Vec<ParamDescriptor>)
        ensures
            res@.map_values(|d: ParamDescriptor| descriptor_view(d)) == self.param_views(),
            res@.len() == 3,
            res@[0].label@ == "Frequency"@,
            res@[0].kind == (ParamKind::ValueParam { expected: Some(ValueKind::Float), allow_mapping: true, ui: ValueParamUi::Float }),
            res@[0].value == ParamValue::ValueParam(self.frequency),
            res@[1].label@ == "Amplitude"@,
            res@[1].kind == (ParamKind::ValueParam { expected: Some(ValueKind::Float), allow_mapping: true, ui: ValueParamUi::Float }),
            res@[1].value == ParamValue::ValueParam(self.amplitude),
            res@[2].label@ == "Phase"@,
            res@[2].kind == (ParamKind::ValueParam { expected: Some(ValueKind::Float), allow_mapping: true, ui: ValueParamUi::Float }),
            res@[2].value == ParamValue::ValueParam(self.phase),
    {
        vec![
            value_param_descriptor("Frequency", &self.frequency, Some(ValueKind::Float), true, ValueParamUi::Float),
            value_param_descriptor("Amplitude", &self.amplitude, Some(ValueKind::Float), true, ValueParamUi::Float),
            value_param_descriptor("Phase", &self.phase, Some(ValueKind::Float), true, ValueParamUi::Float),
        ]
    }

    /// Sets parameter `index` to `value`; reports whether the index
    /// exists and the value has the parameter's kind. Nothing else changes.
    pub fn set_parameter(&mut self, index: usize, value: ParamValue) -> (res: bool)
        ensures
            res == old(self).set_result(index as int, value) is Some,
            res ==> *final(self) == old(self).set_result(index as int, value).unwrap(),
            index >= 3 ==> !res,
            index == 0 ==> res == (value is ValueParam) && (res ==> final(self).frequency == value->ValueParam_0),
            index == 1 ==> res == (value is ValueParam) && (res ==> final(self).amplitude == value->ValueParam_0),
            index == 2 ==> res == (value is ValueParam) && (res ==> final(self).phase == value->ValueParam_0),
            !res ==> *final(self) == *old(self),
            index == 0 ==> final(self).amplitude == old(self).amplitude,
            index == 0 ==> final(self).phase == old(self).phase,
            index == 1 ==> final(self).frequency == old(self).frequency,
            index == 1 ==> final(self).phase == old(self).phase,
            index == 2 ==> final(self).frequency == old(self).frequency,
            index == 2 ==> final(self).amplitude == old(self).amplitude,
    {
        match index {
            0 => set_value_param(&mut self.frequency, value),
            1 => set_value_param(&mut self.amplitude, value),
            2 => set_value_param(&mut self.phase, value),
            _ => false,
        }
    }
}

/// An image of one colour.
#[derive(Debug, Clone, Copy, PartialEq, Eq, Structural)]
pub struct ImageSolidColorOp {
    pub color: ValueParam,
    pub width: u32,
    pub height: u32,
}

impl ImageSolidColorOp {
    /// The operator with the given parameters.
    pub fn new(color: ValueParam, width: u32, height: u32) -> (res: Self)
        ensures
            res.color == color,
            res.width == width,
            res.height == height,
    {
        ImageSolidColorOp { color, width, height }
    }

    /// The operator's key, "Image.SolidColor".
    pub fn name(&self) -> (res: &'static str)
        ensures
            res@ == "Image.SolidColor"@,
    {
        "Image.SolidColor"
    }

    /// What the operator produces.
    pub fn output_type(&self) -> (res: OutputType)
        ensures
            res == OutputType::Image,
    {
        OutputType::Image
    }

    /// The kind of value the operator produces, if it produces a value.
    pub fn value_kind(&self) -> (res: Option<ValueKind>)
        ensures
            res.is_none(),
    {
        None
    }

    /// The operator's parameters as label, kind and value, in order.
    pub open spec fn param_views(self) -> Seq<(Seq<char>, ParamKind, ParamValue)> {
        seq![
            ("Color"@, ParamKind::ValueParam { expected: Some(ValueKind::Vec4), allow_mapping: true, ui: ValueParamUi::Color }, ParamValue::ValueParam(self.color)),
            ("Width"@, ParamKind::U32 { min: MIN_IMAGE_EXTENT, max: MAX_IMAGE_EXTENT }, ParamValue::U32(self.width)),
            ("Height"@, ParamKind::U32 { min: MIN_IMAGE_EXTENT, max: MAX_IMAGE_EXTENT }, ParamValue::U32(self.height)),
        ]
    }

    /// The operator with parameter `index` set to `value`, or `None` when
    /// there is no such parameter or the value is not of its kind.
    pub open spec fn set_result(self, index: int, value: ParamValue) -> Option<Self> {
        if index == 0 && value is ValueParam {
            Some(ImageSolidColorOp { color: value->ValueParam_0, ..self })
        } else if index == 1 && value is U32 {
            Some(ImageSolidColorOp { width: clamp_u32(value->U32_0, MIN_IMAGE_EXTENT, MAX_IMAGE_EXTENT), ..self })
        } else if index == 2 && value is U32 {
            Some(ImageSolidColorOp { height: clamp_u32(value->U32_0, MIN_IMAGE_EXTENT, MAX_IMAGE_EXTENT), ..self })
        } else {
            None
        }
    }

    /// The operator's parameters, in order.
    pub fn parameters(&self) -> (res: Vec<ParamDescriptor>)
        ensures
            res@.map_values(|d: ParamDescriptor| descriptor_view(d)) == self.param_views(),
            res@.len() == 3,
            res@[0].label@ == "Color"@,
            res@[0].kind == (ParamKind::ValueParam { expected: Some(ValueKind::Vec4), allow_mapping: true, ui: ValueParamUi::Color }),
            res@[0].value == ParamValue::ValueParam(self.color),
            res@[1].label@ == "Width"@,
            res@[1].kind == (ParamKind::U32 { min: MIN_IMAGE_EXTENT, max: MAX_IMAGE_EXTENT }),
            res@[1].value == ParamValue::U32(self.width),
            res@[2].label@ == "Height"@,
            res@[2].kind == (ParamKind::U32 { min: MIN_IMAGE_EXTENT, max: MAX_IMAGE_EXTENT }),
            res@[2].value == ParamValue::U32(self.height),
    {
        vec![
            value_param_descriptor("Color", &self.color, Some(ValueKind::Vec4), true, ValueParamUi::Color),
            u32_descriptor("Width", self.width, MIN_IMAGE_EXTENT, MAX_IMAGE_EXTENT),
            u32_descriptor("Height", self.height, MIN_IMAGE_EXTENT, MAX_IMAGE_EXTENT),
        ]
    }

    /// Sets parameter `index` to `value`; reports whether the index
    /// exists and the value has the parameter's kind. Nothing else changes.
    pub fn set_parameter(&mut self, index: usize, value: ParamValue) -> (res: bool)
        ensures
            res == old(self).set_result(index as int, value) is Some,
            res ==> *final(self) == old(self).set_result(index as int, value).unwrap(),
            index >= 3 ==> !res,
            index == 0 ==> res == (value is ValueParam) && (res ==> final(self).color == value->ValueParam_0),
            index == 1 ==> res == (value is U32) && (res ==> final(self).width == clamp_u32(value->U32_0, MIN_IMAGE_EXTENT, MAX_IMAGE_EXTENT)),
            index == 2 ==> res == (value is U32) && (res ==> final(self).height == clamp_u32(value->U32_0, MIN_IMAGE_EXTENT, MAX_IMAGE_EXTENT)),
            !res ==> *final(self) == *old(self),
            index == 0 ==> final(self).width == old(self).width,
            index == 0 ==> final(self).height == old(self).height,
            index == 1 ==> final(self).color == old(self).color,
            index == 1 ==> final(self).height == old(self).height,
            index == 2 ==> final(self).color == old(self).color,
            index == 2 ==> final(self).width == old(self).width,
    {
        match index {
            0 => set_value_param(&mut self.color, value),
            1 => set_u32(&mut self.width, value, MIN_IMAGE_EXTENT, MAX_IMAGE_EXTENT),
            2 => set_u32(&mut self.height, value, MIN_IMAGE_EXTENT, MAX_IMAGE_EXTENT),
            _ => false,
        }
    }
}

/// A blend of two images.
#[derive(Debug, Clone, Copy, PartialEq, Eq, Structural)]
pub struct ImageMixOp {
    pub a: NodeId,
    pub b: NodeId,
    pub alpha: ValueParam,
}

impl ImageMixOp {
    /// The operator with the given parameters.
    pub fn new(a: NodeId, b: NodeId, alpha: ValueParam) -> (res: Self)
        ensures
            res.a == a,
            res.b == b,
            res.alpha == alpha,
    {
        ImageMixOp { a, b, alpha }
    }

    /// The operator's key, "Image.Mix".
    pub fn name(&self) -> (res: &'static str)
        ensures
            res@ == "Image.Mix"@,
    {
        "Image.Mix"
    }

    /// What the operator produces.
    pub fn output_type(&self) -> (res: OutputType)
        ensures
            res == OutputType::Image,
    {
        OutputType::Image
    }

    /// The kind of value the operator produces, if it produces a value.
    pub fn value_kind(&self) -> (res: Option<ValueKind>)
        ensures
            res.is_none(),
    {
        None
    }

    /// The operator's parameters as label, kind and value, in order.
    pub open spec fn param_views(self) -> Seq<(Seq<char>, ParamKind, ParamValue)> {
        seq![
            ("Input A"@, ParamKind::ImageInput, ParamValue::ImageInput(self.a)),
            ("Input B"@, ParamKind::ImageInput, ParamValue::ImageInput(self.b)),
            ("Alpha"@, ParamKind::ValueParam { expected: Some(ValueKind::Float), allow_mapping: true, ui: ValueParamUi::Float }, ParamValue::ValueParam(self.alpha)),
        ]
    }

    /// The operator with parameter `index` set to `value`, or `None` when
    /// there is no such parameter or the value is not of its kind.
    pub open spec fn set_result(self, index: int, value: ParamValue) -> Option<Self> {
        if index == 0 && value is ImageInput {
            Some(ImageMixOp { a: value->ImageInput_0, ..self })
        } else if index == 1 && value is ImageInput {
            Some(ImageMixOp { b: value->ImageInput_0, ..self })
        } else if index == 2 && value is ValueParam {
            Some(ImageMixOp { alpha: value->ValueParam_0, ..self })
        } else {
            None
        }
    }

    /// The operator's parameters, in order.
    pub fn parameters(&self) -> (res: Vec<ParamDescriptor>)
        ensures
            res@.map_values(|d: ParamDescriptor| descriptor_view(d)) == self.param_views(),
            res@.len() == 3,
            res@[0].label@ == "Input A"@,
            res@[0].kind == ParamKind::ImageInput,
            res@[0].value == ParamValue::ImageInput(self.a),
            res@[1].label@ == "Input B"@,
            res@[1].kind == ParamKind::ImageInput,
            res@[1].value == ParamValue::ImageInput(self.b),
            res@[2].label@ == "Alpha"@,
            res@[2].kind == (ParamKind::ValueParam { expected: Some(ValueKind::Float), allow_mapping: true, ui: ValueParamUi::Float }),
            res@[2].value == ParamValue::ValueParam(self.alpha),
    {
        vec![
            image_input_descriptor("Input A", self.a),
            image_input_descriptor("Input B", self.b),
            value_param_descriptor("Alpha", &self.alpha, Some(ValueKind::Float), true, ValueParamUi::Float),
        ]
    }

    /// Sets parameter `index` to `value`; reports whether the index
    /// exists and the value has the parameter's kind. Nothing else changes.
    pub fn set_parameter(&mut self, index: usize, value: ParamValue) -> (res: bool)
        ensures
            res == old(self).set_result(index as int, value) is Some,
            res ==> *final(self) == old(self).set_result(index as int, value).unwrap(),
            index >= 3 ==> !res,
            index == 0 ==> res == (value is ImageInput) && (res ==> final(self).a == value->ImageInput_0),
            index == 1 ==> res == (value is ImageInput) && (res ==> final(self).b == value->ImageInput_0),
            index == 2 ==> res == (value is ValueParam) && (res ==> final(self).alpha == value->ValueParam_0),
            !res ==> *final(self) == *old(self),
            index == 0 ==> final(self).b == old(self).b,
            index == 0 ==> final(self).alpha == old(self).alpha,
            index == 1 ==> final(self).a == old(self).a,
            index == 1 ==> final(self).alpha == old(self).alpha,
            index == 2 ==> final(self).a == old(self).a,
            index == 2 ==> final(self).b == old(self).b,
    {
        match index {
            0 => set_image_input(&mut self.a, value),
            1 => set_image_input(&mut self.b, value),
            2 => set_value_param(&mut self.alpha, value),
            _ => false,
        }
    }
}

/// A horizontal box blur of an image.
#[derive(Debug, Clone, Copy, PartialEq, Eq, Structural)]
pub struct ImageBlur1DOp {
    pub input: NodeId,
    pub radius: ValueParam,
}

impl ImageBlur1DOp {
    /// The operator with the given parameters.
    pub fn new(input: NodeId, radius: ValueParam) -> (res: Self)
        ensures
            res.input == input,
            res.radius == radius,
    {
        ImageBlur1DOp { input, radius }
    }

    /// The operator's key, "Image.Blur1D".
    pub fn name(&self) -> (res: &'static str)
        ensures
            res@ == "Image.Blur1D"@,
    {
        "Image.Blur1D"
    }

    /// What the operator produces.
    pub fn output_type(&self) -> (res: OutputType)
        ensures
            res == OutputType::Image,
    {
        OutputType::Image
    }

    /// The kind of value the operator produces, if it produces a value.
    pub fn value_kind(&self) -> (res: Option<ValueKind>)
        ensures
            res.is_none(),
    {
        None
    }

    /// The operator's parameters as label, kind and value, in order.
    pub open spec fn param_views(self) -> Seq<(Seq<char>, ParamKind, ParamValue)> {
        seq![
            ("Input"@, ParamKind::ImageInput, ParamValue::ImageInput(self.input)),
            ("Radius"@, ParamKind::ValueParam { expected: Some(ValueKind::Float), allow_mapping: true, ui: ValueParamUi::Float }, ParamValue::ValueParam(self.radius)),
        ]
    }

    /// The operator with parameter `index` set to `value`, or `None` when
    /// there is no such parameter or the value is not of its kind.
    pub open spec fn set_result(self, index: int, value: ParamValue) -> Option<Self> {
        if index == 0 && value is ImageInput {
            Some(ImageBlur1DOp { input: value->ImageInput_0, ..self })
        } else if index == 1 && value is ValueParam {
            Some(ImageBlur1DOp { radius: value->ValueParam_0, ..self })
        } else {
            None
        }
    }

    /// The operator's parameters, in order.
    pub fn parameters(&self) -> (res: Vec<ParamDescriptor>)
        ensures
            res@.map_values(|d: ParamDescriptor| descriptor_view(d)) == self.param_views(),
            res@.len() == 2,
            res@[0].label@ == "Input"@,
            res@[0].kind == ParamKind::ImageInput,
            res@[0].value == ParamValue::ImageInput(self.input),
            res@[1].label@ == "Radius"@,
            res@[1].kind == (ParamKind::ValueParam { expected: Some(ValueKind::Float), allow_mapping: true, ui: ValueParamUi::Float }),
            res@[1].value == ParamValue::ValueParam(self.radius),
    {
        vec![
            image_input_descriptor("Input", self.input),
            value_param_descriptor("Radius", &self.radius, Some(ValueKind::Float), true, ValueParamUi::Float),
        ]
    }

    /// Sets parameter `index` to `value`; reports whether the index
    /// exists and the value has the parameter's kind. Nothing else changes.
    pub fn set_parameter(&mut self, index: usize, value: ParamValue) -> (res: bool)
        ensures
            res == old(self).set_result(index as int, value) is Some,
            res ==> *final(self) == old(self).set_result(index as int, value).unwrap(),
            index >= 2 ==> !res,
            index == 0 ==> res == (value is ImageInput) && (res ==> final(self).input == value->ImageInput_0),
            index == 1 ==> res == (value is ValueParam) && (res ==> final(self).radius == value->ValueParam_0),
            !res ==> *final(self) == *old(self),
            index == 0 ==> final(self).radius == old(self).radius,
            index == 1 ==> final(self).input == old(self).input,
    {
        match index {
            0 => set_image_input(&mut self.input, value),
            1 => set_value_param(&mut self.radius, value),
            _ => false,
        }
    }
}

/// Its input image as it was one evaluation earlier.
#[derive(Debug, Clone, Copy, PartialEq, Eq, Structural)]
pub struct ImageDelay1Op {
    pub input: NodeId,
}

impl ImageDelay1Op {
    /// The operator with the given parameters.
    pub fn new(input: NodeId) -> (res: Self)
        ensures
            res.input == input,
    {
        ImageDelay1Op { input }
    }

    /// The operator's key, "Image.Delay1".
    pub fn name(&self) -> (res: &'static str)
        ensures
            res@ == "Image.Delay1"@,
    {
        "Image.Delay1"
    }

    /// What the operator produces.
    pub fn output_type(&self) -> (res: OutputType)
        ensures
            res == OutputType::Image,
    {
        OutputType::Image
    }

    /// The kind of value the operator produces, if it produces a value.
    pub fn value_kind(&self) -> (res: Option<ValueKind>)
        ensures
            res.is_none(),
    {
        None
    }

    /// The operator's parameters as label, kind and value, in order.
    pub open spec fn param_views(self) -> Seq<(Seq<char>, ParamKind, ParamValue)> {
        seq![
            ("Input"@, ParamKind::ImageInput, ParamValue::ImageInput(self.input)),
        ]
    }

    /// The operator with parameter `index` set to `value`, or `None` when
    /// there is no such parameter or the value is not of its kind.
    pub open spec fn set_result(self, index: int, value: ParamValue) -> Option<Self> {
        if index == 0 && value is ImageInput {
            Some(ImageDelay1Op { input: value->ImageInput_0 })
        } else {
            None
        }
    }

    /// The operator's parameters, in order.
    pub fn parameters(&self) -> (res: Vec<ParamDescriptor>)
        ensures
            res@.map_values(|d: ParamDescriptor| descriptor_view(d)) == self.param_views(),
            res@.len() == 1,
            res@[0].label@ == "Input"@,
            res@[0].kind == ParamKind::ImageInput,
            res@[0].value == ParamValue::ImageInput(self.input),
    {
        vec![
            image_input_descriptor("Input", self.input),
        ]
    }

    /// Sets parameter `index` to `value`; reports whether the index
    /// exists and the value has the parameter's kind. Nothing else changes.
    pub fn set_parameter(&mut self, index: usize, value: ParamValue) -> (res: bool)
        ensures
            res == old(self).set_result(index as int, value) is Some,
            res ==> *final(self) == old(self).set_result(index as int, value).unwrap(),
            index >= 1 ==> !res,
            index == 0 ==> res == (value is ImageInput) && (res ==> final(self).input == value->ImageInput_0),
            !res ==> *final(self) == *old(self),
    {
        match index {
            0 => set_image_input(&mut self.input, value),
            _ => false,
        }
    }
}

/// Any one of the operators.
#[derive(Debug, Clone, Copy, PartialEq, Eq, Structural)]
pub enum OperatorNode {
    ValueConst(ValueConstOp),
    ValueAdd(ValueAddOp),
    ValueMul(ValueMulOp),
    ValueSin(ValueSinOp),
    ValueCompareGT(ValueCompareGTOp),
    ValueSelect(ValueSelectOp),
    ValueDelay1(ValueDelay1Op),
    ValueLfo(ValueLfoOp),
    ImageSolidColor(ImageSolidColorOp),
    ImageMix(ImageMixOp),
    ImageBlur1D(ImageBlur1DOp),
    ImageDelay1(ImageDelay1Op),
}

impl OperatorNode {
    /// The operator's key.
    pub open spec fn key(self) -> Seq<char> {
        match self {
            OperatorNode::ValueConst(_) => "Value.Const"@,
            OperatorNode::ValueAdd(_) => "Value.Add"@,
            OperatorNode::ValueMul(_) => "Value.Mul"@,
            OperatorNode::ValueSin(_) => "Value.Sin"@,
            OperatorNode::ValueCompareGT(_) => "Value.CompareGT"@,
            OperatorNode::ValueSelect(_) => "Value.Select"@,
            OperatorNode::ValueDelay1(_) => "Value.Delay1"@,
            OperatorNode::ValueLfo(_) => "Value.LFO"@,
            OperatorNode::ImageSolidColor(_) => "Image.SolidColor"@,
            OperatorNode::ImageMix(_) => "Image.Mix"@,
            OperatorNode::ImageBlur1D(_) => "Image.Blur1D"@,
            OperatorNode::ImageDelay1(_) => "Image.Delay1"@,
        }
    }

    /// The operator's key.
    pub fn name(&self) -> (res: &'static str)
        ensures
            res@ == self.key(),
    {
        match self {
            OperatorNode::ValueConst(op) => op.name(),
            OperatorNode::ValueAdd(op) => op.name(),
            OperatorNode::ValueMul(op) => op.name(),
            OperatorNode::ValueSin(op) => op.name(),
            OperatorNode::ValueCompareGT(op) => op.name(),
            OperatorNode::ValueSelect(op) => op.name(),
            OperatorNode::ValueDelay1(op) => op.name(),
            OperatorNode::ValueLfo(op) => op.name(),
            OperatorNode::ImageSolidColor(op) => op.name(),
            OperatorNode::ImageMix(op) => op.name(),
            OperatorNode::ImageBlur1D(op) => op.name(),
            OperatorNode::ImageDelay1(op) => op.name(),
        }
    }

    /// What the operator produces.
    pub open spec fn spec_output_type(self) -> OutputType {
        match self {
            OperatorNode::ValueConst(_) => OutputType::Value,
            OperatorNode::ValueAdd(_) => OutputType::Value,
            OperatorNode::ValueMul(_) => OutputType::Value,
            OperatorNode::ValueSin(_) => OutputType::Value,
            OperatorNode::ValueCompareGT(_) => OutputType::Value,
            OperatorNode::ValueSelect(_) => OutputType::Value,
            OperatorNode::ValueDelay1(_) => OutputType::Value,
            OperatorNode::ValueLfo(_) => OutputType::Value,
            OperatorNode::ImageSolidColor(_) => OutputType::Image,
            OperatorNode::ImageMix(_) => OutputType::Image,
            OperatorNode::ImageBlur1D(_) => OutputType::Image,
            OperatorNode::ImageDelay1(_) => OutputType::Image,
        }
    }

    /// What the operator produces.
    pub fn output_type(&self) -> (res: OutputType)
        ensures
            res == self.spec_output_type(),
    {
        match self {
            OperatorNode::ValueConst(op) => op.output_type(),
            OperatorNode::ValueAdd(op) => op.output_type(),
            OperatorNode::ValueMul(op) => op.output_type(),
            OperatorNode::ValueSin(op) => op.output_type(),
            OperatorNode::ValueCompareGT(op) => op.output_type(),
            OperatorNode::ValueSelect(op) => op.output_type(),
            OperatorNode::ValueDelay1(op) => op.output_type(),
            OperatorNode::ValueLfo(op) => op.output_type(),
            OperatorNode::ImageSolidColor(op) => op.output_type(),
            OperatorNode::ImageMix(op) => op.output_type(),
            OperatorNode::ImageBlur1D(op) => op.output_type(),
            OperatorNode::ImageDelay1(op) => op.output_type(),
        }
    }

    /// The number of parameters of the operator.
    pub open spec fn param_count(self) -> nat {
        match self {
            OperatorNode::ValueConst(_) => 1,
            OperatorNode::ValueAdd(_) => 2,
            OperatorNode::ValueMul(_) => 2,
            OperatorNode::ValueSin(_) => 2,
            OperatorNode::ValueCompareGT(_) => 2,
            OperatorNode::ValueSelect(_) => 3,
            OperatorNode::ValueDelay1(_) => 1,
            OperatorNode::ValueLfo(_) => 3,
            OperatorNode::ImageSolidColor(_) => 3,
            OperatorNode::ImageMix(_) => 3,
            OperatorNode::ImageBlur1D(_) => 2,
            OperatorNode::ImageDelay1(_) => 1,
        }
    }

    /// Whether parameter `index` of the operator is an image input.
    pub open spec fn is_image_input(self, index: int) -> bool {
        match self {
            OperatorNode::ValueConst(_) => false,
            OperatorNode::ValueAdd(_) => false,
            OperatorNode::ValueMul(_) => false,
            OperatorNode::ValueSin(_) => false,
            OperatorNode::ValueCompareGT(_) => false,
            OperatorNode::ValueSelect(_) => false,
            OperatorNode::ValueDelay1(_) => false,
            OperatorNode::ValueLfo(_) => false,
            OperatorNode::ImageSolidColor(_) => false,
            OperatorNode::ImageMix(_) => index == 0 || index == 1,
            OperatorNode::ImageBlur1D(_) => index == 0,
            OperatorNode::ImageDelay1(_) => index == 0,
        }
    }

    /// The operator's parameters as label, kind and value, in order.
    pub open spec fn param_views(self) -> Seq<(Seq<char>, ParamKind, ParamValue)> {
        match self {
            OperatorNode::ValueConst(op) => op.param_views(),
            OperatorNode::ValueAdd(op) => op.param_views(),
            OperatorNode::ValueMul(op) => op.param_views(),
            OperatorNode::ValueSin(op) => op.param_views(),
            OperatorNode::ValueCompareGT(op) => op.param_views(),
            OperatorNode::ValueSelect(op) => op.param_views(),
            OperatorNode::ValueDelay1(op) => op.param_views(),
            OperatorNode::ValueLfo(op) => op.param_views(),
            OperatorNode::ImageSolidColor(op) => op.param_views(),
            OperatorNode::ImageMix(op) => op.param_views(),
            OperatorNode::ImageBlur1D(op) => op.param_views(),
            OperatorNode::ImageDelay1(op) => op.param_views(),
        }
    }

    /// The operator with parameter `index` set to `value` (it stays of the
    /// same kind), or `None` when there is no such parameter or the value is
    /// not of its kind.
    pub open spec fn set_result(self, index: int, value: ParamValue) -> Option<OperatorNode> {
        match self {
            OperatorNode::ValueConst(op) => match op.set_result(index, value) {
                Some(o) => Some(OperatorNode::ValueConst(o)),
                None => None,
            },
            OperatorNode::ValueAdd(op) => match op.set_result(index, value) {
                Some(o) => Some(OperatorNode::ValueAdd(o)),
                None => None,
            },
            OperatorNode::ValueMul(op) => match op.set_result(index, value) {
                Some(o) => Some(OperatorNode::ValueMul(o)),
                None => None,
            },
            OperatorNode::ValueSin(op) => match op.set_result(index, value) {
                Some(o) => Some(OperatorNode::ValueSin(o)),
                None => None,
            },
            OperatorNode::ValueCompareGT(op) => match op.set_result(index, value) {
                Some(o) => Some(OperatorNode::ValueCompareGT(o)),
                None => None,
            },
            OperatorNode::ValueSelect(op) => match op.set_result(index, value) {
                Some(o) => Some(OperatorNode::ValueSelect(o)),
                None => None,
            },
            OperatorNode::ValueDelay1(op) => match op.set_result(index, value) {
                Some(o) => Some(OperatorNode::ValueDelay1(o)),
                None => None,
            },
            OperatorNode::ValueLfo(op) => match op.set_result(index, value) {
                Some(o) => Some(OperatorNode::ValueLfo(o)),
                None => None,
            },
            OperatorNode::ImageSolidColor(op) => match op.set_result(index, value) {
                Some(o) => Some(OperatorNode::ImageSolidColor(o)),
                None => None,
            },
            OperatorNode::ImageMix(op) => match op.set_result(index, value) {
                Some(o) => Some(OperatorNode::ImageMix(o)),
                None => None,
            },
            OperatorNode::ImageBlur1D(op) => match op.set_result(index, value) {
                Some(o) => Some(OperatorNode::ImageBlur1D(o)),
                None => None,
            },
            OperatorNode::ImageDelay1(op) => match op.set_result(index, value) {
                Some(o) => Some(OperatorNode::ImageDelay1(o)),
                None => None,
            },
        }
    }

    /// The operator's parameters, in order.
    pub fn parameters(&self) -> (res: Vec<ParamDescriptor>)
        ensures
            res@.map_values(|d: ParamDescriptor| descriptor_view(d)) == self.param_views(),
            res@.len() == self.param_count(),
            forall|i: int| 0 <= i < res@.len() ==> (#[trigger] res@[i].kind is ImageInput) == self.is_image_input(i),
    {
        match self {
            OperatorNode::ValueConst(op) => op.parameters(),
            OperatorNode::ValueAdd(op) => op.parameters(),
            OperatorNode::ValueMul(op) => op.parameters(),
            OperatorNode::ValueSin(op) => op.parameters(),
            OperatorNode::ValueCompareGT(op) => op.parameters(),
            OperatorNode::ValueSelect(op) => op.parameters(),
            OperatorNode::ValueDelay1(op) => op.parameters(),
            OperatorNode::ValueLfo(op) => op.parameters(),
            OperatorNode::ImageSolidColor(op) => op.parameters(),
            OperatorNode::ImageMix(op) => op.parameters(),
            OperatorNode::ImageBlur1D(op) => op.parameters(),
            OperatorNode::ImageDelay1(op) => op.parameters(),
        }
    }

    /// Sets parameter `index` to `value`; reports whether the index exists
    /// and the value has the parameter's kind. The operator stays of the
    /// same kind, and is left as it was when the value is refused.
    pub fn set_parameter(&mut self, index: usize, value: ParamValue) -> (res: bool)
        ensures
            res == old(self).set_result(index as int, value) is Some,
            res ==> *final(self) == old(self).set_result(index as int, value).unwrap(),
            final(self).key() == old(self).key(),
            !res ==> *final(self) == *old(self),
            index >= old(self).param_count() ==> !res,
            old(self).is_image_input(index as int) ==> (res == (value is ImageInput)),
    {
        match self {
            OperatorNode::ValueConst(op) => op.set_parameter(index, value),
            OperatorNode::ValueAdd(op) => op.set_parameter(index, value),
            OperatorNode::ValueMul(op) => op.set_parameter(index, value),
            OperatorNode::ValueSin(op) => op.set_parameter(index, value),
            OperatorNode::ValueCompareGT(op) => op.set_parameter(index, value),
            OperatorNode::ValueSelect(op) => op.set_parameter(index, value),
            OperatorNode::ValueDelay1(op) => op.set_parameter(index, value),
            OperatorNode::ValueLfo(op) => op.set_parameter(index, value),
            OperatorNode::ImageSolidColor(op) => op.set_parameter(index, value),
            OperatorNode::ImageMix(op) => op.set_parameter(index, value),
            OperatorNode::ImageBlur1D(op) => op.set_parameter(index, value),
            OperatorNode::ImageDelay1(op) => op.set_parameter(index, value),
        }
    }
}

impl OperatorNode {
    /// The image that input `i` reads when it is bound to `target`.
    pub open spec fn with_image_input(self, i: int, target: NodeId) -> OperatorNode {
        match self {
            OperatorNode::ImageMix(m) => if i == 0 {
                OperatorNode::ImageMix(ImageMixOp { a: target, ..m })
            } else if i == 1 {
                OperatorNode::ImageMix(ImageMixOp { b: target, ..m })
            } else {
                self
            },
            OperatorNode::ImageBlur1D(b) => if i == 0 {
                OperatorNode::ImageBlur1D(ImageBlur1DOp { input: target, ..b })
            } else {
                self
            },
            OperatorNode::ImageDelay1(d) => if i == 0 {
                OperatorNode::ImageDelay1(ImageDelay1Op { input: target })
            } else {
                self
            },
            _ => self,
        }
    }

    /// Sets the image input `index` to read from `target`.
    pub fn set_image_param(&mut self, index: usize, target: NodeId) -> (res: bool)
        requires
            old(self).is_image_input(index as int),
        ensures
            res,
            *final(self) == old(self).with_image_input(index as int, target),
    {
        match self {
            OperatorNode::ImageMix(m) => m.set_parameter(index, ParamValue::ImageInput(target)),
            OperatorNode::ImageBlur1D(b) => b.set_parameter(index, ParamValue::ImageInput(target)),
            OperatorNode::ImageDelay1(d) => d.set_parameter(index, ParamValue::ImageInput(target)),
            _ => false,
        }
    }
}

} // verus!
