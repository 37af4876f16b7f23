//! The dynamically typed parameter values a caller hands to the engine, and
//! the statically tagged bound parameters the engine hands to the driver.

use vstd::prelude::*;

verus! {

/// How a caller-supplied number is representable, as the engine reads it: as
/// a 64-bit integer, as a 64-bit float (carried as its IEEE 754 bit pattern,
/// which the engine never interprets), or as neither.
#[derive(Clone, Copy, Debug, PartialEq, Eq, Structural)]
pub enum NumberValue {
    Integer(i64),
    Float(u64),
    Unrepresentable,
}

/// A tagged, schema-free parameter value as supplied by the caller: one of
/// text, number, boolean, null, or an unsupported tag (an array, an object).
#[derive(Clone, Debug, PartialEq)]
pub enum DynamicValue {
    Text(String),
    Number(NumberValue),
    Boolean(bool),
    Null,
    Other,
}

/// A parameter after binding: the value the driver attaches to the
/// statement's next placeholder. Null is bound as SQL NULL typed as text,
/// since the engine does not infer the target column's type.
#[derive(Clone, Debug, PartialEq)]
pub enum BoundParam {
    Text(String),
    Integer(i64),
    Float(u64),
    Boolean(bool),
    NullText,
}

/// The mathematical model of a [`DynamicValue`]: text as a sequence of
/// characters, everything else as plain data.
pub enum ValueModel {
    Text(Seq<char>),
    Number(NumberValue),
    Boolean(bool),
    Null,
    Other,
}

/// The mathematical model of a [`BoundParam`].
pub enum BoundModel {
    Text(Seq<char>),
    Integer(i64),
    Float(u64),
    Boolean(bool),
    NullText,
}

impl View for DynamicValue {
    type V = ValueModel;

    open spec fn view(&self) -> ValueModel {
        match self {
            DynamicValue::Text(s) => ValueModel::Text(s@),
            DynamicValue::Number(n) => ValueModel::Number(*n),
            DynamicValue::Boolean(b) => ValueModel::Boolean(*b),
            DynamicValue::Null => ValueModel::Null,
            DynamicValue::Other => ValueModel::Other,
        }
    }
}

impl DeepView for DynamicValue {
    type V = ValueModel;

    open spec fn deep_view(&self) -> ValueModel {
        self.view()
    }
}

impl View for BoundParam {
    type V = BoundModel;

    open spec fn view(&self) -> BoundModel {
        match self {
            BoundParam::Text(s) => BoundModel::Text(s@),
            BoundParam::Integer(i) => BoundModel::Integer(*i),
            BoundParam::Float(bits) => BoundModel::Float(*bits),
            BoundParam::Boolean(b) => BoundModel::Boolean(*b),
            BoundParam::NullText => BoundModel::NullText,
        }
    }
}

impl DeepView for BoundParam {
    type V = BoundModel;

    open spec fn deep_view(&self) -> BoundModel {
        self.view()
    }
}

} // verus!
