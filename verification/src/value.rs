//! The tagged value type into which every recorded field is funnelled before
//! it reaches the outgoing record.

use vstd::prelude::*;

verus! {

/// A structured value as the telemetry backend understands it.
#[derive(Debug, Clone, PartialEq)]
pub enum Value {
    /// A signed 64-bit integer field.
    I64(i64),
    /// An unsigned 64-bit integer field.
    U64(u64),
    /// A boolean field.
    Bool(bool),
    /// A UTF-8 string field; also the textual fallback for any value with no
    /// more specific representation.
    Str(String),
    /// The structured null value.
    Null,
}

/// The mathematical shape of a [`Value`]: the same tags over mathematical
/// string content.
pub enum SpecValue {
    /// A signed 64-bit integer field.
    I64(i64),
    /// An unsigned 64-bit integer field.
    U64(u64),
    /// A boolean field.
    Bool(bool),
    /// A string field, as a sequence of characters.
    Str(Seq<char>),
    /// The structured null value.
    Null,
}

impl View for Value {
    type V = SpecValue;

    open spec fn view(&self) -> SpecValue {
        match self {
            Value::I64(v) => SpecValue::I64(*v),
            Value::U64(v) => SpecValue::U64(*v),
            Value::Bool(v) => SpecValue::Bool(*v),
            Value::Str(s) => SpecValue::Str(s@),
            Value::Null => SpecValue::Null,
        }
    }
}

} // verus!
