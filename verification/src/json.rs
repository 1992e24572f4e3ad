//! The JSON document model that inference reads.

use vstd::prelude::*;

verus! {

/// How a JSON number is represented: as an integer, or as a floating-point
/// number because it was written with a fraction or an exponent.
#[derive(Clone, Copy, Debug, PartialEq, Eq, Structural)]
pub enum NumberKind {
    Integer,
    Float,
}

/// The kind of a number, given whether it is held as a floating-point number.
pub fn number_kind(is_float: bool) -> (kind: NumberKind)
    ensures
        kind == if is_float {
            NumberKind::Float
        } else {
            NumberKind::Integer
        },
{
    if is_float {
        NumberKind::Float
    } else {
        NumberKind::Integer
    }
}

/// A parsed JSON value. An object keeps its members in document order.
#[derive(Debug, PartialEq, Eq)]
pub enum JsonValue {
    Null,
    Bool(bool),
    Number(NumberKind),
    String(String),
    Array(Vec<JsonValue>),
    Object(Vec<(String, JsonValue)>),
}

/// The scalar types that a renderer has a name for. `Any` stands for a value
/// of which nothing is known: a null, or the element of an array without a
/// non-null element.
#[derive(Clone, Copy, Debug, PartialEq, Eq, Structural)]
pub enum PrimitiveKind {
    Bool,
    Integer,
    Float,
    String,
    Any,
}

/// The primitive kind of a value; arrays and objects, which have none, count
/// as `Any`.
pub open spec fn kind_of(value: JsonValue) -> PrimitiveKind {
    match value {
        JsonValue::Bool(_) => PrimitiveKind::Bool,
        JsonValue::Number(NumberKind::Integer) => PrimitiveKind::Integer,
        JsonValue::Number(NumberKind::Float) => PrimitiveKind::Float,
        JsonValue::String(_) => PrimitiveKind::String,
        _ => PrimitiveKind::Any,
    }
}

/// Maps a scalar to its primitive kind.
pub fn primitive_kind(value: &JsonValue) -> (kind: PrimitiveKind)
    ensures
        kind == kind_of(*value),
{
    match value {
        JsonValue::Bool(_) => PrimitiveKind::Bool,
        JsonValue::Number(n) => {
            match n {
                NumberKind::Integer => PrimitiveKind::Integer,
                NumberKind::Float => PrimitiveKind::Float,
            }
        },
        JsonValue::String(_) => PrimitiveKind::String,
        JsonValue::Null => PrimitiveKind::Any,
        _ => PrimitiveKind::Any,
    }
}

} // verus!
