use crate::float::{truncate_spec, Float64, ONE_BITS, ZERO_BITS};
use crate::types::Type;
use crate::value::{typ_of, value_text, widen, V};
use vstd::prelude::*;

verus! {

/// The result of a cast: a value, or a string or address whose text is the
/// decimal text of a float, which binary64 formatting still has to produce.
#[derive(Debug)]
pub enum Cast {
    /// The converted value.
    Value(V),
    /// `V::String` holding the float's decimal text.
    FloatText(Float64),
    /// `V::Addr` holding the float's decimal text.
    FloatAddr(Float64),
}

/// What casting `v` to `t` gives. The cast is total: a conversion that the target
/// does not support gives `Null`.
pub open spec fn cast_result(t: Type, v: V, r: Cast) -> bool {
    match t {
        Type::Undefined => r == Cast::Value(V::Null),
        Type::Any => r == Cast::Value(v),
        Type::Int => match v {
            V::Null => r == Cast::Value(V::Int(0)),
            V::Int(i) => r == Cast::Value(V::Int(i)),
            V::Float(f) => r == Cast::Value(V::Int(truncate_spec(f.bits) as i64)),
            V::Bool(b) => r == Cast::Value(
                V::Int(
                    if b {
                        1
                    } else {
                        0
                    },
                ),
            ),
            _ => r == Cast::Value(V::Null),
        },
        Type::Float => match v {
            V::Null => r == Cast::Value(V::Float(Float64 { bits: ZERO_BITS })),
            V::Int(i) => r == Cast::Value(V::Float(widen(i))),
            V::Float(f) => r == Cast::Value(V::Float(f)),
            V::Bool(b) => r == Cast::Value(
                V::Float(
                    Float64 {
                        bits: if b {
                            ONE_BITS
                        } else {
                            ZERO_BITS
                        },
                    },
                ),
            ),
            _ => r == Cast::Value(V::Null),
        },
        Type::Bool => match v {
            V::Null => r == Cast::Value(V::Bool(false)),
            V::Int(i) => r == Cast::Value(V::Bool(i != 0)),
            V::Float(f) => r == Cast::Value(V::Bool(!f.is_zero_spec())),
            V::Bool(b) => r == Cast::Value(V::Bool(b)),
            _ => r == Cast::Value(V::Null),
        },
        Type::String => match v {
            V::Float(f) => r == Cast::FloatText(f),
            _ => match r {
                Cast::Value(V::String(s)) => s@ == value_text(v),
                _ => false,
            },
        },
        Type::Addr => match v {
            V::Float(f) => r == Cast::FloatAddr(f),
            _ => match r {
                Cast::Value(V::Addr(s)) => s@ == value_text(v),
                _ => false,
            },
        },
        Type::Type => r == Cast::Value(V::Type(typ_of(v))),
        _ => r == Cast::Value(V::Null),
    }
}

impl Type {
    /// Converts `value` to this type.
    pub fn cast(&self, value: V) -> (r: Cast)
        ensures
            cast_result(*self, value, r),
    {
        match self {
            Type::Undefined => Cast::Value(V::Null),
            Type::Any => Cast::Value(value),
            Type::Int => match value {
                V::Null => Cast::Value(V::Int(0)),
                V::Int(i) => Cast::Value(V::Int(i)),
                V::Float(f) => Cast::Value(V::Int(f.truncate())),
                V::Bool(b) => Cast::Value(
                    V::Int(
                        if b {
                            1
                        } else {
                            0
                        },
                    ),
                ),
                _ => Cast::Value(V::Null),
            },
            Type::Float => match value {
                V::Null => Cast::Value(V::Float(Float64 { bits: ZERO_BITS })),
                V::Int(i) => Cast::Value(V::Float(Float64::from_int(i))),
                V::Float(f) => Cast::Value(V::Float(f)),
                V::Bool(b) => Cast::Value(
                    V::Float(
                        Float64 {
                            bits: if b {
                                ONE_BITS
                            } else {
                                ZERO_BITS
                            },
                        },
                    ),
                ),
                _ => Cast::Value(V::Null),
            },
            Type::Bool => match value {
                V::Null => Cast::Value(V::Bool(false)),
                V::Int(i) => Cast::Value(V::Bool(i != 0)),
                V::Float(f) => Cast::Value(V::Bool(!f.is_zero())),
                V::Bool(b) => Cast::Value(V::Bool(b)),
                _ => Cast::Value(V::Null),
            },
            Type::String => match value.render() {
                Some(s) => Cast::Value(V::String(s)),
                None => match value {
                    V::Float(f) => Cast::FloatText(f),
                    _ => Cast::Value(V::Null),
                },
            },
            Type::Addr => match value.render() {
                Some(s) => Cast::Value(V::Addr(s)),
                None => match value {
                    V::Float(f) => Cast::FloatAddr(f),
                    _ => Cast::Value(V::Null),
                },
            },
            Type::Type => Cast::Value(V::Type(value.typ())),
            _ => Cast::Value(V::Null),
        }
    }
}

} // verus!
