use crate::float::{from_int_bits, Float64, ONE_BITS, ZERO_BITS};
use crate::types::{name_of, same_members, same_type, Type};
use vstd::prelude::*;
use vstd::string::StringExecFns;

verus! {

/// A reference to a syntax-tree node that the parser owns.
#[derive(Clone, Copy, Debug, PartialEq, Eq, Structural)]
pub struct NodeRef {
    pub index: u64,
}

/// A reference to a host function in the evaluator's table of native functions.
#[derive(Clone, Copy, Debug, PartialEq, Eq, Structural)]
pub struct NativeRef {
    pub index: u64,
}

/// A runtime value of the language.
#[derive(Debug)]
pub enum V {
    Null,
    /// Equal to every value.
    Wildcard,
    Int(i64),
    Float(Float64),
    Bool(bool),
    String(String),
    /// An address, written as text.
    Addr(String),
    /// A closure and its body.
    Closure(NodeRef),
    /// A host function with its declared parameter types.
    NativeFunction(Vec<Type>, NativeRef),
    /// A function with its parameter patterns and its body.
    Function(Vec<NodeRef>, NodeRef),
    /// A type as a value.
    Type(Type),
}

/// IEEE-754 equality: NaN equals nothing, and +0.0 equals -0.0.
pub open spec fn float_eq(a: Float64, b: Float64) -> bool {
    !a.is_nan_spec() && !b.is_nan_spec() && (a.bits == b.bits || (a.is_zero_spec()
        && b.is_zero_spec()))
}

/// The binary64 number nearest to an integer.
pub open spec fn widen(i: i64) -> Float64 {
    Float64 { bits: from_int_bits(i as int) as u64 }
}

/// Value equality: the wildcard equals everything; numbers compare by value, an
/// integer being widened to floating point against a float; booleans and strings
/// by content; every other pair is unequal.
pub open spec fn value_eq(a: V, b: V) -> bool {
    if a is Wildcard || b is Wildcard {
        true
    } else {
        match (a, b) {
            (V::Null, V::Null) => true,
            (V::Int(x), V::Int(y)) => x == y,
            (V::Int(x), V::Float(y)) => float_eq(widen(x), y),
            (V::Float(x), V::Int(y)) => float_eq(x, widen(y)),
            (V::Float(x), V::Float(y)) => float_eq(x, y),
            (V::Bool(x), V::Bool(y)) => x == y,
            (V::String(x), V::String(y)) => x@ == y@,
            _ => false,
        }
    }
}

/// Two values are the same: what a copy of a value is.
pub open spec fn same_value(a: V, b: V) -> bool {
    match (a, b) {
        (V::NativeFunction(ts, f), V::NativeFunction(us, g)) => f == g && ts.len() == us.len()
            && same_members(ts, us, ts.len() as nat),
        (V::Function(ps, x), V::Function(qs, y)) => ps@ == qs@ && x == y,
        (V::Type(t), V::Type(u)) => same_type(t, u),
        _ => a == b,
    }
}

/// The type tag of a value.
pub open spec fn typ_of(v: V) -> Type {
    match v {
        V::Null => Type::Undefined,
        V::Wildcard => Type::Any,
        V::Int(_) => Type::Int,
        V::Float(_) => Type::Float,
        V::Bool(_) => Type::Bool,
        V::String(_) => Type::String,
        V::Addr(_) => Type::Addr,
        V::Closure(_) => Type::Closure,
        V::NativeFunction(_, _) => Type::NativeFunction,
        V::Function(_, _) => Type::Function,
        V::Type(_) => Type::Type,
    }
}

/// The decimal digits of a natural number.
pub open spec fn digits(n: nat) -> Seq<char>
    decreases n,
{
    if n < 10 {
        seq![seq!['0', '1', '2', '3', '4', '5', '6', '7', '8', '9'][n as int]]
    } else {
        digits(n / 10) + seq![seq!['0', '1', '2', '3', '4', '5', '6', '7', '8', '9'][(n % 10) as int]]
    }
}

/// The decimal text of an integer, with a leading `-` when it is negative.
pub open spec fn decimal(n: int) -> Seq<char> {
    if n < 0 {
        seq!['-'] + digits((-n) as nat)
    } else {
        digits(n as nat)
    }
}

/// Relies on the standard library's `Display` for `i128` (through `to_string`):
/// the decimal digits, with a leading `-` for a negative number.
#[verifier::external_body]
fn decimal_string(n: i128) -> (r: String)
    ensures
        r@ == decimal(n as int),
{
    n.to_string()
}

/// The text of a value other than a float.
pub open spec fn value_text(v: V) -> Seq<char> {
    match v {
        V::Null => "null"@,
        V::Wildcard => "_"@,
        V::Int(i) => decimal(i as int),
        V::Float(_) => Seq::empty(),
        V::Bool(b) => if b {
            "true"@
        } else {
            "false"@
        },
        V::String(s) => s@,
        V::Addr(s) => "@"@ + s@,
        V::Closure(body) => "#"@ + decimal(body.index as int),
        V::NativeFunction(_, f) => "nativ-function:"@ + decimal(f.index as int),
        V::Function(_, body) => "function:"@ + decimal(body.index as int),
        V::Type(t) => name_of(t),
    }
}

/// The four arithmetic operators.
#[derive(Clone, Copy, Debug, PartialEq, Eq, Structural)]
pub enum ArithOp {
    Add,
    Sub,
    Mul,
    Div,
}

/// The result of an arithmetic operator whose operand types are compatible.
#[derive(Debug)]
pub enum Arith {
    /// The result itself.
    Value(V),
    /// The result is `V::Float` of the operator applied in binary64 arithmetic to
    /// these two operands (an integer operand is already widened).
    Float(ArithOp, Float64, Float64),
}

/// What an operator gives on two values: integers combine with wrap-around, except
/// that division goes to floating point; an integer meeting a float is widened;
/// two strings concatenate under `+`; every other pair has no result.
pub open spec fn arith_result(op: ArithOp, a: V, b: V, r: Option<Arith>) -> bool {
    match (a, b) {
        (V::Int(x), V::Int(y)) => r == Some(
            match op {
                ArithOp::Add => Arith::Value(V::Int(x.wrapping_add(y))),
                ArithOp::Sub => Arith::Value(V::Int(x.wrapping_sub(y))),
                ArithOp::Mul => Arith::Value(V::Int(x.wrapping_mul(y))),
                ArithOp::Div => Arith::Float(ArithOp::Div, widen(x), widen(y)),
            },
        ),
        (V::Int(x), V::Float(y)) => r == Some(Arith::Float(op, widen(x), y)),
        (V::Float(x), V::Int(y)) => r == Some(Arith::Float(op, x, widen(y))),
        (V::Float(x), V::Float(y)) => r == Some(Arith::Float(op, x, y)),
        (V::String(x), V::String(y)) => if op == ArithOp::Add {
            match r {
                Some(Arith::Value(V::String(s))) => s@ == x@ + y@,
                _ => false,
            }
        } else {
            r is None
        },
        _ => r is None,
    }
}

impl Float64 {
    /// IEEE-754 equality of two floats.
    pub fn equals(&self, other: &Float64) -> (r: bool)
        ensures
            r == float_eq(*self, *other),
    {
        if self.is_nan() || other.is_nan() {
            false
        } else {
            self.bits == other.bits || (self.is_zero() && other.is_zero())
        }
    }
}

impl V {
    /// The type tag of the value.
    pub fn typ(&self) -> (r: Type)
        ensures
            r == typ_of(*self),
    {
        match self {
            V::Null => Type::Undefined,
            V::Wildcard => Type::Any,
            V::Int(_) => Type::Int,
            V::Float(_) => Type::Float,
            V::Bool(_) => Type::Bool,
            V::String(_) => Type::String,
            V::Addr(_) => Type::Addr,
            V::Closure(_) => Type::Closure,
            V::NativeFunction(_, _) => Type::NativeFunction,
            V::Function(_, _) => Type::Function,
            V::Type(_) => Type::Type,
        }
    }

    /// A copy of the value.
    pub fn duplicate(&self) -> (r: V)
        ensures
            same_value(r, *self),
    {
        match self {
            V::Null => V::Null,
            V::Wildcard => V::Wildcard,
            V::Int(i) => V::Int(*i),
            V::Float(f) => V::Float(*f),
            V::Bool(b) => V::Bool(*b),
            V::String(s) => V::String(s.clone()),
            V::Addr(s) => V::Addr(s.clone()),
            V::Closure(body) => V::Closure(*body),
            V::NativeFunction(ts, f) => V::NativeFunction(Type::duplicate_all(ts), *f),
            V::Function(ps, body) => {
                let qs = ps.clone();
                assert(qs@ =~= ps@);
                V::Function(qs, *body)
            },
            V::Type(t) => V::Type(t.duplicate()),
        }
    }

    /// Compares two values by the rules of `value_eq`.
    pub fn equals(&self, other: &V) -> (r: bool)
        ensures
            r == value_eq(*self, *other),
    {
        if let V::Wildcard = self {
            return true;
        }
        if let V::Wildcard = other {
            return true;
        }
        match (self, other) {
            (V::Null, V::Null) => true,
            (V::Int(x), V::Int(y)) => *x == *y,
            (V::Int(x), V::Float(y)) => Float64::from_int(*x).equals(y),
            (V::Float(x), V::Int(y)) => x.equals(&Float64::from_int(*y)),
            (V::Float(x), V::Float(y)) => x.equals(y),
            (V::Bool(x), V::Bool(y)) => *x == *y,
            (V::String(x), V::String(y)) => *x == *y,
            _ => false,
        }
    }

    fn combine(op: ArithOp, a: &V, b: &V) -> (r: Option<Arith>)
        ensures
            arith_result(op, *a, *b, r),
    {
        match (a, b) {
            (V::Int(x), V::Int(y)) => Some(
                match op {
                    ArithOp::Add => Arith::Value(V::Int(x.wrapping_add(*y))),
                    ArithOp::Sub => Arith::Value(V::Int(x.wrapping_sub(*y))),
                    ArithOp::Mul => Arith::Value(V::Int(x.wrapping_mul(*y))),
                    ArithOp::Div => Arith::Float(
                        ArithOp::Div,
                        Float64::from_int(*x),
                        Float64::from_int(*y),
                    ),
                },
            ),
            (V::Int(x), V::Float(y)) => Some(Arith::Float(op, Float64::from_int(*x), *y)),
            (V::Float(x), V::Int(y)) => Some(Arith::Float(op, *x, Float64::from_int(*y))),
            (V::Float(x), V::Float(y)) => Some(Arith::Float(op, *x, *y)),
            (V::String(x), V::String(y)) => match op {
                ArithOp::Add => Some(Arith::Value(V::String(x.clone().concat(y.as_str())))),
                _ => None,
            },
            _ => None,
        }
    }

    /// `self + other`.
    pub fn add(&self, other: &V) -> (r: Option<Arith>)
        ensures
            arith_result(ArithOp::Add, *self, *other, r),
    {
        Self::combine(ArithOp::Add, self, other)
    }

    /// `self - other`.
    pub fn sub(&self, other: &V) -> (r: Option<Arith>)
        ensures
            arith_result(ArithOp::Sub, *self, *other, r),
    {
        Self::combine(ArithOp::Sub, self, other)
    }

    /// `self * other`.
    pub fn mul(&self, other: &V) -> (r: Option<Arith>)
        ensures
            arith_result(ArithOp::Mul, *self, *other, r),
    {
        Self::combine(ArithOp::Mul, self, other)
    }

    /// `self / other`.
    pub fn div(&self, other: &V) -> (r: Option<Arith>)
        ensures
            arith_result(ArithOp::Div, *self, *other, r),
    {
        Self::combine(ArithOp::Div, self, other)
    }

    /// The text of the value; `None` for a float, whose decimal text comes from
    /// binary64 formatting.
    pub fn render(&self) -> (r: Option<String>)
        ensures
            match r {
                None => self is Float,
                Some(s) => !(self is Float) && s@ == value_text(*self),
            },
    {
        match self {
            V::Null => Some(String::from_str("null")),
            V::Wildcard => Some(String::from_str("_")),
            V::Int(i) => Some(decimal_string(*i as i128)),
            V::Float(_) => None,
            V::Bool(b) => if *b {
                Some(String::from_str("true"))
            } else {
                Some(String::from_str("false"))
            },
            V::String(s) => Some(s.clone()),
            V::Addr(s) => Some(String::from_str("@").concat(s.as_str())),
            V::Closure(body) => Some(
                String::from_str("#").concat(decimal_string(body.index as i128).as_str()),
            ),
            V::NativeFunction(_, f) => Some(
                String::from_str("nativ-function:").concat(
                    decimal_string(f.index as i128).as_str(),
                ),
            ),
            V::Function(_, body) => Some(
                String::from_str("function:").concat(decimal_string(body.index as i128).as_str()),
            ),
            V::Type(t) => Some(t.to_string()),
        }
    }
}

impl Clone for V {
    fn clone(&self) -> V {
        self.duplicate()
    }
}

impl PartialEq for V {
    fn eq(&self, other: &V) -> (r: bool) {
        self.equals(other)
    }
}

impl vstd::std_specs::cmp::PartialEqSpecImpl for V {
    open spec fn obeys_eq_spec() -> bool {
        true
    }

    open spec fn eq_spec(&self, other: &V) -> bool {
        value_eq(*self, *other)
    }
}

} // verus!
