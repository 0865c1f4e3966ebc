use crate::cast::{cast_result, Cast};
use crate::types::{lemma_some_matches_grows, some_matches, type_eq, Type};
use crate::value::{typ_of, value_eq, V};
use vstd::prelude::*;

verus! {

/// Casting a value to a non-union type that its own type matches gives back a
/// value equal to it. This holds of null, the wildcard, integers, floats other
/// than NaN, booleans and strings; other values equal nothing but the wildcard.
pub proof fn cast_keeps_matching_value(t: Type, v: V, r: Cast)
    requires
        !(t is Union),
        type_eq(typ_of(v), t),
        v is Null || v is Wildcard || v is Int || v is Bool || v is String || (v is Float
            && !v->Float_0.is_nan_spec()),
        cast_result(t, v, r),
    ensures
        r is Value,
        value_eq(r->Value_0, v),
{
}

/// Casting any value to `Type` gives a type value that carries the value's own type.
pub proof fn cast_to_type_reflects(v: V, r: Cast)
    requires
        cast_result(Type::Type, v, r),
    ensures
        r is Value,
        typ_of(r->Value_0) == Type::Type,
        r->Value_0 == V::Type(typ_of(v)),
{
}

/// The wildcard equals every value, on either side.
pub proof fn wildcard_equals_everything(x: V)
    ensures
        value_eq(V::Wildcard, x),
        value_eq(x, V::Wildcard),
{
}

/// `Any` matches every type, on either side.
pub proof fn any_matches_every_type(t: Type)
    ensures
        type_eq(Type::Any, t),
        type_eq(t, Type::Any),
{
}

/// A union matches each of its members that is not itself a union.
pub proof fn union_matches_member(xs: Vec<Type>, i: int)
    requires
        0 <= i < xs.len(),
        !(xs[i] is Union),
    ensures
        type_eq(Type::Union(xs), xs[i]),
{
    assert(type_eq(xs[i], xs[i]));
    assert(some_matches(xs, xs[i], (i + 1) as nat));
    lemma_some_matches_grows(xs, xs[i], (i + 1) as nat, xs.len() as nat);
}

/// Addresses, closures, functions, native functions and type values equal no
/// value but the wildcard, not even themselves.
pub proof fn code_values_equal_only_wildcard(a: V, b: V)
    requires
        a is Addr || a is Closure || a is Function || a is NativeFunction || a is Type,
        !(b is Wildcard),
    ensures
        !value_eq(a, b),
        !value_eq(b, a),
{
}

} // verus!
