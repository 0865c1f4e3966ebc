use values::{Cast, Float64, NativeRef, NodeRef, Type, V};

fn float_of(x: f64) -> V {
    V::Float(Float64 { bits: x.to_bits() })
}

fn value(c: Cast) -> V {
    match c {
        Cast::Value(v) => v,
        _ => panic!("expected a value"),
    }
}

fn samples() -> Vec<V> {
    vec![
        V::Null,
        V::Wildcard,
        V::Int(-12),
        float_of(2.5),
        V::Bool(true),
        V::String("s".to_string()),
        V::Addr("a".to_string()),
        V::Closure(NodeRef { index: 1 }),
        V::NativeFunction(vec![Type::Int], NativeRef { index: 2 }),
        V::Function(vec![NodeRef { index: 3 }], NodeRef { index: 4 }),
        V::Type(Type::Float),
    ]
}

fn targets() -> Vec<Type> {
    vec![
        Type::Undefined,
        Type::Any,
        Type::Int,
        Type::Float,
        Type::Bool,
        Type::String,
        Type::NativeFunction,
        Type::Function,
        Type::Addr,
        Type::Closure,
        Type::Union(vec![Type::Int]),
        Type::Type,
    ]
}

#[test]
fn cast_is_total() {
    for t in targets() {
        for v in samples() {
            let _ = t.cast(v);
        }
    }
}

#[test]
fn cast_keeps_a_value_of_the_target_type() {
    assert!(value(Type::Int.cast(V::Int(5))) == V::Int(5));
    assert!(value(Type::Float.cast(float_of(2.5))) == float_of(2.5));
    assert!(value(Type::Bool.cast(V::Bool(true))) == V::Bool(true));
    assert!(value(Type::String.cast(V::String("s".to_string()))) == V::String("s".to_string()));
    assert!(value(Type::Undefined.cast(V::Null)) == V::Null);
    assert!(value(Type::Any.cast(V::Int(9))) == V::Int(9));
}

#[test]
fn cast_to_type_reflects() {
    for v in samples() {
        let t = v.typ();
        match Type::Type.cast(v) {
            Cast::Value(V::Type(u)) => assert_eq!(u.to_string(), t.to_string()),
            _ => panic!("expected a type value"),
        }
    }
}

#[test]
fn cast_to_int() {
    assert!(matches!(value(Type::Int.cast(V::Null)), V::Int(0)));
    assert!(matches!(value(Type::Int.cast(float_of(3.7))), V::Int(3)));
    assert!(matches!(value(Type::Int.cast(float_of(-3.7))), V::Int(-3)));
    assert!(matches!(value(Type::Int.cast(float_of(f64::NAN))), V::Int(0)));
    assert!(matches!(value(Type::Int.cast(float_of(1e300))), V::Int(i64::MAX)));
    assert!(matches!(value(Type::Int.cast(float_of(f64::NEG_INFINITY))), V::Int(i64::MIN)));
    assert!(matches!(value(Type::Int.cast(V::Bool(true))), V::Int(1)));
    assert!(matches!(value(Type::Int.cast(V::Bool(false))), V::Int(0)));
    assert!(matches!(value(Type::Int.cast(V::String("1".to_string()))), V::Null));
}

#[test]
fn cast_to_float() {
    assert!(value(Type::Float.cast(V::Null)) == float_of(0.0));
    assert!(value(Type::Float.cast(V::Int(-3))) == float_of(-3.0));
    assert!(value(Type::Float.cast(V::Bool(true))) == float_of(1.0));
    assert!(value(Type::Float.cast(V::Bool(false))) == float_of(0.0));
    assert!(matches!(value(Type::Float.cast(V::Addr("a".to_string()))), V::Null));
}

#[test]
fn cast_to_bool() {
    assert!(matches!(value(Type::Bool.cast(V::Null)), V::Bool(false)));
    assert!(matches!(value(Type::Bool.cast(V::Int(0))), V::Bool(false)));
    assert!(matches!(value(Type::Bool.cast(V::Int(-4))), V::Bool(true)));
    assert!(matches!(value(Type::Bool.cast(float_of(0.0))), V::Bool(false)));
    assert!(matches!(value(Type::Bool.cast(float_of(-0.0))), V::Bool(false)));
    assert!(matches!(value(Type::Bool.cast(float_of(0.1))), V::Bool(true)));
    assert!(matches!(value(Type::Bool.cast(float_of(f64::NAN))), V::Bool(true)));
    assert!(matches!(value(Type::Bool.cast(V::Wildcard)), V::Null));
}

#[test]
fn cast_to_text() {
    match value(Type::String.cast(V::Int(-12))) {
        V::String(s) => assert_eq!(s, "-12"),
        _ => panic!("expected a string"),
    }
    match value(Type::Addr.cast(V::Int(5))) {
        V::Addr(s) => assert_eq!(s, "5"),
        _ => panic!("expected an address"),
    }
    match value(Type::String.cast(V::Type(Type::Union(vec![Type::Int, Type::Bool])))) {
        V::String(s) => assert_eq!(s, "int|bool"),
        _ => panic!("expected a string"),
    }
    assert!(matches!(Type::String.cast(float_of(2.5)), Cast::FloatText(_)));
    assert!(matches!(Type::Addr.cast(float_of(2.5)), Cast::FloatAddr(_)));
}

#[test]
fn unsupported_targets_give_null() {
    for t in vec![
        Type::NativeFunction,
        Type::Function,
        Type::Closure,
        Type::Union(vec![Type::Int]),
        Type::Undefined,
    ] {
        assert!(matches!(value(t.cast(V::Int(1))), V::Null));
    }
}
