use values::{Float64, NativeRef, NodeRef, Type, V};

fn float_of(x: f64) -> V {
    V::Float(Float64 { bits: x.to_bits() })
}

fn samples() -> Vec<V> {
    vec![
        V::Null,
        V::Wildcard,
        V::Int(5),
        float_of(2.5),
        float_of(f64::NAN),
        V::Bool(false),
        V::String("s".to_string()),
        V::Addr("a".to_string()),
        V::Closure(NodeRef { index: 1 }),
        V::NativeFunction(vec![Type::Int], NativeRef { index: 2 }),
        V::Function(vec![NodeRef { index: 3 }], NodeRef { index: 4 }),
        V::Type(Type::Int),
    ]
}

#[test]
fn wildcard_equals_every_value() {
    for x in samples() {
        assert!(V::Wildcard == x);
        assert!(x == V::Wildcard);
    }
}

#[test]
fn numbers_compare_by_value() {
    assert!(V::Int(2) == float_of(2.0));
    assert!(float_of(2.0) == V::Int(2));
    assert!(V::Int(2) != float_of(2.5));
    assert!(V::Int(2) == V::Int(2));
    assert!(V::Int(2) != V::Int(3));
    assert!(float_of(0.0) == float_of(-0.0));
    assert!(float_of(f64::NAN) != float_of(f64::NAN));
    // 2^53 + 1 widens to 2^53
    assert!(V::Int(9007199254740993) == float_of(9007199254740992.0));
}

#[test]
fn plain_values_compare_by_content() {
    assert!(V::Null == V::Null);
    assert!(V::Bool(true) == V::Bool(true));
    assert!(V::Bool(true) != V::Bool(false));
    assert!(V::String("a".to_string()) == V::String("a".to_string()));
    assert!(V::String("a".to_string()) != V::String("b".to_string()));
    assert!(V::Null != V::Int(0));
    assert!(V::Bool(false) != V::Int(0));
}

#[test]
fn code_values_are_never_equal() {
    let f = V::Function(vec![], NodeRef { index: 1 });
    let g = V::Function(vec![], NodeRef { index: 2 });
    assert!(f != g);
    assert!(f != V::Function(vec![], NodeRef { index: 1 }));
    let c = V::Closure(NodeRef { index: 7 });
    assert!(c != V::Closure(NodeRef { index: 7 }));
    assert!(c != V::Closure(NodeRef { index: 8 }));
    assert!(V::Addr("x".to_string()) != V::Addr("x".to_string()));
    assert!(V::Type(Type::Int) != V::Type(Type::Int));
    let n = V::NativeFunction(vec![], NativeRef { index: 0 });
    assert!(n != V::NativeFunction(vec![], NativeRef { index: 0 }));
}

#[test]
fn typ_gives_each_variant_its_tag() {
    let tags = vec![
        "undefined", "any", "int", "float", "float", "bool", "str", "addr", "closure",
        "nativ-function", "function", "type",
    ];
    for (v, t) in samples().iter().zip(tags) {
        assert_eq!(v.typ().to_string(), t);
    }
}

#[test]
fn copies_keep_the_value() {
    let v = V::NativeFunction(
        vec![Type::Union(vec![Type::Int, Type::Bool]), Type::String],
        NativeRef { index: 9 },
    );
    let c = v.clone();
    assert_eq!(c.render(), v.render());
    match c {
        V::NativeFunction(ts, f) => {
            assert_eq!(f, NativeRef { index: 9 });
            assert_eq!(ts.len(), 2);
            assert_eq!(ts[0].to_string(), "int|bool");
            assert_eq!(ts[1].to_string(), "str");
        }
        _ => panic!("copy changed the variant"),
    }
    let s = V::String("abc".to_string());
    assert!(s.clone() == s);
    let t = Type::Union(vec![Type::Float]);
    assert_eq!(t.clone().to_string(), "float");
}
