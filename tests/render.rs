use values::{Float64, NativeRef, NodeRef, Type, V};

fn text(v: &V) -> String {
    v.render().expect("a text")
}

#[test]
fn primitives_render() {
    assert_eq!(text(&V::Int(42)), "42");
    assert_eq!(text(&V::Int(-7)), "-7");
    assert_eq!(text(&V::Int(i64::MIN)), "-9223372036854775808");
    assert_eq!(text(&V::Bool(true)), "true");
    assert_eq!(text(&V::Bool(false)), "false");
    assert_eq!(text(&V::Addr("x".to_string())), "@x");
    assert_eq!(text(&V::String("a \"b\"".to_string())), "a \"b\"");
    assert_eq!(text(&V::Null), "null");
    assert_eq!(text(&V::Wildcard), "_");
    assert_eq!(text(&V::Type(Type::String)), "str");
}

#[test]
fn code_values_render_with_their_reference() {
    assert_eq!(text(&V::Closure(NodeRef { index: 3 })), "#3");
    assert_eq!(text(&V::Function(vec![], NodeRef { index: 8 })), "function:8");
    assert_eq!(
        text(&V::NativeFunction(vec![Type::Int], NativeRef { index: 11 })),
        "nativ-function:11"
    );
}

#[test]
fn float_text_is_left_to_binary64_formatting() {
    assert!(V::Float(Float64 { bits: 1.5f64.to_bits() }).render().is_none());
}
