use phalcom::interner::Symbol;
use phalcom::value::Value;

fn samples() -> Vec<Value> {
    vec![
        Value::Nil,
        Value::Bool(true),
        Value::Bool(false),
        Value::Number(1.5f64.to_bits()),
        Value::Number(0.0f64.to_bits()),
        Value::Number((-0.0f64).to_bits()),
        Value::string_from_str("a"),
        Value::string_from("a".to_string()),
        Value::string_from_str("b"),
        Value::Symbol(Symbol(1)),
        Value::Symbol(Symbol(2)),
        Value::Instance(1),
        Value::Instance(2),
        Value::Class(1),
        Value::Class(2),
        Value::Method(1),
        Value::Module(1),
    ]
}

#[test]
fn equality_is_reflexive_but_for_not_a_number() {
    for v in samples() {
        assert!(v == v.clone(), "{:?}", v);
    }
    let nan = Value::Number(f64::NAN.to_bits());
    assert!(nan != nan.clone());
}

#[test]
fn equality_is_symmetric() {
    for a in samples() {
        for b in samples() {
            assert_eq!(a == b, b == a, "{:?} {:?}", a, b);
        }
    }
}

#[test]
fn equality_is_transitive() {
    for a in samples() {
        for b in samples() {
            for c in samples() {
                if a == b && b == c {
                    assert!(a == c);
                    assert_eq!(a.kind_name(), b.kind_name());
                }
            }
        }
    }
}

#[test]
fn values_of_different_kinds_are_never_equal() {
    assert!(Value::Instance(1) != Value::Class(1));
    assert!(Value::Class(1) != Value::Method(1));
    assert!(Value::Method(1) != Value::Module(1));
    assert!(Value::Nil != Value::Bool(false));
    assert!(Value::Number(0) != Value::Bool(false));
    assert!(Value::string_from_str("1") != Value::Number(1.0f64.to_bits()));
    assert!(Value::Symbol(Symbol(1)) != Value::Instance(1));
}

#[test]
fn primitives_are_equal_by_what_they_hold_and_objects_by_identity() {
    assert!(Value::string_from_str("same") == Value::string_from_str("same"));
    assert!(Value::Number(0.0f64.to_bits()) == Value::Number((-0.0f64).to_bits()));
    assert!(Value::Symbol(Symbol(7)) == Value::Symbol(Symbol(7)));
    assert!(Value::Module(3) == Value::Module(3));
    assert!(Value::Instance(3) != Value::Instance(4));
}

#[test]
fn kind_names() {
    let expected = vec![
        (Value::Nil, "Nil"),
        (Value::Bool(true), "Bool"),
        (Value::Number(0), "Number"),
        (Value::string_from_str(""), "String"),
        (Value::Symbol(Symbol(0)), "Symbol"),
        (Value::Class(0), "Class"),
        (Value::Instance(0), "Instance"),
        (Value::Method(0), "Method"),
        (Value::Module(0), "Module"),
    ];
    for (value, name) in expected {
        assert_eq!(value.kind_name(), name);
    }
}

#[test]
fn predicates_and_conversions() {
    let n = Value::Number(2.0f64.to_bits());
    assert!(n.is_number() && !n.is_boolean() && !n.is_nil() && !n.is_string() && !n.is_symbol());
    assert_eq!(n.as_number(), Ok(2.0f64.to_bits()));
    assert_eq!(n.as_bool(), Err("Type Error: Expected a Bool.".to_string()));
    assert_eq!(n.as_string(), Err("Type Error: Expected a String.".to_string()));
    assert_eq!(n.as_symbol(), Err("Type Error: Expected a Symbol.".to_string()));
    let b = Value::Bool(true);
    assert!(b.is_boolean());
    assert_eq!(b.as_bool(), Ok(true));
    assert_eq!(b.as_number(), Err("Type Error: Expected a Number.".to_string()));
    let s = Value::string_from_str("text");
    assert!(s.is_string());
    assert_eq!(s.as_string(), Ok("text".to_string()));
    let y = Value::Symbol(Symbol(4));
    assert!(y.is_symbol());
    assert_eq!(y.as_symbol(), Ok(Symbol(4)));
    assert!(Value::Nil.is_nil());
}
