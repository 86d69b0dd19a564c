use phalcom::error::{PhError, RuntimeError};
use phalcom::interner::Symbol;
use phalcom::module::{ModuleObject, MAX_GLOBALS};
use phalcom::value::Value;

fn message_of(error: PhError) -> String {
    match error {
        PhError::Runtime(RuntimeError::Message(text)) => text,
        other => panic!("Expected a message, got {:?}", other),
    }
}

#[test]
fn a_new_module_is_empty() {
    let m = ModuleObject::new("main", Symbol(3), Some("source".to_string()));
    assert_eq!(m.name().as_str(), "main");
    assert_eq!(m.symbol(), Symbol(3));
    assert_eq!(m.to_phalcom_string().as_str(), "<module main>");
    assert_eq!(m.get(Symbol(0)), None);
    assert_eq!(m.get_by_slot(0), None);
    assert_eq!(m.slot_of(Symbol(0)), None);
    assert_eq!(m.source, Some("source".to_string()));
}

#[test]
fn declare_is_idempotent_and_starts_with_nil() {
    let mut m = ModuleObject::new("m", Symbol(0), None);
    assert_eq!(m.declare(Symbol(10)).unwrap(), 0);
    assert_eq!(m.declare(Symbol(11)).unwrap(), 1);
    assert_eq!(m.declare(Symbol(10)).unwrap(), 0);
    assert_eq!(m.get(Symbol(10)), Some(Value::Nil));
    assert_eq!(m.globals.len(), 2);
}

#[test]
fn a_name_keeps_its_slot() {
    let mut m = ModuleObject::new("m", Symbol(0), None);
    let k = m.define(Symbol(5), Value::Bool(true)).unwrap();
    assert_eq!(m.get(Symbol(5)), Some(Value::Bool(true)));
    assert_eq!(m.get(Symbol(5)), m.get_by_slot(k));
    let other = m.define(Symbol(6), Value::Bool(false)).unwrap();
    assert_ne!(other, k);
    assert_eq!(m.get(Symbol(5)), Some(Value::Bool(true)));
    assert_eq!(m.slot_of(Symbol(5)), Some(k));
    assert_eq!(m.define(Symbol(5), Value::Number(7)).unwrap(), k);
    assert_eq!(m.get(Symbol(5)), Some(Value::Number(7)));
    assert_eq!(m.get_by_slot(k), Some(Value::Number(7)));
    assert_eq!(m.get(Symbol(6)), Some(Value::Bool(false)));
}

#[test]
fn set_global_needs_a_slot_that_exists() {
    let mut m = ModuleObject::new("m", Symbol(0), None);
    let error = m.set_global(0, Value::Nil).unwrap_err();
    assert_eq!(message_of(error), "Global slot out of bounds");
    let k = m.declare(Symbol(1)).unwrap();
    m.set_global(k, Value::Bool(true)).unwrap();
    assert_eq!(m.get(Symbol(1)), Some(Value::Bool(true)));
    let error = m.set_global(k + 1, Value::Nil).unwrap_err();
    assert_eq!(message_of(error), "Global slot out of bounds");
}

#[test]
fn a_module_holds_no_more_than_its_limit() {
    let mut m = ModuleObject::new("m", Symbol(0), None);
    for i in 0..MAX_GLOBALS {
        assert_eq!(m.declare(Symbol(i as u32)).unwrap(), i);
    }
    let error = m.declare(Symbol(MAX_GLOBALS as u32)).unwrap_err();
    assert_eq!(message_of(error), "Too many globals in module");
    let error = m.define(Symbol(MAX_GLOBALS as u32 + 1), Value::Nil).unwrap_err();
    assert_eq!(message_of(error), "Too many globals in module");
    assert_eq!(m.declare(Symbol(17)).unwrap(), 17);
    assert_eq!(m.define(Symbol(18), Value::Bool(true)).unwrap(), 18);
    assert_eq!(m.globals.len(), MAX_GLOBALS);
}
