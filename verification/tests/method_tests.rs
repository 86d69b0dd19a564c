use phalcom::class::ClassObject;
use phalcom::instance::InstanceObject;
use phalcom::interner::Symbol;
use phalcom::method::{
    make_signature, MethodKind, MethodObject, PrimitiveFn, Signature, SignatureKind,
};
use phalcom::table::SymbolTable;
use phalcom::value::Value;

#[test]
fn signatures_are_written_with_placeholders() {
    assert_eq!(make_signature("foo", SignatureKind::Method(3)), "foo(_,_,_)");
    assert_eq!(make_signature("foo", SignatureKind::Method(1)), "foo(_)");
    assert_eq!(make_signature("foo", SignatureKind::Method(0)), "foo()");
    assert_eq!(make_signature("bar", SignatureKind::Getter), "bar");
    assert_eq!(make_signature("baz", SignatureKind::Setter), "baz=(_)");
    assert_eq!(make_signature("new", SignatureKind::Initializer(0)), "init new()");
    assert_eq!(make_signature("new", SignatureKind::Initializer(2)), "init new(_,_)");
    assert_eq!(make_signature("ignored", SignatureKind::SubscriptGet(2)), "[_,_]");
    assert_eq!(make_signature("ignored", SignatureKind::SubscriptGet(0)), "[]");
    assert_eq!(make_signature("ignored", SignatureKind::SubscriptSet(1)), "[_]=(_)");
}

#[test]
fn a_method_knows_its_selector_and_its_kind() {
    let s = Signature::new(Symbol(4), SignatureKind::Getter);
    assert_eq!(s.selector, Symbol(4));
    assert_eq!(s.kind, SignatureKind::Getter);
    let mut m = MethodObject::new(Symbol(4), SignatureKind::Method(2), MethodKind::Closure(9));
    assert_eq!(m.selector(), Symbol(4));
    assert!(m.is_closure() && !m.is_primitive());
    assert_eq!(m.holder, None);
    m.set_holder(3);
    assert_eq!(m.holder, Some(3));
    assert_eq!(m.kind, MethodKind::Closure(9));
    let p = MethodObject::primitive(Symbol(1), SignatureKind::Getter, PrimitiveFn::ObjectName);
    assert!(p.is_primitive() && !p.is_closure());
    assert_eq!(p.holder, None);
    let q = MethodObject::new_primitive(Symbol(1), SignatureKind::Getter, PrimitiveFn::ObjectName, 7);
    assert_eq!(q.holder, Some(7));
    assert_eq!(q.signature, Signature { selector: Symbol(1), kind: SignatureKind::Getter });
}

#[test]
fn a_table_maps_each_key_to_the_value_last_bound() {
    let mut table = SymbolTable::new();
    assert_eq!(table.get(Symbol(1)), None);
    table.insert(Symbol(1), 10);
    table.insert(Symbol(2), 20);
    assert_eq!(table.get(Symbol(1)), Some(10));
    assert_eq!(table.get(Symbol(2)), Some(20));
    assert_eq!(table.get(Symbol(3)), None);
    table.insert(Symbol(1), 11);
    assert_eq!(table.get(Symbol(1)), Some(11));
    assert_eq!(table.get(Symbol(2)), Some(20));
}

#[test]
fn a_class_holds_its_own_methods() {
    let mut c = ClassObject::new("Shape", 5, Some(0));
    assert_eq!(c.name().as_str(), "Shape");
    assert_eq!(c.name_copy(), "Shape");
    assert_eq!(c.class(), 5);
    assert_eq!(c.superclass(), Some(0));
    assert_eq!(c.superclass_val(), Value::Class(0));
    assert_eq!(c.to_string().as_str(), "<class Shape>");
    assert_eq!(c.get_method(Symbol(1)), None);
    c.add_method(Symbol(1), 3);
    assert_eq!(c.get_method(Symbol(1)), Some(3));
    c.add_method(Symbol(1), 4);
    assert_eq!(c.get_method(Symbol(1)), Some(4));
    assert_eq!(c.get_method(Symbol(2)), None);
    c.set_superclass(None);
    assert_eq!(c.superclass_val(), Value::Nil);
    c.set_class(6);
    assert_eq!(c.class(), 6);
    assert_eq!(c.get_method(Symbol(1)), Some(4));
}

#[test]
fn a_field_that_was_never_set_reads_as_nil() {
    let mut i = InstanceObject::new(3);
    assert_eq!(i.class(), 3);
    assert_eq!(i.get_field(Symbol(1)), Value::Nil);
    assert!(!i.has_field(Symbol(1)));
    i.set_field(Symbol(1), Value::Bool(true));
    i.set_field(Symbol(2), Value::Number(9));
    assert!(i.has_field(Symbol(1)));
    assert_eq!(i.get_field(Symbol(1)), Value::Bool(true));
    assert_eq!(i.get_field(Symbol(2)), Value::Number(9));
    i.set_field(Symbol(1), Value::Nil);
    assert_eq!(i.get_field(Symbol(1)), Value::Nil);
    assert!(i.has_field(Symbol(1)));
    assert_eq!(i.get_field(Symbol(2)), Value::Number(9));
    assert_eq!(i.get_field(Symbol(3)), Value::Nil);
}

#[test]
fn a_table_keeps_its_keys_in_the_order_they_came() {
    let mut table = SymbolTable::new();
    assert_eq!(table.len(), 0);
    assert_eq!(table.keys(), Vec::<Symbol>::new());
    table.insert(Symbol(9), 1);
    table.insert(Symbol(3), 2);
    table.insert(Symbol(7), 3);
    table.insert(Symbol(3), 4);
    assert_eq!(table.len(), 3);
    assert_eq!(table.keys(), vec![Symbol(9), Symbol(3), Symbol(7)]);
    assert_eq!(table.get(Symbol(3)), Some(4));
    let mut c = ClassObject::new("Ordered", 0, None);
    c.add_method(Symbol(5), 0);
    c.add_method(Symbol(1), 1);
    c.add_method(Symbol(5), 2);
    assert_eq!(c.selectors(), vec![Symbol(5), Symbol(1)]);
    let mut i = InstanceObject::new(0);
    i.set_field(Symbol(8), Value::Nil);
    i.set_field(Symbol(2), Value::Nil);
    i.set_field(Symbol(8), Value::Bool(true));
    assert_eq!(i.slots.keys(), vec![Symbol(8), Symbol(2)]);
}
