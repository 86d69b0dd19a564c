use phalcom::error::{PhError, RuntimeError};
use phalcom::heap::{CORE_CLASS_COUNT, METACLASS_CLASS, NUMBER_CLASS, OBJECT_CLASS};
use phalcom::interner::Symbol;
use phalcom::universe::{bootstrap, Universe};
use phalcom::value::Value;
use phalcom::vm::VM;

#[test]
fn bootstrap_builds_the_tower() {
    let heap = bootstrap();
    assert_eq!(heap.classes.len(), CORE_CLASS_COUNT);
    let names: Vec<String> = heap.classes.iter().map(|c| c.name.as_str().to_string()).collect();
    assert_eq!(
        names,
        vec![
            "Object", "Class", "Metaclass", "Object.class", "Number.class", "Number",
            "String.class", "String", "Nil.class", "Nil", "Bool.class", "Bool", "Method.class",
            "Method", "Symbol.class", "Symbol", "Module.class", "Module", "System.class", "System",
        ]
    );
    let object = heap.class(OBJECT_CLASS);
    assert_eq!(object.superclass(), None);
    assert_eq!(heap.class(object.class()).name.as_str(), "Object.class");
    assert_eq!(heap.class(object.class()).class(), METACLASS_CLASS);
    let class = heap.class(phalcom::heap::CLASS_CLASS);
    assert_eq!(class.class(), METACLASS_CLASS);
    assert_eq!(class.superclass(), Some(OBJECT_CLASS));
    let metaclass = heap.class(METACLASS_CLASS);
    assert_eq!(metaclass.class(), METACLASS_CLASS);
    assert_eq!(metaclass.superclass(), Some(phalcom::heap::CLASS_CLASS));
    let (universe, heap) = Universe::new();
    assert_eq!(universe.classes.number_class, NUMBER_CLASS);
    assert_eq!(heap.class(universe.classes.system_class).name.as_str(), "System");
    assert_eq!(universe.primitive_names.bool_name(true).as_str(), "true");
    assert_eq!(universe.primitive_names.bool_name(false).as_str(), "false");
    assert_eq!(universe.primitive_names.nil.as_str(), "Nil");
    assert_eq!(universe.primitive_names.metaclass.as_str(), "Metaclass");
}

#[test]
fn a_module_is_found_again_under_its_name() {
    let mut vm = VM::new();
    let a = vm.module_from_str("a").unwrap();
    let b = vm.module_from_str("b").unwrap();
    assert_ne!(a, b);
    assert_eq!(vm.module_from_str("a"), Some(a));
    assert_eq!(vm.module_from_str("core"), Some(vm.core_module));
    assert_eq!(vm.heap.module(a).name.as_str(), "a");
    let symbol = vm.get_or_intern("a");
    assert_eq!(vm.get_module(symbol), Some(a));
    let unknown = vm.get_or_intern("unknown");
    assert_eq!(vm.get_module(unknown), None);
    let c = vm.create_module(unknown, "return 1;");
    assert_eq!(vm.get_module(unknown), Some(c));
    assert_eq!(vm.heap.module(c).name.as_str(), "unknown");
    assert_eq!(vm.heap.module(c).source, Some("return 1;".to_string()));
}

#[test]
fn globals_are_defined_through_the_registry() {
    let mut vm = VM::new();
    let m = vm.module_from_str("m").unwrap();
    let module_sym = vm.get_or_intern("m");
    let name = vm.get_or_intern("answer");
    let slot = vm.define_global(module_sym, name, Value::Number(42)).unwrap();
    assert_eq!(vm.heap.module(m).get(name), Some(Value::Number(42)));
    assert_eq!(vm.heap.module(m).get_by_slot(slot), Some(Value::Number(42)));
    match vm.define_global(Symbol(4000), name, Value::Nil) {
        Err(PhError::Runtime(RuntimeError::Message(text))) => assert_eq!(text, "No such module"),
        other => panic!("Expected a message, got {:?}", other),
    }
}

#[test]
fn the_core_module_binds_the_core_classes() {
    let mut vm = VM::new();
    let core = vm.core_module;
    for (name, class) in [("Object", OBJECT_CLASS), ("Number", NUMBER_CLASS), ("Metaclass", METACLASS_CLASS)] {
        let symbol = vm.get_or_intern(name);
        assert_eq!(vm.heap.module(core).get(symbol), Some(Value::Class(class)));
    }
    let symbol = vm.get_or_intern("core");
    assert_eq!(vm.heap.module(core).get(symbol), Some(Value::Module(core)));
}

#[test]
fn lookup_walks_the_superclass_chain() {
    let mut vm = VM::new();
    let shape = vm.create_class("Shape", OBJECT_CLASS);
    let circle = vm.create_class("Circle", shape);
    assert_eq!(vm.heap.class(circle).superclass(), Some(shape));
    let circle_meta = vm.heap.class(circle).class();
    assert_eq!(vm.heap.class(circle_meta).superclass(), Some(vm.heap.class(shape).class()));
    assert_eq!(vm.heap.class(circle_meta).name.as_str(), "Circle.class");
    let name = vm.get_or_intern("name");
    let found = vm.heap.lookup_method(circle, name);
    assert_eq!(found, vm.heap.class(OBJECT_CLASS).get_method(name));
    assert!(found.is_some());
    let area = vm.get_or_intern("area");
    assert_eq!(vm.heap.lookup_method(circle, area), None);
    let own = vm.heap.new_method(phalcom::method::MethodObject::primitive(
        area,
        phalcom::method::SignatureKind::Getter,
        phalcom::method::PrimitiveFn::ObjectName,
    ));
    vm.heap.add_method(shape, area, own);
    assert_eq!(vm.heap.lookup_method(circle, area), Some(own));
    assert_eq!(vm.heap.lookup_method(shape, area), Some(own));
    assert_eq!(vm.heap.lookup_method(OBJECT_CLASS, area), None);
    assert_eq!(vm.heap.method(own).holder, Some(shape));
    let overriding = vm.heap.new_method(phalcom::method::MethodObject::primitive(
        name,
        phalcom::method::SignatureKind::Getter,
        phalcom::method::PrimitiveFn::NumberName,
    ));
    vm.heap.add_method(circle, name, overriding);
    assert_eq!(vm.heap.lookup_method(circle, name), Some(overriding));
    assert_eq!(vm.heap.lookup_method(shape, name), found);
    let instance = vm.heap.new_instance(circle);
    assert_eq!(Value::Instance(instance).class(&vm), circle);
    assert_eq!(Value::Instance(instance).name(&vm).as_str(), "Circle");
    assert_eq!(Value::Instance(instance).lookup_method(&vm, area), Some(own));
    assert_eq!(Value::Class(circle).class(&vm), circle_meta);
    assert_eq!(Value::Class(circle).name(&vm).as_str(), "Circle");
    assert_eq!(Value::Method(own).name(&vm).as_str(), "area");
    assert_eq!(Value::Method(own).class(&vm), phalcom::heap::METHOD_CLASS);
    assert_eq!(Value::Module(0).name(&vm).as_str(), "core");
    assert!(vm.heap.contains(&Value::Instance(instance)));
    assert!(!vm.heap.contains(&Value::Instance(instance + 1)));
}

#[test]
fn modules_are_made_and_found_by_name() {
    let mut vm = VM::new();
    assert_eq!(vm.get_module_from_str("fresh"), None);
    assert_eq!(vm.get_module_from_str("core"), Some(vm.core_module));
    let known = vm.interner.len();
    assert_eq!(vm.get_module_from_str("fresh"), None);
    assert_eq!(vm.interner.len(), known);
    let made = vm.create_module_from_str("fresh", "let a = 1;").unwrap();
    assert_eq!(vm.get_module_from_str("fresh"), Some(made));
    assert_eq!(vm.heap.module(made).name.as_str(), "fresh");
    assert_eq!(vm.heap.module(made).source, Some("let a = 1;".to_string()));
    let again = vm.create_module_from_str("fresh", "").unwrap();
    assert_ne!(again, made);
    assert_eq!(vm.get_module_from_str("fresh"), Some(again));
}

#[test]
fn objects_print_with_the_names_of_their_classes() {
    let mut vm = VM::new();
    let shape = vm.create_class("Shape", OBJECT_CLASS);
    let instance = vm.heap.new_instance(shape);
    assert_eq!(vm.instance_to_string(instance).as_str(), "Instance of Shape");
    assert_eq!(vm.instance_to_debug_string(instance).as_str(), "<instance Shape>");
    assert_eq!(vm.make_name(shape, "area").as_str(), "Shape::area");
    let area = vm.get_or_intern("area");
    let loose = vm.heap.new_method(phalcom::method::MethodObject::primitive(
        area,
        phalcom::method::SignatureKind::Getter,
        phalcom::method::PrimitiveFn::ObjectName,
    ));
    assert_eq!(vm.method_name(loose).as_str(), "area");
    assert_eq!(vm.method_to_phalcom_string(loose).as_str(), "Unknown::area");
    vm.heap.add_method(shape, area, loose);
    assert_eq!(vm.method_to_phalcom_string(loose).as_str(), "Shape::area");
    assert_eq!(
        phalcom::heap::lookup_method_in_hierarchy(&vm.heap, shape, area),
        Some(loose)
    );
    assert_eq!(vm.display(&Value::Module(vm.core_module)), "<module core>");
    assert_eq!(vm.display(&Value::Class(shape)), "<class Shape>");
    assert_eq!(vm.display(&Value::Symbol(area)), "area");
    assert_eq!(vm.display(&Value::Symbol(Symbol(u32::MAX))), "?");
}

#[test]
fn a_created_class_and_its_metaclass_are_registered_by_name() {
    let mut vm = VM::new();
    let known = vm.interner.len();
    let registered = vm.classes.len();
    assert!(vm.has_room_for_class("Shape"));
    let shape = vm.create_class("Shape", OBJECT_CLASS);
    assert_eq!(vm.interner.len(), known + 2);
    assert_eq!(vm.classes.len(), registered + 2);
    let name = vm.interner.find("Shape").unwrap();
    let meta_name = vm.interner.find("Shape.class").unwrap();
    assert_eq!(name, Symbol(known as u32));
    assert_eq!(meta_name, Symbol(known as u32 + 1));
    assert_eq!(vm.get_class(name), Some(shape));
    assert_eq!(vm.get_class(meta_name), Some(shape - 1));
    assert_eq!(vm.heap.class(shape).class(), shape - 1);
    assert_eq!(vm.get_class(Symbol(known as u32 + 2)), None);

    let again = vm.try_create_class("Shape", shape).unwrap();
    assert_eq!(again, shape + 2);
    assert_eq!(vm.interner.len(), known + 2);
    assert_eq!(vm.classes.len(), registered + 2);
    assert_eq!(vm.get_class(name), Some(again));
    assert_eq!(vm.get_class(meta_name), Some(again - 1));
    assert_eq!(vm.heap.class(again).superclass(), Some(shape));
}

#[test]
fn a_fresh_runtime_holds_the_core_and_nothing_else() {
    let vm = VM::new();
    assert!(vm.interner.len() <= 52);
    assert_eq!(vm.modules.len(), 1);
    assert_eq!(vm.heap.modules.len(), 1);
    assert_eq!(vm.heap.methods.len(), 30);
    assert_eq!(vm.heap.instances.len(), 0);
    assert_eq!(vm.heap.closures.len(), 0);

    let core = vm.heap.module(vm.core_module);
    assert_eq!(core.globals.len(), 12);
    assert_eq!(core.name_to_slot.len(), 12);
    assert_eq!(core.source, None);
    let x = vm.interner.find("x");
    assert!(x.is_none() || core.get(x.unwrap()).is_none());

    assert_eq!(vm.classes.len(), 11);
    for (name, class) in [
        ("Object", OBJECT_CLASS),
        ("Class", phalcom::heap::CLASS_CLASS),
        ("Metaclass", METACLASS_CLASS),
        ("Number", NUMBER_CLASS),
        ("String", phalcom::heap::STRING_CLASS),
        ("Bool", phalcom::heap::BOOL_CLASS),
        ("Nil", phalcom::heap::NIL_CLASS),
        ("Method", phalcom::heap::METHOD_CLASS),
        ("Symbol", phalcom::heap::SYMBOL_CLASS),
        ("Module", phalcom::heap::MODULE_CLASS),
        ("System", phalcom::heap::SYSTEM_CLASS),
    ] {
        let symbol = vm.interner.find(name).unwrap();
        assert_eq!(vm.get_class(symbol), Some(class), "{}", name);
    }
    assert_eq!(vm.get_class(vm.interner.find("core").unwrap()), None);

    let selectors = |class: usize| -> Vec<String> {
        vm.heap.class(class).selectors().iter().map(|s| vm.symbol_string(*s)).collect()
    };
    assert_eq!(selectors(OBJECT_CLASS), vec!["name", "class", "class=(_)", "toString"]);
    assert_eq!(selectors(phalcom::heap::OBJECT_METACLASS), vec!["new()"]);
    assert_eq!(
        selectors(phalcom::heap::CLASS_CLASS),
        vec!["superclass", "superclass=(_)", "+(_)", "new()"]
    );
    assert_eq!(selectors(METACLASS_CLASS), Vec::<String>::new());
    assert_eq!(
        selectors(NUMBER_CLASS),
        vec!["+(_)", "-(_)", "*(_)", "/(_)", "%(_)", "name"]
    );
    assert_eq!(selectors(phalcom::heap::NUMBER_METACLASS), vec!["new()", "new(_)"]);
    assert_eq!(selectors(phalcom::heap::STRING_CLASS), vec!["+(_)", "repeat(_)", "hash"]);
    assert_eq!(selectors(phalcom::heap::STRING_METACLASS), vec!["new()", "new(_)"]);
    assert_eq!(selectors(phalcom::heap::BOOL_CLASS), Vec::<String>::new());
    assert_eq!(selectors(phalcom::heap::BOOL_METACLASS), vec!["new()", "new(_)"]);
    assert_eq!(selectors(phalcom::heap::NIL_CLASS), Vec::<String>::new());
    assert_eq!(selectors(phalcom::heap::NIL_METACLASS), vec!["new()"]);
    assert_eq!(selectors(phalcom::heap::SYMBOL_CLASS), vec!["toString"]);
    assert_eq!(selectors(phalcom::heap::SYMBOL_METACLASS), vec!["new(_)"]);
    assert_eq!(selectors(phalcom::heap::METHOD_CLASS), Vec::<String>::new());
    assert_eq!(selectors(phalcom::heap::METHOD_METACLASS), vec!["new(_)"]);
    assert_eq!(selectors(phalcom::heap::MODULE_CLASS), Vec::<String>::new());
    assert_eq!(selectors(phalcom::heap::SYSTEM_CLASS), Vec::<String>::new());
    assert_eq!(selectors(phalcom::heap::SYSTEM_METACLASS), vec!["print(_)", "new()"]);
}
