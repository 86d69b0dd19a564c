//! The core classes every runtime starts with, and their names.

use vstd::prelude::*;
use crate::class::ClassObject;
use crate::heap::{
    reaches, Heap, HeapView, BOOL_CLASS, BOOL_METACLASS, CLASS_CLASS, CORE_CLASS_COUNT, METACLASS_CLASS,
    METHOD_CLASS, METHOD_METACLASS, MODULE_CLASS, MODULE_METACLASS, NIL_CLASS, NIL_METACLASS,
    NUMBER_CLASS, NUMBER_METACLASS, OBJECT_CLASS, OBJECT_METACLASS, STRING_CLASS,
    STRING_METACLASS, SYMBOL_CLASS, SYMBOL_METACLASS, SYSTEM_CLASS, SYSTEM_METACLASS,
};
use crate::string::StringObject;
use crate::value::{ClassId, Value};

verus! {

/// The core classes, by name.
#[derive(Debug, Clone, Copy, PartialEq, Eq, Structural)]
pub struct CoreClasses {
    pub object_class: ClassId,
    pub class_class: ClassId,
    pub metaclass_class: ClassId,
    pub number_class: ClassId,
    pub string_class: ClassId,
    pub nil_class: ClassId,
    pub bool_class: ClassId,
    pub method_class: ClassId,
    pub symbol_class: ClassId,
    pub module_class: ClassId,
    pub system_class: ClassId,
}

/// Names that primitives answer with.
pub struct PrimitiveNames {
    pub nil: StringObject,
    pub bool_: StringObject,
    pub true_: StringObject,
    pub false_: StringObject,
    pub number: StringObject,
    pub string: StringObject,
    pub symbol: StringObject,
    pub object: StringObject,
    pub method: StringObject,
    pub class: StringObject,
    pub metaclass: StringObject,
    pub system: StringObject,
}

/// What a runtime knows before any program runs.
pub struct Universe {
    pub classes: CoreClasses,
    pub primitive_names: PrimitiveNames,
}

impl CoreClasses {
    /// Where a bootstrapped heap holds the core classes.
    pub open spec fn standard() -> CoreClasses {
        CoreClasses {
            object_class: OBJECT_CLASS,
            class_class: CLASS_CLASS,
            metaclass_class: METACLASS_CLASS,
            number_class: NUMBER_CLASS,
            string_class: STRING_CLASS,
            nil_class: NIL_CLASS,
            bool_class: BOOL_CLASS,
            method_class: METHOD_CLASS,
            symbol_class: SYMBOL_CLASS,
            module_class: MODULE_CLASS,
            system_class: SYSTEM_CLASS,
        }
    }
}

impl PrimitiveNames {
    /// Each name is the text it stands for.
    pub open spec fn wf(&self) -> bool {
        &&& self.nil@ == "Nil"@
        &&& self.bool_@ == "Bool"@
        &&& self.true_@ == "true"@
        &&& self.false_@ == "false"@
        &&& self.number@ == "Number"@
        &&& self.string@ == "String"@
        &&& self.symbol@ == "Symbol"@
        &&& self.object@ == "Object"@
        &&& self.method@ == "Method"@
        &&& self.class@ == "Class"@
        &&& self.metaclass@ == "Metaclass"@
        &&& self.system@ == "System"@
    }

    /// The name of a truth value: `true` or `false`.
    pub fn bool_name(&self, b: bool) -> (s: StringObject)
        ensures
            s == if b {
                self.true_
            } else {
                self.false_
            },
    {
        if b {
            self.true_.clone()
        } else {
            self.false_.clone()
        }
    }
}

fn push_core_pair(classes: &mut Vec<ClassObject>, meta: ClassId, name: &str, meta_name: &str)
    requires
        old(classes)@.len() == meta,
    ensures
        final(classes)@.len() == meta + 2,
        forall|i: int| 0 <= i < meta ==> final(classes)@[i] == old(classes)@[i],
        final(classes)@[meta as int].name@ == meta_name@,
        final(classes)@[meta as int].class == METACLASS_CLASS,
        final(classes)@[meta as int].superclass == Some(CLASS_CLASS),
        final(classes)@[meta as int].methods@.dom() == Set::<crate::interner::Symbol>::empty(),
        final(classes)@[meta + 1].name@ == name@,
        final(classes)@[meta + 1].class == meta,
        final(classes)@[meta + 1].superclass == Some(OBJECT_CLASS),
        final(classes)@[meta + 1].methods@.dom() == Set::<crate::interner::Symbol>::empty(),
{
    classes.push(ClassObject::new(meta_name, METACLASS_CLASS, Some(CLASS_CLASS)));
    classes.push(ClassObject::new(name, meta, Some(OBJECT_CLASS)));
}

/// Builds the class tower: `Object`, `Class`, `Metaclass`, the metaclass
/// of `Object`, and each primitive class with its metaclass.
///
/// `Class` inherits from `Object` and `Metaclass` from `Class`; `Object`
/// is an instance of its metaclass, `Class` and every metaclass are
/// instances of `Metaclass`, and `Metaclass` is an instance of itself.
pub fn bootstrap() -> (heap: Heap)
    ensures
        heap.wf(),
        heap.all_named(),
        heap.classes@.len() == CORE_CLASS_COUNT,
        heap.instances@.len() == 0,
        heap.methods@.len() == 0,
        heap.closures@.len() == 0,
        heap.modules@.len() == 0,
        forall|c: int|
            0 <= c < CORE_CLASS_COUNT ==> (#[trigger] heap.classes@[c]).methods@.dom() == Set::<
                crate::interner::Symbol,
            >::empty(),
{
    let mut classes: Vec<ClassObject> = Vec::new();
    classes.push(ClassObject::new("Object", OBJECT_METACLASS, None));
    classes.push(ClassObject::new("Class", METACLASS_CLASS, Some(OBJECT_CLASS)));
    classes.push(ClassObject::new("Metaclass", METACLASS_CLASS, Some(CLASS_CLASS)));
    classes.push(ClassObject::new("Object.class", METACLASS_CLASS, Some(CLASS_CLASS)));
    push_core_pair(&mut classes, NUMBER_METACLASS, "Number", "Number.class");
    push_core_pair(&mut classes, STRING_METACLASS, "String", "String.class");
    push_core_pair(&mut classes, NIL_METACLASS, "Nil", "Nil.class");
    push_core_pair(&mut classes, BOOL_METACLASS, "Bool", "Bool.class");
    push_core_pair(&mut classes, METHOD_METACLASS, "Method", "Method.class");
    push_core_pair(&mut classes, SYMBOL_METACLASS, "Symbol", "Symbol.class");
    push_core_pair(&mut classes, MODULE_METACLASS, "Module", "Module.class");
    push_core_pair(&mut classes, SYSTEM_METACLASS, "System", "System.class");
    let heap = Heap {
        classes,
        instances: Vec::new(),
        methods: Vec::new(),
        closures: Vec::new(),
        modules: Vec::new(),
    };
    proof {
        let cs = heap.classes@;
        reveal_with_fuel(reaches, 3);
        lemma_core_names_not_empty();
        assert forall|c: int| 0 <= c < cs.len() implies (#[trigger] cs[c]).class < cs.len() && (
        match cs[c].superclass {
            Some(s) => s < c,
            None => c == OBJECT_CLASS,
        }) && cs[cs[c].class as int].class == METACLASS_CLASS && cs[c].name@.len() > 0 && (
        cs[c].class == METACLASS_CLASS ==> reaches(cs, c as usize, CLASS_CLASS))
            && cs[c].methods@.dom() == Set::<crate::interner::Symbol>::empty() by {
            if c == 0 {
            } else if c == 1 {
            } else if c == 2 {
            } else if c == 3 {
            } else if c == 4 {
            } else if c == 5 {
            } else if c == 6 {
            } else if c == 7 {
            } else if c == 8 {
            } else if c == 9 {
            } else if c == 10 {
            } else if c == 11 {
            } else if c == 12 {
            } else if c == 13 {
            } else if c == 14 {
            } else if c == 15 {
            } else if c == 16 {
            } else if c == 17 {
            } else if c == 18 {
            } else {
            }
        }
    }
    heap
}

/// The names of the core classes are not empty.
proof fn lemma_core_names_not_empty()
    ensures
        "Object"@.len() > 0,
        "Class"@.len() > 0,
        "Metaclass"@.len() > 0,
        "Object.class"@.len() > 0,
        "Number"@.len() > 0,
        "Number.class"@.len() > 0,
        "String"@.len() > 0,
        "String.class"@.len() > 0,
        "Nil"@.len() > 0,
        "Nil.class"@.len() > 0,
        "Bool"@.len() > 0,
        "Bool.class"@.len() > 0,
        "Method"@.len() > 0,
        "Method.class"@.len() > 0,
        "Symbol"@.len() > 0,
        "Symbol.class"@.len() > 0,
        "Module"@.len() > 0,
        "Module.class"@.len() > 0,
        "System"@.len() > 0,
        "System.class"@.len() > 0,
{
    reveal_strlit("Object");
    reveal_strlit("Class");
    reveal_strlit("Metaclass");
    reveal_strlit("Object.class");
    reveal_strlit("Number");
    reveal_strlit("Number.class");
    reveal_strlit("String");
    reveal_strlit("String.class");
    reveal_strlit("Nil");
    reveal_strlit("Nil.class");
    reveal_strlit("Bool");
    reveal_strlit("Bool.class");
    reveal_strlit("Method");
    reveal_strlit("Method.class");
    reveal_strlit("Symbol");
    reveal_strlit("Symbol.class");
    reveal_strlit("Module");
    reveal_strlit("Module.class");
    reveal_strlit("System");
    reveal_strlit("System.class");
}

impl Universe {
    /// The universe of a bootstrapped heap.
    pub open spec fn wf(&self) -> bool {
        self.classes == CoreClasses::standard() && self.primitive_names.wf()
    }

    pub fn new() -> (r: (Universe, Heap))
        ensures
            r.0.wf(),
            r.1.wf(),
            r.1.all_named(),
            r.1.classes@.len() == CORE_CLASS_COUNT,
            r.1.instances@.len() == 0,
            r.1.methods@.len() == 0,
            r.1.closures@.len() == 0,
            r.1.modules@.len() == 0,
            forall|c: int|
                0 <= c < CORE_CLASS_COUNT ==> (#[trigger] r.1.classes@[c]).methods@.dom() == Set::<
                    crate::interner::Symbol,
                >::empty(),
    {
        let (classes, heap) = Self::bootstrap_core_classes();
        let primitive_names = Self::create_primitive_names();
        (Universe { classes, primitive_names }, heap)
    }

    /// Bootstraps a heap and says where its core classes are.
    pub fn bootstrap_core_classes() -> (r: (CoreClasses, Heap))
        ensures
            r.0 == CoreClasses::standard(),
            r.1.wf(),
            r.1.all_named(),
            r.1.classes@.len() == CORE_CLASS_COUNT,
            r.1.instances@.len() == 0,
            r.1.methods@.len() == 0,
            r.1.closures@.len() == 0,
            r.1.modules@.len() == 0,
            forall|c: int|
                0 <= c < CORE_CLASS_COUNT ==> (#[trigger] r.1.classes@[c]).methods@.dom() == Set::<
                    crate::interner::Symbol,
                >::empty(),
    {
        let heap = bootstrap();
        let classes = CoreClasses {
            object_class: OBJECT_CLASS,
            class_class: CLASS_CLASS,
            metaclass_class: METACLASS_CLASS,
            number_class: NUMBER_CLASS,
            string_class: STRING_CLASS,
            nil_class: NIL_CLASS,
            bool_class: BOOL_CLASS,
            method_class: METHOD_CLASS,
            symbol_class: SYMBOL_CLASS,
            module_class: MODULE_CLASS,
            system_class: SYSTEM_CLASS,
        };
        (classes, heap)
    }

    pub fn create_primitive_names() -> (names: PrimitiveNames)
        ensures
            names.wf(),
    {
        PrimitiveNames {
            nil: StringObject::from_str("Nil"),
            bool_: StringObject::from_str("Bool"),
            true_: StringObject::from_str("true"),
            false_: StringObject::from_str("false"),
            number: StringObject::from_str("Number"),
            string: StringObject::from_str("String"),
            symbol: StringObject::from_str("Symbol"),
            object: StringObject::from_str("Object"),
            method: StringObject::from_str("Method"),
            class: StringObject::from_str("Class"),
            metaclass: StringObject::from_str("Metaclass"),
            system: StringObject::from_str("System"),
        }
    }
}

/// The class of a value: the core class of its kind for a primitive, a
/// method or a module; the class it was made from for an instance; the
/// metaclass for a class.
pub open spec fn class_of(heap: HeapView, v: Value) -> ClassId {
    match v {
        Value::Nil => NIL_CLASS,
        Value::Bool(_) => BOOL_CLASS,
        Value::Number(_) => NUMBER_CLASS,
        Value::String(_) => STRING_CLASS,
        Value::Symbol(_) => SYMBOL_CLASS,
        Value::Method(_) => METHOD_CLASS,
        Value::Module(_) => MODULE_CLASS,
        Value::Instance(i) => heap.instances[i as int].class,
        Value::Class(c) => heap.classes[c as int].class,
    }
}

/// The class of every value exists, and the class of a primitive carries
/// the name of its kind.
pub proof fn lemma_class_of_named(heap: &Heap, v: Value)
    requires
        heap.wf(),
        heap.holds(v),
    ensures
        class_of(heap@, v) < heap.classes@.len(),
        v is Nil ==> heap.classes@[class_of(heap@, v) as int].name@ == "Nil"@,
        v is Bool ==> heap.classes@[class_of(heap@, v) as int].name@ == "Bool"@,
        v is Number ==> heap.classes@[class_of(heap@, v) as int].name@ == "Number"@,
        v is String ==> heap.classes@[class_of(heap@, v) as int].name@ == "String"@,
        v is Symbol ==> heap.classes@[class_of(heap@, v) as int].name@ == "Symbol"@,
        v is Method ==> heap.classes@[class_of(heap@, v) as int].name@ == "Method"@,
        v is Module ==> heap.classes@[class_of(heap@, v) as int].name@ == "Module"@,
        heap.all_named() ==> heap.classes@[class_of(heap@, v) as int].name@.len() > 0,
{
}

/// The tower above a value: its class inherits from `Object`; the class
/// of its class is a metaclass, which inherits from `Class`; and the
/// class of that is `Metaclass`, the class of itself.
pub proof fn lemma_class_tower(heap: &Heap, v: Value)
    requires
        heap.wf(),
        heap.holds(v),
    ensures
        class_of(heap@, v) < heap.classes@.len(),
        reaches(heap.classes@, class_of(heap@, v), OBJECT_CLASS),
        reaches(heap.classes@, heap.classes@[class_of(heap@, v) as int].class, CLASS_CLASS),
        heap.classes@[heap.classes@[class_of(heap@, v) as int].class as int].class
            == METACLASS_CLASS,
        heap.classes@[METACLASS_CLASS as int].class == METACLASS_CLASS,
{
    let c = class_of(heap@, v);
    heap.lemma_reaches_object(c);
    heap.lemma_class_of_class(c);
}

} // verus!
