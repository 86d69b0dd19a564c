//! The heap: every object of a runtime, each kind in an arena of its own.
//!
//! Objects refer to each other by index. An index is an identity: it is
//! given once, when the object is made, and objects are never removed.

use vstd::prelude::*;
use crate::class::ClassObject;
use crate::closure::ClosureObject;
use crate::instance::InstanceObject;
use crate::interner::Symbol;
use crate::method::{MethodKind, MethodObject};
use crate::error::PhResult;
use crate::module::{Bindings, ModuleObject};
use crate::text::concat2;
use crate::value::{ClassId, ClosureId, InstanceId, MethodId, ModuleId, Value};

verus! {

pub const OBJECT_CLASS: ClassId = 0;

pub const CLASS_CLASS: ClassId = 1;

pub const METACLASS_CLASS: ClassId = 2;

pub const OBJECT_METACLASS: ClassId = 3;

pub const NUMBER_METACLASS: ClassId = 4;

pub const NUMBER_CLASS: ClassId = 5;

pub const STRING_METACLASS: ClassId = 6;

pub const STRING_CLASS: ClassId = 7;

pub const NIL_METACLASS: ClassId = 8;

pub const NIL_CLASS: ClassId = 9;

pub const BOOL_METACLASS: ClassId = 10;

pub const BOOL_CLASS: ClassId = 11;

pub const METHOD_METACLASS: ClassId = 12;

pub const METHOD_CLASS: ClassId = 13;

pub const SYMBOL_METACLASS: ClassId = 14;

pub const SYMBOL_CLASS: ClassId = 15;

pub const MODULE_METACLASS: ClassId = 16;

pub const MODULE_CLASS: ClassId = 17;

pub const SYSTEM_METACLASS: ClassId = 18;

pub const SYSTEM_CLASS: ClassId = 19;

/// Number of classes that every heap starts with.
pub const CORE_CLASS_COUNT: usize = 20;

/// The objects of a runtime.
pub struct Heap {
    pub classes: Vec<ClassObject>,
    pub instances: Vec<InstanceObject>,
    pub methods: Vec<MethodObject>,
    pub closures: Vec<ClosureObject>,
    pub modules: Vec<ModuleObject>,
}

/// The objects of a heap, each arena as a sequence.
pub struct HeapView {
    pub classes: Seq<ClassObject>,
    pub instances: Seq<InstanceObject>,
    pub methods: Seq<MethodObject>,
    pub closures: Seq<ClosureObject>,
    pub modules: Seq<ModuleObject>,
}

impl View for Heap {
    type V = HeapView;

    open spec fn view(&self) -> HeapView {
        HeapView {
            classes: self.classes@,
            instances: self.instances@,
            methods: self.methods@,
            closures: self.closures@,
            modules: self.modules@,
        }
    }
}

impl HeapView {
    /// True when the value, if it refers to an object, refers to one that
    /// exists.
    pub open spec fn holds(self, v: Value) -> bool {
        match v {
            Value::Instance(i) => i < self.instances.len(),
            Value::Class(c) => c < self.classes.len(),
            Value::Method(m) => m < self.methods.len(),
            Value::Module(m) => m < self.modules.len(),
            _ => true,
        }
    }
}

/// True when following superclass links from `class` arrives at
/// `ancestor`; a class reaches itself.
pub open spec fn reaches(classes: Seq<ClassObject>, class: ClassId, ancestor: ClassId) -> bool
    decreases class,
{
    class == ancestor || match classes[class as int].superclass {
        Some(s) => s < class && reaches(classes, s, ancestor),
        None => false,
    }
}

/// The method that a lookup of `selector` finds when it starts at `class`:
/// the class's own method, else what its superclass finds; nothing where
/// the chain ends.
pub open spec fn lookup_spec(classes: Seq<ClassObject>, class: ClassId, selector: Symbol) -> Option<
    MethodId,
>
    decreases class,
{
    if classes[class as int].methods@.contains_key(selector) {
        Some(classes[class as int].methods@[selector])
    } else {
        match classes[class as int].superclass {
            Some(s) => if s < class {
                lookup_spec(classes, s, selector)
            } else {
                None
            },
            None => None,
        }
    }
}

/// A core class and its metaclass: the metaclass is an instance of
/// `Metaclass` and inherits from `Class`; the class is an instance of its
/// metaclass and inherits from `Object`.
pub open spec fn core_pair(classes: Seq<ClassObject>, meta: ClassId, class: ClassId) -> bool {
    &&& classes[meta as int].superclass == Some(CLASS_CLASS)
    &&& classes[meta as int].class == METACLASS_CLASS
    &&& classes[class as int].superclass == Some(OBJECT_CLASS)
    &&& classes[class as int].class == meta
}

/// The links of two heaps agree on every class up to `class`.
pub open spec fn same_links(a: Seq<ClassObject>, b: Seq<ClassObject>, class: ClassId) -> bool {
    forall|i: int| 0 <= i <= class ==> (#[trigger] a[i]).superclass == b[i].superclass
}

/// Whether a class reaches another depends only on the superclass links
/// of the classes made before it.
pub proof fn lemma_reaches_same_links(
    a: Seq<ClassObject>,
    b: Seq<ClassObject>,
    class: ClassId,
    ancestor: ClassId,
)
    requires
        same_links(a, b, class),
    ensures
        reaches(a, class, ancestor) == reaches(b, class, ancestor),
    decreases class,
{
    assert(a[class as int].superclass == b[class as int].superclass);
    if class != ancestor {
        match a[class as int].superclass {
            Some(s) => {
                if s < class {
                    lemma_reaches_same_links(a, b, s, ancestor);
                }
            },
            None => {},
        }
    }
}

/// What a lookup finds depends only on the links and the method tables
/// of the classes made before the class it starts at.
pub proof fn lemma_lookup_same_classes(
    a: Seq<ClassObject>,
    b: Seq<ClassObject>,
    class: ClassId,
    selector: Symbol,
)
    requires
        forall|i: int|
            0 <= i <= class ==> (#[trigger] a[i]).superclass == b[i].superclass && a[i].methods@
                == b[i].methods@,
    ensures
        lookup_spec(a, class, selector) == lookup_spec(b, class, selector),
    decreases class,
{
    assert(a[class as int].superclass == b[class as int].superclass);
    if !a[class as int].methods@.contains_key(selector) {
        match a[class as int].superclass {
            Some(s) => {
                if s < class {
                    lemma_lookup_same_classes(a, b, s, selector);
                }
            },
            None => {},
        }
    }
}

impl Heap {
    /// The class tower: every class has a class; every class but the root
    /// has a superclass, made before it; the class of the class of any
    /// class is `Metaclass`; and a metaclass inherits from `Class`.
    pub open spec fn towered(&self) -> bool {
        let classes = self.classes@;
        &&& classes.len() >= CORE_CLASS_COUNT
        &&& forall|c: int| 0 <= c < classes.len() ==> (#[trigger] classes[c]).class < classes.len()
        &&& forall|c: int|
            0 <= c < classes.len() ==> match (#[trigger] classes[c]).superclass {
                Some(s) => s < c,
                None => c == OBJECT_CLASS,
            }
        &&& forall|c: int|
            0 <= c < classes.len() ==> classes[(#[trigger] classes[c]).class as int].class
                == METACLASS_CLASS
        &&& forall|c: int|
            0 <= c < classes.len() && (#[trigger] classes[c]).class == METACLASS_CLASS ==> reaches(
                classes,
                c as usize,
                CLASS_CLASS,
            )
        &&& classes[OBJECT_CLASS as int].superclass is None
        &&& classes[OBJECT_CLASS as int].class == OBJECT_METACLASS
        &&& classes[CLASS_CLASS as int].superclass == Some(OBJECT_CLASS)
        &&& classes[CLASS_CLASS as int].class == METACLASS_CLASS
        &&& classes[METACLASS_CLASS as int].superclass == Some(CLASS_CLASS)
        &&& classes[METACLASS_CLASS as int].class == METACLASS_CLASS
        &&& classes[OBJECT_METACLASS as int].superclass == Some(CLASS_CLASS)
        &&& core_pair(classes, NUMBER_METACLASS, NUMBER_CLASS)
        &&& core_pair(classes, STRING_METACLASS, STRING_CLASS)
        &&& core_pair(classes, NIL_METACLASS, NIL_CLASS)
        &&& core_pair(classes, BOOL_METACLASS, BOOL_CLASS)
        &&& core_pair(classes, METHOD_METACLASS, METHOD_CLASS)
        &&& core_pair(classes, SYMBOL_METACLASS, SYMBOL_CLASS)
        &&& core_pair(classes, MODULE_METACLASS, MODULE_CLASS)
        &&& core_pair(classes, SYSTEM_METACLASS, SYSTEM_CLASS)
    }

    /// The core classes carry their names.
    pub open spec fn core_named(&self) -> bool {
        let classes = self.classes@;
        &&& classes.len() >= CORE_CLASS_COUNT
        &&& classes[OBJECT_CLASS as int].name@ == "Object"@
        &&& classes[CLASS_CLASS as int].name@ == "Class"@
        &&& classes[METACLASS_CLASS as int].name@ == "Metaclass"@
        &&& classes[OBJECT_METACLASS as int].name@ == "Object.class"@
        &&& classes[NUMBER_METACLASS as int].name@ == "Number.class"@
        &&& classes[NUMBER_CLASS as int].name@ == "Number"@
        &&& classes[STRING_METACLASS as int].name@ == "String.class"@
        &&& classes[STRING_CLASS as int].name@ == "String"@
        &&& classes[NIL_METACLASS as int].name@ == "Nil.class"@
        &&& classes[NIL_CLASS as int].name@ == "Nil"@
        &&& classes[BOOL_METACLASS as int].name@ == "Bool.class"@
        &&& classes[BOOL_CLASS as int].name@ == "Bool"@
        &&& classes[METHOD_METACLASS as int].name@ == "Method.class"@
        &&& classes[METHOD_CLASS as int].name@ == "Method"@
        &&& classes[SYMBOL_METACLASS as int].name@ == "Symbol.class"@
        &&& classes[SYMBOL_CLASS as int].name@ == "Symbol"@
        &&& classes[MODULE_METACLASS as int].name@ == "Module.class"@
        &&& classes[MODULE_CLASS as int].name@ == "Module"@
        &&& classes[SYSTEM_METACLASS as int].name@ == "System.class"@
        &&& classes[SYSTEM_CLASS as int].name@ == "System"@
    }

    /// Every reference that an object of the heap holds to another leads
    /// to an object that exists, and every instance and module is in order.
    pub open spec fn linked(&self) -> bool {
        &&& forall|i: int|
            0 <= i < self.instances@.len() ==> (#[trigger] self.instances@[i]).class
                < self.classes@.len() && self.instances@[i].wf()
        &&& forall|m: int|
            0 <= m < self.methods@.len() ==> {
                &&& (#[trigger] self.methods@[m]).kind matches MethodKind::Closure(c) ==> c
                    < self.closures@.len()
                &&& self.methods@[m].holder matches Some(h) ==> h < self.classes@.len()
            }
        &&& forall|c: int, s: Symbol|
            0 <= c < self.classes@.len() && (#[trigger] self.classes@[c].methods@.contains_key(s))
                ==> self.classes@[c].methods@[s] < self.methods@.len()
        &&& forall|k: int|
            0 <= k < self.closures@.len() ==> (#[trigger] self.closures@[k]).module
                < self.modules@.len()
        &&& forall|m: int| 0 <= m < self.modules@.len() ==> (#[trigger] self.modules@[m]).wf()
    }

    /// The invariant of a heap.
    pub open spec fn wf(&self) -> bool {
        self.towered() && self.core_named() && self.linked()
    }

    /// Every class has a name that is not empty.
    pub open spec fn all_named(&self) -> bool {
        forall|c: int| 0 <= c < self.classes@.len() ==> (#[trigger] self.classes@[c]).name@.len() > 0
    }

    /// True when the value, if it refers to an object, refers to one that
    /// exists.
    pub open spec fn holds(&self, v: Value) -> bool {
        self@.holds(v)
    }

    /// In a well-formed heap the superclass chain of every class arrives
    /// at `Object`.
    pub proof fn lemma_reaches_object(&self, class: ClassId)
        requires
            self.towered(),
            class < self.classes@.len(),
        ensures
            reaches(self.classes@, class, OBJECT_CLASS),
        decreases class,
    {
        if class != OBJECT_CLASS {
            let s = self.classes@[class as int].superclass->0;
            self.lemma_reaches_object(s);
        }
    }

    /// The class of the class of any class is `Metaclass`, which is its
    /// own class; and the class of any class inherits from `Class`.
    pub proof fn lemma_class_of_class(&self, class: ClassId)
        requires
            self.towered(),
            class < self.classes@.len(),
        ensures
            self.classes@[class as int].class < self.classes@.len(),
            self.classes@[self.classes@[class as int].class as int].class == METACLASS_CLASS,
            self.classes@[METACLASS_CLASS as int].class == METACLASS_CLASS,
            reaches(self.classes@, self.classes@[class as int].class, CLASS_CLASS),
    {
        let meta = self.classes@[class as int].class;
        assert(self.classes@[meta as int].class == METACLASS_CLASS);
    }

    /// True when the value refers to an object that exists.
    pub fn contains(&self, v: &Value) -> (r: bool)
        ensures
            r == self.holds(*v),
    {
        match v {
            Value::Instance(i) => *i < self.instances.len(),
            Value::Class(c) => *c < self.classes.len(),
            Value::Method(m) => *m < self.methods.len(),
            Value::Module(m) => *m < self.modules.len(),
            _ => true,
        }
    }

    pub fn class(&self, id: ClassId) -> (c: &ClassObject)
        requires
            id < self.classes@.len(),
        ensures
            *c == self.classes@[id as int],
    {
        &self.classes[id]
    }

    pub fn instance(&self, id: InstanceId) -> (i: &InstanceObject)
        requires
            id < self.instances@.len(),
        ensures
            *i == self.instances@[id as int],
    {
        &self.instances[id]
    }

    pub fn method(&self, id: MethodId) -> (m: &MethodObject)
        requires
            id < self.methods@.len(),
        ensures
            *m == self.methods@[id as int],
    {
        &self.methods[id]
    }

    pub fn closure(&self, id: ClosureId) -> (c: &ClosureObject)
        requires
            id < self.closures@.len(),
        ensures
            *c == self.closures@[id as int],
    {
        &self.closures[id]
    }

    pub fn module(&self, id: ModuleId) -> (m: &ModuleObject)
        requires
            id < self.modules@.len(),
        ensures
            *m == self.modules@[id as int],
    {
        &self.modules[id]
    }

    /// The core method lookup logic with superclass traversal: the
    /// class's own table first, then the superclass chain.
    pub fn lookup_method(&self, class: ClassId, selector: Symbol) -> (found: Option<MethodId>)
        requires
            self.wf(),
            class < self.classes@.len(),
        ensures
            found == lookup_spec(self.classes@, class, selector),
            found matches Some(m) ==> m < self.methods@.len(),
    {
        let mut current = class;
        loop
            invariant
                self.wf(),
                current < self.classes@.len(),
                lookup_spec(self.classes@, class, selector) == lookup_spec(
                    self.classes@,
                    current,
                    selector,
                ),
            decreases current,
        {
            let c = &self.classes[current];
            if let Some(m) = c.get_method(selector) {
                return Some(m);
            }
            match c.superclass {
                Some(next) => {
                    current = next;
                },
                None => {
                    return None;
                },
            }
        }
    }
}

} // verus!

verus! {

impl Heap {
    /// Adds a method to the heap.
    pub fn new_method(&mut self, method: MethodObject) -> (id: MethodId)
        requires
            old(self).wf(),
            method.kind matches MethodKind::Closure(c) ==> c < old(self).closures@.len(),
            method.holder matches Some(h) ==> h < old(self).classes@.len(),
        ensures
            final(self).wf(),
            id == old(self).methods@.len(),
            final(self).methods@ == old(self).methods@.push(method),
            final(self).classes@ == old(self).classes@,
            final(self).instances@ == old(self).instances@,
            final(self).closures@ == old(self).closures@,
            final(self).modules@ == old(self).modules@,
    {
        let id = self.methods.len();
        self.methods.push(method);
        id
    }

    /// Adds a closure to the heap.
    pub fn new_closure(&mut self, closure: ClosureObject) -> (id: ClosureId)
        requires
            old(self).wf(),
            closure.module < old(self).modules@.len(),
        ensures
            final(self).wf(),
            id == old(self).closures@.len(),
            final(self).closures@ == old(self).closures@.push(closure),
            final(self).classes@ == old(self).classes@,
            final(self).instances@ == old(self).instances@,
            final(self).methods@ == old(self).methods@,
            final(self).modules@ == old(self).modules@,
    {
        let id = self.closures.len();
        self.closures.push(closure);
        id
    }

    /// Adds a module to the heap.
    pub fn new_module(&mut self, module: ModuleObject) -> (id: ModuleId)
        requires
            old(self).wf(),
            module.wf(),
        ensures
            final(self).wf(),
            id == old(self).modules@.len(),
            final(self).modules@ == old(self).modules@.push(module),
            final(self).classes@ == old(self).classes@,
            final(self).instances@ == old(self).instances@,
            final(self).methods@ == old(self).methods@,
            final(self).closures@ == old(self).closures@,
    {
        let id = self.modules.len();
        self.modules.push(module);
        id
    }

    /// Makes an instance of `class`, without fields.
    pub fn new_instance(&mut self, class: ClassId) -> (id: InstanceId)
        requires
            old(self).wf(),
            class < old(self).classes@.len(),
        ensures
            final(self).wf(),
            id == old(self).instances@.len(),
            final(self).instances@.len() == old(self).instances@.len() + 1,
            final(self).instances@[id as int].class == class,
            final(self).instances@[id as int].fields() == Map::<Symbol, Value>::empty(),
            forall|i: int|
                0 <= i < old(self).instances@.len() ==> final(self).instances@[i] == old(self).instances@[i],
            final(self).classes@ == old(self).classes@,
            final(self).methods@ == old(self).methods@,
            final(self).closures@ == old(self).closures@,
            final(self).modules@ == old(self).modules@,
    {
        let id = self.instances.len();
        self.instances.push(InstanceObject::new(class));
        id
    }

    /// Attaches a method to a class under a selector, in place of any
    /// method that the class held under it, and records the class as the
    /// method's holder.
    pub fn add_method(&mut self, class: ClassId, selector: Symbol, method: MethodId)
        requires
            old(self).wf(),
            class < old(self).classes@.len(),
            method < old(self).methods@.len(),
        ensures
            final(self).wf(),
            final(self).classes@.len() == old(self).classes@.len(),
            forall|c: int|
                0 <= c < old(self).classes@.len() ==> {
                    &&& (#[trigger] final(self).classes@[c]).name == old(self).classes@[c].name
                    &&& final(self).classes@[c].class == old(self).classes@[c].class
                    &&& final(self).classes@[c].superclass == old(self).classes@[c].superclass
                    &&& final(self).classes@[c].methods@ == if c == class {
                        old(self).classes@[c].methods@.insert(selector, method)
                    } else {
                        old(self).classes@[c].methods@
                    }
                },
            final(self).methods@ == old(self).methods@.update(
                method as int,
                MethodObject { holder: Some(class), ..old(self).methods@[method as int] },
            ),
            final(self).instances@ == old(self).instances@,
            final(self).closures@ == old(self).closures@,
            final(self).modules@ == old(self).modules@,
            method_attached(old(self)@, final(self)@, class, selector, method),
    {
        self.classes[class].add_method(selector, method);
        let mut m = self.methods[method];
        m.set_holder(class);
        self.methods[method] = m;
        proof {
            let a = old(self).classes@;
            let b = final(self).classes@;
            assert forall|c: int|
                0 <= c < b.len() && (#[trigger] b[c]).class == METACLASS_CLASS implies reaches(
                b,
                c as usize,
                CLASS_CLASS,
            ) by {
                assert(a[c].class == METACLASS_CLASS);
                assert forall|i: int| 0 <= i <= c implies (#[trigger] a[i]).superclass
                    == b[i].superclass by {
                    assert(b[i].superclass == a[i].superclass);
                }
                lemma_reaches_same_links(a, b, c as usize, CLASS_CLASS);
            }
            assert forall|c: int| 0 <= c < b.len() implies b[(#[trigger] b[c]).class as int].class
                == METACLASS_CLASS by {
                assert(a[a[c].class as int].class == METACLASS_CLASS);
                assert(b[a[c].class as int].class == a[a[c].class as int].class);
            }
            assert forall|c: int, s: Symbol|
                0 <= c < b.len() && (#[trigger] b[c].methods@.contains_key(s)) implies b[c].methods@[s]
                < final(self).methods@.len() by {
                if c == class && s == selector {
                } else {
                    assert(a[c].methods@.contains_key(s));
                }
            }
        }
    }

    /// Creates a class named `name` under `superclass`, together with its
    /// metaclass: the metaclass is named after the class with `.class`
    /// appended, is an instance of `Metaclass`, and inherits from the
    /// metaclass of `superclass`. Returns the class; its metaclass is the
    /// class made just before it.
    pub fn create_class(&mut self, name: &str, superclass: ClassId) -> (id: ClassId)
        requires
            old(self).wf(),
            superclass < old(self).classes@.len(),
        ensures
            final(self).wf(),
            final(self).classes@.len() == old(self).classes@.len() + 2,
            id == old(self).classes@.len() + 1,
            forall|c: int|
                0 <= c < old(self).classes@.len() ==> final(self).classes@[c] == old(self).classes@[c],
            final(self).classes@[id as int].name@ == name@,
            final(self).classes@[id as int].class == id - 1,
            final(self).classes@[id as int].superclass == Some(superclass),
            final(self).classes@[id as int].methods@ == Map::<Symbol, usize>::empty(),
            final(self).classes@[id - 1].name@ == name@ + ".class"@,
            final(self).classes@[id - 1].class == METACLASS_CLASS,
            final(self).classes@[id - 1].superclass == Some(
                old(self).classes@[superclass as int].class,
            ),
            final(self).classes@[id - 1].methods@ == Map::<Symbol, usize>::empty(),
            old(self).all_named() && name@.len() > 0 ==> final(self).all_named(),
            class_created(old(self)@, final(self)@, name@, superclass),
    {
        let meta_id = self.classes.len();
        let super_meta = self.classes[superclass].class;
        let meta_name = concat2(name, ".class");
        let metaclass = ClassObject::new(meta_name.as_str(), METACLASS_CLASS, Some(super_meta));
        self.classes.push(metaclass);
        let id = self.classes.len();
        let class = ClassObject::new(name, meta_id, Some(superclass));
        self.classes.push(class);
        proof {
            let a = old(self).classes@;
            let b = final(self).classes@;
            assert(a[super_meta as int].class == METACLASS_CLASS);
            assert forall|c: int|
                0 <= c < b.len() && (#[trigger] b[c]).class == METACLASS_CLASS implies reaches(
                b,
                c as usize,
                CLASS_CLASS,
            ) by {
                if c < a.len() {
                    assert(a[c].class == METACLASS_CLASS);
                    lemma_reaches_same_links(a, b, c as usize, CLASS_CLASS);
                } else if c == meta_id {
                    assert(a[superclass as int].class == super_meta);
                    assert(reaches(a, super_meta, CLASS_CLASS));
                    lemma_reaches_same_links(a, b, super_meta, CLASS_CLASS);
                }
            }
            assert forall|c: int| 0 <= c < b.len() implies b[(#[trigger] b[c]).class as int].class
                == METACLASS_CLASS by {
                if c < a.len() {
                    assert(a[a[c].class as int].class == METACLASS_CLASS);
                }
            }
            assert forall|c: int, s: Symbol|
                0 <= c < b.len() && (#[trigger] b[c].methods@.contains_key(s)) implies b[c].methods@[s]
                < final(self).methods@.len() by {
                if c < a.len() {
                    assert(a[c].methods@.contains_key(s));
                }
            }
            assert forall|i: int| 0 <= i < self.instances@.len() implies (
            #[trigger] self.instances@[i]).class < b.len() && self.instances@[i].wf() by {
                assert(old(self).instances@[i].class < a.len());
            }
            assert forall|m: int| 0 <= m < self.methods@.len() implies (
            #[trigger] self.methods@[m]).holder matches Some(h) ==> h < b.len() by {
                assert(old(self).methods@[m].holder matches Some(h) ==> h < a.len());
            }
        }
        id
    }

    /// Reads a field of an instance; `Nil` where it was never set.
    pub fn get_field(&self, instance: InstanceId, name: Symbol) -> (v: Value)
        requires
            self.wf(),
            instance < self.instances@.len(),
        ensures
            v == self.instances@[instance as int].field(name),
    {
        self.instances[instance].get_field(name)
    }

    /// Sets a field of an instance.
    pub fn set_field(&mut self, instance: InstanceId, name: Symbol, value: Value)
        requires
            old(self).wf(),
            instance < old(self).instances@.len(),
        ensures
            final(self).wf(),
            final(self).instances@.len() == old(self).instances@.len(),
            final(self).instances@[instance as int].class == old(self).instances@[instance as int].class,
            final(self).instances@[instance as int].fields() == old(self).instances@[instance as int].fields().insert(name, value),
            forall|i: int|
                0 <= i < old(self).instances@.len() && i != instance ==> final(self).instances@[i]
                    == old(self).instances@[i],
            final(self).classes@ == old(self).classes@,
            final(self).methods@ == old(self).methods@,
            final(self).closures@ == old(self).closures@,
            final(self).modules@ == old(self).modules@,
            field_set(old(self)@, final(self)@, instance, name, value),
    {
        self.instances[instance].set_field(name, value);
    }
}

} // verus!

verus! {

/// True when `after` is `before` but for the bindings of module `m`,
/// which are `bindings`.
pub open spec fn module_rebound(before: HeapView, after: HeapView, m: ModuleId, bindings: Bindings) -> bool {
    &&& after.classes == before.classes
    &&& after.instances == before.instances
    &&& after.methods == before.methods
    &&& after.closures == before.closures
    &&& after.modules.len() == before.modules.len()
    &&& forall|j: int|
        0 <= j < before.modules.len() && j != m ==> after.modules[j] == before.modules[j]
    &&& after.modules[m as int]@ == bindings
    &&& after.modules[m as int].name == before.modules[m as int].name
    &&& after.modules[m as int].name_sym == before.modules[m as int].name_sym
    &&& after.modules[m as int].source == before.modules[m as int].source
}

/// True when `after` is `before` but for field `name` of instance `i`,
/// which is `value`. A field that was set keeps its place among the
/// fields of the instance; a new one comes last.
pub open spec fn field_set(before: HeapView, after: HeapView, i: InstanceId, name: Symbol, value: Value) -> bool {
    &&& after.classes == before.classes
    &&& after.methods == before.methods
    &&& after.closures == before.closures
    &&& after.modules == before.modules
    &&& after.instances.len() == before.instances.len()
    &&& forall|j: int|
        0 <= j < before.instances.len() && j != i ==> after.instances[j]
            == before.instances[j]
    &&& after.instances[i as int].class == before.instances[i as int].class
    &&& after.instances[i as int].fields() == before.instances[i as int].fields().insert(
        name,
        value,
    )
    &&& after.instances[i as int].slots.order() == if before.instances[i as int].fields().contains_key(
        name,
    ) {
        before.instances[i as int].slots.order()
    } else {
        before.instances[i as int].slots.order().push(name)
    }
}

/// True when `after` is `before` with two more classes: a metaclass
/// named `name` followed by `.class`, an instance of `Metaclass` that
/// inherits from the metaclass of `superclass`; and after it a class
/// named `name`, an instance of that metaclass that inherits from
/// `superclass`. Neither has methods.
pub open spec fn class_created(before: HeapView, after: HeapView, name: Seq<char>, superclass: ClassId) -> bool {
    let meta = before.classes.len() as int;
    &&& after.instances == before.instances
    &&& after.methods == before.methods
    &&& after.closures == before.closures
    &&& after.modules == before.modules
    &&& after.classes.len() == before.classes.len() + 2
    &&& forall|c: int| 0 <= c < before.classes.len() ==> after.classes[c] == before.classes[c]
    &&& after.classes[meta].name@ == name + ".class"@
    &&& after.classes[meta].class == METACLASS_CLASS
    &&& after.classes[meta].superclass == Some(before.classes[superclass as int].class)
    &&& after.classes[meta].methods@ == Map::<Symbol, usize>::empty()
    &&& after.classes[meta].methods.order() == Seq::<Symbol>::empty()
    &&& after.classes[meta + 1].name@ == name
    &&& after.classes[meta + 1].class == meta
    &&& after.classes[meta + 1].superclass == Some(superclass)
    &&& after.classes[meta + 1].methods@ == Map::<Symbol, usize>::empty()
    &&& after.classes[meta + 1].methods.order() == Seq::<Symbol>::empty()
}

/// True when `after` is `before` but that class `target` holds `method`
/// under `selector`, and the method has `target` as its holder. A
/// selector that the class held keeps its place among the selectors of
/// the class; a new one comes last.
pub open spec fn method_attached(
    before: HeapView,
    after: HeapView,
    target: ClassId,
    selector: Symbol,
    method: MethodId,
) -> bool {
    &&& after.instances == before.instances
    &&& after.closures == before.closures
    &&& after.modules == before.modules
    &&& after.classes.len() == before.classes.len()
    &&& forall|c: int|
        0 <= c < before.classes.len() ==> {
            &&& (#[trigger] after.classes[c]).name == before.classes[c].name
            &&& after.classes[c].class == before.classes[c].class
            &&& after.classes[c].superclass == before.classes[c].superclass
            &&& after.classes[c].methods@ == if c == target {
                before.classes[c].methods@.insert(selector, method)
            } else {
                before.classes[c].methods@
            }
            &&& after.classes[c].methods.order() == if c == target
                && !before.classes[c].methods@.contains_key(selector) {
                before.classes[c].methods.order().push(selector)
            } else {
                before.classes[c].methods.order()
            }
        }
    &&& after.methods == before.methods.update(
        method as int,
        MethodObject { holder: Some(target), ..before.methods[method as int] },
    )
}

impl Heap {
    /// Defines a global of a module.
    pub fn define_global(&mut self, module: ModuleId, name: Symbol, value: Value) -> (r: PhResult<
        usize,
    >)
        requires
            old(self).wf(),
            module < old(self).modules@.len(),
        ensures
            final(self).wf(),
            match r {
                Ok(slot) => old(self).modules@[module as int]@.can_declare(name) && slot == old(self).modules@[module as int]@.slot_for(name) && module_rebound(
                    old(self)@,
                    final(self)@,
                    module,
                    old(self).modules@[module as int]@.define(name, value),
                ),
                Err(e) => !old(self).modules@[module as int]@.can_declare(name) && final(self)@
                    == old(self)@ && e.is_message("Too many globals in module"@),
            },
    {
        let r = self.modules[module].define(name, value);
        proof {
            if r is Err {
                assert(final(self).modules@ =~= old(self).modules@);
            }
        }
        r
    }

    /// Stores a value into a slot of a module.
    pub fn set_global(&mut self, module: ModuleId, slot: usize, value: Value) -> (r: PhResult<()>)
        requires
            old(self).wf(),
            module < old(self).modules@.len(),
        ensures
            final(self).wf(),
            match r {
                Ok(_) => slot < old(self).modules@[module as int]@.globals.len()
                    && module_rebound(
                    old(self)@,
                    final(self)@,
                    module,
                    old(self).modules@[module as int]@.set(slot, value),
                ),
                Err(e) => slot >= old(self).modules@[module as int]@.globals.len() && final(self)@ == old(self)@ && e.is_message("Global slot out of bounds"@),
            },
    {
        let r = self.modules[module].set_global(slot, value);
        proof {
            if r is Err {
                assert(final(self).modules@ =~= old(self).modules@);
            }
        }
        r
    }
}

} // verus!

verus! {

/// The core method lookup logic with superclass traversal: what a send
/// of `selector` to an instance of `class` runs.
pub fn lookup_method_in_hierarchy(heap: &Heap, class: ClassId, selector: Symbol) -> (found: Option<
    MethodId,
>)
    requires
        heap.wf(),
        class < heap.classes@.len(),
    ensures
        found == lookup_spec(heap.classes@, class, selector),
        found matches Some(m) ==> m < heap.methods@.len(),
{
    heap.lookup_method(class, selector)
}

} // verus!
