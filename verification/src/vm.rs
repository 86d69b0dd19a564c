//! The evaluator: a value stack, a stack of call frames, and the heap
//! they work on.

use std::collections::HashMap;
use vstd::prelude::*;
use crate::frame::{CallContext, CallFrame};
use crate::heap::{Heap, HeapView};
use crate::host::Pending;
use crate::interner::{is_interned, Interner, Symbol, MAX_SYMBOLS};
use crate::string::StringObject;
use crate::universe::{class_of, Universe};
use crate::value::{ClassId, Value};

verus! {

broadcast use vstd::std_specs::hash::group_hash_axioms;

/// The symbols of the selectors that the evaluator itself sends.
#[derive(Debug, Clone, Copy, PartialEq, Eq, Structural)]
pub struct Selectors {
    pub add: Symbol,
    pub sub: Symbol,
    pub mul: Symbol,
    pub div: Symbol,
    pub modulo: Symbol,
    pub lt: Symbol,
    pub le: Symbol,
    pub gt: Symbol,
    pub ge: Symbol,
}

/// True when `s` is the symbol of `text`.
pub open spec fn names(table: Seq<Seq<char>>, s: Symbol, text: Seq<char>) -> bool {
    s.0 < table.len() && table[s.0 as int] == text
}

impl Selectors {
    /// Each symbol is the symbol of its selector.
    pub open spec fn wf(self, table: Seq<Seq<char>>) -> bool {
        &&& names(table, self.add, "+(_)"@)
        &&& names(table, self.sub, "-(_)"@)
        &&& names(table, self.mul, "*(_)"@)
        &&& names(table, self.div, "/(_)"@)
        &&& names(table, self.modulo, "%(_)"@)
        &&& names(table, self.lt, "<(_)"@)
        &&& names(table, self.le, "<=(_)"@)
        &&& names(table, self.gt, ">(_)"@)
        &&& names(table, self.ge, ">=(_)"@)
    }
}

/// A runtime: the evaluator's stacks, the heap, the interner, and the
/// registries that find modules and classes by name.
pub struct VM {
    pub frames: Vec<CallFrame>,
    pub stack: Vec<Value>,
    pub modules: HashMap<u32, usize>,
    pub classes: HashMap<u32, usize>,
    pub interner: Interner,
    pub universe: Universe,
    pub heap: Heap,
    pub pending: Pending,
    pub selectors: Selectors,
    pub core_module: usize,
}

/// The text of a symbol; `?` for a symbol that was never issued.
pub open spec fn symbol_text(table: Seq<Seq<char>>, s: Symbol) -> Seq<char> {
    if s.0 < table.len() {
        table[s.0 as int]
    } else {
        "?"@
    }
}

/// The name that a value answers with: the name of its kind for a
/// primitive, of its class for an instance, its own for a class or a
/// module, and its selector for a method.
pub open spec fn name_text(heap: HeapView, table: Seq<Seq<char>>, v: Value) -> Seq<char> {
    match v {
        Value::Nil => "Nil"@,
        Value::Bool(_) => "Bool"@,
        Value::Number(_) => "Number"@,
        Value::String(_) => "String"@,
        Value::Symbol(_) => "Symbol"@,
        Value::Instance(i) => heap.classes[heap.instances[i as int].class as int].name@,
        Value::Class(c) => heap.classes[c as int].name@,
        Value::Method(m) => symbol_text(table, heap.methods[m as int].signature.selector),
        Value::Module(m) => heap.modules[m as int].name@,
    }
}

/// The name of the class that holds a method; `Unknown` for a method
/// that no class holds.
pub open spec fn holder_text(heap: HeapView, holder: Option<usize>) -> Seq<char> {
    match holder {
        Some(h) => heap.classes[h as int].name@,
        None => "Unknown"@,
    }
}

/// How a value prints. A number prints as the host writes it, which
/// this function does not say.
pub open spec fn display_text(heap: HeapView, table: Seq<Seq<char>>, v: Value) -> Seq<char> {
    match v {
        Value::Nil => "nil"@,
        Value::Bool(b) => if b {
            "true"@
        } else {
            "false"@
        },
        Value::Number(_) => Seq::<char>::empty(),
        Value::String(s) => s@,
        Value::Symbol(s) => symbol_text(table, s),
        Value::Instance(i) => "Instance of "@
            + heap.classes[heap.instances[i as int].class as int].name@,
        Value::Class(c) => "<class "@ + heap.classes[c as int].name@ + ">"@,
        Value::Method(m) => holder_text(heap, heap.methods[m as int].holder) + "::"@
            + symbol_text(table, heap.methods[m as int].signature.selector),
        Value::Module(m) => "<module "@ + heap.modules[m as int].name@ + ">"@,
    }
}

impl VM {
    /// The invariant of a runtime: heap, interner and universe are in
    /// order, every frame runs a closure that exists, and the registries
    /// lead to modules and classes that exist.
    pub open spec fn wf(&self) -> bool {
        &&& self.heap.wf()
        &&& self.interner.wf()
        &&& self.universe.wf()
        &&& self.selectors.wf(self.interner@)
        &&& self.core_module < self.heap.modules@.len()
        &&& (self.frames@.len() > 0 ==> self.frames@[0].stack_offset == 0)
        &&& forall|i: int|
            0 <= i < self.frames@.len() ==> (#[trigger] self.frames@[i]).closure
                < self.heap.closures@.len()
        &&& forall|k: u32| #[trigger]
            self.modules@.contains_key(k) ==> self.modules@[k] < self.heap.modules@.len()
        &&& forall|k: u32| #[trigger]
            self.classes@.contains_key(k) ==> self.classes@[k] < self.heap.classes@.len()
    }

    /// The name that a value answers with in this runtime.
    pub open spec fn name_of(&self, v: Value) -> Seq<char> {
        name_text(self.heap@, self.interner@, v)
    }

    /// The text of a symbol; `?` for a symbol that was never issued.
    pub fn symbol_string(&self, s: Symbol) -> (text: String)
        ensures
            text@ == symbol_text(self.interner@, s),
    {
        if (s.0 as usize) < self.interner.len() {
            self.interner.lookup(s).to_owned()
        } else {
            "?".to_owned()
        }
    }

    /// The symbol of `name`, interned if there is room for it.
    pub fn try_intern(&mut self, name: &str) -> (s: Option<Symbol>)
        requires
            old(self).wf(),
        ensures
            final(self).wf(),
            final(self).frames@ == old(self).frames@,
            final(self).stack@ == old(self).stack@,
            final(self).modules@ == old(self).modules@,
            final(self).classes@ == old(self).classes@,
            final(self).universe == old(self).universe,
            final(self).heap@ == old(self).heap@,
            final(self).pending@ == old(self).pending@,
            final(self).selectors == old(self).selectors,
            final(self).core_module == old(self).core_module,
            forall|i: int|
                0 <= i < old(self).interner@.len() ==> final(self).interner@[i] == old(self).interner@[i],
            s is Some <==> is_interned(old(self).interner@, name@) || old(self).interner@.len()
                < MAX_SYMBOLS,
            s is None ==> final(self).interner@ == old(self).interner@,
            s matches Some(id) ==> {
                &&& final(self).interner@ == crate::interner::table_after_intern(
                    old(self).interner@,
                    name@,
                )
                &&& id.0 == crate::interner::symbol_after_intern(old(self).interner@, name@)
                &&& id.0 < final(self).interner@.len()
                &&& final(self).interner@[id.0 as int] == name@
            },
    {
        self.interner.try_intern(name)
    }

    pub fn get_or_intern(&mut self, name: &str) -> (s: Symbol)
        requires
            old(self).wf(),
            is_interned(old(self).interner@, name@) || old(self).interner@.len() < MAX_SYMBOLS,
        ensures
            final(self).wf(),
            final(self).frames@ == old(self).frames@,
            final(self).stack@ == old(self).stack@,
            final(self).modules@ == old(self).modules@,
            final(self).classes@ == old(self).classes@,
            final(self).universe == old(self).universe,
            final(self).heap@ == old(self).heap@,
            final(self).pending@ == old(self).pending@,
            final(self).selectors == old(self).selectors,
            final(self).core_module == old(self).core_module,
            forall|i: int|
                0 <= i < old(self).interner@.len() ==> final(self).interner@[i] == old(self).interner@[i],
            final(self).interner@ == crate::interner::table_after_intern(
                old(self).interner@,
                name@,
            ),
            s.0 == crate::interner::symbol_after_intern(old(self).interner@, name@),
            s.0 < final(self).interner@.len(),
            final(self).interner@[s.0 as int] == name@,
    {
        self.interner.intern(name)
    }

    pub fn resolve_symbol(&self, symbol: Symbol) -> (name: &str)
        requires
            symbol.0 < self.interner@.len(),
        ensures
            name@ == self.interner@[symbol.0 as int],
    {
        self.interner.lookup(symbol)
    }
}

impl Value {
    /// The class of the value.
    pub fn class(&self, vm: &VM) -> (c: ClassId)
        requires
            vm.wf(),
            vm.heap.holds(*self),
        ensures
            c == class_of(vm.heap@, *self),
            c < vm.heap.classes@.len(),
    {
        match self {
            Value::Nil => vm.universe.classes.nil_class,
            Value::Bool(_) => vm.universe.classes.bool_class,
            Value::Number(_) => vm.universe.classes.number_class,
            Value::String(_) => vm.universe.classes.string_class,
            Value::Symbol(_) => vm.universe.classes.symbol_class,
            Value::Method(_) => vm.universe.classes.method_class,
            Value::Instance(i) => vm.heap.instance(*i).class(),
            Value::Class(c) => vm.heap.class(*c).class(),
            Value::Module(_) => vm.universe.classes.module_class,
        }
    }

    /// The name that the value answers with.
    pub fn name(&self, vm: &VM) -> (s: StringObject)
        requires
            vm.wf(),
            vm.heap.holds(*self),
        ensures
            s@ == vm.name_of(*self),
    {
        match self {
            Value::Nil => vm.universe.primitive_names.nil.clone(),
            Value::Bool(_) => vm.universe.primitive_names.bool_.clone(),
            Value::Number(_) => vm.universe.primitive_names.number.clone(),
            Value::String(_) => vm.universe.primitive_names.string.clone(),
            Value::Symbol(_) => vm.universe.primitive_names.symbol.clone(),
            Value::Instance(i) => {
                let class = vm.heap.instance(*i).class();
                vm.heap.class(class).name()
            },
            Value::Class(c) => vm.heap.class(*c).name(),
            Value::Method(m) => {
                let selector = vm.heap.method(*m).selector();
                StringObject::from_string(vm.symbol_string(selector))
            },
            Value::Module(m) => vm.heap.module(*m).name(),
        }
    }

    /// The name of the value's kind.
    pub fn name_str(&self, _vm: &VM) -> (s: &'static str)
        ensures
            s@ == match *self {
                Value::Nil => "Nil"@,
                Value::Bool(_) => "Bool"@,
                Value::Number(_) => "Number"@,
                Value::String(_) => "String"@,
                Value::Symbol(_) => "Symbol"@,
                Value::Instance(_) => "Instance"@,
                Value::Class(_) => "Class"@,
                Value::Method(_) => "Method"@,
                Value::Module(_) => "Module"@,
            },
    {
        match self {
            Value::Nil => "Nil",
            Value::Bool(_) => "Bool",
            Value::Number(_) => "Number",
            Value::String(_) => "String",
            Value::Symbol(_) => "Symbol",
            Value::Instance(_) => "Instance",
            Value::Class(_) => "Class",
            Value::Method(_) => "Method",
            Value::Module(_) => "Module",
        }
    }

    /// The method that a send of `selector` to the value runs: what a
    /// lookup from the value's class finds.
    pub fn lookup_method(&self, vm: &VM, selector: Symbol) -> (m: Option<usize>)
        requires
            vm.wf(),
            vm.heap.holds(*self),
        ensures
            m == crate::heap::lookup_spec(
                vm.heap.classes@,
                class_of(vm.heap@, *self),
                selector,
            ),
            m matches Some(id) ==> id < vm.heap.methods@.len(),
    {
        let class = self.class(vm);
        vm.heap.lookup_method(class, selector)
    }

    /// On what a call to the value runs: an instance or a class runs as
    /// itself, any other value in the module of the code that is called.
    pub fn to_context(&self, module: usize) -> (c: CallContext)
        ensures
            c == match *self {
                Value::Instance(i) => CallContext::Instance { instance: i },
                Value::Class(k) => CallContext::Class { class: k },
                _ => CallContext::Module { module },
            },
    {
        match self {
            Value::Instance(i) => CallContext::Instance { instance: *i },
            Value::Class(k) => CallContext::Class { class: *k },
            _ => CallContext::Module { module },
        }
    }
}

} // verus!
