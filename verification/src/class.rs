//! Classes: a name, the class of the class, a superclass, and methods.

use vstd::prelude::*;
use crate::interner::Symbol;
use crate::string::StringObject;
use crate::table::SymbolTable;
use crate::text::concat3;
use crate::value::{ClassId, MethodId, Value};

verus! {

/// A class of the object model.
///
/// `class` refers to the class that this class is an instance of: its
/// metaclass, or for a metaclass the class of all metaclasses.
pub struct ClassObject {
    pub name: StringObject,
    pub class: ClassId,
    pub superclass: Option<ClassId>,
    pub methods: SymbolTable,
}

impl ClassObject {
    /// A class without methods.
    pub fn new(name: &str, class: ClassId, superclass: Option<ClassId>) -> (c: Self)
        ensures
            c.name@ == name@,
            c.class == class,
            c.superclass == superclass,
            c.methods@ == Map::<Symbol, MethodId>::empty(),
            c.methods.order() == Seq::<Symbol>::empty(),
    {
        Self { name: StringObject::from_str(name), class, superclass, methods: SymbolTable::new() }
    }

    pub fn name(&self) -> (s: StringObject)
        ensures
            s == self.name,
    {
        self.name.clone()
    }

    pub fn name_copy(&self) -> (s: String)
        ensures
            s@ == self.name@,
    {
        self.name.value()
    }

    pub fn class(&self) -> (c: ClassId)
        ensures
            c == self.class,
    {
        self.class
    }

    pub fn superclass(&self) -> (c: Option<ClassId>)
        ensures
            c == self.superclass,
    {
        self.superclass
    }

    /// The superclass as a value: `Nil` for a class without one.
    pub fn superclass_val(&self) -> (v: Value)
        ensures
            v == match self.superclass {
                Some(c) => Value::Class(c),
                None => Value::Nil,
            },
    {
        match self.superclass {
            Some(c) => Value::Class(c),
            None => Value::Nil,
        }
    }

    /// How the class prints: its name between `<class ` and `>`.
    pub fn to_string(&self) -> (s: StringObject)
        ensures
            s@ == "<class "@ + self.name@ + ">"@,
    {
        StringObject::from_string(concat3("<class ", self.name.as_str(), ">"))
    }

    /// Set the superclass of this class.
    pub fn set_superclass(&mut self, class: Option<ClassId>)
        ensures
            final(self).superclass == class,
            final(self).name == old(self).name,
            final(self).class == old(self).class,
            final(self).methods == old(self).methods,
    {
        self.superclass = class;
    }

    /// Set the class of this class.
    pub fn set_class(&mut self, class: ClassId)
        ensures
            final(self).class == class,
            final(self).name == old(self).name,
            final(self).superclass == old(self).superclass,
            final(self).methods == old(self).methods,
    {
        self.class = class;
    }

    /// The selectors of the class's own methods, in the order in which
    /// they were first added.
    pub fn selectors(&self) -> (all: Vec<Symbol>)
        ensures
            all@ == self.methods.order(),
    {
        self.methods.keys()
    }

    /// Binds `selector` to `method`, in place of any method it was bound
    /// to. A selector that was bound keeps its place among the selectors;
    /// a new one comes last.
    pub fn add_method(&mut self, selector: Symbol, method: MethodId)
        ensures
            final(self).methods@ == old(self).methods@.insert(selector, method),
            final(self).methods.order() == if old(self).methods@.contains_key(selector) {
                old(self).methods.order()
            } else {
                old(self).methods.order().push(selector)
            },
            final(self).name == old(self).name,
            final(self).class == old(self).class,
            final(self).superclass == old(self).superclass,
    {
        self.methods.insert(selector, method);
    }

    /// The class's own method for `selector`; superclasses are not asked.
    pub fn get_method(&self, selector: Symbol) -> (m: Option<MethodId>)
        ensures
            m == if self.methods@.contains_key(selector) {
                Some(self.methods@[selector])
            } else {
                None::<MethodId>
            },
    {
        self.methods.get(selector)
    }
}

} // verus!
