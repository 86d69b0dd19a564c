//! Modules and classes of a runtime, made and found by name.

use vstd::prelude::*;
use crate::error::{PhError, PhResult, RuntimeError};
use crate::heap::{class_created, module_rebound};
use crate::interner::{
    index_of, is_interned, symbol_after_intern, table_after_intern, Symbol, MAX_SYMBOLS,
};
use crate::module::ModuleObject;
use crate::text::concat2;
use crate::value::{ClassId, ModuleId, Value};
use crate::vm::VM;

verus! {

broadcast use vstd::std_specs::hash::group_hash_axioms;

/// True when the names of a class and of its metaclass can be interned:
/// each is in the table, or the table has room for it.
pub open spec fn room_for_class(table: Seq<Seq<char>>, name: Seq<char>) -> bool {
    let named = table_after_intern(table, name);
    &&& is_interned(table, name) || table.len() < MAX_SYMBOLS
    &&& is_interned(named, name + ".class"@) || named.len() < MAX_SYMBOLS
}

/// The name of a metaclass is not the name of its class, so it is in the
/// table with the name of the class if and only if it is in the table
/// without.
pub proof fn lemma_metaclass_name(table: Seq<Seq<char>>, name: Seq<char>)
    ensures
        name + ".class"@ != name,
        is_interned(table_after_intern(table, name), name + ".class"@) == is_interned(
            table,
            name + ".class"@,
        ),
{
    reveal_strlit(".class");
    let meta = name + ".class"@;
    assert(meta.len() == name.len() + 6);
    let named = table_after_intern(table, name);
    if is_interned(named, meta) {
        let i = index_of(named, meta);
        assert(named[i] == meta);
        assert(i < table.len());
        assert(table[i] == meta);
    }
    if is_interned(table, meta) {
        let i = index_of(table, meta);
        assert(named[i] == meta);
    }
}

impl VM {
    /// True when `post` is `self` with a class named `name` created under
    /// `superclass`, together with its metaclass, and both registered
    /// under their names: the names are interned, the class first, and
    /// the registry of classes maps the symbol of each name to its class.
    pub open spec fn class_added(&self, post: VM, name: Seq<char>, superclass: ClassId) -> bool {
        let named = table_after_intern(self.interner@, name);
        let class_sym = symbol_after_intern(self.interner@, name) as u32;
        let meta_sym = symbol_after_intern(named, name + ".class"@) as u32;
        let meta = self.heap@.classes.len();
        &&& class_created(self.heap@, post.heap@, name, superclass)
        &&& post.interner@ == table_after_intern(named, name + ".class"@)
        &&& post.classes@ == self.classes@.insert(class_sym, (meta + 1) as usize).insert(
            meta_sym,
            meta as usize,
        )
        &&& post.modules@ == self.modules@
        &&& post.universe == self.universe
        &&& post.selectors == self.selectors
        &&& post.core_module == self.core_module
    }

    /// The class registered under a symbol, if there is one.
    pub fn get_class(&self, class_sym: Symbol) -> (c: Option<ClassId>)
        requires
            self.wf(),
        ensures
            c == if self.classes@.contains_key(class_sym.0) {
                Some(self.classes@[class_sym.0])
            } else {
                None::<ClassId>
            },
            c matches Some(id) ==> id < self.heap@.classes.len(),
    {
        match self.classes.get(&class_sym.0) {
            Some(id) => Some(*id),
            None => None,
        }
    }

    /// True when the names of a class and of its metaclass can be
    /// interned.
    pub fn has_room_for_class(&self, name: &str) -> (r: bool)
        requires
            self.wf(),
        ensures
            r == room_for_class(self.interner@, name@),
    {
        let meta_name = concat2(name, ".class");
        let len = self.interner.len();
        let named = self.interner.find(name).is_some();
        let meta_named = self.interner.find(meta_name.as_str()).is_some();
        proof {
            lemma_metaclass_name(self.interner@, name@);
        }
        if !named && len >= MAX_SYMBOLS {
            false
        } else if meta_named {
            true
        } else if named {
            len < MAX_SYMBOLS
        } else {
            len + 1 < MAX_SYMBOLS
        }
    }

    /// True when `post` is `self` with one more module, which is empty,
    /// carries the given name, and is registered under `symbol`.
    pub open spec fn module_added(&self, post: VM, symbol: Symbol, name: Seq<char>) -> bool {
        let id = self.heap@.modules.len() as int;
        &&& post.frames@ == self.frames@
        &&& post.stack@ == self.stack@
        &&& post.universe == self.universe
        &&& post.selectors == self.selectors
        &&& post.core_module == self.core_module
        &&& post.pending@ == self.pending@
        &&& post.heap@.classes == self.heap@.classes
        &&& post.heap@.instances == self.heap@.instances
        &&& post.heap@.methods == self.heap@.methods
        &&& post.heap@.closures == self.heap@.closures
        &&& post.heap@.modules.len() == id + 1
        &&& forall|m: int| 0 <= m < id ==> post.heap@.modules[m] == self.heap@.modules[m]
        &&& post.heap@.modules[id].name@ == name
        &&& post.heap@.modules[id].name_sym == symbol
        &&& post.heap@.modules[id]@.globals.len() == 0
        &&& post.heap@.modules[id]@.slots == Map::<Symbol, usize>::empty()
        &&& post.modules@ == self.modules@.insert(symbol.0, id as usize)
        &&& post.classes@ == self.classes@
    }

    /// Returns the module for a given symbol.
    pub fn get_module(&self, module_sym: Symbol) -> (m: Option<ModuleId>)
        requires
            self.wf(),
        ensures
            m == if self.modules@.contains_key(module_sym.0) {
                Some(self.modules@[module_sym.0])
            } else {
                None::<ModuleId>
            },
            m matches Some(id) ==> id < self.heap@.modules.len(),
    {
        match self.modules.get(&module_sym.0) {
            Some(id) => Some(*id),
            None => None,
        }
    }

    /// Creates an empty module named by the symbol, with the given source
    /// text, and registers it under the symbol.
    pub fn create_module(&mut self, module_sym: Symbol, source: &str) -> (id: ModuleId)
        requires
            old(self).wf(),
            module_sym.0 < old(self).interner@.len(),
        ensures
            final(self).wf(),
            id == old(self).heap@.modules.len(),
            final(self).interner@ == old(self).interner@,
            final(self).heap@.modules[id as int].source matches Some(s) && s@ == source@,
            old(self).module_added(*final(self), module_sym, old(self).interner@[module_sym.0 as int]),
    {
        let name = self.interner.lookup(module_sym).to_owned();
        let module = ModuleObject::new(name.as_str(), module_sym, Some(source.to_owned()));
        let id = self.heap.new_module(module);
        let _ = self.modules.insert(module_sym.0, id);
        id
    }

    /// Returns the module registered under a name, or creates an empty
    /// one and registers it. Gives nothing where the name is new and the
    /// interner is full.
    pub fn module_from_str(&mut self, name: &str) -> (m: Option<ModuleId>)
        requires
            old(self).wf(),
        ensures
            final(self).wf(),
            m is Some <==> is_interned(old(self).interner@, name@) || old(self).interner@.len()
                < MAX_SYMBOLS,
            m is None ==> old(self).unchanged(*final(self)),
            m matches Some(id) ==> {
                let symbol = Symbol(symbol_after_intern(old(self).interner@, name@) as u32);
                &&& id < final(self).heap@.modules.len()
                &&& final(self).interner@ == table_after_intern(old(self).interner@, name@)
                &&& final(self).modules@.contains_key(symbol.0)
                &&& final(self).modules@[symbol.0] == id
                &&& if old(self).modules@.contains_key(symbol.0) {
                    &&& id == old(self).modules@[symbol.0]
                    &&& final(self).heap@ == old(self).heap@
                    &&& final(self).modules@ == old(self).modules@
                    &&& final(self).classes@ == old(self).classes@
                    &&& final(self).frames@ == old(self).frames@
                    &&& final(self).stack@ == old(self).stack@
                    &&& final(self).pending@ == old(self).pending@
                } else {
                    old(self).module_added(*final(self), symbol, name@)
                }
            },
    {
        let symbol = match self.try_intern(name) {
            Some(s) => s,
            None => {
                return None;
            },
        };
        if let Some(id) = self.get_module(symbol) {
            return Some(id);
        }
        let module = ModuleObject::new(name, symbol, None);
        let id = self.heap.new_module(module);
        let _ = self.modules.insert(symbol.0, id);
        Some(id)
    }

    /// Returns the module registered under a name, if there is one.
    pub fn get_module_from_str(&self, name: &str) -> (m: Option<ModuleId>)
        requires
            self.wf(),
        ensures
            m == if is_interned(self.interner@, name@) && self.modules@.contains_key(
                index_of(self.interner@, name@) as u32,
            ) {
                Some(self.modules@[index_of(self.interner@, name@) as u32])
            } else {
                None::<ModuleId>
            },
            m matches Some(id) ==> id < self.heap@.modules.len(),
    {
        proof {
            self.interner.lemma_wf_distinct();
        }
        match self.interner.find(name) {
            Some(symbol) => self.get_module(symbol),
            None => None,
        }
    }

    /// Creates an empty module of the given name and source text, and
    /// registers it under the name in place of any module registered
    /// before. Gives nothing where the name is new and the interner is
    /// full.
    pub fn create_module_from_str(&mut self, name: &str, source: &str) -> (m: Option<ModuleId>)
        requires
            old(self).wf(),
        ensures
            final(self).wf(),
            m is Some <==> is_interned(old(self).interner@, name@) || old(self).interner@.len()
                < MAX_SYMBOLS,
            m is None ==> old(self).unchanged(*final(self)),
            m matches Some(id) ==> {
                &&& id == old(self).heap@.modules.len()
                &&& final(self).interner@ == table_after_intern(old(self).interner@, name@)
                &&& final(self).heap@.modules[id as int].source matches Some(s) && s@ == source@
                &&& old(self).module_added(
                    *final(self),
                    Symbol(symbol_after_intern(old(self).interner@, name@) as u32),
                    name@,
                )
            },
    {
        match self.try_intern(name) {
            Some(symbol) => Some(self.create_module(symbol, source)),
            None => None,
        }
    }

    /// Creates an empty module named `<main>`, without a source text, and
    /// registers it under that name in place of any module registered
    /// before. Gives nothing where the name is new and the interner is
    /// full.
    pub fn create_module_from_stdin(&mut self) -> (m: Option<ModuleId>)
        requires
            old(self).wf(),
        ensures
            final(self).wf(),
            m is Some <==> is_interned(old(self).interner@, "<main>"@) || old(self).interner@.len()
                < MAX_SYMBOLS,
            m is None ==> old(self).unchanged(*final(self)),
            m matches Some(id) ==> {
                &&& id == old(self).heap@.modules.len()
                &&& final(self).interner@ == table_after_intern(old(self).interner@, "<main>"@)
                &&& final(self).heap@.modules[id as int].source is None
                &&& old(self).module_added(
                    *final(self),
                    Symbol(symbol_after_intern(old(self).interner@, "<main>"@) as u32),
                    "<main>"@,
                )
            },
    {
        match self.try_intern("<main>") {
            Some(symbol) => {
                let module = ModuleObject::new("<main>", symbol, None);
                let id = self.heap.new_module(module);
                let _ = self.modules.insert(symbol.0, id);
                Some(id)
            },
            None => None,
        }
    }

    /// Creates a class under a superclass, together with its metaclass,
    /// and registers both under their names.
    pub fn create_class(&mut self, name: &str, superclass: ClassId) -> (id: ClassId)
        requires
            old(self).wf(),
            superclass < old(self).heap@.classes.len(),
            room_for_class(old(self).interner@, name@),
        ensures
            final(self).wf(),
            id == old(self).heap@.classes.len() + 1,
            old(self).class_added(*final(self), name@, superclass),
            old(self).heap.all_named() && name@.len() > 0 ==> final(self).heap.all_named(),
            final(self).frames@ == old(self).frames@,
            final(self).stack@ == old(self).stack@,
            final(self).pending@ == old(self).pending@,
    {
        let meta_name = concat2(name, ".class");
        let class_sym = self.get_or_intern(name);
        let meta_sym = self.get_or_intern(meta_name.as_str());
        let id = self.heap.create_class(name, superclass);
        let _ = self.classes.insert(class_sym.0, id);
        let _ = self.classes.insert(meta_sym.0, id - 1);
        id
    }

    /// Creates a class as `create_class` does where the names of the
    /// class and of its metaclass can be interned; else gives nothing
    /// and changes nothing.
    pub fn try_create_class(&mut self, name: &str, superclass: ClassId) -> (r: Option<ClassId>)
        requires
            old(self).wf(),
            superclass < old(self).heap@.classes.len(),
        ensures
            final(self).wf(),
            r is Some <==> room_for_class(old(self).interner@, name@),
            r is None ==> old(self).unchanged(*final(self)),
            r matches Some(id) ==> {
                &&& id == old(self).heap@.classes.len() + 1
                &&& old(self).class_added(*final(self), name@, superclass)
                &&& final(self).frames@ == old(self).frames@
                &&& final(self).stack@ == old(self).stack@
                &&& final(self).pending@ == old(self).pending@
            },
            old(self).heap.all_named() && name@.len() > 0 ==> final(self).heap.all_named(),
    {
        if self.has_room_for_class(name) {
            Some(self.create_class(name, superclass))
        } else {
            None
        }
    }

    /// Defines a global of the module registered under a symbol. Fails
    /// where no module is registered under it, and where the module has
    /// no slot left for a new name.
    pub fn define_global(&mut self, module_sym: Symbol, name_sym: Symbol, val: Value) -> (r: PhResult<
        usize,
    >)
        requires
            old(self).wf(),
        ensures
            final(self).wf(),
            final(self).frames@ == old(self).frames@,
            final(self).stack@ == old(self).stack@,
            final(self).interner@ == old(self).interner@,
            final(self).modules@ == old(self).modules@,
            final(self).classes@ == old(self).classes@,
            final(self).pending@ == old(self).pending@,
            if !old(self).modules@.contains_key(module_sym.0) {
                final(self).heap@ == old(self).heap@ && (r matches Err(e) && e.is_message(
                    "No such module"@,
                ))
            } else {
                let m = old(self).modules@[module_sym.0];
                let bindings = old(self).heap@.modules[m as int]@;
                match r {
                    Ok(slot) => bindings.can_declare(name_sym) && slot == bindings.slot_for(
                        name_sym,
                    ) && module_rebound(
                        old(self).heap@,
                        final(self).heap@,
                        m,
                        bindings.define(name_sym, val),
                    ),
                    Err(e) => !bindings.can_declare(name_sym) && final(self).heap@ == old(self).heap@ && e.is_message("Too many globals in module"@),
                }
            },
    {
        match self.get_module(module_sym) {
            Some(m) => self.heap.define_global(m, name_sym, val),
            None => Err(PhError::Runtime(RuntimeError::Message("No such module".to_owned()))),
        }
    }
}

} // verus!
