//! Modules: the top-level bindings of a program, held in numbered slots.

use std::collections::HashMap;
use vstd::prelude::*;
use crate::error::{PhError, PhResult, RuntimeError};
use crate::interner::Symbol;
use crate::string::StringObject;
use crate::text::concat3;
use crate::value::Value;

verus! {

broadcast use vstd::std_specs::hash::group_hash_axioms;

/// Hard limit on globals per module.
pub const MAX_GLOBALS: usize = 0x1_0000;

pub const CORE_MODULE_NAME: &'static str = "core";

pub const MAIN_MODULE_NAME: &'static str = "<main>";

/// A module: a name and the globals bound at its top level. Each bound
/// name owns one slot of `globals`, for good.
pub struct ModuleObject {
    pub name: StringObject,
    pub name_sym: Symbol,
    pub globals: Vec<Value>,
    pub name_to_slot: HashMap<u32, usize>,
    pub source: Option<String>,
}

/// The bindings of a module: the slots and the slot of each bound name.
pub struct Bindings {
    pub globals: Seq<Value>,
    pub slots: Map<Symbol, usize>,
}

impl Bindings {
    /// No more slots than the limit, every name has a slot that exists,
    /// and no two names share one.
    pub open spec fn wf(self) -> bool {
        &&& self.globals.len() <= MAX_GLOBALS
        &&& forall|k: Symbol| #[trigger]
            self.slots.contains_key(k) ==> self.slots[k] < self.globals.len()
        &&& forall|j: Symbol, k: Symbol|
            self.slots.contains_key(j) && self.slots.contains_key(k) && self.slots[j]
                == self.slots[k] ==> j == k
    }

    /// True when `name` can be declared: it is bound, or a slot is free.
    pub open spec fn can_declare(self, name: Symbol) -> bool {
        self.slots.contains_key(name) || self.globals.len() < MAX_GLOBALS
    }

    /// The slot that declaring `name` gives.
    pub open spec fn slot_for(self, name: Symbol) -> usize {
        if self.slots.contains_key(name) {
            self.slots[name]
        } else {
            self.globals.len() as usize
        }
    }

    /// The bindings after `name` was declared: unchanged where it was
    /// bound, else with a new last slot that holds `Nil`.
    pub open spec fn declare(self, name: Symbol) -> Bindings {
        if self.slots.contains_key(name) {
            self
        } else {
            Bindings {
                globals: self.globals.push(Value::Nil),
                slots: self.slots.insert(name, self.globals.len() as usize),
            }
        }
    }

    /// The bindings after `slot` was set to `value`.
    pub open spec fn set(self, slot: usize, value: Value) -> Bindings {
        Bindings { globals: self.globals.update(slot as int, value), slots: self.slots }
    }

    /// The bindings after `name` was defined as `value`.
    pub open spec fn define(self, name: Symbol, value: Value) -> Bindings {
        self.declare(name).set(self.slot_for(name), value)
    }

    /// What `name` is bound to.
    pub open spec fn get(self, name: Symbol) -> Option<Value> {
        if self.slots.contains_key(name) && self.slots[name] < self.globals.len() {
            Some(self.globals[self.slots[name] as int])
        } else {
            None
        }
    }
}

impl View for ModuleObject {
    type V = Bindings;

    open spec fn view(&self) -> Bindings {
        Bindings {
            globals: self.globals@,
            slots: Map::new(
                |s: Symbol| self.name_to_slot@.contains_key(s.0),
                |s: Symbol| self.name_to_slot@[s.0],
            ),
        }
    }
}

impl ModuleObject {
    pub open spec fn wf(&self) -> bool {
        self@.wf()
    }

    /// Creates an empty module.
    pub fn new(name: &str, name_sym: Symbol, source: Option<String>) -> (m: Self)
        ensures
            m.wf(),
            m.name@ == name@,
            m.name_sym == name_sym,
            m.source == source,
            m@.globals.len() == 0,
            m@.slots == Map::<Symbol, usize>::empty(),
    {
        let m = Self {
            name: StringObject::from_str(name),
            name_sym,
            globals: Vec::new(),
            name_to_slot: HashMap::new(),
            source,
        };
        proof {
            assert(m@.slots =~= Map::<Symbol, usize>::empty());
        }
        m
    }

    pub fn name(&self) -> (s: StringObject)
        ensures
            s == self.name,
    {
        self.name.clone()
    }

    /// Returns the symbol of the module's name.
    pub fn symbol(&self) -> (s: Symbol)
        ensures
            s == self.name_sym,
    {
        self.name_sym
    }

    /// How the module prints: its name between `<module ` and `>`.
    pub fn to_phalcom_string(&self) -> (s: StringObject)
        ensures
            s@ == "<module "@ + self.name@ + ">"@,
    {
        StringObject::from_string(concat3("<module ", self.name.as_str(), ">"))
    }

    /// The slot of a bound name.
    pub fn slot_of(&self, name: Symbol) -> (slot: Option<usize>)
        ensures
            slot == if self@.slots.contains_key(name) {
                Some(self@.slots[name])
            } else {
                None::<usize>
            },
    {
        match self.name_to_slot.get(&name.0) {
            Some(slot) => Some(*slot),
            None => None,
        }
    }

    /// Reserves a slot for a top-level variable (may already exist).
    ///
    /// The first declaration of a name appends a slot that holds `Nil`;
    /// it fails when the module already has `MAX_GLOBALS` slots.
    pub fn declare(&mut self, name: Symbol) -> (r: PhResult<usize>)
        requires
            old(self).wf(),
        ensures
            final(self).wf(),
            final(self).name == old(self).name,
            final(self).name_sym == old(self).name_sym,
            final(self).source == old(self).source,
            match r {
                Ok(slot) => old(self)@.can_declare(name) && slot == old(self)@.slot_for(name)
                    && final(self)@ == old(self)@.declare(name),
                Err(e) => !old(self)@.can_declare(name) && *final(self) == *old(self)
                    && e.is_message("Too many globals in module"@),
            },
    {
        if let Some(slot) = self.slot_of(name) {
            return Ok(slot);
        }
        let cur = self.globals.len();
        if cur >= MAX_GLOBALS {
            return Err(
                PhError::Runtime(RuntimeError::Message("Too many globals in module".to_owned())),
            );
        }
        self.name_to_slot.insert(name.0, cur);
        self.globals.push(Value::Nil);
        proof {
            assert(final(self)@.slots =~= old(self)@.slots.insert(name, cur));
            assert(final(self)@ == old(self)@.declare(name));
        }
        Ok(cur)
    }

    /// Same as `declare` but also initialises the slot immediately.
    pub fn define(&mut self, name: Symbol, value: Value) -> (r: PhResult<usize>)
        requires
            old(self).wf(),
        ensures
            final(self).wf(),
            final(self).name == old(self).name,
            final(self).name_sym == old(self).name_sym,
            final(self).source == old(self).source,
            match r {
                Ok(slot) => old(self)@.can_declare(name) && slot == old(self)@.slot_for(name)
                    && final(self)@ == old(self)@.define(name, value),
                Err(e) => !old(self)@.can_declare(name) && *final(self) == *old(self)
                    && e.is_message("Too many globals in module"@),
            },
    {
        match self.declare(name) {
            Ok(slot) => {
                self.globals[slot] = value;
                Ok(slot)
            },
            Err(e) => Err(e),
        }
    }

    /// `None` if the name does not exist yet.
    pub fn get(&self, name: Symbol) -> (v: Option<Value>)
        ensures
            v == self@.get(name),
    {
        match self.slot_of(name) {
            Some(slot) => self.get_by_slot(slot),
            None => None,
        }
    }

    /// The value in a slot; `None` if the slot does not exist.
    pub fn get_by_slot(&self, slot: usize) -> (v: Option<Value>)
        ensures
            v == if slot < self@.globals.len() {
                Some(self@.globals[slot as int])
            } else {
                None::<Value>
            },
    {
        if slot < self.globals.len() {
            Some(self.globals[slot].clone())
        } else {
            None
        }
    }

    /// Stores a value into a slot that exists.
    pub fn set_global(&mut self, slot: usize, value: Value) -> (r: PhResult<()>)
        requires
            old(self).wf(),
        ensures
            final(self).wf(),
            final(self).name == old(self).name,
            final(self).name_sym == old(self).name_sym,
            final(self).source == old(self).source,
            match r {
                Ok(_) => slot < old(self)@.globals.len() && final(self)@ == old(self)@.set(
                    slot,
                    value,
                ),
                Err(e) => slot >= old(self)@.globals.len() && *final(self) == *old(self)
                    && e.is_message("Global slot out of bounds"@),
            },
    {
        if slot >= self.globals.len() {
            return Err(
                PhError::Runtime(RuntimeError::Message("Global slot out of bounds".to_owned())),
            );
        }
        self.globals[slot] = value;
        proof {
            assert(final(self)@.slots =~= old(self)@.slots);
        }
        Ok(())
    }
}

/// Slot stability: a definition binds the name to the value, in a slot
/// that the name keeps through every later declaration or definition of
/// any name; a later definition of another name leaves the value alone,
/// and a redefinition of the name reuses its slot.
pub proof fn lemma_slot_stability(b: Bindings, name: Symbol, v0: Value, other: Symbol, v1: Value)
    requires
        b.wf(),
        b.can_declare(name),
    ensures
        b.define(name, v0).wf(),
        b.define(name, v0).slots.contains_key(name),
        b.define(name, v0).slots[name] == b.slot_for(name),
        b.define(name, v0).get(name) == Some(v0),
        b.define(name, v0).get(name) == Some(
            b.define(name, v0).globals[b.slot_for(name) as int],
        ),
        b.define(name, v0).define(other, v1).slots.contains_key(name),
        b.define(name, v0).define(other, v1).slots[name] == b.slot_for(name),
        b.define(name, v0).slot_for(name) == b.slot_for(name),
        other != name ==> b.define(name, v0).define(other, v1).get(name) == Some(v0),
        other == name ==> b.define(name, v0).define(other, v1).get(name) == Some(v1),
{
    let d = b.define(name, v0);
    assert(d.slots.contains_key(name));
    assert forall|k: Symbol| #[trigger] d.slots.contains_key(k) implies d.slots[k]
        < d.globals.len() by {
        if k != name {
            assert(b.slots.contains_key(k));
        }
    }
    assert forall|j: Symbol, k: Symbol|
        d.slots.contains_key(j) && d.slots.contains_key(k) && d.slots[j] == d.slots[k] implies j
        == k by {
        if j != name {
            assert(b.slots.contains_key(j));
        }
        if k != name {
            assert(b.slots.contains_key(k));
        }
    }
    let e = d.define(other, v1);
    if other != name {
        if d.slots.contains_key(other) {
            assert(d.slots[other] != d.slots[name]);
        }
    }
}

} // verus!
