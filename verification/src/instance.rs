//! Instances: a class and the fields set so far.

use vstd::prelude::*;
use crate::interner::Symbol;
use crate::table::SymbolTable;
use crate::value::{ClassId, Value};

verus! {

/// An instance of a class. Each field that was ever set has a slot of its
/// own, and the fields keep the order in which they were first set; a
/// field that was never set reads as `Nil`.
pub struct InstanceObject {
    pub class: ClassId,
    pub slots: SymbolTable,
    pub values: Vec<Value>,
}

impl InstanceObject {
    /// Every field has a slot that exists, and no two fields share one.
    pub open spec fn wf(&self) -> bool {
        &&& forall|k: Symbol| #[trigger]
            self.slots@.contains_key(k) ==> self.slots@[k] < self.values@.len()
        &&& forall|j: Symbol, k: Symbol|
            self.slots@.contains_key(j) && self.slots@.contains_key(k) && self.slots@[j]
                == self.slots@[k] ==> j == k
    }

    /// The fields that were set, with their values.
    pub open spec fn fields(&self) -> Map<Symbol, Value> {
        Map::new(
            |s: Symbol| self.slots@.contains_key(s),
            |s: Symbol| self.values@[self.slots@[s] as int],
        )
    }

    /// What a read of `name` gives.
    pub open spec fn field(&self, name: Symbol) -> Value {
        if self.fields().contains_key(name) {
            self.fields()[name]
        } else {
            Value::Nil
        }
    }

    /// An instance without fields.
    pub fn new(class: ClassId) -> (i: Self)
        ensures
            i.wf(),
            i.class == class,
            i.fields() == Map::<Symbol, Value>::empty(),
            i.slots.order() == Seq::<Symbol>::empty(),
    {
        let i = Self { class, slots: SymbolTable::new(), values: Vec::new() };
        proof {
            assert(i.fields() =~= Map::<Symbol, Value>::empty());
        }
        i
    }

    pub fn class(&self) -> (c: ClassId)
        ensures
            c == self.class,
    {
        self.class
    }

    /// True when the field was set.
    pub fn has_field(&self, name: Symbol) -> (r: bool)
        ensures
            r == self.fields().contains_key(name),
    {
        self.slots.get(name).is_some()
    }

    /// Reads a field; `Nil` where it was never set.
    pub fn get_field(&self, name: Symbol) -> (v: Value)
        requires
            self.wf(),
        ensures
            v == self.field(name),
    {
        match self.slots.get(name) {
            Some(slot) => self.values[slot].clone(),
            None => Value::Nil,
        }
    }

    /// Sets a field; the other fields keep their values.
    pub fn set_field(&mut self, name: Symbol, value: Value)
        requires
            old(self).wf(),
        ensures
            final(self).wf(),
            final(self).class == old(self).class,
            final(self).fields() == old(self).fields().insert(name, value),
            final(self).slots.order() == if old(self).fields().contains_key(name) {
                old(self).slots.order()
            } else {
                old(self).slots.order().push(name)
            },
    {
        match self.slots.get(name) {
            Some(slot) => {
                self.values[slot] = value;
            },
            None => {
                let slot = self.values.len();
                self.values.push(value);
                self.slots.insert(name, slot);
            },
        }
        proof {
            assert(final(self).fields() =~= old(self).fields().insert(name, value));
        }
    }
}

} // verus!
