//! Insertion-ordered tables from symbols to indices, kept by `indexmap`.

use vstd::prelude::*;
use indexmap::IndexMap;
use crate::interner::Symbol;

verus! {

/// `indexmap::IndexMap`, taken as it is: the library sees nothing inside
/// a value of it.
#[verifier::external_type_specification]
#[verifier::external_body]
#[verifier::reject_recursive_types(K)]
#[verifier::reject_recursive_types(V)]
#[verifier::reject_recursive_types(S)]
pub struct ExIndexMap<K, V, S>(IndexMap<K, V, S>);

/// The key-value pairs that a table holds.
pub uninterp spec fn table_entries(table: IndexMap<u32, usize>) -> Map<u32, usize>;

/// The keys of a table, in the order in which they came into it.
pub uninterp spec fn table_order(table: IndexMap<u32, usize>) -> Seq<u32>;

/// `IndexMap::new`: a table that holds no pair.
#[verifier::external_body]
fn table_new() -> (fresh: IndexMap<u32, usize>)
    ensures
        table_entries(fresh) == (Map::<u32, usize>::empty()),
        table_order(fresh) == Seq::<u32>::empty(),
{
    IndexMap::new()
}

/// `IndexMap::len`: the number of pairs, which is the number of keys.
#[verifier::external_body]
fn table_len(table: &IndexMap<u32, usize>) -> (n: usize)
    ensures
        n == table_order(*table).len(),
{
    table.len()
}

/// `IndexMap::get_index`: the pair at a place in the order of the keys,
/// if there are that many.
#[verifier::external_body]
fn table_get_index(table: &IndexMap<u32, usize>, index: usize) -> (pair: Option<(u32, usize)>)
    ensures
        pair == if index < table_order(*table).len() {
            Some(
                (
                    table_order(*table)[index as int],
                    table_entries(*table)[table_order(*table)[index as int]],
                ),
            )
        } else {
            None::<(u32, usize)>
        },
{
    table.get_index(index).map(|(key, value)| (*key, *value))
}

/// `IndexMap::insert`: afterwards `key` maps to `value` and every other
/// key maps to what it mapped to before. A key that was in the table
/// keeps its place in the order; a new key comes last. Returns the value
/// that `key` mapped to before, if it was a key.
#[verifier::external_body]
fn table_insert(table: &mut IndexMap<u32, usize>, key: u32, value: usize) -> (previous:
    Option<usize>)
    ensures
        table_entries(*final(table)) == table_entries(*old(table)).insert(key, value),
        table_order(*final(table)) == if table_entries(*old(table)).contains_key(key) {
            table_order(*old(table))
        } else {
            table_order(*old(table)).push(key)
        },
        previous == if table_entries(*old(table)).contains_key(key) {
            Some(table_entries(*old(table))[key])
        } else {
            None::<usize>
        },
{
    table.insert(key, value)
}

/// `IndexMap::get`: the value that `key` maps to, if it is a key.
#[verifier::external_body]
fn table_get(table: &IndexMap<u32, usize>, key: u32) -> (value: Option<usize>)
    ensures
        value == if table_entries(*table).contains_key(key) {
            Some(table_entries(*table)[key])
        } else {
            None::<usize>
        },
{
    table.get(&key).copied()
}

/// An insertion-ordered table from symbols to indices.
pub struct SymbolTable {
    entries: IndexMap<u32, usize>,
}

impl View for SymbolTable {
    type V = Map<Symbol, usize>;

    closed spec fn view(&self) -> Map<Symbol, usize> {
        Map::new(
            |s: Symbol| table_entries(self.entries).contains_key(s.0),
            |s: Symbol| table_entries(self.entries)[s.0],
        )
    }
}

impl SymbolTable {
    /// The keys, in the order in which they came into the table.
    pub closed spec fn order(&self) -> Seq<Symbol> {
        Seq::new(table_order(self.entries).len(), |i: int| Symbol(table_order(self.entries)[i]))
    }

    /// A table without entries.
    pub fn new() -> (table: Self)
        ensures
            table@ == Map::<Symbol, usize>::empty(),
            table.order() == Seq::<Symbol>::empty(),
    {
        let table = Self { entries: table_new() };
        proof {
            assert(table@ =~= Map::<Symbol, usize>::empty());
            assert(table.order() =~= Seq::<Symbol>::empty());
        }
        table
    }

    /// Binds `key` to `value`, in place of what it was bound to. A key
    /// that was bound keeps its place in the order; a new key comes last.
    pub fn insert(&mut self, key: Symbol, value: usize)
        ensures
            final(self)@ == old(self)@.insert(key, value),
            final(self).order() == if old(self)@.contains_key(key) {
                old(self).order()
            } else {
                old(self).order().push(key)
            },
    {
        let _ = table_insert(&mut self.entries, key.0, value);
        proof {
            assert(final(self)@ =~= old(self)@.insert(key, value));
            if old(self)@.contains_key(key) {
                assert(final(self).order() =~= old(self).order());
            } else {
                assert(final(self).order() =~= old(self).order().push(key));
            }
        }
    }

    /// The number of keys.
    pub fn len(&self) -> (n: usize)
        ensures
            n == self.order().len(),
    {
        table_len(&self.entries)
    }

    /// The keys, in the order in which they came into the table.
    pub fn keys(&self) -> (keys: Vec<Symbol>)
        ensures
            keys@ == self.order(),
    {
        let n = table_len(&self.entries);
        let mut keys: Vec<Symbol> = Vec::new();
        let mut i: usize = 0;
        while i < n
            invariant
                n == table_order(self.entries).len(),
                i <= n,
                keys@ == self.order().take(i as int),
            decreases n - i,
        {
            match table_get_index(&self.entries, i) {
                Some((key, _)) => {
                    keys.push(Symbol(key));
                    proof {
                        assert(keys@ =~= self.order().take(i + 1));
                    }
                },
                None => {},
            }
            i += 1;
        }
        proof {
            assert(self.order().take(n as int) =~= self.order());
        }
        keys
    }

    /// What `key` is bound to, if it is bound.
    pub fn get(&self, key: Symbol) -> (value: Option<usize>)
        ensures
            value == if self@.contains_key(key) {
                Some(self@[key])
            } else {
                None::<usize>
            },
    {
        table_get(&self.entries, key.0)
    }
}

} // verus!
