//! Interning of identifier-like strings into compact symbols.

use vstd::prelude::*;
use vstd::hash_map::StringHashMap;

verus! {

/// An interned string: the index under which the interner holds it.
#[derive(Debug, Clone, Copy, PartialEq, Eq, Hash, Structural)]
pub struct Symbol(pub u32);

/// Most strings an interner can hold: symbols are 32 bits wide.
pub const MAX_SYMBOLS: usize = 0xffff_ffff;

/// Largest capacity hint that is passed on to the allocator.
pub const MAX_CAPACITY_HINT: usize = 0x1_0000;

/// True when no string stands twice in the table.
pub open spec fn distinct(table: Seq<Seq<char>>) -> bool {
    forall|i: int, j: int|
        0 <= i < table.len() && 0 <= j < table.len() && table[i] == table[j] ==> i == j
}

/// True when `name` stands in the table.
pub open spec fn is_interned(table: Seq<Seq<char>>, name: Seq<char>) -> bool {
    exists|i: int| 0 <= i < table.len() && table[i] == name
}

/// The index of `name` in a table that holds it.
pub open spec fn index_of(table: Seq<Seq<char>>, name: Seq<char>) -> int {
    choose|i: int| 0 <= i < table.len() && table[i] == name
}

/// The table after `name` was interned: unchanged where it was there,
/// else with `name` appended.
pub open spec fn table_after_intern(table: Seq<Seq<char>>, name: Seq<char>) -> Seq<Seq<char>> {
    if is_interned(table, name) {
        table
    } else {
        table.push(name)
    }
}

/// The symbol that interning `name` gives: its index where it was there,
/// else the next free index.
pub open spec fn symbol_after_intern(table: Seq<Seq<char>>, name: Seq<char>) -> int {
    if is_interned(table, name) {
        index_of(table, name)
    } else {
        table.len() as int
    }
}

/// True when `name` can be interned: it is in the table, or the table
/// has room for it.
pub open spec fn can_intern(table: Seq<Seq<char>>, name: Seq<char>) -> bool {
    is_interned(table, name) || table.len() < MAX_SYMBOLS
}

/// The table after an attempt to intern `name`: unchanged where the name
/// cannot be interned.
pub open spec fn table_after_try(table: Seq<Seq<char>>, name: Seq<char>) -> Seq<Seq<char>> {
    if can_intern(table, name) {
        table_after_intern(table, name)
    } else {
        table
    }
}

/// The symbol that an attempt to intern `name` gives: none where the
/// name cannot be interned.
pub open spec fn symbol_after_try(table: Seq<Seq<char>>, name: Seq<char>) -> Option<int> {
    if can_intern(table, name) {
        Some(symbol_after_intern(table, name))
    } else {
        None
    }
}

/// A string interner: each distinct string gets one symbol, for good.
pub struct Interner {
    map: StringHashMap<u32>,
    vec: Vec<String>,
}

impl View for Interner {
    type V = Seq<Seq<char>>;

    /// The interned strings, by symbol.
    closed spec fn view(&self) -> Seq<Seq<char>> {
        Seq::new(self.vec@.len(), |i: int| self.vec@[i]@)
    }
}

impl Interner {
    /// The index and the list agree: each string of the list is a key that
    /// maps to its position, and each key is the string at its position.
    pub closed spec fn wf(&self) -> bool {
        &&& self.vec@.len() <= MAX_SYMBOLS
        &&& forall|i: int|
            0 <= i < self.vec@.len() ==> self.map@.contains_key(#[trigger] self.vec@[i]@)
                && self.map@[self.vec@[i]@] == i
        &&& forall|k: Seq<char>| #[trigger]
            self.map@.contains_key(k) ==> self.map@[k] < self.vec@.len()
                && self.vec@[self.map@[k] as int]@ == k
    }

    /// A well-formed interner holds no string twice, and fewer strings than
    /// there are symbols.
    pub proof fn lemma_wf_distinct(&self)
        requires
            self.wf(),
        ensures
            distinct(self@),
            self@.len() <= MAX_SYMBOLS,
    {
        assert forall|i: int, j: int|
            0 <= i < self@.len() && 0 <= j < self@.len() && self@[i] == self@[j] implies i == j by {
            assert(self.map@[self.vec@[i]@] == i);
            assert(self.map@[self.vec@[j]@] == j);
        }
    }

    /// Initialize the interner with an initial capacity.
    pub fn with_capacity(cap: usize) -> (interner: Self)
        ensures
            interner.wf(),
            interner@.len() == 0,
    {
        let hint = if cap > MAX_CAPACITY_HINT {
            MAX_CAPACITY_HINT
        } else {
            cap
        };
        Self { map: StringHashMap::new(), vec: Vec::with_capacity(hint) }
    }

    /// Number of strings interned so far.
    pub fn len(&self) -> (n: usize)
        ensures
            n == self@.len(),
    {
        self.vec.len()
    }

    /// The symbol of `name`, if it was interned.
    pub fn find(&self, name: &str) -> (found: Option<Symbol>)
        requires
            self.wf(),
        ensures
            found is Some <==> is_interned(self@, name@),
            found matches Some(s) ==> s.0 < self@.len() && self@[s.0 as int] == name@ && s.0
                == index_of(self@, name@),
    {
        match self.map.get(name) {
            Some(id) => {
                proof {
                    self.lemma_wf_distinct();
                    assert(self@[*id as int] == name@);
                }
                Some(Symbol(*id))
            },
            None => {
                proof {
                    if is_interned(self@, name@) {
                        let i = index_of(self@, name@);
                        assert(self.map@.contains_key(self.vec@[i]@));
                    }
                }
                None
            },
        }
    }

    /// Intern a given string.
    pub fn intern(&mut self, name: &str) -> (id: Symbol)
        requires
            old(self).wf(),
            is_interned(old(self)@, name@) || old(self)@.len() < MAX_SYMBOLS,
        ensures
            final(self).wf(),
            final(self)@ == table_after_intern(old(self)@, name@),
            id.0 == symbol_after_intern(old(self)@, name@),
            id.0 < final(self)@.len(),
            final(self)@[id.0 as int] == name@,
            forall|i: int| 0 <= i < old(self)@.len() ==> final(self)@[i] == old(self)@[i],
            old(self)@.len() <= final(self)@.len() <= old(self)@.len() + 1,
            is_interned(final(self)@, name@),
    {
        if let Some(id) = self.find(name) {
            return id;
        }
        let n = self.vec.len();
        let id: u32 = n as u32;
        let owned = name.to_owned();
        self.map.insert(name.to_owned(), id);
        self.vec.push(owned);
        proof {
            assert(final(self)@ =~= old(self)@.push(name@));
            assert(final(self)@[n as int] == name@);
            assert forall|i: int| 0 <= i < self.vec@.len() implies self.map@.contains_key(
                #[trigger] self.vec@[i]@,
            ) && self.map@[self.vec@[i]@] == i by {
                if i < n {
                    assert(old(self).map@.contains_key(old(self).vec@[i]@));
                    assert(old(self)@[i] == old(self).vec@[i]@);
                }
            }
            assert forall|k: Seq<char>| #[trigger] self.map@.contains_key(k) implies self.map@[k]
                < self.vec@.len() && self.vec@[self.map@[k] as int]@ == k by {
                if k != name@ {
                    assert(old(self).map@.contains_key(k));
                }
            }
        }
        Symbol(id)
    }

    /// The symbol of `name`, interned if it was there or there is room
    /// for it; else nothing, and the interner is as it was.
    pub fn try_intern(&mut self, name: &str) -> (found: Option<Symbol>)
        requires
            old(self).wf(),
        ensures
            final(self).wf(),
            final(self)@ == table_after_try(old(self)@, name@),
            found is Some <==> can_intern(old(self)@, name@),
            found matches Some(id) ==> {
                &&& symbol_after_try(old(self)@, name@) == Some(id.0 as int)
                &&& id.0 < final(self)@.len()
                &&& final(self)@[id.0 as int] == name@
            },
            forall|i: int| 0 <= i < old(self)@.len() ==> final(self)@[i] == old(self)@[i],
    {
        if self.vec.len() < MAX_SYMBOLS {
            Some(self.intern(name))
        } else {
            self.find(name)
        }
    }

    /// Get the string associated to a given interning ID.
    pub fn lookup(&self, id: Symbol) -> (name: &str)
        requires
            id.0 < self@.len(),
        ensures
            name@ == self@[id.0 as int],
    {
        self.vec[id.0 as usize].as_str()
    }
}

/// Interning a string twice gives the same symbol both times and leaves the
/// table as the first call made it; the symbol leads back to the string.
/// After the first call the string is interned, so the second needs no
/// room.
pub proof fn lemma_intern_idempotent(table: Seq<Seq<char>>, name: Seq<char>)
    requires
        distinct(table),
    ensures
        distinct(table_after_intern(table, name)),
        is_interned(table_after_intern(table, name), name),
        table_after_intern(table_after_intern(table, name), name) == table_after_intern(
            table,
            name,
        ),
        symbol_after_intern(table_after_intern(table, name), name) == symbol_after_intern(
            table,
            name,
        ),
        0 <= symbol_after_intern(table, name) < table_after_intern(table, name).len(),
        table_after_intern(table, name)[symbol_after_intern(table, name)] == name,
{
    let after = table_after_intern(table, name);
    let id = symbol_after_intern(table, name);
    if is_interned(table, name) {
        assert(after[id] == name);
    } else {
        assert(after[id] == name);
        assert(is_interned(after, name));
        assert forall|i: int, j: int|
            0 <= i < after.len() && 0 <= j < after.len() && after[i] == after[j] implies i
            == j by {
            if i < table.len() && j < table.len() {
                assert(table[i] == table[j]);
            } else if i < table.len() {
                assert(table[i] == name);
            } else if j < table.len() {
                assert(table[j] == name);
            }
        }
        let again = index_of(after, name);
        assert(after[again] == after[id]);
    }
}

/// An attempt to intern a string, made twice, gives the same both times,
/// whatever the table holds and whether or not it has room: the same
/// symbol, or nothing twice; and the second attempt changes nothing. A
/// symbol that it gives leads back to the string.
pub proof fn lemma_try_intern_idempotent(table: Seq<Seq<char>>, name: Seq<char>)
    requires
        distinct(table),
    ensures
        table_after_try(table_after_try(table, name), name) == table_after_try(table, name),
        symbol_after_try(table_after_try(table, name), name) == symbol_after_try(table, name),
        symbol_after_try(table, name) matches Some(id) ==> 0 <= id < table_after_try(
            table,
            name,
        ).len() && table_after_try(table, name)[id] == name,
{
    lemma_intern_idempotent(table, name);
}

/// Interning the string of an issued symbol gives that symbol back and
/// changes nothing.
pub proof fn lemma_intern_of_lookup(table: Seq<Seq<char>>, id: int)
    requires
        distinct(table),
        0 <= id < table.len(),
    ensures
        table_after_intern(table, table[id]) == table,
        symbol_after_intern(table, table[id]) == id,
{
    assert(is_interned(table, table[id]));
    let found = index_of(table, table[id]);
    assert(table[found] == table[id]);
}

} // verus!
