//! Building a runtime: the core module and the native methods.

use std::collections::HashMap;
use vstd::prelude::*;
use crate::heap::{
    module_rebound,
    BOOL_CLASS, BOOL_METACLASS, CLASS_CLASS, METACLASS_CLASS, METHOD_CLASS, METHOD_METACLASS,
    MODULE_CLASS, NIL_CLASS, NIL_METACLASS, NUMBER_CLASS, NUMBER_METACLASS, OBJECT_CLASS,
    OBJECT_METACLASS, STRING_CLASS, STRING_METACLASS, SYMBOL_CLASS, SYMBOL_METACLASS,
    SYSTEM_CLASS, SYSTEM_METACLASS,
};
use crate::host::{Pending, PendingView};
use crate::interner::{
    distinct, index_of, is_interned, table_after_intern, Interner, Symbol, MAX_SYMBOLS,
};
use crate::method::{MethodKind, MethodObject, PrimitiveFn, Signature, SignatureKind};
use crate::module::{ModuleObject, MAX_GLOBALS};
use crate::universe::Universe;
use crate::value::{ClassId, Value};
use crate::vm::{Selectors, VM};

verus! {

broadcast use vstd::std_specs::hash::group_hash_axioms;

/// A string that a table holds keeps its index when the table grows.
pub proof fn lemma_index_stable(table: Seq<Seq<char>>, after: Seq<Seq<char>>, text: Seq<char>)
    requires
        distinct(after),
        is_interned(table, text),
        table.len() <= after.len(),
        forall|i: int| 0 <= i < table.len() ==> after[i] == table[i],
    ensures
        is_interned(after, text),
        index_of(after, text) == index_of(table, text),
{
    let i = index_of(table, text);
    assert(after[i] == text);
    let j = index_of(after, text);
    assert(after[j] == after[i]);
}

/// What the classes held before a method was attached, they hold after;
/// and what the core module bound, it binds.
pub proof fn lemma_install_keeps(
    pre: VM,
    post: VM,
    class: ClassId,
    s: Symbol,
    m: usize,
    text: Seq<char>,
)
    requires
        distinct(post.interner@),
        post.interner@.len() <= MAX_SYMBOLS,
        post.heap@.methods.len() == m + 1,
        pre.interner@.len() <= post.interner@.len(),
        forall|i: int| 0 <= i < pre.interner@.len() ==> post.interner@[i] == pre.interner@[i],
        s.0 < post.interner@.len(),
        post.interner@[s.0 as int] == text,
        post.core_module == pre.core_module,
        post.heap@.modules == pre.heap@.modules,
        post.heap@.classes.len() == pre.heap@.classes.len(),
        forall|c: int|
            0 <= c < pre.heap@.classes.len() ==> (#[trigger] post.heap@.classes[c]).methods@ == if c
                == class {
                pre.heap@.classes[c].methods@.insert(s, m)
            } else {
                pre.heap@.classes[c].methods@
            },
        m == pre.heap@.methods.len(),
        forall|i: int|
            0 <= i < pre.heap@.methods.len() ==> post.heap@.methods[i] == pre.heap@.methods[i],
        forall|c: int, st: Symbol|
            0 <= c < pre.heap@.classes.len() && #[trigger] pre.heap@.classes[c].methods@.contains_key(
                st,
            ) ==> pre.heap@.classes[c].methods@[st] < pre.heap@.methods.len(),
    ensures
        forall|c: ClassId, t: Seq<char>, k: SignatureKind, g: PrimitiveFn|
            pre.responds(c, t, k, g) && c < pre.heap@.classes.len() && (c != class || t != text)
                ==> post.responds(c, t, k, g),
        forall|t: Seq<char>, v: Value| pre.core_binds(t, v) ==> post.core_binds(t, v),
{
    reveal(VM::responds);
    reveal(VM::core_binds);
    let table0 = pre.interner@;
    let table1 = post.interner@;
    assert forall|c: ClassId, t: Seq<char>, k: SignatureKind, g: PrimitiveFn|
        pre.responds(c, t, k, g) && c < pre.heap@.classes.len() && (c != class || t
            != text) implies post.responds(c, t, k, g) by {
        lemma_index_stable(table0, table1, t);
        let st = Symbol(index_of(table1, t) as u32);
        assert(table1[st.0 as int] == t);
        let before = pre.heap@.classes[c as int].methods@;
        assert(before.contains_key(st));
        assert(before[st] < pre.heap@.methods.len());
        assert(post.heap@.classes[c as int].methods@.contains_key(st));
        if c == class {
            assert(st != s);
        }
    }
    assert forall|t: Seq<char>, v: Value| pre.core_binds(t, v) implies post.core_binds(t, v) by {
        lemma_index_stable(table0, table1, t);
    }
}

/// True when the runtime itself gives the class a native method under
/// the selector of this text.
#[verifier::opaque]
pub open spec fn is_native(class: ClassId, text: Seq<char>) -> bool {
    ||| class == OBJECT_CLASS && (text == "name"@ || text == "class"@ || text == "class=(_)"@ || text == "toString"@)
    ||| class == OBJECT_METACLASS && text == "new()"@
    ||| class == CLASS_CLASS && (text == "superclass"@ || text == "superclass=(_)"@ || text == "+(_)"@ || text == "new()"@)
    ||| class == NUMBER_CLASS && (text == "+(_)"@ || text == "-(_)"@ || text == "*(_)"@ || text == "/(_)"@ || text == "%(_)"@ || text == "name"@)
    ||| class == NUMBER_METACLASS && (text == "new()"@ || text == "new(_)"@)
    ||| class == STRING_CLASS && (text == "+(_)"@ || text == "repeat(_)"@ || text == "hash"@)
    ||| class == STRING_METACLASS && (text == "new()"@ || text == "new(_)"@)
    ||| class == BOOL_METACLASS && (text == "new()"@ || text == "new(_)"@)
    ||| class == NIL_METACLASS && text == "new()"@
    ||| class == SYMBOL_CLASS && text == "toString"@
    ||| class == SYMBOL_METACLASS && text == "new(_)"@
    ||| class == METHOD_METACLASS && text == "new(_)"@
    ||| class == SYSTEM_METACLASS && (text == "print(_)"@ || text == "new()"@)
}

/// True when some class is given a native method under the selector of
/// this text.
pub open spec fn is_native_selector(text: Seq<char>) -> bool {
    exists|class: ClassId| is_native(class, text)
}

/// True when this is the text of a selector that the evaluator sends for
/// an operator.
#[verifier::opaque]
pub open spec fn is_operator(text: Seq<char>) -> bool {
    ||| text == "+(_)"@
    ||| text == "-(_)"@
    ||| text == "*(_)"@
    ||| text == "/(_)"@
    ||| text == "%(_)"@
    ||| text == "<(_)"@
    ||| text == "<=(_)"@
    ||| text == ">(_)"@
    ||| text == ">=(_)"@
}

/// True when the core module binds this name from the start.
#[verifier::opaque]
pub open spec fn is_core_name(text: Seq<char>) -> bool {
    ||| text == "Object"@
    ||| text == "Class"@
    ||| text == "Metaclass"@
    ||| text == "Number"@
    ||| text == "String"@
    ||| text == "Bool"@
    ||| text == "Nil"@
    ||| text == "Method"@
    ||| text == "Symbol"@
    ||| text == "Module"@
    ||| text == "System"@
    ||| text == "core"@
}

/// True when the runtime itself registers the class under this name.
#[verifier::opaque]
pub open spec fn is_core_class(text: Seq<char>, class: ClassId) -> bool {
    ||| text == "Object"@ && class == OBJECT_CLASS
    ||| text == "Class"@ && class == CLASS_CLASS
    ||| text == "Metaclass"@ && class == METACLASS_CLASS
    ||| text == "Number"@ && class == NUMBER_CLASS
    ||| text == "String"@ && class == STRING_CLASS
    ||| text == "Bool"@ && class == BOOL_CLASS
    ||| text == "Nil"@ && class == NIL_CLASS
    ||| text == "Method"@ && class == METHOD_CLASS
    ||| text == "Symbol"@ && class == SYMBOL_CLASS
    ||| text == "Module"@ && class == MODULE_CLASS
    ||| text == "System"@ && class == SYSTEM_CLASS
}

impl VM {
    /// The core module binds the name to the value.
    #[verifier::opaque]
    pub open spec fn core_binds(&self, name: Seq<char>, v: Value) -> bool {
        is_interned(self.interner@, name) && self.heap@.modules[self.core_module as int]@.get(
            Symbol(index_of(self.interner@, name) as u32),
        ) == Some(v)
    }

    /// The class holds, under the selector of the given text, the native
    /// method `f` with the given shape.
    #[verifier::opaque]
    pub open spec fn responds(
        &self,
        class: ClassId,
        text: Seq<char>,
        kind: SignatureKind,
        f: PrimitiveFn,
    ) -> bool {
        let s = Symbol(index_of(self.interner@, text) as u32);
        let table = self.heap@.classes[class as int].methods@;
        &&& is_interned(self.interner@, text)
        &&& table.contains_key(s)
        &&& self.heap@.methods[table[s] as int] == (MethodObject {
            kind: MethodKind::Primitive(f),
            signature: Signature { selector: s, kind },
            holder: Some(class),
        })
    }

    /// True when `post` is `self` with more symbols, globals, methods and
    /// registered classes:
    /// the classes keep their names and links, the modules their names,
    /// and the instances, the closures, the frames and the stack are the
    /// same.
    #[verifier::opaque]
    pub open spec fn grown(&self, post: VM) -> bool {
        &&& post.frames@ == self.frames@
        &&& post.stack@ == self.stack@
        &&& post.modules@ == self.modules@
        &&& post.universe == self.universe
        &&& post.selectors == self.selectors
        &&& post.core_module == self.core_module
        &&& post.pending@ == self.pending@
        &&& post.heap@.classes.len() == self.heap@.classes.len()
        &&& post.heap@.instances == self.heap@.instances
        &&& post.heap@.closures == self.heap@.closures
        &&& post.heap@.modules.len() == self.heap@.modules.len()
        &&& forall|m: int|
            0 <= m < self.heap@.modules.len() ==> {
                &&& (#[trigger] post.heap@.modules[m]).name == self.heap@.modules[m].name
                &&& post.heap@.modules[m].name_sym == self.heap@.modules[m].name_sym
            }
        &&& forall|c: int|
            0 <= c < self.heap@.classes.len() ==> {
                &&& (#[trigger] post.heap@.classes[c]).name == self.heap@.classes[c].name
                &&& post.heap@.classes[c].class == self.heap@.classes[c].class
                &&& post.heap@.classes[c].superclass == self.heap@.classes[c].superclass
            }
        &&& self.interner@.len() <= post.interner@.len()
        &&& forall|i: int| 0 <= i < self.interner@.len() ==> post.interner@[i] == self.interner@[i]
    }

    /// True when `post` is `self` with the native method `f` attached to
    /// the class: the text of its selector is interned, the method is
    /// added to the heap, and the class holds it under the selector in
    /// place of what it held there.
    #[verifier::opaque]
    pub open spec fn attached(
        &self,
        post: VM,
        class: ClassId,
        text: Seq<char>,
        kind: SignatureKind,
        f: PrimitiveFn,
    ) -> bool {
        let s = Symbol(index_of(post.interner@, text) as u32);
        &&& is_interned(post.interner@, text)
        &&& post.interner@ == table_after_intern(self.interner@, text)
        &&& post.heap@.methods == self.heap@.methods.push(
            MethodObject {
                kind: MethodKind::Primitive(f),
                signature: Signature { selector: s, kind },
                holder: Some(class),
            },
        )
        &&& forall|c: int|
            0 <= c < self.heap@.classes.len() ==> (#[trigger] post.heap@.classes[c]).methods@ == if c
                == class {
                self.heap@.classes[c].methods@.insert(s, self.heap@.methods.len() as usize)
            } else {
                self.heap@.classes[c].methods@
            }
    }

    /// True when the classes of `post` hold what they held in `self` and
    /// native methods of the runtime besides: every new symbol is the
    /// selector of a native method, the methods of `self` are still in
    /// the heap, every selector that a class answered it still answers,
    /// and every method of a class is the one that it held in `self`, or
    /// stands under the selector of a native method.
    #[verifier::opaque]
    pub open spec fn natives_added(&self, post: VM) -> bool {
        &&& forall|i: int|
            self.interner@.len() <= i < post.interner@.len() ==> is_native_selector(
                #[trigger] post.interner@[i],
            )
        &&& self.heap@.methods.len() <= post.heap@.methods.len()
        &&& forall|i: int|
            0 <= i < self.heap@.methods.len() ==> post.heap@.methods[i] == self.heap@.methods[i]
        &&& forall|c: int, s: Symbol|
            0 <= c < self.heap@.classes.len() && #[trigger] self.heap@.classes[c].methods@.contains_key(
                s,
            ) ==> post.heap@.classes[c].methods@.contains_key(s)
        &&& forall|c: int, s: Symbol|
            0 <= c < post.heap@.classes.len() && #[trigger] post.heap@.classes[c].methods@.contains_key(
                s,
            ) ==> {
                ||| self.heap@.classes[c].methods@.contains_key(s)
                    && post.heap@.classes[c].methods@[s] == self.heap@.classes[c].methods@[s]
                ||| s.0 < post.interner@.len() && is_native(c as ClassId, post.interner@[s.0 as int])
            }
    }

    /// A state to which a method was added, and a class given it under
    /// the symbol of the text, has the method attached.
    pub proof fn lemma_attached(
        pre: VM,
        post: VM,
        class: ClassId,
        s: Symbol,
        text: Seq<char>,
        kind: SignatureKind,
        f: PrimitiveFn,
    )
        requires
            distinct(post.interner@),
            post.interner@ == table_after_intern(pre.interner@, text),
            s.0 < post.interner@.len(),
            post.interner@[s.0 as int] == text,
            post.heap@.methods.len() == pre.heap@.methods.len() + 1,
            forall|i: int|
                0 <= i < pre.heap@.methods.len() ==> post.heap@.methods[i] == pre.heap@.methods[i],
            post.heap@.methods[pre.heap@.methods.len() as int] == (MethodObject {
                kind: MethodKind::Primitive(f),
                signature: Signature { selector: s, kind },
                holder: Some(class),
            }),
            forall|c: int|
                0 <= c < pre.heap@.classes.len() ==> (#[trigger] post.heap@.classes[c]).methods@ == if c
                    == class {
                    pre.heap@.classes[c].methods@.insert(s, pre.heap@.methods.len() as usize)
                } else {
                    pre.heap@.classes[c].methods@
                },
        ensures
            pre.attached(post, class, text, kind, f),
    {
        reveal(VM::attached);
        assert(is_interned(post.interner@, text));
        assert(index_of(post.interner@, text) == s.0);
        assert(post.heap@.methods =~= pre.heap@.methods.push(
            MethodObject {
                kind: MethodKind::Primitive(f),
                signature: Signature { selector: s, kind },
                holder: Some(class),
            },
        ));
    }

    /// Nothing was added to a state since itself.
    pub proof fn lemma_natives_self(a: VM)
        ensures
            a.natives_added(a),
    {
        reveal(VM::natives_added);
    }

    /// What was added up to a state and what one more native method adds
    /// are native methods.
    pub proof fn lemma_natives_step(
        first: VM,
        before: VM,
        after: VM,
        class: ClassId,
        text: Seq<char>,
        kind: SignatureKind,
        f: PrimitiveFn,
    )
        requires
            first.grown(before),
            first.natives_added(before),
            before.attached(after, class, text, kind, f),
            after.heap@.classes.len() == before.heap@.classes.len(),
            after.interner@.len() <= MAX_SYMBOLS,
            class < before.heap@.classes.len(),
            is_native(class, text),
        ensures
            first.natives_added(after),
    {
        reveal(VM::grown);
        reveal(VM::natives_added);
        reveal(VM::attached);
        let s = Symbol(index_of(after.interner@, text) as u32);
        assert(after.interner@[s.0 as int] == text);
        assert forall|c: int, k: Symbol|
            0 <= c < after.heap@.classes.len() && #[trigger] after.heap@.classes[c].methods@.contains_key(
                k,
            ) implies ({
            ||| first.heap@.classes[c].methods@.contains_key(k)
                && after.heap@.classes[c].methods@[k] == first.heap@.classes[c].methods@[k]
            ||| k.0 < after.interner@.len() && is_native(c as ClassId, after.interner@[k.0 as int])
        }) by {
            if c == class && k == s {
            } else {
                assert(before.heap@.classes[c].methods@.contains_key(k));
            }
        }
    }

    /// Adding native methods twice is adding native methods.
    pub proof fn lemma_natives_trans(a: VM, b: VM, c: VM)
        requires
            a.grown(b),
            b.grown(c),
            a.natives_added(b),
            b.natives_added(c),
        ensures
            a.natives_added(c),
    {
        reveal(VM::grown);
        reveal(VM::natives_added);
        assert forall|cl: int, k: Symbol|
            0 <= cl < c.heap@.classes.len() && #[trigger] c.heap@.classes[cl].methods@.contains_key(
                k,
            ) implies ({
            ||| a.heap@.classes[cl].methods@.contains_key(k) && c.heap@.classes[cl].methods@[k]
                == a.heap@.classes[cl].methods@[k]
            ||| k.0 < c.interner@.len() && is_native(cl as ClassId, c.interner@[k.0 as int])
        }) by {
            if b.heap@.classes[cl].methods@.contains_key(k) && c.heap@.classes[cl].methods@[k]
                == b.heap@.classes[cl].methods@[k] {
                assert(b.heap@.classes[cl].methods@.contains_key(k));
            }
        }
    }

    /// True when `post` is `self` with the name bound in the core module:
    /// the name is interned, and the core module defines its symbol as
    /// the value.
    #[verifier::opaque]
    pub open spec fn bound(&self, post: VM, text: Seq<char>, value: Value) -> bool {
        let s = Symbol(index_of(post.interner@, text) as u32);
        &&& is_interned(post.interner@, text)
        &&& post.interner@ == table_after_intern(self.interner@, text)
        &&& module_rebound(
            self.heap@,
            post.heap@,
            self.core_module,
            self.heap@.modules[self.core_module as int]@.define(s, value),
        )
    }

    /// True when the modules of `post` are those of `self` but for names
    /// of the core module that the runtime binds itself: every new
    /// symbol is such a name, every name that
    /// the core module bound keeps its slot, and its value unless it is
    /// such a name; every name that it binds it bound in `self`, or it
    /// is such a name; and the other modules are the same.
    #[verifier::opaque]
    pub open spec fn names_added(&self, post: VM) -> bool {
        let before = self.heap@.modules[self.core_module as int]@;
        let after = post.heap@.modules[post.core_module as int]@;
        &&& forall|i: int|
            self.interner@.len() <= i < post.interner@.len() ==> is_core_name(
                #[trigger] post.interner@[i],
            )
        &&& post.heap@.modules[post.core_module as int].source
            == self.heap@.modules[self.core_module as int].source
        &&& forall|j: int|
            0 <= j < self.heap@.modules.len() && j != self.core_module ==> #[trigger] post.heap@.modules[j]
                == self.heap@.modules[j]
        &&& before.globals.len() <= after.globals.len()
        &&& forall|s: Symbol| #[trigger]
            before.slots.contains_key(s) ==> {
                &&& after.slots.contains_key(s)
                &&& after.slots[s] == before.slots[s]
                &&& {
                    ||| after.globals[after.slots[s] as int] == before.globals[before.slots[s] as int]
                    ||| s.0 < post.interner@.len() && is_core_name(post.interner@[s.0 as int])
                }
            }
        &&& forall|s: Symbol| #[trigger]
            after.slots.contains_key(s) ==> {
                ||| before.slots.contains_key(s)
                ||| s.0 < post.interner@.len() && is_core_name(post.interner@[s.0 as int])
            }
    }

    /// No name was bound in a state since itself.
    pub proof fn lemma_names_self(a: VM)
        ensures
            a.names_added(a),
    {
        reveal(VM::names_added);
    }

    /// What was bound up to a state and one more name of the runtime's
    /// own are names of the runtime's own.
    pub proof fn lemma_names_step(first: VM, before: VM, after: VM, text: Seq<char>, value: Value)
        requires
            first.grown(before),
            first.names_added(before),
            before.bound(after, text, value),
            before.wf(),
            first.core_module < first.heap@.modules.len(),
            after.core_module == before.core_module,
            after.interner@.len() <= MAX_SYMBOLS,
            is_core_name(text),
        ensures
            first.names_added(after),
    {
        reveal(VM::grown);
        reveal(VM::names_added);
        reveal(VM::bound);
        let s = Symbol(index_of(after.interner@, text) as u32);
        assert(after.interner@[s.0 as int] == text);
        let core = before.core_module as int;
        let b0 = first.heap@.modules[core]@;
        let b1 = before.heap@.modules[core]@;
        let b2 = after.heap@.modules[core]@;
        assert(before.heap@.modules[core].wf());
        assert(b1.wf());
        assert(b2 == b1.define(s, value));
        assert forall|k: Symbol| #[trigger] b0.slots.contains_key(k) implies ({
            &&& b2.slots.contains_key(k)
            &&& b2.slots[k] == b0.slots[k]
            &&& {
                ||| b2.globals[b2.slots[k] as int] == b0.globals[b0.slots[k] as int]
                ||| k.0 < after.interner@.len() && is_core_name(after.interner@[k.0 as int])
            }
        }) by {
            assert(b1.slots.contains_key(k));
            if k != s && b1.slots.contains_key(s) {
                assert(b1.slots[k] != b1.slots[s]);
            }
        }
        assert forall|k: Symbol| #[trigger] b2.slots.contains_key(k) implies ({
            ||| b0.slots.contains_key(k)
            ||| k.0 < after.interner@.len() && is_core_name(after.interner@[k.0 as int])
        }) by {
            if k != s {
                assert(b1.slots.contains_key(k));
            }
        }
    }

    /// The class is registered under the name.
    #[verifier::opaque]
    pub open spec fn registers(&self, text: Seq<char>, class: ClassId) -> bool {
        let k = index_of(self.interner@, text) as u32;
        &&& is_interned(self.interner@, text)
        &&& self.classes@.contains_key(k)
        &&& self.classes@[k] == class
    }

    /// True when `post` has the registry of classes of `self` with the
    /// class registered under the name, which is interned.
    #[verifier::opaque]
    pub open spec fn registered(&self, post: VM, text: Seq<char>, class: ClassId) -> bool {
        &&& is_interned(post.interner@, text)
        &&& post.classes@ == self.classes@.insert(index_of(post.interner@, text) as u32, class)
    }

    /// True when the registry of classes of `post` is that of `self` but
    /// for classes that the runtime registers itself: every name that
    /// was registered still is, and every registered class was
    /// registered in `self` under the same name, or is such a class
    /// under its name.
    #[verifier::opaque]
    pub open spec fn classes_added(&self, post: VM) -> bool {
        &&& forall|k: u32| #[trigger]
            self.classes@.contains_key(k) ==> post.classes@.contains_key(k)
        &&& forall|k: u32| #[trigger]
            post.classes@.contains_key(k) ==> {
                ||| self.classes@.contains_key(k) && post.classes@[k] == self.classes@[k]
                ||| k < post.interner@.len() && is_core_class(
                    post.interner@[k as int],
                    post.classes@[k],
                )
            }
    }

    /// No class was registered in a state since itself.
    pub proof fn lemma_classes_self(a: VM)
        ensures
            a.classes_added(a),
    {
        reveal(VM::classes_added);
    }

    /// No class was registered where the registry is the same.
    pub proof fn lemma_classes_kept(first: VM, before: VM, after: VM)
        requires
            first.classes_added(before),
            before.grown(after),
            after.classes@ == before.classes@,
        ensures
            first.classes_added(after),
    {
        reveal(VM::grown);
        reveal(VM::classes_added);
    }

    /// What was registered up to a state and one more class of the
    /// runtime's own are classes of the runtime's own.
    pub proof fn lemma_classes_step(first: VM, before: VM, after: VM, text: Seq<char>, class: ClassId)
        requires
            first.classes_added(before),
            before.grown(after),
            before.registered(after, text, class),
            after.interner@.len() <= MAX_SYMBOLS,
            is_core_class(text, class),
        ensures
            first.classes_added(after),
    {
        reveal(VM::grown);
        reveal(VM::classes_added);
        reveal(VM::registered);
        let s = index_of(after.interner@, text) as u32;
        assert(after.interner@[s as int] == text);
        assert forall|k: u32| #[trigger] after.classes@.contains_key(k) implies ({
            ||| first.classes@.contains_key(k) && after.classes@[k] == first.classes@[k]
            ||| k < after.interner@.len() && is_core_class(
                after.interner@[k as int],
                after.classes@[k],
            )
        }) by {
            if k != s {
                assert(before.classes@.contains_key(k));
            }
        }
    }

    /// A class that is registered stays registered where the registry is
    /// the same and the interner has grown.
    pub proof fn lemma_registers_kept(a: VM, b: VM, text: Seq<char>, class: ClassId)
        requires
            a.grown(b),
            b.classes@ == a.classes@,
            distinct(b.interner@),
            a.registers(text, class),
        ensures
            b.registers(text, class),
    {
        reveal(VM::grown);
        reveal(VM::registers);
        lemma_index_stable(a.interner@, b.interner@, text);
    }

    /// Growing is transitive.
    pub proof fn lemma_grown(a: VM, b: VM, c: VM)
        requires
            a.grown(b),
            b.grown(c),
        ensures
            a.grown(c),
    {
        reveal(VM::grown);
    }

    /// A state has grown from itself.
    pub proof fn lemma_grown_self(a: VM)
        ensures
            a.grown(a),
    {
        reveal(VM::grown);
    }

    /// Binds a name of the core module.
    pub fn bind_core(&mut self, text: &str, value: Value)
        requires
            old(self).wf(),
            is_interned(old(self).interner@, text@) || old(self).interner@.len() < MAX_SYMBOLS,
            old(self).heap@.modules[old(self).core_module as int]@.globals.len() < MAX_GLOBALS,
        ensures
            final(self).wf(),
            old(self).grown(*final(self)),
            final(self).core_module == old(self).core_module,
            final(self).interner@.len() <= old(self).interner@.len() + 1,
            final(self).heap@.modules[final(self).core_module as int]@.globals.len() <= old(self).heap@.modules[old(self).core_module as int]@.globals.len() + 1,
            final(self).heap@.classes == old(self).heap@.classes,
            final(self).heap@.methods == old(self).heap@.methods,
            final(self).classes@ == old(self).classes@,
            old(self).bound(*final(self), text@, value),
            final(self).core_binds(text@, value),
            forall|t: Seq<char>, v: Value|
                old(self).core_binds(t, v) && t != text@ ==> final(self).core_binds(t, v),
            forall|t: Seq<char>, c: ClassId| old(self).registers(t, c) ==> final(self).registers(t, c),
    {
        reveal(VM::core_binds);
        reveal(VM::grown);
        reveal(VM::bound);
        let name = self.get_or_intern(text);
        let core = self.core_module;
        proof {
            self.interner.lemma_wf_distinct();
            old(self).interner.lemma_wf_distinct();
        }
        let r = self.heap.define_global(core, name, value);
        proof {
            let before = old(self).heap@.modules[core as int]@;
            let after = final(self).heap@.modules[core as int]@;
            crate::module::lemma_slot_stability(before, name, value, name, value);
            assert(is_interned(self.interner@, text@));
            assert(index_of(self.interner@, text@) == name.0);
            assert forall|t: Seq<char>, v: Value|
                old(self).core_binds(t, v) && t != text@ implies final(self).core_binds(t, v) by {
                lemma_index_stable(old(self).interner@, self.interner@, t);
                let s = Symbol(index_of(self.interner@, t) as u32);
                assert(self.interner@[s.0 as int] == t);
                assert(s != name);
                assert(before.slots.contains_key(s));
                if before.slots.contains_key(name) {
                    assert(before.slots[s] != before.slots[name]);
                }
            }
            assert forall|t: Seq<char>, c: ClassId|
                old(self).registers(t, c) implies final(self).registers(t, c) by {
                reveal(VM::registers);
                lemma_index_stable(old(self).interner@, self.interner@, t);
            }
        }
    }

    /// Binds a class in the core module and registers it, both under
    /// its name.
    pub fn bind_class(&mut self, text: &str, class: ClassId)
        requires
            old(self).wf(),
            class < old(self).heap@.classes.len(),
            is_interned(old(self).interner@, text@) || old(self).interner@.len() < MAX_SYMBOLS,
            old(self).heap@.modules[old(self).core_module as int]@.globals.len() < MAX_GLOBALS,
        ensures
            final(self).wf(),
            old(self).grown(*final(self)),
            final(self).core_module == old(self).core_module,
            final(self).interner@.len() <= old(self).interner@.len() + 1,
            final(self).heap@.modules[final(self).core_module as int]@.globals.len() <= old(self).heap@.modules[old(self).core_module as int]@.globals.len() + 1,
            final(self).heap@.classes == old(self).heap@.classes,
            final(self).heap@.methods == old(self).heap@.methods,
            old(self).bound(*final(self), text@, Value::Class(class)),
            old(self).registered(*final(self), text@, class),
            final(self).core_binds(text@, Value::Class(class)),
            forall|t: Seq<char>, v: Value|
                old(self).core_binds(t, v) && t != text@ ==> final(self).core_binds(t, v),
            final(self).registers(text@, class),
            forall|t: Seq<char>, c: ClassId|
                old(self).registers(t, c) && t != text@ ==> final(self).registers(t, c),
    {
        self.bind_core(text, Value::Class(class));
        let ghost mid = *self;
        proof {
            reveal(VM::bound);
            self.interner.lemma_wf_distinct();
        }
        match self.interner.find(text) {
            Some(name) => {
                let _ = self.classes.insert(name.0, class);
            },
            None => {},
        }
        proof {
            reveal(VM::core_binds);
            reveal(VM::grown);
            reveal(VM::registered);
            reveal(VM::registers);
            assert forall|t: Seq<char>, c: ClassId|
                old(self).registers(t, c) && t != text@ implies final(self).registers(t, c) by {
                assert(mid.registers(t, c));
                let k = index_of(mid.interner@, t);
                assert(mid.interner@[k] == t);
            }
        }
    }

    /// Attaches a native method to a class.
    #[verifier::rlimit(60)]
    pub fn install(&mut self, class: ClassId, text: &str, kind: SignatureKind, f: PrimitiveFn)
        requires
            old(self).wf(),
            class < old(self).heap@.classes.len(),
            is_interned(old(self).interner@, text@) || old(self).interner@.len() < MAX_SYMBOLS,
        ensures
            final(self).wf(),
            old(self).grown(*final(self)),
            final(self).core_module == old(self).core_module,
            final(self).interner@.len() <= old(self).interner@.len() + 1,
            final(self).heap@.classes.len() == old(self).heap@.classes.len(),
            final(self).heap@.modules == old(self).heap@.modules,
            final(self).classes@ == old(self).classes@,
            final(self).heap@.methods.len() == old(self).heap@.methods.len() + 1,
            old(self).attached(*final(self), class, text@, kind, f),
            final(self).responds(class, text@, kind, f),
            forall|c: ClassId, t: Seq<char>, k: SignatureKind, g: PrimitiveFn|
                old(self).responds(c, t, k, g) && c < old(self).heap@.classes.len() && (c != class
                    || t != text@) ==> final(self).responds(c, t, k, g),
            forall|t: Seq<char>, v: Value| old(self).core_binds(t, v) ==> final(self).core_binds(t, v),
    {
        reveal(VM::responds);
        reveal(VM::grown);
        let s = self.get_or_intern(text);
        let ghost table0 = old(self).interner@;
        let ghost table1 = self.interner@;
        let ghost heap0 = old(self).heap@;
        let m = self.heap.new_method(MethodObject::new_primitive(s, kind, f, class));
        self.heap.add_method(class, s, m);
        proof {
            self.interner.lemma_wf_distinct();
            assert(is_interned(table1, text@));
            assert(index_of(table1, text@) == s.0);
            assert(forall|c: int, st: Symbol|
                0 <= c < heap0.classes.len() && #[trigger] heap0.classes[c].methods@.contains_key(st)
                    ==> heap0.classes[c].methods@[st] < heap0.methods.len());
            lemma_install_keeps(*old(self), *final(self), class, s, m, text@);
            assert(self.heap@.methods[m as int] == (MethodObject {
                kind: MethodKind::Primitive(f),
                signature: Signature { selector: s, kind },
                holder: Some(class),
            }));
            VM::lemma_attached(*old(self), *final(self), class, s, text@, kind, f);
        }
    }

    /// Binds the core classes and the core module itself in the core
    /// module, each under its name, and registers the core classes under
    /// their names.
    pub fn install_core(&mut self)
        requires
            old(self).wf(),
            old(self).interner@.len() + 12 <= MAX_SYMBOLS,
            old(self).heap@.modules[old(self).core_module as int]@.globals.len() + 12 <= MAX_GLOBALS,
        ensures
            final(self).wf(),
            old(self).grown(*final(self)),
            final(self).core_module == old(self).core_module,
            final(self).interner@.len() <= old(self).interner@.len() + 12,
            final(self).heap@.modules[final(self).core_module as int]@.globals.len() <= old(self).heap@.modules[old(self).core_module as int]@.globals.len() + 12,
            final(self).heap@.classes == old(self).heap@.classes,
            final(self).heap@.methods == old(self).heap@.methods,
            old(self).names_added(*final(self)),
            old(self).classes_added(*final(self)),
            final(self).has_core(),
            final(self).has_classes(),
    {
        let core = self.core_module;
        let ghost first = *self;
        proof {
            VM::lemma_grown_self(first);
            VM::lemma_names_self(first);
            VM::lemma_classes_self(first);
            reveal(is_core_name);
            reveal(is_core_class);
            assert(first.heap@.classes.len() >= crate::heap::CORE_CLASS_COUNT);
        }
        let ghost before = *self;
        self.bind_class("Object", OBJECT_CLASS);
        proof {
            VM::lemma_names_step(first, before, *self, "Object"@, Value::Class(OBJECT_CLASS));
            VM::lemma_classes_step(first, before, *self, "Object"@, OBJECT_CLASS);
            VM::lemma_grown(first, before, *self);
        }
        let ghost before = *self;
        self.bind_class("Class", CLASS_CLASS);
        proof {
            VM::lemma_names_step(first, before, *self, "Class"@, Value::Class(CLASS_CLASS));
            VM::lemma_classes_step(first, before, *self, "Class"@, CLASS_CLASS);
            VM::lemma_grown(first, before, *self);
            assert("Object"@ != "Class"@) by {
                reveal_strlit("Object");
                reveal_strlit("Class");
                assert("Object"@.len() != "Class"@.len());
            }
        }
        let ghost before = *self;
        self.bind_class("Metaclass", METACLASS_CLASS);
        proof {
            VM::lemma_names_step(first, before, *self, "Metaclass"@, Value::Class(METACLASS_CLASS));
            VM::lemma_classes_step(first, before, *self, "Metaclass"@, METACLASS_CLASS);
            VM::lemma_grown(first, before, *self);
            assert("Object"@ != "Metaclass"@) by {
                reveal_strlit("Object");
                reveal_strlit("Metaclass");
                assert("Object"@.len() != "Metaclass"@.len());
            }
            assert("Class"@ != "Metaclass"@) by {
                reveal_strlit("Class");
                reveal_strlit("Metaclass");
                assert("Class"@.len() != "Metaclass"@.len());
            }
        }
        let ghost before = *self;
        self.bind_class("Number", NUMBER_CLASS);
        proof {
            VM::lemma_names_step(first, before, *self, "Number"@, Value::Class(NUMBER_CLASS));
            VM::lemma_classes_step(first, before, *self, "Number"@, NUMBER_CLASS);
            VM::lemma_grown(first, before, *self);
            assert("Object"@ != "Number"@) by {
                reveal_strlit("Object");
                reveal_strlit("Number");
                assert("Object"@[0] != "Number"@[0]);
            }
            assert("Class"@ != "Number"@) by {
                reveal_strlit("Class");
                reveal_strlit("Number");
                assert("Class"@.len() != "Number"@.len());
            }
            assert("Metaclass"@ != "Number"@) by {
                reveal_strlit("Metaclass");
                reveal_strlit("Number");
                assert("Metaclass"@.len() != "Number"@.len());
            }
        }
        let ghost before = *self;
        self.bind_class("String", STRING_CLASS);
        proof {
            VM::lemma_names_step(first, before, *self, "String"@, Value::Class(STRING_CLASS));
            VM::lemma_classes_step(first, before, *self, "String"@, STRING_CLASS);
            VM::lemma_grown(first, before, *self);
            assert("Object"@ != "String"@) by {
                reveal_strlit("Object");
                reveal_strlit("String");
                assert("Object"@[0] != "String"@[0]);
            }
            assert("Class"@ != "String"@) by {
                reveal_strlit("Class");
                reveal_strlit("String");
                assert("Class"@.len() != "String"@.len());
            }
            assert("Metaclass"@ != "String"@) by {
                reveal_strlit("Metaclass");
                reveal_strlit("String");
                assert("Metaclass"@.len() != "String"@.len());
            }
            assert("Number"@ != "String"@) by {
                reveal_strlit("Number");
                reveal_strlit("String");
                assert("Number"@[0] != "String"@[0]);
            }
        }
        let ghost before = *self;
        self.bind_class("Bool", BOOL_CLASS);
        proof {
            VM::lemma_names_step(first, before, *self, "Bool"@, Value::Class(BOOL_CLASS));
            VM::lemma_classes_step(first, before, *self, "Bool"@, BOOL_CLASS);
            VM::lemma_grown(first, before, *self);
            assert("Object"@ != "Bool"@) by {
                reveal_strlit("Object");
                reveal_strlit("Bool");
                assert("Object"@.len() != "Bool"@.len());
            }
            assert("Class"@ != "Bool"@) by {
                reveal_strlit("Class");
                reveal_strlit("Bool");
                assert("Class"@.len() != "Bool"@.len());
            }
            assert("Metaclass"@ != "Bool"@) by {
                reveal_strlit("Metaclass");
                reveal_strlit("Bool");
                assert("Metaclass"@.len() != "Bool"@.len());
            }
            assert("Number"@ != "Bool"@) by {
                reveal_strlit("Number");
                reveal_strlit("Bool");
                assert("Number"@.len() != "Bool"@.len());
            }
            assert("String"@ != "Bool"@) by {
                reveal_strlit("String");
                reveal_strlit("Bool");
                assert("String"@.len() != "Bool"@.len());
            }
        }
        let ghost before = *self;
        self.bind_class("Nil", NIL_CLASS);
        proof {
            VM::lemma_names_step(first, before, *self, "Nil"@, Value::Class(NIL_CLASS));
            VM::lemma_classes_step(first, before, *self, "Nil"@, NIL_CLASS);
            VM::lemma_grown(first, before, *self);
            assert("Object"@ != "Nil"@) by {
                reveal_strlit("Object");
                reveal_strlit("Nil");
                assert("Object"@.len() != "Nil"@.len());
            }
            assert("Class"@ != "Nil"@) by {
                reveal_strlit("Class");
                reveal_strlit("Nil");
                assert("Class"@.len() != "Nil"@.len());
            }
            assert("Metaclass"@ != "Nil"@) by {
                reveal_strlit("Metaclass");
                reveal_strlit("Nil");
                assert("Metaclass"@.len() != "Nil"@.len());
            }
            assert("Number"@ != "Nil"@) by {
                reveal_strlit("Number");
                reveal_strlit("Nil");
                assert("Number"@.len() != "Nil"@.len());
            }
            assert("String"@ != "Nil"@) by {
                reveal_strlit("String");
                reveal_strlit("Nil");
                assert("String"@.len() != "Nil"@.len());
            }
            assert("Bool"@ != "Nil"@) by {
                reveal_strlit("Bool");
                reveal_strlit("Nil");
                assert("Bool"@.len() != "Nil"@.len());
            }
        }
        let ghost before = *self;
        self.bind_class("Method", METHOD_CLASS);
        proof {
            VM::lemma_names_step(first, before, *self, "Method"@, Value::Class(METHOD_CLASS));
            VM::lemma_classes_step(first, before, *self, "Method"@, METHOD_CLASS);
            VM::lemma_grown(first, before, *self);
            assert("Object"@ != "Method"@) by {
                reveal_strlit("Object");
                reveal_strlit("Method");
                assert("Object"@[0] != "Method"@[0]);
            }
            assert("Class"@ != "Method"@) by {
                reveal_strlit("Class");
                reveal_strlit("Method");
                assert("Class"@.len() != "Method"@.len());
            }
            assert("Metaclass"@ != "Method"@) by {
                reveal_strlit("Metaclass");
                reveal_strlit("Method");
                assert("Metaclass"@.len() != "Method"@.len());
            }
            assert("Number"@ != "Method"@) by {
                reveal_strlit("Number");
                reveal_strlit("Method");
                assert("Number"@[0] != "Method"@[0]);
            }
            assert("String"@ != "Method"@) by {
                reveal_strlit("String");
                reveal_strlit("Method");
                assert("String"@[0] != "Method"@[0]);
            }
            assert("Bool"@ != "Method"@) by {
                reveal_strlit("Bool");
                reveal_strlit("Method");
                assert("Bool"@.len() != "Method"@.len());
            }
            assert("Nil"@ != "Method"@) by {
                reveal_strlit("Nil");
                reveal_strlit("Method");
                assert("Nil"@.len() != "Method"@.len());
            }
        }
        let ghost before = *self;
        self.bind_class("Symbol", SYMBOL_CLASS);
        proof {
            VM::lemma_names_step(first, before, *self, "Symbol"@, Value::Class(SYMBOL_CLASS));
            VM::lemma_classes_step(first, before, *self, "Symbol"@, SYMBOL_CLASS);
            VM::lemma_grown(first, before, *self);
            assert("Object"@ != "Symbol"@) by {
                reveal_strlit("Object");
                reveal_strlit("Symbol");
                assert("Object"@[0] != "Symbol"@[0]);
            }
            assert("Class"@ != "Symbol"@) by {
                reveal_strlit("Class");
                reveal_strlit("Symbol");
                assert("Class"@.len() != "Symbol"@.len());
            }
            assert("Metaclass"@ != "Symbol"@) by {
                reveal_strlit("Metaclass");
                reveal_strlit("Symbol");
                assert("Metaclass"@.len() != "Symbol"@.len());
            }
            assert("Number"@ != "Symbol"@) by {
                reveal_strlit("Number");
                reveal_strlit("Symbol");
                assert("Number"@[0] != "Symbol"@[0]);
            }
            assert("String"@ != "Symbol"@) by {
                reveal_strlit("String");
                reveal_strlit("Symbol");
                assert("String"@[1] != "Symbol"@[1]);
            }
            assert("Bool"@ != "Symbol"@) by {
                reveal_strlit("Bool");
                reveal_strlit("Symbol");
                assert("Bool"@.len() != "Symbol"@.len());
            }
            assert("Nil"@ != "Symbol"@) by {
                reveal_strlit("Nil");
                reveal_strlit("Symbol");
                assert("Nil"@.len() != "Symbol"@.len());
            }
            assert("Method"@ != "Symbol"@) by {
                reveal_strlit("Method");
                reveal_strlit("Symbol");
                assert("Method"@[0] != "Symbol"@[0]);
            }
        }
        let ghost before = *self;
        self.bind_class("Module", MODULE_CLASS);
        proof {
            VM::lemma_names_step(first, before, *self, "Module"@, Value::Class(MODULE_CLASS));
            VM::lemma_classes_step(first, before, *self, "Module"@, MODULE_CLASS);
            VM::lemma_grown(first, before, *self);
            assert("Object"@ != "Module"@) by {
                reveal_strlit("Object");
                reveal_strlit("Module");
                assert("Object"@[0] != "Module"@[0]);
            }
            assert("Class"@ != "Module"@) by {
                reveal_strlit("Class");
                reveal_strlit("Module");
                assert("Class"@.len() != "Module"@.len());
            }
            assert("Metaclass"@ != "Module"@) by {
                reveal_strlit("Metaclass");
                reveal_strlit("Module");
                assert("Metaclass"@.len() != "Module"@.len());
            }
            assert("Number"@ != "Module"@) by {
                reveal_strlit("Number");
                reveal_strlit("Module");
                assert("Number"@[0] != "Module"@[0]);
            }
            assert("String"@ != "Module"@) by {
                reveal_strlit("String");
                reveal_strlit("Module");
                assert("String"@[0] != "Module"@[0]);
            }
            assert("Bool"@ != "Module"@) by {
                reveal_strlit("Bool");
                reveal_strlit("Module");
                assert("Bool"@.len() != "Module"@.len());
            }
            assert("Nil"@ != "Module"@) by {
                reveal_strlit("Nil");
                reveal_strlit("Module");
                assert("Nil"@.len() != "Module"@.len());
            }
            assert("Method"@ != "Module"@) by {
                reveal_strlit("Method");
                reveal_strlit("Module");
                assert("Method"@[1] != "Module"@[1]);
            }
            assert("Symbol"@ != "Module"@) by {
                reveal_strlit("Symbol");
                reveal_strlit("Module");
                assert("Symbol"@[0] != "Module"@[0]);
            }
        }
        let ghost before = *self;
        self.bind_class("System", SYSTEM_CLASS);
        proof {
            VM::lemma_names_step(first, before, *self, "System"@, Value::Class(SYSTEM_CLASS));
            VM::lemma_classes_step(first, before, *self, "System"@, SYSTEM_CLASS);
            VM::lemma_grown(first, before, *self);
            assert("Object"@ != "System"@) by {
                reveal_strlit("Object");
                reveal_strlit("System");
                assert("Object"@[0] != "System"@[0]);
            }
            assert("Class"@ != "System"@) by {
                reveal_strlit("Class");
                reveal_strlit("System");
                assert("Class"@.len() != "System"@.len());
            }
            assert("Metaclass"@ != "System"@) by {
                reveal_strlit("Metaclass");
                reveal_strlit("System");
                assert("Metaclass"@.len() != "System"@.len());
            }
            assert("Number"@ != "System"@) by {
                reveal_strlit("Number");
                reveal_strlit("System");
                assert("Number"@[0] != "System"@[0]);
            }
            assert("String"@ != "System"@) by {
                reveal_strlit("String");
                reveal_strlit("System");
                assert("String"@[1] != "System"@[1]);
            }
            assert("Bool"@ != "System"@) by {
                reveal_strlit("Bool");
                reveal_strlit("System");
                assert("Bool"@.len() != "System"@.len());
            }
            assert("Nil"@ != "System"@) by {
                reveal_strlit("Nil");
                reveal_strlit("System");
                assert("Nil"@.len() != "System"@.len());
            }
            assert("Method"@ != "System"@) by {
                reveal_strlit("Method");
                reveal_strlit("System");
                assert("Method"@[0] != "System"@[0]);
            }
            assert("Symbol"@ != "System"@) by {
                reveal_strlit("Symbol");
                reveal_strlit("System");
                assert("Symbol"@[2] != "System"@[2]);
            }
            assert("Module"@ != "System"@) by {
                reveal_strlit("Module");
                reveal_strlit("System");
                assert("Module"@[0] != "System"@[0]);
            }
        }
        let ghost before = *self;
        self.bind_core("core", Value::Module(core));
        proof {
            VM::lemma_names_step(first, before, *self, "core"@, Value::Module(core));
            VM::lemma_classes_kept(first, before, *self);
            VM::lemma_grown(first, before, *self);
            assert("Object"@ != "core"@) by {
                reveal_strlit("Object");
                reveal_strlit("core");
                assert("Object"@.len() != "core"@.len());
            }
            assert("Class"@ != "core"@) by {
                reveal_strlit("Class");
                reveal_strlit("core");
                assert("Class"@.len() != "core"@.len());
            }
            assert("Metaclass"@ != "core"@) by {
                reveal_strlit("Metaclass");
                reveal_strlit("core");
                assert("Metaclass"@.len() != "core"@.len());
            }
            assert("Number"@ != "core"@) by {
                reveal_strlit("Number");
                reveal_strlit("core");
                assert("Number"@.len() != "core"@.len());
            }
            assert("String"@ != "core"@) by {
                reveal_strlit("String");
                reveal_strlit("core");
                assert("String"@.len() != "core"@.len());
            }
            assert("Bool"@ != "core"@) by {
                reveal_strlit("Bool");
                reveal_strlit("core");
                assert("Bool"@[0] != "core"@[0]);
            }
            assert("Nil"@ != "core"@) by {
                reveal_strlit("Nil");
                reveal_strlit("core");
                assert("Nil"@.len() != "core"@.len());
            }
            assert("Method"@ != "core"@) by {
                reveal_strlit("Method");
                reveal_strlit("core");
                assert("Method"@.len() != "core"@.len());
            }
            assert("Symbol"@ != "core"@) by {
                reveal_strlit("Symbol");
                reveal_strlit("core");
                assert("Symbol"@.len() != "core"@.len());
            }
            assert("Module"@ != "core"@) by {
                reveal_strlit("Module");
                reveal_strlit("core");
                assert("Module"@.len() != "core"@.len());
            }
            assert("System"@ != "core"@) by {
                reveal_strlit("System");
                reveal_strlit("core");
                assert("System"@.len() != "core"@.len());
            }
        }
    }

    fn install_object(&mut self)
        requires
            old(self).wf(),
            old(self).interner@.len() + 5 <= MAX_SYMBOLS,
        ensures
            final(self).wf(),
            old(self).grown(*final(self)),
            final(self).core_module == old(self).core_module,
            final(self).interner@.len() <= old(self).interner@.len() + 5,
            final(self).heap@.methods.len() == old(self).heap@.methods.len() + 5,
            old(self).natives_added(*final(self)),
            final(self).heap@.classes.len() == old(self).heap@.classes.len(),
            final(self).heap@.modules == old(self).heap@.modules,
            final(self).classes@ == old(self).classes@,
            final(self).responds(OBJECT_CLASS, "name"@, SignatureKind::Getter, PrimitiveFn::ObjectName),
            final(self).responds(OBJECT_CLASS, "class"@, SignatureKind::Getter, PrimitiveFn::ObjectClass),
            final(self).responds(OBJECT_CLASS, "class=(_)"@, SignatureKind::Setter, PrimitiveFn::ObjectSetClass),
            final(self).responds(OBJECT_CLASS, "toString"@, SignatureKind::Getter, PrimitiveFn::ObjectName),
            final(self).responds(OBJECT_METACLASS, "new()"@, SignatureKind::Method(0), PrimitiveFn::ObjectClassNew),
            forall|c: ClassId, t: Seq<char>, k: SignatureKind, g: PrimitiveFn|
                old(self).responds(c, t, k, g) && c < old(self).heap@.classes.len() && c != OBJECT_CLASS && c != OBJECT_METACLASS ==> final(self).responds(c, t, k, g),
            forall|t: Seq<char>, v: Value| old(self).core_binds(t, v) ==> final(self).core_binds(t, v),
    {
        let ghost first = *self;
        proof {
            VM::lemma_grown_self(first);
            VM::lemma_natives_self(first);
            reveal(is_native);
            assert(first.heap@.classes.len() >= crate::heap::CORE_CLASS_COUNT);
        }
        let ghost before = *self;
        self.install(OBJECT_CLASS, "name", SignatureKind::Getter, PrimitiveFn::ObjectName);
        proof {
            VM::lemma_natives_step(first, before, *self, OBJECT_CLASS, "name"@, SignatureKind::Getter, PrimitiveFn::ObjectName);
            VM::lemma_grown(first, before, *self);
        }
        let ghost before = *self;
        self.install(OBJECT_CLASS, "class", SignatureKind::Getter, PrimitiveFn::ObjectClass);
        proof {
            VM::lemma_natives_step(first, before, *self, OBJECT_CLASS, "class"@, SignatureKind::Getter, PrimitiveFn::ObjectClass);
            VM::lemma_grown(first, before, *self);
            assert("name"@ != "class"@) by {
                reveal_strlit("name");
                reveal_strlit("class");
                assert("name"@.len() != "class"@.len());
            }
        }
        let ghost before = *self;
        self.install(OBJECT_CLASS, "class=(_)", SignatureKind::Setter, PrimitiveFn::ObjectSetClass);
        proof {
            VM::lemma_natives_step(first, before, *self, OBJECT_CLASS, "class=(_)"@, SignatureKind::Setter, PrimitiveFn::ObjectSetClass);
            VM::lemma_grown(first, before, *self);
            assert("name"@ != "class=(_)"@) by {
                reveal_strlit("name");
                reveal_strlit("class=(_)");
                assert("name"@.len() != "class=(_)"@.len());
            }
            assert("class"@ != "class=(_)"@) by {
                reveal_strlit("class");
                reveal_strlit("class=(_)");
                assert("class"@.len() != "class=(_)"@.len());
            }
        }
        let ghost before = *self;
        self.install(OBJECT_CLASS, "toString", SignatureKind::Getter, PrimitiveFn::ObjectName);
        proof {
            VM::lemma_natives_step(first, before, *self, OBJECT_CLASS, "toString"@, SignatureKind::Getter, PrimitiveFn::ObjectName);
            VM::lemma_grown(first, before, *self);
            assert("name"@ != "toString"@) by {
                reveal_strlit("name");
                reveal_strlit("toString");
                assert("name"@.len() != "toString"@.len());
            }
            assert("class"@ != "toString"@) by {
                reveal_strlit("class");
                reveal_strlit("toString");
                assert("class"@.len() != "toString"@.len());
            }
            assert("class=(_)"@ != "toString"@) by {
                reveal_strlit("class=(_)");
                reveal_strlit("toString");
                assert("class=(_)"@.len() != "toString"@.len());
            }
        }
        let ghost before = *self;
        self.install(OBJECT_METACLASS, "new()", SignatureKind::Method(0), PrimitiveFn::ObjectClassNew);
        proof {
            VM::lemma_natives_step(first, before, *self, OBJECT_METACLASS, "new()"@, SignatureKind::Method(0), PrimitiveFn::ObjectClassNew);
            VM::lemma_grown(first, before, *self);
        }
    }

    fn install_class(&mut self)
        requires
            old(self).wf(),
            old(self).interner@.len() + 4 <= MAX_SYMBOLS,
        ensures
            final(self).wf(),
            old(self).grown(*final(self)),
            final(self).core_module == old(self).core_module,
            final(self).interner@.len() <= old(self).interner@.len() + 4,
            final(self).heap@.methods.len() == old(self).heap@.methods.len() + 4,
            old(self).natives_added(*final(self)),
            final(self).heap@.classes.len() == old(self).heap@.classes.len(),
            final(self).heap@.modules == old(self).heap@.modules,
            final(self).classes@ == old(self).classes@,
            final(self).responds(CLASS_CLASS, "superclass"@, SignatureKind::Getter, PrimitiveFn::ClassSuperclass),
            final(self).responds(CLASS_CLASS, "superclass=(_)"@, SignatureKind::Setter, PrimitiveFn::ClassSetSuperclass),
            final(self).responds(CLASS_CLASS, "+(_)"@, SignatureKind::Method(1), PrimitiveFn::ClassAdd),
            final(self).responds(CLASS_CLASS, "new()"@, SignatureKind::Method(0), PrimitiveFn::ClassNew),
            forall|c: ClassId, t: Seq<char>, k: SignatureKind, g: PrimitiveFn|
                old(self).responds(c, t, k, g) && c < old(self).heap@.classes.len() && c != CLASS_CLASS ==> final(self).responds(c, t, k, g),
            forall|t: Seq<char>, v: Value| old(self).core_binds(t, v) ==> final(self).core_binds(t, v),
    {
        let ghost first = *self;
        proof {
            VM::lemma_grown_self(first);
            VM::lemma_natives_self(first);
            reveal(is_native);
            assert(first.heap@.classes.len() >= crate::heap::CORE_CLASS_COUNT);
        }
        let ghost before = *self;
        self.install(CLASS_CLASS, "superclass", SignatureKind::Getter, PrimitiveFn::ClassSuperclass);
        proof {
            VM::lemma_natives_step(first, before, *self, CLASS_CLASS, "superclass"@, SignatureKind::Getter, PrimitiveFn::ClassSuperclass);
            VM::lemma_grown(first, before, *self);
        }
        let ghost before = *self;
        self.install(CLASS_CLASS, "superclass=(_)", SignatureKind::Setter, PrimitiveFn::ClassSetSuperclass);
        proof {
            VM::lemma_natives_step(first, before, *self, CLASS_CLASS, "superclass=(_)"@, SignatureKind::Setter, PrimitiveFn::ClassSetSuperclass);
            VM::lemma_grown(first, before, *self);
            assert("superclass"@ != "superclass=(_)"@) by {
                reveal_strlit("superclass");
                reveal_strlit("superclass=(_)");
                assert("superclass"@.len() != "superclass=(_)"@.len());
            }
        }
        let ghost before = *self;
        self.install(CLASS_CLASS, "+(_)", SignatureKind::Method(1), PrimitiveFn::ClassAdd);
        proof {
            VM::lemma_natives_step(first, before, *self, CLASS_CLASS, "+(_)"@, SignatureKind::Method(1), PrimitiveFn::ClassAdd);
            VM::lemma_grown(first, before, *self);
            assert("superclass"@ != "+(_)"@) by {
                reveal_strlit("superclass");
                reveal_strlit("+(_)");
                assert("superclass"@.len() != "+(_)"@.len());
            }
            assert("superclass=(_)"@ != "+(_)"@) by {
                reveal_strlit("superclass=(_)");
                reveal_strlit("+(_)");
                assert("superclass=(_)"@.len() != "+(_)"@.len());
            }
        }
        let ghost before = *self;
        self.install(CLASS_CLASS, "new()", SignatureKind::Method(0), PrimitiveFn::ClassNew);
        proof {
            VM::lemma_natives_step(first, before, *self, CLASS_CLASS, "new()"@, SignatureKind::Method(0), PrimitiveFn::ClassNew);
            VM::lemma_grown(first, before, *self);
            assert("superclass"@ != "new()"@) by {
                reveal_strlit("superclass");
                reveal_strlit("new()");
                assert("superclass"@.len() != "new()"@.len());
            }
            assert("superclass=(_)"@ != "new()"@) by {
                reveal_strlit("superclass=(_)");
                reveal_strlit("new()");
                assert("superclass=(_)"@.len() != "new()"@.len());
            }
            assert("+(_)"@ != "new()"@) by {
                reveal_strlit("+(_)");
                reveal_strlit("new()");
                assert("+(_)"@.len() != "new()"@.len());
            }
        }
    }

    fn install_number(&mut self)
        requires
            old(self).wf(),
            old(self).interner@.len() + 8 <= MAX_SYMBOLS,
        ensures
            final(self).wf(),
            old(self).grown(*final(self)),
            final(self).core_module == old(self).core_module,
            final(self).interner@.len() <= old(self).interner@.len() + 8,
            final(self).heap@.methods.len() == old(self).heap@.methods.len() + 8,
            old(self).natives_added(*final(self)),
            final(self).heap@.classes.len() == old(self).heap@.classes.len(),
            final(self).heap@.modules == old(self).heap@.modules,
            final(self).classes@ == old(self).classes@,
            final(self).responds(NUMBER_CLASS, "+(_)"@, SignatureKind::Method(1), PrimitiveFn::NumberAdd),
            final(self).responds(NUMBER_CLASS, "-(_)"@, SignatureKind::Method(1), PrimitiveFn::NumberSub),
            final(self).responds(NUMBER_CLASS, "*(_)"@, SignatureKind::Method(1), PrimitiveFn::NumberMul),
            final(self).responds(NUMBER_CLASS, "/(_)"@, SignatureKind::Method(1), PrimitiveFn::NumberDiv),
            final(self).responds(NUMBER_CLASS, "%(_)"@, SignatureKind::Method(1), PrimitiveFn::NumberMod),
            final(self).responds(NUMBER_CLASS, "name"@, SignatureKind::Getter, PrimitiveFn::NumberName),
            final(self).responds(NUMBER_METACLASS, "new()"@, SignatureKind::Method(0), PrimitiveFn::NumberClassNew),
            final(self).responds(NUMBER_METACLASS, "new(_)"@, SignatureKind::Method(1), PrimitiveFn::NumberClassNew),
            forall|c: ClassId, t: Seq<char>, k: SignatureKind, g: PrimitiveFn|
                old(self).responds(c, t, k, g) && c < old(self).heap@.classes.len() && c != NUMBER_CLASS && c != NUMBER_METACLASS ==> final(self).responds(c, t, k, g),
            forall|t: Seq<char>, v: Value| old(self).core_binds(t, v) ==> final(self).core_binds(t, v),
    {
        let ghost first = *self;
        proof {
            VM::lemma_grown_self(first);
            VM::lemma_natives_self(first);
            reveal(is_native);
            assert(first.heap@.classes.len() >= crate::heap::CORE_CLASS_COUNT);
        }
        let ghost before = *self;
        self.install(NUMBER_CLASS, "+(_)", SignatureKind::Method(1), PrimitiveFn::NumberAdd);
        proof {
            VM::lemma_natives_step(first, before, *self, NUMBER_CLASS, "+(_)"@, SignatureKind::Method(1), PrimitiveFn::NumberAdd);
            VM::lemma_grown(first, before, *self);
        }
        let ghost before = *self;
        self.install(NUMBER_CLASS, "-(_)", SignatureKind::Method(1), PrimitiveFn::NumberSub);
        proof {
            VM::lemma_natives_step(first, before, *self, NUMBER_CLASS, "-(_)"@, SignatureKind::Method(1), PrimitiveFn::NumberSub);
            VM::lemma_grown(first, before, *self);
            assert("+(_)"@ != "-(_)"@) by {
                reveal_strlit("+(_)");
                reveal_strlit("-(_)");
                assert("+(_)"@[0] != "-(_)"@[0]);
            }
        }
        let ghost before = *self;
        self.install(NUMBER_CLASS, "*(_)", SignatureKind::Method(1), PrimitiveFn::NumberMul);
        proof {
            VM::lemma_natives_step(first, before, *self, NUMBER_CLASS, "*(_)"@, SignatureKind::Method(1), PrimitiveFn::NumberMul);
            VM::lemma_grown(first, before, *self);
            assert("+(_)"@ != "*(_)"@) by {
                reveal_strlit("+(_)");
                reveal_strlit("*(_)");
                assert("+(_)"@[0] != "*(_)"@[0]);
            }
            assert("-(_)"@ != "*(_)"@) by {
                reveal_strlit("-(_)");
                reveal_strlit("*(_)");
                assert("-(_)"@[0] != "*(_)"@[0]);
            }
        }
        let ghost before = *self;
        self.install(NUMBER_CLASS, "/(_)", SignatureKind::Method(1), PrimitiveFn::NumberDiv);
        proof {
            VM::lemma_natives_step(first, before, *self, NUMBER_CLASS, "/(_)"@, SignatureKind::Method(1), PrimitiveFn::NumberDiv);
            VM::lemma_grown(first, before, *self);
            assert("+(_)"@ != "/(_)"@) by {
                reveal_strlit("+(_)");
                reveal_strlit("/(_)");
                assert("+(_)"@[0] != "/(_)"@[0]);
            }
            assert("-(_)"@ != "/(_)"@) by {
                reveal_strlit("-(_)");
                reveal_strlit("/(_)");
                assert("-(_)"@[0] != "/(_)"@[0]);
            }
            assert("*(_)"@ != "/(_)"@) by {
                reveal_strlit("*(_)");
                reveal_strlit("/(_)");
                assert("*(_)"@[0] != "/(_)"@[0]);
            }
        }
        let ghost before = *self;
        self.install(NUMBER_CLASS, "%(_)", SignatureKind::Method(1), PrimitiveFn::NumberMod);
        proof {
            VM::lemma_natives_step(first, before, *self, NUMBER_CLASS, "%(_)"@, SignatureKind::Method(1), PrimitiveFn::NumberMod);
            VM::lemma_grown(first, before, *self);
            assert("+(_)"@ != "%(_)"@) by {
                reveal_strlit("+(_)");
                reveal_strlit("%(_)");
                assert("+(_)"@[0] != "%(_)"@[0]);
            }
            assert("-(_)"@ != "%(_)"@) by {
                reveal_strlit("-(_)");
                reveal_strlit("%(_)");
                assert("-(_)"@[0] != "%(_)"@[0]);
            }
            assert("*(_)"@ != "%(_)"@) by {
                reveal_strlit("*(_)");
                reveal_strlit("%(_)");
                assert("*(_)"@[0] != "%(_)"@[0]);
            }
            assert("/(_)"@ != "%(_)"@) by {
                reveal_strlit("/(_)");
                reveal_strlit("%(_)");
                assert("/(_)"@[0] != "%(_)"@[0]);
            }
        }
        let ghost before = *self;
        self.install(NUMBER_CLASS, "name", SignatureKind::Getter, PrimitiveFn::NumberName);
        proof {
            VM::lemma_natives_step(first, before, *self, NUMBER_CLASS, "name"@, SignatureKind::Getter, PrimitiveFn::NumberName);
            VM::lemma_grown(first, before, *self);
            assert("+(_)"@ != "name"@) by {
                reveal_strlit("+(_)");
                reveal_strlit("name");
                assert("+(_)"@[0] != "name"@[0]);
            }
            assert("-(_)"@ != "name"@) by {
                reveal_strlit("-(_)");
                reveal_strlit("name");
                assert("-(_)"@[0] != "name"@[0]);
            }
            assert("*(_)"@ != "name"@) by {
                reveal_strlit("*(_)");
                reveal_strlit("name");
                assert("*(_)"@[0] != "name"@[0]);
            }
            assert("/(_)"@ != "name"@) by {
                reveal_strlit("/(_)");
                reveal_strlit("name");
                assert("/(_)"@[0] != "name"@[0]);
            }
            assert("%(_)"@ != "name"@) by {
                reveal_strlit("%(_)");
                reveal_strlit("name");
                assert("%(_)"@[0] != "name"@[0]);
            }
        }
        let ghost before = *self;
        self.install(NUMBER_METACLASS, "new()", SignatureKind::Method(0), PrimitiveFn::NumberClassNew);
        proof {
            VM::lemma_natives_step(first, before, *self, NUMBER_METACLASS, "new()"@, SignatureKind::Method(0), PrimitiveFn::NumberClassNew);
            VM::lemma_grown(first, before, *self);
        }
        let ghost before = *self;
        self.install(NUMBER_METACLASS, "new(_)", SignatureKind::Method(1), PrimitiveFn::NumberClassNew);
        proof {
            VM::lemma_natives_step(first, before, *self, NUMBER_METACLASS, "new(_)"@, SignatureKind::Method(1), PrimitiveFn::NumberClassNew);
            VM::lemma_grown(first, before, *self);
            assert("new()"@ != "new(_)"@) by {
                reveal_strlit("new()");
                reveal_strlit("new(_)");
                assert("new()"@.len() != "new(_)"@.len());
            }
        }
    }

    fn install_string(&mut self)
        requires
            old(self).wf(),
            old(self).interner@.len() + 5 <= MAX_SYMBOLS,
        ensures
            final(self).wf(),
            old(self).grown(*final(self)),
            final(self).core_module == old(self).core_module,
            final(self).interner@.len() <= old(self).interner@.len() + 5,
            final(self).heap@.methods.len() == old(self).heap@.methods.len() + 5,
            old(self).natives_added(*final(self)),
            final(self).heap@.classes.len() == old(self).heap@.classes.len(),
            final(self).heap@.modules == old(self).heap@.modules,
            final(self).classes@ == old(self).classes@,
            final(self).responds(STRING_CLASS, "+(_)"@, SignatureKind::Method(1), PrimitiveFn::StringAdd),
            final(self).responds(STRING_CLASS, "repeat(_)"@, SignatureKind::Method(1), PrimitiveFn::StringRepeat),
            final(self).responds(STRING_CLASS, "hash"@, SignatureKind::Getter, PrimitiveFn::StringHash),
            final(self).responds(STRING_METACLASS, "new()"@, SignatureKind::Method(0), PrimitiveFn::StringClassNew),
            final(self).responds(STRING_METACLASS, "new(_)"@, SignatureKind::Method(1), PrimitiveFn::StringClassNew),
            forall|c: ClassId, t: Seq<char>, k: SignatureKind, g: PrimitiveFn|
                old(self).responds(c, t, k, g) && c < old(self).heap@.classes.len() && c != STRING_CLASS && c != STRING_METACLASS ==> final(self).responds(c, t, k, g),
            forall|t: Seq<char>, v: Value| old(self).core_binds(t, v) ==> final(self).core_binds(t, v),
    {
        let ghost first = *self;
        proof {
            VM::lemma_grown_self(first);
            VM::lemma_natives_self(first);
            reveal(is_native);
            assert(first.heap@.classes.len() >= crate::heap::CORE_CLASS_COUNT);
        }
        let ghost before = *self;
        self.install(STRING_CLASS, "+(_)", SignatureKind::Method(1), PrimitiveFn::StringAdd);
        proof {
            VM::lemma_natives_step(first, before, *self, STRING_CLASS, "+(_)"@, SignatureKind::Method(1), PrimitiveFn::StringAdd);
            VM::lemma_grown(first, before, *self);
        }
        let ghost before = *self;
        self.install(STRING_CLASS, "repeat(_)", SignatureKind::Method(1), PrimitiveFn::StringRepeat);
        proof {
            VM::lemma_natives_step(first, before, *self, STRING_CLASS, "repeat(_)"@, SignatureKind::Method(1), PrimitiveFn::StringRepeat);
            VM::lemma_grown(first, before, *self);
            assert("+(_)"@ != "repeat(_)"@) by {
                reveal_strlit("+(_)");
                reveal_strlit("repeat(_)");
                assert("+(_)"@.len() != "repeat(_)"@.len());
            }
        }
        let ghost before = *self;
        self.install(STRING_CLASS, "hash", SignatureKind::Getter, PrimitiveFn::StringHash);
        proof {
            VM::lemma_natives_step(first, before, *self, STRING_CLASS, "hash"@, SignatureKind::Getter, PrimitiveFn::StringHash);
            VM::lemma_grown(first, before, *self);
            assert("+(_)"@ != "hash"@) by {
                reveal_strlit("+(_)");
                reveal_strlit("hash");
                assert("+(_)"@[0] != "hash"@[0]);
            }
            assert("repeat(_)"@ != "hash"@) by {
                reveal_strlit("repeat(_)");
                reveal_strlit("hash");
                assert("repeat(_)"@.len() != "hash"@.len());
            }
        }
        let ghost before = *self;
        self.install(STRING_METACLASS, "new()", SignatureKind::Method(0), PrimitiveFn::StringClassNew);
        proof {
            VM::lemma_natives_step(first, before, *self, STRING_METACLASS, "new()"@, SignatureKind::Method(0), PrimitiveFn::StringClassNew);
            VM::lemma_grown(first, before, *self);
        }
        let ghost before = *self;
        self.install(STRING_METACLASS, "new(_)", SignatureKind::Method(1), PrimitiveFn::StringClassNew);
        proof {
            VM::lemma_natives_step(first, before, *self, STRING_METACLASS, "new(_)"@, SignatureKind::Method(1), PrimitiveFn::StringClassNew);
            VM::lemma_grown(first, before, *self);
            assert("new()"@ != "new(_)"@) by {
                reveal_strlit("new()");
                reveal_strlit("new(_)");
                assert("new()"@.len() != "new(_)"@.len());
            }
        }
    }

    fn install_others(&mut self)
        requires
            old(self).wf(),
            old(self).interner@.len() + 8 <= MAX_SYMBOLS,
        ensures
            final(self).wf(),
            old(self).grown(*final(self)),
            final(self).core_module == old(self).core_module,
            final(self).interner@.len() <= old(self).interner@.len() + 8,
            final(self).heap@.methods.len() == old(self).heap@.methods.len() + 8,
            old(self).natives_added(*final(self)),
            final(self).heap@.classes.len() == old(self).heap@.classes.len(),
            final(self).heap@.modules == old(self).heap@.modules,
            final(self).classes@ == old(self).classes@,
            final(self).responds(BOOL_METACLASS, "new()"@, SignatureKind::Method(0), PrimitiveFn::BoolClassNew),
            final(self).responds(BOOL_METACLASS, "new(_)"@, SignatureKind::Method(1), PrimitiveFn::BoolClassNew),
            final(self).responds(NIL_METACLASS, "new()"@, SignatureKind::Method(0), PrimitiveFn::NilClassNew),
            final(self).responds(SYMBOL_CLASS, "toString"@, SignatureKind::Getter, PrimitiveFn::SymbolToString),
            final(self).responds(SYMBOL_METACLASS, "new(_)"@, SignatureKind::Method(1), PrimitiveFn::SymbolClassNew),
            final(self).responds(METHOD_METACLASS, "new(_)"@, SignatureKind::Method(1), PrimitiveFn::MethodClassNew),
            final(self).responds(SYSTEM_METACLASS, "print(_)"@, SignatureKind::Method(1), PrimitiveFn::SystemClassPrint),
            final(self).responds(SYSTEM_METACLASS, "new()"@, SignatureKind::Method(0), PrimitiveFn::SystemClassNew),
            forall|c: ClassId, t: Seq<char>, k: SignatureKind, g: PrimitiveFn|
                old(self).responds(c, t, k, g) && c < old(self).heap@.classes.len() && c != BOOL_METACLASS && c != NIL_METACLASS && c != SYMBOL_CLASS && c != SYMBOL_METACLASS && c != METHOD_METACLASS && c != SYSTEM_METACLASS ==> final(self).responds(c, t, k, g),
            forall|t: Seq<char>, v: Value| old(self).core_binds(t, v) ==> final(self).core_binds(t, v),
    {
        let ghost first = *self;
        proof {
            VM::lemma_grown_self(first);
            VM::lemma_natives_self(first);
            reveal(is_native);
            assert(first.heap@.classes.len() >= crate::heap::CORE_CLASS_COUNT);
        }
        let ghost before = *self;
        self.install(BOOL_METACLASS, "new()", SignatureKind::Method(0), PrimitiveFn::BoolClassNew);
        proof {
            VM::lemma_natives_step(first, before, *self, BOOL_METACLASS, "new()"@, SignatureKind::Method(0), PrimitiveFn::BoolClassNew);
            VM::lemma_grown(first, before, *self);
        }
        let ghost before = *self;
        self.install(BOOL_METACLASS, "new(_)", SignatureKind::Method(1), PrimitiveFn::BoolClassNew);
        proof {
            VM::lemma_natives_step(first, before, *self, BOOL_METACLASS, "new(_)"@, SignatureKind::Method(1), PrimitiveFn::BoolClassNew);
            VM::lemma_grown(first, before, *self);
            assert("new()"@ != "new(_)"@) by {
                reveal_strlit("new()");
                reveal_strlit("new(_)");
                assert("new()"@.len() != "new(_)"@.len());
            }
        }
        let ghost before = *self;
        self.install(NIL_METACLASS, "new()", SignatureKind::Method(0), PrimitiveFn::NilClassNew);
        proof {
            VM::lemma_natives_step(first, before, *self, NIL_METACLASS, "new()"@, SignatureKind::Method(0), PrimitiveFn::NilClassNew);
            VM::lemma_grown(first, before, *self);
        }
        let ghost before = *self;
        self.install(SYMBOL_CLASS, "toString", SignatureKind::Getter, PrimitiveFn::SymbolToString);
        proof {
            VM::lemma_natives_step(first, before, *self, SYMBOL_CLASS, "toString"@, SignatureKind::Getter, PrimitiveFn::SymbolToString);
            VM::lemma_grown(first, before, *self);
        }
        let ghost before = *self;
        self.install(SYMBOL_METACLASS, "new(_)", SignatureKind::Method(1), PrimitiveFn::SymbolClassNew);
        proof {
            VM::lemma_natives_step(first, before, *self, SYMBOL_METACLASS, "new(_)"@, SignatureKind::Method(1), PrimitiveFn::SymbolClassNew);
            VM::lemma_grown(first, before, *self);
        }
        let ghost before = *self;
        self.install(METHOD_METACLASS, "new(_)", SignatureKind::Method(1), PrimitiveFn::MethodClassNew);
        proof {
            VM::lemma_natives_step(first, before, *self, METHOD_METACLASS, "new(_)"@, SignatureKind::Method(1), PrimitiveFn::MethodClassNew);
            VM::lemma_grown(first, before, *self);
        }
        let ghost before = *self;
        self.install(SYSTEM_METACLASS, "print(_)", SignatureKind::Method(1), PrimitiveFn::SystemClassPrint);
        proof {
            VM::lemma_natives_step(first, before, *self, SYSTEM_METACLASS, "print(_)"@, SignatureKind::Method(1), PrimitiveFn::SystemClassPrint);
            VM::lemma_grown(first, before, *self);
        }
        let ghost before = *self;
        self.install(SYSTEM_METACLASS, "new()", SignatureKind::Method(0), PrimitiveFn::SystemClassNew);
        proof {
            VM::lemma_natives_step(first, before, *self, SYSTEM_METACLASS, "new()"@, SignatureKind::Method(0), PrimitiveFn::SystemClassNew);
            VM::lemma_grown(first, before, *self);
            assert("print(_)"@ != "new()"@) by {
                reveal_strlit("print(_)");
                reveal_strlit("new()");
                assert("print(_)"@.len() != "new()"@.len());
            }
        }
    }

    /// True when every core class holds its native methods: the instance
    /// methods in the class, the class-side methods in its metaclass.
    pub open spec fn has_primitives(&self) -> bool {
        &&& self.responds(OBJECT_CLASS, "name"@, SignatureKind::Getter, PrimitiveFn::ObjectName)
        &&& self.responds(OBJECT_CLASS, "class"@, SignatureKind::Getter, PrimitiveFn::ObjectClass)
        &&& self.responds(OBJECT_CLASS, "class=(_)"@, SignatureKind::Setter, PrimitiveFn::ObjectSetClass)
        &&& self.responds(OBJECT_CLASS, "toString"@, SignatureKind::Getter, PrimitiveFn::ObjectName)
        &&& self.responds(
            OBJECT_METACLASS,
            "new()"@,
            SignatureKind::Method(0),
            PrimitiveFn::ObjectClassNew,
        )
        &&& self.responds(CLASS_CLASS, "superclass"@, SignatureKind::Getter, PrimitiveFn::ClassSuperclass)
        &&& self.responds(
            CLASS_CLASS,
            "superclass=(_)"@,
            SignatureKind::Setter,
            PrimitiveFn::ClassSetSuperclass,
        )
        &&& self.responds(CLASS_CLASS, "+(_)"@, SignatureKind::Method(1), PrimitiveFn::ClassAdd)
        &&& self.responds(CLASS_CLASS, "new()"@, SignatureKind::Method(0), PrimitiveFn::ClassNew)
        &&& self.responds(NUMBER_CLASS, "+(_)"@, SignatureKind::Method(1), PrimitiveFn::NumberAdd)
        &&& self.responds(NUMBER_CLASS, "-(_)"@, SignatureKind::Method(1), PrimitiveFn::NumberSub)
        &&& self.responds(NUMBER_CLASS, "*(_)"@, SignatureKind::Method(1), PrimitiveFn::NumberMul)
        &&& self.responds(NUMBER_CLASS, "/(_)"@, SignatureKind::Method(1), PrimitiveFn::NumberDiv)
        &&& self.responds(NUMBER_CLASS, "%(_)"@, SignatureKind::Method(1), PrimitiveFn::NumberMod)
        &&& self.responds(NUMBER_CLASS, "name"@, SignatureKind::Getter, PrimitiveFn::NumberName)
        &&& self.responds(
            NUMBER_METACLASS,
            "new()"@,
            SignatureKind::Method(0),
            PrimitiveFn::NumberClassNew,
        )
        &&& self.responds(
            NUMBER_METACLASS,
            "new(_)"@,
            SignatureKind::Method(1),
            PrimitiveFn::NumberClassNew,
        )
        &&& self.responds(STRING_CLASS, "+(_)"@, SignatureKind::Method(1), PrimitiveFn::StringAdd)
        &&& self.responds(STRING_CLASS, "repeat(_)"@, SignatureKind::Method(1), PrimitiveFn::StringRepeat)
        &&& self.responds(STRING_CLASS, "hash"@, SignatureKind::Getter, PrimitiveFn::StringHash)
        &&& self.responds(
            STRING_METACLASS,
            "new()"@,
            SignatureKind::Method(0),
            PrimitiveFn::StringClassNew,
        )
        &&& self.responds(
            STRING_METACLASS,
            "new(_)"@,
            SignatureKind::Method(1),
            PrimitiveFn::StringClassNew,
        )
        &&& self.responds(BOOL_METACLASS, "new()"@, SignatureKind::Method(0), PrimitiveFn::BoolClassNew)
        &&& self.responds(BOOL_METACLASS, "new(_)"@, SignatureKind::Method(1), PrimitiveFn::BoolClassNew)
        &&& self.responds(NIL_METACLASS, "new()"@, SignatureKind::Method(0), PrimitiveFn::NilClassNew)
        &&& self.responds(SYMBOL_CLASS, "toString"@, SignatureKind::Getter, PrimitiveFn::SymbolToString)
        &&& self.responds(
            SYMBOL_METACLASS,
            "new(_)"@,
            SignatureKind::Method(1),
            PrimitiveFn::SymbolClassNew,
        )
        &&& self.responds(
            METHOD_METACLASS,
            "new(_)"@,
            SignatureKind::Method(1),
            PrimitiveFn::MethodClassNew,
        )
        &&& self.responds(
            SYSTEM_METACLASS,
            "print(_)"@,
            SignatureKind::Method(1),
            PrimitiveFn::SystemClassPrint,
        )
        &&& self.responds(
            SYSTEM_METACLASS,
            "new()"@,
            SignatureKind::Method(0),
            PrimitiveFn::SystemClassNew,
        )
    }

    /// True when the core module is registered under the name `core`, and
    /// carries that name.
    pub open spec fn registers_core(&self) -> bool {
        let symbol = index_of(self.interner@, "core"@) as u32;
        &&& is_interned(self.interner@, "core"@)
        &&& self.modules@.contains_key(symbol)
        &&& self.modules@[symbol] == self.core_module
        &&& self.heap@.modules[self.core_module as int].name@ == "core"@
        &&& self.heap@.modules[self.core_module as int].name_sym == Symbol(symbol)
    }

    /// True when every symbol is the selector of an operator or of a
    /// native method, or a name that the core module binds from the
    /// start.
    pub open spec fn only_known_texts(&self) -> bool {
        forall|i: int|
            0 <= i < self.interner@.len() ==> is_operator(#[trigger] self.interner@[i])
                || is_core_name(self.interner@[i]) || is_native_selector(self.interner@[i])
    }

    /// True when every method of a class stands under the selector of a
    /// native method of the runtime.
    pub open spec fn only_natives(&self) -> bool {
        forall|c: int, s: Symbol|
            0 <= c < self.heap@.classes.len() && #[trigger] self.heap@.classes[c].methods@.contains_key(
                s,
            ) ==> s.0 < self.interner@.len() && is_native(c as ClassId, self.interner@[s.0 as int])
    }

    /// True when every name that the core module binds is one that the
    /// runtime binds itself.
    pub open spec fn only_core_names(&self) -> bool {
        forall|s: Symbol| #[trigger]
            self.heap@.modules[self.core_module as int]@.slots.contains_key(s) ==> s.0
                < self.interner@.len() && is_core_name(self.interner@[s.0 as int])
    }

    /// True when no module is registered but under the name `core`.
    pub open spec fn registers_only_core(&self) -> bool {
        forall|k: u32| #[trigger]
            self.modules@.contains_key(k) ==> k == index_of(self.interner@, "core"@)
    }

    /// True when every core class is registered under its name.
    pub open spec fn has_classes(&self) -> bool {
        &&& self.registers("Object"@, OBJECT_CLASS)
        &&& self.registers("Class"@, CLASS_CLASS)
        &&& self.registers("Metaclass"@, METACLASS_CLASS)
        &&& self.registers("Number"@, NUMBER_CLASS)
        &&& self.registers("String"@, STRING_CLASS)
        &&& self.registers("Bool"@, BOOL_CLASS)
        &&& self.registers("Nil"@, NIL_CLASS)
        &&& self.registers("Method"@, METHOD_CLASS)
        &&& self.registers("Symbol"@, SYMBOL_CLASS)
        &&& self.registers("Module"@, MODULE_CLASS)
        &&& self.registers("System"@, SYSTEM_CLASS)
    }

    /// True when every registered class is a core class under its name.
    pub open spec fn only_core_classes(&self) -> bool {
        forall|k: u32| #[trigger]
            self.classes@.contains_key(k) ==> k < self.interner@.len() && is_core_class(
                self.interner@[k as int],
                self.classes@[k],
            )
    }

    /// A runtime that registers every core class still does where the
    /// registry is the same and the interner has grown.
    pub proof fn lemma_has_classes_kept(a: VM, b: VM)
        requires
            a.grown(b),
            b.classes@ == a.classes@,
            distinct(b.interner@),
            a.has_classes(),
        ensures
            b.has_classes(),
    {
        VM::lemma_registers_kept(a, b, "Object"@, OBJECT_CLASS);
        VM::lemma_registers_kept(a, b, "Class"@, CLASS_CLASS);
        VM::lemma_registers_kept(a, b, "Metaclass"@, METACLASS_CLASS);
        VM::lemma_registers_kept(a, b, "Number"@, NUMBER_CLASS);
        VM::lemma_registers_kept(a, b, "String"@, STRING_CLASS);
        VM::lemma_registers_kept(a, b, "Bool"@, BOOL_CLASS);
        VM::lemma_registers_kept(a, b, "Nil"@, NIL_CLASS);
        VM::lemma_registers_kept(a, b, "Method"@, METHOD_CLASS);
        VM::lemma_registers_kept(a, b, "Symbol"@, SYMBOL_CLASS);
        VM::lemma_registers_kept(a, b, "Module"@, MODULE_CLASS);
        VM::lemma_registers_kept(a, b, "System"@, SYSTEM_CLASS);
    }

    /// True when the core module binds every core class and itself.
    pub open spec fn has_core(&self) -> bool {
        &&& self.core_binds("Object"@, Value::Class(OBJECT_CLASS))
        &&& self.core_binds("Class"@, Value::Class(CLASS_CLASS))
        &&& self.core_binds("Metaclass"@, Value::Class(METACLASS_CLASS))
        &&& self.core_binds("Number"@, Value::Class(NUMBER_CLASS))
        &&& self.core_binds("String"@, Value::Class(STRING_CLASS))
        &&& self.core_binds("Bool"@, Value::Class(BOOL_CLASS))
        &&& self.core_binds("Nil"@, Value::Class(NIL_CLASS))
        &&& self.core_binds("Method"@, Value::Class(METHOD_CLASS))
        &&& self.core_binds("Symbol"@, Value::Class(SYMBOL_CLASS))
        &&& self.core_binds("Module"@, Value::Class(MODULE_CLASS))
        &&& self.core_binds("System"@, Value::Class(SYSTEM_CLASS))
        &&& self.core_binds("core"@, Value::Module(self.core_module))
    }
}

impl Universe {
    /// Attaches the native methods to the core classes: instance methods
    /// to the class itself, class-side methods to its metaclass.
    pub fn install_primitives(vm: &mut VM)
        requires
            old(vm).wf(),
            old(vm).interner@.len() + 30 <= MAX_SYMBOLS,
        ensures
            final(vm).wf(),
            old(vm).grown(*final(vm)),
            final(vm).core_module == old(vm).core_module,
            final(vm).interner@.len() <= old(vm).interner@.len() + 30,
            final(vm).heap@.methods.len() == old(vm).heap@.methods.len() + 30,
            final(vm).heap@.classes.len() == old(vm).heap@.classes.len(),
            final(vm).heap@.modules == old(vm).heap@.modules,
            final(vm).classes@ == old(vm).classes@,
            old(vm).natives_added(*final(vm)),
            final(vm).has_primitives(),
            forall|t: Seq<char>, v: Value| old(vm).core_binds(t, v) ==> final(vm).core_binds(t, v),
    {
        let ghost before = *vm;
        proof {
            assert(before.heap@.classes.len() >= crate::heap::CORE_CLASS_COUNT);
        }
        vm.install_object();
        let ghost first = *vm;
        vm.install_class();
        let ghost second = *vm;
        vm.install_number();
        let ghost third = *vm;
        vm.install_string();
        let ghost fourth = *vm;
        vm.install_others();
        proof {
            VM::lemma_grown(before, first, second);
            VM::lemma_natives_trans(before, first, second);
            VM::lemma_grown(before, second, third);
            VM::lemma_natives_trans(before, second, third);
            VM::lemma_grown(before, third, fourth);
            VM::lemma_natives_trans(before, third, fourth);
            VM::lemma_grown(before, fourth, *vm);
            VM::lemma_natives_trans(before, fourth, *vm);
        }
    }
}

/// Interns the selectors that the evaluator itself sends.
fn intern_selectors(interner: &mut Interner) -> (selectors: Selectors)
    requires
        old(interner).wf(),
        old(interner)@.len() == 0,
    ensures
        final(interner).wf(),
        final(interner)@.len() <= 9,
        forall|i: int| 0 <= i < final(interner)@.len() ==> is_operator(#[trigger] final(interner)@[i]),
        selectors.wf(final(interner)@),
{
    proof {
        reveal(is_operator);
    }
    let add = interner.intern("+(_)");
    assert(forall|i: int| 0 <= i < interner@.len() ==> is_operator(#[trigger] interner@[i]));
    let sub = interner.intern("-(_)");
    assert(forall|i: int| 0 <= i < interner@.len() ==> is_operator(#[trigger] interner@[i]));
    let mul = interner.intern("*(_)");
    assert(forall|i: int| 0 <= i < interner@.len() ==> is_operator(#[trigger] interner@[i]));
    let div = interner.intern("/(_)");
    assert(forall|i: int| 0 <= i < interner@.len() ==> is_operator(#[trigger] interner@[i]));
    let modulo = interner.intern("%(_)");
    assert(forall|i: int| 0 <= i < interner@.len() ==> is_operator(#[trigger] interner@[i]));
    let lt = interner.intern("<(_)");
    assert(forall|i: int| 0 <= i < interner@.len() ==> is_operator(#[trigger] interner@[i]));
    let le = interner.intern("<=(_)");
    assert(forall|i: int| 0 <= i < interner@.len() ==> is_operator(#[trigger] interner@[i]));
    let gt = interner.intern(">(_)");
    assert(forall|i: int| 0 <= i < interner@.len() ==> is_operator(#[trigger] interner@[i]));
    let ge = interner.intern(">=(_)");
    assert(forall|i: int| 0 <= i < interner@.len() ==> is_operator(#[trigger] interner@[i]));
    Selectors { add, sub, mul, div, modulo, lt, le, gt, ge }
}

impl VM {
    /// A runtime with a bootstrapped heap and an empty core module, and
    /// nothing installed.
    fn bare() -> (vm: VM)
        ensures
            vm.wf(),
            vm.heap.all_named(),
            vm.frames@.len() == 0,
            vm.stack@.len() == 0,
            vm.pending@ == PendingView::Idle,
            vm.heap@.classes.len() == crate::heap::CORE_CLASS_COUNT,
            vm.heap@.instances.len() == 0,
            vm.heap@.closures.len() == 0,
            vm.heap@.modules.len() == 1,
            vm.core_module == 0,
            vm.interner@.len() <= 10,
            forall|i: int|
                0 <= i < vm.interner@.len() ==> is_operator(#[trigger] vm.interner@[i])
                    || is_core_name(vm.interner@[i]),
            vm.heap@.methods.len() == 0,
            forall|c: int|
                0 <= c < vm.heap@.classes.len() ==> (#[trigger] vm.heap@.classes[c]).methods@.dom()
                    == Set::<Symbol>::empty(),
            vm.heap@.modules[0]@.globals.len() == 0,
            vm.heap@.modules[0]@.slots == Map::<Symbol, usize>::empty(),
            vm.heap@.modules[0].source is None,
            vm.registers_core(),
            vm.registers_only_core(),
            vm.classes@ == Map::<u32, usize>::empty(),
    {
        let mut interner = Interner::with_capacity(100);
        let selectors = intern_selectors(&mut interner);
        let core_sym = interner.intern("core");
        proof {
            reveal(is_core_name);
            assert(forall|i: int|
                0 <= i < interner@.len() ==> is_operator(#[trigger] interner@[i]) || is_core_name(
                    interner@[i],
                ));
        }
        let (universe, mut heap) = Universe::new();
        let core_module = heap.new_module(ModuleObject::new("core", core_sym, None));
        let mut modules: HashMap<u32, usize> = HashMap::new();
        let _ = modules.insert(core_sym.0, core_module);
        proof {
            interner.lemma_wf_distinct();
            assert(interner@[core_sym.0 as int] == "core"@);
            assert(is_interned(interner@, "core"@));
            assert(index_of(interner@, "core"@) == core_sym.0);
        }
        VM {
            frames: Vec::new(),
            stack: Vec::new(),
            modules,
            classes: HashMap::new(),
            interner,
            universe,
            heap,
            pending: Pending::Idle,
            selectors,
            core_module,
        }
    }

    /// Creates a runtime: bootstraps the class tower, binds the core
    /// classes in the core module, registers them, and installs the
    /// native methods. The runtime holds nothing besides.
    pub fn new() -> (vm: VM)
        ensures
            vm.wf(),
            vm.heap.all_named(),
            vm.frames@.len() == 0,
            vm.stack@.len() == 0,
            vm.pending@ == PendingView::Idle,
            vm.heap@.classes.len() == crate::heap::CORE_CLASS_COUNT,
            vm.heap@.instances.len() == 0,
            vm.heap@.closures.len() == 0,
            vm.heap@.modules.len() == 1,
            vm.core_module == 0,
            vm.interner@.len() <= 52,
            vm.only_known_texts(),
            vm.heap@.methods.len() == 30,
            vm.heap@.modules[0]@.globals.len() <= 12,
            vm.heap@.modules[0].source is None,
            vm.registers_core(),
            vm.registers_only_core(),
            vm.has_core(),
            vm.only_core_names(),
            vm.has_classes(),
            vm.only_core_classes(),
            vm.has_primitives(),
            vm.only_natives(),
    {
        let mut vm = VM::bare();
        let ghost bare = vm;
        vm.install_core();
        let ghost bound = vm;
        Universe::install_primitives(&mut vm);
        proof {
            VM::lemma_grown(bare, bound, vm);
            reveal(VM::grown);
            vm.interner.lemma_wf_distinct();
            lemma_index_stable(bare.interner@, vm.interner@, "core"@);
            VM::lemma_has_classes_kept(bound, vm);
            reveal(VM::names_added);
            reveal(VM::natives_added);
            reveal(VM::classes_added);
            assert forall|i: int| 0 <= i < vm.interner@.len() implies is_operator(
                #[trigger] vm.interner@[i],
            ) || is_core_name(vm.interner@[i]) || is_native_selector(vm.interner@[i]) by {
                if i < bare.interner@.len() {
                    assert(bare.interner@[i] == vm.interner@[i]);
                } else if i < bound.interner@.len() {
                    assert(bound.interner@[i] == vm.interner@[i]);
                }
            }
            assert forall|k: u32| #[trigger] vm.classes@.contains_key(k) implies k
                < vm.interner@.len() && is_core_class(vm.interner@[k as int], vm.classes@[k]) by {
                assert(bound.classes@.contains_key(k));
                assert(!bare.classes@.contains_key(k));
            }
            assert forall|s: Symbol| #[trigger]
                vm.heap@.modules[0]@.slots.contains_key(s) implies s.0 < vm.interner@.len()
                && is_core_name(vm.interner@[s.0 as int]) by {
                assert(bound.heap@.modules[0]@.slots.contains_key(s));
                assert(!bare.heap@.modules[0]@.slots.contains_key(s));
            }
            assert forall|c: int, s: Symbol|
                0 <= c < vm.heap@.classes.len() && #[trigger] vm.heap@.classes[c].methods@.contains_key(
                    s,
                ) implies s.0 < vm.interner@.len() && is_native(
                c as ClassId,
                vm.interner@[s.0 as int],
            ) by {
                assert(bare.heap@.classes[c].methods@.dom() == Set::<Symbol>::empty());
                assert(!bare.heap@.classes[c].methods@.dom().contains(s));
                assert(bound.heap@.classes[c] == bare.heap@.classes[c]);
            }
        }
        vm
    }
}

} // verus!
