//! Methods: a signature and a body that is either bytecode or native.

use vstd::prelude::*;
use crate::interner::Symbol;
use crate::text::concat2;
use crate::value::{ClassId, ClosureId};

verus! {

/// The calling shape of a method.
#[derive(Clone, Copy, PartialEq, Eq, Debug, Structural)]
pub enum SignatureKind {
    /// `init new(_,_)`
    Initializer(u8),
    /// `foo(_,_,_)`
    Method(u8),
    /// `foo`
    Getter,
    /// `foo=(_)`
    Setter,
    /// `[_]`
    SubscriptGet(u8),
    /// `[_]=(_)`
    SubscriptSet(u8),
}

/// Selector and calling shape of a method.
#[derive(Clone, Copy, PartialEq, Eq, Debug, Structural)]
pub struct Signature {
    pub selector: Symbol,
    pub kind: SignatureKind,
}

impl Signature {
    pub fn new(selector: Symbol, kind: SignatureKind) -> (s: Self)
        ensures
            s.selector == selector,
            s.kind == kind,
    {
        Signature { selector, kind }
    }
}

/// `n` underscores joined by commas: 3 gives `_,_,_`.
pub open spec fn underscores(n: nat) -> Seq<char>
    decreases n,
{
    if n == 0 {
        Seq::<char>::empty()
    } else if n == 1 {
        "_"@
    } else {
        underscores((n - 1) as nat) + ",_"@
    }
}

/// The textual signature of a method of the given base name and shape.
pub open spec fn signature_text(base: Seq<char>, kind: SignatureKind) -> Seq<char> {
    match kind {
        SignatureKind::Initializer(n) => "init "@ + base + "("@ + underscores(n as nat) + ")"@,
        SignatureKind::Method(n) => base + "("@ + underscores(n as nat) + ")"@,
        SignatureKind::Getter => base,
        SignatureKind::Setter => base + "=(_)"@,
        SignatureKind::SubscriptGet(n) => "["@ + underscores(n as nat) + "]"@,
        SignatureKind::SubscriptSet(n) => "["@ + underscores(n as nat) + "]=(_)"@,
    }
}

fn underscore_list(n: u8) -> (s: String)
    ensures
        s@ == underscores(n as nat),
{
    let mut s = String::new();
    let mut i: u8 = 0;
    while i < n
        invariant
            i <= n,
            s@ == underscores(i as nat),
        decreases n - i,
    {
        if i == 0 {
            s.append("_");
            proof {
                assert(s@ =~= "_"@);
            }
        } else {
            s.append(",_");
        }
        i += 1;
    }
    s
}

/// Turn a base name like `foo` plus a `SignatureKind` into the textual
/// signature used by the compiler and the evaluator.
pub fn make_signature(base: &str, kind: SignatureKind) -> (s: String)
    ensures
        s@ == signature_text(base@, kind),
{
    match kind {
        SignatureKind::Initializer(n) => {
            let mut s = concat2("init ", base);
            s.append("(");
            let u = underscore_list(n);
            s.append(u.as_str());
            s.append(")");
            s
        },
        SignatureKind::Method(n) => {
            let mut s = concat2(base, "(");
            let u = underscore_list(n);
            s.append(u.as_str());
            s.append(")");
            s
        },
        SignatureKind::Getter => base.to_owned(),
        SignatureKind::Setter => concat2(base, "=(_)"),
        SignatureKind::SubscriptGet(n) => {
            let mut s = "[".to_owned();
            let u = underscore_list(n);
            s.append(u.as_str());
            s.append("]");
            s
        },
        SignatureKind::SubscriptSet(n) => {
            let mut s = "[".to_owned();
            let u = underscore_list(n);
            s.append(u.as_str());
            s.append("]=(_)");
            s
        },
    }
}

/// The native methods of the core classes.
#[derive(Clone, Copy, PartialEq, Eq, Debug, Structural)]
pub enum PrimitiveFn {
    /// `Object::name`, `Object::toString`
    ObjectName,
    /// `Object::class`
    ObjectClass,
    /// `Object::class=(_)`
    ObjectSetClass,
    /// `Object.class::new()`
    ObjectClassNew,
    /// `Class::superclass`
    ClassSuperclass,
    /// `Class::superclass=(_)`
    ClassSetSuperclass,
    /// `Class::+(_)`
    ClassAdd,
    /// `Class::new()`
    ClassNew,
    /// `Number::name`
    NumberName,
    /// `Number::+(_)`
    NumberAdd,
    /// `Number::-(_)`
    NumberSub,
    /// `Number::*(_)`
    NumberMul,
    /// `Number::/(_)`
    NumberDiv,
    /// `Number::%(_)`
    NumberMod,
    /// `Number.class::new()`, `Number.class::new(_)`
    NumberClassNew,
    /// `String::+(_)`
    StringAdd,
    /// `String::repeat(_)`
    StringRepeat,
    /// `String::hash`
    StringHash,
    /// `String.class::new()`, `String.class::new(_)`
    StringClassNew,
    /// `Bool.class::new()`, `Bool.class::new(_)`
    BoolClassNew,
    /// `Nil.class::new()`
    NilClassNew,
    /// `Symbol::toString`
    SymbolToString,
    /// `Symbol.class::new(_)`
    SymbolClassNew,
    /// `Method.class::new(_)`
    MethodClassNew,
    /// `System.class::print(_)`
    SystemClassPrint,
    /// `System.class::new()`
    SystemClassNew,
}

/// The body of a method.
#[derive(Clone, Copy, PartialEq, Eq, Debug, Structural)]
pub enum MethodKind {
    /// Phalcom code compiled to bytecode.
    Closure(ClosureId),
    /// A native function for core library methods.
    Primitive(PrimitiveFn),
}

/// A method: signature, body, and the class that holds it, once attached.
#[derive(Clone, Copy, PartialEq, Eq, Debug, Structural)]
pub struct MethodObject {
    pub kind: MethodKind,
    pub signature: Signature,
    pub holder: Option<ClassId>,
}

impl MethodObject {
    /// A method that no class holds yet.
    pub fn new(selector: Symbol, sig_kind: SignatureKind, kind: MethodKind) -> (m: Self)
        ensures
            m == (MethodObject {
                kind,
                signature: Signature { selector, kind: sig_kind },
                holder: None,
            }),
    {
        let signature = Signature::new(selector, sig_kind);
        MethodObject { kind, signature, holder: None }
    }

    /// A native method that no class holds yet.
    pub fn primitive(selector: Symbol, sig_kind: SignatureKind, primitive: PrimitiveFn) -> (m: Self)
        ensures
            m == (MethodObject {
                kind: MethodKind::Primitive(primitive),
                signature: Signature { selector, kind: sig_kind },
                holder: None,
            }),
    {
        MethodObject::new(selector, sig_kind, MethodKind::Primitive(primitive))
    }

    /// A native method held by `holder`.
    pub fn new_primitive(
        selector: Symbol,
        sig_kind: SignatureKind,
        primitive: PrimitiveFn,
        holder: ClassId,
    ) -> (m: Self)
        ensures
            m == (MethodObject {
                kind: MethodKind::Primitive(primitive),
                signature: Signature { selector, kind: sig_kind },
                holder: Some(holder),
            }),
    {
        MethodObject {
            kind: MethodKind::Primitive(primitive),
            signature: Signature::new(selector, sig_kind),
            holder: Some(holder),
        }
    }

    /// Records the class that holds the method.
    pub fn set_holder(&mut self, holder: ClassId)
        ensures
            *final(self) == (MethodObject { holder: Some(holder), ..*old(self) }),
    {
        self.holder = Some(holder);
    }

    pub fn selector(&self) -> (s: Symbol)
        ensures
            s == self.signature.selector,
    {
        self.signature.selector
    }

    pub fn is_primitive(&self) -> (r: bool)
        ensures
            r == (self.kind is Primitive),
    {
        matches!(self.kind, MethodKind::Primitive(_))
    }

    pub fn is_closure(&self) -> (r: bool)
        ensures
            r == (self.kind is Closure),
    {
        matches!(self.kind, MethodKind::Closure(_))
    }
}

} // verus!
