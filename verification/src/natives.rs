//! The native methods of the core library.

use vstd::prelude::*;
use crate::error::{Fault, RuntimeError};
use crate::heap::HeapView;
use crate::host::{HostRequest, Pending, PendingView, RequestView, TextUse};
use crate::interner::{
    is_interned, symbol_after_intern, table_after_intern, Symbol, MAX_SYMBOLS,
};
use crate::method::PrimitiveFn;
use crate::number::{is_zero, number_eq, number_equals, number_is_zero, ArithOp, ONE_BITS, ZERO_BITS};
use crate::text::concat2;
use crate::universe::class_of;
use crate::value::{kind_name_spec, ClassId, Value};
use crate::vm::{display_text, name_text, symbol_text, VM};

verus! {

/// What a native method hands back: a value, or a request to the host
/// together with what the answer is for.
#[derive(Debug)]
pub enum PrimitiveResult {
    Value(Value),
    Ask(HostRequest, Pending),
}

/// What a call of a native method is to give.
pub enum Expect {
    /// The call fails.
    Fail(Fault),
    /// The call gives this value.
    Val(Value),
    /// The call gives a string of this text.
    Str(Seq<char>),
    /// The call makes an instance of this class and gives it.
    Instance(ClassId),
    /// The call interns this text and gives its symbol.
    Sym(Seq<char>),
    /// The call asks the host.
    Ask(RequestView, PendingView),
}

/// The failure for a value of the wrong kind.
pub open spec fn type_fault(expected: Seq<char>, found: Value) -> Fault {
    Fault::Type { expected, found: kind_name_spec(found) }
}

/// The failure for a reference to an object that does not exist.
pub open spec fn dangling() -> Fault {
    Fault::Message("Dangling reference"@)
}

/// What a value converts to when a string is made of it.
pub open spec fn expect_text(
    heap: HeapView,
    table: Seq<Seq<char>>,
    v: Value,
    usage: TextUse,
) -> Expect {
    if !heap.holds(v) {
        Expect::Fail(dangling())
    } else {
        match v {
            Value::Number(n) => Expect::Ask(
                RequestView::FormatNumber { bits: n },
                PendingView::Text(usage),
            ),
            _ => match usage {
                TextUse::MakeString => Expect::Str(display_text(heap, table, v)),
                TextUse::MakeSymbol => Expect::Sym(display_text(heap, table, v)),
                TextUse::Print => Expect::Ask(
                    RequestView::Print { text: display_text(heap, table, v) },
                    PendingView::Printed,
                ),
            },
        }
    }
}

/// What an arithmetic method of `Number` is to give.
pub open spec fn expect_arithmetic(
    op: ArithOp,
    signature: Seq<char>,
    receiver: Value,
    args: Seq<Value>,
) -> Expect {
    match receiver {
        Value::Number(a) => if args.len() != 1 {
            Expect::Fail(Fault::Arity { signature, expected: 1, found: args.len() })
        } else {
            match args[0] {
                Value::Number(b) => if (op == ArithOp::Divide || op == ArithOp::Modulo)
                    && is_zero(b) {
                    Expect::Fail(Fault::ZeroDivision)
                } else {
                    Expect::Ask(
                        RequestView::Arithmetic { op, lhs: a, rhs: b },
                        PendingView::Number,
                    )
                },
                other => Expect::Fail(type_fault("Number"@, other)),
            }
        },
        other => Expect::Fail(type_fault("Number"@, other)),
    }
}

/// What each native method is to give, for a receiver that exists.
pub open spec fn native_spec(
    heap: HeapView,
    table: Seq<Seq<char>>,
    f: PrimitiveFn,
    receiver: Value,
    args: Seq<Value>,
) -> Expect {
    match f {
        PrimitiveFn::ObjectName => Expect::Str(name_text(heap, table, receiver)),
        PrimitiveFn::ObjectClass => Expect::Val(Value::Class(class_of(heap, receiver))),
        PrimitiveFn::ObjectSetClass => Expect::Fail(Fault::InvalidSetClass),
        PrimitiveFn::ObjectClassNew | PrimitiveFn::ClassNew => match receiver {
            Value::Class(c) => Expect::Instance(c),
            other => Expect::Fail(type_fault("Class"@, other)),
        },
        PrimitiveFn::ClassSuperclass => match receiver {
            Value::Class(c) => Expect::Val(
                match heap.classes[c as int].superclass {
                    Some(s) => Value::Class(s),
                    None => Value::Nil,
                },
            ),
            other => Expect::Fail(type_fault("Class"@, other)),
        },
        PrimitiveFn::ClassSetSuperclass => Expect::Fail(Fault::InvalidSetSuper),
        PrimitiveFn::ClassAdd => match receiver {
            Value::Class(a) => if args.len() != 1 {
                Expect::Fail(Fault::Arity { signature: "+(_)"@, expected: 1, found: args.len() })
            } else {
                match args[0] {
                    Value::Class(b) => if b < heap.classes.len() {
                        Expect::Str(heap.classes[a as int].name@ + heap.classes[b as int].name@)
                    } else {
                        Expect::Fail(dangling())
                    },
                    other => Expect::Fail(type_fault("Class"@, other)),
                }
            },
            other => Expect::Fail(type_fault("Class"@, other)),
        },
        PrimitiveFn::NumberName => match receiver {
            Value::Number(_) => Expect::Str("Number"@),
            other => Expect::Fail(type_fault("Number"@, other)),
        },
        PrimitiveFn::NumberAdd => expect_arithmetic(ArithOp::Add, "+(_)"@, receiver, args),
        PrimitiveFn::NumberSub => expect_arithmetic(ArithOp::Subtract, "-(_)"@, receiver, args),
        PrimitiveFn::NumberMul => expect_arithmetic(ArithOp::Multiply, "*(_)"@, receiver, args),
        PrimitiveFn::NumberDiv => expect_arithmetic(ArithOp::Divide, "/(_)"@, receiver, args),
        PrimitiveFn::NumberMod => expect_arithmetic(ArithOp::Modulo, "%(_)"@, receiver, args),
        PrimitiveFn::NumberClassNew => if args.len() == 0 {
            Expect::Val(Value::Number(ZERO_BITS))
        } else {
            match args[0] {
                Value::Number(n) => Expect::Val(Value::Number(n)),
                Value::String(s) => Expect::Ask(
                    RequestView::ParseNumber { text: s@ },
                    PendingView::Parsed,
                ),
                Value::Bool(b) => Expect::Val(
                    Value::Number(
                        if b {
                            ONE_BITS
                        } else {
                            ZERO_BITS
                        },
                    ),
                ),
                other => Expect::Fail(
                    Fault::TypeConversion { expected: "number"@, found: kind_name_spec(other) },
                ),
            }
        },
        PrimitiveFn::StringAdd => match receiver {
            Value::String(a) => if args.len() != 1 {
                Expect::Fail(Fault::Arity { signature: "+(_)"@, expected: 1, found: args.len() })
            } else {
                match args[0] {
                    Value::String(b) => Expect::Str(a@ + b@),
                    other => Expect::Fail(type_fault("String"@, other)),
                }
            },
            other => Expect::Fail(type_fault("String"@, other)),
        },
        PrimitiveFn::StringRepeat => match receiver {
            Value::String(a) => if args.len() != 1 {
                Expect::Fail(
                    Fault::Arity { signature: "repeat(_)"@, expected: 1, found: args.len() },
                )
            } else {
                match args[0] {
                    Value::Number(n) => Expect::Ask(
                        RequestView::Truncate { bits: n },
                        PendingView::Repeat(a@),
                    ),
                    other => Expect::Fail(type_fault("Number"@, other)),
                }
            },
            other => Expect::Fail(type_fault("String"@, other)),
        },
        PrimitiveFn::StringHash => match receiver {
            Value::String(a) => Expect::Ask(
                RequestView::FromInteger { value: a.spec_hash() },
                PendingView::Number,
            ),
            other => Expect::Fail(type_fault("String"@, other)),
        },
        PrimitiveFn::StringClassNew => if args.len() == 0 {
            Expect::Str(Seq::<char>::empty())
        } else {
            expect_text(heap, table, args[0], TextUse::MakeString)
        },
        PrimitiveFn::BoolClassNew => match receiver {
            Value::Class(_) => if args.len() == 0 {
                Expect::Val(Value::Bool(false))
            } else {
                Expect::Val(
                    Value::Bool(
                        match args[0] {
                            Value::Bool(b) => b,
                            Value::Nil => false,
                            Value::Number(n) => !number_eq(n, ZERO_BITS),
                            _ => true,
                        },
                    ),
                )
            },
            other => Expect::Fail(type_fault("Class"@, other)),
        },
        PrimitiveFn::NilClassNew => Expect::Val(Value::Nil),
        PrimitiveFn::SymbolToString => match receiver {
            Value::Symbol(s) => Expect::Str(symbol_text(table, s)),
            other => Expect::Fail(type_fault("Symbol"@, other)),
        },
        PrimitiveFn::SymbolClassNew => if args.len() == 0 {
            Expect::Fail(Fault::Arity { signature: "Symbol.new(_)"@, expected: 1, found: 0 })
        } else {
            match args[0] {
                Value::Symbol(s) => Expect::Val(Value::Symbol(s)),
                other => expect_text(heap, table, other, TextUse::MakeSymbol),
            }
        },
        PrimitiveFn::MethodClassNew => Expect::Fail(
            Fault::NotAllowed("Method instances cannot be created directly"@),
        ),
        PrimitiveFn::SystemClassPrint => if args.len() != 1 {
            Expect::Fail(Fault::Arity { signature: "print(_)"@, expected: 1, found: args.len() })
        } else {
            expect_text(heap, table, args[0], TextUse::Print)
        },
        PrimitiveFn::SystemClassNew => Expect::Fail(
            Fault::NotAllowed("System instances cannot be created"@),
        ),
    }
}

/// True when the heap `after` is `before` with one more instance, of
/// `class` and without fields.
pub open spec fn with_new_instance(before: HeapView, after: HeapView, class: ClassId) -> bool {
    &&& after.classes == before.classes
    &&& after.methods == before.methods
    &&& after.closures == before.closures
    &&& after.modules == before.modules
    &&& after.instances.len() == before.instances.len() + 1
    &&& forall|i: int|
        0 <= i < before.instances.len() ==> after.instances[i] == before.instances[i]
    &&& after.instances.last().class == class
    &&& after.instances.last().fields() == Map::<Symbol, Value>::empty()
}

/// True when a call that was to give `expect` gave `r`, and took the heap
/// and the interned strings from what they were to what they are.
pub open spec fn meets(
    expect: Expect,
    heap0: HeapView,
    table0: Seq<Seq<char>>,
    heap1: HeapView,
    table1: Seq<Seq<char>>,
    r: Result<PrimitiveResult, RuntimeError>,
) -> bool {
    match expect {
        Expect::Fail(fault) => heap1 == heap0 && table1 == table0 && (r matches Err(e) && e@
            == fault),
        Expect::Val(v) => heap1 == heap0 && table1 == table0 && r == Ok::<
            PrimitiveResult,
            RuntimeError,
        >(PrimitiveResult::Value(v)),
        Expect::Str(text) => heap1 == heap0 && table1 == table0 && (
        r matches Ok(PrimitiveResult::Value(Value::String(s))) && s@ == text),
        Expect::Instance(class) => table1 == table0 && with_new_instance(heap0, heap1, class)
            && r == Ok::<PrimitiveResult, RuntimeError>(
            PrimitiveResult::Value(Value::Instance(heap0.instances.len() as usize)),
        ),
        Expect::Sym(text) => heap1 == heap0 && if is_interned(table0, text) || table0.len()
            < MAX_SYMBOLS {
            table1 == table_after_intern(table0, text) && r == Ok::<
                PrimitiveResult,
                RuntimeError,
            >(PrimitiveResult::Value(Value::Symbol(Symbol(symbol_after_intern(table0, text) as u32))))
        } else {
            table1 == table0 && (r matches Err(e) && e@ == Fault::Message("Too many symbols"@))
        },
        Expect::Ask(request, pending) => heap1 == heap0 && table1 == table0 && (
        r matches Ok(PrimitiveResult::Ask(q, p)) && q@ == request && p@ == pending),
    }
}

fn wrong_type(expected: &'static str, found: &Value) -> (e: RuntimeError)
    ensures
        e@ == type_fault(expected@, *found),
{
    RuntimeError::Type { expected, found: found.kind_name() }
}

fn wrong_arity(signature: &'static str, expected: usize, found: usize) -> (e: RuntimeError)
    ensures
        e@ == (Fault::Arity { signature: signature@, expected: expected as nat, found: found as nat }),
{
    RuntimeError::Arity { signature, expected, found }
}

impl VM {
    /// Nothing but the heap and the interner differs between two states.
    pub open spec fn same_but_world(&self, other: &VM) -> bool {
        &&& self.frames@ == other.frames@
        &&& self.stack@ == other.stack@
        &&& self.modules@ == other.modules@
        &&& self.classes@ == other.classes@
        &&& self.universe == other.universe
        &&& self.pending@ == other.pending@
        &&& self.selectors == other.selectors
        &&& self.core_module == other.core_module
    }

    fn text_of(&mut self, v: &Value, usage: TextUse) -> (r: Result<PrimitiveResult, RuntimeError>)
        requires
            old(self).wf(),
        ensures
            final(self).wf(),
            final(self).same_but_world(old(self)),
            meets(
                expect_text(old(self).heap@, old(self).interner@, *v, usage),
                old(self).heap@,
                old(self).interner@,
                final(self).heap@,
                final(self).interner@,
                r,
            ),
    {
        if !self.heap.contains(v) {
            return Err(RuntimeError::Message("Dangling reference".to_owned()));
        }
        if let Value::Number(n) = v {
            return Ok(
                PrimitiveResult::Ask(HostRequest::FormatNumber { bits: *n }, Pending::Text(usage)),
            );
        }
        let text = self.display(v);
        match usage {
            TextUse::MakeString => Ok(PrimitiveResult::Value(Value::string_from(text))),
            TextUse::MakeSymbol => self.symbol_for(text.as_str()),
            TextUse::Print => Ok(
                PrimitiveResult::Ask(HostRequest::Print { text }, Pending::Printed),
            ),
        }
    }

    /// Interns a text and gives its symbol as a value.
    pub fn symbol_for(&mut self, text: &str) -> (r: Result<PrimitiveResult, RuntimeError>)
        requires
            old(self).wf(),
        ensures
            final(self).wf(),
            final(self).same_but_world(old(self)),
            meets(
                Expect::Sym(text@),
                old(self).heap@,
                old(self).interner@,
                final(self).heap@,
                final(self).interner@,
                r,
            ),
    {
        match self.try_intern(text) {
            Some(s) => Ok(PrimitiveResult::Value(Value::Symbol(s))),
            None => Err(RuntimeError::Message("Too many symbols".to_owned())),
        }
    }

    fn arithmetic(
        &self,
        op: ArithOp,
        signature: &'static str,
        receiver: &Value,
        args: &Vec<Value>,
    ) -> (r: Result<PrimitiveResult, RuntimeError>)
        ensures
            meets(
                expect_arithmetic(op, signature@, *receiver, args@),
                self.heap@,
                self.interner@,
                self.heap@,
                self.interner@,
                r,
            ),
    {
        let a = match receiver {
            Value::Number(a) => *a,
            other => {
                return Err(wrong_type("Number", other));
            },
        };
        if args.len() != 1 {
            return Err(wrong_arity(signature, 1, args.len()));
        }
        let b = match &args[0] {
            Value::Number(b) => *b,
            other => {
                return Err(wrong_type("Number", other));
            },
        };
        let divides = match op {
            ArithOp::Divide => true,
            ArithOp::Modulo => true,
            _ => false,
        };
        if divides && number_is_zero(b) {
            return Err(RuntimeError::ZeroDivision);
        }
        Ok(PrimitiveResult::Ask(HostRequest::Arithmetic { op, lhs: a, rhs: b }, Pending::Number))
    }

    /// Runs a native method on a receiver that exists.
    pub fn call_primitive(&mut self, f: PrimitiveFn, receiver: &Value, args: &Vec<Value>) -> (r:
        Result<PrimitiveResult, RuntimeError>)
        requires
            old(self).wf(),
            old(self).heap.holds(*receiver),
        ensures
            final(self).wf(),
            final(self).same_but_world(old(self)),
            final(self).heap.closures.len() == old(self).heap.closures.len(),
            final(self).heap.modules.len() == old(self).heap.modules.len(),
            meets(
                native_spec(old(self).heap@, old(self).interner@, f, *receiver, args@),
                old(self).heap@,
                old(self).interner@,
                final(self).heap@,
                final(self).interner@,
                r,
            ),
    {
        match f {
            PrimitiveFn::ObjectName => {
                let name = receiver.name(self);
                Ok(PrimitiveResult::Value(Value::String(name)))
            },
            PrimitiveFn::ObjectClass => {
                let class = receiver.class(self);
                Ok(PrimitiveResult::Value(Value::Class(class)))
            },
            PrimitiveFn::ObjectSetClass => Err(RuntimeError::InvalidSetClass),
            PrimitiveFn::ObjectClassNew | PrimitiveFn::ClassNew => match receiver {
                Value::Class(c) => {
                    let id = self.heap.new_instance(*c);
                    Ok(PrimitiveResult::Value(Value::Instance(id)))
                },
                other => Err(wrong_type("Class", other)),
            },
            PrimitiveFn::ClassSuperclass => match receiver {
                Value::Class(c) => Ok(
                    PrimitiveResult::Value(self.heap.class(*c).superclass_val()),
                ),
                other => Err(wrong_type("Class", other)),
            },
            PrimitiveFn::ClassSetSuperclass => Err(RuntimeError::InvalidSetSuper),
            PrimitiveFn::ClassAdd => match receiver {
                Value::Class(a) => {
                    if args.len() != 1 {
                        return Err(wrong_arity("+(_)", 1, args.len()));
                    }
                    match &args[0] {
                        Value::Class(b) => {
                            if *b < self.heap.classes.len() {
                                let text = concat2(
                                    self.heap.class(*a).name.as_str(),
                                    self.heap.class(*b).name.as_str(),
                                );
                                Ok(PrimitiveResult::Value(Value::string_from(text)))
                            } else {
                                Err(RuntimeError::Message("Dangling reference".to_owned()))
                            }
                        },
                        other => Err(wrong_type("Class", other)),
                    }
                },
                other => Err(wrong_type("Class", other)),
            },
            PrimitiveFn::NumberName => match receiver {
                Value::Number(_) => Ok(PrimitiveResult::Value(Value::string_from_str("Number"))),
                other => Err(wrong_type("Number", other)),
            },
            PrimitiveFn::NumberAdd => self.arithmetic(ArithOp::Add, "+(_)", receiver, args),
            PrimitiveFn::NumberSub => self.arithmetic(ArithOp::Subtract, "-(_)", receiver, args),
            PrimitiveFn::NumberMul => self.arithmetic(ArithOp::Multiply, "*(_)", receiver, args),
            PrimitiveFn::NumberDiv => self.arithmetic(ArithOp::Divide, "/(_)", receiver, args),
            PrimitiveFn::NumberMod => self.arithmetic(ArithOp::Modulo, "%(_)", receiver, args),
            PrimitiveFn::NumberClassNew => {
                if args.len() == 0 {
                    return Ok(PrimitiveResult::Value(Value::Number(ZERO_BITS)));
                }
                match &args[0] {
                    Value::Number(n) => Ok(PrimitiveResult::Value(Value::Number(*n))),
                    Value::String(s) => Ok(
                        PrimitiveResult::Ask(
                            HostRequest::ParseNumber { text: s.value() },
                            Pending::Parsed,
                        ),
                    ),
                    Value::Bool(b) => Ok(
                        PrimitiveResult::Value(
                            Value::Number(
                                if *b {
                                    ONE_BITS
                                } else {
                                    ZERO_BITS
                                },
                            ),
                        ),
                    ),
                    other => Err(
                        RuntimeError::TypeConversion {
                            expected: "number",
                            found: other.kind_name(),
                        },
                    ),
                }
            },
            PrimitiveFn::StringAdd => match receiver {
                Value::String(a) => {
                    if args.len() != 1 {
                        return Err(wrong_arity("+(_)", 1, args.len()));
                    }
                    match &args[0] {
                        Value::String(b) => Ok(
                            PrimitiveResult::Value(
                                Value::string_from(concat2(a.as_str(), b.as_str())),
                            ),
                        ),
                        other => Err(wrong_type("String", other)),
                    }
                },
                other => Err(wrong_type("String", other)),
            },
            PrimitiveFn::StringRepeat => match receiver {
                Value::String(a) => {
                    if args.len() != 1 {
                        return Err(wrong_arity("repeat(_)", 1, args.len()));
                    }
                    match &args[0] {
                        Value::Number(n) => Ok(
                            PrimitiveResult::Ask(
                                HostRequest::Truncate { bits: *n },
                                Pending::Repeat(a.value()),
                            ),
                        ),
                        other => Err(wrong_type("Number", other)),
                    }
                },
                other => Err(wrong_type("String", other)),
            },
            PrimitiveFn::StringHash => match receiver {
                Value::String(a) => Ok(
                    PrimitiveResult::Ask(
                        HostRequest::FromInteger { value: a.hash() },
                        Pending::Number,
                    ),
                ),
                other => Err(wrong_type("String", other)),
            },
            PrimitiveFn::StringClassNew => {
                if args.len() == 0 {
                    return Ok(PrimitiveResult::Value(Value::string_from(String::new())));
                }
                self.text_of(&args[0], TextUse::MakeString)
            },
            PrimitiveFn::BoolClassNew => match receiver {
                Value::Class(_) => {
                    if args.len() == 0 {
                        return Ok(PrimitiveResult::Value(Value::Bool(false)));
                    }
                    let truth = match &args[0] {
                        Value::Bool(b) => *b,
                        Value::Nil => false,
                        Value::Number(n) => !number_equals(*n, ZERO_BITS),
                        _ => true,
                    };
                    Ok(PrimitiveResult::Value(Value::Bool(truth)))
                },
                other => Err(wrong_type("Class", other)),
            },
            PrimitiveFn::NilClassNew => Ok(PrimitiveResult::Value(Value::Nil)),
            PrimitiveFn::SymbolToString => match receiver {
                Value::Symbol(s) => Ok(
                    PrimitiveResult::Value(Value::string_from(self.symbol_string(*s))),
                ),
                other => Err(wrong_type("Symbol", other)),
            },
            PrimitiveFn::SymbolClassNew => {
                if args.len() == 0 {
                    return Err(wrong_arity("Symbol.new(_)", 1, 0));
                }
                match &args[0] {
                    Value::Symbol(s) => Ok(PrimitiveResult::Value(Value::Symbol(*s))),
                    other => self.text_of(other, TextUse::MakeSymbol),
                }
            },
            PrimitiveFn::MethodClassNew => Err(
                RuntimeError::NotAllowed("Method instances cannot be created directly".to_owned()),
            ),
            PrimitiveFn::SystemClassPrint => {
                if args.len() != 1 {
                    return Err(wrong_arity("print(_)", 1, args.len()));
                }
                self.text_of(&args[0], TextUse::Print)
            },
            PrimitiveFn::SystemClassNew => Err(
                RuntimeError::NotAllowed("System instances cannot be created".to_owned()),
            ),
        }
    }
}

} // verus!
