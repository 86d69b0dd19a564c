//! The values of the language: primitives held in place, objects by
//! reference into the heap.

use vstd::prelude::*;
use vstd::std_specs::cmp::PartialEqSpecImpl;
use crate::interner::Symbol;
use crate::number::{is_nan, number_eq, number_equals};
use crate::string::StringObject;

verus! {

/// Reference to a class of the heap.
pub type ClassId = usize;

/// Reference to an instance of the heap.
pub type InstanceId = usize;

/// Reference to a method of the heap.
pub type MethodId = usize;

/// Reference to a closure of the heap.
pub type ClosureId = usize;

/// Reference to a module of the heap.
pub type ModuleId = usize;

/// A value of the language.
///
/// A `Number` holds the bits of an IEEE 754 double. The object variants
/// hold references into the heap, and two of them denote the same object
/// exactly when the references are equal.
#[derive(Debug, Hash)]
pub enum Value {
    Nil,
    Bool(bool),
    Number(u64),
    String(StringObject),
    Symbol(Symbol),
    Instance(InstanceId),
    Class(ClassId),
    Method(MethodId),
    Module(ModuleId),
}

/// Equality of values: primitives by what they hold (numbers as IEEE
/// doubles, strings by their text), objects by identity. Values of
/// different variants are never equal.
pub open spec fn value_eq(a: Value, b: Value) -> bool {
    match (a, b) {
        (Value::Nil, Value::Nil) => true,
        (Value::Bool(x), Value::Bool(y)) => x == y,
        (Value::Number(x), Value::Number(y)) => number_eq(x, y),
        (Value::String(x), Value::String(y)) => x@ == y@,
        (Value::Symbol(x), Value::Symbol(y)) => x == y,
        (Value::Instance(x), Value::Instance(y)) => x == y,
        (Value::Class(x), Value::Class(y)) => x == y,
        (Value::Method(x), Value::Method(y)) => x == y,
        (Value::Module(x), Value::Module(y)) => x == y,
        _ => false,
    }
}

/// The name of a value's variant.
pub open spec fn kind_name_spec(v: Value) -> Seq<char> {
    match v {
        Value::Nil => "Nil"@,
        Value::Bool(_) => "Bool"@,
        Value::Number(_) => "Number"@,
        Value::String(_) => "String"@,
        Value::Symbol(_) => "Symbol"@,
        Value::Class(_) => "Class"@,
        Value::Instance(_) => "Instance"@,
        Value::Method(_) => "Method"@,
        Value::Module(_) => "Module"@,
    }
}

impl Clone for Value {
    fn clone(&self) -> (v: Self)
        ensures
            v == *self,
    {
        match self {
            Value::Nil => Value::Nil,
            Value::Bool(b) => Value::Bool(*b),
            Value::Number(n) => Value::Number(*n),
            Value::String(s) => Value::String(s.clone()),
            Value::Symbol(s) => Value::Symbol(*s),
            Value::Instance(i) => Value::Instance(*i),
            Value::Class(c) => Value::Class(*c),
            Value::Method(m) => Value::Method(*m),
            Value::Module(m) => Value::Module(*m),
        }
    }
}

impl PartialEq for Value {
    fn eq(&self, other: &Self) -> (r: bool) {
        match (self, other) {
            (Value::Nil, Value::Nil) => true,
            (Value::Bool(a), Value::Bool(b)) => *a == *b,
            (Value::Number(a), Value::Number(b)) => number_equals(*a, *b),
            (Value::String(a), Value::String(b)) => a.equals(b),
            (Value::Symbol(a), Value::Symbol(b)) => a.0 == b.0,
            (Value::Instance(a), Value::Instance(b)) => *a == *b,
            (Value::Class(a), Value::Class(b)) => *a == *b,
            (Value::Method(a), Value::Method(b)) => *a == *b,
            (Value::Module(a), Value::Module(b)) => *a == *b,
            _ => false,
        }
    }
}

impl PartialEqSpecImpl for Value {
    open spec fn obeys_eq_spec() -> bool {
        true
    }

    open spec fn eq_spec(&self, other: &Self) -> bool {
        value_eq(*self, *other)
    }
}

impl Value {
    pub fn string_from_str(s: &str) -> (v: Self)
        ensures
            v matches Value::String(o) && o@ == s@,
    {
        Value::String(StringObject::from_str(s))
    }

    pub fn string_from(s: String) -> (v: Self)
        ensures
            v matches Value::String(o) && o@ == s@,
    {
        Value::String(StringObject::from_string(s))
    }

    pub fn is_number(&self) -> (r: bool)
        ensures
            r == (*self is Number),
    {
        matches!(self, Value::Number(_))
    }

    pub fn is_boolean(&self) -> (r: bool)
        ensures
            r == (*self is Bool),
    {
        matches!(self, Value::Bool(_))
    }

    pub fn is_nil(&self) -> (r: bool)
        ensures
            r == (*self is Nil),
    {
        matches!(self, Value::Nil)
    }

    pub fn is_string(&self) -> (r: bool)
        ensures
            r == (*self is String),
    {
        matches!(self, Value::String(_))
    }

    pub fn is_symbol(&self) -> (r: bool)
        ensures
            r == (*self is Symbol),
    {
        matches!(self, Value::Symbol(_))
    }

    /// The bits of a number; any other value is a type error.
    pub fn as_number(&self) -> (r: Result<u64, String>)
        ensures
            match *self {
                Value::Number(n) => r == Ok::<u64, String>(n),
                _ => r matches Err(e) && e@ == "Type Error: Expected a Number."@,
            },
    {
        match self {
            Value::Number(n) => Ok(*n),
            _ => Err("Type Error: Expected a Number.".to_owned()),
        }
    }

    /// The text of a string; any other value is a type error.
    pub fn as_string(&self) -> (r: Result<String, String>)
        ensures
            match *self {
                Value::String(s) => r matches Ok(t) && t@ == s@,
                _ => r matches Err(e) && e@ == "Type Error: Expected a String."@,
            },
    {
        match self {
            Value::String(s) => Ok(s.value()),
            _ => Err("Type Error: Expected a String.".to_owned()),
        }
    }

    /// The truth value of a boolean; any other value is a type error.
    pub fn as_bool(&self) -> (r: Result<bool, String>)
        ensures
            match *self {
                Value::Bool(b) => r == Ok::<bool, String>(b),
                _ => r matches Err(e) && e@ == "Type Error: Expected a Bool."@,
            },
    {
        match self {
            Value::Bool(b) => Ok(*b),
            _ => Err("Type Error: Expected a Bool.".to_owned()),
        }
    }

    /// The symbol of a symbol value; any other value is a type error.
    pub fn as_symbol(&self) -> (r: Result<Symbol, String>)
        ensures
            match *self {
                Value::Symbol(s) => r == Ok::<Symbol, String>(s),
                _ => r matches Err(e) && e@ == "Type Error: Expected a Symbol."@,
            },
    {
        match self {
            Value::Symbol(s) => Ok(*s),
            _ => Err("Type Error: Expected a Symbol.".to_owned()),
        }
    }

    /// The name of the value's variant.
    pub fn kind_name(&self) -> (name: &'static str)
        ensures
            name@ == kind_name_spec(*self),
    {
        match self {
            Value::Nil => "Nil",
            Value::Bool(_) => "Bool",
            Value::Number(_) => "Number",
            Value::String(_) => "String",
            Value::Symbol(_) => "Symbol",
            Value::Class(_) => "Class",
            Value::Instance(_) => "Instance",
            Value::Method(_) => "Method",
            Value::Module(_) => "Module",
        }
    }

    /// True for a number that is not-a-number: the one kind of value that
    /// is not equal to itself.
    pub open spec fn is_nan_number(self) -> bool {
        self matches Value::Number(n) && is_nan(n)
    }
}

/// Every value but a not-a-number is equal to itself.
pub proof fn lemma_value_eq_reflexive(v: Value)
    requires
        !v.is_nan_number(),
    ensures
        value_eq(v, v),
{
}

/// Equality of values does not depend on the order of its operands.
pub proof fn lemma_value_eq_symmetric(a: Value, b: Value)
    ensures
        value_eq(a, b) == value_eq(b, a),
{
}

/// Two values equal to a third are equal to each other; equal values are
/// always of one variant.
pub proof fn lemma_value_eq_transitive(a: Value, b: Value, c: Value)
    requires
        value_eq(a, b),
        value_eq(b, c),
    ensures
        value_eq(a, c),
        kind_name_spec(a) == kind_name_spec(b),
{
}

} // verus!
