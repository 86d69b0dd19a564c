//! The instruction set of the evaluator.

use vstd::prelude::*;

verus! {

/// One instruction. Operands that name a constant are indices into the
/// constant pool of the chunk that holds the instruction.
#[derive(Debug, Clone, Copy, PartialEq, Eq, Structural)]
pub enum Bytecode {
    /// Pushes a constant from the constant pool onto the stack.
    Constant(u16),
    /// Pushes the `nil` value onto the stack.
    Nil,
    /// Pushes the boolean value `true` onto the stack.
    True,
    /// Pushes the boolean value `false` onto the stack.
    False,
    /// Pops the top value from the stack.
    Pop,
    /// Pops a value and binds the named global of the current module to it.
    DefineGlobal(u16),
    /// Pushes the value of the named global.
    GetGlobal(u16),
    /// Stores the top of the stack into the named global, which must exist.
    SetGlobal(u16),
    /// Pushes the value of a slot of the current frame's window.
    GetLocal(u16),
    /// Stores the top of the stack into a slot of the current frame's window.
    SetLocal(u16),
    /// Pushes the receiver of the current frame.
    GetSelf,
    /// Replaces the instance on top of the stack by its named field.
    GetField(u16),
    /// Pops a value and an instance, sets the named field, pushes the value.
    SetField(u16),
    /// Gets a property from the value on top of the stack.
    GetProperty(u16),
    /// Sets a property on a value.
    SetProperty(u16),
    /// Calls a method on a receiver: number of arguments, selector.
    Invoke(u8, u16),
    /// Pops the superclass and pushes a new class of the given name.
    Class(u16),
    /// Pops a method and attaches it to the class on top of the stack:
    /// selector, and whether the method is static.
    Method(u16, bool),
    /// Returns a value from the current method.
    Return,
    Add,
    Subtract,
    Multiply,
    Divide,
    Modulo,
    Equal,
    NotEqual,
    Less,
    LessEqual,
    Greater,
    GreaterEqual,
    And,
    Or,
    Negate,
    Not,
}

} // verus!
