//! Call frames.

use vstd::prelude::*;
use crate::value::{ClassId, ClosureId, InstanceId, ModuleId};

verus! {

/// On what a call runs: an instance, a class, or a module's top level.
#[derive(Debug, Clone, Copy, PartialEq, Eq, Structural)]
pub enum CallContext {
    Instance { instance: InstanceId },
    Class { class: ClassId },
    Module { module: ModuleId },
}

/// Represents a single function call's execution context.
#[derive(Debug, Clone, Copy, PartialEq, Eq, Structural)]
pub struct CallFrame {
    /// Closure being executed.
    pub closure: ClosureId,
    /// What the call runs on.
    pub context: CallContext,
    /// Index of the next instruction in the closure's chunk.
    pub ip: usize,
    /// Index into the value stack where this frame's window begins: the
    /// receiver is there, and the arguments follow it.
    pub stack_offset: usize,
}

impl CallFrame {
    pub fn new(closure: ClosureId, context: CallContext, ip: usize, stack_offset: usize) -> (f:
        Self)
        ensures
            f == (CallFrame { closure, context, ip, stack_offset }),
    {
        Self { context, closure, ip, stack_offset }
    }

    pub fn context(&self) -> (c: CallContext)
        ensures
            c == self.context,
    {
        self.context
    }

    pub fn closure(&self) -> (c: ClosureId)
        ensures
            c == self.closure,
    {
        self.closure
    }
}

} // verus!
