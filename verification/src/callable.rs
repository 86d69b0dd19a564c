//! What a closure runs.

use vstd::prelude::*;
use crate::chunk::Chunk;
use crate::interner::Symbol;

verus! {

/// Compiled code with the facts that a call needs.
pub struct Callable {
    pub chunk: Chunk,
    pub max_slots: usize,
    pub num_upvalues: usize,
    pub arity: usize,
    pub name_sym: Symbol,
}

} // verus!
