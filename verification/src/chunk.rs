//! Chunks: compiled instructions and the constants they refer to.

use vstd::prelude::*;
use crate::bytecode::Bytecode;
use crate::range::SourceRange;
use crate::value::Value;

verus! {

/// Most constants that a chunk can hold: an index is 16 bits wide.
pub const MAX_CONSTANTS: usize = 0x1_0000;

/// A chunk of compiled bytecode and its associated constant values.
/// `spans` holds the source range of each instruction.
pub struct Chunk {
    pub code: Vec<Bytecode>,
    pub constants: Vec<Value>,
    pub spans: Vec<SourceRange>,
}

impl Chunk {
    pub fn new() -> (chunk: Self)
        ensures
            chunk.code@.len() == 0,
            chunk.constants@.len() == 0,
            chunk.spans@.len() == 0,
    {
        Self { code: Vec::new(), constants: Vec::new(), spans: Vec::new() }
    }

    /// Appends an instruction and the source range it came from.
    pub fn add_instruction(&mut self, opcode: Bytecode, range: SourceRange)
        ensures
            final(self).code@ == old(self).code@.push(opcode),
            final(self).spans@ == old(self).spans@.push(range),
            final(self).constants == old(self).constants,
    {
        self.code.push(opcode);
        self.spans.push(range);
    }

    /// Appends a constant and returns its index.
    pub fn add_constant(&mut self, value: Value) -> (index: u16)
        requires
            old(self).constants@.len() < MAX_CONSTANTS,
        ensures
            index == old(self).constants@.len(),
            final(self).constants@ == old(self).constants@.push(value),
            final(self).code == old(self).code,
            final(self).spans == old(self).spans,
    {
        let index = self.constants.len();
        self.constants.push(value);
        index as u16
    }

    /// True when the pool has room for another constant.
    pub fn has_room(&self) -> (r: bool)
        ensures
            r == (self.constants@.len() < MAX_CONSTANTS),
    {
        self.constants.len() < MAX_CONSTANTS
    }
}

} // verus!
