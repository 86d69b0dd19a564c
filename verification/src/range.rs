//! Ranges of source text.

use vstd::prelude::*;

verus! {

/// A range that can be copied: `start` up to, not including, `end`.
#[derive(Debug, PartialEq, Eq, Hash, Default)]
pub struct CopyRange<T> {
    pub start: T,
    pub end: T,
}

impl<T: Copy> Clone for CopyRange<T> {
    fn clone(&self) -> (r: Self)
        ensures
            r == *self,
    {
        CopyRange { start: self.start, end: self.end }
    }
}

impl<T: Copy> Copy for CopyRange<T> {

}

/// A range of bytes of a source text.
pub type SourceRange = CopyRange<usize>;

/// The range that covers nothing, at the start of the text.
pub fn empty_source_range() -> (r: SourceRange)
    ensures
        r.start == 0,
        r.end == 0,
{
    CopyRange { start: 0, end: 0 }
}

} // verus!
