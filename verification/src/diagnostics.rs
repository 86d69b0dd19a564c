//! Where in a source text something was found.

use vstd::prelude::*;
use crate::range::SourceRange;

verus! {

/// A pointer into a specific module's source.
#[derive(Debug)]
pub struct SourceLoc {
    pub module_name: String,
    pub method_name: String,
    pub span: SourceRange,
    pub source: String,
}

/// The line and the columns of a range of a source text.
#[derive(Debug, Clone, Copy, PartialEq, Eq, Structural)]
pub struct LineSpan {
    /// The line of the start of the range, counted from one.
    pub line: usize,
    /// Where that line starts in the text.
    pub line_start: usize,
    /// Where that line ends: at its line feed, or at the end of the text.
    pub line_end: usize,
    /// The start of the range, counted in bytes from the start of the line.
    pub column_start: usize,
    /// The end of the range, counted in bytes from the start of the line.
    pub column_end: usize,
}

/// The number of line feeds among the first `n` bytes.
pub open spec fn line_feeds(bytes: Seq<u8>, n: int) -> nat
    decreases n,
{
    if n <= 0 || n > bytes.len() {
        0
    } else {
        line_feeds(bytes, n - 1) + if bytes[n - 1] == 10u8 {
            1nat
        } else {
            0nat
        }
    }
}

/// True when `start` is where the line that holds `offset` starts: at
/// the start of the text or behind a line feed, with no line feed
/// between it and `offset`.
pub open spec fn starts_line_of(bytes: Seq<u8>, start: int, offset: int) -> bool {
    &&& 0 <= start <= offset <= bytes.len()
    &&& start == 0 || bytes[start - 1] == 10u8
    &&& forall|i: int| start <= i < offset ==> bytes[i] != 10u8
}

/// True when `end` is where the line that starts at `start` ends: at the
/// first line feed from `start` on, or at the end of the text.
pub open spec fn ends_line_from(bytes: Seq<u8>, start: int, end: int) -> bool {
    &&& 0 <= start <= end <= bytes.len()
    &&& end == bytes.len() || bytes[end] == 10u8
    &&& forall|i: int| start <= i < end ==> bytes[i] != 10u8
}

/// Finds the line that holds the start of a range of the source, and the
/// columns of the range in that line. Gives nothing for a range that
/// starts behind the end of the source or ends before it starts.
pub fn locate(source: &[u8], range: SourceRange) -> (found: Option<LineSpan>)
    requires
        source@.len() < usize::MAX,
    ensures
        found is Some <==> range.start <= range.end && range.start <= source@.len(),
        found matches Some(span) ==> {
            &&& span.line == line_feeds(source@, range.start as int) + 1
            &&& starts_line_of(source@, span.line_start as int, range.start as int)
            &&& ends_line_from(source@, span.line_start as int, span.line_end as int)
            &&& span.column_start == range.start - span.line_start
            &&& span.column_end == range.end - span.line_start
        },
{
    if range.start > range.end || range.start > source.len() {
        return None;
    }
    let mut line: usize = 1;
    let mut line_start: usize = 0;
    let mut i: usize = 0;
    while i < range.start
        invariant
            i <= range.start <= source@.len() < usize::MAX,
            line <= i + 1,
            line == line_feeds(source@, i as int) + 1,
            starts_line_of(source@, line_start as int, i as int),
        decreases range.start - i,
    {
        if source[i] == 10u8 {
            line += 1;
            line_start = i + 1;
        }
        i += 1;
    }
    let mut line_end = line_start;
    while line_end < source.len() && source[line_end] != 10u8
        invariant
            line_start <= line_end <= source@.len(),
            forall|k: int| line_start <= k < line_end ==> source@[k] != 10u8,
        decreases source@.len() - line_end,
    {
        line_end += 1;
    }
    Some(
        LineSpan {
            line,
            line_start,
            line_end,
            column_start: range.start - line_start,
            column_end: range.end - line_start,
        },
    )
}

} // verus!
