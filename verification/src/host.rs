//! What the evaluator asks of its host, and what it reports.
//!
//! The evaluator computes nothing on floating-point values and performs
//! no output. Where a program needs either, the evaluator stops with a
//! request; the host answers it, and the evaluator goes on.

use vstd::prelude::*;
use crate::error::PhError;
use crate::number::ArithOp;
use crate::value::Value;

verus! {

/// Work that only the host can do.
#[derive(Debug)]
#[allow(inconsistent_fields)]
pub enum HostRequest {
    /// Compute `lhs op rhs` on two numbers. Answer: `Number`.
    Arithmetic { op: ArithOp, lhs: u64, rhs: u64 },
    /// Read a number from text. Answer: `Number`, or `Nothing` where the
    /// text is no number.
    ParseNumber { text: String },
    /// Write a number as text. Answer: `Text`.
    FormatNumber { bits: u64 },
    /// The whole part of a number as a count, zero for what is below
    /// zero or not a number. Answer: `Count`.
    Truncate { bits: u64 },
    /// The number that equals an integer. Answer: `Number`.
    FromInteger { value: u32 },
    /// Write the text and a line end to the standard output. Answer:
    /// `Nothing`.
    Print { text: String },
}

/// A request, with its text as a plain sequence.
#[allow(inconsistent_fields)]
pub enum RequestView {
    Arithmetic { op: ArithOp, lhs: u64, rhs: u64 },
    ParseNumber { text: Seq<char> },
    FormatNumber { bits: u64 },
    Truncate { bits: u64 },
    FromInteger { value: u32 },
    Print { text: Seq<char> },
}

impl View for HostRequest {
    type V = RequestView;

    open spec fn view(&self) -> RequestView {
        match *self {
            HostRequest::Arithmetic { op, lhs, rhs } => RequestView::Arithmetic { op, lhs, rhs },
            HostRequest::ParseNumber { text } => RequestView::ParseNumber { text: text@ },
            HostRequest::FormatNumber { bits } => RequestView::FormatNumber { bits },
            HostRequest::Truncate { bits } => RequestView::Truncate { bits },
            HostRequest::FromInteger { value } => RequestView::FromInteger { value },
            HostRequest::Print { text } => RequestView::Print { text: text@ },
        }
    }
}

/// The host's answer to a request.
#[derive(Debug)]
pub enum HostReply {
    Number(u64),
    Text(String),
    Count(usize),
    Nothing,
}

/// What a text that was asked of the host is for.
#[derive(Debug, Clone, Copy, PartialEq, Eq, Structural)]
pub enum TextUse {
    /// It becomes a string value.
    MakeString,
    /// It is interned and becomes a symbol value.
    MakeSymbol,
    /// It is printed.
    Print,
}

/// What the evaluator waits for.
#[derive(Debug)]
pub enum Pending {
    /// Nothing: the evaluator can run.
    Idle,
    /// A number, which becomes the result of the operation.
    Number,
    /// A number read from text, or the news that the text was none.
    Parsed,
    /// A text, to be used as said.
    Text(TextUse),
    /// The news that a text was printed.
    Printed,
    /// A count, how often to repeat the string.
    Repeat(String),
}

/// What the evaluator waits for, with its text as a plain sequence.
pub enum PendingView {
    Idle,
    Number,
    Parsed,
    Text(TextUse),
    Printed,
    Repeat(Seq<char>),
}

impl View for Pending {
    type V = PendingView;

    open spec fn view(&self) -> PendingView {
        match *self {
            Pending::Idle => PendingView::Idle,
            Pending::Number => PendingView::Number,
            Pending::Parsed => PendingView::Parsed,
            Pending::Text(u) => PendingView::Text(u),
            Pending::Printed => PendingView::Printed,
            Pending::Repeat(s) => PendingView::Repeat(s@),
        }
    }
}

/// How a run of the evaluator ended.
#[derive(Debug)]
pub enum Outcome {
    /// Instructions remain.
    Running,
    /// The entry closure returned this value.
    Finished(Value),
    /// The host has to answer a request before the run can go on.
    Waiting(HostRequest),
    /// The program failed.
    Failed(PhError),
}

} // verus!
