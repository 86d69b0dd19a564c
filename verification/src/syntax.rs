//! Errors of the parser, as the runtime reports them.

use vstd::prelude::*;
use crate::range::SourceRange;
use crate::text::concat2;

verus! {

/// Why a source text could not be parsed.
#[derive(Debug)]
#[allow(inconsistent_fields)]
pub enum SyntaxErrorKind {
    ExtraToken { token: String },
    InvalidToken,
    ReturnInInitializer,
    ReturnOutsideFunction,
    SuperOutsideClass,
    SuperWithoutSuperclass,
    SelfOutsideClass,
    UnexpectedInput { token: String },
    UnrecognizedEof { expected: Vec<String> },
    UnrecognizedToken { token: String, expected: Vec<String> },
    InvalidInteger,
    InvalidFloat,
    UnterminatedString,
    UnterminatedComment,
    Unknown,
    Message(String),
}

/// An error of the parser and where in the source it was found.
#[derive(Debug)]
pub struct SyntaxError {
    pub kind: SyntaxErrorKind,
    pub range: SourceRange,
}

/// The first `n` of the texts, with `, ` between them.
pub open spec fn joined(items: Seq<String>, n: nat) -> Seq<char>
    decreases n,
{
    if n == 0 || n > items.len() {
        Seq::<char>::empty()
    } else if n == 1 {
        items[0]@
    } else {
        joined(items, (n - 1) as nat) + ", "@ + items[n - 1]@
    }
}

/// What was expected: for one item `Expected` and the item, else
/// `Expected one of` and the items with commas between them.
pub open spec fn expected_text(items: Seq<String>) -> Seq<char> {
    if items.len() == 1 {
        "Expected "@ + items[0]@
    } else {
        "Expected one of "@ + joined(items, items.len())
    }
}

pub fn format_expected(expected: &Vec<String>) -> (s: String)
    ensures
        s@ == expected_text(expected@),
{
    if expected.len() == 1 {
        concat2("Expected ", expected[0].as_str())
    } else {
        let mut s = "Expected one of ".to_owned();
        let mut i: usize = 0;
        while i < expected.len()
            invariant
                i <= expected@.len(),
                s@ == "Expected one of "@ + joined(expected@, i as nat),
            decreases expected@.len() - i,
        {
            if i > 0 {
                s.append(", ");
            }
            s.append(expected[i].as_str());
            proof {
                if i == 0 {
                    assert(joined(expected@, 1) == expected@[0]@);
                    assert("Expected one of "@ + joined(expected@, 0) =~= "Expected one of "@);
                } else {
                    assert(joined(expected@, (i + 1) as nat) == joined(expected@, i as nat) + ", "@
                        + expected@[i as int]@);
                    assert(s@ =~= "Expected one of "@ + joined(expected@, (i + 1) as nat));
                }
            }
            i += 1;
        }
        s
    }
}

impl SyntaxErrorKind {
    /// The text of the error.
    pub open spec fn message_spec(self) -> Seq<char> {
        match self {
            SyntaxErrorKind::ExtraToken { token } => "Extraneous input: \""@ + token@ + "\""@,
            SyntaxErrorKind::InvalidToken => "Invalid token"@,
            SyntaxErrorKind::ReturnInInitializer => "init() should not return a value"@,
            SyntaxErrorKind::ReturnOutsideFunction => "\"return\" used outside function"@,
            SyntaxErrorKind::SuperOutsideClass => "\"super\" used outside class"@,
            SyntaxErrorKind::SuperWithoutSuperclass => "\"super\" used in class without a superclass"@,
            SyntaxErrorKind::SelfOutsideClass => "\"self\" used outside class"@,
            SyntaxErrorKind::UnexpectedInput { token } => "Unexpected input: \""@ + token@ + "\""@,
            SyntaxErrorKind::UnrecognizedEof { expected } => "Unexpected end of file. "@
                + expected_text(expected@),
            SyntaxErrorKind::UnrecognizedToken { token, expected } => expected_text(expected@),
            SyntaxErrorKind::InvalidInteger => "Invalid integer"@,
            SyntaxErrorKind::InvalidFloat => "Invalid integer"@,
            SyntaxErrorKind::UnterminatedString => "Unterminated string"@,
            SyntaxErrorKind::UnterminatedComment => "Unterminated comment"@,
            SyntaxErrorKind::Unknown => "Unknown error"@,
            SyntaxErrorKind::Message(text) => text@,
        }
    }

    /// Writes the error out.
    pub fn message(&self) -> (s: String)
        ensures
            s@ == self.message_spec(),
    {
        match self {
            SyntaxErrorKind::ExtraToken { token } => crate::text::concat3(
                "Extraneous input: \"",
                token.as_str(),
                "\"",
            ),
            SyntaxErrorKind::InvalidToken => "Invalid token".to_owned(),
            SyntaxErrorKind::ReturnInInitializer => "init() should not return a value".to_owned(),
            SyntaxErrorKind::ReturnOutsideFunction => "\"return\" used outside function".to_owned(),
            SyntaxErrorKind::SuperOutsideClass => "\"super\" used outside class".to_owned(),
            SyntaxErrorKind::SuperWithoutSuperclass => "\"super\" used in class without a superclass".to_owned(),
            SyntaxErrorKind::SelfOutsideClass => "\"self\" used outside class".to_owned(),
            SyntaxErrorKind::UnexpectedInput { token } => crate::text::concat3(
                "Unexpected input: \"",
                token.as_str(),
                "\"",
            ),
            SyntaxErrorKind::UnrecognizedEof { expected } => {
                let e = format_expected(expected);
                concat2("Unexpected end of file. ", e.as_str())
            },
            SyntaxErrorKind::UnrecognizedToken { token, expected } => format_expected(expected),
            SyntaxErrorKind::InvalidInteger => "Invalid integer".to_owned(),
            SyntaxErrorKind::InvalidFloat => "Invalid integer".to_owned(),
            SyntaxErrorKind::UnterminatedString => "Unterminated string".to_owned(),
            SyntaxErrorKind::UnterminatedComment => "Unterminated comment".to_owned(),
            SyntaxErrorKind::Unknown => "Unknown error".to_owned(),
            SyntaxErrorKind::Message(text) => text.clone(),
        }
    }
}

} // verus!
