//! The tokens of the surface syntax.

use vstd::prelude::*;

verus! {

/// What a token is.
#[derive(Debug, Clone, Copy, PartialEq, Eq, Structural)]
pub enum TokenKind {
    Let,
    Fn,
    Class,
    Return,
    True,
    False,
    Nil,
    If,
    Else,
    While,
    For,
    Break,
    Continue,
    Import,
    SelfKw,
    Super,
    In,
    As,
    Is,
    And,
    Or,
    Not,
    Static,
    Identifier,
    String,
    Number,
    LParen,
    RParen,
    LBrace,
    RBrace,
    LBracket,
    RBracket,
    Equal,
    EqualEqual,
    BangEqual,
    Less,
    LessEqual,
    Greater,
    GreaterEqual,
    PlusEqual,
    MinusEqual,
    AsteriskEqual,
    SlashEqual,
    PercentEqual,
    Semicolon,
    Newline,
    Colon,
    ColonColon,
    Comma,
    Dot,
    DotDot,
    DotDotDot,
    Arrow,
    FatArrow,
    Question,
    Bang,
    At,
    Plus,
    Minus,
    Asterisk,
    Slash,
    Percent,
}

/// A token of a source text.
///
/// `start` and `end` bound the bytes of the token in the source. `text`
/// is the name of an identifier, the content of a string without its
/// quotes, or the digits of a number, and empty for every other token.
/// `ordinal` is, for a number, how many numbers stand before it in the
/// source, and zero for every other token.
#[derive(Debug)]
pub struct Token {
    pub kind: TokenKind,
    pub text: String,
    pub ordinal: usize,
    pub start: usize,
    pub end: usize,
}

/// A token, with its text as a plain sequence.
pub struct TokenView {
    pub kind: TokenKind,
    pub text: Seq<char>,
    pub ordinal: usize,
    pub start: usize,
    pub end: usize,
}

impl View for Token {
    type V = TokenView;

    open spec fn view(&self) -> TokenView {
        TokenView {
            kind: self.kind,
            text: self.text@,
            ordinal: self.ordinal,
            start: self.start,
            end: self.end,
        }
    }
}

/// The tokens, each with its text as a plain sequence.
pub open spec fn token_views(tokens: Seq<Token>) -> Seq<TokenView> {
    Seq::new(tokens.len(), |i: int| tokens[i]@)
}

} // verus!
