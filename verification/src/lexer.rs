//! The lexer: cuts a source text into tokens.
//!
//! Blanks and comments, which run from `//` to the end of the line, stand
//! between tokens and are dropped; a line end is a token. Of the tokens
//! that can start at a place the longest is taken, and a word that is a
//! keyword is that keyword.

use vstd::prelude::*;
use vstd::slice::slice_subrange;
use vstd::string::StringSliceAdditionalSpecFns;
use vstd::utf8::{encode_utf8, valid_utf8};
use crate::range::CopyRange;
use crate::syntax::{SyntaxError, SyntaxErrorKind};
use crate::token::{Token, TokenKind};

verus! {

pub const TAB: u8 = 9;

pub const LINE_FEED: u8 = 10;

pub const FORM_FEED: u8 = 12;

pub const CARRIAGE_RETURN: u8 = 13;

pub const SPACE: u8 = 32;

pub const QUOTE: u8 = 34;

/// A blank: a space, a tab or a form feed.
pub open spec fn is_blank(b: u8) -> bool {
    b == SPACE || b == TAB || b == FORM_FEED
}

/// A decimal digit.
pub open spec fn is_digit(b: u8) -> bool {
    48 <= b <= 57
}

/// What a word starts with: a letter or an underscore.
pub open spec fn is_word_start(b: u8) -> bool {
    (97 <= b <= 122) || (65 <= b <= 90) || b == 95
}

/// What a word goes on with: a letter, a digit or an underscore.
pub open spec fn is_word_part(b: u8) -> bool {
    is_word_start(b) || is_digit(b)
}

/// Where the blanks that start at `pos` end.
pub open spec fn blanks_end(bytes: Seq<u8>, pos: int) -> int
    decreases bytes.len() - pos,
{
    if 0 <= pos < bytes.len() && is_blank(bytes[pos]) {
        blanks_end(bytes, pos + 1)
    } else {
        pos
    }
}

/// Where the line that holds `pos` ends: at its line feed, or at the end
/// of the text.
pub open spec fn line_end(bytes: Seq<u8>, pos: int) -> int
    decreases bytes.len() - pos,
{
    if 0 <= pos < bytes.len() && bytes[pos] != LINE_FEED {
        line_end(bytes, pos + 1)
    } else {
        pos
    }
}

/// Where the word that goes on at `pos` ends.
pub open spec fn word_end(bytes: Seq<u8>, pos: int) -> int
    decreases bytes.len() - pos,
{
    if 0 <= pos < bytes.len() && is_word_part(bytes[pos]) {
        word_end(bytes, pos + 1)
    } else {
        pos
    }
}

/// Where the digits that start at `pos` end.
pub open spec fn digits_end(bytes: Seq<u8>, pos: int) -> int
    decreases bytes.len() - pos,
{
    if 0 <= pos < bytes.len() && is_digit(bytes[pos]) {
        digits_end(bytes, pos + 1)
    } else {
        pos
    }
}

/// Where the first quote from `pos` on stands; the length of the text
/// where there is none.
pub open spec fn quote_at(bytes: Seq<u8>, pos: int) -> int
    decreases bytes.len() - pos,
{
    if 0 <= pos < bytes.len() && bytes[pos] != QUOTE {
        quote_at(bytes, pos + 1)
    } else {
        pos
    }
}

/// Where the number that starts with the digits from `pos` on ends: after
/// the digits, and after a point and more digits where they follow.
pub open spec fn number_end(bytes: Seq<u8>, pos: int) -> int {
    let e = digits_end(bytes, pos);
    if e + 1 < bytes.len() && bytes[e] == 46u8 && is_digit(bytes[e + 1]) {
        digits_end(bytes, e + 1)
    } else {
        e
    }
}

/// True when the bytes from `pos` on start with the bytes of `word`.
#[verifier::opaque]
pub open spec fn starts_with(bytes: Seq<u8>, pos: int, word: &str) -> bool {
    let w = word.spec_bytes();
    0 <= pos && pos + w.len() <= bytes.len() && bytes.subrange(pos, pos + w.len()) == w
}

/// The keyword that a word is, or `Identifier` for any other word.
pub open spec fn word_kind(word: Seq<u8>) -> TokenKind {
    if word == "let".spec_bytes() {
        TokenKind::Let
    } else if word == "fn".spec_bytes() {
        TokenKind::Fn
    } else if word == "class".spec_bytes() {
        TokenKind::Class
    } else if word == "return".spec_bytes() {
        TokenKind::Return
    } else if word == "true".spec_bytes() {
        TokenKind::True
    } else if word == "false".spec_bytes() {
        TokenKind::False
    } else if word == "nil".spec_bytes() {
        TokenKind::Nil
    } else if word == "if".spec_bytes() {
        TokenKind::If
    } else if word == "else".spec_bytes() {
        TokenKind::Else
    } else if word == "while".spec_bytes() {
        TokenKind::While
    } else if word == "for".spec_bytes() {
        TokenKind::For
    } else if word == "break".spec_bytes() {
        TokenKind::Break
    } else if word == "continue".spec_bytes() {
        TokenKind::Continue
    } else if word == "import".spec_bytes() {
        TokenKind::Import
    } else if word == "self".spec_bytes() {
        TokenKind::SelfKw
    } else if word == "super".spec_bytes() {
        TokenKind::Super
    } else if word == "in".spec_bytes() {
        TokenKind::In
    } else if word == "as".spec_bytes() {
        TokenKind::As
    } else if word == "is".spec_bytes() {
        TokenKind::Is
    } else if word == "and".spec_bytes() {
        TokenKind::And
    } else if word == "or".spec_bytes() {
        TokenKind::Or
    } else if word == "not".spec_bytes() {
        TokenKind::Not
    } else if word == "static".spec_bytes() {
        TokenKind::Static
    } else {
        TokenKind::Identifier
    }
}

/// The sign that starts at `pos`, the longest there is, and the number
/// of its bytes; nothing where no sign starts there.
pub open spec fn sign_at(bytes: Seq<u8>, pos: int) -> Option<(TokenKind, int)> {
    if starts_with(bytes, pos, "...") {
        Some((TokenKind::DotDotDot, "...".spec_bytes().len() as int))
    } else if starts_with(bytes, pos, "..") {
        Some((TokenKind::DotDot, "..".spec_bytes().len() as int))
    } else if starts_with(bytes, pos, "+=") {
        Some((TokenKind::PlusEqual, "+=".spec_bytes().len() as int))
    } else if starts_with(bytes, pos, "-=") {
        Some((TokenKind::MinusEqual, "-=".spec_bytes().len() as int))
    } else if starts_with(bytes, pos, "*=") {
        Some((TokenKind::AsteriskEqual, "*=".spec_bytes().len() as int))
    } else if starts_with(bytes, pos, "/=") {
        Some((TokenKind::SlashEqual, "/=".spec_bytes().len() as int))
    } else if starts_with(bytes, pos, "%=") {
        Some((TokenKind::PercentEqual, "%=".spec_bytes().len() as int))
    } else if starts_with(bytes, pos, "==") {
        Some((TokenKind::EqualEqual, "==".spec_bytes().len() as int))
    } else if starts_with(bytes, pos, "!=") {
        Some((TokenKind::BangEqual, "!=".spec_bytes().len() as int))
    } else if starts_with(bytes, pos, "<=") {
        Some((TokenKind::LessEqual, "<=".spec_bytes().len() as int))
    } else if starts_with(bytes, pos, ">=") {
        Some((TokenKind::GreaterEqual, ">=".spec_bytes().len() as int))
    } else if starts_with(bytes, pos, "::") {
        Some((TokenKind::ColonColon, "::".spec_bytes().len() as int))
    } else if starts_with(bytes, pos, "->") {
        Some((TokenKind::Arrow, "->".spec_bytes().len() as int))
    } else if starts_with(bytes, pos, "=>") {
        Some((TokenKind::FatArrow, "=>".spec_bytes().len() as int))
    } else if starts_with(bytes, pos, "(") {
        Some((TokenKind::LParen, "(".spec_bytes().len() as int))
    } else if starts_with(bytes, pos, ")") {
        Some((TokenKind::RParen, ")".spec_bytes().len() as int))
    } else if starts_with(bytes, pos, "{") {
        Some((TokenKind::LBrace, "{".spec_bytes().len() as int))
    } else if starts_with(bytes, pos, "}") {
        Some((TokenKind::RBrace, "}".spec_bytes().len() as int))
    } else if starts_with(bytes, pos, "[") {
        Some((TokenKind::LBracket, "[".spec_bytes().len() as int))
    } else if starts_with(bytes, pos, "]") {
        Some((TokenKind::RBracket, "]".spec_bytes().len() as int))
    } else if starts_with(bytes, pos, "=") {
        Some((TokenKind::Equal, "=".spec_bytes().len() as int))
    } else if starts_with(bytes, pos, "<") {
        Some((TokenKind::Less, "<".spec_bytes().len() as int))
    } else if starts_with(bytes, pos, ">") {
        Some((TokenKind::Greater, ">".spec_bytes().len() as int))
    } else if starts_with(bytes, pos, ";") {
        Some((TokenKind::Semicolon, ";".spec_bytes().len() as int))
    } else if starts_with(bytes, pos, ":") {
        Some((TokenKind::Colon, ":".spec_bytes().len() as int))
    } else if starts_with(bytes, pos, ",") {
        Some((TokenKind::Comma, ",".spec_bytes().len() as int))
    } else if starts_with(bytes, pos, ".") {
        Some((TokenKind::Dot, ".".spec_bytes().len() as int))
    } else if starts_with(bytes, pos, "?") {
        Some((TokenKind::Question, "?".spec_bytes().len() as int))
    } else if starts_with(bytes, pos, "!") {
        Some((TokenKind::Bang, "!".spec_bytes().len() as int))
    } else if starts_with(bytes, pos, "@") {
        Some((TokenKind::At, "@".spec_bytes().len() as int))
    } else if starts_with(bytes, pos, "+") {
        Some((TokenKind::Plus, "+".spec_bytes().len() as int))
    } else if starts_with(bytes, pos, "-") {
        Some((TokenKind::Minus, "-".spec_bytes().len() as int))
    } else if starts_with(bytes, pos, "*") {
        Some((TokenKind::Asterisk, "*".spec_bytes().len() as int))
    } else if starts_with(bytes, pos, "/") {
        Some((TokenKind::Slash, "/".spec_bytes().len() as int))
    } else if starts_with(bytes, pos, "%") {
        Some((TokenKind::Percent, "%".spec_bytes().len() as int))
    } else {
        None
    }
}

/// What stands at a place of a source text.
pub enum Scan {
    /// The text has ended.
    End,
    /// Blanks or a comment, up to `end`.
    Skip { end: int },
    /// A token of this kind, up to `end`, whose text stands from `from` up
    /// to `to`.
    Found { kind: TokenKind, end: int, from: int, to: int },
    /// Nothing that the language knows.
    Invalid,
}

/// What stands at `pos`.
#[verifier::opaque]
pub open spec fn scan(bytes: Seq<u8>, pos: int) -> Scan {
    if pos < 0 || pos >= bytes.len() {
        Scan::End
    } else if is_blank(bytes[pos]) {
        Scan::Skip { end: blanks_end(bytes, pos + 1) }
    } else if starts_with(bytes, pos, "//") {
        Scan::Skip { end: line_end(bytes, pos + "//".spec_bytes().len()) }
    } else if bytes[pos] == LINE_FEED {
        Scan::Found { kind: TokenKind::Newline, end: pos + 1, from: pos, to: pos }
    } else if bytes[pos] == CARRIAGE_RETURN && pos + 1 < bytes.len() && bytes[pos + 1]
        == LINE_FEED {
        Scan::Found { kind: TokenKind::Newline, end: pos + 2, from: pos, to: pos }
    } else if is_word_start(bytes[pos]) {
        let end = word_end(bytes, pos + 1);
        Scan::Found { kind: word_kind(bytes.subrange(pos, end)), end, from: pos, to: end }
    } else if is_digit(bytes[pos]) {
        let end = number_end(bytes, pos + 1);
        Scan::Found { kind: TokenKind::Number, end, from: pos, to: end }
    } else if bytes[pos] == QUOTE {
        let close = quote_at(bytes, pos + 1);
        if close < bytes.len() {
            Scan::Found { kind: TokenKind::String, end: close + 1, from: pos + 1, to: close }
        } else {
            Scan::Invalid
        }
    } else {
        match sign_at(bytes, pos) {
            Some((kind, length)) => Scan::Found { kind, end: pos + length, from: pos, to: pos },
            None => Scan::Invalid,
        }
    }
}

/// A token as the lexer finds it: its kind, its place, and the place of
/// its text.
pub struct Lexeme {
    pub kind: TokenKind,
    pub ordinal: nat,
    pub start: int,
    pub end: int,
    pub from: int,
    pub to: int,
}

/// True when the text of a token is kept: for a word that is no keyword,
/// for a string and for a number.
pub open spec fn keeps_text(kind: TokenKind) -> bool {
    kind == TokenKind::Identifier || kind == TokenKind::String || kind == TokenKind::Number
}

/// The tokens from `pos` on, behind the tokens `found` before, of which
/// `numbers` are numbers; nothing where something stands in the text that
/// the language does not know, or where the text of a token is not
/// valid UTF-8.
pub open spec fn lexemes_from(bytes: Seq<u8>, pos: int, found: Seq<Lexeme>, numbers: nat) -> Option<
    Seq<Lexeme>,
>
    decreases bytes.len() - pos,
{
    match scan(bytes, pos) {
        Scan::End => Some(found),
        Scan::Invalid => None,
        Scan::Skip { end } => if pos < end <= bytes.len() {
            lexemes_from(bytes, end, found, numbers)
        } else {
            None
        },
        Scan::Found { kind, end, from, to } => if pos < end <= bytes.len() && 0 <= from <= to
            <= bytes.len() && (keeps_text(kind) ==> valid_utf8(bytes.subrange(from, to))) {
            lexemes_from(
                bytes,
                end,
                found.push(
                    Lexeme {
                        kind,
                        ordinal: if kind == TokenKind::Number {
                            numbers
                        } else {
                            0
                        },
                        start: pos,
                        end,
                        from,
                        to,
                    },
                ),
                if kind == TokenKind::Number {
                    numbers + 1
                } else {
                    numbers
                },
            )
        } else {
            None
        },
    }
}

/// Where the lexer stops from `pos` on: at the end of the text, or at the
/// first place from which no token can be taken.
pub open spec fn halt_from(bytes: Seq<u8>, pos: int) -> int
    decreases bytes.len() - pos,
{
    match scan(bytes, pos) {
        Scan::End => pos,
        Scan::Invalid => pos,
        Scan::Skip { end } => if pos < end <= bytes.len() {
            halt_from(bytes, end)
        } else {
            pos
        },
        Scan::Found { kind, end, from, to } => if pos < end <= bytes.len() && 0 <= from <= to
            <= bytes.len() && (keeps_text(kind) ==> valid_utf8(bytes.subrange(from, to))) {
            halt_from(bytes, end)
        } else {
            pos
        },
    }
}

/// The error for a place from which no token can be taken: an invalid
/// token, over the byte at `pos`.
pub open spec fn invalid_token(pos: int) -> SyntaxError {
    SyntaxError {
        kind: SyntaxErrorKind::InvalidToken,
        range: CopyRange {
            start: pos as usize,
            end: if pos < usize::MAX {
                (pos + 1) as usize
            } else {
                pos as usize
            },
        },
    }
}

/// The tokens of a source text: those that stand in it, and at the end a
/// line end of no length where the text does not end with one.
pub open spec fn lexemes(bytes: Seq<u8>) -> Option<Seq<Lexeme>> {
    match lexemes_from(bytes, 0, Seq::empty(), 0) {
        Some(found) => if found.len() > 0 && found.last().kind != TokenKind::Newline {
            Some(
                found.push(
                    Lexeme {
                        kind: TokenKind::Newline,
                        ordinal: 0,
                        start: found.last().end,
                        end: found.last().end,
                        from: found.last().end,
                        to: found.last().end,
                    },
                ),
            )
        } else {
            Some(found)
        },
        None => None,
    }
}

/// True when the token is the lexeme: of its kind and place, with the
/// text that stands in the source where the lexeme keeps one.
pub open spec fn carries(bytes: Seq<u8>, token: Token, lexeme: Lexeme) -> bool {
    &&& token.kind == lexeme.kind
    &&& token.ordinal == lexeme.ordinal
    &&& token.start == lexeme.start
    &&& token.end == lexeme.end
    &&& encode_utf8(token.text@) == if keeps_text(lexeme.kind) {
        bytes.subrange(lexeme.from, lexeme.to)
    } else {
        Seq::<u8>::empty()
    }
}

/// True when the tokens are the lexemes, one for one.
pub open spec fn carry_all(bytes: Seq<u8>, tokens: Seq<Token>, found: Seq<Lexeme>) -> bool {
    tokens.len() == found.len() && forall|i: int|
        0 <= i < tokens.len() ==> carries(bytes, #[trigger] tokens[i], found[i])
}

/// `String::from_utf8`: the string that the bytes encode, where they are
/// valid UTF-8; nothing for other bytes.
#[verifier::external_body]
fn string_from_utf8(bytes: Vec<u8>) -> (text: Option<String>)
    ensures
        text is Some <==> valid_utf8(bytes@),
        text matches Some(s) ==> encode_utf8(s@) == bytes@,
{
    String::from_utf8(bytes).ok()
}

fn starts(bytes: &[u8], pos: usize, word: &str) -> (r: bool)
    requires
        pos <= bytes@.len(),
    ensures
        r == starts_with(bytes@, pos as int, word),
        r ==> pos + word.spec_bytes().len() <= bytes@.len(),
{
    reveal(starts_with);
    let w = word.as_bytes();
    let n = bytes.len();
    if w.len() > n - pos {
        return false;
    }
    let ghost target = starts_with(bytes@, pos as int, word);
    assert(target == (bytes@.subrange(pos as int, pos + w@.len()) == w@));
    let mut i: usize = 0;
    while i < w.len()
        invariant
            i <= w@.len(),
            n == bytes@.len(),
            pos + w@.len() <= n,
            w@ == word.spec_bytes(),
            forall|k: int| 0 <= k < i ==> bytes@[pos + k] == w@[k],
            target == starts_with(bytes@, pos as int, word),
            target == (bytes@.subrange(pos as int, pos + w@.len()) == w@),
        decreases w@.len() - i,
    {
        if bytes[pos + i] != w[i] {
            proof {
                let piece = bytes@.subrange(pos as int, pos + w@.len());
                assert(piece[i as int] == bytes@[pos + i]);
                assert(piece[i as int] != w@[i as int]);
                assert(piece != w@);
            }
            return false;
        }
        i += 1;
    }
    proof {
        assert(bytes@.subrange(pos as int, pos + w@.len()) =~= w@);
    }
    true
}

fn is_word(bytes: &[u8], start: usize, end: usize, word: &str) -> (r: bool)
    requires
        start <= end <= bytes@.len(),
    ensures
        r == (bytes@.subrange(start as int, end as int) == word.spec_bytes()),
{
    reveal(starts_with);
    let w = word.as_bytes();
    if w.len() != end - start {
        return false;
    }
    starts(bytes, start, word)
}

fn kind_of_word(bytes: &[u8], start: usize, end: usize) -> (kind: TokenKind)
    requires
        start <= end <= bytes@.len(),
    ensures
        kind == word_kind(bytes@.subrange(start as int, end as int)),
{
    if is_word(bytes, start, end, "let") {
        TokenKind::Let
    } else if is_word(bytes, start, end, "fn") {
        TokenKind::Fn
    } else if is_word(bytes, start, end, "class") {
        TokenKind::Class
    } else if is_word(bytes, start, end, "return") {
        TokenKind::Return
    } else if is_word(bytes, start, end, "true") {
        TokenKind::True
    } else if is_word(bytes, start, end, "false") {
        TokenKind::False
    } else if is_word(bytes, start, end, "nil") {
        TokenKind::Nil
    } else if is_word(bytes, start, end, "if") {
        TokenKind::If
    } else if is_word(bytes, start, end, "else") {
        TokenKind::Else
    } else if is_word(bytes, start, end, "while") {
        TokenKind::While
    } else if is_word(bytes, start, end, "for") {
        TokenKind::For
    } else if is_word(bytes, start, end, "break") {
        TokenKind::Break
    } else if is_word(bytes, start, end, "continue") {
        TokenKind::Continue
    } else if is_word(bytes, start, end, "import") {
        TokenKind::Import
    } else if is_word(bytes, start, end, "self") {
        TokenKind::SelfKw
    } else if is_word(bytes, start, end, "super") {
        TokenKind::Super
    } else if is_word(bytes, start, end, "in") {
        TokenKind::In
    } else if is_word(bytes, start, end, "as") {
        TokenKind::As
    } else if is_word(bytes, start, end, "is") {
        TokenKind::Is
    } else if is_word(bytes, start, end, "and") {
        TokenKind::And
    } else if is_word(bytes, start, end, "or") {
        TokenKind::Or
    } else if is_word(bytes, start, end, "not") {
        TokenKind::Not
    } else if is_word(bytes, start, end, "static") {
        TokenKind::Static
    } else {
        TokenKind::Identifier
    }
}

fn sign(bytes: &[u8], pos: usize) -> (r: Option<(TokenKind, usize)>)
    requires
        pos <= bytes@.len(),
    ensures
        match r {
            Some((kind, length)) => sign_at(bytes@, pos as int) == Some((kind, length as int))
                && pos + length <= bytes@.len(),
            None => sign_at(bytes@, pos as int) is None,
        },
{
    let n = bytes.len();
    if starts(bytes, pos, "...") {
        Some((TokenKind::DotDotDot, "...".len()))
    } else if starts(bytes, pos, "..") {
        Some((TokenKind::DotDot, "..".len()))
    } else if starts(bytes, pos, "+=") {
        Some((TokenKind::PlusEqual, "+=".len()))
    } else if starts(bytes, pos, "-=") {
        Some((TokenKind::MinusEqual, "-=".len()))
    } else if starts(bytes, pos, "*=") {
        Some((TokenKind::AsteriskEqual, "*=".len()))
    } else if starts(bytes, pos, "/=") {
        Some((TokenKind::SlashEqual, "/=".len()))
    } else if starts(bytes, pos, "%=") {
        Some((TokenKind::PercentEqual, "%=".len()))
    } else if starts(bytes, pos, "==") {
        Some((TokenKind::EqualEqual, "==".len()))
    } else if starts(bytes, pos, "!=") {
        Some((TokenKind::BangEqual, "!=".len()))
    } else if starts(bytes, pos, "<=") {
        Some((TokenKind::LessEqual, "<=".len()))
    } else if starts(bytes, pos, ">=") {
        Some((TokenKind::GreaterEqual, ">=".len()))
    } else if starts(bytes, pos, "::") {
        Some((TokenKind::ColonColon, "::".len()))
    } else if starts(bytes, pos, "->") {
        Some((TokenKind::Arrow, "->".len()))
    } else if starts(bytes, pos, "=>") {
        Some((TokenKind::FatArrow, "=>".len()))
    } else if starts(bytes, pos, "(") {
        Some((TokenKind::LParen, "(".len()))
    } else if starts(bytes, pos, ")") {
        Some((TokenKind::RParen, ")".len()))
    } else if starts(bytes, pos, "{") {
        Some((TokenKind::LBrace, "{".len()))
    } else if starts(bytes, pos, "}") {
        Some((TokenKind::RBrace, "}".len()))
    } else if starts(bytes, pos, "[") {
        Some((TokenKind::LBracket, "[".len()))
    } else if starts(bytes, pos, "]") {
        Some((TokenKind::RBracket, "]".len()))
    } else if starts(bytes, pos, "=") {
        Some((TokenKind::Equal, "=".len()))
    } else if starts(bytes, pos, "<") {
        Some((TokenKind::Less, "<".len()))
    } else if starts(bytes, pos, ">") {
        Some((TokenKind::Greater, ">".len()))
    } else if starts(bytes, pos, ";") {
        Some((TokenKind::Semicolon, ";".len()))
    } else if starts(bytes, pos, ":") {
        Some((TokenKind::Colon, ":".len()))
    } else if starts(bytes, pos, ",") {
        Some((TokenKind::Comma, ",".len()))
    } else if starts(bytes, pos, ".") {
        Some((TokenKind::Dot, ".".len()))
    } else if starts(bytes, pos, "?") {
        Some((TokenKind::Question, "?".len()))
    } else if starts(bytes, pos, "!") {
        Some((TokenKind::Bang, "!".len()))
    } else if starts(bytes, pos, "@") {
        Some((TokenKind::At, "@".len()))
    } else if starts(bytes, pos, "+") {
        Some((TokenKind::Plus, "+".len()))
    } else if starts(bytes, pos, "-") {
        Some((TokenKind::Minus, "-".len()))
    } else if starts(bytes, pos, "*") {
        Some((TokenKind::Asterisk, "*".len()))
    } else if starts(bytes, pos, "/") {
        Some((TokenKind::Slash, "/".len()))
    } else if starts(bytes, pos, "%") {
        Some((TokenKind::Percent, "%".len()))
    } else {
        None
    }
}

/// What was found at a place of a source text.
#[derive(Debug, Clone, Copy, PartialEq, Eq, Structural)]
pub enum Scanned {
    End,
    Skip { end: usize },
    Found { kind: TokenKind, end: usize, from: usize, to: usize },
    Invalid,
}

impl View for Scanned {
    type V = Scan;

    open spec fn view(&self) -> Scan {
        match *self {
            Scanned::End => Scan::End,
            Scanned::Skip { end } => Scan::Skip { end: end as int },
            Scanned::Found { kind, end, from, to } => Scan::Found {
                kind,
                end: end as int,
                from: from as int,
                to: to as int,
            },
            Scanned::Invalid => Scan::Invalid,
        }
    }
}

fn skip_blanks(bytes: &[u8], pos: usize) -> (end: usize)
    requires
        pos <= bytes@.len(),
    ensures
        end == blanks_end(bytes@, pos as int),
        pos <= end <= bytes@.len(),
{
    let mut p = pos;
    while p < bytes.len() && (bytes[p] == SPACE || bytes[p] == TAB || bytes[p] == FORM_FEED)
        invariant
            pos <= p <= bytes@.len(),
            blanks_end(bytes@, p as int) == blanks_end(bytes@, pos as int),
        decreases bytes@.len() - p,
    {
        p += 1;
    }
    p
}

fn skip_line(bytes: &[u8], pos: usize) -> (end: usize)
    requires
        pos <= bytes@.len(),
    ensures
        end == line_end(bytes@, pos as int),
        pos <= end <= bytes@.len(),
{
    let mut p = pos;
    while p < bytes.len() && bytes[p] != LINE_FEED
        invariant
            pos <= p <= bytes@.len(),
            line_end(bytes@, p as int) == line_end(bytes@, pos as int),
        decreases bytes@.len() - p,
    {
        p += 1;
    }
    p
}

fn is_digit_byte(b: u8) -> (r: bool)
    ensures
        r == is_digit(b),
{
    48 <= b && b <= 57
}

fn is_word_start_byte(b: u8) -> (r: bool)
    ensures
        r == is_word_start(b),
{
    (97 <= b && b <= 122) || (65 <= b && b <= 90) || b == 95
}

fn skip_word(bytes: &[u8], pos: usize) -> (end: usize)
    requires
        pos <= bytes@.len(),
    ensures
        end == word_end(bytes@, pos as int),
        pos <= end <= bytes@.len(),
{
    let mut p = pos;
    while p < bytes.len() && (is_word_start_byte(bytes[p]) || is_digit_byte(bytes[p]))
        invariant
            pos <= p <= bytes@.len(),
            word_end(bytes@, p as int) == word_end(bytes@, pos as int),
        decreases bytes@.len() - p,
    {
        p += 1;
    }
    p
}

fn skip_digits(bytes: &[u8], pos: usize) -> (end: usize)
    requires
        pos <= bytes@.len(),
    ensures
        end == digits_end(bytes@, pos as int),
        pos <= end <= bytes@.len(),
{
    let mut p = pos;
    while p < bytes.len() && is_digit_byte(bytes[p])
        invariant
            pos <= p <= bytes@.len(),
            digits_end(bytes@, p as int) == digits_end(bytes@, pos as int),
        decreases bytes@.len() - p,
    {
        p += 1;
    }
    p
}

fn find_quote(bytes: &[u8], pos: usize) -> (end: usize)
    requires
        pos <= bytes@.len(),
    ensures
        end == quote_at(bytes@, pos as int),
        pos <= end <= bytes@.len(),
{
    let mut p = pos;
    while p < bytes.len() && bytes[p] != QUOTE
        invariant
            pos <= p <= bytes@.len(),
            quote_at(bytes@, p as int) == quote_at(bytes@, pos as int),
        decreases bytes@.len() - p,
    {
        p += 1;
    }
    p
}

/// Finds what stands at `pos`.
pub fn scan_at(bytes: &[u8], pos: usize) -> (r: Scanned)
    requires
        pos <= bytes@.len(),
    ensures
        r@ == scan(bytes@, pos as int),
        r matches Scanned::Skip { end } ==> pos <= end <= bytes@.len(),
        r matches Scanned::Found { end, from, to, .. } ==> pos <= end <= bytes@.len() && from <= to
            <= bytes@.len(),
{
    reveal(scan);
    let n = bytes.len();
    if pos >= n {
        return Scanned::End;
    }
    let b = bytes[pos];
    if b == SPACE || b == TAB || b == FORM_FEED {
        return Scanned::Skip { end: skip_blanks(bytes, pos + 1) };
    }
    if starts(bytes, pos, "//") {
        return Scanned::Skip { end: skip_line(bytes, pos + "//".len()) };
    }
    if b == LINE_FEED {
        return Scanned::Found { kind: TokenKind::Newline, end: pos + 1, from: pos, to: pos };
    }
    if b == CARRIAGE_RETURN && pos + 1 < n && bytes[pos + 1] == LINE_FEED {
        return Scanned::Found { kind: TokenKind::Newline, end: pos + 2, from: pos, to: pos };
    }
    if is_word_start_byte(b) {
        let end = skip_word(bytes, pos + 1);
        return Scanned::Found { kind: kind_of_word(bytes, pos, end), end, from: pos, to: end };
    }
    if is_digit_byte(b) {
        let whole = skip_digits(bytes, pos + 1);
        let end = if whole < n && n - whole > 1 && bytes[whole] == 46u8 && is_digit_byte(
            bytes[whole + 1],
        ) {
            skip_digits(bytes, whole + 1)
        } else {
            whole
        };
        return Scanned::Found { kind: TokenKind::Number, end, from: pos, to: end };
    }
    if b == QUOTE {
        let close = find_quote(bytes, pos + 1);
        if close < n {
            return Scanned::Found { kind: TokenKind::String, end: close + 1, from: pos + 1, to: close };
        } else {
            return Scanned::Invalid;
        }
    }
    match sign(bytes, pos) {
        Some((kind, length)) => Scanned::Found { kind, end: pos + length, from: pos, to: pos },
        None => Scanned::Invalid,
    }
}

fn invalid_at(pos: usize) -> (e: SyntaxError)
    ensures
        e == invalid_token(pos as int),
{
    let end = if pos < usize::MAX {
        pos + 1
    } else {
        pos
    };
    SyntaxError { kind: SyntaxErrorKind::InvalidToken, range: CopyRange { start: pos, end } }
}

/// Cuts a source text into its tokens. Fails where something stands in
/// the text that the language does not know, with the error for the first
/// such place.
pub fn lex(source: &str) -> (r: Result<Vec<Token>, SyntaxError>)
    ensures
        match r {
            Ok(tokens) => lexemes(source.spec_bytes()) matches Some(found) && carry_all(
                source.spec_bytes(),
                tokens@,
                found,
            ),
            Err(e) => lexemes(source.spec_bytes()) is None && e == invalid_token(
                halt_from(source.spec_bytes(), 0),
            ),
        },
{
    let bytes = source.as_bytes();
    let n = bytes.len();
    let mut tokens: Vec<Token> = Vec::new();
    let mut pos: usize = 0;
    let mut numbers: usize = 0;
    let ghost mut found: Seq<Lexeme> = Seq::empty();
    let mut done = false;
    while !done
        invariant
            n == bytes@.len(),
            bytes@ == source.spec_bytes(),
            pos <= n,
            numbers <= pos,
            carry_all(bytes@, tokens@, found),
            lexemes_from(bytes@, 0, Seq::empty(), 0) == lexemes_from(
                bytes@,
                pos as int,
                found,
                numbers as nat,
            ),
            halt_from(bytes@, 0) == halt_from(bytes@, pos as int),
            done ==> lexemes_from(bytes@, 0, Seq::empty(), 0) == Some(found),
        decreases n - pos + if done { 0int } else { 1int },
    {
        match scan_at(bytes, pos) {
            Scanned::End => {
                done = true;
            },
            Scanned::Invalid => {
                return Err(invalid_at(pos));
            },
            Scanned::Skip { end } => {
                if end <= pos {
                    return Err(invalid_at(pos));
                }
                pos = end;
            },
            Scanned::Found { kind, end, from, to } => {
                if end <= pos {
                    return Err(invalid_at(pos));
                }
                let keeps = match kind {
                    TokenKind::Identifier => true,
                    TokenKind::String => true,
                    TokenKind::Number => true,
                    _ => false,
                };
                let text = if keeps {
                    let piece = vstd::slice::slice_to_vec(slice_subrange(bytes, from, to));
                    match string_from_utf8(piece) {
                        Some(text) => text,
                        None => {
                            return Err(invalid_at(pos));
                        },
                    }
                } else {
                    String::new()
                };
                let is_number = match kind {
                    TokenKind::Number => true,
                    _ => false,
                };
                let ordinal = if is_number {
                    numbers
                } else {
                    0
                };
                let token = Token { kind, text, ordinal, start: pos, end };
                let ghost lexeme = Lexeme {
                    kind,
                    ordinal: ordinal as nat,
                    start: pos as int,
                    end: end as int,
                    from: from as int,
                    to: to as int,
                };
                proof {
                    assert(encode_utf8(Seq::<char>::empty()) =~= Seq::<u8>::empty());
                    assert(carries(bytes@, token, lexeme));
                }
                let ghost before = tokens@;
                tokens.push(token);
                proof {
                    assert forall|i: int| 0 <= i < tokens@.len() implies carries(
                        bytes@,
                        #[trigger] tokens@[i],
                        found.push(lexeme)[i],
                    ) by {
                        if i < before.len() {
                            assert(tokens@[i] == before[i]);
                            assert(carries(bytes@, before[i], found[i]));
                        }
                    }
                    found = found.push(lexeme);
                }
                if is_number {
                    numbers += 1;
                }
                pos = end;
            },
        }
    }
    let count = tokens.len();
    if count > 0 {
        let last_is_newline = match tokens[count - 1].kind {
            TokenKind::Newline => true,
            _ => false,
        };
        if !last_is_newline {
            let at = tokens[count - 1].end;
            let token = Token {
                kind: TokenKind::Newline,
                text: String::new(),
                ordinal: 0,
                start: at,
                end: at,
            };
            let ghost closing = Lexeme {
                kind: TokenKind::Newline,
                ordinal: 0,
                start: at as int,
                end: at as int,
                from: at as int,
                to: at as int,
            };
            let ghost before = tokens@;
            proof {
                assert(encode_utf8(Seq::<char>::empty()) =~= Seq::<u8>::empty());
                assert(carries(bytes@, token, closing));
            }
            tokens.push(token);
            proof {
                assert forall|i: int| 0 <= i < tokens@.len() implies carries(
                    bytes@,
                    #[trigger] tokens@[i],
                    found.push(closing)[i],
                ) by {
                    if i < before.len() {
                        assert(tokens@[i] == before[i]);
                        assert(carries(bytes@, before[i], found[i]));
                    }
                }
            }
        }
    }
    Ok(tokens)
}

} // verus!
