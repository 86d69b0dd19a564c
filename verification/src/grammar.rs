//! The grammar of the surface syntax: what a sequence of tokens reads as.
//!
//! A program is a sequence of statements, each ended by a semicolon or a
//! line end. A statement declares a class, binds a name with `let`,
//! returns with `return`, or is an expression. Binary operators bind, from
//! loosest to tightest: `or`; `and`; `==` `!=`; `<` `<=` `>` `>=`; `+`
//! `-`; `*` `/` `%`; all associate to the left. Assignment binds loosest
//! of all and associates to the right.

use vstd::prelude::*;
use crate::ast::{BinaryOp, ClassMember, Expr, Program, Statement, UnaryOp};
use crate::range::{CopyRange, SourceRange};
use crate::syntax::{SyntaxError, SyntaxErrorKind};
use crate::token::{TokenKind, TokenView};

verus! {

/// An expression, with its texts as plain sequences.
pub enum ExprView {
    Number(u64, SourceRange),
    Text(Seq<char>, SourceRange),
    Boolean(bool, SourceRange),
    Nil(SourceRange),
    Var(Seq<char>, SourceRange),
    Field(Seq<char>, SourceRange),
    SelfVar(SourceRange),
    SuperVar(SourceRange),
    Assignment(Box<ExprView>, Box<ExprView>, SourceRange),
    Unary(UnaryOp, Box<ExprView>, SourceRange),
    Binary(BinaryOp, Box<ExprView>, Box<ExprView>, SourceRange),
    MethodCall(Box<ExprView>, Seq<char>, Seq<ExprView>, SourceRange),
    GetProperty(Box<ExprView>, Seq<char>, SourceRange),
    SetProperty(Box<ExprView>, Seq<char>, Box<ExprView>, SourceRange),
}

/// A statement, with its texts as plain sequences.
pub enum StatementView {
    Class(Seq<char>, Seq<MemberView>, SourceRange),
    Let(Seq<char>, Option<ExprView>, SourceRange),
    Return(Option<ExprView>, SourceRange),
    Expr(ExprView, SourceRange),
}

/// A member of a class, with its texts as plain sequences.
pub enum MemberView {
    Method(Seq<char>, Seq<Seq<char>>, Seq<StatementView>, bool, SourceRange),
    Getter(Seq<char>, Seq<StatementView>, bool, SourceRange),
    Setter(Seq<char>, Seq<char>, Seq<StatementView>, bool, SourceRange),
}

/// The expression, with its texts as plain sequences.
pub open spec fn expr_view(e: Expr) -> ExprView
    decreases e, 0nat,
{
    match e {
        Expr::Number { value, range } => ExprView::Number(value, range),
        Expr::String { value, range } => ExprView::Text(value@, range),
        Expr::Boolean { value, range } => ExprView::Boolean(value, range),
        Expr::Nil { range } => ExprView::Nil(range),
        Expr::Var { value, range } => ExprView::Var(value@, range),
        Expr::Field { value, range } => ExprView::Field(value@, range),
        Expr::SelfVar { range } => ExprView::SelfVar(range),
        Expr::SuperVar { range } => ExprView::SuperVar(range),
        Expr::Assignment(a) => ExprView::Assignment(
            Box::new(expr_view(*a.name)),
            Box::new(expr_view(a.value)),
            a.range,
        ),
        Expr::Unary(u) => ExprView::Unary(u.op, Box::new(expr_view(u.expr)), u.range),
        Expr::Binary(b) => ExprView::Binary(
            b.op,
            Box::new(expr_view(b.left)),
            Box::new(expr_view(b.right)),
            b.range,
        ),
        Expr::MethodCall(c) => ExprView::MethodCall(
            Box::new(expr_view(c.object)),
            c.method@,
            exprs_view(c.args@, c.args@.len()),
            c.range,
        ),
        Expr::GetProperty(g) => ExprView::GetProperty(
            Box::new(expr_view(g.object)),
            g.property@,
            g.range,
        ),
        Expr::SetProperty(s) => ExprView::SetProperty(
            Box::new(expr_view(s.object)),
            s.property@,
            Box::new(expr_view(s.value)),
            s.range,
        ),
    }
}

/// The first `n` of the expressions, with their texts as plain sequences.
pub open spec fn exprs_view(es: Seq<Expr>, n: nat) -> Seq<ExprView>
    decreases es, n,
{
    if n == 0 || n > es.len() {
        Seq::empty()
    } else {
        exprs_view(es, (n - 1) as nat).push(expr_view(es[n - 1]))
    }
}

/// The value of a statement, with its texts as plain sequences.
pub open spec fn value_view(value: Option<Expr>) -> Option<ExprView> {
    match value {
        Some(e) => Some(expr_view(e)),
        None => None,
    }
}

/// The statement, with its texts as plain sequences.
pub open spec fn statement_view(s: Statement) -> StatementView
    decreases s, 0nat,
{
    match s {
        Statement::Class(d) => StatementView::Class(
            d.name@,
            members_view(d.members@, d.members@.len()),
            d.range,
        ),
        Statement::Let(b) => StatementView::Let(b.name@, value_view(b.value), b.range),
        Statement::Return(r) => StatementView::Return(value_view(r.value), r.range),
        Statement::Expr { expr, range } => StatementView::Expr(expr_view(expr), range),
    }
}

/// The first `n` of the statements, with their texts as plain sequences.
pub open spec fn statements_view(ss: Seq<Statement>, n: nat) -> Seq<StatementView>
    decreases ss, n,
{
    if n == 0 || n > ss.len() {
        Seq::empty()
    } else {
        statements_view(ss, (n - 1) as nat).push(statement_view(ss[n - 1]))
    }
}

/// The texts as plain sequences.
pub open spec fn names_view(names: Seq<String>) -> Seq<Seq<char>> {
    Seq::new(names.len(), |i: int| names[i]@)
}

/// The member, with its texts as plain sequences.
pub open spec fn member_view(m: ClassMember) -> MemberView
    decreases m, 0nat,
{
    match m {
        ClassMember::Method(d) => MemberView::Method(
            d.name@,
            names_view(d.params@),
            statements_view(d.body@, d.body@.len()),
            d.is_static,
            d.range,
        ),
        ClassMember::Getter(d) => MemberView::Getter(
            d.name@,
            statements_view(d.body@, d.body@.len()),
            d.is_static,
            d.range,
        ),
        ClassMember::Setter(d) => MemberView::Setter(
            d.name@,
            d.param@,
            statements_view(d.body@, d.body@.len()),
            d.is_static,
            d.range,
        ),
    }
}

/// The first `n` of the members, with their texts as plain sequences.
pub open spec fn members_view(ms: Seq<ClassMember>, n: nat) -> Seq<MemberView>
    decreases ms, n,
{
    if n == 0 || n > ms.len() {
        Seq::empty()
    } else {
        members_view(ms, (n - 1) as nat).push(member_view(ms[n - 1]))
    }
}

/// The statements of a program, with their texts as plain sequences.
pub open spec fn program_view(p: Program) -> Seq<StatementView> {
    statements_view(p.statements@, p.statements@.len())
}

/// The kind of the token at `pos`; nothing behind the last token.
pub open spec fn kind_at(toks: Seq<TokenView>, pos: int) -> Option<TokenKind> {
    if 0 <= pos < toks.len() {
        Some(toks[pos].kind)
    } else {
        None
    }
}

/// The range from the start of the token at `first` to the end of the
/// token before `next`.
pub open spec fn span(toks: Seq<TokenView>, first: int, next: int) -> SourceRange {
    CopyRange { start: toks[first].start, end: toks[next - 1].end }
}

/// The binary operator of a token and how tight it binds, from 0 for
/// `or` to 5 for `*`.
pub open spec fn operator_of(kind: TokenKind) -> Option<(int, BinaryOp)> {
    match kind {
        TokenKind::Or => Some((0, BinaryOp::Or)),
        TokenKind::And => Some((1, BinaryOp::And)),
        TokenKind::EqualEqual => Some((2, BinaryOp::Equal)),
        TokenKind::BangEqual => Some((2, BinaryOp::NotEqual)),
        TokenKind::Less => Some((3, BinaryOp::LessThan)),
        TokenKind::LessEqual => Some((3, BinaryOp::LessThanOrEqual)),
        TokenKind::Greater => Some((3, BinaryOp::GreaterThan)),
        TokenKind::GreaterEqual => Some((3, BinaryOp::GreaterThanOrEqual)),
        TokenKind::Plus => Some((4, BinaryOp::Add)),
        TokenKind::Minus => Some((4, BinaryOp::Subtract)),
        TokenKind::Asterisk => Some((5, BinaryOp::Multiply)),
        TokenKind::Slash => Some((5, BinaryOp::Divide)),
        TokenKind::Percent => Some((5, BinaryOp::Modulo)),
        _ => None,
    }
}

/// The operator at `pos`, if it binds as tight as `level`.
pub open spec fn operator_at(toks: Seq<TokenView>, level: int, pos: int) -> Option<BinaryOp> {
    match kind_at(toks, pos) {
        Some(kind) => match operator_of(kind) {
            Some((l, op)) => if l == level {
                Some(op)
            } else {
                None
            },
            None => None,
        },
        None => None,
    }
}

/// What a token assigns: nothing for a token that does not assign, no
/// operator for `=`, and the operator for a compound assignment.
pub open spec fn assignment_of(kind: TokenKind) -> Option<Option<BinaryOp>> {
    match kind {
        TokenKind::Equal => Some(None),
        TokenKind::PlusEqual => Some(Some(BinaryOp::Add)),
        TokenKind::MinusEqual => Some(Some(BinaryOp::Subtract)),
        TokenKind::AsteriskEqual => Some(Some(BinaryOp::Multiply)),
        TokenKind::SlashEqual => Some(Some(BinaryOp::Divide)),
        TokenKind::PercentEqual => Some(Some(BinaryOp::Modulo)),
        _ => None,
    }
}

/// True for a token that ends a statement.
pub open spec fn ends_statement(kind: TokenKind) -> bool {
    kind == TokenKind::Newline || kind == TokenKind::Semicolon
}

/// The place behind the line ends and semicolons that start at `pos`.
pub open spec fn past_ends(toks: Seq<TokenView>, pos: int) -> int
    decreases toks.len() - pos,
{
    if 0 <= pos < toks.len() && ends_statement(toks[pos].kind) {
        past_ends(toks, pos + 1)
    } else {
        pos
    }
}

/// The place behind the line ends that start at `pos`.
pub open spec fn past_lines(toks: Seq<TokenView>, pos: int) -> int
    decreases toks.len() - pos,
{
    if 0 <= pos < toks.len() && toks[pos].kind == TokenKind::Newline {
        past_lines(toks, pos + 1)
    } else {
        pos
    }
}

/// Where a statement that has been read up to `pos` ends: behind a line
/// end or a semicolon, or before a closing brace or the end of the
/// tokens. Nothing where something else follows.
pub open spec fn statement_end(toks: Seq<TokenView>, pos: int) -> Option<int> {
    match kind_at(toks, pos) {
        Some(kind) => if ends_statement(kind) {
            Some(pos + 1)
        } else if kind == TokenKind::RBrace {
            Some(pos)
        } else {
            None
        },
        None => Some(pos),
    }
}

/// The name that may follow a dot: an identifier, or one of the words
/// `class` and `super`.
pub open spec fn property_name(toks: Seq<TokenView>, pos: int) -> Option<Seq<char>> {
    match kind_at(toks, pos) {
        Some(TokenKind::Identifier) => Some(toks[pos].text),
        Some(TokenKind::Class) => Some("class"@),
        Some(TokenKind::Super) => Some("super"@),
        _ => None,
    }
}

/// What an assignment to `target` of `value` is: a property is set, and
/// anything else is assigned.
pub open spec fn assigned(target: ExprView, value: ExprView, whole: SourceRange) -> ExprView {
    match target {
        ExprView::GetProperty(object, name, _) => ExprView::SetProperty(
            object,
            name,
            Box::new(value),
            whole,
        ),
        other => ExprView::Assignment(Box::new(other), Box::new(value), whole),
    }
}

/// A literal, a name, a field behind `@`, or an expression in
/// parentheses, from `pos` on; with the place behind it.
pub open spec fn primary(toks: Seq<TokenView>, values: Seq<u64>, pos: int) -> Option<
    (ExprView, int),
>
    decreases toks.len() - pos, 0nat,
{
    if pos < 0 || pos >= toks.len() {
        None
    } else {
        let t = toks[pos];
        let here = CopyRange { start: t.start, end: t.end };
        match t.kind {
            TokenKind::Number => if t.ordinal < values.len() {
                Some((ExprView::Number(values[t.ordinal as int], here), pos + 1))
            } else {
                None
            },
            TokenKind::String => Some((ExprView::Text(t.text, here), pos + 1)),
            TokenKind::True => Some((ExprView::Boolean(true, here), pos + 1)),
            TokenKind::False => Some((ExprView::Boolean(false, here), pos + 1)),
            TokenKind::Nil => Some((ExprView::Nil(here), pos + 1)),
            TokenKind::SelfKw => Some((ExprView::SelfVar(here), pos + 1)),
            TokenKind::Super => Some((ExprView::SuperVar(here), pos + 1)),
            TokenKind::Identifier => Some((ExprView::Var(t.text, here), pos + 1)),
            TokenKind::At => if kind_at(toks, pos + 1) == Some(TokenKind::Identifier) {
                Some((ExprView::Field(toks[pos + 1].text, span(toks, pos, pos + 2)), pos + 2))
            } else {
                None
            },
            TokenKind::LParen => match expression(toks, values, pos + 1) {
                Some((e, p)) => if pos < p <= toks.len() && kind_at(toks, p) == Some(TokenKind::RParen) {
                    Some((e, p + 1))
                } else {
                    None
                },
                None => None,
            },
            _ => None,
        }
    }
}

/// The arguments of a call from `pos` on, behind the arguments `found`
/// before, up to the closing parenthesis; with the place behind it.
pub open spec fn arguments(
    toks: Seq<TokenView>,
    values: Seq<u64>,
    pos: int,
    found: Seq<ExprView>,
) -> Option<(Seq<ExprView>, int)>
    decreases toks.len() - pos, 30nat,
{
    match expression(toks, values, pos) {
        Some((e, p)) => if pos < p <= toks.len() {
            match kind_at(toks, p) {
                Some(TokenKind::RParen) => Some((found.push(e), p + 1)),
                Some(TokenKind::Comma) => arguments(toks, values, p + 1, found.push(e)),
                _ => None,
            }
        } else {
            None
        },
        None => None,
    }
}

/// What follows an expression that started at the token `first` and was
/// read up to `pos`: any number of `.name` and `.name(arguments)`.
pub open spec fn postfix_rest(
    toks: Seq<TokenView>,
    values: Seq<u64>,
    object: ExprView,
    first: int,
    pos: int,
) -> Option<(ExprView, int)>
    decreases toks.len() - pos, 1nat,
{
    if kind_at(toks, pos) == Some(TokenKind::Dot) {
        match property_name(toks, pos + 1) {
            Some(name) => if kind_at(toks, pos + 2) == Some(TokenKind::LParen) {
                if kind_at(toks, pos + 3) == Some(TokenKind::RParen) {
                    postfix_rest(
                        toks,
                        values,
                        ExprView::MethodCall(
                            Box::new(object),
                            name,
                            Seq::empty(),
                            span(toks, first, pos + 4),
                        ),
                        first,
                        pos + 4,
                    )
                } else {
                    match arguments(toks, values, pos + 3, Seq::empty()) {
                        Some((list, p)) => if pos < p <= toks.len() {
                            postfix_rest(
                                toks,
                                values,
                                ExprView::MethodCall(
                                    Box::new(object),
                                    name,
                                    list,
                                    span(toks, first, p),
                                ),
                                first,
                                p,
                            )
                        } else {
                            None
                        },
                        None => None,
                    }
                }
            } else {
                postfix_rest(
                    toks,
                    values,
                    ExprView::GetProperty(Box::new(object), name, span(toks, first, pos + 2)),
                    first,
                    pos + 2,
                )
            },
            None => None,
        }
    } else {
        Some((object, pos))
    }
}

/// A primary expression and what follows it.
pub open spec fn postfix(toks: Seq<TokenView>, values: Seq<u64>, pos: int) -> Option<
    (ExprView, int),
>
    decreases toks.len() - pos, 2nat,
{
    match primary(toks, values, pos) {
        Some((object, p)) => if pos < p <= toks.len() {
            postfix_rest(toks, values, object, pos, p)
        } else {
            None
        },
        None => None,
    }
}

/// The unary operator of a token: `-` negates, `not` and `!` invert.
pub open spec fn unary_of(kind: TokenKind) -> Option<UnaryOp> {
    match kind {
        TokenKind::Minus => Some(UnaryOp::Negate),
        TokenKind::Not => Some(UnaryOp::Not),
        TokenKind::Bang => Some(UnaryOp::Not),
        _ => None,
    }
}

/// Any number of unary operators and the expression they apply to.
pub open spec fn unary(toks: Seq<TokenView>, values: Seq<u64>, pos: int) -> Option<(ExprView, int)>
    decreases toks.len() - pos, 3nat,
{
    match kind_at(toks, pos) {
        Some(kind) => match unary_of(kind) {
            Some(op) => match unary(toks, values, pos + 1) {
                Some((e, p)) => if pos < p <= toks.len() {
                    Some((ExprView::Unary(op, Box::new(e), span(toks, pos, p)), p))
                } else {
                    None
                },
                None => None,
            },
            None => postfix(toks, values, pos),
        },
        None => None,
    }
}

/// An expression of binary operators that bind at least as tight as
/// `level`; at level 6, an expression without binary operators.
pub open spec fn binary(toks: Seq<TokenView>, values: Seq<u64>, level: int, pos: int) -> Option<
    (ExprView, int),
>
    decreases toks.len() - pos, (10 - level) as nat,
{
    if level == 6 {
        unary(toks, values, pos)
    } else if level < 0 || level > 6 {
        None
    } else {
        match binary(toks, values, level + 1, pos) {
            Some((left, p)) => if pos < p <= toks.len() {
                binary_rest(toks, values, level, left, pos, p)
            } else {
                None
            },
            None => None,
        }
    }
}

/// What follows the left operand of operators that bind as tight as
/// `level`: any number of such operators, each with its right operand.
pub open spec fn binary_rest(
    toks: Seq<TokenView>,
    values: Seq<u64>,
    level: int,
    left: ExprView,
    first: int,
    pos: int,
) -> Option<(ExprView, int)>
    decreases toks.len() - pos, 0nat,
{
    if level < 0 || level > 5 {
        None
    } else {
        match operator_at(toks, level, pos) {
            Some(op) => match binary(toks, values, level + 1, pos + 1) {
                Some((right, p)) => if pos < p <= toks.len() {
                    binary_rest(
                        toks,
                        values,
                        level,
                        ExprView::Binary(op, Box::new(left), Box::new(right), span(toks, first, p)),
                        first,
                        p,
                    )
                } else {
                    None
                },
                None => None,
            },
            None => Some((left, pos)),
        }
    }
}

/// An expression: operators, and behind them maybe an assignment.
pub open spec fn expression(toks: Seq<TokenView>, values: Seq<u64>, pos: int) -> Option<
    (ExprView, int),
>
    decreases toks.len() - pos, 20nat,
{
    match binary(toks, values, 0, pos) {
        Some((target, p)) => if pos < p <= toks.len() {
            match kind_at(toks, p) {
                Some(kind) => match assignment_of(kind) {
                    Some(compound) => match expression(toks, values, p + 1) {
                        Some((right, q)) => if p < q <= toks.len() {
                            let whole = span(toks, pos, q);
                            let value = match compound {
                                Some(op) => ExprView::Binary(
                                    op,
                                    Box::new(target),
                                    Box::new(right),
                                    whole,
                                ),
                                None => right,
                            };
                            Some((assigned(target, value, whole), q))
                        } else {
                            None
                        },
                        None => None,
                    },
                    None => Some((target, p)),
                },
                None => Some((target, p)),
            }
        } else {
            None
        },
        None => None,
    }
}

/// The value of a `let` or a `return` that goes on at `pos`, and where
/// the statement ends.
pub open spec fn value_and_end(toks: Seq<TokenView>, values: Seq<u64>, pos: int) -> Option<
    (ExprView, int, int),
>
    decreases toks.len() - pos, 21nat,
{
    match expression(toks, values, pos) {
        Some((e, p)) => if pos < p <= toks.len() {
            match statement_end(toks, p) {
                Some(q) => Some((e, p, q)),
                None => None,
            }
        } else {
            None
        },
        None => None,
    }
}

/// A statement from `pos` on, with the place behind it.
pub open spec fn statement(toks: Seq<TokenView>, values: Seq<u64>, pos: int) -> Option<
    (StatementView, int),
>
    decreases toks.len() - pos, 40nat,
{
    match kind_at(toks, pos) {
        None => None,
        Some(TokenKind::Class) => if kind_at(toks, pos + 1) == Some(TokenKind::Identifier) {
            let open = past_lines(toks, pos + 2);
            if pos < open <= toks.len() && kind_at(toks, open) == Some(TokenKind::LBrace) {
                let inside = past_ends(toks, open + 1);
                if pos < inside <= toks.len() {
                    match members(toks, values, inside, Seq::empty()) {
                        Some((list, q)) => if pos < q <= toks.len() {
                            Some(
                                (
                                    StatementView::Class(toks[pos + 1].text, list, span(toks, pos, q)),
                                    q,
                                ),
                            )
                        } else {
                            None
                        },
                        None => None,
                    }
                } else {
                    None
                }
            } else {
                None
            }
        } else {
            None
        },
        Some(TokenKind::Let) => if kind_at(toks, pos + 1) == Some(TokenKind::Identifier) {
            if kind_at(toks, pos + 2) == Some(TokenKind::Equal) {
                match value_and_end(toks, values, pos + 3) {
                    Some((e, p, q)) => Some(
                        (StatementView::Let(toks[pos + 1].text, Some(e), span(toks, pos, p)), q),
                    ),
                    None => None,
                }
            } else {
                match statement_end(toks, pos + 2) {
                    Some(q) => Some(
                        (StatementView::Let(toks[pos + 1].text, None, span(toks, pos, pos + 2)), q),
                    ),
                    None => None,
                }
            }
        } else {
            None
        },
        Some(TokenKind::Return) => match statement_end(toks, pos + 1) {
            Some(q) => Some((StatementView::Return(None, span(toks, pos, pos + 1)), q)),
            None => match value_and_end(toks, values, pos + 1) {
                Some((e, p, q)) => Some((StatementView::Return(Some(e), span(toks, pos, p)), q)),
                None => None,
            },
        },
        Some(_) => match value_and_end(toks, values, pos) {
            Some((e, p, q)) => Some((StatementView::Expr(e, span(toks, pos, p)), q)),
            None => None,
        },
    }
}

/// The statements from `pos` on, behind the statements `found` before,
/// up to the closing brace; with the place behind it.
pub open spec fn statements(
    toks: Seq<TokenView>,
    values: Seq<u64>,
    pos: int,
    found: Seq<StatementView>,
) -> Option<(Seq<StatementView>, int)>
    decreases toks.len() - pos, 49nat,
{
    match kind_at(toks, pos) {
        None => None,
        Some(TokenKind::RBrace) => Some((found, pos + 1)),
        Some(_) => match statement(toks, values, pos) {
            Some((s, p)) => {
                let next = past_ends(toks, p);
                if pos < p <= toks.len() && pos < next <= toks.len() {
                    statements(toks, values, next, found.push(s))
                } else {
                    None
                }
            },
            None => None,
        },
    }
}

/// A block: after any line ends an opening brace, statements, and the
/// closing brace; with the place behind it.
pub open spec fn block(toks: Seq<TokenView>, values: Seq<u64>, pos: int) -> Option<
    (Seq<StatementView>, int),
>
    decreases toks.len() - pos, 48nat,
{
    let open = past_lines(toks, pos);
    if pos <= open <= toks.len() && kind_at(toks, open) == Some(TokenKind::LBrace) {
        let inside = past_ends(toks, open + 1);
        if pos < inside <= toks.len() {
            statements(toks, values, inside, Seq::empty())
        } else {
            None
        }
    } else {
        None
    }
}

/// The parameters of a method from `pos` on, behind the parameters
/// `found` before, up to the closing parenthesis; with the place behind
/// it.
pub open spec fn parameters(toks: Seq<TokenView>, pos: int, found: Seq<Seq<char>>) -> Option<
    (Seq<Seq<char>>, int),
>
    decreases toks.len() - pos,
{
    if kind_at(toks, pos) == Some(TokenKind::Identifier) {
        match kind_at(toks, pos + 1) {
            Some(TokenKind::RParen) => Some((found.push(toks[pos].text), pos + 2)),
            Some(TokenKind::Comma) => parameters(toks, pos + 2, found.push(toks[pos].text)),
            _ => None,
        }
    } else {
        None
    }
}

/// A member of a class whose name stands at `name`, read from the token
/// `first` on: a setter where `=` follows the name, a method where a
/// parenthesis follows, else a getter.
pub open spec fn member_named(
    toks: Seq<TokenView>,
    values: Seq<u64>,
    first: int,
    name: int,
    is_static: bool,
) -> Option<(MemberView, int)>
    decreases toks.len() - name, 44nat,
{
    if kind_at(toks, name) != Some(TokenKind::Identifier) {
        None
    } else if kind_at(toks, name + 1) == Some(TokenKind::Equal) {
        if kind_at(toks, name + 2) == Some(TokenKind::LParen) && kind_at(toks, name + 3) == Some(
            TokenKind::Identifier,
        ) && kind_at(toks, name + 4) == Some(TokenKind::RParen) {
            match block(toks, values, name + 5) {
                Some((body, q)) => if name < q <= toks.len() {
                    Some(
                        (
                            MemberView::Setter(
                                toks[name].text,
                                toks[name + 3].text,
                                body,
                                is_static,
                                span(toks, first, q),
                            ),
                            q,
                        ),
                    )
                } else {
                    None
                },
                None => None,
            }
        } else {
            None
        }
    } else if kind_at(toks, name + 1) == Some(TokenKind::LParen) {
        let listed = if kind_at(toks, name + 2) == Some(TokenKind::RParen) {
            Some((Seq::<Seq<char>>::empty(), name + 3))
        } else {
            parameters(toks, name + 2, Seq::empty())
        };
        match listed {
            Some((params, p)) => if name < p <= toks.len() {
                match block(toks, values, p) {
                    Some((body, q)) => if name < q <= toks.len() {
                        Some(
                            (
                                MemberView::Method(
                                    toks[name].text,
                                    params,
                                    body,
                                    is_static,
                                    span(toks, first, q),
                                ),
                                q,
                            ),
                        )
                    } else {
                        None
                    },
                    None => None,
                }
            } else {
                None
            },
            None => None,
        }
    } else {
        match block(toks, values, name + 1) {
            Some((body, q)) => if name < q <= toks.len() {
                Some(
                    (MemberView::Getter(toks[name].text, body, is_static, span(toks, first, q)), q),
                )
            } else {
                None
            },
            None => None,
        }
    }
}

/// A member of a class from `pos` on: maybe `static`, and the member.
pub open spec fn member(toks: Seq<TokenView>, values: Seq<u64>, pos: int) -> Option<
    (MemberView, int),
>
    decreases toks.len() - pos, 45nat,
{
    if kind_at(toks, pos) == Some(TokenKind::Static) {
        member_named(toks, values, pos, pos + 1, true)
    } else {
        member_named(toks, values, pos, pos, false)
    }
}

/// The members from `pos` on, behind the members `found` before, up to
/// the closing brace; with the place behind it.
pub open spec fn members(
    toks: Seq<TokenView>,
    values: Seq<u64>,
    pos: int,
    found: Seq<MemberView>,
) -> Option<(Seq<MemberView>, int)>
    decreases toks.len() - pos, 50nat,
{
    match kind_at(toks, pos) {
        None => None,
        Some(TokenKind::RBrace) => Some((found, pos + 1)),
        Some(_) => match member(toks, values, pos) {
            Some((m, p)) => {
                let next = past_ends(toks, p);
                if pos < p <= toks.len() && pos < next <= toks.len() {
                    members(toks, values, next, found.push(m))
                } else {
                    None
                }
            },
            None => None,
        },
    }
}

/// The statements from `pos` on, behind the statements `found` before,
/// up to the end of the tokens.
pub open spec fn program_from(
    toks: Seq<TokenView>,
    values: Seq<u64>,
    pos: int,
    found: Seq<StatementView>,
) -> Option<Seq<StatementView>>
    decreases toks.len() - pos, 60nat,
{
    if pos < 0 || pos >= toks.len() {
        Some(found)
    } else {
        match statement(toks, values, pos) {
            Some((s, p)) => {
                let next = past_ends(toks, p);
                if pos < p <= toks.len() && pos < next <= toks.len() {
                    program_from(toks, values, next, found.push(s))
                } else {
                    None
                }
            },
            None => None,
        }
    }
}

/// What the tokens read as: the statements of a program, or nothing
/// where the tokens are no program. `values` holds the value of each
/// number, in the order of the numbers in the source.
pub open spec fn reading(toks: Seq<TokenView>, values: Seq<u64>) -> Option<Seq<StatementView>> {
    program_from(toks, values, past_ends(toks, 0), Seq::empty())
}

/// True when the error is the one for the token at `pos`: that the token
/// was not recognized, with its text and over its range; or, with no
/// token at `pos`, that the tokens ended, at the end of the last of them.
/// Neither says what was expected.
pub open spec fn unexpected_at(toks: Seq<TokenView>, pos: int, error: SyntaxError) -> bool {
    match error.kind {
        SyntaxErrorKind::UnrecognizedToken { token, expected } => {
            &&& 0 <= pos < toks.len()
            &&& token@ == toks[pos].text
            &&& expected@.len() == 0
            &&& error.range == CopyRange { start: toks[pos].start, end: toks[pos].end }
        },
        SyntaxErrorKind::UnrecognizedEof { expected } => {
            let end = if toks.len() > 0 {
                toks.last().end
            } else {
                0
            };
            &&& !(0 <= pos < toks.len())
            &&& expected@.len() == 0
            &&& error.range == CopyRange { start: end, end }
        },
        _ => false,
    }
}

/// True when the error is the one for a token at `pos` or behind it, or
/// for the end of the tokens.
pub open spec fn stops_in(toks: Seq<TokenView>, pos: int, error: SyntaxError) -> bool {
    exists|at: int| pos <= at && #[trigger] unexpected_at(toks, at, error)
}

} // verus!
