//! The parser: reads the tokens of a source text as a program.

use vstd::prelude::*;
use crate::ast::{
    AssignmentExpr, BinaryExpr, BinaryOp, ClassDef, ClassMember, Expr, GetPropertyExpr, GetterDef,
    LetBinding, MethodCallExpr, MethodDef, Program, ReturnStatement, SetPropertyExpr, SetterDef,
    Statement, UnaryExpr, UnaryOp,
};
use crate::grammar::{
    arguments, assigned, assignment_of, binary, binary_rest, block, expr_view, expression,
    exprs_view, kind_at, member, member_named, member_view, members, members_view, names_view,
    operator_at, parameters, past_ends, past_lines, postfix, postfix_rest, primary,
    program_from, program_view, property_name, reading, span, statement, statement_end,
    statement_view, statements, statements_view, stops_in, unary, unexpected_at, value_and_end,
    ExprView,
};
use crate::range::{CopyRange, SourceRange};
use crate::syntax::{SyntaxError, SyntaxErrorKind};
use crate::token::{token_views, Token, TokenKind};

verus! {

/// The views of the first `n` do not change where more are appended.
pub proof fn lemma_exprs_view_push_prefix(es: Seq<Expr>, e: Expr, n: nat)
    requires
        n <= es.len(),
    ensures
        exprs_view(es.push(e), n) == exprs_view(es, n),
    decreases n,
{
    if n > 0 {
        lemma_exprs_view_push_prefix(es, e, (n - 1) as nat);
        assert(es.push(e)[n - 1] == es[n - 1]);
    }
}

/// The views of all are the views of all but the last, and the view of
/// the last.
pub proof fn lemma_exprs_view_push(es: Seq<Expr>, e: Expr)
    ensures
        exprs_view(es.push(e), es.len() + 1) == exprs_view(es, es.len()).push(
            expr_view(e),
        ),
{
    lemma_exprs_view_push_prefix(es, e, es.len());
    assert(es.push(e)[es.len() as int] == e);
}

/// The views of the first `n` do not change where more are appended.
pub proof fn lemma_statements_view_push_prefix(ss: Seq<Statement>, s: Statement, n: nat)
    requires
        n <= ss.len(),
    ensures
        statements_view(ss.push(s), n) == statements_view(ss, n),
    decreases n,
{
    if n > 0 {
        lemma_statements_view_push_prefix(ss, s, (n - 1) as nat);
        assert(ss.push(s)[n - 1] == ss[n - 1]);
    }
}

/// The views of all are the views of all but the last, and the view of
/// the last.
pub proof fn lemma_statements_view_push(ss: Seq<Statement>, s: Statement)
    ensures
        statements_view(ss.push(s), ss.len() + 1) == statements_view(ss, ss.len()).push(
            statement_view(s),
        ),
{
    lemma_statements_view_push_prefix(ss, s, ss.len());
    assert(ss.push(s)[ss.len() as int] == s);
}

/// The views of the first `n` do not change where more are appended.
pub proof fn lemma_members_view_push_prefix(ms: Seq<ClassMember>, m: ClassMember, n: nat)
    requires
        n <= ms.len(),
    ensures
        members_view(ms.push(m), n) == members_view(ms, n),
    decreases n,
{
    if n > 0 {
        lemma_members_view_push_prefix(ms, m, (n - 1) as nat);
        assert(ms.push(m)[n - 1] == ms[n - 1]);
    }
}

/// The views of all are the views of all but the last, and the view of
/// the last.
pub proof fn lemma_members_view_push(ms: Seq<ClassMember>, m: ClassMember)
    ensures
        members_view(ms.push(m), ms.len() + 1) == members_view(ms, ms.len()).push(
            member_view(m),
        ),
{
    lemma_members_view_push_prefix(ms, m, ms.len());
    assert(ms.push(m)[ms.len() as int] == m);
}

fn kind(tokens: &Vec<Token>, pos: usize) -> (k: Option<TokenKind>)
    ensures
        k == kind_at(token_views(tokens@), pos as int),
        k is Some <==> pos < tokens@.len(),
        tokens@.len() <= usize::MAX,
{
    if pos < tokens.len() {
        Some(tokens[pos].kind)
    } else {
        None
    }
}

fn is_kind(tokens: &Vec<Token>, pos: usize, wanted: TokenKind) -> (r: bool)
    ensures
        r == (kind_at(token_views(tokens@), pos as int) == Some(wanted)),
        r ==> pos < tokens@.len(),
        tokens@.len() <= usize::MAX,
{
    match kind(tokens, pos) {
        Some(k) => k == wanted,
        None => false,
    }
}

fn is_kind_after(tokens: &Vec<Token>, pos: usize, ahead: usize, wanted: TokenKind) -> (r: bool)
    requires
        pos <= tokens@.len(),
    ensures
        r == (kind_at(token_views(tokens@), pos + ahead) == Some(wanted)),
        r ==> pos + ahead < tokens@.len(),
        tokens@.len() <= usize::MAX,
{
    if tokens.len() - pos > ahead {
        tokens[pos + ahead].kind == wanted
    } else {
        false
    }
}

fn span_of(tokens: &Vec<Token>, first: usize, next: usize) -> (r: SourceRange)
    requires
        first < tokens@.len(),
        0 < next <= tokens@.len(),
    ensures
        r == span(token_views(tokens@), first as int, next as int),
{
    CopyRange { start: tokens[first].start, end: tokens[next - 1].end }
}

fn text_at(tokens: &Vec<Token>, pos: usize) -> (s: String)
    requires
        pos < tokens@.len(),
    ensures
        s@ == token_views(tokens@)[pos as int].text,
{
    tokens[pos].text.clone()
}

/// The error for the token at `pos`, or for the end of the tokens where
/// none stands there.
fn unexpected(tokens: &Vec<Token>, pos: usize) -> (e: SyntaxError)
    ensures
        unexpected_at(token_views(tokens@), pos as int, e),
{
    let n = tokens.len();
    if pos < n {
        SyntaxError {
            kind: SyntaxErrorKind::UnrecognizedToken {
                token: tokens[pos].text.clone(),
                expected: Vec::new(),
            },
            range: CopyRange { start: tokens[pos].start, end: tokens[pos].end },
        }
    } else {
        let at = if n > 0 {
            tokens[n - 1].end
        } else {
            0
        };
        SyntaxError {
            kind: SyntaxErrorKind::UnrecognizedEof { expected: Vec::new() },
            range: CopyRange { start: at, end: at },
        }
    }
}

fn skip_ends(tokens: &Vec<Token>, pos: usize) -> (next: usize)
    requires
        pos <= tokens@.len(),
    ensures
        next == past_ends(token_views(tokens@), pos as int),
        pos <= next <= tokens@.len() <= usize::MAX,
{
    let mut p = pos;
    while p < tokens.len() && (tokens[p].kind == TokenKind::Newline || tokens[p].kind
        == TokenKind::Semicolon)
        invariant
            pos <= p <= tokens@.len(),
            past_ends(token_views(tokens@), p as int) == past_ends(
                token_views(tokens@),
                pos as int,
            ),
        decreases tokens@.len() - p,
    {
        p += 1;
    }
    p
}

fn skip_lines(tokens: &Vec<Token>, pos: usize) -> (next: usize)
    requires
        pos <= tokens@.len(),
    ensures
        next == past_lines(token_views(tokens@), pos as int),
        pos <= next <= tokens@.len() <= usize::MAX,
{
    let mut p = pos;
    while p < tokens.len() && tokens[p].kind == TokenKind::Newline
        invariant
            pos <= p <= tokens@.len(),
            past_lines(token_views(tokens@), p as int) == past_lines(
                token_views(tokens@),
                pos as int,
            ),
        decreases tokens@.len() - p,
    {
        p += 1;
    }
    p
}

fn end_of_statement(tokens: &Vec<Token>, pos: usize) -> (r: Option<usize>)
    requires
        pos <= tokens@.len(),
    ensures
        match r {
            Some(q) => statement_end(token_views(tokens@), pos as int) == Some(q as int) && pos
                <= q <= tokens@.len() <= usize::MAX,
            None => statement_end(token_views(tokens@), pos as int) is None,
        },
{
    match kind(tokens, pos) {
        Some(TokenKind::Newline) => Some(pos + 1),
        Some(TokenKind::Semicolon) => Some(pos + 1),
        Some(TokenKind::RBrace) => Some(pos),
        Some(_) => None,
        None => Some(pos),
    }
}

fn binary_operator(tokens: &Vec<Token>, level: usize, pos: usize) -> (r: Option<BinaryOp>)
    ensures
        r == operator_at(token_views(tokens@), level as int, pos as int),
        r is Some ==> pos < tokens@.len(),
        tokens@.len() <= usize::MAX,
{
    let found = match kind(tokens, pos) {
        Some(TokenKind::Or) => Some((0usize, BinaryOp::Or)),
        Some(TokenKind::And) => Some((1usize, BinaryOp::And)),
        Some(TokenKind::EqualEqual) => Some((2usize, BinaryOp::Equal)),
        Some(TokenKind::BangEqual) => Some((2usize, BinaryOp::NotEqual)),
        Some(TokenKind::Less) => Some((3usize, BinaryOp::LessThan)),
        Some(TokenKind::LessEqual) => Some((3usize, BinaryOp::LessThanOrEqual)),
        Some(TokenKind::Greater) => Some((3usize, BinaryOp::GreaterThan)),
        Some(TokenKind::GreaterEqual) => Some((3usize, BinaryOp::GreaterThanOrEqual)),
        Some(TokenKind::Plus) => Some((4usize, BinaryOp::Add)),
        Some(TokenKind::Minus) => Some((4usize, BinaryOp::Subtract)),
        Some(TokenKind::Asterisk) => Some((5usize, BinaryOp::Multiply)),
        Some(TokenKind::Slash) => Some((5usize, BinaryOp::Divide)),
        Some(TokenKind::Percent) => Some((5usize, BinaryOp::Modulo)),
        _ => None,
    };
    match found {
        Some((l, op)) => if l == level {
            Some(op)
        } else {
            None
        },
        None => None,
    }
}

fn assignment_operator(tokens: &Vec<Token>, pos: usize) -> (r: Option<Option<BinaryOp>>)
    ensures
        r == match kind_at(token_views(tokens@), pos as int) {
            Some(k) => assignment_of(k),
            None => None,
        },
        r is Some ==> pos < tokens@.len(),
        tokens@.len() <= usize::MAX,
{
    match kind(tokens, pos) {
        Some(TokenKind::Equal) => Some(None),
        Some(TokenKind::PlusEqual) => Some(Some(BinaryOp::Add)),
        Some(TokenKind::MinusEqual) => Some(Some(BinaryOp::Subtract)),
        Some(TokenKind::AsteriskEqual) => Some(Some(BinaryOp::Multiply)),
        Some(TokenKind::SlashEqual) => Some(Some(BinaryOp::Divide)),
        Some(TokenKind::PercentEqual) => Some(Some(BinaryOp::Modulo)),
        _ => None,
    }
}

fn name_after_dot(tokens: &Vec<Token>, pos: usize) -> (r: Option<String>)
    requires
        pos <= tokens@.len(),
    ensures
        match r {
            Some(name) => property_name(token_views(tokens@), pos as int) == Some(name@) && pos
                < tokens@.len() <= usize::MAX,
            None => property_name(token_views(tokens@), pos as int) is None,
        },
{
    match kind(tokens, pos) {
        Some(TokenKind::Identifier) => Some(text_at(tokens, pos)),
        Some(TokenKind::Class) => Some("class".to_owned()),
        Some(TokenKind::Super) => Some("super".to_owned()),
        _ => None,
    }
}

/// A copy of an expression.
pub fn clone_expr(e: &Expr) -> (r: Expr)
    ensures
        expr_view(r) == expr_view(*e),
    decreases e,
{
    match e {
        Expr::Number { value, range } => Expr::Number { value: *value, range: *range },
        Expr::String { value, range } => Expr::String { value: value.clone(), range: *range },
        Expr::Boolean { value, range } => Expr::Boolean { value: *value, range: *range },
        Expr::Nil { range } => Expr::Nil { range: *range },
        Expr::Var { value, range } => Expr::Var { value: value.clone(), range: *range },
        Expr::Field { value, range } => Expr::Field { value: value.clone(), range: *range },
        Expr::SelfVar { range } => Expr::SelfVar { range: *range },
        Expr::SuperVar { range } => Expr::SuperVar { range: *range },
        Expr::Assignment(a) => Expr::Assignment(
            Box::new(
                AssignmentExpr {
                    name: Box::new(clone_expr(&*a.name)),
                    value: clone_expr(&a.value),
                    range: a.range,
                },
            ),
        ),
        Expr::Unary(u) => Expr::Unary(
            Box::new(UnaryExpr { op: u.op, expr: clone_expr(&u.expr), range: u.range }),
        ),
        Expr::Binary(b) => Expr::Binary(
            Box::new(
                BinaryExpr {
                    op: b.op,
                    left: clone_expr(&b.left),
                    right: clone_expr(&b.right),
                    range: b.range,
                },
            ),
        ),
        Expr::MethodCall(c) => {
            let mut args: Vec<Expr> = Vec::new();
            let mut i: usize = 0;
            while i < c.args.len()
                invariant
                    i <= c.args@.len(),
                    args@.len() == i,
                    e matches Expr::MethodCall(call) && call == c,
                    exprs_view(args@, i as nat) == exprs_view(c.args@, i as nat),
                decreases c.args@.len() - i,
            {
                let one = clone_expr(&c.args[i]);
                proof {
                    lemma_exprs_view_push(args@, one);
                }
                args.push(one);
                i += 1;
            }
            Expr::MethodCall(
                Box::new(
                    MethodCallExpr {
                        object: clone_expr(&c.object),
                        method: c.method.clone(),
                        args,
                        range: c.range,
                    },
                ),
            )
        },
        Expr::GetProperty(g) => Expr::GetProperty(
            Box::new(
                GetPropertyExpr {
                    object: clone_expr(&g.object),
                    property: g.property.clone(),
                    range: g.range,
                },
            ),
        ),
        Expr::SetProperty(s) => Expr::SetProperty(
            Box::new(
                SetPropertyExpr {
                    object: clone_expr(&s.object),
                    property: s.property.clone(),
                    value: clone_expr(&s.value),
                    range: s.range,
                },
            ),
        ),
    }
}

fn assign(target: Expr, value: Expr, whole: SourceRange) -> (r: Expr)
    ensures
        expr_view(r) == assigned(expr_view(target), expr_view(value), whole),
{
    match target {
        Expr::GetProperty(get) => {
            let g = *get;
            Expr::SetProperty(
                Box::new(
                    SetPropertyExpr { object: g.object, property: g.property, value, range: whole },
                ),
            )
        },
        other => Expr::Assignment(
            Box::new(AssignmentExpr { name: Box::new(other), value, range: whole }),
        ),
    }
}

fn parse_primary(tokens: &Vec<Token>, values: &Vec<u64>, pos: usize) -> (r: Result<
    (Expr, usize),
    SyntaxError,
>)
    requires
        pos <= tokens@.len(),
    ensures
        match r {
            Ok((e, next)) => primary(token_views(tokens@), values@, pos as int) == Some(
                (expr_view(e), next as int),
            ) && pos < next <= tokens@.len() <= usize::MAX,
            Err(error) => primary(token_views(tokens@), values@, pos as int) is None && stops_in(
                token_views(tokens@),
                pos as int,
                error,
            ),
        },
    decreases tokens@.len() - pos, 0nat,
{
    if pos >= tokens.len() {
        return Err(unexpected(tokens, pos));
    }
    let here = CopyRange { start: tokens[pos].start, end: tokens[pos].end };
    match tokens[pos].kind {
        TokenKind::Number => {
            let ordinal = tokens[pos].ordinal;
            if ordinal < values.len() {
                Ok((Expr::Number { value: values[ordinal], range: here }, pos + 1))
            } else {
                Err(unexpected(tokens, pos))
            }
        },
        TokenKind::String => Ok((Expr::String { value: text_at(tokens, pos), range: here }, pos + 1)),
        TokenKind::True => Ok((Expr::Boolean { value: true, range: here }, pos + 1)),
        TokenKind::False => Ok((Expr::Boolean { value: false, range: here }, pos + 1)),
        TokenKind::Nil => Ok((Expr::Nil { range: here }, pos + 1)),
        TokenKind::SelfKw => Ok((Expr::SelfVar { range: here }, pos + 1)),
        TokenKind::Super => Ok((Expr::SuperVar { range: here }, pos + 1)),
        TokenKind::Identifier => Ok((Expr::Var { value: text_at(tokens, pos), range: here }, pos + 1)),
        TokenKind::At => {
            if is_kind_after(tokens, pos, 1, TokenKind::Identifier) {
                Ok(
                    (
                        Expr::Field {
                            value: text_at(tokens, pos + 1),
                            range: span_of(tokens, pos, pos + 2),
                        },
                        pos + 2,
                    ),
                )
            } else {
                Err(unexpected(tokens, pos + 1))
            }
        },
        TokenKind::LParen => {
            let (e, p) = parse_expression(tokens, values, pos + 1)?;
            if is_kind(tokens, p, TokenKind::RParen) {
                Ok((e, p + 1))
            } else {
                Err(unexpected(tokens, p))
            }
        },
        _ => Err(unexpected(tokens, pos)),
    }
}

fn parse_arguments(tokens: &Vec<Token>, values: &Vec<u64>, pos: usize) -> (r: Result<
    (Vec<Expr>, usize),
    SyntaxError,
>)
    requires
        pos <= tokens@.len(),
    ensures
        match r {
            Ok((list, next)) => arguments(
                token_views(tokens@),
                values@,
                pos as int,
                Seq::empty(),
            ) == Some((exprs_view(list@, list@.len()), next as int)) && pos < next
                <= tokens@.len() <= usize::MAX,
            Err(error) => arguments(token_views(tokens@), values@, pos as int, Seq::empty()) is None && stops_in(
                token_views(tokens@),
                pos as int,
                error,
            ),
        },
    decreases tokens@.len() - pos, 30nat,
{
    let ghost toks = token_views(tokens@);
    let ghost target = arguments(toks, values@, pos as int, Seq::empty());
    let mut list: Vec<Expr> = Vec::new();
    let mut p = pos;
    loop
        invariant
            toks == token_views(tokens@),
            pos <= p <= tokens@.len(),
            target == arguments(toks, values@, p as int, exprs_view(list@, list@.len())),
            target == arguments(toks, values@, pos as int, Seq::empty()),
        decreases tokens@.len() - p,
    {
        let (e, q) = match parse_expression(tokens, values, p) {
            Ok(found) => found,
            Err(error) => {
                return Err(error);
            },
        };
        proof {
            lemma_exprs_view_push(list@, e);
        }
        list.push(e);
        if is_kind(tokens, q, TokenKind::RParen) {
            return Ok((list, q + 1));
        } else if is_kind(tokens, q, TokenKind::Comma) {
            p = q + 1;
        } else {
            return Err(unexpected(tokens, q));
        }
    }
}

fn parse_postfix(tokens: &Vec<Token>, values: &Vec<u64>, pos: usize) -> (r: Result<
    (Expr, usize),
    SyntaxError,
>)
    requires
        pos <= tokens@.len(),
    ensures
        match r {
            Ok((e, next)) => postfix(token_views(tokens@), values@, pos as int) == Some(
                (expr_view(e), next as int),
            ) && pos < next <= tokens@.len() <= usize::MAX,
            Err(error) => postfix(token_views(tokens@), values@, pos as int) is None && stops_in(
                token_views(tokens@),
                pos as int,
                error,
            ),
        },
    decreases tokens@.len() - pos, 2nat,
{
    let ghost toks = token_views(tokens@);
    let (first_object, first_p) = parse_primary(tokens, values, pos)?;
    let ghost target = postfix_rest(toks, values@, expr_view(first_object), pos as int, first_p as int);
    let mut object = first_object;
    let mut p = first_p;
    loop
        invariant
            toks == token_views(tokens@),
            pos < p <= tokens@.len(),
            target == postfix_rest(toks, values@, expr_view(object), pos as int, p as int),
            target == postfix(toks, values@, pos as int),
        decreases tokens@.len() - p,
    {
        if !is_kind(tokens, p, TokenKind::Dot) {
            return Ok((object, p));
        }
        let name = match name_after_dot(tokens, p + 1) {
            Some(name) => name,
            None => {
                return Err(unexpected(tokens, p + 1));
            },
        };
        if is_kind_after(tokens, p, 2, TokenKind::LParen) {
            if is_kind_after(tokens, p, 3, TokenKind::RParen) {
                let range = span_of(tokens, pos, p + 4);
                let none: Vec<Expr> = Vec::new();
                let ghost before = expr_view(object);
                let ghost name_view = name@;
                proof {
                    assert(exprs_view(none@, none@.len()) == Seq::<ExprView>::empty());
                    assert(target == postfix_rest(
                        toks,
                        values@,
                        ExprView::MethodCall(Box::new(before), name_view, Seq::empty(), range),
                        pos as int,
                        p + 4,
                    ));
                }
                object =
                Expr::MethodCall(Box::new(MethodCallExpr { object, method: name, args: none, range }));
                p = p + 4;
                proof {
                    assert(expr_view(object) == ExprView::MethodCall(
                        Box::new(before),
                        name_view,
                        Seq::empty(),
                        range,
                    ));
                }
            } else {
                let (args, q) = parse_arguments(tokens, values, p + 3)?;
                let range = span_of(tokens, pos, q);
                let ghost before = expr_view(object);
                let ghost list = exprs_view(args@, args@.len());
                let ghost name_view = name@;
                proof {
                    assert(arguments(toks, values@, p + 3, Seq::empty()) == Some((list, q as int)));
                    assert(property_name(toks, p + 1) == Some(name_view));
                    assert(kind_at(toks, p + 2) == Some(TokenKind::LParen));
                    assert(kind_at(toks, p + 3) != Some(TokenKind::RParen));
                    assert(target == postfix_rest(toks, values@, before, pos as int, p as int));
                    assert(target == postfix_rest(
                        toks,
                        values@,
                        ExprView::MethodCall(Box::new(before), name_view, list, range),
                        pos as int,
                        q as int,
                    ));
                }
                object = Expr::MethodCall(Box::new(MethodCallExpr { object, method: name, args, range }));
                p = q;
                proof {
                    assert(expr_view(object) == ExprView::MethodCall(Box::new(before), name_view, list, range));
                }
            }
        } else {
            let range = span_of(tokens, pos, p + 2);
            object = Expr::GetProperty(Box::new(GetPropertyExpr { object, property: name, range }));
            p = p + 2;
            proof {
                assert(target == postfix_rest(toks, values@, expr_view(object), pos as int, p as int));
            }
        }
    }
}

fn parse_unary(tokens: &Vec<Token>, values: &Vec<u64>, pos: usize) -> (r: Result<
    (Expr, usize),
    SyntaxError,
>)
    requires
        pos <= tokens@.len(),
    ensures
        match r {
            Ok((e, next)) => unary(token_views(tokens@), values@, pos as int) == Some(
                (expr_view(e), next as int),
            ) && pos < next <= tokens@.len() <= usize::MAX,
            Err(error) => unary(token_views(tokens@), values@, pos as int) is None && stops_in(
                token_views(tokens@),
                pos as int,
                error,
            ),
        },
    decreases tokens@.len() - pos, 3nat,
{
    let op = match kind(tokens, pos) {
        Some(TokenKind::Minus) => Some(UnaryOp::Negate),
        Some(TokenKind::Not) => Some(UnaryOp::Not),
        Some(TokenKind::Bang) => Some(UnaryOp::Not),
        Some(_) => None,
        None => {
            return Err(unexpected(tokens, pos));
        },
    };
    match op {
        Some(op) => {
            let (e, p) = parse_unary(tokens, values, pos + 1)?;
            let range = span_of(tokens, pos, p);
            Ok((Expr::Unary(Box::new(UnaryExpr { op, expr: e, range })), p))
        },
        None => parse_postfix(tokens, values, pos),
    }
}

fn parse_binary(tokens: &Vec<Token>, values: &Vec<u64>, level: usize, pos: usize) -> (r: Result<
    (Expr, usize),
    SyntaxError,
>)
    requires
        level <= 6,
        pos <= tokens@.len(),
    ensures
        match r {
            Ok((e, next)) => binary(token_views(tokens@), values@, level as int, pos as int)
                == Some((expr_view(e), next as int)) && pos < next <= tokens@.len() <= usize::MAX,
            Err(error) => binary(token_views(tokens@), values@, level as int, pos as int) is None && stops_in(
                token_views(tokens@),
                pos as int,
                error,
            ),
        },
    decreases tokens@.len() - pos, (10 - level) as nat,
{
    if level == 6 {
        return parse_unary(tokens, values, pos);
    }
    let ghost toks = token_views(tokens@);
    let (first_left, first_p) = parse_binary(tokens, values, level + 1, pos)?;
    let ghost target = binary_rest(
        toks,
        values@,
        level as int,
        expr_view(first_left),
        pos as int,
        first_p as int,
    );
    let mut left = first_left;
    let mut p = first_p;
    loop
        invariant
            toks == token_views(tokens@),
            level <= 5,
            pos < p <= tokens@.len(),
            target == binary_rest(toks, values@, level as int, expr_view(left), pos as int, p as int),
            target == binary(toks, values@, level as int, pos as int),
        decreases tokens@.len() - p,
    {
        let op = match binary_operator(tokens, level, p) {
            Some(op) => op,
            None => {
                return Ok((left, p));
            },
        };
        let (right, q) = parse_binary(tokens, values, level + 1, p + 1)?;
        let range = span_of(tokens, pos, q);
        left = Expr::Binary(Box::new(BinaryExpr { op, left, right, range }));
        p = q;
    }
}

/// Reads an expression from `pos` on.
pub fn parse_expression(tokens: &Vec<Token>, values: &Vec<u64>, pos: usize) -> (r: Result<
    (Expr, usize),
    SyntaxError,
>)
    requires
        pos <= tokens@.len(),
    ensures
        match r {
            Ok((e, next)) => expression(token_views(tokens@), values@, pos as int) == Some(
                (expr_view(e), next as int),
            ) && pos < next <= tokens@.len() <= usize::MAX,
            Err(error) => expression(token_views(tokens@), values@, pos as int) is None && stops_in(
                token_views(tokens@),
                pos as int,
                error,
            ),
        },
    decreases tokens@.len() - pos, 20nat,
{
    let (target, p) = parse_binary(tokens, values, 0, pos)?;
    let compound = match assignment_operator(tokens, p) {
        Some(compound) => compound,
        None => {
            return Ok((target, p));
        },
    };
    let (right, q) = parse_expression(tokens, values, p + 1)?;
    let whole = span_of(tokens, pos, q);
    let value = match compound {
        Some(op) => Expr::Binary(
            Box::new(BinaryExpr { op, left: clone_expr(&target), right, range: whole }),
        ),
        None => right,
    };
    Ok((assign(target, value, whole), q))
}

fn parse_value(tokens: &Vec<Token>, values: &Vec<u64>, pos: usize) -> (r: Result<
    (Expr, usize, usize),
    SyntaxError,
>)
    requires
        pos <= tokens@.len(),
    ensures
        match r {
            Ok((e, p, q)) => value_and_end(token_views(tokens@), values@, pos as int) == Some(
                (expr_view(e), p as int, q as int),
            ) && pos < p <= q <= tokens@.len() <= usize::MAX,
            Err(error) => value_and_end(token_views(tokens@), values@, pos as int) is None && stops_in(
                token_views(tokens@),
                pos as int,
                error,
            ),
        },
    decreases tokens@.len() - pos, 21nat,
{
    let (e, p) = parse_expression(tokens, values, pos)?;
    match end_of_statement(tokens, p) {
        Some(q) => Ok((e, p, q)),
        None => Err(unexpected(tokens, p)),
    }
}

fn parse_parameters(tokens: &Vec<Token>, pos: usize) -> (r: Result<(Vec<String>, usize), SyntaxError>)
    requires
        pos <= tokens@.len(),
    ensures
        match r {
            Ok((list, next)) => parameters(token_views(tokens@), pos as int, Seq::empty()) == Some(
                (names_view(list@), next as int),
            ) && pos < next <= tokens@.len() <= usize::MAX,
            Err(error) => parameters(token_views(tokens@), pos as int, Seq::empty()) is None && stops_in(
                token_views(tokens@),
                pos as int,
                error,
            ),
        },
{
    let ghost toks = token_views(tokens@);
    let ghost target = parameters(toks, pos as int, Seq::empty());
    let mut list: Vec<String> = Vec::new();
    let mut p = pos;
    proof {
        assert(names_view(list@) =~= Seq::<Seq<char>>::empty());
    }
    loop
        invariant
            toks == token_views(tokens@),
            pos <= p <= tokens@.len(),
            target == parameters(toks, p as int, names_view(list@)),
            target == parameters(toks, pos as int, Seq::empty()),
        decreases tokens@.len() - p,
    {
        if !is_kind(tokens, p, TokenKind::Identifier) {
            return Err(unexpected(tokens, p));
        }
        let name = text_at(tokens, p);
        proof {
            assert(names_view(list@.push(name)) =~= names_view(list@).push(name@));
        }
        list.push(name);
        if is_kind_after(tokens, p, 1, TokenKind::RParen) {
            return Ok((list, p + 2));
        } else if is_kind_after(tokens, p, 1, TokenKind::Comma) {
            p = p + 2;
        } else {
            return Err(unexpected(tokens, p + 1));
        }
    }
}

fn parse_statements(tokens: &Vec<Token>, values: &Vec<u64>, pos: usize) -> (r: Result<
    (Vec<Statement>, usize),
    SyntaxError,
>)
    requires
        pos <= tokens@.len(),
    ensures
        match r {
            Ok((list, next)) => statements(
                token_views(tokens@),
                values@,
                pos as int,
                Seq::empty(),
            ) == Some((statements_view(list@, list@.len()), next as int)) && pos < next
                <= tokens@.len() <= usize::MAX,
            Err(error) => statements(token_views(tokens@), values@, pos as int, Seq::empty()) is None && stops_in(
                token_views(tokens@),
                pos as int,
                error,
            ),
        },
    decreases tokens@.len() - pos, 49nat,
{
    let ghost toks = token_views(tokens@);
    let ghost target = statements(toks, values@, pos as int, Seq::empty());
    let mut list: Vec<Statement> = Vec::new();
    let mut p = pos;
    loop
        invariant
            toks == token_views(tokens@),
            pos <= p <= tokens@.len(),
            target == statements(toks, values@, p as int, statements_view(list@, list@.len())),
            target == statements(toks, values@, pos as int, Seq::empty()),
        decreases tokens@.len() - p,
    {
        match kind(tokens, p) {
            None => {
                return Err(unexpected(tokens, p));
            },
            Some(TokenKind::RBrace) => {
                return Ok((list, p + 1));
            },
            Some(_) => {
                let (s, q) = parse_statement(tokens, values, p)?;
                proof {
                    lemma_statements_view_push(list@, s);
                }
                list.push(s);
                p = skip_ends(tokens, q);
            },
        }
    }
}

fn parse_block(tokens: &Vec<Token>, values: &Vec<u64>, pos: usize) -> (r: Result<
    (Vec<Statement>, usize),
    SyntaxError,
>)
    requires
        pos <= tokens@.len(),
    ensures
        match r {
            Ok((list, next)) => block(token_views(tokens@), values@, pos as int) == Some(
                (statements_view(list@, list@.len()), next as int),
            ) && pos < next <= tokens@.len() <= usize::MAX,
            Err(error) => block(token_views(tokens@), values@, pos as int) is None && stops_in(
                token_views(tokens@),
                pos as int,
                error,
            ),
        },
    decreases tokens@.len() - pos, 48nat,
{
    let open = skip_lines(tokens, pos);
    if !is_kind(tokens, open, TokenKind::LBrace) {
        return Err(unexpected(tokens, open));
    }
    let inside = skip_ends(tokens, open + 1);
    parse_statements(tokens, values, inside)
}

fn parse_member_named(
    tokens: &Vec<Token>,
    values: &Vec<u64>,
    first: usize,
    name: usize,
    is_static: bool,
) -> (r: Result<(ClassMember, usize), SyntaxError>)
    requires
        first <= name <= tokens@.len(),
        first < tokens@.len(),
    ensures
        match r {
            Ok((m, next)) => member_named(
                token_views(tokens@),
                values@,
                first as int,
                name as int,
                is_static,
            ) == Some((member_view(m), next as int)) && name < next <= tokens@.len() <= usize::MAX,
            Err(error) => member_named(
                token_views(tokens@),
                values@,
                first as int,
                name as int,
                is_static,
            ) is None && stops_in(token_views(tokens@), name as int, error),
        },
    decreases tokens@.len() - name, 44nat,
{
    if !is_kind(tokens, name, TokenKind::Identifier) {
        return Err(unexpected(tokens, name));
    }
    let text = text_at(tokens, name);
    if is_kind_after(tokens, name, 1, TokenKind::Equal) {
        if is_kind_after(tokens, name, 2, TokenKind::LParen) && is_kind_after(
            tokens,
            name,
            3,
            TokenKind::Identifier,
        ) && is_kind_after(tokens, name, 4, TokenKind::RParen) {
            let param = text_at(tokens, name + 3);
            let (body, q) = parse_block(tokens, values, name + 5)?;
            let range = span_of(tokens, first, q);
            Ok((ClassMember::Setter(SetterDef { name: text, param, body, is_static, range }), q))
        } else {
            Err(unexpected(tokens, name + 2))
        }
    } else if is_kind_after(tokens, name, 1, TokenKind::LParen) {
        let (params, p) = if is_kind_after(tokens, name, 2, TokenKind::RParen) {
            let none: Vec<String> = Vec::new();
            proof {
                assert(names_view(none@) =~= Seq::<Seq<char>>::empty());
            }
            (none, name + 3)
        } else {
            parse_parameters(tokens, name + 2)?
        };
        let (body, q) = parse_block(tokens, values, p)?;
        let range = span_of(tokens, first, q);
        Ok((ClassMember::Method(MethodDef { name: text, params, body, is_static, range }), q))
    } else {
        let (body, q) = parse_block(tokens, values, name + 1)?;
        let range = span_of(tokens, first, q);
        Ok((ClassMember::Getter(GetterDef { name: text, body, is_static, range }), q))
    }
}

fn parse_member(tokens: &Vec<Token>, values: &Vec<u64>, pos: usize) -> (r: Result<
    (ClassMember, usize),
    SyntaxError,
>)
    requires
        pos < tokens@.len(),
    ensures
        match r {
            Ok((m, next)) => member(token_views(tokens@), values@, pos as int) == Some(
                (member_view(m), next as int),
            ) && pos < next <= tokens@.len() <= usize::MAX,
            Err(error) => member(token_views(tokens@), values@, pos as int) is None && stops_in(
                token_views(tokens@),
                pos as int,
                error,
            ),
        },
    decreases tokens@.len() - pos, 45nat,
{
    if is_kind(tokens, pos, TokenKind::Static) {
        parse_member_named(tokens, values, pos, pos + 1, true)
    } else {
        parse_member_named(tokens, values, pos, pos, false)
    }
}

fn parse_members(tokens: &Vec<Token>, values: &Vec<u64>, pos: usize) -> (r: Result<
    (Vec<ClassMember>, usize),
    SyntaxError,
>)
    requires
        pos <= tokens@.len(),
    ensures
        match r {
            Ok((list, next)) => members(token_views(tokens@), values@, pos as int, Seq::empty())
                == Some((members_view(list@, list@.len()), next as int)) && pos < next
                <= tokens@.len() <= usize::MAX,
            Err(error) => members(token_views(tokens@), values@, pos as int, Seq::empty()) is None && stops_in(
                token_views(tokens@),
                pos as int,
                error,
            ),
        },
    decreases tokens@.len() - pos, 50nat,
{
    let ghost toks = token_views(tokens@);
    let ghost target = members(toks, values@, pos as int, Seq::empty());
    let mut list: Vec<ClassMember> = Vec::new();
    let mut p = pos;
    loop
        invariant
            toks == token_views(tokens@),
            pos <= p <= tokens@.len(),
            target == members(toks, values@, p as int, members_view(list@, list@.len())),
            target == members(toks, values@, pos as int, Seq::empty()),
        decreases tokens@.len() - p,
    {
        match kind(tokens, p) {
            None => {
                return Err(unexpected(tokens, p));
            },
            Some(TokenKind::RBrace) => {
                return Ok((list, p + 1));
            },
            Some(_) => {
                let (m, q) = parse_member(tokens, values, p)?;
                proof {
                    lemma_members_view_push(list@, m);
                }
                list.push(m);
                p = skip_ends(tokens, q);
            },
        }
    }
}

/// Reads a statement from `pos` on.
pub fn parse_statement(tokens: &Vec<Token>, values: &Vec<u64>, pos: usize) -> (r: Result<
    (Statement, usize),
    SyntaxError,
>)
    requires
        pos <= tokens@.len(),
    ensures
        match r {
            Ok((s, next)) => statement(token_views(tokens@), values@, pos as int) == Some(
                (statement_view(s), next as int),
            ) && pos < next <= tokens@.len() <= usize::MAX,
            Err(error) => statement(token_views(tokens@), values@, pos as int) is None && stops_in(
                token_views(tokens@),
                pos as int,
                error,
            ),
        },
    decreases tokens@.len() - pos, 40nat,
{
    match kind(tokens, pos) {
        None => Err(unexpected(tokens, pos)),
        Some(TokenKind::Class) => {
            if !is_kind_after(tokens, pos, 1, TokenKind::Identifier) {
                return Err(unexpected(tokens, pos + 1));
            }
            let name = text_at(tokens, pos + 1);
            let open = skip_lines(tokens, pos + 2);
            if !is_kind(tokens, open, TokenKind::LBrace) {
                return Err(unexpected(tokens, open));
            }
            let inside = skip_ends(tokens, open + 1);
            let (members, q) = parse_members(tokens, values, inside)?;
            let range = span_of(tokens, pos, q);
            Ok((Statement::Class(ClassDef { name, members, range }), q))
        },
        Some(TokenKind::Let) => {
            if !is_kind_after(tokens, pos, 1, TokenKind::Identifier) {
                return Err(unexpected(tokens, pos + 1));
            }
            let name = text_at(tokens, pos + 1);
            if is_kind_after(tokens, pos, 2, TokenKind::Equal) {
                let (e, p, q) = parse_value(tokens, values, pos + 3)?;
                let range = span_of(tokens, pos, p);
                Ok((Statement::Let(LetBinding { name, value: Some(e), range }), q))
            } else {
                match end_of_statement(tokens, pos + 2) {
                    Some(q) => {
                        let range = span_of(tokens, pos, pos + 2);
                        Ok((Statement::Let(LetBinding { name, value: None, range }), q))
                    },
                    None => Err(unexpected(tokens, pos + 2)),
                }
            }
        },
        Some(TokenKind::Return) => {
            match end_of_statement(tokens, pos + 1) {
                Some(q) => {
                    let range = span_of(tokens, pos, pos + 1);
                    Ok((Statement::Return(ReturnStatement { value: None, range }), q))
                },
                None => {
                    let (e, p, q) = parse_value(tokens, values, pos + 1)?;
                    let range = span_of(tokens, pos, p);
                    Ok((Statement::Return(ReturnStatement { value: Some(e), range }), q))
                },
            }
        },
        Some(_) => {
            let (e, p, q) = parse_value(tokens, values, pos)?;
            let range = span_of(tokens, pos, p);
            Ok((Statement::Expr { expr: e, range }, q))
        },
    }
}

/// Reads the tokens of a source text as a program. `values` holds the
/// value of each number, in the order of the numbers in the source.
///
/// Succeeds if and only if the tokens read as a program, and then gives
/// the program that they read as.
pub fn parse(tokens: &Vec<Token>, values: &Vec<u64>) -> (r: Result<Program, SyntaxError>)
    ensures
        match r {
            Ok(program) => reading(token_views(tokens@), values@) == Some(program_view(program)),
            Err(error) => reading(token_views(tokens@), values@) is None && stops_in(
                token_views(tokens@),
                0,
                error,
            ),
        },
{
    let ghost toks = token_views(tokens@);
    let ghost target = reading(toks, values@);
    let mut list: Vec<Statement> = Vec::new();
    let mut p = skip_ends(tokens, 0);
    while p < tokens.len()
        invariant
            toks == token_views(tokens@),
            p <= tokens@.len(),
            target == program_from(toks, values@, p as int, statements_view(list@, list@.len())),
            target == reading(toks, values@),
        decreases tokens@.len() - p,
    {
        let (s, q) = parse_statement(tokens, values, p)?;
        proof {
            lemma_statements_view_push(list@, s);
        }
        list.push(s);
        p = skip_ends(tokens, q);
    }
    Ok(Program { statements: list })
}

/// The digits of the numbers among the tokens, in their order.
pub open spec fn numerals_of(tokens: Seq<Token>, n: nat) -> Seq<Seq<char>>
    decreases n,
{
    if n == 0 || n > tokens.len() {
        Seq::empty()
    } else if tokens[n - 1].kind == TokenKind::Number {
        numerals_of(tokens, (n - 1) as nat).push(tokens[n - 1].text@)
    } else {
        numerals_of(tokens, (n - 1) as nat)
    }
}

/// The digits of the numbers among the tokens, in their order: what the
/// host turns into the values that `parse` takes.
pub fn numerals(tokens: &Vec<Token>) -> (list: Vec<String>)
    ensures
        names_view(list@) == numerals_of(tokens@, tokens@.len()),
{
    let mut list: Vec<String> = Vec::new();
    let mut i: usize = 0;
    while i < tokens.len()
        invariant
            i <= tokens@.len(),
            names_view(list@) == numerals_of(tokens@, i as nat),
        decreases tokens@.len() - i,
    {
        if tokens[i].kind == TokenKind::Number {
            let text = tokens[i].text.clone();
            proof {
                assert(names_view(list@.push(text)) =~= names_view(list@).push(text@));
            }
            list.push(text);
        }
        i += 1;
    }
    proof {
        assert(names_view(Seq::<String>::empty()) =~= Seq::<Seq<char>>::empty());
    }
    list
}

} // verus!
