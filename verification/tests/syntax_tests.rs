use phalcom::ast::{BinaryOp, ClassMember, Expr, Program, Statement, UnaryOp};
use phalcom::lexer::{lex, scan_at, Scanned};
use phalcom::parser::{clone_expr, numerals, parse};
use phalcom::range::CopyRange;
use phalcom::syntax::SyntaxErrorKind;
use phalcom::token::{Token, TokenKind};

fn kinds(source: &str) -> Vec<TokenKind> {
    lex(source).unwrap().iter().map(|t| t.kind).collect()
}

fn read(source: &str) -> Program {
    let tokens = lex(source).unwrap();
    let values: Vec<u64> =
        numerals(&tokens).iter().map(|t| t.parse::<f64>().unwrap().to_bits()).collect();
    parse(&tokens, &values).unwrap()
}

fn fails(source: &str) -> bool {
    let tokens = lex(source).unwrap();
    let values: Vec<u64> =
        numerals(&tokens).iter().map(|t| t.parse::<f64>().unwrap().to_bits()).collect();
    parse(&tokens, &values).is_err()
}

// How an expression nests, with every operation in parentheses.
fn shape(e: &Expr) -> String {
    match e {
        Expr::Number { value, .. } => format!("{}", f64::from_bits(*value)),
        Expr::String { value, .. } => format!("{:?}", value),
        Expr::Boolean { value, .. } => format!("{}", value),
        Expr::Nil { .. } => "nil".to_string(),
        Expr::Var { value, .. } => value.clone(),
        Expr::Field { value, .. } => format!("@{}", value),
        Expr::SelfVar { .. } => "self".to_string(),
        Expr::SuperVar { .. } => "super".to_string(),
        Expr::Assignment(a) => format!("({} = {})", shape(&a.name), shape(&a.value)),
        Expr::Unary(u) => match u.op {
            UnaryOp::Negate => format!("(-{})", shape(&u.expr)),
            UnaryOp::Not => format!("(not {})", shape(&u.expr)),
        },
        Expr::Binary(b) => format!("({} {:?} {})", shape(&b.left), b.op, shape(&b.right)),
        Expr::MethodCall(c) => {
            let args: Vec<String> = c.args.iter().map(shape).collect();
            format!("{}.{}({})", shape(&c.object), c.method, args.join(", "))
        }
        Expr::GetProperty(g) => format!("{}.{}", shape(&g.object), g.property),
        Expr::SetProperty(s) => format!("({}.{} = {})", shape(&s.object), s.property, shape(&s.value)),
    }
}

fn shape_of(source: &str) -> String {
    let program = read(source);
    assert_eq!(program.statements.len(), 1);
    match &program.statements[0] {
        Statement::Expr { expr, .. } => shape(expr),
        Statement::Return(r) => format!("return {}", shape(r.value.as_ref().unwrap())),
        other => panic!("Expected an expression, got {:?}", other),
    }
}

#[test]
fn words_are_keywords_or_identifiers() {
    assert_eq!(
        kinds("let lettuce class classy self selfish static _x x1"),
        vec![
            TokenKind::Let,
            TokenKind::Identifier,
            TokenKind::Class,
            TokenKind::Identifier,
            TokenKind::SelfKw,
            TokenKind::Identifier,
            TokenKind::Static,
            TokenKind::Identifier,
            TokenKind::Identifier,
            TokenKind::Newline,
        ]
    );
    assert_eq!(
        kinds("fn return true false nil if else while for break continue import super in as is and or not"),
        vec![
            TokenKind::Fn,
            TokenKind::Return,
            TokenKind::True,
            TokenKind::False,
            TokenKind::Nil,
            TokenKind::If,
            TokenKind::Else,
            TokenKind::While,
            TokenKind::For,
            TokenKind::Break,
            TokenKind::Continue,
            TokenKind::Import,
            TokenKind::Super,
            TokenKind::In,
            TokenKind::As,
            TokenKind::Is,
            TokenKind::And,
            TokenKind::Or,
            TokenKind::Not,
            TokenKind::Newline,
        ]
    );
}

#[test]
fn the_longest_sign_is_taken() {
    assert_eq!(
        kinds("... .. . += + -= - -> *= * /= / %= % == => = != ! <= < >= > :: : ; , ? @ ( ) { } [ ]"),
        vec![
            TokenKind::DotDotDot,
            TokenKind::DotDot,
            TokenKind::Dot,
            TokenKind::PlusEqual,
            TokenKind::Plus,
            TokenKind::MinusEqual,
            TokenKind::Minus,
            TokenKind::Arrow,
            TokenKind::AsteriskEqual,
            TokenKind::Asterisk,
            TokenKind::SlashEqual,
            TokenKind::Slash,
            TokenKind::PercentEqual,
            TokenKind::Percent,
            TokenKind::EqualEqual,
            TokenKind::FatArrow,
            TokenKind::Equal,
            TokenKind::BangEqual,
            TokenKind::Bang,
            TokenKind::LessEqual,
            TokenKind::Less,
            TokenKind::GreaterEqual,
            TokenKind::Greater,
            TokenKind::ColonColon,
            TokenKind::Colon,
            TokenKind::Semicolon,
            TokenKind::Comma,
            TokenKind::Question,
            TokenKind::At,
            TokenKind::LParen,
            TokenKind::RParen,
            TokenKind::LBrace,
            TokenKind::RBrace,
            TokenKind::LBracket,
            TokenKind::RBracket,
            TokenKind::Newline,
        ]
    );
    assert_eq!(kinds("a....b"), vec![
        TokenKind::Identifier,
        TokenKind::DotDotDot,
        TokenKind::Dot,
        TokenKind::Identifier,
        TokenKind::Newline,
    ]);
}

#[test]
fn tokens_carry_their_text_and_their_place() {
    let tokens = lex("let  answer = 42.5 + \"two words\"\n").unwrap();
    let seen: Vec<(TokenKind, &str, usize, usize)> =
        tokens.iter().map(|t| (t.kind, t.text.as_str(), t.start, t.end)).collect();
    assert_eq!(
        seen,
        vec![
            (TokenKind::Let, "", 0, 3),
            (TokenKind::Identifier, "answer", 5, 11),
            (TokenKind::Equal, "", 12, 13),
            (TokenKind::Number, "42.5", 14, 18),
            (TokenKind::Plus, "", 19, 20),
            (TokenKind::String, "two words", 21, 32),
            (TokenKind::Newline, "", 32, 33),
        ]
    );
    assert_eq!(numerals(&tokens), vec!["42.5".to_string()]);
}

#[test]
fn numbers_are_counted_in_their_order() {
    let tokens = lex("1 + 22 * x - 3.25.name 4.").unwrap();
    let numbers: Vec<(&str, usize)> = tokens
        .iter()
        .filter(|t| t.kind == TokenKind::Number)
        .map(|t| (t.text.as_str(), t.ordinal))
        .collect();
    assert_eq!(numbers, vec![("1", 0), ("22", 1), ("3.25", 2), ("4", 3)]);
    assert_eq!(
        numerals(&tokens),
        vec!["1".to_string(), "22".to_string(), "3.25".to_string(), "4".to_string()]
    );
    assert_eq!(kinds("3.25.name"), vec![
        TokenKind::Number,
        TokenKind::Dot,
        TokenKind::Identifier,
        TokenKind::Newline,
    ]);
    assert_eq!(kinds("1.class"), vec![
        TokenKind::Number,
        TokenKind::Dot,
        TokenKind::Class,
        TokenKind::Newline,
    ]);
}

#[test]
fn blanks_and_comments_are_dropped_and_line_ends_are_kept() {
    assert_eq!(kinds(""), Vec::<TokenKind>::new());
    assert_eq!(kinds("   \t \u{c}"), Vec::<TokenKind>::new());
    assert_eq!(kinds("// nothing here"), Vec::<TokenKind>::new());
    assert_eq!(kinds("a // b\nc"), vec![
        TokenKind::Identifier,
        TokenKind::Newline,
        TokenKind::Identifier,
        TokenKind::Newline,
    ]);
    assert_eq!(kinds("a\r\nb\n"), vec![
        TokenKind::Identifier,
        TokenKind::Newline,
        TokenKind::Identifier,
        TokenKind::Newline,
    ]);
    let tokens = lex("a").unwrap();
    assert_eq!((tokens[1].kind, tokens[1].start, tokens[1].end), (TokenKind::Newline, 1, 1));
    assert_eq!(kinds("a / b /= c"), vec![
        TokenKind::Identifier,
        TokenKind::Slash,
        TokenKind::Identifier,
        TokenKind::SlashEqual,
        TokenKind::Identifier,
        TokenKind::Newline,
    ]);
}

#[test]
fn what_the_language_does_not_know_is_an_error() {
    for source in ["#", "a $ b", "\"never closed", "caf\u{e9}", "\r", "`"] {
        let error = lex(source).unwrap_err();
        assert_eq!(error.kind.message(), "Invalid token", "{:?}", source);
    }
    let error = lex("ok # rest").unwrap_err();
    assert_eq!(error.range, CopyRange { start: 3, end: 4 });
    let tokens = lex("\"caf\u{e9} \u{1f600}\"").unwrap();
    assert_eq!(tokens[0].text, "caf\u{e9} \u{1f600}");
    assert_eq!(scan_at(b"abc", 3), Scanned::End);
    assert_eq!(scan_at(b"  x", 0), Scanned::Skip { end: 2 });
    assert_eq!(scan_at(b"#", 0), Scanned::Invalid);
    assert_eq!(
        scan_at(b"\"hi\" ", 0),
        Scanned::Found { kind: TokenKind::String, end: 4, from: 1, to: 3 }
    );
}

#[test]
fn operators_bind_by_their_level_and_to_the_left() {
    assert_eq!(shape_of("1 + 2 * 3"), "(1 Add (2 Multiply 3))");
    assert_eq!(shape_of("1 * 2 + 3"), "((1 Multiply 2) Add 3)");
    assert_eq!(shape_of("1 - 2 - 3"), "((1 Subtract 2) Subtract 3)");
    assert_eq!(shape_of("8 / 4 % 3 * 2"), "(((8 Divide 4) Modulo 3) Multiply 2)");
    assert_eq!(shape_of("(1 + 2) * 3"), "((1 Add 2) Multiply 3)");
    assert_eq!(
        shape_of("a or b and c == d < e + f * g"),
        "(a Or (b And (c Equal (d LessThan (e Add (f Multiply g))))))"
    );
    assert_eq!(
        shape_of("a <= b != c >= d"),
        "((a LessThanOrEqual b) NotEqual (c GreaterThanOrEqual d))"
    );
    assert_eq!(shape_of("a > b"), "(a GreaterThan b)");
    assert_eq!(shape_of("-a * not b"), "((-a) Multiply (not b))");
    assert_eq!(shape_of("- - 1"), "(-(-1))");
    assert_eq!(shape_of("!x.y"), "(not x.y)");
    assert_eq!(shape_of("return nil"), "return nil");
}

#[test]
fn calls_and_properties_follow_their_receiver() {
    assert_eq!(shape_of("a.b.c"), "a.b.c");
    assert_eq!(shape_of("a.b(1, x).c()"), "a.b(1, x).c()");
    assert_eq!(shape_of("123.class.name"), "123.class.name");
    assert_eq!(shape_of("self.super"), "self.super");
    assert_eq!(shape_of("\"s\".repeat(2 + 1)"), "\"s\".repeat((2 Add 1))");
    assert_eq!(shape_of("@x + super"), "(@x Add super)");
    assert_eq!(shape_of("f.g(a = 1)"), "f.g((a = 1))");
}

#[test]
fn assignment_binds_loosest_and_to_the_right() {
    assert_eq!(shape_of("a = b = 1 + 2"), "(a = (b = (1 Add 2)))");
    assert_eq!(shape_of("a += 2 * 3"), "(a = (a Add (2 Multiply 3)))");
    assert_eq!(shape_of("a -= 1"), "(a = (a Subtract 1))");
    assert_eq!(shape_of("a *= 1"), "(a = (a Multiply 1))");
    assert_eq!(shape_of("a /= 1"), "(a = (a Divide 1))");
    assert_eq!(shape_of("a %= 1"), "(a = (a Modulo 1))");
    assert_eq!(shape_of("p.x = 1"), "(p.x = 1)");
    assert_eq!(shape_of("p.x += 1"), "(p.x = (p.x Add 1))");
    assert_eq!(shape_of("@x = @y"), "(@x = @y)");
    assert_eq!(shape_of("1 = 2"), "(1 = 2)");
}

#[test]
fn statements_end_with_a_semicolon_or_a_line_end() {
    let program = read("let a = 1; let b\nreturn a;;\n\n a + b");
    assert_eq!(program.statements.len(), 4);
    match &program.statements[0] {
        Statement::Let(b) => {
            assert_eq!(b.name, "a");
            assert!(b.value.is_some());
            assert_eq!(b.range, CopyRange { start: 0, end: 9 });
        }
        other => panic!("Expected let, got {:?}", other),
    }
    match &program.statements[1] {
        Statement::Let(b) => {
            assert_eq!(b.name, "b");
            assert!(b.value.is_none());
        }
        other => panic!("Expected let, got {:?}", other),
    }
    assert!(matches!(&program.statements[2], Statement::Return(r) if r.value.is_some()));
    assert!(matches!(&program.statements[3], Statement::Expr { .. }));
    assert_eq!(read("").statements.len(), 0);
    assert_eq!(read("\n;\n// only a comment\n").statements.len(), 0);
    assert!(matches!(&read("return").statements[0], Statement::Return(r) if r.value.is_none()));
}

#[test]
fn a_class_lists_its_members() {
    let program = read(
        "class Point {
            x { return @x }
            x=(value) { @x = value }
            static origin() { return Point.new() }
            plus(other, scale)
            {
                return self
            }
        }",
    );
    assert_eq!(program.statements.len(), 1);
    let class = match &program.statements[0] {
        Statement::Class(c) => c,
        other => panic!("Expected a class, got {:?}", other),
    };
    assert_eq!(class.name, "Point");
    assert_eq!(class.members.len(), 4);
    match &class.members[0] {
        ClassMember::Getter(g) => {
            assert_eq!(g.name, "x");
            assert!(!g.is_static);
            assert_eq!(g.body.len(), 1);
        }
        other => panic!("Expected a getter, got {:?}", other),
    }
    match &class.members[1] {
        ClassMember::Setter(s) => {
            assert_eq!(s.name, "x");
            assert_eq!(s.param, "value");
            assert_eq!(s.body.len(), 1);
        }
        other => panic!("Expected a setter, got {:?}", other),
    }
    match &class.members[2] {
        ClassMember::Method(m) => {
            assert_eq!(m.name, "origin");
            assert!(m.is_static);
            assert!(m.params.is_empty());
        }
        other => panic!("Expected a method, got {:?}", other),
    }
    match &class.members[3] {
        ClassMember::Method(m) => {
            assert_eq!(m.name, "plus");
            assert!(!m.is_static);
            assert_eq!(m.params, vec!["other".to_string(), "scale".to_string()]);
            assert_eq!(m.body.len(), 1);
        }
        other => panic!("Expected a method, got {:?}", other),
    }
    assert_eq!(read("class Empty {}").statements.len(), 1);
}

#[test]
fn what_is_no_program_is_an_error() {
    for source in [
        "1 +",
        "(1",
        "1 2",
        "let",
        "let 1 = 2",
        "a.",
        "a.b(1,",
        "a.b(1 2)",
        "class",
        "class A",
        "class A {",
        "class A { 1 }",
        "class A { m( }",
        "class A { m(a,) {} }",
        "class A { m=(a {} }",
        "class A { static }",
        "}",
        "return 1 2",
        "@",
        "a = ",
        "- ",
    ] {
        assert!(fails(source), "{:?}", source);
    }
    let tokens = lex("1 + 2").unwrap();
    assert!(parse(&tokens, &vec![1.0f64.to_bits()]).is_err());
    assert!(parse(&tokens, &vec![1.0f64.to_bits(), 2.0f64.to_bits()]).is_ok());
}

#[test]
fn ranges_run_from_the_first_token_to_the_last() {
    let program = read("  a.b(1) + 23\n");
    match &program.statements[0] {
        Statement::Expr { expr: Expr::Binary(b), range } => {
            assert_eq!(*range, CopyRange { start: 2, end: 13 });
            assert_eq!(b.range, CopyRange { start: 2, end: 13 });
            assert_eq!(b.op, BinaryOp::Add);
            match &b.left {
                Expr::MethodCall(c) => assert_eq!(c.range, CopyRange { start: 2, end: 8 }),
                other => panic!("Expected a call, got {:?}", other),
            }
            match &b.right {
                Expr::Number { value, range } => {
                    assert_eq!(*value, 23.0f64.to_bits());
                    assert_eq!(*range, CopyRange { start: 11, end: 13 });
                }
                other => panic!("Expected a number, got {:?}", other),
            }
            let copy = clone_expr(&b.left);
            assert_eq!(shape(&copy), shape(&b.left));
        }
        other => panic!("Expected a binary expression, got {:?}", other),
    }
}

#[test]
fn a_token_can_be_written_by_hand() {
    let tokens = vec![
        Token { kind: TokenKind::Nil, text: String::new(), ordinal: 0, start: 0, end: 3 },
    ];
    let program = parse(&tokens, &Vec::new()).unwrap();
    assert!(matches!(
        &program.statements[0],
        Statement::Expr { expr: Expr::Nil { .. }, .. }
    ));
}

#[test]
fn an_invalid_token_is_reported_at_its_first_byte() {
    let error = lex("let s = \"open").unwrap_err();
    assert!(matches!(error.kind, SyntaxErrorKind::InvalidToken));
    assert_eq!(error.range, CopyRange { start: 8, end: 9 });
    let error = lex("a\n  // note\n$ b $").unwrap_err();
    assert!(matches!(error.kind, SyntaxErrorKind::InvalidToken));
    assert_eq!(error.range, CopyRange { start: 12, end: 13 });
    let error = lex("$").unwrap_err();
    assert_eq!(error.range, CopyRange { start: 0, end: 1 });
}

#[test]
fn an_unexpected_token_is_reported_with_its_text_and_range() {
    let tokens = lex("let 12").unwrap();
    let error = parse(&tokens, &vec![12.0f64.to_bits()]).unwrap_err();
    match &error.kind {
        SyntaxErrorKind::UnrecognizedToken { token, expected } => {
            assert_eq!(token, "12");
            assert!(expected.is_empty());
        },
        other => panic!("{:?}", other),
    }
    assert_eq!(error.range, CopyRange { start: 4, end: 6 });
    assert_eq!(error.kind.message(), "Expected one of ");

    let tokens = lex("a + )").unwrap();
    let error = parse(&tokens, &Vec::new()).unwrap_err();
    match &error.kind {
        SyntaxErrorKind::UnrecognizedToken { token, expected } => {
            assert_eq!(token, "");
            assert!(expected.is_empty());
        },
        other => panic!("{:?}", other),
    }
    assert_eq!(error.range, CopyRange { start: 4, end: 5 });
}

#[test]
fn the_end_of_the_tokens_is_reported_behind_the_last_token() {
    let tokens = vec![
        Token { kind: TokenKind::Let, text: String::new(), ordinal: 0, start: 2, end: 5 },
    ];
    let error = parse(&tokens, &Vec::new()).unwrap_err();
    match &error.kind {
        SyntaxErrorKind::UnrecognizedEof { expected } => assert!(expected.is_empty()),
        other => panic!("{:?}", other),
    }
    assert_eq!(error.range, CopyRange { start: 5, end: 5 });
    assert_eq!(error.kind.message(), "Unexpected end of file. Expected one of ");
}
