use phalcom::diagnostics::{locate, LineSpan};
use phalcom::error::{format_num_arguments, CompilerError, PhError, RuntimeError};
use phalcom::range::{empty_source_range, CopyRange};
use phalcom::syntax::{format_expected, SyntaxErrorKind};
use phalcom::text::{concat2, concat3, decimal_string};

#[test]
fn counts_of_arguments() {
    assert_eq!(format_num_arguments(1), "1 argument");
    assert_eq!(format_num_arguments(0), "0 arguments");
    assert_eq!(format_num_arguments(2), "2 arguments");
    assert_eq!(format_num_arguments(120), "120 arguments");
}

#[test]
fn numbers_in_decimal() {
    assert_eq!(decimal_string(0), "0");
    assert_eq!(decimal_string(9), "9");
    assert_eq!(decimal_string(10), "10");
    assert_eq!(decimal_string(1234567890), "1234567890");
    assert_eq!(decimal_string(usize::MAX), usize::MAX.to_string());
    assert_eq!(concat2("ab", "cd"), "abcd");
    assert_eq!(concat3("a", "", "c"), "ac");
}

#[test]
fn texts_of_runtime_errors() {
    let cases = vec![
        (
            RuntimeError::Arity { signature: "foo(_)", expected: 1, found: 3 },
            "Method foo(_) expected 1 argument, got 3",
        ),
        (
            RuntimeError::Arity { signature: "foo(_,_)", expected: 2, found: 0 },
            "Method foo(_,_) expected 2 arguments, got 0",
        ),
        (RuntimeError::Type { expected: "Number", found: "String" }, "Expected Number, got String"),
        (RuntimeError::InvalidSetSuper, "Can't set superclass of a class"),
        (RuntimeError::InvalidSetClass, "Can't set class of an object"),
        (RuntimeError::UndefinedVar("x".to_string()), "Undefined variable `x`"),
        (RuntimeError::ZeroDivision, "Division by zero"),
        (
            RuntimeError::TypeConversion { expected: "number", found: "Nil" },
            "Can't convert Nil to number",
        ),
        (RuntimeError::NotAllowed("no".to_string()), "no"),
        (RuntimeError::ArgumentError("bad".to_string()), "Invalid argument: bad"),
        (RuntimeError::Message("plain".to_string()), "plain"),
    ];
    for (error, text) in cases {
        assert_eq!(error.message(), text);
        assert_eq!(error.clone().message(), text);
        assert_eq!(PhError::Runtime(error).message(), text);
    }
}

#[test]
fn texts_of_other_errors() {
    assert_eq!(CompilerError::Unknown.message(), "Unknown error during compilation.");
    assert_eq!(
        CompilerError::UndefinedVariable("v".to_string()).message(),
        "Undefined variable 'v'."
    );
    assert_eq!(CompilerError::InvalidAssignmentTarget.message(), "Invalid assignment target.");
    assert_eq!(CompilerError::Message("m".to_string()).message(), "m");
    assert_eq!(PhError::Compile(CompilerError::Unknown).message(), "Unknown error during compilation.");
    assert_eq!(PhError::StringError("s".to_string()).message(), "s");
    assert_eq!(PhError::StrError("t").message(), "t");
    let traced = PhError::VMError {
        error: RuntimeError::ZeroDivision,
        stack_trace: "Error: Division by zero\n  at <main>\n".to_string(),
    };
    assert_eq!(
        traced.message(),
        "VM Error: Division by zero\nStack Trace:\nError: Division by zero\n  at <main>\n"
    );
}

#[test]
fn what_was_expected() {
    assert_eq!(format_expected(&vec!["\";\"".to_string()]), "Expected \";\"");
    assert_eq!(format_expected(&vec![]), "Expected one of ");
    assert_eq!(
        format_expected(&vec!["a".to_string(), "b".to_string(), "c".to_string()]),
        "Expected one of a, b, c"
    );
    assert_eq!(
        SyntaxErrorKind::UnrecognizedEof { expected: vec!["x".to_string()] }.message(),
        "Unexpected end of file. Expected x"
    );
    assert_eq!(
        SyntaxErrorKind::UnrecognizedToken {
            token: "t".to_string(),
            expected: vec!["x".to_string(), "y".to_string()]
        }
        .message(),
        "Expected one of x, y"
    );
    assert_eq!(
        SyntaxErrorKind::ExtraToken { token: "}".to_string() }.message(),
        "Extraneous input: \"}\""
    );
    assert_eq!(SyntaxErrorKind::InvalidToken.message(), "Invalid token");
    assert_eq!(SyntaxErrorKind::InvalidFloat.message(), "Invalid integer");
    assert_eq!(SyntaxErrorKind::Message("m".to_string()).message(), "m");
}

#[test]
fn a_range_is_found_in_its_line() {
    let source = b"let a = 1;\nlet b = oops;\nreturn a;";
    let found = locate(source, CopyRange { start: 19, end: 23 }).unwrap();
    assert_eq!(
        found,
        LineSpan { line: 2, line_start: 11, line_end: 24, column_start: 8, column_end: 12 }
    );
    let found = locate(source, CopyRange { start: 0, end: 3 }).unwrap();
    assert_eq!(found, LineSpan { line: 1, line_start: 0, line_end: 10, column_start: 0, column_end: 3 });
    let found = locate(source, CopyRange { start: 25, end: 31 }).unwrap();
    assert_eq!(found.line, 3);
    assert_eq!(found.line_start, 25);
    assert_eq!(found.line_end, source.len());
    assert_eq!(locate(source, CopyRange { start: 40, end: 41 }), None);
    assert_eq!(locate(source, CopyRange { start: 5, end: 4 }), None);
    let found = locate(b"", empty_source_range()).unwrap();
    assert_eq!(found, LineSpan { line: 1, line_start: 0, line_end: 0, column_start: 0, column_end: 0 });
}
