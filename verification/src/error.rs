//! The errors of the runtime and the text of each.

use vstd::prelude::*;
use crate::text::{concat2, concat3, decimal, decimal_string};

verus! {

pub type PhResult<T> = Result<T, PhError>;

/// What can go wrong while a program runs.
#[derive(Debug)]
#[allow(inconsistent_fields)]
pub enum RuntimeError {
    /// A method was called with the wrong number of arguments.
    Arity { signature: &'static str, expected: usize, found: usize },
    /// An operand is of the wrong kind for a primitive operation.
    Type { expected: &'static str, found: &'static str },
    /// The superclass of a class cannot be assigned.
    InvalidSetSuper,
    /// The class of an object cannot be assigned.
    InvalidSetClass,
    /// A name is bound neither in the current module nor in the core module.
    UndefinedVar(String),
    /// Division or remainder by zero.
    ZeroDivision,
    /// A value cannot be turned into the kind asked for.
    TypeConversion { expected: &'static str, found: &'static str },
    /// The operation exists but is not open to programs.
    NotAllowed(String),
    /// An argument is outside what the operation accepts.
    ArgumentError(String),
    /// Any other failure, described in words.
    Message(String),
}

/// An error as the runtime hands it to its caller.
#[derive(Debug)]
pub enum PhError {
    /// An error raised by a primitive or by the evaluator.
    Runtime(RuntimeError),
    /// A runtime error together with the trace of the frames that were
    /// active when it was raised, innermost first.
    VMError { error: RuntimeError, stack_trace: String },
    /// An error raised while a program was compiled.
    Compile(CompilerError),
    StringError(String),
    StrError(&'static str),
}

/// What can go wrong while a program is compiled.
#[derive(Debug)]
pub enum CompilerError {
    Unknown,
    UndefinedVariable(String),
    InvalidAssignmentTarget,
    Message(String),
}

#[derive(Debug)]
pub enum CompileError {
    NotFound(String),
    InvalidAssignment,
}

#[derive(Debug)]
pub enum PhalcomError {
    TypeError(String),
    MethodNotFound { selector: String, class_name: String },
    ArgumentError(String),
    CompilationError(String),
    InternalVMError(String),
}

/// What a runtime error says, with its texts as plain sequences.
#[allow(inconsistent_fields)]
pub enum Fault {
    Arity { signature: Seq<char>, expected: nat, found: nat },
    Type { expected: Seq<char>, found: Seq<char> },
    InvalidSetSuper,
    InvalidSetClass,
    UndefinedVar(Seq<char>),
    ZeroDivision,
    TypeConversion { expected: Seq<char>, found: Seq<char> },
    NotAllowed(Seq<char>),
    ArgumentError(Seq<char>),
    Message(Seq<char>),
}

/// What an error says, with its texts as plain sequences.
pub enum ErrorView {
    Runtime(Fault),
    VMError { fault: Fault, stack_trace: Seq<char> },
    Compile(Seq<char>),
    Text(Seq<char>),
}

impl View for RuntimeError {
    type V = Fault;

    open spec fn view(&self) -> Fault {
        match *self {
            RuntimeError::Arity { signature, expected, found } => Fault::Arity {
                signature: signature@,
                expected: expected as nat,
                found: found as nat,
            },
            RuntimeError::Type { expected, found } => Fault::Type {
                expected: expected@,
                found: found@,
            },
            RuntimeError::InvalidSetSuper => Fault::InvalidSetSuper,
            RuntimeError::InvalidSetClass => Fault::InvalidSetClass,
            RuntimeError::UndefinedVar(name) => Fault::UndefinedVar(name@),
            RuntimeError::ZeroDivision => Fault::ZeroDivision,
            RuntimeError::TypeConversion { expected, found } => Fault::TypeConversion {
                expected: expected@,
                found: found@,
            },
            RuntimeError::NotAllowed(text) => Fault::NotAllowed(text@),
            RuntimeError::ArgumentError(text) => Fault::ArgumentError(text@),
            RuntimeError::Message(text) => Fault::Message(text@),
        }
    }
}

impl View for PhError {
    type V = ErrorView;

    open spec fn view(&self) -> ErrorView {
        match *self {
            PhError::Runtime(e) => ErrorView::Runtime(e@),
            PhError::VMError { error, stack_trace } => ErrorView::VMError {
                fault: error@,
                stack_trace: stack_trace@,
            },
            PhError::Compile(e) => ErrorView::Compile(e.message_spec()),
            PhError::StringError(text) => ErrorView::Text(text@),
            PhError::StrError(text) => ErrorView::Text(text@),
        }
    }
}

impl Fault {
    /// The text of the error.
    pub open spec fn text(self) -> Seq<char> {
        match self {
            Fault::Arity { signature, expected, found } => "Method "@ + signature
                + " expected "@ + num_arguments_text(expected) + ", got "@ + decimal(found),
            Fault::Type { expected, found } => "Expected "@ + expected + ", got "@ + found,
            Fault::InvalidSetSuper => "Can't set superclass of a class"@,
            Fault::InvalidSetClass => "Can't set class of an object"@,
            Fault::UndefinedVar(name) => "Undefined variable `"@ + name + "`"@,
            Fault::ZeroDivision => "Division by zero"@,
            Fault::TypeConversion { expected, found } => "Can't convert "@ + found + " to "@
                + expected,
            Fault::NotAllowed(text) => text,
            Fault::ArgumentError(text) => "Invalid argument: "@ + text,
            Fault::Message(text) => text,
        }
    }
}

/// How a count of arguments reads: "1 argument", else the count and
/// "arguments".
pub open spec fn num_arguments_text(args: nat) -> Seq<char> {
    if args == 1 {
        "1 argument"@
    } else {
        decimal(args) + " arguments"@
    }
}

pub fn format_num_arguments(args: usize) -> (s: String)
    ensures
        s@ == num_arguments_text(args as nat),
{
    if args == 1 {
        "1 argument".to_owned()
    } else {
        let n = decimal_string(args);
        concat2(n.as_str(), " arguments")
    }
}

impl RuntimeError {
    /// The text of the error.
    pub open spec fn message_spec(self) -> Seq<char> {
        self@.text()
    }

    /// Writes the error out.
    pub fn message(&self) -> (s: String)
        ensures
            s@ == self.message_spec(),
    {
        match self {
            RuntimeError::Arity { signature, expected, found } => {
                let mut s = concat3("Method ", signature, " expected ");
                let n = format_num_arguments(*expected);
                s.append(n.as_str());
                s.append(", got ");
                let f = decimal_string(*found);
                s.append(f.as_str());
                s
            },
            RuntimeError::Type { expected, found } => {
                let mut s = concat3("Expected ", expected, ", got ");
                s.append(found);
                s
            },
            RuntimeError::InvalidSetSuper => "Can't set superclass of a class".to_owned(),
            RuntimeError::InvalidSetClass => "Can't set class of an object".to_owned(),
            RuntimeError::UndefinedVar(name) => concat3("Undefined variable `", name.as_str(), "`"),
            RuntimeError::ZeroDivision => "Division by zero".to_owned(),
            RuntimeError::TypeConversion { expected, found } => {
                let mut s = concat3("Can't convert ", found, " to ");
                s.append(expected);
                s
            },
            RuntimeError::NotAllowed(text) => text.clone(),
            RuntimeError::ArgumentError(text) => concat2("Invalid argument: ", text.as_str()),
            RuntimeError::Message(text) => text.clone(),
        }
    }
}

impl Clone for RuntimeError {
    fn clone(&self) -> (e: Self)
        ensures
            e == *self,
    {
        match self {
            RuntimeError::Arity { signature, expected, found } => RuntimeError::Arity {
                signature: *signature,
                expected: *expected,
                found: *found,
            },
            RuntimeError::Type { expected, found } => RuntimeError::Type {
                expected: *expected,
                found: *found,
            },
            RuntimeError::InvalidSetSuper => RuntimeError::InvalidSetSuper,
            RuntimeError::InvalidSetClass => RuntimeError::InvalidSetClass,
            RuntimeError::UndefinedVar(name) => RuntimeError::UndefinedVar(name.clone()),
            RuntimeError::ZeroDivision => RuntimeError::ZeroDivision,
            RuntimeError::TypeConversion { expected, found } => RuntimeError::TypeConversion {
                expected: *expected,
                found: *found,
            },
            RuntimeError::NotAllowed(text) => RuntimeError::NotAllowed(text.clone()),
            RuntimeError::ArgumentError(text) => RuntimeError::ArgumentError(text.clone()),
            RuntimeError::Message(text) => RuntimeError::Message(text.clone()),
        }
    }
}

impl CompilerError {
    /// The text of the error.
    pub open spec fn message_spec(self) -> Seq<char> {
        match self {
            CompilerError::Unknown => "Unknown error during compilation."@,
            CompilerError::UndefinedVariable(name) => "Undefined variable '"@ + name@ + "'."@,
            CompilerError::InvalidAssignmentTarget => "Invalid assignment target."@,
            CompilerError::Message(text) => text@,
        }
    }

    /// Writes the error out.
    pub fn message(&self) -> (s: String)
        ensures
            s@ == self.message_spec(),
    {
        match self {
            CompilerError::Unknown => "Unknown error during compilation.".to_owned(),
            CompilerError::UndefinedVariable(name) => concat3(
                "Undefined variable '",
                name.as_str(),
                "'.",
            ),
            CompilerError::InvalidAssignmentTarget => "Invalid assignment target.".to_owned(),
            CompilerError::Message(text) => text.clone(),
        }
    }
}

impl PhError {
    /// True for a runtime error that is the given message.
    pub open spec fn is_message(self, text: Seq<char>) -> bool {
        self@ == ErrorView::Runtime(Fault::Message(text))
    }

    /// The text of the error; a traced error is followed by its trace.
    pub open spec fn message_spec(self) -> Seq<char> {
        match self {
            PhError::Runtime(e) => e.message_spec(),
            PhError::VMError { error, stack_trace } => "VM Error: "@ + error.message_spec()
                + "\nStack Trace:\n"@ + stack_trace@,
            PhError::Compile(e) => e.message_spec(),
            PhError::StringError(text) => text@,
            PhError::StrError(text) => text@,
        }
    }

    /// Writes the error out.
    pub fn message(&self) -> (s: String)
        ensures
            s@ == self.message_spec(),
    {
        match self {
            PhError::Runtime(e) => e.message(),
            PhError::VMError { error, stack_trace } => {
                let m = error.message();
                let mut s = concat3("VM Error: ", m.as_str(), "\nStack Trace:\n");
                s.append(stack_trace.as_str());
                s
            },
            PhError::Compile(e) => e.message(),
            PhError::StringError(text) => text.clone(),
            PhError::StrError(text) => (*text).to_owned(),
        }
    }
}

} // verus!
