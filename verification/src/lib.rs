//! Phalcom, a small class-based, message-sending language: the lexer and
//! the parser of its surface syntax, the compiler that lowers a syntax
//! tree to bytecode, the evaluator of the bytecode, the object model with
//! its metaclass tower, and the module layer that binds top-level names.
//!
//! Objects live in a heap and refer to each other by index. Numbers are
//! carried as the bits of IEEE 754 doubles; their values are read from
//! their digits, they are computed with, and all output is done by the
//! host, so that the library itself neither computes on floating-point
//! values nor prints.

pub mod ast;
pub mod bytecode;
pub mod callable;
pub mod chunk;
pub mod class;
pub mod closure;
pub mod compiler;
pub mod diagnostics;
pub mod error;
pub mod eval;
pub mod frame;
pub mod grammar;
pub mod heap;
pub mod host;
pub mod instance;
pub mod interner;
pub mod lexer;
pub mod lowering;
pub mod method;
pub mod module;
pub mod natives;
pub mod number;
pub mod parser;
pub mod primitive;
pub mod range;
pub mod registry;
pub mod run;
pub mod setup;
pub mod step;
pub mod string;
pub mod syntax;
pub mod table;
pub mod text;
pub mod token;
pub mod trace;
pub mod universe;
pub mod value;
pub mod vm;
