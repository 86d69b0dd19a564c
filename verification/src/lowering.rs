//! What the compiler owes: for each construct of the language, the
//! instructions that stand for it.
//!
//! The predicates here read compiled code against the syntax tree. An
//! instruction that names something holds the index of a constant; the
//! predicates look the constant up, and for a symbol the string that the
//! interner holds for it.

use vstd::prelude::*;
use crate::ast::{ClassMember, Expr, MethodCallExpr, Statement};
use crate::bytecode::Bytecode;
use crate::compiler::{binary_instruction, unary_instruction};
use crate::heap::{HeapView, OBJECT_CLASS};
use crate::interner::Symbol;
use crate::method::{signature_text, MethodKind, SignatureKind};
use crate::value::Value;
use crate::vm::names;

verus! {

/// Compiled code, with what its operands refer to: the instructions, the
/// constant pool, and the strings of the interner.
pub struct Emitted {
    pub code: Seq<Bytecode>,
    pub constants: Seq<Value>,
    pub table: Seq<Seq<char>>,
}

/// True when `b` starts with `a`.
pub open spec fn extends<T>(a: Seq<T>, b: Seq<T>) -> bool {
    a.len() <= b.len() && forall|i: int| 0 <= i < a.len() ==> b[i] == a[i]
}

impl Emitted {
    /// True when `later` is this code with more instructions, constants
    /// and strings added at the ends.
    pub open spec fn grows_to(self, later: Emitted) -> bool {
        extends(self.code, later.code) && extends(self.constants, later.constants) && extends(
            self.table,
            later.table,
        )
    }

    /// The constant at `idx` is the symbol of `text`.
    pub open spec fn names_at(self, idx: u16, text: Seq<char>) -> bool {
        idx < self.constants.len() && (self.constants[idx as int] matches Value::Symbol(s)
            && names(self.table, s, text))
    }

    /// The constant at `idx` is a string of the given text.
    pub open spec fn text_at(self, idx: u16, text: Seq<char>) -> bool {
        idx < self.constants.len() && (self.constants[idx as int] matches Value::String(s) && s@
            == text)
    }

    /// The constant at `idx` is `v`.
    pub open spec fn value_at(self, idx: u16, v: Value) -> bool {
        idx < self.constants.len() && self.constants[idx as int] == v
    }

    /// The instruction at `at` pushes the constant `v`.
    pub open spec fn pushes_value(self, at: int, v: Value) -> bool {
        0 <= at < self.code.len() && (self.code[at] matches Bytecode::Constant(i) && self.value_at(
            i,
            v,
        ))
    }

    /// The instruction at `at` pushes a string of the given text.
    pub open spec fn pushes_text(self, at: int, text: Seq<char>) -> bool {
        0 <= at < self.code.len() && (self.code[at] matches Bytecode::Constant(i) && self.text_at(
            i,
            text,
        ))
    }

    /// The instruction at `at` is `op`.
    pub open spec fn is_at(self, at: int, op: Bytecode) -> bool {
        0 <= at < self.code.len() && self.code[at] == op
    }

    pub open spec fn get_global_at(self, at: int, name: Seq<char>) -> bool {
        0 <= at < self.code.len() && (self.code[at] matches Bytecode::GetGlobal(i)
            && self.names_at(i, name))
    }

    pub open spec fn set_global_at(self, at: int, name: Seq<char>) -> bool {
        0 <= at < self.code.len() && (self.code[at] matches Bytecode::SetGlobal(i)
            && self.names_at(i, name))
    }

    pub open spec fn define_global_at(self, at: int, name: Seq<char>) -> bool {
        0 <= at < self.code.len() && (self.code[at] matches Bytecode::DefineGlobal(i)
            && self.names_at(i, name))
    }

    pub open spec fn get_field_at(self, at: int, name: Seq<char>) -> bool {
        0 <= at < self.code.len() && (self.code[at] matches Bytecode::GetField(i) && self.names_at(
            i,
            name,
        ))
    }

    pub open spec fn set_field_at(self, at: int, name: Seq<char>) -> bool {
        0 <= at < self.code.len() && (self.code[at] matches Bytecode::SetField(i) && self.names_at(
            i,
            name,
        ))
    }

    pub open spec fn get_property_at(self, at: int, name: Seq<char>) -> bool {
        0 <= at < self.code.len() && (self.code[at] matches Bytecode::GetProperty(i)
            && self.names_at(i, name))
    }

    pub open spec fn set_property_at(self, at: int, name: Seq<char>) -> bool {
        0 <= at < self.code.len() && (self.code[at] matches Bytecode::SetProperty(i)
            && self.names_at(i, name))
    }

    pub open spec fn class_at(self, at: int, name: Seq<char>) -> bool {
        0 <= at < self.code.len() && (self.code[at] matches Bytecode::Class(i) && self.names_at(
            i,
            name,
        ))
    }

    /// The instruction at `at` invokes, with `arity` arguments, the
    /// method of that name and that many parameters.
    pub open spec fn invoke_at(self, at: int, arity: nat, method: Seq<char>) -> bool {
        0 <= at < self.code.len() && arity <= 255 && (self.code[at] matches Bytecode::Invoke(n, i)
            && n == arity && self.names_at(
            i,
            signature_text(method, SignatureKind::Method(arity as u8)),
        ))
    }

    /// The instruction at `at` attaches a method under the selector of
    /// the given text.
    pub open spec fn method_at(self, at: int, selector: Seq<char>, is_static: bool) -> bool {
        0 <= at < self.code.len() && (self.code[at] matches Bytecode::Method(i, s) && s == is_static
            && self.names_at(i, selector))
    }
}

/// True when the expression can be compiled: every assignment in it is
/// to a variable or a field, and no call in it has more than 255
/// arguments.
pub open spec fn expr_ok(e: Expr) -> bool
    decreases e, 0nat,
{
    match e {
        Expr::Assignment(a) => (*a.name is Var || *a.name is Field) && expr_ok(a.value),
        Expr::Unary(u) => expr_ok(u.expr),
        Expr::Binary(b) => expr_ok(b.left) && expr_ok(b.right),
        Expr::MethodCall(c) => call_ok(*c),
        Expr::GetProperty(g) => expr_ok(g.object),
        Expr::SetProperty(s) => expr_ok(s.object) && expr_ok(s.value),
        _ => true,
    }
}

/// True when the call can be compiled: its receiver and its arguments
/// can, and there are no more than 255 arguments.
pub open spec fn call_ok(c: MethodCallExpr) -> bool
    decreases c, 0nat,
{
    expr_ok(c.object) && c.args@.len() <= 255 && args_ok(c.args@, c.args@.len())
}

/// True when the first `n` of the arguments can be compiled.
pub open spec fn args_ok(args: Seq<Expr>, n: nat) -> bool
    decreases args, n,
{
    if n == 0 || n > args.len() {
        true
    } else {
        args_ok(args, (n - 1) as nat) && expr_ok(args[n - 1])
    }
}

/// The number of instructions that an expression compiles to.
pub open spec fn expr_len(e: Expr) -> nat
    decreases e, 0nat,
{
    match e {
        Expr::Field { .. } => 2,
        Expr::Assignment(a) => if *a.name is Field {
            expr_len(a.value) + 2
        } else {
            expr_len(a.value) + 1
        },
        Expr::Unary(u) => expr_len(u.expr) + 1,
        Expr::Binary(b) => expr_len(b.left) + expr_len(b.right) + 1,
        Expr::MethodCall(c) => call_len(*c),
        Expr::GetProperty(g) => expr_len(g.object) + 1,
        Expr::SetProperty(s) => expr_len(s.object) + expr_len(s.value) + 1,
        _ => 1,
    }
}

/// The number of instructions that a call compiles to.
pub open spec fn call_len(c: MethodCallExpr) -> nat
    decreases c, 0nat,
{
    expr_len(c.object) + args_len(c.args@, c.args@.len()) + 1
}

/// The number of instructions that the first `n` of the arguments
/// compile to.
pub open spec fn args_len(args: Seq<Expr>, n: nat) -> nat
    decreases args, n,
{
    if n == 0 || n > args.len() {
        0
    } else {
        args_len(args, (n - 1) as nat) + expr_len(args[n - 1])
    }
}

/// True when the instructions from `at` on stand for the expression.
///
/// Operands come before their operator, a receiver before its
/// arguments, and the arguments in their order. A literal is pushed, a
/// variable is read as a global, a field is read from the receiver of
/// the frame, and `super` is `nil`.
pub open spec fn expr_at(m: Emitted, at: int, e: Expr) -> bool
    decreases e, 0nat,
{
    match e {
        Expr::Number { value, .. } => m.pushes_value(at, Value::Number(value)),
        Expr::String { value, .. } => m.pushes_text(at, value@),
        Expr::Boolean { value, .. } => m.is_at(
            at,
            if value {
                Bytecode::True
            } else {
                Bytecode::False
            },
        ),
        Expr::Nil { .. } => m.is_at(at, Bytecode::Nil),
        Expr::Var { value, .. } => m.get_global_at(at, value@),
        Expr::Field { value, .. } => m.is_at(at, Bytecode::GetSelf) && m.get_field_at(
            at + 1,
            value@,
        ),
        Expr::SelfVar { .. } => m.is_at(at, Bytecode::GetSelf),
        Expr::SuperVar { .. } => m.is_at(at, Bytecode::Nil),
        Expr::Assignment(a) => match *a.name {
            Expr::Var { value, .. } => expr_at(m, at, a.value) && m.set_global_at(
                at + expr_len(a.value),
                value@,
            ),
            Expr::Field { value, .. } => m.is_at(at, Bytecode::GetSelf) && expr_at(
                m,
                at + 1,
                a.value,
            ) && m.set_field_at(at + 1 + expr_len(a.value), value@),
            _ => false,
        },
        Expr::Unary(u) => expr_at(m, at, u.expr) && m.is_at(
            at + expr_len(u.expr),
            unary_instruction(u.op),
        ),
        Expr::Binary(b) => expr_at(m, at, b.left) && expr_at(m, at + expr_len(b.left), b.right)
            && m.is_at(at + expr_len(b.left) + expr_len(b.right), binary_instruction(b.op)),
        Expr::MethodCall(c) => call_at(m, at, *c),
        Expr::GetProperty(g) => expr_at(m, at, g.object) && m.get_property_at(
            at + expr_len(g.object),
            g.property@,
        ),
        Expr::SetProperty(s) => expr_at(m, at, s.object) && expr_at(
            m,
            at + expr_len(s.object),
            s.value,
        ) && m.set_property_at(at + expr_len(s.object) + expr_len(s.value), s.property@),
    }
}

/// True when the instructions from `at` on stand for the call: the
/// receiver, the arguments in their order, and the invocation of the
/// method of that name and that many parameters.
pub open spec fn call_at(m: Emitted, at: int, c: MethodCallExpr) -> bool
    decreases c, 0nat,
{
    expr_at(m, at, c.object) && args_at(m, at + expr_len(c.object), c.args@, c.args@.len())
        && m.invoke_at(
        at + expr_len(c.object) + args_len(c.args@, c.args@.len()),
        c.args@.len(),
        c.method@,
    )
}

/// True when the instructions from `at` on stand for the first `n` of
/// the arguments, one after the other.
pub open spec fn args_at(m: Emitted, at: int, args: Seq<Expr>, n: nat) -> bool
    decreases args, n,
{
    if n == 0 || n > args.len() {
        true
    } else {
        args_at(m, at, args, (n - 1) as nat) && expr_at(
            m,
            at + args_len(args, (n - 1) as nat),
            args[n - 1],
        )
    }
}

/// Code that stands for an expression still does after more was
/// emitted.
pub proof fn lemma_expr_stays(m: Emitted, later: Emitted, at: int, e: Expr)
    requires
        m.grows_to(later),
        expr_at(m, at, e),
    ensures
        expr_at(later, at, e),
    decreases e, 0nat,
{
    match e {
        Expr::Assignment(a) => {
            match *a.name {
                Expr::Var { .. } => {
                    lemma_expr_stays(m, later, at, a.value);
                },
                Expr::Field { .. } => {
                    lemma_expr_stays(m, later, at + 1, a.value);
                },
                _ => {},
            }
        },
        Expr::Unary(u) => {
            lemma_expr_stays(m, later, at, u.expr);
        },
        Expr::Binary(b) => {
            lemma_expr_stays(m, later, at, b.left);
            lemma_expr_stays(m, later, at + expr_len(b.left), b.right);
        },
        Expr::MethodCall(c) => {
            lemma_call_stays(m, later, at, *c);
        },
        Expr::GetProperty(g) => {
            lemma_expr_stays(m, later, at, g.object);
        },
        Expr::SetProperty(s) => {
            lemma_expr_stays(m, later, at, s.object);
            lemma_expr_stays(m, later, at + expr_len(s.object), s.value);
        },
        _ => {},
    }
}

/// Code that stands for a call still does after more was emitted.
pub proof fn lemma_call_stays(m: Emitted, later: Emitted, at: int, c: MethodCallExpr)
    requires
        m.grows_to(later),
        call_at(m, at, c),
    ensures
        call_at(later, at, c),
    decreases c, 0nat,
{
    lemma_expr_stays(m, later, at, c.object);
    lemma_args_stay(m, later, at + expr_len(c.object), c.args@, c.args@.len());
}

/// Code that stands for arguments still does after more was emitted.
pub proof fn lemma_args_stay(m: Emitted, later: Emitted, at: int, args: Seq<Expr>, n: nat)
    requires
        m.grows_to(later),
        args_at(m, at, args, n),
    ensures
        args_at(later, at, args, n),
    decreases args, n,
{
    if n == 0 || n > args.len() {
    } else {
        lemma_args_stay(m, later, at, args, (n - 1) as nat);
        lemma_expr_stays(m, later, at + args_len(args, (n - 1) as nat), args[n - 1]);
    }
}

/// Where more than `n` arguments can be compiled, the first `n` can.
pub proof fn lemma_args_prefix(args: Seq<Expr>, n: nat, more: nat)
    requires
        n <= more <= args.len(),
    ensures
        args_ok(args, more) ==> args_ok(args, n),
    decreases more,
{
    if n < more {
        lemma_args_prefix(args, n, (more - 1) as nat);
    }
}

/// More arguments compile to no fewer instructions.
pub proof fn lemma_args_len_grows(args: Seq<Expr>, n: nat, more: nat)
    requires
        n <= more <= args.len(),
    ensures
        args_len(args, n) <= args_len(args, more),
    decreases more,
{
    if n < more {
        lemma_args_len_grows(args, n, (more - 1) as nat);
    }
}

/// Growing is transitive, and code grows to itself.
pub proof fn lemma_grows(a: Emitted, b: Emitted, c: Emitted)
    requires
        a.grows_to(b),
        b.grows_to(c),
    ensures
        a.grows_to(c),
        a.grows_to(a),
{
}

/// True when the value of a statement, if it has one, can be compiled.
pub open spec fn value_ok(value: Option<Expr>) -> bool {
    match value {
        Some(e) => expr_ok(e),
        None => true,
    }
}

/// The number of instructions that the value of a statement compiles
/// to: one, a `Nil`, where it has none.
pub open spec fn value_len(value: Option<Expr>) -> nat {
    match value {
        Some(e) => expr_len(e),
        None => 1,
    }
}

/// True when the instructions from `at` on stand for the value of a
/// statement: for the expression, or `Nil` where there is none.
pub open spec fn value_at(m: Emitted, at: int, value: Option<Expr>) -> bool {
    match value {
        Some(e) => expr_at(m, at, e),
        None => m.is_at(at, Bytecode::Nil),
    }
}

/// The name of a member of a class.
pub open spec fn member_name(member: ClassMember) -> Seq<char> {
    match member {
        ClassMember::Method(d) => d.name@,
        ClassMember::Getter(d) => d.name@,
        ClassMember::Setter(d) => d.name@,
    }
}

/// The calling shape of a member: a method with as many parameters as
/// it declares, a getter, or a setter.
pub open spec fn member_kind(member: ClassMember) -> SignatureKind {
    match member {
        ClassMember::Method(d) => SignatureKind::Method(d.params@.len() as u8),
        ClassMember::Getter(_) => SignatureKind::Getter,
        ClassMember::Setter(_) => SignatureKind::Setter,
    }
}

/// The number of arguments that a member takes.
pub open spec fn member_arity(member: ClassMember) -> nat {
    match member {
        ClassMember::Method(d) => d.params@.len(),
        ClassMember::Getter(_) => 0,
        ClassMember::Setter(_) => 1,
    }
}

/// Whether a member is static.
pub open spec fn member_static(member: ClassMember) -> bool {
    match member {
        ClassMember::Method(d) => d.is_static,
        ClassMember::Getter(d) => d.is_static,
        ClassMember::Setter(d) => d.is_static,
    }
}

/// The statements of a member.
pub open spec fn member_body(member: ClassMember) -> Seq<Statement> {
    match member {
        ClassMember::Method(d) => d.body@,
        ClassMember::Getter(d) => d.body@,
        ClassMember::Setter(d) => d.body@,
    }
}

/// The selector of a member: its name in its calling shape.
pub open spec fn member_selector(member: ClassMember) -> Seq<char> {
    signature_text(member_name(member), member_kind(member))
}

/// True when the last of the statements is a `return`.
pub open spec fn ends_with_return(statements: Seq<Statement>) -> bool {
    statements.len() > 0 && statements.last() is Return
}

/// True when the statement can be compiled: its expressions can, and in
/// a class no method has more than 255 parameters and no getter or
/// setter is static.
pub open spec fn stmt_ok(s: Statement) -> bool
    decreases s, 0nat,
{
    match s {
        Statement::Expr { expr, .. } => expr_ok(expr),
        Statement::Let(b) => value_ok(b.value),
        Statement::Return(r) => value_ok(r.value),
        Statement::Class(d) => members_ok(d.members@, d.members@.len()),
    }
}

/// True when the first `n` of the members can be compiled.
pub open spec fn members_ok(members: Seq<ClassMember>, n: nat) -> bool
    decreases members, n,
{
    if n == 0 || n > members.len() {
        true
    } else {
        members_ok(members, (n - 1) as nat) && member_ok(members[n - 1])
    }
}

/// True when the member can be compiled.
pub open spec fn member_ok(member: ClassMember) -> bool
    decreases member, 0nat,
{
    match member {
        ClassMember::Method(d) => d.params@.len() <= 255 && stmts_ok(d.body@, d.body@.len()),
        ClassMember::Getter(d) => !d.is_static && stmts_ok(d.body@, d.body@.len()),
        ClassMember::Setter(d) => !d.is_static && stmts_ok(d.body@, d.body@.len()),
    }
}

/// True when the first `n` of the statements can be compiled.
pub open spec fn stmts_ok(statements: Seq<Statement>, n: nat) -> bool
    decreases statements, n,
{
    if n == 0 || n > statements.len() {
        true
    } else {
        stmts_ok(statements, (n - 1) as nat) && stmt_ok(statements[n - 1])
    }
}

/// The number of instructions that a statement compiles to in the code
/// that holds it. The methods of a class are compiled to code of their
/// own; in the code that holds the class each takes two instructions.
pub open spec fn stmt_len(s: Statement, emit_pop: bool) -> nat {
    match s {
        Statement::Expr { expr, .. } => expr_len(expr) + if emit_pop {
            1nat
        } else {
            0nat
        },
        Statement::Let(b) => value_len(b.value) + 1,
        Statement::Return(r) => value_len(r.value) + 1,
        Statement::Class(d) => 2 * d.members@.len() + 3,
    }
}

/// The number of instructions that the first `n` statements of a block
/// compile to. The value of every expression statement but the last of
/// the block is dropped.
pub open spec fn stmts_len(statements: Seq<Statement>, n: nat) -> nat
    decreases n,
{
    if n == 0 || n > statements.len() {
        0
    } else {
        stmts_len(statements, (n - 1) as nat) + stmt_len(
            statements[n - 1],
            n != statements.len(),
        )
    }
}

/// The number of instructions that a block compiles to: its statements,
/// and a `Return` unless the last statement is one.
pub open spec fn block_len(statements: Seq<Statement>) -> nat {
    stmts_len(statements, statements.len()) + if ends_with_return(statements) {
        0nat
    } else {
        1nat
    }
}

/// An upper bound on the constants and the symbols that compiling a
/// statement takes, the code of the methods it declares counted in.
pub open spec fn stmt_weight(s: Statement) -> nat
    decreases s, 0nat,
{
    match s {
        Statement::Expr { expr, .. } => expr_len(expr) + 1,
        Statement::Let(b) => value_len(b.value) + 1,
        Statement::Return(r) => value_len(r.value) + 1,
        Statement::Class(d) => members_weight(d.members@, d.members@.len()) + 3,
    }
}

/// The weight of the first `n` of the members.
pub open spec fn members_weight(members: Seq<ClassMember>, n: nat) -> nat
    decreases members, n,
{
    if n == 0 || n > members.len() {
        0
    } else {
        members_weight(members, (n - 1) as nat) + member_weight(members[n - 1])
    }
}

/// The weight of a member: its own instructions and selector, and the
/// weight of its body.
pub open spec fn member_weight(member: ClassMember) -> nat
    decreases member, 0nat,
{
    match member {
        ClassMember::Method(d) => stmts_weight(d.body@, d.body@.len()) + 4,
        ClassMember::Getter(d) => stmts_weight(d.body@, d.body@.len()) + 4,
        ClassMember::Setter(d) => stmts_weight(d.body@, d.body@.len()) + 4,
    }
}

/// The weight of the first `n` of the statements.
pub open spec fn stmts_weight(statements: Seq<Statement>, n: nat) -> nat
    decreases statements, n,
{
    if n == 0 || n > statements.len() {
        0
    } else {
        stmts_weight(statements, (n - 1) as nat) + stmt_weight(statements[n - 1])
    }
}

/// True when the instructions from `at` on stand for the statement, in
/// code that belongs to `module`.
///
/// An expression statement is its expression, followed by `Pop` if its
/// value is to be dropped. A binding is its value and `DefineGlobal`. A
/// `return` is its value and `Return`. A class is the superclass
/// `Object`, `Class`, then for each member the method and `Method`, and
/// at last `DefineGlobal`.
pub open spec fn stmt_at(
    heap: HeapView,
    m: Emitted,
    at: int,
    s: Statement,
    emit_pop: bool,
    module: usize,
) -> bool
    decreases s, 0nat,
{
    match s {
        Statement::Expr { expr, .. } => expr_at(m, at, expr) && (emit_pop ==> m.is_at(
            at + expr_len(expr),
            Bytecode::Pop,
        )),
        Statement::Let(b) => value_at(m, at, b.value) && m.define_global_at(
            at + value_len(b.value),
            b.name@,
        ),
        Statement::Return(r) => value_at(m, at, r.value) && m.is_at(
            at + value_len(r.value),
            Bytecode::Return,
        ),
        Statement::Class(d) => m.pushes_value(at, Value::Class(OBJECT_CLASS)) && m.class_at(
            at + 1,
            d.name@,
        ) && members_at(heap, m, at + 2, d.members@, d.members@.len(), module)
            && m.define_global_at(at + 2 + 2 * d.members@.len(), d.name@),
    }
}

/// True when the instructions from `at` on stand for the first `n` of
/// the members, two instructions each.
pub open spec fn members_at(
    heap: HeapView,
    m: Emitted,
    at: int,
    members: Seq<ClassMember>,
    n: nat,
    module: usize,
) -> bool
    decreases members, n,
{
    if n == 0 || n > members.len() {
        true
    } else {
        members_at(heap, m, at, members, (n - 1) as nat, module) && member_at(
            heap,
            m,
            at + 2 * (n - 1),
            members[n - 1],
            module,
        )
    }
}

/// True when the two instructions at `at` stand for the member: the
/// first pushes a method that was compiled from the member, the second
/// attaches it under the member's selector.
pub open spec fn member_at(
    heap: HeapView,
    m: Emitted,
    at: int,
    member: ClassMember,
    module: usize,
) -> bool
    decreases member, 2nat,
{
    &&& 0 <= at < m.code.len()
    &&& m.code[at] matches Bytecode::Constant(i) && i < m.constants.len() && (
    m.constants[i as int] matches Value::Method(id) && method_for(
        heap,
        m.table,
        id,
        member,
        module,
    ))
    &&& m.method_at(at + 1, member_selector(member), member_static(member))
}

/// True when the method `id` of the heap was compiled from the member:
/// it has the member's selector and shape, no holder yet, and a closure
/// of `module` that takes the member's arguments and whose code stands
/// for the member's body.
pub open spec fn method_for(
    heap: HeapView,
    table: Seq<Seq<char>>,
    id: usize,
    member: ClassMember,
    module: usize,
) -> bool
    decreases member, 1nat,
{
    &&& id < heap.methods.len()
    &&& heap.methods[id as int].signature.kind == member_kind(member)
    &&& names(table, heap.methods[id as int].signature.selector, member_selector(member))
    &&& heap.methods[id as int].holder is None
    &&& heap.methods[id as int].kind matches MethodKind::Closure(c) && c < heap.closures.len()
        && heap.closures[c as int].module == module && heap.closures[c as int].callable.arity
        == member_arity(member) && heap.closures[c as int].callable.name_sym
        == heap.methods[id as int].signature.selector && block_at(
        heap,
        Emitted {
            code: heap.closures[c as int].callable.chunk.code@,
            constants: heap.closures[c as int].callable.chunk.constants@,
            table,
        },
        member_body(member),
        module,
    )
}

/// True when the code is that of the block, whole: its statements in
/// order, and a `Return` at the end unless the last statement is one.
pub open spec fn block_at(
    heap: HeapView,
    m: Emitted,
    statements: Seq<Statement>,
    module: usize,
) -> bool
    decreases statements, statements.len() + 1,
{
    &&& m.code.len() == block_len(statements)
    &&& stmts_at(heap, m, statements, statements.len(), module)
    &&& !ends_with_return(statements) ==> m.is_at(
        stmts_len(statements, statements.len()) as int,
        Bytecode::Return,
    )
}

/// True when the code starts with the first `n` statements of the
/// block, in order.
pub open spec fn stmts_at(
    heap: HeapView,
    m: Emitted,
    statements: Seq<Statement>,
    n: nat,
    module: usize,
) -> bool
    decreases statements, n,
{
    if n == 0 || n > statements.len() {
        true
    } else {
        stmts_at(heap, m, statements, (n - 1) as nat, module) && stmt_at(
            heap,
            m,
            stmts_len(statements, (n - 1) as nat) as int,
            statements[n - 1],
            n != statements.len(),
            module,
        )
    }
}

/// True when the heap `later` holds the methods and closures of `heap`,
/// unchanged, and maybe more.
pub open spec fn heap_extends(heap: HeapView, later: HeapView) -> bool {
    extends(heap.methods, later.methods) && extends(heap.closures, later.closures)
}

/// The value of a statement that code stands for, it still stands for
/// after more was emitted.
pub proof fn lemma_value_stays(m: Emitted, later: Emitted, at: int, value: Option<Expr>)
    requires
        m.grows_to(later),
        value_at(m, at, value),
    ensures
        value_at(later, at, value),
{
    match value {
        Some(e) => {
            lemma_expr_stays(m, later, at, e);
        },
        None => {},
    }
}

/// Code that stands for a statement still does after more was emitted
/// and more was put on the heap.
pub proof fn lemma_stmt_stays(
    heap: HeapView,
    heap2: HeapView,
    m: Emitted,
    later: Emitted,
    at: int,
    s: Statement,
    emit_pop: bool,
    module: usize,
)
    requires
        heap_extends(heap, heap2),
        m.grows_to(later),
        stmt_at(heap, m, at, s, emit_pop, module),
    ensures
        stmt_at(heap2, later, at, s, emit_pop, module),
    decreases s, 0nat,
{
    match s {
        Statement::Expr { expr, .. } => {
            lemma_expr_stays(m, later, at, expr);
        },
        Statement::Let(b) => {
            lemma_value_stays(m, later, at, b.value);
        },
        Statement::Return(r) => {
            lemma_value_stays(m, later, at, r.value);
        },
        Statement::Class(d) => {
            lemma_members_stay(heap, heap2, m, later, at + 2, d.members@, d.members@.len(), module);
        },
    }
}

/// Code that stands for members still does after more was emitted and
/// more was put on the heap.
pub proof fn lemma_members_stay(
    heap: HeapView,
    heap2: HeapView,
    m: Emitted,
    later: Emitted,
    at: int,
    members: Seq<ClassMember>,
    n: nat,
    module: usize,
)
    requires
        heap_extends(heap, heap2),
        m.grows_to(later),
        members_at(heap, m, at, members, n, module),
    ensures
        members_at(heap2, later, at, members, n, module),
    decreases members, n,
{
    if n == 0 || n > members.len() {
    } else {
        lemma_members_stay(heap, heap2, m, later, at, members, (n - 1) as nat, module);
        lemma_member_stays(heap, heap2, m, later, at + 2 * (n - 1), members[n - 1], module);
    }
}

/// Code that stands for a member still does after more was emitted and
/// more was put on the heap.
pub proof fn lemma_member_stays(
    heap: HeapView,
    heap2: HeapView,
    m: Emitted,
    later: Emitted,
    at: int,
    member: ClassMember,
    module: usize,
)
    requires
        heap_extends(heap, heap2),
        m.grows_to(later),
        member_at(heap, m, at, member, module),
    ensures
        member_at(heap2, later, at, member, module),
    decreases member, 2nat,
{
    let i = m.code[at]->Constant_0;
    let id = m.constants[i as int]->Method_0;
    lemma_method_stays(heap, heap2, m.table, later.table, id, member, module);
}

/// A method that was compiled from a member still is after more symbols
/// were interned and more was put on the heap.
pub proof fn lemma_method_stays(
    heap: HeapView,
    heap2: HeapView,
    table: Seq<Seq<char>>,
    table2: Seq<Seq<char>>,
    id: usize,
    member: ClassMember,
    module: usize,
)
    requires
        heap_extends(heap, heap2),
        extends(table, table2),
        method_for(heap, table, id, member, module),
    ensures
        method_for(heap2, table2, id, member, module),
    decreases member, 1nat,
{
    let c = heap.methods[id as int].kind->Closure_0;
    let chunk = heap.closures[c as int].callable.chunk;
    lemma_block_stays(
        heap,
        heap2,
        Emitted { code: chunk.code@, constants: chunk.constants@, table },
        Emitted { code: chunk.code@, constants: chunk.constants@, table: table2 },
        member_body(member),
        module,
    );
}

/// Code that is that of a block still is after more symbols were
/// interned and more was put on the heap.
pub proof fn lemma_block_stays(
    heap: HeapView,
    heap2: HeapView,
    m: Emitted,
    later: Emitted,
    statements: Seq<Statement>,
    module: usize,
)
    requires
        heap_extends(heap, heap2),
        m.grows_to(later),
        later.code.len() == m.code.len(),
        block_at(heap, m, statements, module),
    ensures
        block_at(heap2, later, statements, module),
    decreases statements, statements.len() + 1,
{
    lemma_stmts_stay(heap, heap2, m, later, statements, statements.len(), module);
}

/// Code that starts with statements still does after more was emitted
/// and more was put on the heap.
pub proof fn lemma_stmts_stay(
    heap: HeapView,
    heap2: HeapView,
    m: Emitted,
    later: Emitted,
    statements: Seq<Statement>,
    n: nat,
    module: usize,
)
    requires
        heap_extends(heap, heap2),
        m.grows_to(later),
        stmts_at(heap, m, statements, n, module),
    ensures
        stmts_at(heap2, later, statements, n, module),
    decreases statements, n,
{
    if n == 0 || n > statements.len() {
    } else {
        lemma_stmts_stay(heap, heap2, m, later, statements, (n - 1) as nat, module);
        lemma_stmt_stays(
            heap,
            heap2,
            m,
            later,
            stmts_len(statements, (n - 1) as nat) as int,
            statements[n - 1],
            n != statements.len(),
            module,
        );
    }
}

/// More statements compile to no fewer instructions and weigh no less;
/// and where more can be compiled, fewer can.
pub proof fn lemma_stmts_grow(statements: Seq<Statement>, n: nat, more: nat)
    requires
        n <= more <= statements.len(),
    ensures
        stmts_len(statements, n) <= stmts_len(statements, more),
        stmts_weight(statements, n) <= stmts_weight(statements, more),
        stmts_ok(statements, more) ==> stmts_ok(statements, n),
    decreases more,
{
    if n < more {
        lemma_stmts_grow(statements, n, (more - 1) as nat);
    }
}

/// More members weigh no less; and where more can be compiled, fewer
/// can.
pub proof fn lemma_members_grow(members: Seq<ClassMember>, n: nat, more: nat)
    requires
        n <= more <= members.len(),
    ensures
        members_weight(members, n) <= members_weight(members, more),
        members_ok(members, more) ==> members_ok(members, n),
    decreases more,
{
    if n < more {
        lemma_members_grow(members, n, (more - 1) as nat);
    }
}

/// A statement takes no more instructions than it weighs, and the
/// statements of a block together no more than the block weighs.
pub proof fn lemma_len_within_weight(statements: Seq<Statement>, n: nat)
    requires
        n <= statements.len(),
    ensures
        stmts_len(statements, n) <= stmts_weight(statements, n),
    decreases n,
{
    if n > 0 {
        lemma_len_within_weight(statements, (n - 1) as nat);
        lemma_stmt_within_weight(statements[n - 1], n != statements.len());
    }
}

/// A statement takes no more instructions than it weighs.
pub proof fn lemma_stmt_within_weight(s: Statement, emit_pop: bool)
    ensures
        stmt_len(s, emit_pop) <= stmt_weight(s),
{
    match s {
        Statement::Class(d) => {
            lemma_members_weigh(d.members@, d.members@.len());
        },
        _ => {},
    }
}

/// Each member weighs at least four.
pub proof fn lemma_members_weigh(members: Seq<ClassMember>, n: nat)
    requires
        n <= members.len(),
    ensures
        4 * n <= members_weight(members, n),
    decreases n,
{
    if n > 0 {
        lemma_members_weigh(members, (n - 1) as nat);
        match members[n - 1] {
            ClassMember::Method(d) => {
                assert(member_weight(members[n - 1]) >= 4);
            },
            ClassMember::Getter(d) => {
                assert(member_weight(members[n - 1]) >= 4);
            },
            ClassMember::Setter(d) => {
                assert(member_weight(members[n - 1]) >= 4);
            },
        }
    }
}

} // verus!
