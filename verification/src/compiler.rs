//! The compiler: lowers a program to the bytecode of a closure.

use vstd::prelude::*;
use crate::ast::{BinaryOp, ClassMember, Expr, MethodCallExpr, Program, Statement, UnaryOp};
use crate::error::ErrorView;
use crate::bytecode::Bytecode;
use crate::callable::Callable;
use crate::chunk::Chunk;
use crate::closure::ClosureObject;
use crate::error::{CompilerError, PhError};
use crate::heap::OBJECT_CLASS;
use crate::interner::Symbol;
use crate::lowering::{
    args_at, args_len, args_ok, block_at, call_at, call_len, call_ok, ends_with_return, expr_at,
    expr_len, expr_ok, extends, heap_extends, lemma_args_len_grows, lemma_args_prefix,
    lemma_args_stay, lemma_block_stays, lemma_expr_stays, lemma_grows, lemma_len_within_weight,
    lemma_members_grow, lemma_members_stay, lemma_members_weigh, lemma_stmts_grow,
    lemma_stmts_stay, lemma_value_stays, member_at, member_ok, member_weight, members_at,
    members_ok, members_weight, method_for, stmt_at, stmt_len, stmt_ok, stmt_weight, stmts_at,
    stmts_len, stmts_ok, stmts_weight, value_at, value_len, value_ok, Emitted,
};
use crate::method::{make_signature, MethodKind, MethodObject, SignatureKind};
use crate::range::SourceRange;
use crate::value::{ClosureId, ModuleId, Value};
use crate::vm::VM;

verus! {

/// The instruction of a binary operator.
pub open spec fn binary_instruction(op: BinaryOp) -> Bytecode {
    match op {
        BinaryOp::Add => Bytecode::Add,
        BinaryOp::Subtract => Bytecode::Subtract,
        BinaryOp::Multiply => Bytecode::Multiply,
        BinaryOp::Divide => Bytecode::Divide,
        BinaryOp::Modulo => Bytecode::Modulo,
        BinaryOp::Equal => Bytecode::Equal,
        BinaryOp::NotEqual => Bytecode::NotEqual,
        BinaryOp::LessThan => Bytecode::Less,
        BinaryOp::LessThanOrEqual => Bytecode::LessEqual,
        BinaryOp::GreaterThan => Bytecode::Greater,
        BinaryOp::GreaterThanOrEqual => Bytecode::GreaterEqual,
        BinaryOp::And => Bytecode::And,
        BinaryOp::Or => Bytecode::Or,
    }
}

/// The instruction of a unary operator.
pub open spec fn unary_instruction(op: UnaryOp) -> Bytecode {
    match op {
        UnaryOp::Negate => Bytecode::Negate,
        UnaryOp::Not => Bytecode::Not,
    }
}

pub fn binary_opcode(op: BinaryOp) -> (b: Bytecode)
    ensures
        b == binary_instruction(op),
{
    match op {
        BinaryOp::Add => Bytecode::Add,
        BinaryOp::Subtract => Bytecode::Subtract,
        BinaryOp::Multiply => Bytecode::Multiply,
        BinaryOp::Divide => Bytecode::Divide,
        BinaryOp::Modulo => Bytecode::Modulo,
        BinaryOp::Equal => Bytecode::Equal,
        BinaryOp::NotEqual => Bytecode::NotEqual,
        BinaryOp::LessThan => Bytecode::Less,
        BinaryOp::LessThanOrEqual => Bytecode::LessEqual,
        BinaryOp::GreaterThan => Bytecode::Greater,
        BinaryOp::GreaterThanOrEqual => Bytecode::GreaterEqual,
        BinaryOp::And => Bytecode::And,
        BinaryOp::Or => Bytecode::Or,
    }
}

pub fn unary_opcode(op: UnaryOp) -> (b: Bytecode)
    ensures
        b == unary_instruction(op),
{
    match op {
        UnaryOp::Negate => Bytecode::Negate,
        UnaryOp::Not => Bytecode::Not,
    }
}

/// What compiling leaves alone: the stacks, the registry, what the
/// evaluator waits for, and the classes and instances of the heap.
pub open spec fn compiled_on(pre: VM, post: VM) -> bool {
    &&& post.frames@ == pre.frames@
    &&& post.stack@ == pre.stack@
    &&& post.modules@ == pre.modules@
    &&& post.classes@ == pre.classes@
    &&& post.universe == pre.universe
    &&& post.selectors == pre.selectors
    &&& post.core_module == pre.core_module
    &&& post.pending@ == pre.pending@
    &&& post.heap@.classes == pre.heap@.classes
    &&& post.heap@.instances == pre.heap@.instances
    &&& post.heap@.modules == pre.heap@.modules
    &&& pre.heap@.closures.len() <= post.heap@.closures.len()
    &&& pre.heap@.methods.len() <= post.heap@.methods.len()
    &&& pre.interner@.len() <= post.interner@.len()
}

/// The code of a chunk, read with the strings of a runtime's interner.
pub open spec fn emitted(chunk: Chunk, vm: VM) -> Emitted {
    Emitted { code: chunk.code@, constants: chunk.constants@, table: vm.interner@ }
}

/// True when a constant pool that holds `constants` values and an
/// interner that holds `symbols` strings both have room for `n` more.
pub open spec fn room(constants: nat, symbols: nat, n: nat) -> bool {
    constants + n <= crate::chunk::MAX_CONSTANTS && symbols + n <= crate::interner::MAX_SYMBOLS
}

/// The instructions whose one operand is a name.
#[derive(Debug, Clone, Copy, PartialEq, Eq, Structural)]
pub enum NamedOp {
    DefineGlobal,
    GetGlobal,
    SetGlobal,
    GetField,
    SetField,
    GetProperty,
    SetProperty,
    Class,
}

/// True when the instruction at `at` is the given one and names `name`.
pub open spec fn named_at(m: Emitted, at: int, which: NamedOp, name: Seq<char>) -> bool {
    match which {
        NamedOp::DefineGlobal => m.define_global_at(at, name),
        NamedOp::GetGlobal => m.get_global_at(at, name),
        NamedOp::SetGlobal => m.set_global_at(at, name),
        NamedOp::GetField => m.get_field_at(at, name),
        NamedOp::SetField => m.set_field_at(at, name),
        NamedOp::GetProperty => m.get_property_at(at, name),
        NamedOp::SetProperty => m.set_property_at(at, name),
        NamedOp::Class => m.class_at(at, name),
    }
}

fn add_value(chunk: &mut Chunk, value: Value) -> (r: Result<u16, CompilerError>)
    ensures
        final(chunk).code == old(chunk).code,
        final(chunk).spans == old(chunk).spans,
        match r {
            Ok(index) => old(chunk).constants@.len() < crate::chunk::MAX_CONSTANTS && index == old(chunk).constants@.len() && final(chunk).constants@ == old(chunk).constants@.push(value),
            Err(e) => old(chunk).constants@.len() >= crate::chunk::MAX_CONSTANTS && final(chunk).constants@ == old(chunk).constants@ && e is Message,
        },
{
    if chunk.has_room() {
        Ok(chunk.add_constant(value))
    } else {
        Err(CompilerError::Message("Too many constants".to_owned()))
    }
}

fn add_name(vm: &mut VM, chunk: &mut Chunk, name: &str) -> (r: Result<u16, CompilerError>)
    requires
        old(vm).wf(),
    ensures
        final(vm).wf(),
        compiled_on(*old(vm), *final(vm)),
        final(vm).heap@ == old(vm).heap@,
        final(chunk).code == old(chunk).code,
        final(chunk).spans == old(chunk).spans,
        emitted(*old(chunk), *old(vm)).grows_to(emitted(*final(chunk), *final(vm))),
        final(chunk).constants@.len() <= old(chunk).constants@.len() + 1,
        final(vm).interner@.len() <= old(vm).interner@.len() + 1,
        match r {
            Ok(index) => emitted(*final(chunk), *final(vm)).names_at(index, name@),
            Err(e) => !room(old(chunk).constants@.len(), old(vm).interner@.len(), 1) && e is Message,
        },
{
    match vm.try_intern(name) {
        Some(symbol) => add_value(chunk, Value::Symbol(symbol)),
        None => Err(CompilerError::Message("Too many symbols".to_owned())),
    }
}

fn emit_named(
    vm: &mut VM,
    chunk: &mut Chunk,
    name: &str,
    range: SourceRange,
    which: NamedOp,
) -> (r: Result<(), CompilerError>)
    requires
        old(vm).wf(),
    ensures
        final(vm).wf(),
        compiled_on(*old(vm), *final(vm)),
        final(vm).heap@ == old(vm).heap@,
        emitted(*old(chunk), *old(vm)).grows_to(emitted(*final(chunk), *final(vm))),
        final(chunk).constants@.len() <= old(chunk).constants@.len() + 1,
        final(vm).interner@.len() <= old(vm).interner@.len() + 1,
        match r {
            Ok(_) => final(chunk).code@.len() == old(chunk).code@.len() + 1 && named_at(
                emitted(*final(chunk), *final(vm)),
                old(chunk).code@.len() as int,
                which,
                name@,
            ),
            Err(e) => !room(old(chunk).constants@.len(), old(vm).interner@.len(), 1) && e is Message,
        },
{
    let index = add_name(vm, chunk, name)?;
    let op = match which {
        NamedOp::DefineGlobal => Bytecode::DefineGlobal(index),
        NamedOp::GetGlobal => Bytecode::GetGlobal(index),
        NamedOp::SetGlobal => Bytecode::SetGlobal(index),
        NamedOp::GetField => Bytecode::GetField(index),
        NamedOp::SetField => Bytecode::SetField(index),
        NamedOp::GetProperty => Bytecode::GetProperty(index),
        NamedOp::SetProperty => Bytecode::SetProperty(index),
        NamedOp::Class => Bytecode::Class(index),
    };
    chunk.add_instruction(op, range);
    Ok(())
}

fn emit(chunk: &mut Chunk, Ghost(vm): Ghost<VM>, op: Bytecode, range: SourceRange)
    ensures
        final(chunk).code@ == old(chunk).code@.push(op),
        final(chunk).constants@ == old(chunk).constants@,
        emitted(*old(chunk), vm).grows_to(emitted(*final(chunk), vm)),
        emitted(*final(chunk), vm).is_at(old(chunk).code@.len() as int, op),
{
    chunk.add_instruction(op, range);
}

/// Compiles an expression: afterwards the code leaves the value of the
/// expression on the stack.
///
/// Succeeds on an expression that can be compiled if the constant pool
/// and the interner have room for as many entries as the expression has
/// instructions.
#[verifier::rlimit(50)]
pub fn compile_expr(vm: &mut VM, chunk: &mut Chunk, expr: &Expr) -> (r: Result<(), CompilerError>)
    requires
        old(vm).wf(),
    ensures
        final(vm).wf(),
        compiled_on(*old(vm), *final(vm)),
        final(vm).heap@ == old(vm).heap@,
        emitted(*old(chunk), *old(vm)).grows_to(emitted(*final(chunk), *final(vm))),
        final(chunk).constants@.len() <= old(chunk).constants@.len() + expr_len(*expr),
        final(vm).interner@.len() <= old(vm).interner@.len() + expr_len(*expr),
        match r {
            Ok(_) => expr_ok(*expr) && final(chunk).code@.len() == old(chunk).code@.len()
                + expr_len(*expr) && expr_at(
                emitted(*final(chunk), *final(vm)),
                old(chunk).code@.len() as int,
                *expr,
            ),
            Err(e) => if expr_ok(*expr) {
                !room(old(chunk).constants@.len(), old(vm).interner@.len(), expr_len(*expr)) && e is Message
            } else {
                e is Message || e is InvalidAssignmentTarget
            },
        },
    decreases expr,
{
    let ghost start = chunk.code@.len() as int;
    let ghost m0 = emitted(*chunk, *vm);
    match expr {
        Expr::Number { value, range } => {
            let index = add_value(chunk, Value::Number(*value))?;
            emit(chunk, Ghost(*vm), Bytecode::Constant(index), *range);
            Ok(())
        },
        Expr::String { value, range } => {
            let index = add_value(chunk, Value::string_from_str(value.as_str()))?;
            emit(chunk, Ghost(*vm), Bytecode::Constant(index), *range);
            Ok(())
        },
        Expr::Boolean { value, range } => {
            if *value {
                emit(chunk, Ghost(*vm), Bytecode::True, *range);
            } else {
                emit(chunk, Ghost(*vm), Bytecode::False, *range);
            }
            Ok(())
        },
        Expr::Nil { range } => {
            emit(chunk, Ghost(*vm), Bytecode::Nil, *range);
            Ok(())
        },
        Expr::Var { value, range } => emit_named(
            vm,
            chunk,
            value.as_str(),
            *range,
            NamedOp::GetGlobal,
        ),
        Expr::Field { value, range } => {
            emit(chunk, Ghost(*vm), Bytecode::GetSelf, *range);
            let ghost m1 = emitted(*chunk, *vm);
            let r = emit_named(vm, chunk, value.as_str(), *range, NamedOp::GetField);
            proof {
                lemma_grows(m0, m1, emitted(*chunk, *vm));
            }
            r
        },
        Expr::SelfVar { range } => {
            emit(chunk, Ghost(*vm), Bytecode::GetSelf, *range);
            Ok(())
        },
        Expr::SuperVar { range } => {
            emit(chunk, Ghost(*vm), Bytecode::Nil, *range);
            Ok(())
        },
        Expr::Assignment(assign) => {
            match &*assign.name {
                Expr::Var { value, range } => {
                    compile_expr(vm, chunk, &assign.value)?;
                    let ghost m1 = emitted(*chunk, *vm);
                    let r = emit_named(vm, chunk, value.as_str(), assign.range, NamedOp::SetGlobal);
                    proof {
                        let m2 = emitted(*chunk, *vm);
                        lemma_grows(m0, m1, m2);
                        lemma_expr_stays(m1, m2, start, assign.value);
                    }
                    r
                },
                Expr::Field { value, range } => {
                    emit(chunk, Ghost(*vm), Bytecode::GetSelf, *range);
                    let ghost m1 = emitted(*chunk, *vm);
                    let inner = compile_expr(vm, chunk, &assign.value);
                    let ghost m2 = emitted(*chunk, *vm);
                    proof {
                        lemma_grows(m0, m1, m2);
                    }
                    inner?;
                    let r = emit_named(vm, chunk, value.as_str(), assign.range, NamedOp::SetField);
                    proof {
                        let m3 = emitted(*chunk, *vm);
                        lemma_grows(m0, m2, m3);
                        lemma_expr_stays(m2, m3, start + 1, assign.value);
                    }
                    r
                },
                _ => {
                    compile_expr(vm, chunk, &assign.value)?;
                    Err(CompilerError::InvalidAssignmentTarget)
                },
            }
        },
        Expr::Unary(unary) => {
            compile_expr(vm, chunk, &unary.expr)?;
            let ghost m1 = emitted(*chunk, *vm);
            emit(chunk, Ghost(*vm), unary_opcode(unary.op), unary.range);
            proof {
                let m2 = emitted(*chunk, *vm);
                lemma_grows(m0, m1, m2);
                lemma_expr_stays(m1, m2, start, unary.expr);
            }
            Ok(())
        },
        Expr::Binary(binary) => {
            compile_expr(vm, chunk, &binary.left)?;
            let ghost m1 = emitted(*chunk, *vm);
            let right = compile_expr(vm, chunk, &binary.right);
            let ghost m2 = emitted(*chunk, *vm);
            proof {
                lemma_grows(m0, m1, m2);
            }
            right?;
            emit(chunk, Ghost(*vm), binary_opcode(binary.op), binary.range);
            proof {
                let m3 = emitted(*chunk, *vm);
                lemma_grows(m0, m2, m3);
                lemma_grows(m1, m2, m3);
                lemma_expr_stays(m1, m3, start, binary.left);
                lemma_expr_stays(m2, m3, start + expr_len(binary.left), binary.right);
            }
            Ok(())
        },
        Expr::MethodCall(call) => compile_call(vm, chunk, call),
        Expr::GetProperty(get) => {
            compile_expr(vm, chunk, &get.object)?;
            let ghost m1 = emitted(*chunk, *vm);
            let r = emit_named(vm, chunk, get.property.as_str(), get.range, NamedOp::GetProperty);
            proof {
                let m2 = emitted(*chunk, *vm);
                lemma_grows(m0, m1, m2);
                lemma_expr_stays(m1, m2, start, get.object);
            }
            r
        },
        Expr::SetProperty(set) => {
            compile_expr(vm, chunk, &set.object)?;
            let ghost m1 = emitted(*chunk, *vm);
            let value = compile_expr(vm, chunk, &set.value);
            let ghost m2 = emitted(*chunk, *vm);
            proof {
                lemma_grows(m0, m1, m2);
            }
            value?;
            let r = emit_named(vm, chunk, set.property.as_str(), set.range, NamedOp::SetProperty);
            proof {
                let m3 = emitted(*chunk, *vm);
                lemma_grows(m0, m2, m3);
                lemma_grows(m1, m2, m3);
                lemma_expr_stays(m1, m3, start, set.object);
                lemma_expr_stays(m2, m3, start + expr_len(set.object), set.value);
            }
            r
        },
    }
}

/// Compiles a call: the receiver, the arguments, and the invocation.
#[verifier::rlimit(60)]
fn compile_call(vm: &mut VM, chunk: &mut Chunk, call: &MethodCallExpr) -> (r: Result<
    (),
    CompilerError,
>)
    requires
        old(vm).wf(),
    ensures
        final(vm).wf(),
        compiled_on(*old(vm), *final(vm)),
        final(vm).heap@ == old(vm).heap@,
        emitted(*old(chunk), *old(vm)).grows_to(emitted(*final(chunk), *final(vm))),
        final(chunk).constants@.len() <= old(chunk).constants@.len() + call_len(*call),
        final(vm).interner@.len() <= old(vm).interner@.len() + call_len(*call),
        match r {
            Ok(_) => call_ok(*call) && final(chunk).code@.len() == old(chunk).code@.len()
                + call_len(*call) && call_at(
                emitted(*final(chunk), *final(vm)),
                old(chunk).code@.len() as int,
                *call,
            ),
            Err(e) => if call_ok(*call) {
                !room(old(chunk).constants@.len(), old(vm).interner@.len(), call_len(*call)) && e is Message
            } else {
                e is Message || e is InvalidAssignmentTarget
            },
        },
    decreases call,
{
    let ghost start = chunk.code@.len() as int;
    let ghost m0 = emitted(*chunk, *vm);
    proof {
        lemma_args_len_grows(call.args@, 0, call.args@.len());
    }
        compile_expr(vm, chunk, &call.object)?;
        let count = call.args.len();
        if count > 255 {
            return Err(CompilerError::Message("Too many arguments".to_owned()));
        }
        let ghost base = start + expr_len(call.object);
        let mut i: usize = 0;
        while i < count
            invariant
                vm.wf(),
                compiled_on(*old(vm), *vm),
                vm.heap@ == old(vm).heap@,
                count == call.args@.len(),
                i <= count,
                m0 == emitted(*old(chunk), *old(vm)),
                start == old(chunk).code@.len(),
                base == start + expr_len(call.object),
                m0.grows_to(emitted(*chunk, *vm)),
                expr_ok(call.object),
                args_ok(call.args@, i as nat),
                chunk.code@.len() == base + args_len(call.args@, i as nat),
                expr_at(emitted(*chunk, *vm), start, call.object),
                args_at(emitted(*chunk, *vm), base, call.args@, i as nat),
                chunk.constants@.len() <= old(chunk).constants@.len() + expr_len(call.object)
                    + args_len(call.args@, i as nat),
                vm.interner@.len() <= old(vm).interner@.len() + expr_len(call.object)
                    + args_len(call.args@, i as nat),
            decreases count - i,
        {
            let ghost m1 = emitted(*chunk, *vm);
            let one = compile_expr(vm, chunk, &call.args[i]);
            proof {
                let m2 = emitted(*chunk, *vm);
                lemma_grows(m0, m1, m2);
                lemma_expr_stays(m1, m2, start, call.object);
                lemma_args_stay(m1, m2, base, call.args@, i as nat);
                lemma_args_prefix(call.args@, (i + 1) as nat, count as nat);
                lemma_args_len_grows(call.args@, (i + 1) as nat, count as nat);
            }
            one?;
            i += 1;
        }
        let selector = make_signature(call.method.as_str(), SignatureKind::Method(count as u8));
        let ghost m1 = emitted(*chunk, *vm);
        let named = add_name(vm, chunk, selector.as_str());
        let ghost m2 = emitted(*chunk, *vm);
        proof {
            lemma_grows(m0, m1, m2);
        }
        let index = named?;
        emit(chunk, Ghost(*vm), Bytecode::Invoke(count as u8, index), call.range);
        proof {
            let m3 = emitted(*chunk, *vm);
            lemma_grows(m0, m2, m3);
            lemma_grows(m1, m2, m3);
            lemma_expr_stays(m1, m3, start, call.object);
            lemma_args_stay(m1, m3, base, call.args@, count as nat);
        }
        Ok(())
}

/// The code of a closure of the heap, read with the given strings.
pub open spec fn closure_code(heap: crate::heap::HeapView, table: Seq<Seq<char>>, closure: ClosureId) -> Emitted {
    Emitted {
        code: heap.closures[closure as int].callable.chunk.code@,
        constants: heap.closures[closure as int].callable.chunk.constants@,
        table,
    }
}

/// What a compilation of a block or a statement does to the runtime
/// besides the code it emits: it adds methods and closures to the heap
/// and strings to the interner, and leaves everything else alone.
pub open spec fn compiled_more(pre: VM, post: VM) -> bool {
    &&& compiled_on(pre, post)
    &&& heap_extends(pre.heap@, post.heap@)
    &&& extends(pre.interner@, post.interner@)
}

fn compile_value(vm: &mut VM, chunk: &mut Chunk, value: &Option<Expr>, range: SourceRange) -> (r:
    Result<(), CompilerError>)
    requires
        old(vm).wf(),
    ensures
        final(vm).wf(),
        compiled_on(*old(vm), *final(vm)),
        final(vm).heap@ == old(vm).heap@,
        emitted(*old(chunk), *old(vm)).grows_to(emitted(*final(chunk), *final(vm))),
        final(chunk).constants@.len() <= old(chunk).constants@.len() + value_len(*value),
        final(vm).interner@.len() <= old(vm).interner@.len() + value_len(*value),
        match r {
            Ok(_) => value_ok(*value) && final(chunk).code@.len() == old(chunk).code@.len()
                + value_len(*value) && value_at(
                emitted(*final(chunk), *final(vm)),
                old(chunk).code@.len() as int,
                *value,
            ),
            Err(e) => if value_ok(*value) {
                !room(old(chunk).constants@.len(), old(vm).interner@.len(), value_len(*value))
                    && e is Message
            } else {
                e is Message || e is InvalidAssignmentTarget
            },
        },
{
    match value {
        Some(expr) => compile_expr(vm, chunk, expr),
        None => {
            emit(chunk, Ghost(*vm), Bytecode::Nil, range);
            Ok(())
        },
    }
}

/// Compiles the body of a method into a closure of its own, owned by
/// `module`, and puts the closure on the heap.
///
/// Succeeds on statements that can be compiled if a constant pool and
/// the interner have room for as many entries as the statements weigh.
pub fn compile_block(
    vm: &mut VM,
    module: ModuleId,
    statements: &Vec<Statement>,
    name_sym: Symbol,
    arity: usize,
) -> (r: Result<ClosureId, CompilerError>)
    requires
        old(vm).wf(),
        module < old(vm).heap@.modules.len(),
    ensures
        final(vm).wf(),
        compiled_more(*old(vm), *final(vm)),
        final(vm).interner@.len() <= old(vm).interner@.len() + stmts_weight(
            statements@,
            statements@.len(),
        ),
        match r {
            Ok(closure) => {
                &&& stmts_ok(statements@, statements@.len())
                &&& closure < final(vm).heap@.closures.len()
                &&& old(vm).heap@.closures.len() <= closure
                &&& final(vm).heap@.closures[closure as int].module == module
                &&& final(vm).heap@.closures[closure as int].callable.arity == arity
                &&& final(vm).heap@.closures[closure as int].callable.name_sym == name_sym
                &&& block_at(
                    final(vm).heap@,
                    closure_code(final(vm).heap@, final(vm).interner@, closure),
                    statements@,
                    module,
                )
            },
            Err(e) => if stmts_ok(statements@, statements@.len()) {
                !room(0, old(vm).interner@.len(), stmts_weight(statements@, statements@.len()))
                    && e is Message
            } else {
                e is Message || e is InvalidAssignmentTarget
            },
        },
    decreases statements, 0nat,
{
    let mut chunk = Chunk::new();
    let count = statements.len();
    let mut last_is_return = false;
    let mut i: usize = 0;
    while i < count
        invariant
            vm.wf(),
            compiled_more(*old(vm), *vm),
            module < vm.heap@.modules.len(),
            count == statements@.len(),
            i <= count,
            last_is_return == (i == count && ends_with_return(statements@)),
            stmts_ok(statements@, i as nat),
            chunk.code@.len() == stmts_len(statements@, i as nat),
            stmts_at(vm.heap@, emitted(chunk, *vm), statements@, i as nat, module),
            chunk.constants@.len() <= stmts_len(statements@, i as nat),
            vm.interner@.len() <= old(vm).interner@.len() + stmts_weight(statements@, i as nat),
        decreases count - i,
    {
        let is_last = i == count - 1;
        if is_last {
            if let Statement::Return(_) = &statements[i] {
                last_is_return = true;
            }
        }
        let ghost h1 = vm.heap@;
        let ghost m1 = emitted(chunk, *vm);
        let one = compile_statement_with_pop_control(
            vm,
            &mut chunk,
            module,
            &statements[i],
            !is_last,
        );
        proof {
            lemma_stmts_stay(h1, vm.heap@, m1, emitted(chunk, *vm), statements@, i as nat, module);
            lemma_stmts_grow(statements@, (i + 1) as nat, count as nat);
            lemma_len_within_weight(statements@, i as nat);
        }
        one?;
        i += 1;
    }
    proof {
        lemma_len_within_weight(statements@, count as nat);
    }
    if !last_is_return {
        let ghost before = emitted(chunk, *vm);
        emit(&mut chunk, Ghost(*vm), Bytecode::Return, crate::range::empty_source_range());
        proof {
            lemma_stmts_stay(
                vm.heap@,
                vm.heap@,
                before,
                emitted(chunk, *vm),
                statements@,
                count as nat,
                module,
            );
        }
    }
    let ghost code = emitted(chunk, *vm);
    let ghost h1 = vm.heap@;
    let closure = ClosureObject {
        callable: Callable { chunk, max_slots: 0, num_upvalues: 0, arity, name_sym },
        module,
        upvalues: Vec::new(),
    };
    let id = vm.heap.new_closure(closure);
    proof {
        lemma_stmts_stay(h1, vm.heap@, code, code, statements@, count as nat, module);
        assert(closure_code(vm.heap@, vm.interner@, id) == code);
    }
    Ok(id)
}

/// Compiles a member of a class: the body into a closure, the closure
/// into a method, and into the code of the class the two instructions
/// that push the method and attach it.
fn compile_member(vm: &mut VM, chunk: &mut Chunk, module: ModuleId, member: &ClassMember) -> (r:
    Result<(), CompilerError>)
    requires
        old(vm).wf(),
        module < old(vm).heap@.modules.len(),
    ensures
        final(vm).wf(),
        compiled_more(*old(vm), *final(vm)),
        emitted(*old(chunk), *old(vm)).grows_to(emitted(*final(chunk), *final(vm))),
        final(chunk).constants@.len() <= old(chunk).constants@.len() + 2,
        final(vm).interner@.len() <= old(vm).interner@.len() + member_weight(*member),
        match r {
            Ok(_) => member_ok(*member) && final(chunk).code@.len() == old(chunk).code@.len() + 2
                && member_at(
                final(vm).heap@,
                emitted(*final(chunk), *final(vm)),
                old(chunk).code@.len() as int,
                *member,
                module,
            ),
            Err(e) => if member_ok(*member) {
                !room(old(chunk).constants@.len(), old(vm).interner@.len(), member_weight(*member))
                    && e is Message
            } else {
                e is Message || e is InvalidAssignmentTarget
            },
        },
    decreases member, 1nat,
{
    let ghost start = chunk.code@.len() as int;
    let ghost m0 = emitted(*chunk, *vm);
    let (name, kind, arity, is_static, body, range) = match member {
        ClassMember::Method(d) => {
            let arity = d.params.len();
            if arity > 255 {
                return Err(CompilerError::Message("Too many parameters".to_owned()));
            }
            (d.name.as_str(), SignatureKind::Method(arity as u8), arity, d.is_static, &d.body, d.range)
        },
        ClassMember::Getter(d) => {
            if d.is_static {
                return Err(CompilerError::Message("Static getters are not allowed.".to_owned()));
            }
            (d.name.as_str(), SignatureKind::Getter, 0, false, &d.body, d.range)
        },
        ClassMember::Setter(d) => {
            if d.is_static {
                return Err(CompilerError::Message("Static setters are not allowed.".to_owned()));
            }
            (d.name.as_str(), SignatureKind::Setter, 1, false, &d.body, d.range)
        },
    };
    let selector = make_signature(name, kind);
    let symbol = match vm.try_intern(selector.as_str()) {
        Some(s) => s,
        None => {
            return Err(CompilerError::Message("Too many symbols".to_owned()));
        },
    };
    proof {
        lemma_stmts_grow(body@, 0, body@.len());
    }
    let closure = compile_block(vm, module, body, symbol, arity)?;
    let ghost h1 = vm.heap@;
    let method = vm.heap.new_method(MethodObject::new(symbol, kind, MethodKind::Closure(closure)));
    proof {
        let code = closure_code(h1, vm.interner@, closure);
        lemma_block_stays(h1, vm.heap@, code, code, body@, module);
        assert(method_for(vm.heap@, vm.interner@, method, *member, module));
    }
    let method_index = add_value(chunk, Value::Method(method))?;
    emit(chunk, Ghost(*vm), Bytecode::Constant(method_index), range);
    let selector_index = add_value(chunk, Value::Symbol(symbol))?;
    emit(chunk, Ghost(*vm), Bytecode::Method(selector_index, is_static), range);
    proof {
        let m3 = emitted(*chunk, *vm);
        assert(m0.grows_to(m3));
        assert(member_at(vm.heap@, m3, start, *member, module));
    }
    Ok(())
}

/// Compiles the declaration of a class.
#[verifier::rlimit(60)]
fn compile_class(vm: &mut VM, chunk: &mut Chunk, module: ModuleId, statement: &Statement) -> (r:
    Result<(), CompilerError>)
    requires
        old(vm).wf(),
        module < old(vm).heap@.modules.len(),
        *statement is Class,
    ensures
        final(vm).wf(),
        compiled_more(*old(vm), *final(vm)),
        emitted(*old(chunk), *old(vm)).grows_to(emitted(*final(chunk), *final(vm))),
        final(chunk).constants@.len() <= old(chunk).constants@.len() + stmt_len(*statement, false),
        final(vm).interner@.len() <= old(vm).interner@.len() + stmt_weight(*statement),
        match r {
            Ok(_) => stmt_ok(*statement) && final(chunk).code@.len() == old(chunk).code@.len()
                + stmt_len(*statement, false) && stmt_at(
                final(vm).heap@,
                emitted(*final(chunk), *final(vm)),
                old(chunk).code@.len() as int,
                *statement,
                false,
                module,
            ),
            Err(e) => if stmt_ok(*statement) {
                !room(old(chunk).constants@.len(), old(vm).interner@.len(), stmt_weight(*statement))
                    && e is Message
            } else {
                e is Message || e is InvalidAssignmentTarget
            },
        },
    decreases statement, 0nat,
{
    let def = match statement {
        Statement::Class(def) => def,
        _ => {
            return Ok(());
        },
    };
    let ghost start = chunk.code@.len() as int;
    let ghost m0 = emitted(*chunk, *vm);
    let ghost total = def.members@.len();
    proof {
        lemma_members_grow(def.members@, 0, total);
        lemma_members_weigh(def.members@, total);
    }
    let superclass = add_value(chunk, Value::Class(OBJECT_CLASS))?;
    emit(chunk, Ghost(*vm), Bytecode::Constant(superclass), def.range);
    let ghost m1 = emitted(*chunk, *vm);
    let named = emit_named(vm, chunk, def.name.as_str(), def.range, NamedOp::Class);
    proof {
        lemma_grows(m0, m1, emitted(*chunk, *vm));
    }
    named?;
    let count = def.members.len();
    let mut i: usize = 0;
    while i < count
        invariant
            vm.wf(),
            compiled_more(*old(vm), *vm),
            module < vm.heap@.modules.len(),
            statement matches Statement::Class(d) && d == def,
            count == def.members@.len(),
            total == count,
            i <= count,
            m0 == emitted(*old(chunk), *old(vm)),
            start == old(chunk).code@.len(),
            m0.grows_to(emitted(*chunk, *vm)),
            members_ok(def.members@, i as nat),
            chunk.code@.len() == start + 2 + 2 * i,
            emitted(*chunk, *vm).pushes_value(start, Value::Class(OBJECT_CLASS)),
            emitted(*chunk, *vm).class_at(start + 1, def.name@),
            members_at(vm.heap@, emitted(*chunk, *vm), start + 2, def.members@, i as nat, module),
            chunk.constants@.len() <= old(chunk).constants@.len() + 2 + 2 * i,
            vm.interner@.len() <= old(vm).interner@.len() + 1 + members_weight(
                def.members@,
                i as nat,
            ),
        decreases count - i,
    {
        let ghost h1 = vm.heap@;
        let ghost m2 = emitted(*chunk, *vm);
        let one = compile_member(vm, chunk, module, &def.members[i]);
        proof {
            let m3 = emitted(*chunk, *vm);
            lemma_grows(m0, m2, m3);
            lemma_members_stay(h1, vm.heap@, m2, m3, start + 2, def.members@, i as nat, module);
            lemma_members_grow(def.members@, (i + 1) as nat, count as nat);
            lemma_members_weigh(def.members@, i as nat);
        }
        one?;
        i += 1;
    }
    let ghost h2 = vm.heap@;
    let ghost m2 = emitted(*chunk, *vm);
    let r = emit_named(vm, chunk, def.name.as_str(), def.range, NamedOp::DefineGlobal);
    proof {
        let m3 = emitted(*chunk, *vm);
        lemma_grows(m0, m2, m3);
        lemma_members_stay(h2, vm.heap@, m2, m3, start + 2, def.members@, count as nat, module);
    }
    r
}

/// Compiles a statement. An expression statement leaves its value on the
/// stack unless `emit_pop` asks for it to be dropped.
///
/// Succeeds on a statement that can be compiled if the constant pool
/// and the interner have room for as many entries as the statement
/// weighs.
pub fn compile_statement_with_pop_control(
    vm: &mut VM,
    chunk: &mut Chunk,
    module: ModuleId,
    statement: &Statement,
    emit_pop: bool,
) -> (r: Result<(), CompilerError>)
    requires
        old(vm).wf(),
        module < old(vm).heap@.modules.len(),
    ensures
        final(vm).wf(),
        compiled_more(*old(vm), *final(vm)),
        emitted(*old(chunk), *old(vm)).grows_to(emitted(*final(chunk), *final(vm))),
        final(chunk).constants@.len() <= old(chunk).constants@.len() + stmt_len(
            *statement,
            emit_pop,
        ),
        final(vm).interner@.len() <= old(vm).interner@.len() + stmt_weight(*statement),
        match r {
            Ok(_) => stmt_ok(*statement) && final(chunk).code@.len() == old(chunk).code@.len()
                + stmt_len(*statement, emit_pop) && stmt_at(
                final(vm).heap@,
                emitted(*final(chunk), *final(vm)),
                old(chunk).code@.len() as int,
                *statement,
                emit_pop,
                module,
            ),
            Err(e) => if stmt_ok(*statement) {
                !room(old(chunk).constants@.len(), old(vm).interner@.len(), stmt_weight(*statement))
                    && e is Message
            } else {
                e is Message || e is InvalidAssignmentTarget
            },
        },
    decreases statement, 1nat,
{
    let ghost start = chunk.code@.len() as int;
    let ghost m0 = emitted(*chunk, *vm);
    match statement {
        Statement::Expr { expr, range } => {
            compile_expr(vm, chunk, expr)?;
            if emit_pop {
                let ghost m1 = emitted(*chunk, *vm);
                emit(chunk, Ghost(*vm), Bytecode::Pop, *range);
                proof {
                    let m2 = emitted(*chunk, *vm);
                    lemma_grows(m0, m1, m2);
                    lemma_expr_stays(m1, m2, start, *expr);
                }
            }
            Ok(())
        },
        Statement::Let(binding) => {
            compile_value(vm, chunk, &binding.value, binding.range)?;
            let ghost m1 = emitted(*chunk, *vm);
            let r = emit_named(
                vm,
                chunk,
                binding.name.as_str(),
                binding.range,
                NamedOp::DefineGlobal,
            );
            proof {
                let m2 = emitted(*chunk, *vm);
                lemma_grows(m0, m1, m2);
                lemma_value_stays(m1, m2, start, binding.value);
            }
            r
        },
        Statement::Return(ret) => {
            compile_value(vm, chunk, &ret.value, ret.range)?;
            let ghost m1 = emitted(*chunk, *vm);
            emit(chunk, Ghost(*vm), Bytecode::Return, ret.range);
            proof {
                let m2 = emitted(*chunk, *vm);
                lemma_grows(m0, m1, m2);
                lemma_value_stays(m1, m2, start, ret.value);
            }
            Ok(())
        },
        Statement::Class(_) => compile_class(vm, chunk, module, statement),
    }
}

/// Compiles a program into the entry closure of the module `<main>`,
/// which is created where it does not exist.
///
/// Succeeds on a program that can be compiled if a constant pool has
/// room for as many entries as the program weighs, and the interner for
/// one more.
pub fn compile(vm: &mut VM, program: &Program) -> (r: Result<ClosureId, PhError>)
    requires
        old(vm).wf(),
    ensures
        final(vm).wf(),
        final(vm).frames@ == old(vm).frames@,
        final(vm).stack@ == old(vm).stack@,
        final(vm).pending@ == old(vm).pending@,
        final(vm).heap@.classes == old(vm).heap@.classes,
        final(vm).heap@.instances == old(vm).heap@.instances,
        heap_extends(old(vm).heap@, final(vm).heap@),
        extends(old(vm).interner@, final(vm).interner@),
        match r {
            Ok(closure) => {
                let main = final(vm).heap@.closures[closure as int].module;
                let main_symbol = Symbol(
                    crate::interner::index_of(final(vm).interner@, "<main>"@) as u32,
                );
                &&& stmts_ok(program.statements@, program.statements@.len())
                &&& closure < final(vm).heap@.closures.len()
                &&& main < final(vm).heap@.modules.len()
                &&& crate::interner::is_interned(final(vm).interner@, "<main>"@)
                &&& final(vm).modules@.contains_key(main_symbol.0)
                &&& final(vm).modules@[main_symbol.0] == main
                &&& final(vm).heap@.closures[closure as int].callable.arity == 0
                &&& final(vm).heap@.closures[closure as int].callable.name_sym == main_symbol
                &&& block_at(
                    final(vm).heap@,
                    closure_code(final(vm).heap@, final(vm).interner@, closure),
                    program.statements@,
                    main,
                )
            },
            Err(e) => (e@ matches ErrorView::Compile(_)) && (stmts_ok(
                program.statements@,
                program.statements@.len(),
            ) ==> !room(
                0,
                old(vm).interner@.len() + 1,
                stmts_weight(program.statements@, program.statements@.len()),
            )),
        },
{
    let module = match vm.module_from_str("<main>") {
        Some(m) => m,
        None => {
            return Err(PhError::Compile(CompilerError::Message("Too many symbols".to_owned())));
        },
    };
    proof {
        vm.interner.lemma_wf_distinct();
        old(vm).interner.lemma_wf_distinct();
        crate::interner::lemma_intern_idempotent(old(vm).interner@, "<main>"@);
        let i = crate::interner::symbol_after_intern(old(vm).interner@, "<main>"@);
        assert(vm.interner@[i] == "<main>"@);
        assert(crate::interner::is_interned(vm.interner@, "<main>"@));
    }
    let ghost table1 = vm.interner@;
    let ghost heap1 = vm.heap@;
    let name = match vm.try_intern("<main>") {
        Some(s) => s,
        None => {
            return Err(PhError::Compile(CompilerError::Message("Too many symbols".to_owned())));
        },
    };
    proof {
        assert(vm.interner@ == table1);
        assert(heap_extends(old(vm).heap@, heap1));
    }
    let built = compile_block(vm, module, &program.statements, name, 0);
    proof {
        vm.interner.lemma_wf_distinct();
        crate::setup::lemma_index_stable(table1, vm.interner@, "<main>"@);
    }
    match built {
        Ok(closure) => Ok(closure),
        Err(e) => Err(PhError::Compile(e)),
    }
}

} // verus!
