use phalcom::ast::{
    AssignmentExpr, BinaryExpr, BinaryOp, ClassDef, ClassMember, Expr, GetterDef, LetBinding,
    MethodCallExpr, MethodDef, Program, ReturnStatement, SetterDef, Statement,
};
use phalcom::bytecode::Bytecode;
use phalcom::chunk::{Chunk, MAX_CONSTANTS};
use phalcom::compiler::{compile, compile_expr};
use phalcom::error::{CompilerError, PhError};
use phalcom::heap::OBJECT_CLASS;
use phalcom::method::{MethodKind, SignatureKind};
use phalcom::range::empty_source_range;
use phalcom::value::Value;
use phalcom::vm::VM;

fn num(n: f64) -> Expr {
    Expr::Number { value: n.to_bits(), range: empty_source_range() }
}

fn var(name: &str) -> Expr {
    Expr::Var { value: name.to_string(), range: empty_source_range() }
}

fn binary(op: BinaryOp, left: Expr, right: Expr) -> Expr {
    Expr::Binary(Box::new(BinaryExpr { op, left, right, range: empty_source_range() }))
}

fn ret(value: Expr) -> Statement {
    Statement::Return(ReturnStatement { value: Some(value), range: empty_source_range() })
}

fn expr(value: Expr) -> Statement {
    Statement::Expr { expr: value, range: empty_source_range() }
}

fn code_of(vm: &VM, closure: usize) -> Vec<Bytecode> {
    vm.heap.closure(closure).callable.chunk.code.clone()
}

fn symbol_constant(vm: &VM, closure: usize, index: u16) -> String {
    match &vm.heap.closure(closure).callable.chunk.constants[index as usize] {
        Value::Symbol(s) => vm.resolve_symbol(*s).to_string(),
        other => panic!("Expected a symbol, got {:?}", other),
    }
}

#[test]
fn operands_come_before_their_operator() {
    let mut vm = VM::new();
    let program = Program {
        statements: vec![ret(binary(
            BinaryOp::Add,
            num(1.0),
            binary(BinaryOp::Multiply, num(2.0), num(3.0)),
        ))],
    };
    let closure = compile(&mut vm, &program).unwrap();
    assert_eq!(
        code_of(&vm, closure),
        vec![
            Bytecode::Constant(0),
            Bytecode::Constant(1),
            Bytecode::Constant(2),
            Bytecode::Multiply,
            Bytecode::Add,
            Bytecode::Return,
        ]
    );
    let chunk = &vm.heap.closure(closure).callable.chunk;
    assert_eq!(chunk.constants[0], Value::Number(1.0f64.to_bits()));
    assert_eq!(chunk.constants[2], Value::Number(3.0f64.to_bits()));
    assert_eq!(chunk.spans.len(), chunk.code.len());
    let main = vm.heap.closure(closure).module;
    assert_eq!(vm.heap.module(main).name.as_str(), "<main>");
    assert_eq!(vm.module_from_str("<main>"), Some(main));
    assert_eq!(vm.resolve_symbol(vm.heap.closure(closure).callable.name_sym), "<main>");
}

#[test]
fn every_expression_statement_but_the_last_is_dropped() {
    let mut vm = VM::new();
    let program = Program { statements: vec![expr(num(1.0)), expr(num(2.0))] };
    let closure = compile(&mut vm, &program).unwrap();
    assert_eq!(
        code_of(&vm, closure),
        vec![Bytecode::Constant(0), Bytecode::Pop, Bytecode::Constant(1), Bytecode::Return]
    );
    let closure = compile(&mut vm, &Program { statements: vec![] }).unwrap();
    assert_eq!(code_of(&vm, closure), vec![Bytecode::Return]);
}

#[test]
fn bindings_and_assignments_name_their_global() {
    let mut vm = VM::new();
    let program = Program {
        statements: vec![
            Statement::Let(LetBinding {
                name: "a".to_string(),
                value: None,
                range: empty_source_range(),
            }),
            expr(Expr::Assignment(Box::new(AssignmentExpr {
                name: Box::new(var("a")),
                value: var("b"),
                range: empty_source_range(),
            }))),
            Statement::Return(ReturnStatement { value: None, range: empty_source_range() }),
        ],
    };
    let closure = compile(&mut vm, &program).unwrap();
    let code = code_of(&vm, closure);
    assert_eq!(code.len(), 7);
    assert_eq!(code[0], Bytecode::Nil);
    match code[1] {
        Bytecode::DefineGlobal(i) => assert_eq!(symbol_constant(&vm, closure, i), "a"),
        other => panic!("Expected DefineGlobal, got {:?}", other),
    }
    match code[2] {
        Bytecode::GetGlobal(i) => assert_eq!(symbol_constant(&vm, closure, i), "b"),
        other => panic!("Expected GetGlobal, got {:?}", other),
    }
    match code[3] {
        Bytecode::SetGlobal(i) => assert_eq!(symbol_constant(&vm, closure, i), "a"),
        other => panic!("Expected SetGlobal, got {:?}", other),
    }
    assert_eq!(code[4], Bytecode::Pop);
    assert_eq!(code[5], Bytecode::Nil);
    assert_eq!(code[6], Bytecode::Return);
}

#[test]
fn a_call_names_the_method_with_its_shape() {
    let mut vm = VM::new();
    let program = Program {
        statements: vec![ret(Expr::MethodCall(Box::new(MethodCallExpr {
            object: var("x"),
            method: "put".to_string(),
            args: vec![num(1.0), num(2.0)],
            range: empty_source_range(),
        })))],
    };
    let closure = compile(&mut vm, &program).unwrap();
    let code = code_of(&vm, closure);
    assert_eq!(code.len(), 5);
    match code[3] {
        Bytecode::Invoke(2, i) => assert_eq!(symbol_constant(&vm, closure, i), "put(_,_)"),
        other => panic!("Expected Invoke, got {:?}", other),
    }
}

#[test]
fn only_variables_and_fields_can_be_assigned() {
    let mut vm = VM::new();
    let program = Program {
        statements: vec![expr(Expr::Assignment(Box::new(AssignmentExpr {
            name: Box::new(num(1.0)),
            value: num(2.0),
            range: empty_source_range(),
        })))],
    };
    match compile(&mut vm, &program) {
        Err(PhError::Compile(CompilerError::InvalidAssignmentTarget)) => {}
        other => panic!("Expected an invalid target, got {:?}", other),
    }
}

fn class_with(member: ClassMember) -> Program {
    Program {
        statements: vec![Statement::Class(ClassDef {
            name: "C".to_string(),
            members: vec![member],
            range: empty_source_range(),
        })],
    }
}

#[test]
fn static_getters_and_setters_are_rejected() {
    let mut vm = VM::new();
    let getter = ClassMember::Getter(GetterDef {
        name: "g".to_string(),
        body: vec![],
        is_static: true,
        range: empty_source_range(),
    });
    match compile(&mut vm, &class_with(getter)) {
        Err(PhError::Compile(CompilerError::Message(text))) => {
            assert_eq!(text, "Static getters are not allowed.")
        }
        other => panic!("Expected a message, got {:?}", other),
    }
    let setter = ClassMember::Setter(SetterDef {
        name: "s".to_string(),
        param: "v".to_string(),
        body: vec![],
        is_static: true,
        range: empty_source_range(),
    });
    match compile(&mut vm, &class_with(setter)) {
        Err(PhError::Compile(CompilerError::Message(text))) => {
            assert_eq!(text, "Static setters are not allowed.")
        }
        other => panic!("Expected a message, got {:?}", other),
    }
}

#[test]
fn a_class_is_its_superclass_its_members_and_its_binding() {
    let mut vm = VM::new();
    let method = ClassMember::Method(MethodDef {
        name: "m".to_string(),
        params: vec!["a".to_string()],
        body: vec![ret(num(1.0))],
        is_static: true,
        range: empty_source_range(),
    });
    let closure = compile(&mut vm, &class_with(method)).unwrap();
    let code = code_of(&vm, closure);
    assert_eq!(code.len(), 6);
    let chunk = &vm.heap.closure(closure).callable.chunk;
    match code[0] {
        Bytecode::Constant(i) => assert_eq!(chunk.constants[i as usize], Value::Class(OBJECT_CLASS)),
        other => panic!("Expected Constant, got {:?}", other),
    }
    match code[1] {
        Bytecode::Class(i) => assert_eq!(symbol_constant(&vm, closure, i), "C"),
        other => panic!("Expected Class, got {:?}", other),
    }
    let method_id = match code[2] {
        Bytecode::Constant(i) => match chunk.constants[i as usize] {
            Value::Method(m) => m,
            ref other => panic!("Expected a method, got {:?}", other),
        },
        other => panic!("Expected Constant, got {:?}", other),
    };
    match code[3] {
        Bytecode::Method(i, true) => assert_eq!(symbol_constant(&vm, closure, i), "m(_)"),
        other => panic!("Expected Method, got {:?}", other),
    }
    match code[4] {
        Bytecode::DefineGlobal(i) => assert_eq!(symbol_constant(&vm, closure, i), "C"),
        other => panic!("Expected DefineGlobal, got {:?}", other),
    }
    assert_eq!(code[5], Bytecode::Return);
    let method = vm.heap.method(method_id);
    assert_eq!(method.signature.kind, SignatureKind::Method(1));
    assert_eq!(vm.resolve_symbol(method.signature.selector), "m(_)");
    assert_eq!(method.holder, None);
    let body = match method.kind {
        MethodKind::Closure(c) => c,
        other => panic!("Expected a closure, got {:?}", other),
    };
    assert_eq!(vm.heap.closure(body).module, vm.heap.closure(closure).module);
    assert_eq!(vm.heap.closure(body).callable.arity, 1);
    assert_eq!(code_of(&vm, body), vec![Bytecode::Constant(0), Bytecode::Return]);
}

#[test]
fn a_full_constant_pool_fails_the_compilation() {
    let mut vm = VM::new();
    let mut chunk = Chunk::new();
    for _ in 0..MAX_CONSTANTS {
        chunk.add_constant(Value::Nil);
    }
    assert!(!chunk.has_room());
    match compile_expr(&mut vm, &mut chunk, &num(1.0)) {
        Err(CompilerError::Message(text)) => assert_eq!(text, "Too many constants"),
        other => panic!("Expected a message, got {:?}", other),
    }
    assert_eq!(chunk.code.len(), 0);
    let mut call = MethodCallExpr {
        object: var("x"),
        method: "m".to_string(),
        args: Vec::new(),
        range: empty_source_range(),
    };
    for _ in 0..256 {
        call.args.push(Expr::Nil { range: empty_source_range() });
    }
    let mut chunk = Chunk::new();
    match compile_expr(&mut vm, &mut chunk, &Expr::MethodCall(Box::new(call))) {
        Err(CompilerError::Message(text)) => assert_eq!(text, "Too many arguments"),
        other => panic!("Expected a message, got {:?}", other),
    }
}
