use phalcom::ast::{
    AssignmentExpr, BinaryExpr, BinaryOp, Expr, GetPropertyExpr, LetBinding, Program,
    ReturnStatement, Statement, UnaryExpr, UnaryOp,
};
use phalcom::bytecode::Bytecode;
use phalcom::callable::Callable;
use phalcom::chunk::Chunk;
use phalcom::closure::ClosureObject;
use phalcom::compiler::compile;
use phalcom::error::{PhError, RuntimeError};
use phalcom::host::{HostReply, HostRequest, Outcome};
use phalcom::lexer::lex;
use phalcom::parser::{numerals, parse};
use phalcom::number::ArithOp;
use phalcom::range::empty_source_range;
use phalcom::value::Value;
use phalcom::vm::VM;

fn answer(request: HostRequest) -> HostReply {
    match request {
        HostRequest::Arithmetic { op, lhs, rhs } => {
            let a = f64::from_bits(lhs);
            let b = f64::from_bits(rhs);
            let result = match op {
                ArithOp::Add => a + b,
                ArithOp::Subtract => a - b,
                ArithOp::Multiply => a * b,
                ArithOp::Divide => a / b,
                ArithOp::Modulo => a % b,
            };
            HostReply::Number(result.to_bits())
        }
        HostRequest::ParseNumber { text } => match text.parse::<f64>() {
            Ok(n) => HostReply::Number(n.to_bits()),
            Err(_) => HostReply::Nothing,
        },
        HostRequest::FormatNumber { bits } => HostReply::Text(format!("{}", f64::from_bits(bits))),
        HostRequest::Truncate { bits } => HostReply::Count(f64::from_bits(bits) as usize),
        HostRequest::FromInteger { value } => HostReply::Number((value as f64).to_bits()),
        HostRequest::Print { text } => {
            println!("{}", text);
            HostReply::Nothing
        }
    }
}

fn drive(vm: &mut VM, first: Outcome) -> Result<Value, PhError> {
    let mut out = first;
    loop {
        match out {
            Outcome::Running => out = vm.run(10_000),
            Outcome::Waiting(request) => out = vm.resume(answer(request)),
            Outcome::Finished(value) => return Ok(value),
            Outcome::Failed(error) => return Err(error),
        }
    }
}

fn run_in(vm: &mut VM, program: Program) -> Result<Value, PhError> {
    let closure = compile(vm, &program)?;
    let module = vm.module_from_str("<main>").unwrap();
    let out = vm.run_module(module, closure, 10_000);
    drive(vm, out)
}

fn run_program(program: Program) -> Result<Value, PhError> {
    let mut vm = VM::new();
    run_in(&mut vm, program)
}

fn read(source: &str) -> Program {
    let tokens = lex(source).expect("the source lexes");
    let values: Vec<u64> = numerals(&tokens)
        .iter()
        .map(|text| text.parse::<f64>().expect("a number").to_bits())
        .collect();
    parse(&tokens, &values).expect("the source parses")
}

fn run_source(vm: &mut VM, source: &str) -> Result<Value, PhError> {
    run_in(vm, read(source))
}

fn run_test(source: &str) -> Result<Value, PhError> {
    let mut vm = VM::new();
    run_source(&mut vm, source)
}

fn number(n: f64) -> Value {
    Value::Number(n.to_bits())
}

fn num(n: f64) -> Expr {
    Expr::Number { value: n.to_bits(), range: empty_source_range() }
}

fn text(s: &str) -> Expr {
    Expr::String { value: s.to_string(), range: empty_source_range() }
}

fn boolean(b: bool) -> Expr {
    Expr::Boolean { value: b, range: empty_source_range() }
}

fn nil() -> Expr {
    Expr::Nil { range: empty_source_range() }
}

fn var(name: &str) -> Expr {
    Expr::Var { value: name.to_string(), range: empty_source_range() }
}

fn get(object: Expr, property: &str) -> Expr {
    Expr::GetProperty(Box::new(GetPropertyExpr {
        object,
        property: property.to_string(),
        range: empty_source_range(),
    }))
}

fn binary(op: BinaryOp, left: Expr, right: Expr) -> Expr {
    Expr::Binary(Box::new(BinaryExpr { op, left, right, range: empty_source_range() }))
}

fn negate(expr: Expr) -> Expr {
    Expr::Unary(Box::new(UnaryExpr { op: UnaryOp::Negate, expr, range: empty_source_range() }))
}

fn assign(name: &str, value: Expr) -> Expr {
    Expr::Assignment(Box::new(AssignmentExpr {
        name: Box::new(var(name)),
        value,
        range: empty_source_range(),
    }))
}

fn add_assign(name: &str, value: Expr) -> Expr {
    assign(name, binary(BinaryOp::Add, var(name), value))
}

fn ret(value: Expr) -> Statement {
    Statement::Return(ReturnStatement { value: Some(value), range: empty_source_range() })
}

fn ret_nothing() -> Statement {
    Statement::Return(ReturnStatement { value: None, range: empty_source_range() })
}

fn expr(value: Expr) -> Statement {
    Statement::Expr { expr: value, range: empty_source_range() }
}

fn let_(name: &str, value: Expr) -> Statement {
    Statement::Let(LetBinding {
        name: name.to_string(),
        value: Some(value),
        range: empty_source_range(),
    })
}

fn program(statements: Vec<Statement>) -> Program {
    Program { statements }
}

fn class_name(vm: &VM, value: &Value) -> String {
    match value {
        Value::Class(c) => vm.heap.class(*c).name.as_str().to_string(),
        _ => panic!("Expected Value::Class"),
    }
}

fn string_of(value: &Value) -> String {
    match value {
        Value::String(s) => s.as_str().to_string(),
        _ => panic!("Expected Value::String"),
    }
}

fn runtime_error(error: PhError) -> RuntimeError {
    match error {
        PhError::VMError { error, .. } => error,
        PhError::Runtime(error) => error,
        other => panic!("Expected a runtime error, got {:?}", other),
    }
}

#[test]
fn test_primitive_class() {
    // Number
    let mut vm = VM::new();
    let result = run_source(&mut vm, "return 123.class;").unwrap();
    match result {
        Value::Class(_) => assert_eq!(class_name(&vm, &result), "Number"),
        _ => panic!("Expected Value::Class for 123.class"),
    }
    // String
    let mut vm = VM::new();
    let result = run_source(&mut vm, "return \"abc\".class;").unwrap();
    match result {
        Value::Class(_) => assert_eq!(class_name(&vm, &result), "String"),
        _ => panic!("Expected Value::Class for string.class"),
    }
    // Boolean
    let mut vm = VM::new();
    let result = run_source(&mut vm, "return true.class;").unwrap();
    match result {
        Value::Class(_) => assert_eq!(class_name(&vm, &result), "Bool"),
        _ => panic!("Expected Value::Class for true.class"),
    }
    // Nil
    let mut vm = VM::new();
    let result = run_source(&mut vm, "return nil.class;").unwrap();
    match result {
        Value::Class(_) => assert_eq!(class_name(&vm, &result), "Nil"),
        _ => panic!("Expected Value::Class for nil.class"),
    }
}

#[test]
fn test_primitive_superclass() {
    // Number superclass
    let mut vm = VM::new();
    let result = run_source(&mut vm, "return 123.class.superclass;").unwrap();
    match result {
        Value::Class(_) => assert_eq!(class_name(&vm, &result), "Object"),
        _ => panic!("Expected Value::Class for 123.class.superclass"),
    }
    // String superclass
    let mut vm = VM::new();
    let result = run_source(&mut vm, "return \"abc\".class.superclass;").unwrap();
    match result {
        Value::Class(_) => assert_eq!(class_name(&vm, &result), "Object"),
        _ => panic!("Expected Value::Class for \"abc\".class.superclass"),
    }
}

#[test]
fn test_primitive_name() {
    // Number name
    let result = run_test("return 123.name;").unwrap();
    println!("{:?}", result);

    match result {
        Value::String(ref s) => assert_eq!(s.as_str(), "Number"),
        _ => panic!("Expected Value::String for 123.name"),
    }
    // String name
    let result = run_test("\"abc\".name;").unwrap();
    match result {
        Value::String(ref s) => assert_eq!(s.as_str(), "String"),
        _ => panic!("Expected Value::String for string.name"),
    }
}

// The class of a class is its metaclass, whose class is `Metaclass` and
// which inherits from `Class`.
#[test]
fn test_class_identity() {
    let mut vm = VM::new();
    let result = run_source(&mut vm, "return 123.class.class;").unwrap();
    println!("{:?}", result);

    match result {
        Value::Class(c) => {
            assert_eq!(class_name(&vm, &result), "Number.class");
            let above = vm.heap.class(c).class();
            assert_eq!(vm.heap.class(above).name.as_str(), "Metaclass");
            let parent = vm.heap.class(c).superclass().unwrap();
            assert_eq!(vm.heap.class(parent).name.as_str(), "Class");
        }
        _ => panic!("Expected Value::Class for 123.class.class"),
    }
    // .class.superclass should be Object
    let mut vm = VM::new();
    let result = run_source(&mut vm, "return 123.class.superclass;").unwrap();
    match result {
        Value::Class(_) => assert_eq!(class_name(&vm, &result), "Object"),
        _ => panic!("Expected Value::Class for 123.class.superclass"),
    }
}

#[test]
fn test_compile_number() {
    let result = run_test("123;").unwrap();
    assert_eq!(result, number(123.0));
}

#[test]
fn test_compile_string() {
    let result = run_test("\"hello\";").unwrap();
    assert_eq!(result, Value::string_from("hello".to_string()));
}

#[test]
fn test_compile_boolean() {
    let result = run_test("return true;").unwrap();
    assert_eq!(result, Value::Bool(true));
    let result = run_test("return false;").unwrap();
    assert_eq!(result, Value::Bool(false));
}

#[test]
fn test_compile_nil() {
    let result = run_test("return nil;").unwrap();
    assert_eq!(result, Value::Nil);
}

#[test]
fn test_compile_binary_expr() {
    let result = run_test("return 1 + 2;").unwrap();
    assert_eq!(result, number(3.0));
}

#[test]
fn test_compile_binary_mult() {
    let result = run_test("return 4 * 3;").unwrap();
    assert_eq!(result, number(12.0));
}

#[test]
fn test_compile_unary_expr() {
    let result = run_test("-10;").unwrap();
    assert_eq!(result, number(-10.0));
}

#[test]
fn test_compile_global_let() {
    let result = run_test("let a = 10; return a;").unwrap();
    assert_eq!(result, number(10.0));
}

#[test]
fn test_compile_global_assignment() {
    let result = run_test("let a = 10; a += 20; return a;").unwrap();
    assert_eq!(result, number(30.0));
}

#[test]
fn test_complex_global_assignment() {
    let source = "
            let a = 5;
            let b = 10;
            a += b; // a should be 15
            return a;           // return 15
        ";
    let result = run_test(source).unwrap();
    assert_eq!(result, number(15.0));
}

#[test]
fn test_compile_precedence() {
    let result = run_test("return 1 + 2 * 3;").unwrap();
    assert_eq!(result, number(7.0));
}

#[test]
fn test_compile_return() {
    let result = run_test("return 15; 20;").unwrap();
    assert_eq!(result, number(15.0));

    let result = run_test("return;").unwrap();
    assert_eq!(result, Value::Nil);
}

#[test]
fn test_compile_method_expr() {
    let result = run_test("return 123.class.name.class;").unwrap();
    println!("{:?}", result);
}

#[test]
fn test_compile_class_add_call() {
    let result = run_test("return 123.class + true.class;").unwrap();
    println!("{:?}", result);
    assert_eq!(string_of(&result), "NumberBool");
}

fn closure_of(vm: &mut VM, chunk: Chunk, module: usize, name: &str) -> usize {
    let name_sym = vm.get_or_intern(name);
    vm.heap.new_closure(ClosureObject {
        callable: Callable { chunk, max_slots: 0, num_upvalues: 0, arity: 0, name_sym },
        module,
        upvalues: Vec::new(),
    })
}

#[test]
fn test_vm_addition() {
    let mut vm = VM::new();
    let module = vm.module_from_str("test").unwrap();
    let mut chunk = Chunk::new();
    let string1_idx = chunk.add_constant(Value::string_from_str("hello, "));
    let string2_idx = chunk.add_constant(Value::string_from_str("world!"));
    let selector_sym = vm.interner.intern("+(_)");
    let const_selector_idx = chunk.add_constant(Value::Symbol(selector_sym));
    chunk.add_instruction(Bytecode::Constant(string1_idx), empty_source_range());
    chunk.add_instruction(Bytecode::Constant(string2_idx), empty_source_range());
    chunk.add_instruction(Bytecode::Invoke(1, const_selector_idx), empty_source_range());
    chunk.add_instruction(Bytecode::Return, empty_source_range());
    let entry = closure_of(&mut vm, chunk, module, "test_vm_addition");
    let out = vm.run_module(module, entry, 10_000);
    let result = drive(&mut vm, out).expect("VM execution failed");
    let expected = Value::string_from_str("hello, world!");
    assert_eq!(result, expected, "String addition failed");
}

#[test]
fn test_global_variable_definition_and_assignment() {
    let mut vm = VM::new();
    let module = vm.module_from_str("test_globals").unwrap();
    let mut chunk = Chunk::new();
    let x_sym = vm.interner.intern("x");
    let x_idx = chunk.add_constant(Value::Symbol(x_sym));
    let ten_idx = chunk.add_constant(number(10.0));
    chunk.add_instruction(Bytecode::Constant(ten_idx), empty_source_range());
    chunk.add_instruction(Bytecode::DefineGlobal(x_idx), empty_source_range());
    chunk.add_instruction(Bytecode::GetGlobal(x_idx), empty_source_range());
    let twenty_idx = chunk.add_constant(number(20.0));
    chunk.add_instruction(Bytecode::Constant(twenty_idx), empty_source_range());
    chunk.add_instruction(Bytecode::SetGlobal(x_idx), empty_source_range());
    chunk.add_instruction(Bytecode::GetGlobal(x_idx), empty_source_range());
    chunk.add_instruction(Bytecode::Return, empty_source_range());
    let entry = closure_of(&mut vm, chunk, module, "test_global_variable_definition_and_assignment");
    let out = vm.run_module(module, entry, 10_000);
    let result = drive(&mut vm, out).expect("VM execution failed");
    assert_eq!(result, number(20.0), "Global var assignment failed");
}

#[test]
fn scenario_class_name_of_a_number() {
    let result = run_test("return 123.class.name;").unwrap();
    assert_eq!(string_of(&result), "Number");
}

#[test]
fn scenario_string_concatenation() {
    let result = run_test("return \"ab\" + \"cd\";").unwrap();
    assert_eq!(string_of(&result), "abcd");
}

#[test]
fn scenario_division_by_zero() {
    let error = run_test("return 1 / 0;").unwrap_err();
    assert!(matches!(runtime_error(error), RuntimeError::ZeroDivision));
    let error =
        run_program(program(vec![ret(binary(BinaryOp::Modulo, num(1.0), num(-0.0)))])).unwrap_err();
    assert!(matches!(runtime_error(error), RuntimeError::ZeroDivision));
}

#[test]
fn scenario_undefined_variable() {
    let error = run_test("return x;").unwrap_err();
    let message = error.message();
    match runtime_error(error) {
        RuntimeError::UndefinedVar(name) => assert_eq!(name, "x"),
        other => panic!("Expected UndefinedVar, got {:?}", other),
    }
    assert!(message.contains("Undefined variable `x`"));
    assert!(message.contains("  at <main>\n"));
}

#[test]
fn names_of_the_classes_of_primitives() {
    let vm = VM::new();
    let cases = vec![
        (number(123.0), "Number"),
        (Value::string_from_str("s"), "String"),
        (Value::Bool(true), "Bool"),
        (Value::Nil, "Nil"),
    ];
    for (value, name) in cases {
        let class = value.class(&vm);
        assert_eq!(vm.heap.class(class).name.as_str(), name);
        assert_eq!(value.name(&vm).as_str(), name);
        assert_eq!(value.kind_name(), name);
    }
}

fn call(object: Expr, method: &str, args: Vec<Expr>) -> Expr {
    Expr::MethodCall(Box::new(phalcom::ast::MethodCallExpr {
        object,
        method: method.to_string(),
        args,
        range: empty_source_range(),
    }))
}

fn set(object: Expr, property: &str, value: Expr) -> Expr {
    Expr::SetProperty(Box::new(phalcom::ast::SetPropertyExpr {
        object,
        property: property.to_string(),
        value,
        range: empty_source_range(),
    }))
}

fn field(name: &str) -> Expr {
    Expr::Field { value: name.to_string(), range: empty_source_range() }
}

fn assign_field(name: &str, value: Expr) -> Expr {
    Expr::Assignment(Box::new(AssignmentExpr {
        name: Box::new(field(name)),
        value,
        range: empty_source_range(),
    }))
}

fn method(name: &str, params: Vec<&str>, body: Vec<Statement>, is_static: bool) -> phalcom::ast::ClassMember {
    phalcom::ast::ClassMember::Method(phalcom::ast::MethodDef {
        name: name.to_string(),
        params: params.into_iter().map(|p| p.to_string()).collect(),
        body,
        is_static,
        range: empty_source_range(),
    })
}

fn getter(name: &str, body: Vec<Statement>, is_static: bool) -> phalcom::ast::ClassMember {
    phalcom::ast::ClassMember::Getter(phalcom::ast::GetterDef {
        name: name.to_string(),
        body,
        is_static,
        range: empty_source_range(),
    })
}

fn setter(name: &str, body: Vec<Statement>, is_static: bool) -> phalcom::ast::ClassMember {
    phalcom::ast::ClassMember::Setter(phalcom::ast::SetterDef {
        name: name.to_string(),
        param: "value".to_string(),
        body,
        is_static,
        range: empty_source_range(),
    })
}

fn class(name: &str, members: Vec<phalcom::ast::ClassMember>) -> Statement {
    Statement::Class(phalcom::ast::ClassDef {
        name: name.to_string(),
        members,
        range: empty_source_range(),
    })
}

fn point_class() -> Statement {
    class(
        "Point",
        vec![
            method("seven", vec![], vec![ret(num(7.0))], false),
            method("three", vec![], vec![ret(num(3.0))], true),
            method("store", vec![], vec![expr(assign_field("x", num(5.0))), ret(field("x"))], false),
            method("me", vec![], vec![ret(Expr::SelfVar { range: empty_source_range() })], false),
            getter("answer", vec![ret(num(42.0))], false),
        ],
    )
}

#[test]
fn an_instance_method_runs_in_a_frame_of_its_own() {
    let result = run_program(program(vec![
        point_class(),
        ret(call(call(var("Point"), "new", vec![]), "seven", vec![])),
    ]))
    .unwrap();
    assert_eq!(result, number(7.0));
}

#[test]
fn a_static_method_is_found_on_the_metaclass() {
    let result =
        run_program(program(vec![point_class(), ret(call(var("Point"), "three", vec![]))])).unwrap();
    assert_eq!(result, number(3.0));
    let error = run_program(program(vec![
        point_class(),
        ret(call(call(var("Point"), "new", vec![]), "three", vec![])),
    ]))
    .unwrap_err();
    match runtime_error(error) {
        RuntimeError::Message(text) => {
            assert_eq!(text, "No method with selector 'three()' found for class 'Point'.")
        }
        other => panic!("Expected a message, got {:?}", other),
    }
}

#[test]
fn a_method_reads_and_writes_the_fields_of_its_receiver() {
    let result = run_program(program(vec![
        point_class(),
        ret(call(call(var("Point"), "new", vec![]), "store", vec![])),
    ]))
    .unwrap();
    assert_eq!(result, number(5.0));
}

#[test]
fn a_getter_is_sent_where_an_instance_has_no_such_field() {
    let result = run_program(program(vec![
        point_class(),
        ret(get(call(var("Point"), "new", vec![]), "answer")),
    ]))
    .unwrap();
    assert_eq!(result, number(42.0));
}

#[test]
fn a_property_of_an_instance_is_a_field() {
    let result = run_program(program(vec![
        point_class(),
        let_("p", call(var("Point"), "new", vec![])),
        expr(set(var("p"), "answer", num(1.0))),
        ret(get(var("p"), "answer")),
    ]))
    .unwrap();
    assert_eq!(result, number(1.0));
}

#[test]
fn self_is_the_receiver() {
    let mut vm = VM::new();
    let result = run_in(
        &mut vm,
        program(vec![
            point_class(),
            let_("p", call(var("Point"), "new", vec![])),
            ret(binary(BinaryOp::Equal, call(var("p"), "me", vec![]), var("p"))),
        ]),
    )
    .unwrap();
    assert_eq!(result, Value::Bool(true));
}

#[test]
fn a_new_class_stands_in_the_tower() {
    let mut vm = VM::new();
    let result = run_in(&mut vm, program(vec![point_class(), ret(var("Point"))])).unwrap();
    let point = match result {
        Value::Class(c) => c,
        other => panic!("Expected a class, got {:?}", other),
    };
    let class = vm.heap.class(point);
    assert_eq!(class.name.as_str(), "Point");
    assert_eq!(class.superclass(), Some(phalcom::heap::OBJECT_CLASS));
    let meta = vm.heap.class(class.class());
    assert_eq!(meta.name.as_str(), "Point.class");
    assert_eq!(meta.class(), phalcom::heap::METACLASS_CLASS);
    assert_eq!(meta.superclass(), Some(phalcom::heap::OBJECT_METACLASS));
}

#[test]
fn every_class_of_a_runtime_keeps_the_tower() {
    let mut vm = VM::new();
    run_in(&mut vm, program(vec![point_class(), ret(nil())])).unwrap();
    let count = vm.heap.classes.len();
    assert_eq!(count, phalcom::heap::CORE_CLASS_COUNT + 2);
    for c in 0..count {
        let class = vm.heap.class(c);
        assert!(!class.name.as_str().is_empty());
        let meta = vm.heap.class(class.class());
        assert_eq!(meta.class(), phalcom::heap::METACLASS_CLASS);
        let mut current = c;
        let mut steps = 0;
        while let Some(parent) = vm.heap.class(current).superclass() {
            assert!(parent < current);
            current = parent;
            steps += 1;
        }
        assert_eq!(current, phalcom::heap::OBJECT_CLASS);
        assert!(steps <= count);
        let mut above = class.class();
        while above != phalcom::heap::CLASS_CLASS {
            above = vm.heap.class(above).superclass().expect("a metaclass inherits from Class");
        }
    }
    let metaclass = vm.heap.class(phalcom::heap::METACLASS_CLASS);
    assert_eq!(metaclass.class(), phalcom::heap::METACLASS_CLASS);
    assert_eq!(metaclass.name.as_str(), "Metaclass");
}

#[test]
fn comparisons_of_numbers_are_decided_without_the_host() {
    let cases = vec![
        (BinaryOp::LessThan, 1.0, 2.0, true),
        (BinaryOp::LessThan, 2.0, 2.0, false),
        (BinaryOp::LessThanOrEqual, 2.0, 2.0, true),
        (BinaryOp::GreaterThan, -1.0, -2.0, true),
        (BinaryOp::GreaterThanOrEqual, -3.0, -2.0, false),
        (BinaryOp::Equal, 0.0, -0.0, true),
        (BinaryOp::NotEqual, 1.5, 1.5, false),
        (BinaryOp::Equal, f64::NAN, f64::NAN, false),
        (BinaryOp::NotEqual, f64::NAN, f64::NAN, true),
    ];
    for (op, a, b, expected) in cases {
        let result = run_program(program(vec![ret(binary(op, num(a), num(b)))])).unwrap();
        assert_eq!(result, Value::Bool(expected), "{:?} {} {}", op, a, b);
    }
}

#[test]
fn arithmetic_on_numbers_is_asked_of_the_host() {
    let cases = vec![
        (BinaryOp::Subtract, 10.0, 4.0, 6.0),
        (BinaryOp::Divide, 9.0, 2.0, 4.5),
        (BinaryOp::Modulo, 9.0, 4.0, 1.0),
    ];
    for (op, a, b, expected) in cases {
        let result = run_program(program(vec![ret(binary(op, num(a), num(b)))])).unwrap();
        assert_eq!(result, number(expected));
    }
    let mut vm = VM::new();
    let closure = compile(&mut vm, &program(vec![ret(binary(BinaryOp::Add, num(1.0), num(2.0)))])).unwrap();
    let module = vm.module_from_str("<main>").unwrap();
    match vm.run_module(module, closure, 100) {
        Outcome::Waiting(HostRequest::Arithmetic { op, lhs, rhs }) => {
            assert_eq!(op, ArithOp::Add);
            assert_eq!(lhs, 1.0f64.to_bits());
            assert_eq!(rhs, 2.0f64.to_bits());
        }
        other => panic!("Expected a request, got {:?}", other),
    }
    assert!(matches!(vm.step(), Outcome::Failed(_)));
}

#[test]
fn logic_works_on_booleans_only() {
    let result =
        run_program(program(vec![ret(binary(BinaryOp::And, boolean(true), boolean(false)))])).unwrap();
    assert_eq!(result, Value::Bool(false));
    let result =
        run_program(program(vec![ret(binary(BinaryOp::Or, boolean(true), boolean(false)))])).unwrap();
    assert_eq!(result, Value::Bool(true));
    let result = run_program(program(vec![ret(Expr::Unary(Box::new(UnaryExpr {
        op: UnaryOp::Not,
        expr: boolean(true),
        range: empty_source_range(),
    })))]))
    .unwrap();
    assert_eq!(result, Value::Bool(false));
    let error =
        run_program(program(vec![ret(binary(BinaryOp::And, num(1.0), boolean(false)))])).unwrap_err();
    match runtime_error(error) {
        RuntimeError::Message(text) => {
            assert_eq!(text, "Unsupported operand types for logical AND")
        }
        other => panic!("Expected a message, got {:?}", other),
    }
    let error = run_program(program(vec![ret(negate(boolean(true)))])).unwrap_err();
    assert!(matches!(runtime_error(error), RuntimeError::Message(_)));
}

#[test]
fn natives_of_number() {
    let result = run_program(program(vec![ret(call(var("Number"), "new", vec![]))])).unwrap();
    assert_eq!(result, number(0.0));
    let result = run_program(program(vec![ret(call(var("Number"), "new", vec![text("12.5")]))])).unwrap();
    assert_eq!(result, number(12.5));
    let result = run_program(program(vec![ret(call(var("Number"), "new", vec![boolean(true)]))])).unwrap();
    assert_eq!(result, number(1.0));
    let result = run_program(program(vec![ret(call(var("Number"), "new", vec![num(4.0)]))])).unwrap();
    assert_eq!(result, number(4.0));
    let error = run_program(program(vec![ret(call(var("Number"), "new", vec![text("abc")]))])).unwrap_err();
    match runtime_error(error) {
        RuntimeError::TypeConversion { expected, found } => {
            assert_eq!(expected, "number");
            assert_eq!(found, "value");
        }
        other => panic!("Expected a conversion error, got {:?}", other),
    }
    let error = run_program(program(vec![ret(call(var("Number"), "new", vec![nil()]))])).unwrap_err();
    match runtime_error(error) {
        RuntimeError::TypeConversion { expected, found } => {
            assert_eq!(expected, "number");
            assert_eq!(found, "Nil");
        }
        other => panic!("Expected a conversion error, got {:?}", other),
    }
    let result = run_program(program(vec![ret(call(num(7.0), "%", vec![num(4.0)]))])).unwrap();
    assert_eq!(result, number(3.0));
    let error = run_program(program(vec![ret(call(num(7.0), "/", vec![num(0.0)]))])).unwrap_err();
    assert!(matches!(runtime_error(error), RuntimeError::ZeroDivision));
    let error = run_program(program(vec![ret(call(num(7.0), "+", vec![text("a")]))])).unwrap_err();
    match runtime_error(error) {
        RuntimeError::Type { expected, found } => {
            assert_eq!(expected, "Number");
            assert_eq!(found, "String");
        }
        other => panic!("Expected a type error, got {:?}", other),
    }
}

#[test]
fn natives_of_string() {
    let result = run_program(program(vec![ret(call(text("ab"), "repeat", vec![num(3.0)]))])).unwrap();
    assert_eq!(string_of(&result), "ababab");
    let result = run_program(program(vec![ret(get(text("a"), "hash"))])).unwrap();
    assert_eq!(result, number(177670.0));
    let result = run_program(program(vec![ret(call(var("String"), "new", vec![]))])).unwrap();
    assert_eq!(string_of(&result), "");
    let result = run_program(program(vec![ret(call(var("String"), "new", vec![num(1.5)]))])).unwrap();
    assert_eq!(string_of(&result), "1.5");
    let result = run_program(program(vec![ret(call(var("String"), "new", vec![boolean(false)]))])).unwrap();
    assert_eq!(string_of(&result), "false");
    let result = run_program(program(vec![ret(call(var("String"), "new", vec![nil()]))])).unwrap();
    assert_eq!(string_of(&result), "nil");
    let result = run_program(program(vec![ret(call(var("String"), "new", vec![var("Number")]))])).unwrap();
    assert_eq!(string_of(&result), "<class Number>");
    let result = run_program(program(vec![
        point_class(),
        ret(call(var("String"), "new", vec![call(var("Point"), "new", vec![])])),
    ]))
    .unwrap();
    assert_eq!(string_of(&result), "Instance of Point");
    let error = run_program(program(vec![ret(binary(BinaryOp::Add, text("a"), num(1.0)))])).unwrap_err();
    assert!(matches!(runtime_error(error), RuntimeError::Type { .. }));
}

#[test]
fn natives_of_bool_nil_symbol_method_and_system() {
    let truths = vec![
        (boolean(true), true),
        (boolean(false), false),
        (nil(), false),
        (num(0.0), false),
        (num(-0.0), false),
        (num(2.0), true),
        (num(f64::NAN), true),
        (text(""), true),
    ];
    for (argument, expected) in truths {
        let result = run_program(program(vec![ret(call(var("Bool"), "new", vec![argument]))])).unwrap();
        assert_eq!(result, Value::Bool(expected));
    }
    let result = run_program(program(vec![ret(call(var("Bool"), "new", vec![]))])).unwrap();
    assert_eq!(result, Value::Bool(false));
    let result = run_program(program(vec![ret(call(var("Nil"), "new", vec![]))])).unwrap();
    assert_eq!(result, Value::Nil);

    let mut vm = VM::new();
    let result = run_in(&mut vm, program(vec![ret(call(var("Symbol"), "new", vec![text("fresh")]))])).unwrap();
    match result {
        Value::Symbol(s) => assert_eq!(vm.resolve_symbol(s), "fresh"),
        other => panic!("Expected a symbol, got {:?}", other),
    }
    let result = run_program(program(vec![ret(get(
        call(var("Symbol"), "new", vec![text("fresh")]),
        "toString",
    ))]))
    .unwrap();
    assert_eq!(string_of(&result), "fresh");
    let mut vm = VM::new();
    let result = run_in(&mut vm, program(vec![ret(call(var("Symbol"), "new", vec![num(2.0)]))])).unwrap();
    match result {
        Value::Symbol(s) => assert_eq!(vm.resolve_symbol(s), "2"),
        other => panic!("Expected a symbol, got {:?}", other),
    }

    let error = run_program(program(vec![ret(call(var("Method"), "new", vec![nil()]))])).unwrap_err();
    match runtime_error(error) {
        RuntimeError::NotAllowed(text) => {
            assert_eq!(text, "Method instances cannot be created directly")
        }
        other => panic!("Expected NotAllowed, got {:?}", other),
    }
    let error = run_program(program(vec![ret(call(var("System"), "new", vec![]))])).unwrap_err();
    match runtime_error(error) {
        RuntimeError::NotAllowed(text) => assert_eq!(text, "System instances cannot be created"),
        other => panic!("Expected NotAllowed, got {:?}", other),
    }
    let result = run_program(program(vec![ret(call(var("System"), "print", vec![num(3.0)]))])).unwrap();
    assert_eq!(result, Value::Nil);
    let result = run_program(program(vec![ret(call(var("System"), "print", vec![text("hi")]))])).unwrap();
    assert_eq!(result, Value::Nil);
}

#[test]
fn printing_asks_the_host_with_the_text() {
    let mut vm = VM::new();
    let closure =
        compile(&mut vm, &program(vec![ret(call(var("System"), "print", vec![num(3.0)]))])).unwrap();
    let module = vm.module_from_str("<main>").unwrap();
    let out = vm.run_module(module, closure, 100);
    let out = match out {
        Outcome::Waiting(HostRequest::FormatNumber { bits }) => {
            assert_eq!(bits, 3.0f64.to_bits());
            vm.resume(HostReply::Text("3".to_string()))
        }
        other => panic!("Expected a request to format, got {:?}", other),
    };
    let out = match out {
        Outcome::Waiting(HostRequest::Print { text }) => {
            assert_eq!(text, "3");
            vm.resume(HostReply::Nothing)
        }
        other => panic!("Expected a request to print, got {:?}", other),
    };
    assert!(matches!(out, Outcome::Running));
    assert!(matches!(vm.run(100), Outcome::Finished(Value::Nil)));
    assert!(matches!(vm.resume(HostReply::Nothing), Outcome::Failed(_)));
}

#[test]
fn reflective_attributes_cannot_be_assigned() {
    let error = run_program(program(vec![ret(set(var("Number"), "superclass", var("Object")))])).unwrap_err();
    assert!(matches!(runtime_error(error), RuntimeError::InvalidSetSuper));
    let error = run_program(program(vec![ret(set(num(1.0), "class", var("Object")))])).unwrap_err();
    assert!(matches!(runtime_error(error), RuntimeError::InvalidSetClass));
    let error = run_program(program(vec![ret(set(num(1.0), "nothing", nil()))])).unwrap_err();
    match runtime_error(error) {
        RuntimeError::Message(text) => assert_eq!(text, "Setter method 'nothing=(_)' not found."),
        other => panic!("Expected a message, got {:?}", other),
    }
}

#[test]
fn a_native_called_with_too_few_arguments_fails() {
    let mut vm = VM::new();
    let module = vm.module_from_str("arity").unwrap();
    let mut chunk = Chunk::new();
    let receiver = chunk.add_constant(Value::string_from_str("a"));
    let selector = vm.get_or_intern("+(_)");
    let selector = chunk.add_constant(Value::Symbol(selector));
    chunk.add_instruction(Bytecode::Constant(receiver), empty_source_range());
    chunk.add_instruction(Bytecode::Invoke(0, selector), empty_source_range());
    chunk.add_instruction(Bytecode::Return, empty_source_range());
    let entry = closure_of(&mut vm, chunk, module, "arity");
    let out = vm.run_module(module, entry, 100);
    let error = drive(&mut vm, out).unwrap_err();
    let message = error.message();
    match runtime_error(error) {
        RuntimeError::Arity { signature, expected, found } => {
            assert_eq!(signature, "+(_)");
            assert_eq!(expected, 1);
            assert_eq!(found, 0);
        }
        other => panic!("Expected an arity error, got {:?}", other),
    }
    assert!(message.starts_with("VM Error: Method +(_) expected 1 argument, got 0\nStack Trace:\n"));
}

#[test]
fn malformed_code_fails_and_does_not_panic() {
    let cases: Vec<(Vec<Bytecode>, &str)> = vec![
        (vec![Bytecode::Constant(9)], "Constant index out of bounds"),
        (vec![Bytecode::Add], "Stack underflow"),
        (vec![Bytecode::GetLocal(3)], "Local variable slot out of bounds"),
        (vec![Bytecode::Nil], "Instruction pointer out of bounds"),
        (vec![Bytecode::Nil, Bytecode::Invoke(0, 0)], "Selector must be a symbol"),
        (vec![Bytecode::Nil, Bytecode::GetField(1)], "Only instances can have fields."),
        (vec![Bytecode::Nil, Bytecode::Class(1)], "Superclass must be a class."),
        (vec![Bytecode::Nil, Bytecode::Nil, Bytecode::Method(1, false)], "Invalid types for method definition."),
        (vec![Bytecode::Constant(2), Bytecode::GetProperty(1)], "Dangling reference"),
    ];
    for (code, expected) in cases {
        let mut vm = VM::new();
        let module = vm.module_from_str("bad").unwrap();
        let mut chunk = Chunk::new();
        chunk.add_constant(Value::Nil);
        let name = vm.get_or_intern("name");
        chunk.add_constant(Value::Symbol(name));
        chunk.add_constant(Value::Instance(77));
        for op in code {
            chunk.add_instruction(op, empty_source_range());
        }
        let entry = closure_of(&mut vm, chunk, module, "bad");
        let out = vm.run_module(module, entry, 100);
        let error = drive(&mut vm, out).unwrap_err();
        match runtime_error(error) {
            RuntimeError::Message(text) => assert_eq!(text, expected),
            other => panic!("Expected a message, got {:?}", other),
        }
    }
    let mut vm = VM::new();
    assert!(matches!(vm.run_module(5, 5, 10), Outcome::Failed(_)));
}

#[test]
fn a_run_stops_when_its_fuel_is_spent() {
    let mut vm = VM::new();
    let closure = compile(&mut vm, &program(vec![expr(nil()), expr(nil()), ret(boolean(true))])).unwrap();
    let module = vm.module_from_str("<main>").unwrap();
    assert!(matches!(vm.run_module(module, closure, 2), Outcome::Running));
    assert!(matches!(vm.run(0), Outcome::Running));
    assert!(matches!(vm.run(1), Outcome::Running));
    assert!(matches!(vm.run(1), Outcome::Running));
    assert!(matches!(vm.run(5), Outcome::Finished(Value::Bool(true))));
    assert_eq!(vm.stack.len(), 0);
    assert_eq!(vm.frames.len(), 0);
}

#[test]
fn after_a_return_the_stack_is_one_above_the_window_of_the_callee() {
    let mut vm = VM::new();
    let closure = compile(
        &mut vm,
        &program(vec![
            point_class(),
            expr(num(1.0)),
            ret(call(call(var("Point"), "new", vec![]), "seven", vec![])),
        ]),
    )
    .unwrap();
    let module = vm.module_from_str("<main>").unwrap();
    let mut out = vm.run_module(module, closure, 0);
    let mut deepest = 0;
    let mut offset_of_callee = 0;
    let mut seen = false;
    loop {
        match out {
            Outcome::Running => {
                let depth = vm.frames.len();
                if depth == 2 {
                    deepest = 2;
                    offset_of_callee = vm.frames[1].stack_offset;
                }
                if deepest == 2 && depth == 1 && !seen {
                    assert_eq!(vm.stack.len(), offset_of_callee + 1);
                    seen = true;
                }
                out = vm.step();
            }
            Outcome::Finished(value) => {
                assert_eq!(value, number(7.0));
                break;
            }
            other => panic!("Unexpected outcome {:?}", other),
        }
    }
    assert!(seen);
    assert!(vm.stack.is_empty());
    assert!(vm.frames.is_empty());
}

#[test]
fn the_core_module_backs_every_module() {
    let mut vm = VM::new();
    let result = run_in(&mut vm, program(vec![ret(var("core"))])).unwrap();
    assert_eq!(result, Value::Module(vm.core_module));
    let mut vm = VM::new();
    let result = run_in(&mut vm, program(vec![let_("Number", num(1.0)), ret(var("Number"))])).unwrap();
    assert_eq!(result, number(1.0));
    let error = run_program(program(vec![expr(assign("missing", num(1.0)))])).unwrap_err();
    match runtime_error(error) {
        RuntimeError::UndefinedVar(name) => assert_eq!(name, "missing"),
        other => panic!("Expected UndefinedVar, got {:?}", other),
    }
}

#[test]
fn a_trace_names_the_frames_innermost_first() {
    let error = run_program(program(vec![
        class(
            "Broken",
            vec![
                method("fail", vec![], vec![ret(var("nowhere"))], false),
                method("start", vec![], vec![ret(call(var("Broken"), "fail", vec![]))], true),
            ],
        ),
        ret(call(call(var("Broken"), "new", vec![]), "fail", vec![])),
    ]))
    .unwrap_err();
    match error {
        PhError::VMError { error, stack_trace } => {
            assert!(matches!(error, RuntimeError::UndefinedVar(_)));
            assert_eq!(
                stack_trace,
                "Error: Undefined variable `nowhere`\n  at Broken::fail() in <main>\n  at <main>\n"
            );
        }
        other => panic!("Expected a traced error, got {:?}", other),
    }
}

#[test]
fn a_class_written_in_source_runs() {
    let source = "
        class Counter {
            count { return @count }
            count=(value) { @count = value }
            bump() {
                @count = @count + 1
                return self
            }
            static start() {
                let c = Counter.new()
                c.count = 40
                return c
            }
        }
        let counter = Counter.start()
        counter.bump().bump()
        return counter.count
    ";
    let result = run_test(source).unwrap();
    assert_eq!(result, number(42.0));
}

#[test]
fn scenarios_from_source() {
    assert_eq!(run_test("return 1 + 2;").unwrap(), number(3.0));
    assert_eq!(run_test("return 4 * 3;").unwrap(), number(12.0));
    assert_eq!(run_test("return 1 + 2 * 3;").unwrap(), number(7.0));
    assert_eq!(run_test("let a = 10; a += 20; return a;").unwrap(), number(30.0));
    assert_eq!(string_of(&run_test("return 123.class.name;").unwrap()), "Number");
    assert_eq!(string_of(&run_test("return \"ab\" + \"cd\";").unwrap()), "abcd");
    assert!(matches!(
        runtime_error(run_test("return 1 / 0;").unwrap_err()),
        RuntimeError::ZeroDivision
    ));
    match runtime_error(run_test("return x;").unwrap_err()) {
        RuntimeError::UndefinedVar(name) => assert_eq!(name, "x"),
        other => panic!("Expected UndefinedVar, got {:?}", other),
    }
}

#[test]
fn the_class_instruction_registers_the_class_and_its_metaclass() {
    let mut vm = VM::new();
    let registered = vm.classes.len();
    let result = run_source(&mut vm, "class Point {}\nreturn Point").unwrap();
    let point = match result {
        Value::Class(c) => c,
        other => panic!("Expected a class, got {:?}", other),
    };
    assert_eq!(vm.classes.len(), registered + 2);
    let name = vm.interner.find("Point").unwrap();
    let meta_name = vm.interner.find("Point.class").unwrap();
    assert_eq!(vm.get_class(name), Some(point));
    assert_eq!(vm.get_class(meta_name), Some(vm.heap.class(point).class()));
}

#[test]
fn a_module_made_by_name_in_a_fresh_runtime_is_empty() {
    let mut vm = VM::new();
    let module = vm.module_from_str("test_globals").unwrap();
    assert_eq!(module, 1);
    assert_eq!(vm.heap.module(module).globals.len(), 0);
    let x = vm.get_or_intern("x");
    assert_eq!(vm.heap.define_global(module, x, number(10.0)).unwrap(), 0);
    assert_eq!(vm.heap.module(module).slot_of(x), Some(0));
    assert_eq!(vm.heap.module(vm.core_module).get(x), None);
}

#[test]
fn every_class_has_a_name_after_a_program_ran() {
    let mut vm = VM::new();
    let source = "class A {}\nclass B { m() { return 1 } }\nreturn 1.class.name";
    let result = run_source(&mut vm, source).unwrap();
    assert_eq!(string_of(&result), "Number");
    assert_eq!(vm.heap.classes.len(), phalcom::heap::CORE_CLASS_COUNT + 4);
    for class in vm.heap.classes.iter() {
        assert!(!class.name.as_str().is_empty());
    }
    for value in [Value::Nil, Value::Bool(true), number(1.0), Value::Class(21)] {
        let class = value.class(&vm);
        assert!(!vm.heap.class(class).name.as_str().is_empty());
    }
}
