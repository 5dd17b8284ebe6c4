use zyxt::ast::{
    Argument, Assign, Ast, BinaryOpr, Block, Call, Class, Condition, Declare, Defer, Delete,
    Ident, If, InstField, Literal, Procedure, Return, UnaryOpr,
};
use zyxt::interpreter_data::{InterpreterData, DEPTH_LIMIT};
use zyxt::position::{Position, Span};
use zyxt::token::{Flag, OprType};
use zyxt::value::{Proc, Type, Value};
use zyxt::{compile, interpret};

fn s(text: &str) -> String {
    String::from(text)
}

fn span(l1: u32, c1: u32, l2: u32, c2: u32) -> Span {
    Span { start: Position { line: l1, column: c1 }, end: Position { line: l2, column: c2 } }
}

fn lit(v: Value) -> Ast {
    Ast::Literal(Literal { span: None, content: v })
}

fn num(n: i32) -> Ast {
    lit(Value::I32(n))
}

fn ident(name: &str) -> Ast {
    Ast::Ident(Ident { name: s(name), name_span: None, dot_span: None, parent: None })
}

fn declare(name: &str, content: Ast) -> Ast {
    Ast::Declare(Declare {
        variable: Box::new(ident(name)),
        content: Box::new(content),
        flags: vec![],
        ty: None,
        eq_span: None,
    })
}

fn declare_as(name: &str, ty: Type, content: Ast) -> Ast {
    Ast::Declare(Declare {
        variable: Box::new(ident(name)),
        content: Box::new(content),
        flags: vec![],
        ty: Some(Box::new(lit(Value::Type(ty)))),
        eq_span: None,
    })
}

fn assign(name: &str, content: Ast) -> Ast {
    Ast::Assign(Assign { variable: Box::new(ident(name)), eq_span: None, content: Box::new(content) })
}

fn block(content: Vec<Ast>) -> Block {
    Block { brace_spans: None, content }
}

fn ret(value: Ast) -> Ast {
    Ast::Return(Return { kwd_span: None, value: Box::new(value) })
}

fn unary(ty: OprType, operand: Ast) -> Ast {
    Ast::UnaryOpr(UnaryOpr { ty, opr_span: None, operand: Box::new(operand) })
}

fn binary(ty: OprType, a: Ast, b: Ast) -> Ast {
    Ast::BinaryOpr(BinaryOpr { ty, opr_span: None, operand1: Box::new(a), operand2: Box::new(b) })
}

fn method_call(name: &str, receiver: Ast, args: Vec<Ast>) -> Ast {
    Ast::Call(Call {
        called: Box::new(Ast::Ident(Ident {
            name: s(name),
            name_span: None,
            dot_span: None,
            parent: Some(Box::new(receiver)),
        })),
        paren_spans: None,
        args,
    })
}

fn call(called: Ast, args: Vec<Ast>) -> Ast {
    Ast::Call(Call { called: Box::new(called), paren_spans: None, args })
}

fn procedure(is_fn: bool, params: Vec<&str>, content: Vec<Ast>) -> Ast {
    Ast::Procedure(Procedure {
        is_fn,
        kwd_span: None,
        args: params
            .into_iter()
            .map(|p| Argument { name: s(p), ty: lit(Value::Type(Type::Any)), default: None })
            .collect(),
        return_type: None,
        content: block(content),
    })
}

fn i32_type() -> Type {
    Type::Instance { name: s("i32"), id: 4 }
}

fn i8_type() -> Type {
    Type::Instance { name: s("i8"), id: 2 }
}

fn run(program: Vec<Ast>) -> (Result<Value, String>, InterpreterData<Value>) {
    let mut sym = InterpreterData::<Value>::new();
    let mut last = Ok(Value::Unit);
    for node in &program {
        last = node.interpret_expr(&mut sym).map_err(|e| String::from(e.code));
        if last.is_err() {
            break;
        }
    }
    (last, sym)
}

fn read(sym: &InterpreterData<Value>, name: &str) -> Option<Value> {
    sym.get_val(&s(name), &Position { line: 0, column: 0 }, &s(name)).ok().cloned()
}

#[test]
fn unary_minus_desugars_to_method_call() {
    let node = unary(OprType::UnMinus, ident("x"));
    assert_eq!(node.desugared().unwrap(), method_call("_un_minus", ident("x"), vec![]));
}

#[test]
fn unary_operators_have_reserved_names() {
    assert_eq!(
        unary(OprType::Not, ident("x")).desugared().unwrap(),
        method_call("_not", ident("x"), vec![])
    );
    assert_eq!(
        unary(OprType::UnPlus, ident("x")).desugared().unwrap(),
        method_call("_un_plus", ident("x"), vec![])
    );
}

#[test]
fn binary_operator_desugars_to_method_call_with_argument() {
    let node = binary(OprType::Add, num(1), unary(OprType::UnMinus, num(2)));
    assert_eq!(
        node.desugared().unwrap(),
        method_call("_add", num(1), vec![method_call("_un_minus", num(2), vec![])])
    );
}

#[test]
fn desugaring_keeps_the_operator_span_on_the_name() {
    let node = Ast::UnaryOpr(UnaryOpr {
        ty: OprType::UnMinus,
        opr_span: Some(span(1, 1, 1, 2)),
        operand: Box::new(Ast::Ident(Ident {
            name: s("x"),
            name_span: Some(span(1, 2, 1, 3)),
            dot_span: None,
            parent: None,
        })),
    });
    let plain = node.desugared().unwrap();
    assert_eq!(node.span(), Some(span(1, 1, 1, 3)));
    assert_eq!(plain.span(), node.span());
}

#[test]
fn desugaring_is_idempotent() {
    let program = Ast::Block(block(vec![
        declare("x", binary(OprType::Mul, num(2), unary(OprType::UnMinus, num(3)))),
        Ast::If(If {
            conditions: vec![Condition {
                kwd_span: None,
                condition: Some(unary(OprType::Not, ident("x"))),
                if_true: block(vec![ret(binary(OprType::Sub, ident("x"), num(1)))]),
            }],
        }),
        procedure(true, vec!["a"], vec![unary(OprType::UnPlus, ident("a"))]),
    ]));
    let once = program.desugared().unwrap();
    let twice = once.desugared().unwrap();
    assert_ne!(once, program);
    assert_eq!(twice, once);
}

#[test]
fn desugaring_reaches_every_child() {
    let sugar = || unary(OprType::Not, num(0));
    let plain = || method_call("_not", num(0), vec![]);
    let node = Ast::Class(Class {
        is_struct: false,
        implementations: vec![(s("m"), sugar())],
        inst_fields: vec![InstField { name: s("f"), ty: sugar(), default: Some(sugar()) }],
        content: block(vec![sugar(), Ast::Defer(Defer { kwd_span: None, content: block(vec![sugar()]) })]),
        args: Some(vec![Argument { name: s("a"), ty: sugar(), default: Some(sugar()) }]),
    });
    let expected = Ast::Class(Class {
        is_struct: false,
        implementations: vec![(s("m"), plain())],
        inst_fields: vec![InstField { name: s("f"), ty: plain(), default: Some(plain()) }],
        content: block(vec![plain(), Ast::Defer(Defer { kwd_span: None, content: block(vec![plain()]) })]),
        args: Some(vec![Argument { name: s("a"), ty: plain(), default: Some(plain()) }]),
    });
    assert_eq!(node.desugared().unwrap(), expected);
}

#[test]
fn only_names_are_patterns() {
    assert!(ident("x").is_pattern());
    assert!(!num(1).is_pattern());
    assert!(!declare("x", num(1)).is_pattern());
    assert!(!Ast::If(If { conditions: vec![] }).is_pattern());
}

#[test]
fn span_merges_own_and_children() {
    let node = Ast::Return(Return {
        kwd_span: Some(span(2, 1, 2, 4)),
        value: Box::new(Ast::Literal(Literal { span: Some(span(2, 5, 3, 1)), content: Value::Unit })),
    });
    assert_eq!(node.span(), Some(span(2, 1, 3, 1)));
    assert_eq!(num(1).span(), None);
    assert_eq!(ret(num(1)).span(), None);
}

#[test]
fn declare_then_set_then_read() {
    let (last, sym) = run(vec![declare("x", num(5)), assign("x", num(6))]);
    assert_eq!(last, Ok(Value::I32(6)));
    assert_eq!(read(&sym, "x"), Some(Value::I32(6)));
}

#[test]
fn program_exit_code_is_its_returned_i32() {
    let mut sym = InterpreterData::<Value>::new();
    let program = vec![declare("x", num(5)), assign("x", num(6)), ret(ident("x")), assign("x", num(7))];
    assert_eq!(interpret(&program, &mut sym).unwrap(), 6);
    assert_eq!(read(&sym, "x"), Some(Value::I32(6)));
}

#[test]
fn program_without_value_exits_with_zero() {
    let mut sym = InterpreterData::<Value>::new();
    assert_eq!(interpret(&vec![], &mut sym).unwrap(), 0);
    assert_eq!(interpret(&vec![lit(Value::Unit)], &mut sym).unwrap(), 0);
}

#[test]
fn program_with_other_value_fails() {
    let mut sym = InterpreterData::<Value>::new();
    let err = interpret(&vec![lit(Value::Bool(true))], &mut sym).unwrap_err();
    assert_eq!(err.code, "4.2");
    assert_eq!(err.message, "Non-i32 script return value detected (Got `true`)");
}

#[test]
fn assignment_of_other_type_is_type_mismatch() {
    let mut types = InterpreterData::<Type>::new();
    let program = vec![declare("x", num(5)), assign("x", lit(Value::Str(s("s"))))];
    let err = compile(&program, &mut types).unwrap_err();
    assert_eq!(err.code, "4.3");
    assert_eq!(err.message, "Value of type `str` assigned to variable `x` of type `i32`");
}

#[test]
fn assignment_of_same_type_checks() {
    let mut types = InterpreterData::<Type>::new();
    let program = vec![declare("x", num(5)), assign("x", num(6))];
    assert_eq!(compile(&program, &mut types).unwrap(), program);
    let x = types.get_val(&s("x"), &Position { line: 0, column: 0 }, &s("x")).unwrap();
    assert_eq!(*x, i32_type());
}

#[test]
fn declaration_with_other_annotation_inserts_cast() {
    let mut types = InterpreterData::<Type>::new();
    let node = declare_as("x", i8_type(), num(5));
    let (ty, checked) = node.typecheck(&mut types).unwrap();
    assert_eq!(ty, i32_type());
    let expected = declare_as(
        "x",
        i8_type(),
        method_call("_typecast", num(5), vec![lit(Value::Type(i8_type()))]),
    );
    assert_eq!(checked, expected);
    let x = types.get_val(&s("x"), &Position { line: 0, column: 0 }, &s("x")).unwrap();
    assert_eq!(*x, i8_type());
    let (value, sym) = run(vec![checked]);
    assert_eq!(value, Ok(Value::I8(5)));
    assert_eq!(read(&sym, "x"), Some(Value::I8(5)));
}

#[test]
fn declaration_with_same_annotation_is_unchanged() {
    let mut types = InterpreterData::<Type>::new();
    let node = declare_as("x", i32_type(), num(5));
    let (ty, checked) = node.typecheck(&mut types).unwrap();
    assert_eq!(ty, i32_type());
    assert_eq!(checked, node);
}

#[test]
fn declaration_without_cast_method_is_type_mismatch() {
    let mut types = InterpreterData::<Type>::new();
    let node = declare_as("x", i32_type(), lit(Value::Str(s("s"))));
    let err = node.typecheck(&mut types).unwrap_err();
    assert_eq!(err.code, "4.3");
    assert_eq!(err.message, "Value of type `str` assigned to variable `x` of type `i32`");
}

#[test]
fn cast_that_does_not_fit_fails_at_runtime_without_type_mismatch() {
    let mut types = InterpreterData::<Type>::new();
    let node = declare_as("x", i8_type(), num(300));
    let (_, checked) = node.typecheck(&mut types).unwrap();
    let (value, _) = run(vec![checked]);
    assert_eq!(value, Err(s("4.1.0")));
}

#[test]
fn declaration_target_must_be_a_name() {
    let node = Ast::Declare(Declare {
        variable: Box::new(num(1)),
        content: Box::new(num(2)),
        flags: vec![],
        ty: None,
        eq_span: None,
    });
    let mut types = InterpreterData::<Type>::new();
    let err = node.typecheck(&mut types).unwrap_err();
    assert_eq!(err.code, "2.2");
    assert_eq!(err.message, "Assignment without variable name");
    let (value, _) = run(vec![node]);
    assert_eq!(value, Err(s("2.2")));
}

#[test]
fn assignment_target_must_be_a_name() {
    let node = Ast::Assign(Assign {
        variable: Box::new(num(1)),
        eq_span: None,
        content: Box::new(num(2)),
    });
    let mut types = InterpreterData::<Type>::new();
    assert_eq!(node.typecheck(&mut types).unwrap_err().code, "2.2");
    let (value, _) = run(vec![node]);
    assert_eq!(value, Err(s("2.2")));
}

#[test]
fn assignment_to_undefined_name_fails() {
    let mut types = InterpreterData::<Type>::new();
    assert_eq!(assign("x", num(1)).typecheck(&mut types).unwrap_err().code, "3.0");
    let (value, _) = run(vec![assign("x", num(1))]);
    assert_eq!(value, Err(s("3.0")));
}

#[test]
fn assignment_to_constant_fails() {
    let (value, _) = run(vec![assign("i32", num(1))]);
    assert_eq!(value, Err(s("3.2")));
}

#[test]
fn identifier_lookup_miss_is_undefined_variable() {
    let (value, _) = run(vec![ident("nope")]);
    assert_eq!(value, Err(s("3.0")));
    let mut types = InterpreterData::<Type>::new();
    assert_eq!(ident("nope").typecheck(&mut types).unwrap_err().code, "3.0");
}

#[test]
fn if_takes_first_true_branch_only() {
    let branch = |condition: Option<Ast>, marker: &str, value: i32| Condition {
        kwd_span: None,
        condition,
        if_true: block(vec![assign(marker, num(1)), num(value)]),
    };
    let node = Ast::If(If {
        conditions: vec![
            branch(Some(lit(Value::Bool(false))), "a", 10),
            branch(Some(lit(Value::Bool(true))), "b", 20),
            branch(None, "c", 30),
        ],
    });
    let (value, sym) = run(vec![
        declare("a", num(0)),
        declare("b", num(0)),
        declare("c", num(0)),
        node,
    ]);
    assert_eq!(value, Ok(Value::I32(20)));
    assert_eq!(read(&sym, "a"), Some(Value::I32(0)));
    assert_eq!(read(&sym, "b"), Some(Value::I32(1)));
    assert_eq!(read(&sym, "c"), Some(Value::I32(0)));
}

#[test]
fn if_falls_through_to_else() {
    let node = Ast::If(If {
        conditions: vec![
            Condition {
                kwd_span: None,
                condition: Some(lit(Value::Bool(false))),
                if_true: block(vec![num(1)]),
            },
            Condition { kwd_span: None, condition: None, if_true: block(vec![num(2)]) },
        ],
    });
    assert_eq!(run(vec![node]).0, Ok(Value::I32(2)));
}

#[test]
fn if_without_match_is_unit() {
    let node = Ast::If(If {
        conditions: vec![Condition {
            kwd_span: None,
            condition: Some(num(1)),
            if_true: block(vec![num(1)]),
        }],
    });
    assert_eq!(run(vec![node]).0, Ok(Value::Unit));
    assert_eq!(run(vec![Ast::If(If { conditions: vec![] })]).0, Ok(Value::Unit));
}

#[test]
fn if_type_is_that_of_first_branch() {
    let node = Ast::If(If {
        conditions: vec![
            Condition {
                kwd_span: None,
                condition: Some(lit(Value::Bool(false))),
                if_true: block(vec![num(1)]),
            },
            Condition {
                kwd_span: None,
                condition: None,
                if_true: block(vec![lit(Value::Bool(true))]),
            },
        ],
    });
    let mut types = InterpreterData::<Type>::new();
    assert_eq!(node.typecheck(&mut types).unwrap().0, i32_type());
    assert_eq!(
        Ast::If(If { conditions: vec![] }).typecheck(&mut types).unwrap().0,
        Type::Instance { name: s("_unit"), id: 19 }
    );
}

#[test]
fn block_scope_ends_with_block() {
    let (value, sym) = run(vec![Ast::Block(block(vec![declare("inner", num(1)), ident("inner")]))]);
    assert_eq!(value, Ok(Value::I32(1)));
    assert_eq!(read(&sym, "inner"), None);
    assert_eq!(sym.frames.len(), 2);
}

#[test]
fn failing_block_still_ends_its_scope() {
    let (value, sym) = run(vec![Ast::Block(block(vec![
        declare("inner", num(1)),
        Ast::Block(block(vec![ident("missing")])),
    ]))]);
    assert_eq!(value, Err(s("3.0")));
    assert_eq!(sym.frames.len(), 2);
    let mut types = InterpreterData::<Type>::new();
    let node = Ast::Block(block(vec![declare("inner", num(1)), ident("missing")]));
    assert!(node.typecheck(&mut types).is_err());
    assert_eq!(types.frames.len(), 2);
}

#[test]
fn return_short_circuits_enclosing_blocks() {
    let inner = Ast::Block(block(vec![ret(num(1)), assign("x", num(9))]));
    let outer = Ast::Block(block(vec![inner, assign("x", num(8))]));
    let (value, sym) = run(vec![declare("x", num(0)), outer]);
    assert_eq!(value, Ok(Value::Return(Box::new(Value::I32(1)))));
    assert_eq!(read(&sym, "x"), Some(Value::I32(0)));
}

#[test]
fn call_unwraps_return() {
    let body = vec![
        Ast::Block(block(vec![ret(ident("a")), num(0)])),
        num(5),
    ];
    let program = vec![
        declare("f", procedure(true, vec!["a"], body)),
        call(ident("f"), vec![num(42)]),
    ];
    assert_eq!(run(program).0, Ok(Value::I32(42)));
}

#[test]
fn function_does_not_see_caller_variables() {
    let program = vec![
        declare("y", num(1)),
        declare("f", procedure(true, vec![], vec![ident("y")])),
        call(ident("f"), vec![]),
    ];
    let (value, sym) = run(program);
    assert_eq!(value, Err(s("3.0")));
    assert_eq!(sym.frames.len(), 2);
    assert_eq!(sym.depth_left, DEPTH_LIMIT);
}

#[test]
fn procedure_sees_caller_variables() {
    let program = vec![
        declare("y", num(1)),
        declare("p", procedure(false, vec![], vec![ident("y")])),
        call(ident("p"), vec![]),
    ];
    assert_eq!(run(program).0, Ok(Value::I32(1)));
}

#[test]
fn function_sees_constants_and_parameters() {
    let program = vec![
        declare("f", procedure(true, vec!["a"], vec![ident("i32"), ident("a")])),
        call(ident("f"), vec![num(3)]),
    ];
    assert_eq!(run(program).0, Ok(Value::I32(3)));
}

#[test]
fn missing_argument_uses_default_or_fails() {
    let with_default = Ast::Procedure(Procedure {
        is_fn: true,
        kwd_span: None,
        args: vec![
            Argument { name: s("a"), ty: lit(Value::Type(Type::Any)), default: None },
            Argument { name: s("b"), ty: lit(Value::Type(Type::Any)), default: Some(num(10)) },
        ],
        return_type: None,
        content: block(vec![method_call("_add", ident("a"), vec![ident("b")])]),
    });
    let program = vec![
        declare("f", with_default),
        declare("one", call(ident("f"), vec![num(1)])),
        declare("two", call(ident("f"), vec![num(1), num(2)])),
        call(ident("f"), vec![]),
    ];
    let (value, sym) = run(program);
    assert_eq!(value, Err(s("2.3")));
    assert_eq!(read(&sym, "one"), Some(Value::I32(11)));
    assert_eq!(read(&sym, "two"), Some(Value::I32(3)));
    assert_eq!(sym.frames.len(), 2);
}

#[test]
fn endless_recursion_ends_with_internal_error() {
    let program = vec![
        declare("p", procedure(false, vec![], vec![call(ident("p"), vec![])])),
        call(ident("p"), vec![]),
    ];
    let (value, sym) = run(program);
    assert_eq!(value, Err(s("0.0")));
    assert_eq!(sym.frames.len(), 2);
    assert_eq!(sym.depth_left, DEPTH_LIMIT);
}

#[test]
fn calling_a_non_procedure_fails() {
    assert_eq!(run(vec![call(num(1), vec![])]).0, Err(s("0.0")));
}

#[test]
fn desugared_minus_negates() {
    let program = vec![declare("x", num(5)), unary(OprType::UnMinus, ident("x")).desugared().unwrap()];
    assert_eq!(run(program).0, Ok(Value::I32(-5)));
}

#[test]
fn operators_must_be_desugared_first() {
    assert_eq!(run(vec![unary(OprType::UnMinus, num(5))]).0, Err(s("0.0")));
    let mut types = InterpreterData::<Type>::new();
    assert_eq!(binary(OprType::Add, num(1), num(2)).typecheck(&mut types).unwrap_err().code, "0.0");
}

#[test]
fn method_call_has_return_type_of_method() {
    let mut types = InterpreterData::<Type>::new();
    let sum = method_call("_add", num(1), vec![num(2)]);
    assert_eq!(sum.typecheck(&mut types).unwrap().0, i32_type());
    let less = method_call("_lt", num(1), vec![num(2)]);
    assert_eq!(less.typecheck(&mut types).unwrap().0, Type::Instance { name: s("bool"), id: 1 });
    let cast = method_call("_typecast", num(1), vec![lit(Value::Type(i8_type()))]);
    assert_eq!(cast.typecheck(&mut types).unwrap().0, Type::Any);
    let text = method_call("_concat", num(1), vec![num(2)]);
    assert_eq!(text.typecheck(&mut types).unwrap().0, Type::Instance { name: s("str"), id: 0 });
}

#[test]
fn unknown_method_is_no_attribute() {
    let node = method_call("_frobnicate", num(1), vec![]);
    let mut types = InterpreterData::<Type>::new();
    let err = node.typecheck(&mut types).unwrap_err();
    assert_eq!(err.code, "3.1.0");
    assert_eq!(err.message, "`1` (type `i32`) has no attribute `_frobnicate`");
    let mut sym = InterpreterData::<Value>::new();
    let err = node.interpret_expr(&mut sym).unwrap_err();
    assert_eq!(err.code, "3.1.1");
    assert_eq!(err.message, "`1` (type `i32`) has no attribute `_frobnicate`");
}

#[test]
fn failed_operation_names_operator_and_operands() {
    let node = method_call("_div", num(1), vec![num(0)]);
    let mut sym = InterpreterData::<Value>::new();
    let err = node.interpret_expr(&mut sym).unwrap_err();
    assert_eq!(err.code, "4.1.0");
    assert_eq!(err.message, "Operator _div unsuccessful on `1` (type `i32`), `0` (type `i32`)");
    let node = method_call("_un_minus", lit(Value::I8(-128)), vec![]);
    let err = node.interpret_expr(&mut sym).unwrap_err();
    assert_eq!(err.code, "4.1.1");
    assert_eq!(err.message, "Operator _un_minus unsuccessful on `-128` (type `i8`)");
}

#[test]
fn procedure_literal_evaluates_to_procedure_value() {
    let node = procedure(true, vec!["a"], vec![ident("a")]);
    let (value, _) = run(vec![node]);
    assert_eq!(
        value,
        Ok(Value::Proc(Proc::Defined {
            is_fn: true,
            args: vec![Argument { name: s("a"), ty: lit(Value::Type(Type::Any)), default: None }],
            return_type: Type::Any,
            content: block(vec![ident("a")]),
        }))
    );
}

#[test]
fn deferred_block_runs_at_end_of_block() {
    let body = vec![
        Ast::Defer(Defer { kwd_span: None, content: block(vec![assign("log", num(2))]) }),
        assign("log", num(1)),
        ident("log"),
    ];
    let (value, sym) = run(vec![declare("log", num(0)), Ast::Block(block(body))]);
    assert_eq!(value, Ok(Value::I32(1)));
    assert_eq!(read(&sym, "log"), Some(Value::I32(2)));
}

#[test]
fn deferred_return_replaces_block_value() {
    let body = vec![
        Ast::Defer(Defer { kwd_span: None, content: block(vec![ret(num(7))]) }),
        num(1),
    ];
    assert_eq!(
        run(vec![Ast::Block(block(body.clone()))]).0,
        Ok(Value::Return(Box::new(Value::I32(7))))
    );
    let program = vec![declare("f", procedure(true, vec![], body)), call(ident("f"), vec![])];
    assert_eq!(run(program).0, Ok(Value::I32(7)));
}

#[test]
fn delete_removes_from_innermost_scope() {
    let del = |name: &str| {
        Ast::Delete(Delete {
            kwd_span: None,
            names: vec![Ident { name: s(name), name_span: None, dot_span: None, parent: None }],
        })
    };
    let (value, sym) = run(vec![declare("x", num(1)), del("x")]);
    assert_eq!(value, Ok(Value::Unit));
    assert_eq!(read(&sym, "x"), None);
    let (value, sym) = run(vec![declare("x", num(1)), Ast::Block(block(vec![del("x")]))]);
    assert_eq!(value, Err(s("3.0")));
    assert_eq!(read(&sym, "x"), Some(Value::I32(1)));
}

#[test]
fn class_evaluates_to_new_definition() {
    let node = Ast::Class(Class {
        is_struct: true,
        implementations: vec![(s("zero"), num(0))],
        inst_fields: vec![InstField {
            name: s("n"),
            ty: lit(Value::Type(i32_type())),
            default: Some(num(1)),
        }],
        content: block(vec![]),
        args: None,
    });
    let (value, sym) = run(vec![node.clone(), node]);
    match value.unwrap() {
        Value::Type(Type::Definition(d)) => {
            assert_eq!(d.id, 22);
            assert_eq!(d.name, Some(s("struct")));
            assert_eq!(d.inst_name, None);
            assert_eq!(d.implementations, vec![(s("zero"), Value::I32(0))]);
            assert_eq!(d.inst_fields.len(), 1);
            assert_eq!(d.inst_fields[0].name, "n");
            assert_eq!(d.inst_fields[0].ty, i32_type());
            assert_eq!(d.inst_fields[0].default, Some(Value::I32(1)));
        }
        other => panic!("not a definition: {:?}", other),
    }
    assert_eq!(sym.next_type_id, 23);
}

#[test]
fn class_field_type_must_be_a_type() {
    let node = Ast::Class(Class {
        is_struct: false,
        implementations: vec![],
        inst_fields: vec![InstField { name: s("n"), ty: num(1), default: None }],
        content: block(vec![]),
        args: None,
    });
    assert_eq!(run(vec![node]).0, Err(s("0.0")));
}

#[test]
fn class_check_collects_instance_fields() {
    let field = Ast::Declare(Declare {
        variable: Box::new(ident("n")),
        content: Box::new(num(1)),
        flags: vec![(Flag::Inst, span(1, 1, 1, 5))],
        ty: None,
        eq_span: None,
    });
    let node = Ast::Class(Class {
        is_struct: false,
        implementations: vec![(s("get"), procedure(true, vec![], vec![num(1)]))],
        inst_fields: vec![
            InstField { name: s("n"), ty: lit(Value::Type(i8_type())), default: None },
            InstField { name: s("m"), ty: ident("bool"), default: Some(lit(Value::Bool(true))) },
        ],
        content: block(vec![declare("local", num(2)), field]),
        args: None,
    });
    let mut types = InterpreterData::<Type>::new();
    let (ty, checked) = node.typecheck(&mut types).unwrap();
    assert_eq!(types.frames.len(), 2);
    assert_eq!(types.next_type_id, 22);
    match ty {
        Type::Definition(d) => {
            assert_eq!(d.id, 21);
            assert_eq!(d.name, Some(s("class")));
            assert_eq!(d.implementations.len(), 1);
            assert_eq!(d.implementations[0].0, "get");
            let fields: Vec<(String, Type, Option<Value>)> =
                d.inst_fields.iter().map(|f| (f.name.clone(), f.ty.clone(), f.default.clone())).collect();
            assert_eq!(
                fields,
                vec![
                    (s("m"), Type::Instance { name: s("bool"), id: 1 }, Some(Value::Bool(true))),
                    (s("n"), i32_type(), Some(Value::I32(1))),
                ]
            );
        }
        other => panic!("not a definition: {:?}", other),
    }
    match checked {
        Ast::Class(c) => {
            assert_eq!(c.inst_fields.len(), 2);
            assert_eq!(c.inst_fields[0].name, "m");
            assert_eq!(c.inst_fields[1].name, "n");
            assert_eq!(c.content.content.len(), 2);
        }
        other => panic!("not a class: {:?}", other),
    }
}

#[test]
fn class_field_default_must_have_field_type() {
    let node = Ast::Class(Class {
        is_struct: false,
        implementations: vec![],
        inst_fields: vec![InstField {
            name: s("n"),
            ty: lit(Value::Type(i8_type())),
            default: Some(num(1)),
        }],
        content: block(vec![]),
        args: None,
    });
    let mut types = InterpreterData::<Type>::new();
    let err = node.typecheck(&mut types).unwrap_err();
    assert_eq!(err.code, "4.3");
    assert_eq!(err.message, "Value of type `i32` assigned to variable `n` of type `i8`");
    assert_eq!(types.frames.len(), 2);
}

#[test]
fn struct_with_parameters_has_no_instance_fields_nor_constructor() {
    let field = Ast::Declare(Declare {
        variable: Box::new(ident("n")),
        content: Box::new(num(1)),
        flags: vec![(Flag::Inst, span(1, 1, 1, 5))],
        ty: None,
        eq_span: None,
    });
    let with_field = Ast::Class(Class {
        is_struct: true,
        implementations: vec![],
        inst_fields: vec![],
        content: block(vec![field]),
        args: Some(vec![]),
    });
    let with_init = Ast::Class(Class {
        is_struct: true,
        implementations: vec![(s("_init"), num(0))],
        inst_fields: vec![],
        content: block(vec![]),
        args: Some(vec![]),
    });
    let mut types = InterpreterData::<Type>::new();
    let err = with_field.typecheck(&mut types).unwrap_err();
    assert_eq!(err.code, "0.0");
    assert!(err.message.contains("Instance field in a struct with parameters"));
    let err = with_init.typecheck(&mut types).unwrap_err();
    assert!(err.message.contains("Constructor in a struct with parameters"));
    assert_eq!(types.frames.len(), 2);
}

#[test]
fn compile_desugars_then_checks() {
    let mut types = InterpreterData::<Type>::new();
    let program = vec![declare("x", num(5)), declare("y", unary(OprType::UnMinus, ident("x")))];
    let compiled = compile(&program, &mut types).unwrap();
    assert_eq!(
        compiled,
        vec![declare("x", num(5)), declare("y", method_call("_un_minus", ident("x"), vec![]))]
    );
    let mut sym = InterpreterData::<Value>::new();
    let mut all = compiled;
    all.push(ret(ident("y")));
    assert_eq!(interpret(&all, &mut sym).unwrap(), -5);
}

#[test]
fn as_variant_wraps_a_copy() {
    let node = Return { kwd_span: None, value: Box::new(num(1)) };
    assert_eq!(node.as_variant(), ret(num(1)));
    let node = Ident { name: s("x"), name_span: None, dot_span: None, parent: None };
    assert_eq!(node.as_variant(), ident("x"));
    assert!(node.is_pattern());
    assert!(!If { conditions: vec![] }.is_pattern());
}

#[test]
fn pattern_violation_names_the_target() {
    let node = Ast::Declare(Declare {
        variable: Box::new(Ast::Literal(Literal { span: Some(span(4, 2, 4, 3)), content: Value::I32(1) })),
        content: Box::new(num(2)),
        flags: vec![],
        ty: None,
        eq_span: None,
    });
    let mut sym = InterpreterData::<Value>::new();
    let err = node.interpret_expr(&mut sym).unwrap_err();
    assert_eq!(err.position, vec![(Position { line: 4, column: 2 }, s("1"))]);
    let mut types = InterpreterData::<Type>::new();
    let err = node.typecheck(&mut types).unwrap_err();
    assert_eq!(err.position, vec![(Position { line: 4, column: 2 }, s("1"))]);
}

#[test]
fn nodes_are_written_out_again() {
    assert_eq!(ret(num(1)).reconstruct(), "ret 1");
    assert_eq!(lit(Value::Str(s("hi"))).reconstruct(), "\"hi\"");
    assert_eq!(declare("x", num(5)).reconstruct(), "x := 5");
    assert_eq!(declare_as("x", i8_type(), num(5)).reconstruct(), "x: i8 := 5");
    assert_eq!(assign("x", unary(OprType::UnMinus, ident("y"))).reconstruct(), "x = -y");
    assert_eq!(binary(OprType::Le, num(1), num(2)).reconstruct(), "1 <= 2");
    assert_eq!(method_call("f", ident("a"), vec![num(1), num(2)]).reconstruct(), "a.f(1, 2)");
    assert_eq!(call(ident("f"), vec![]).reconstruct(), "f()");
    assert_eq!(Ast::Block(block(vec![num(1), num(2), num(3)])).reconstruct(), "{1; 2; 3}");
    assert_eq!(Ast::Block(block(vec![])).reconstruct(), "{}");
    assert_eq!(procedure(true, vec!["a", "b"], vec![ident("a")]).reconstruct(), "fn|a: _any, b: _any| {a}");
    assert_eq!(procedure(false, vec![], vec![]).reconstruct(), "proc|| {}");
    let node = Ast::If(If {
        conditions: vec![
            Condition { kwd_span: None, condition: Some(ident("a")), if_true: block(vec![num(1)]) },
            Condition { kwd_span: None, condition: Some(ident("b")), if_true: block(vec![num(2)]) },
            Condition { kwd_span: None, condition: None, if_true: block(vec![num(3)]) },
        ],
    });
    assert_eq!(node.reconstruct(), "if a {1} elif b {2} else {3}");
    let flagged = Ast::Declare(Declare {
        variable: Box::new(ident("n")),
        content: Box::new(num(1)),
        flags: vec![(Flag::Pub, span(1, 1, 1, 4)), (Flag::Inst, span(1, 5, 1, 9))],
        ty: None,
        eq_span: None,
    });
    assert_eq!(flagged.reconstruct(), "pub inst n := 1");
    let class = Class {
        is_struct: true,
        implementations: vec![],
        inst_fields: vec![],
        content: block(vec![flagged]),
        args: Some(vec![Argument { name: s("a"), ty: ident("i32"), default: Some(num(0)) }]),
    };
    assert_eq!(class.reconstruct(), "struct|a: i32: 0| {pub inst n := 1}");
    assert_eq!(Ast::Defer(Defer { kwd_span: None, content: block(vec![num(1)]) }).reconstruct(), "defer {1}");
    let del = Delete {
        kwd_span: None,
        names: vec![
            Ident { name: s("a"), name_span: None, dot_span: None, parent: None },
            Ident { name: s("b"), name_span: None, dot_span: None, parent: Some(Box::new(ident("c"))) },
        ],
    };
    assert_eq!(del.reconstruct(), "del a, c.b");
}

#[test]
fn error_places_come_from_nodes() {
    let node = Ast::Return(Return {
        kwd_span: Some(span(2, 1, 2, 4)),
        value: Box::new(num(1)),
    });
    let err = zyxt::errors::ZyxtError::from_element(&node).error_2_2();
    assert_eq!(err.position, vec![(Position { line: 2, column: 1 }, s("ret 1"))]);
    assert_eq!(zyxt::errors::ZyxtError::from_element(&num(1)).error_2_2().position, vec![]);
}
