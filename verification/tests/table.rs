use zyxt::ast::{Assign, Ast, Ident, Literal, Return};
use zyxt::errors::ErrorKind;
use zyxt::interpreter_data::{FrameType, InterpreterData, DEPTH_LIMIT};
use zyxt::position::Position;
use zyxt::value::{Type, Value};

fn origin() -> Position {
    Position { line: 1, column: 1 }
}

fn name(s: &str) -> String {
    String::from(s)
}

fn lit(v: Value) -> Ast {
    Ast::Literal(Literal { span: None, content: v })
}

fn ident(s: &str) -> Ast {
    Ast::Ident(Ident { name: name(s), name_span: None, dot_span: None, parent: None })
}

fn assign(s: &str, content: Ast) -> Ast {
    Ast::Assign(Assign { variable: Box::new(ident(s)), eq_span: None, content: Box::new(content) })
}

fn ret(value: Ast) -> Ast {
    Ast::Return(Return { kwd_span: None, value: Box::new(value) })
}

fn get(table: &InterpreterData<Value>, s: &str) -> Result<Value, String> {
    match table.get_val(&name(s), &origin(), &name(s)) {
        Ok(v) => Ok(v.clone()),
        Err(e) => Err(String::from(e.code)),
    }
}

#[test]
fn new_table_has_constants_and_global_scope() {
    let table = InterpreterData::<Value>::new();
    assert_eq!(table.frames.len(), 2);
    assert_eq!(table.frames[0].ty, FrameType::Normal);
    assert_eq!(table.frames[1].ty, FrameType::Constants);
    assert_eq!(table.frames[1].heap.len(), 22);
    assert_eq!(table.depth_left, DEPTH_LIMIT);
    assert_eq!(get(&table, "_any"), Ok(Value::Type(Type::Any)));
    assert_eq!(get(&table, "i32"), Ok(Value::Type(Type::Instance { name: name("i32"), id: 4 })));
}

#[test]
fn new_type_table_names_definitions() {
    let table = InterpreterData::<Type>::new();
    assert_eq!(table.frames.len(), 2);
    let ty = table.get_val(&name("bool"), &origin(), &name("bool")).unwrap();
    match ty {
        Type::Definition(d) => {
            assert_eq!(d.id, 1);
            assert_eq!(d.name, Some(name("{builtin bool}")));
            assert_eq!(d.inst_name, Some(name("bool")));
            assert_eq!(d.implementations.len(), 9);
        }
        other => panic!("not a definition: {:?}", other),
    }
    let instance = table.frames[1].typedefs.get(&name("bool")).unwrap();
    assert_eq!(*instance, Type::Instance { name: name("bool"), id: 1 });
}

#[test]
fn declared_value_is_found() {
    let mut table = InterpreterData::<Value>::new();
    table.declare_val(&name("x"), &Value::I32(5));
    assert_eq!(get(&table, "x"), Ok(Value::I32(5)));
}

#[test]
fn declaration_overwrites_in_same_scope() {
    let mut table = InterpreterData::<Value>::new();
    table.declare_val(&name("x"), &Value::I32(5));
    table.declare_val(&name("x"), &Value::Bool(true));
    assert_eq!(get(&table, "x"), Ok(Value::Bool(true)));
    assert_eq!(table.frames[0].heap.len(), 1);
}

#[test]
fn shadowing_ends_with_the_scope() {
    let mut table = InterpreterData::<Value>::new();
    table.declare_val(&name("x"), &Value::I32(1));
    table.add_frame(None, FrameType::Normal);
    table.declare_val(&name("x"), &Value::I32(2));
    assert_eq!(get(&table, "x"), Ok(Value::I32(2)));
    assert_eq!(table.pop_frame().unwrap(), None);
    assert_eq!(get(&table, "x"), Ok(Value::I32(1)));
    assert_eq!(table.frames.len(), 2);
}

#[test]
fn function_scope_hides_caller_variables() {
    let mut table = InterpreterData::<Value>::new();
    table.declare_val(&name("y"), &Value::I32(1));
    table.add_frame(None, FrameType::Function);
    assert_eq!(get(&table, "y"), Err(name("3.0")));
    assert!(get(&table, "i32").is_ok());
}

#[test]
fn function_scope_sees_its_own_names() {
    let mut table = InterpreterData::<Value>::new();
    table.add_frame(None, FrameType::Function);
    table.declare_val(&name("p"), &Value::I32(7));
    table.add_frame(None, FrameType::Normal);
    assert_eq!(get(&table, "p"), Ok(Value::I32(7)));
}

#[test]
fn second_function_scope_is_skipped_too() {
    let mut table = InterpreterData::<Value>::new();
    table.add_frame(None, FrameType::Function);
    table.declare_val(&name("outer"), &Value::I32(7));
    table.add_frame(None, FrameType::Function);
    assert_eq!(get(&table, "outer"), Err(name("3.0")));
}

#[test]
fn normal_scope_sees_outer_variables() {
    let mut table = InterpreterData::<Value>::new();
    table.declare_val(&name("y"), &Value::I32(1));
    table.add_frame(None, FrameType::Normal);
    assert_eq!(get(&table, "y"), Ok(Value::I32(1)));
}

#[test]
fn undefined_variable_error_is_annotated() {
    let table = InterpreterData::<Value>::new();
    let err = table
        .get_val(&name("nope"), &Position { line: 3, column: 9 }, &name("  nope + 1 "))
        .unwrap_err();
    assert_eq!(err.code, "3.0");
    assert_eq!(err.message, "Undefined variable `nope`");
    assert_eq!(err.position, vec![(Position { line: 3, column: 9 }, name("nope + 1"))]);
    assert_eq!(err.kind(), ErrorKind::Name);
}

#[test]
fn set_val_overwrites_the_outer_binding() {
    let mut table = InterpreterData::<Value>::new();
    table.declare_val(&name("x"), &Value::I32(1));
    table.add_frame(None, FrameType::Normal);
    table.set_val(&name("x"), Value::I32(9), &origin(), &name("x")).unwrap();
    assert_eq!(table.frames[0].heap.len(), 0);
    table.pop_frame().unwrap();
    assert_eq!(get(&table, "x"), Ok(Value::I32(9)));
}

#[test]
fn set_val_fails_on_undefined_name() {
    let mut table = InterpreterData::<Value>::new();
    let err = table.set_val(&name("x"), Value::I32(9), &origin(), &name("x")).unwrap_err();
    assert_eq!(err.code, "3.0");
    assert_eq!(get(&table, "x"), Err(name("3.0")));
}

#[test]
fn set_val_fails_on_constant() {
    let mut table = InterpreterData::<Value>::new();
    let err = table.set_val(&name("i32"), Value::I32(9), &origin(), &name("i32")).unwrap_err();
    assert_eq!(err.code, "3.2");
    assert_eq!(err.message, "Cannot assign to constant `i32`");
    assert_eq!(get(&table, "i32"), Ok(Value::Type(Type::Instance { name: name("i32"), id: 4 })));
}

#[test]
fn set_val_respects_function_boundary() {
    let mut table = InterpreterData::<Value>::new();
    table.declare_val(&name("y"), &Value::I32(1));
    table.add_frame(None, FrameType::Function);
    let err = table.set_val(&name("y"), Value::I32(2), &origin(), &name("y")).unwrap_err();
    assert_eq!(err.code, "3.0");
    table.pop_frame().unwrap();
    assert_eq!(get(&table, "y"), Ok(Value::I32(1)));
}

#[test]
fn delete_val_looks_at_innermost_scope_only() {
    let mut table = InterpreterData::<Value>::new();
    table.declare_val(&name("x"), &Value::I32(1));
    table.add_frame(None, FrameType::Normal);
    assert_eq!(get(&table, "x"), Ok(Value::I32(1)));
    let err = table.delete_val(&name("x"), &origin(), &name("x")).unwrap_err();
    assert_eq!(err.code, "3.0");
    assert_eq!(get(&table, "x"), Ok(Value::I32(1)));
}

#[test]
fn delete_val_removes_and_returns() {
    let mut table = InterpreterData::<Value>::new();
    table.declare_val(&name("x"), &Value::I32(1));
    table.declare_val(&name("y"), &Value::I32(2));
    assert_eq!(table.delete_val(&name("x"), &origin(), &name("x")).unwrap(), Value::I32(1));
    assert_eq!(get(&table, "x"), Err(name("3.0")));
    assert_eq!(get(&table, "y"), Ok(Value::I32(2)));
}

#[test]
fn defers_run_in_declaration_order() {
    let mut table = InterpreterData::<Value>::new();
    table.declare_val(&name("log"), &Value::I32(0));
    table.add_frame(None, FrameType::Normal);
    table.add_defer(vec![assign("log", lit(Value::I32(1)))]);
    table.add_defer(vec![assign("log", lit(Value::I32(2)))]);
    assert_eq!(get(&table, "log"), Ok(Value::I32(0)));
    assert_eq!(table.pop_frame().unwrap(), None);
    assert_eq!(get(&table, "log"), Ok(Value::I32(2)));
}

#[test]
fn defer_with_early_return_skips_later_defers() {
    let mut table = InterpreterData::<Value>::new();
    table.declare_val(&name("log"), &Value::I32(0));
    table.add_frame(None, FrameType::Normal);
    table.add_defer(vec![assign("log", lit(Value::I32(1)))]);
    table.add_defer(vec![ret(lit(Value::I32(7)))]);
    table.add_defer(vec![assign("log", lit(Value::I32(3)))]);
    assert_eq!(table.pop_frame().unwrap(), Some(Value::I32(7)));
    assert_eq!(get(&table, "log"), Ok(Value::I32(1)));
    assert_eq!(table.frames.len(), 2);
}

#[test]
fn failing_defer_still_drops_the_scope() {
    let mut table = InterpreterData::<Value>::new();
    table.add_frame(None, FrameType::Normal);
    table.add_defer(vec![ident("missing")]);
    let err = table.pop_frame().unwrap_err();
    assert_eq!(err.code, "3.0");
    assert_eq!(table.frames.len(), 2);
}

#[test]
fn defers_need_depth() {
    let mut table = InterpreterData::<Value>::new();
    table.depth_left = 0;
    table.add_frame(None, FrameType::Normal);
    table.add_defer(vec![lit(Value::Unit)]);
    let err = table.pop_frame().unwrap_err();
    assert_eq!(err.code, "0.0");
    assert_eq!(table.frames.len(), 2);
    assert_eq!(table.depth_left, 0);
}

#[test]
fn heap_to_string_lists_scopes_innermost_first() {
    let mut table = InterpreterData::<Value>::new();
    table.declare_val(&name("x"), &Value::I32(5));
    table.declare_val(&name("s"), &Value::Str(name("hi")));
    let text = table.heap_to_string();
    assert!(text.starts_with("x: i32 = 5\ns: str = hi\n-------\nstr: type = str\nbool: type = bool\n"));
    assert!(text.ends_with("type: type = type\n_any: type = _any"));
}

#[test]
fn type_table_registers_instances_of_definitions() {
    let mut table = InterpreterData::<Type>::new();
    let definition = table.get_val(&name("u8"), &origin(), &name("u8")).unwrap().clone();
    table.declare_val(&name("byte"), &definition);
    assert_eq!(
        table.frames[0].typedefs.get(&name("byte")),
        Some(&Type::Instance { name: name("u8"), id: 9 })
    );
    table.declare_val(&name("n"), &Type::Instance { name: name("u8"), id: 9 });
    assert_eq!(table.frames[0].typedefs.get(&name("n")), None);
    assert_eq!(table.frames[0].heap.len(), 2);
}

#[test]
fn fresh_type_ids_count_up() {
    let mut table = InterpreterData::<Value>::new();
    assert_eq!(table.fresh_type_id(), Some(21));
    assert_eq!(table.fresh_type_id(), Some(22));
    table.next_type_id = u64::MAX;
    assert_eq!(table.fresh_type_id(), None);
}

#[test]
fn tables_keep_their_shape() {
    let mut table = InterpreterData::<Value>::new();
    assert!(table.well_formed());
    table.add_frame(None, FrameType::Function);
    table.add_frame(None, FrameType::Normal);
    assert!(table.well_formed());
    table.frames.pop_back();
    assert!(!table.well_formed());
    let mut table = InterpreterData::<Type>::new();
    assert!(table.well_formed());
    table.frames.pop_front();
    assert!(!table.well_formed());
}
