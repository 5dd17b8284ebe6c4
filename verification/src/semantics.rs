//! The interpreter: what a node evaluates to, and what it does to the table.
//!
//! The meaning of a program is given by [`interp`], a function from a node,
//! a table and a depth budget to a result and a table. The executable
//! interpreter computes exactly that function. Nested calls and deferred
//! blocks use up the budget; at zero they fail with an internal error, so
//! every evaluation ends.

use vstd::prelude::*;
use vstd::string::*;
use crate::ast::{
    Argument, ArgumentModel, Assign, AstModel, Block, Call, CallModel, Class, ClassModel,
    ConditionModel, Declare, Defer, Delete, Ident, IdentModel, If, InstFieldModel, Literal,
    Procedure, Return,
};
use crate::builtins::{builtin_result, prim_of};
use crate::errors::{ErrorModel, ZyxtError, internal, place};
use crate::interpreter_data::{FrameDataModel, FrameType, TableModel};
use crate::position::{Position, Span};
use crate::primitives::{find_named, implementations};
use crate::reconstruct::source;
use crate::span::{pair_span, span_of};
use crate::value::{
    FieldDefinitionModel, Proc, ProcModel, Type, TypeDefinitionModel, TypeModel, Value, ValueModel,
};

verus! {

/// A result together with the table after the evaluation.
pub struct Outcome<R> {
    pub result: Result<R, ErrorModel>,
    pub table: TableModel<ValueModel>,
}

/// Where a call stands, for diagnostics.
pub struct CallSite {
    /// The places of an error that the call raises.
    pub place: Seq<(Position, Seq<char>)>,
    /// The place of the call, or line and column zero where it has no span.
    pub position: Position,
    /// The name of what is called, or nothing where it has no name.
    pub name: Seq<char>,
}

pub open spec fn done<R>(value: R, table: TableModel<ValueModel>) -> Outcome<R> {
    Outcome { result: Ok(value), table }
}

pub open spec fn failed<R>(error: ErrorModel, table: TableModel<ValueModel>) -> Outcome<R> {
    Outcome { result: Err(error), table }
}

pub open spec fn msg_not_desugared() -> Seq<char> {
    "Operator was not desugared"@
}

pub open spec fn msg_depth() -> Seq<char> {
    "Maximum call depth exceeded"@
}

pub open spec fn msg_not_callable() -> Seq<char> {
    "Value is not a procedure"@
}

pub open spec fn msg_not_a_type() -> Seq<char> {
    "Field type is not a type"@
}

pub open spec fn msg_no_identity() -> Seq<char> {
    "No type identity is left"@
}

/// The value that a value on its way out of a call carries; any other value
/// is itself.
pub open spec fn unwrapped(v: ValueModel) -> ValueModel {
    match v {
        ValueModel::Return(inner) => *inner,
        _ => v,
    }
}

/// The type that a type annotation names: the type that it holds as a
/// literal, or `Any` where there is no annotation or it is no literal type.
pub open spec fn static_type(o: Option<Box<AstModel>>) -> TypeModel {
    match o {
        Some(a) => match *a {
            AstModel::Literal(l) => match l.content {
                ValueModel::Type(t) => t,
                _ => TypeModel::Any,
            },
            _ => TypeModel::Any,
        },
        None => TypeModel::Any,
    }
}

/// The method named `name` of the value `receiver`: a type definition
/// offers its own methods, any other value those of its builtin type.
pub open spec fn find_method(receiver: ValueModel, name: Seq<char>) -> Option<ValueModel> {
    match receiver {
        ValueModel::Type(TypeModel::Definition(d)) => find_named(d.implementations, name),
        _ => match prim_of(receiver) {
            Some(p) => find_named(implementations(p), name),
            None => None,
        },
    }
}

/// The error of a builtin operation that has no result on `args`.
pub open spec fn unsuccessful(
    position: Seq<(Position, Seq<char>)>,
    name: Seq<char>,
    args: Seq<ValueModel>,
) -> ErrorModel {
    if args.len() >= 2 {
        ErrorModel::error_4_1_0(position, name, args[0], args[1])
    } else if args.len() == 1 {
        ErrorModel::error_4_1_1(position, name, args[0])
    } else {
        ErrorModel::error_4_0_1(position, name, "()"@)
    }
}

/// The first `n` parameters, each bound to the argument in its place.
pub open spec fn bound_args(params: Seq<ArgumentModel>, args: Seq<ValueModel>, n: nat) -> Map<
    Seq<char>,
    ValueModel,
>
    decreases n,
{
    if n == 0 || n > params.len() || n > args.len() {
        Map::empty()
    } else {
        bound_args(params, args, (n - 1) as nat).insert(params[n - 1].name, args[n - 1])
    }
}

/// The smaller of two lengths.
pub open spec fn shorter(a: nat, b: nat) -> nat {
    if a <= b {
        a
    } else {
        b
    }
}

/// Where the call `x` stands; `name` is the name of what it calls.
pub open spec fn call_site(x: CallModel, name_span: Option<Span>, name: Seq<char>) -> CallSite {
    CallSite {
        place: place(name_span, name),
        position: match pair_span(x.paren_spans) {
            Some(s) => s.start,
            None => Position { line: 0, column: 0 },
        },
        name,
    }
}

/// The name of the procedure that a called expression names, if it is a name.
pub open spec fn callee_name(called: AstModel) -> Seq<char> {
    match called {
        AstModel::Ident(x) => x.name,
        _ => Seq::empty(),
    }
}

/// The span of the name in a called expression, if it is a name.
pub open spec fn callee_span(called: AstModel) -> Option<Span> {
    match called {
        AstModel::Ident(x) => x.name_span,
        _ => None,
    }
}

/// What the node `a` evaluates to in table `t`, and the table afterwards.
/// `fuel` is the number of nested calls and deferred blocks that may still
/// be entered.
pub open spec fn interp(a: AstModel, t: TableModel<ValueModel>, fuel: nat) -> Outcome<ValueModel>
    decreases fuel, 1int, a, 0nat,
{
    match a {
        AstModel::Literal(x) => done(x.content, t),
        AstModel::Ident(x) => match t.get(x.name) {
            Some(v) => done(v, t),
            None => failed(ErrorModel::error_3_0(place(x.name_span, x.name), x.name), t),
        },
        AstModel::Declare(x) => match *x.variable {
            AstModel::Ident(target) => {
                let e = interp(*x.content, t, fuel);
                match e.result {
                    Ok(v) => done(v, e.table.declared(target.name, v)),
                    Err(_) => e,
                }
            },
            _ => failed(
                ErrorModel::error_2_2(place(span_of(*x.variable), source(*x.variable))),
                t,
            ),
        },
        AstModel::Assign(x) => match *x.variable {
            AstModel::Ident(target) => {
                let e = interp(*x.content, t, fuel);
                match e.result {
                    Ok(v) => {
                        let at = place(span_of(a), target.name);
                        match e.table.resolve(target.name) {
                            None => failed(ErrorModel::error_3_0(at, target.name), e.table),
                            Some(i) => if e.table.frames[i].ty == FrameType::Constants {
                                failed(ErrorModel::error_3_2(at, target.name), e.table)
                            } else {
                                done(v, e.table.assigned(i, target.name, v))
                            },
                        }
                    },
                    Err(_) => e,
                }
            },
            _ => failed(
                ErrorModel::error_2_2(place(span_of(*x.variable), source(*x.variable))),
                t,
            ),
        },
        AstModel::If(x) => interp_branches(x.conditions, 0, t, fuel),
        AstModel::Block(x) => interp_block(x.content, t, fuel, true, false),
        AstModel::Call(x) => interp_call(x, t, fuel),
        AstModel::BinaryOpr(x) => failed(internal(place(span_of(a), ""@), msg_not_desugared()), t),
        AstModel::UnaryOpr(x) => failed(internal(place(span_of(a), ""@), msg_not_desugared()), t),
        AstModel::Return(x) => {
            let e = interp(*x.value, t, fuel);
            match e.result {
                Ok(v) => done(ValueModel::Return(Box::new(v)), e.table),
                Err(_) => e,
            }
        },
        AstModel::Procedure(x) => done(
            ValueModel::Proc(
                ProcModel::Defined {
                    is_fn: x.is_fn,
                    args: x.args,
                    return_type: static_type(x.return_type),
                    content: x.content,
                },
            ),
            t,
        ),
        AstModel::Class(x) => interp_class(x, t, fuel),
        AstModel::Defer(x) => done(ValueModel::Unit, t.deferred(x.content.content)),
        AstModel::Delete(x) => interp_delete(x.names, 0, t),
    }
}

/// The branches from `i` on: the first whose condition is absent or
/// evaluates to `true` is chosen, and only its body runs. Without such a
/// branch the result is the unit value.
pub open spec fn interp_branches(
    conditions: Seq<ConditionModel>,
    i: nat,
    t: TableModel<ValueModel>,
    fuel: nat,
) -> Outcome<ValueModel>
    decreases fuel, 1int, conditions, conditions.len() - i,
{
    if i >= conditions.len() {
        done(ValueModel::Unit, t)
    } else {
        match conditions[i as int].condition {
            None => interp_block(conditions[i as int].if_true.content, t, fuel, true, false),
            Some(c) => {
                let e = interp(c, t, fuel);
                match e.result {
                    Err(_) => e,
                    Ok(v) => if v == ValueModel::Bool(true) {
                        interp_block(conditions[i as int].if_true.content, e.table, fuel, true, false)
                    } else {
                        interp_branches(conditions, i + 1, e.table, fuel)
                    },
                }
            },
        }
    }
}

/// The statements from `i` on, in order. A statement that fails, or that
/// evaluates to a value on its way out of a call, ends the sequence. The
/// result is that of the last statement that ran, or the unit value.
pub open spec fn interp_stmts(
    stmts: Seq<AstModel>,
    i: nat,
    t: TableModel<ValueModel>,
    fuel: nat,
) -> Outcome<ValueModel>
    decreases fuel, 1int, stmts, stmts.len() - i,
{
    if i >= stmts.len() {
        done(ValueModel::Unit, t)
    } else {
        let e = interp(stmts[i as int], t, fuel);
        match e.result {
            Err(_) => e,
            Ok(v) => if v is Return || i + 1 == stmts.len() {
                e
            } else {
                interp_stmts(stmts, i + 1, e.table, fuel)
            },
        }
    }
}

/// A block: with `add_frame` the statements run in a scope of their own,
/// which ends with the block, whether the statements fail or not. Where the
/// scope's deferred blocks return early, their value replaces the block's.
/// With `returnable` the block is the body of a call, and a value on its way
/// out has arrived.
pub open spec fn interp_block(
    stmts: Seq<AstModel>,
    t: TableModel<ValueModel>,
    fuel: nat,
    add_frame: bool,
    returnable: bool,
) -> Outcome<ValueModel>
    decreases fuel, 1int, stmts, stmts.len() + 1,
{
    let start = if add_frame {
        t.pushed(None, FrameType::Normal)
    } else {
        t
    };
    let body = interp_stmts(stmts, 0, start, fuel);
    match body.result {
        Err(e) => failed(
            e,
            if add_frame {
                body.table.popped()
            } else {
                body.table
            },
        ),
        Ok(v) => {
            let end = if add_frame {
                pop_frame(body.table, fuel)
            } else {
                done(None, body.table)
            };
            match end.result {
                Err(e) => failed(e, end.table),
                Ok(early) => {
                    let value = match early {
                        Some(r) => ValueModel::Return(Box::new(r)),
                        None => v,
                    };
                    done(
                        if returnable {
                            unwrapped(value)
                        } else {
                            value
                        },
                        end.table,
                    )
                },
            }
        },
    }
}

/// The end of the innermost scope: its deferred blocks run in the order in
/// which they were deferred, in the scope itself. The first that evaluates
/// to a value on its way out of a call ends the run, and the value it
/// carries is the result. Then the scope is dropped, also where a deferred
/// block fails.
pub open spec fn pop_frame(t: TableModel<ValueModel>, fuel: nat) -> Outcome<Option<ValueModel>>
    decreases fuel, 0int, t, 0nat,
{
    let defers = t.frames[0].defer;
    if defers.len() == 0 {
        done(None, t.popped())
    } else if fuel == 0 {
        failed(internal(Seq::empty(), msg_depth()), t.popped())
    } else {
        let run = run_defers(defers, 0, t, (fuel - 1) as nat);
        Outcome { result: run.result, table: run.table.popped() }
    }
}

/// The deferred blocks from `i` on.
pub open spec fn run_defers(
    defers: Seq<Seq<AstModel>>,
    i: nat,
    t: TableModel<ValueModel>,
    fuel: nat,
) -> Outcome<Option<ValueModel>>
    decreases fuel, 1int, defers, defers.len() - i,
{
    if i >= defers.len() {
        done(None, t)
    } else {
        let e = interp_block(defers[i as int], t, fuel, false, false);
        match e.result {
            Err(err) => failed(err, e.table),
            Ok(v) => match v {
                ValueModel::Return(inner) => done(Some(*inner), e.table),
                _ => run_defers(defers, i + 1, e.table, fuel),
            },
        }
    }
}

/// The arguments from `i` on, evaluated in order and added to `acc`.
pub open spec fn interp_args(
    args: Seq<AstModel>,
    i: nat,
    acc: Seq<ValueModel>,
    t: TableModel<ValueModel>,
    fuel: nat,
) -> Outcome<Seq<ValueModel>>
    decreases fuel, 1int, args, args.len() - i,
{
    if i >= args.len() {
        done(acc, t)
    } else {
        let e = interp(args[i as int], t, fuel);
        match e.result {
            Err(err) => failed(err, e.table),
            Ok(v) => interp_args(args, i + 1, acc.push(v), e.table, fuel),
        }
    }
}

/// A call. Where the called expression is a name with a parent, the parent
/// is the receiver of a method call: the method is looked up by name in the
/// receiver's type and gets the receiver as its first argument.
pub open spec fn interp_call(x: CallModel, t: TableModel<ValueModel>, fuel: nat) -> Outcome<
    ValueModel,
>
    decreases fuel, 1int, x, 1nat,
{
    match *x.called {
        AstModel::Ident(m) => match m.parent {
            Some(p) => {
                let r = interp(*p, t, fuel);
                match r.result {
                    Err(_) => r,
                    Ok(receiver) => {
                        let rest = interp_args(x.args, 0, seq![receiver], r.table, fuel);
                        match rest.result {
                            Err(e) => failed(e, rest.table),
                            Ok(args) => match find_method(receiver, m.name) {
                                None => failed(
                                    ErrorModel::error_3_1_1(
                                        place(m.name_span, m.name),
                                        receiver,
                                        m.name,
                                    ),
                                    rest.table,
                                ),
                                Some(f) => apply(
                                    f,
                                    args,
                                    rest.table,
                                    fuel,
                                    call_site(x, m.name_span, m.name),
                                ),
                            },
                        }
                    },
                }
            },
            None => plain_call(x, t, fuel),
        },
        _ => plain_call(x, t, fuel),
    }
}

/// A call of the procedure that the called expression evaluates to.
pub open spec fn plain_call(x: CallModel, t: TableModel<ValueModel>, fuel: nat) -> Outcome<
    ValueModel,
>
    decreases fuel, 1int, x, 0nat,
{
    let r = interp(*x.called, t, fuel);
    match r.result {
        Err(_) => r,
        Ok(f) => {
            let rest = interp_args(x.args, 0, Seq::empty(), r.table, fuel);
            match rest.result {
                Err(e) => failed(e, rest.table),
                Ok(args) => apply(
                    f,
                    args,
                    rest.table,
                    fuel,
                    call_site(x, callee_span(*x.called), callee_name(*x.called)),
                ),
            }
        },
    }
}

/// The call of the value `f` on `args`. A builtin operation computes its
/// result, or fails where it has none. A procedure of the language runs in a
/// new scope, a function scope if it is a function: its parameters are
/// bound, its body runs, and its scope ends. Any other value is not callable.
pub open spec fn apply(
    f: ValueModel,
    args: Seq<ValueModel>,
    t: TableModel<ValueModel>,
    fuel: nat,
    site: CallSite,
) -> Outcome<ValueModel>
    decreases fuel, 0int, f, 0nat,
{
    match f {
        ValueModel::Proc(ProcModel::Builtin { owner, op }) => match builtin_result(owner, op, args) {
            Some(v) => done(v, t),
            None => failed(unsuccessful(site.place, op.method(), args), t),
        },
        ValueModel::Proc(ProcModel::Defined { is_fn, args: params, return_type, content }) => {
            if fuel == 0 {
                failed(internal(site.place, msg_depth()), t)
            } else {
                let inner = (fuel - 1) as nat;
                let data = FrameDataModel {
                    position: site.position,
                    raw_call: site.name,
                    args: bound_args(params, args, shorter(params.len(), args.len())),
                };
                let start = t.pushed(
                    Some(data),
                    if is_fn {
                        FrameType::Function
                    } else {
                        FrameType::Normal
                    },
                );
                let bound = bind_params(params, 0, args, start, inner, site.place);
                match bound.result {
                    Err(e) => failed(e, bound.table.popped()),
                    Ok(_) => {
                        let body = interp_block(content.content, bound.table, inner, false, true);
                        match body.result {
                            Err(e) => failed(e, body.table.popped()),
                            Ok(v) => {
                                let end = pop_frame(body.table, inner);
                                match end.result {
                                    Err(e) => failed(e, end.table),
                                    Ok(early) => done(
                                        match early {
                                            Some(r) => r,
                                            None => v,
                                        },
                                        end.table,
                                    ),
                                }
                            },
                        }
                    },
                }
            }
        },
        _ => failed(internal(site.place, msg_not_callable()), t),
    }
}

/// The parameters from `i` on, each declared in the innermost scope: with
/// the argument in its place, or else with the value of its default, or else
/// the call fails with Unfilled-Argument.
pub open spec fn bind_params(
    params: Seq<ArgumentModel>,
    i: nat,
    args: Seq<ValueModel>,
    t: TableModel<ValueModel>,
    fuel: nat,
    position: Seq<(Position, Seq<char>)>,
) -> Outcome<()>
    decreases fuel, 1int, params, params.len() - i,
{
    if i >= params.len() {
        done((), t)
    } else if i < args.len() {
        bind_params(
            params,
            i + 1,
            args,
            t.declared(params[i as int].name, args[i as int]),
            fuel,
            position,
        )
    } else {
        match params[i as int].default {
            None => failed(ErrorModel::error_2_3(position, params[i as int].name), t),
            Some(d) => {
                let e = interp(d, t, fuel);
                match e.result {
                    Err(err) => failed(err, e.table),
                    Ok(v) => bind_params(
                        params,
                        i + 1,
                        args,
                        e.table.declared(params[i as int].name, v),
                        fuel,
                        position,
                    ),
                }
            },
        }
    }
}

/// The name under which a class or a struct is known.
pub open spec fn class_name(is_struct: bool) -> Seq<char> {
    if is_struct {
        "struct"@
    } else {
        "class"@
    }
}

/// A class evaluates to a new definition: its methods and the types and
/// defaults of its fields are evaluated in order, and the definition gets
/// the next free identity.
pub open spec fn interp_class(x: ClassModel, t: TableModel<ValueModel>, fuel: nat) -> Outcome<
    ValueModel,
>
    decreases fuel, 1int, x, 0nat,
{
    let methods = class_methods(x.implementations, 0, Seq::empty(), t, fuel);
    match methods.result {
        Err(e) => failed(e, methods.table),
        Ok(implementations) => {
            let fields = class_fields(x.inst_fields, 0, Seq::empty(), methods.table, fuel);
            match fields.result {
                Err(e) => failed(e, fields.table),
                Ok(inst_fields) => {
                    let end = fields.table;
                    if end.next_id == u64::MAX {
                        failed(internal(Seq::empty(), msg_no_identity()), end)
                    } else {
                        done(
                            ValueModel::Type(
                                TypeModel::Definition(
                                    TypeDefinitionModel {
                                        id: end.next_id,
                                        name: Some(class_name(x.is_struct)),
                                        inst_name: None,
                                        generics: Seq::empty(),
                                        implementations,
                                        inst_fields,
                                    },
                                ),
                            ),
                            TableModel { next_id: (end.next_id + 1) as u64, ..end },
                        )
                    }
                },
            }
        },
    }
}

pub open spec fn class_methods(
    items: Seq<(Seq<char>, AstModel)>,
    i: nat,
    acc: Seq<(Seq<char>, ValueModel)>,
    t: TableModel<ValueModel>,
    fuel: nat,
) -> Outcome<Seq<(Seq<char>, ValueModel)>>
    decreases fuel, 1int, items, items.len() - i,
{
    if i >= items.len() {
        done(acc, t)
    } else {
        let e = interp(items[i as int].1, t, fuel);
        match e.result {
            Err(err) => failed(err, e.table),
            Ok(v) => class_methods(items, i + 1, acc.push((items[i as int].0, v)), e.table, fuel),
        }
    }
}

pub open spec fn class_fields(
    items: Seq<InstFieldModel>,
    i: nat,
    acc: Seq<FieldDefinitionModel>,
    t: TableModel<ValueModel>,
    fuel: nat,
) -> Outcome<Seq<FieldDefinitionModel>>
    decreases fuel, 1int, items, items.len() - i,
{
    if i >= items.len() {
        done(acc, t)
    } else {
        let e = interp(items[i as int].ty, t, fuel);
        match e.result {
            Err(err) => failed(err, e.table),
            Ok(v) => match v {
                ValueModel::Type(ty) => match items[i as int].default {
                    None => class_fields(
                        items,
                        i + 1,
                        acc.push(
                            FieldDefinitionModel { name: items[i as int].name, ty, default: None },
                        ),
                        e.table,
                        fuel,
                    ),
                    Some(d) => {
                        let dv = interp(d, e.table, fuel);
                        match dv.result {
                            Err(err) => failed(err, dv.table),
                            Ok(value) => class_fields(
                                items,
                                i + 1,
                                acc.push(
                                    FieldDefinitionModel {
                                        name: items[i as int].name,
                                        ty,
                                        default: Some(value),
                                    },
                                ),
                                dv.table,
                                fuel,
                            ),
                        }
                    },
                },
                _ => failed(
                    internal(place(span_of(items[i as int].ty), ""@), msg_not_a_type()),
                    e.table,
                ),
            },
        }
    }
}

/// The names from `i` on, each taken out of the innermost scope. A name
/// that the innermost scope does not bind ends the deletion with
/// Undefined-Variable.
pub open spec fn interp_delete(names: Seq<IdentModel>, i: nat, t: TableModel<ValueModel>) -> Outcome<
    ValueModel,
>
    decreases names.len() - i,
{
    if i >= names.len() {
        done(ValueModel::Unit, t)
    } else {
        let name = names[i as int].name;
        if t.frames[0].heap.contains_key(name) {
            interp_delete(names, i + 1, t.deleted(name))
        } else {
            failed(ErrorModel::error_3_0(place(names[i as int].name_span, name), name), t)
        }
    }
}

/// Whether an error is one of those that the interpreter raises.
pub open spec fn raised_at_runtime(e: ErrorModel) -> bool {
    ||| e.code == "0.0"@
    ||| e.code == "2.2"@
    ||| e.code == "2.3"@
    ||| e.code == "3.0"@
    ||| e.code == "3.1.1"@
    ||| e.code == "3.2"@
    ||| e.code == "4.0.1"@
    ||| e.code == "4.1.0"@
    ||| e.code == "4.1.1"@
}

/// The interpreter never raises Type-Mismatch: a value of the wrong type is
/// found by the type checker or not at all.
pub proof fn lemma_no_type_mismatch_at_runtime(e: ErrorModel)
    requires
        raised_at_runtime(e),
    ensures
        e.code != "4.3"@,
{
    reveal_strlit("0.0");
    reveal_strlit("2.2");
    reveal_strlit("2.3");
    reveal_strlit("3.0");
    reveal_strlit("3.1.1");
    reveal_strlit("3.2");
    reveal_strlit("4.0.1");
    reveal_strlit("4.1.0");
    reveal_strlit("4.1.1");
    reveal_strlit("4.3");
    if e.code == "4.3"@ {
        assert(e.code.len() == 3);
        assert(e.code[0] == '4');
    }
}

/// What an executable evaluation owes: the result and the table that the
/// meaning of the program gives, an unchanged budget and an unchanged number
/// of scopes, a well-formed table, and no error but those of the interpreter.
pub open spec fn agrees<R>(
    before: TableModel<ValueModel>,
    after: TableModel<ValueModel>,
    budget_before: usize,
    budget_after: usize,
    expected: Outcome<R>,
    got: Result<R, ErrorModel>,
) -> bool {
    &&& got == expected.result
    &&& after == expected.table
    &&& budget_after == budget_before
    &&& after.wf()
    &&& after.frames.len() == before.frames.len()
    &&& got matches Err(e) ==> raised_at_runtime(e)
}

/// As [`agrees`], for an evaluation that ends the innermost scope.
pub open spec fn agrees_popped<R>(
    before: TableModel<ValueModel>,
    after: TableModel<ValueModel>,
    budget_before: usize,
    budget_after: usize,
    expected: Outcome<R>,
    got: Result<R, ErrorModel>,
) -> bool {
    &&& got == expected.result
    &&& after == expected.table
    &&& budget_after == budget_before
    &&& after.wf()
    &&& after.frames.len() == before.frames.len() - 1
    &&& got matches Err(e) ==> raised_at_runtime(e)
}

pub open spec fn result_model(r: Result<Value, ZyxtError>) -> Result<ValueModel, ErrorModel> {
    match r {
        Ok(v) => Ok(v@),
        Err(e) => Err(e@),
    }
}

pub open spec fn results_model(r: Result<Vec<Value>, ZyxtError>) -> Result<
    Seq<ValueModel>,
    ErrorModel,
> {
    match r {
        Ok(v) => Ok(Value::seq_model(v)),
        Err(e) => Err(e@),
    }
}

pub open spec fn early_model(r: Result<Option<Value>, ZyxtError>) -> Result<
    Option<ValueModel>,
    ErrorModel,
> {
    match r {
        Ok(Some(v)) => Ok(Some(v@)),
        Ok(None) => Ok(None),
        Err(e) => Err(e@),
    }
}

pub open spec fn unit_model(r: Result<(), ZyxtError>) -> Result<(), ErrorModel> {
    match r {
        Ok(_) => Ok(()),
        Err(e) => Err(e@),
    }
}

} // verus!
