//! The type checker: the type of a node, what it does to the table of types,
//! and the node as later stages are to see it.
//!
//! A declaration whose annotated type is not the type of its content is not
//! an error by itself: the content is wrapped in a call of its type's
//! conversion method, and the checked node holds that call. It is
//! Type-Mismatch only if the content's type has no conversion method.

use vstd::prelude::*;
use crate::ast::{
    ArgumentModel, AssignModel, AstModel, BlockModel, CallModel, ClassModel, ConditionModel,
    DeclareModel, DeferModel, IdentModel, IfModel, InstFieldModel, LiteralModel, ProcedureModel,
    ReturnModel,
};
use crate::builtins::builtin_return_type;
use crate::describe::{same_type, type_of};
use crate::desugar::method_call;
use crate::errors::{ErrorModel, internal, place};
use crate::semantics::{class_name, msg_no_identity, msg_not_desugared, static_type};
use crate::interpreter_data::{FrameType, TableModel};
use crate::position::Span;
use crate::primitives::{find_named, implementations};
use crate::reconstruct::source;
use crate::span::span_of;
use crate::tables::instance_of;
use crate::token::{Flag, OprType};
use crate::value::{
    FieldDefinitionModel, Prim, ProcModel, TypeDefinitionModel, TypeModel, ValueModel,
};

verus! {

/// A result together with the table of types after the check.
pub struct Checked<R> {
    pub result: Result<R, ErrorModel>,
    pub table: TableModel<TypeModel>,
}

pub open spec fn passed<R>(value: R, table: TableModel<TypeModel>) -> Checked<R> {
    Checked { result: Ok(value), table }
}

pub open spec fn refused<R>(error: ErrorModel, table: TableModel<TypeModel>) -> Checked<R> {
    Checked { result: Err(error), table }
}

pub open spec fn msg_not_a_type_annotation() -> Seq<char> {
    "Type annotation is not a type"@
}

pub open spec fn msg_field_with_parameters() -> Seq<char> {
    "Instance field in a struct with parameters"@
}

pub open spec fn msg_init_with_parameters() -> Seq<char> {
    "Constructor in a struct with parameters"@
}

/// The method named `name` of the values of type `ty`.
pub open spec fn type_method(ty: TypeModel, name: Seq<char>) -> Option<ValueModel> {
    match ty {
        TypeModel::Any => None,
        TypeModel::Instance { id, .. } => match Prim::with_ident(id) {
            Some(p) => find_named(implementations(p), name),
            None => None,
        },
        TypeModel::Definition(d) => find_named(d.implementations, name),
    }
}

/// The type of what a call of the method `f` returns.
pub open spec fn return_type_of(f: ValueModel) -> TypeModel {
    match f {
        ValueModel::Proc(ProcModel::Builtin { owner, op }) => builtin_return_type(owner, op),
        ValueModel::Proc(ProcModel::Defined { return_type, .. }) => return_type,
        _ => TypeModel::Any,
    }
}

/// The call that converts the value of `content` to the type `ty`.
pub open spec fn cast_call(content: AstModel, ty: TypeModel) -> AstModel {
    AstModel::Call(
        method_call(
            OprType::TypeCast,
            None,
            content,
            seq![AstModel::Literal(LiteralModel { span: None, content: ValueModel::Type(ty) })],
        ),
    )
}

/// The type that a type annotation holds, if it is a literal type.
pub open spec fn annotated(a: AstModel) -> Option<TypeModel> {
    match a {
        AstModel::Literal(l) => match l.content {
            ValueModel::Type(t) => Some(t),
            _ => None,
        },
        _ => None,
    }
}

/// Whether the flag `f` is among `flags`.
pub open spec fn has_flag(flags: Seq<(Flag, Span)>, f: Flag) -> bool {
    exists|i: int| 0 <= i < flags.len() && (#[trigger] flags[i]).0 == f
}

/// The value that a node stands for without being run: a procedure literal
/// is its procedure, a literal its value, anything else the unit value.
pub open spec fn static_value(a: AstModel) -> ValueModel {
    match a {
        AstModel::Literal(l) => l.content,
        AstModel::Procedure(x) => ValueModel::Proc(
            ProcModel::Defined {
                is_fn: x.is_fn,
                args: x.args,
                return_type: static_type(x.return_type),
                content: x.content,
            },
        ),
        _ => ValueModel::Unit,
    }
}

/// The methods of a class, each as the value it stands for.
pub open spec fn static_values(items: Seq<(Seq<char>, AstModel)>) -> Seq<(Seq<char>, ValueModel)> {
    Seq::new(items.len(), |i: int| (items[i].0, static_value(items[i].1)))
}

/// The place of the first field from `i` on that is named `name`.
pub open spec fn field_index(fields: Seq<InstFieldModel>, name: Seq<char>, i: nat) -> Option<int>
    decreases fields.len() - i,
{
    if i >= fields.len() {
        None
    } else if fields[i as int].name == name {
        Some(i as int)
    } else {
        field_index(fields, name, i + 1)
    }
}

/// The type that the type expression of a field denotes: the type it holds
/// if it is a literal type, else the instances of the definition it names,
/// else the type of the expression.
pub open spec fn denoted_type(expression: AstModel, checked: TypeModel) -> TypeModel {
    match annotated(expression) {
        Some(t) => t,
        None => match checked {
            TypeModel::Definition(d) => instance_of(d),
            _ => checked,
        },
    }
}

/// The type of the node `a` in the table `t`, with the node as later stages
/// are to see it, and the table afterwards.
pub open spec fn typecheck(a: AstModel, t: TableModel<TypeModel>) -> Checked<(TypeModel, AstModel)>
    decreases a, 0nat,
{
    match a {
        AstModel::Literal(x) => passed((type_of(x.content), a), t),
        AstModel::Ident(x) => match t.get(x.name) {
            Some(ty) => passed((ty, a), t),
            None => refused(ErrorModel::error_3_0(place(x.name_span, x.name), x.name), t),
        },
        AstModel::Declare(x) => match *x.variable {
            AstModel::Ident(target) => {
                let c = typecheck(*x.content, t);
                match c.result {
                    Err(e) => refused(e, c.table),
                    Ok((content_type, content)) => match x.ty {
                        None => passed(
                            (
                                content_type,
                                AstModel::Declare(DeclareModel { content: Box::new(content), ..x }),
                            ),
                            c.table.declared_type(target.name, content_type),
                        ),
                        Some(annotation) => match annotated(*annotation) {
                            None => refused(
                                internal(
                                    place(span_of(*annotation), ""@),
                                    msg_not_a_type_annotation(),
                                ),
                                c.table,
                            ),
                            Some(ty) => {
                                let table = c.table.declared_type(target.name, ty);
                                if same_type(content_type, ty) {
                                    passed(
                                        (
                                            content_type,
                                            AstModel::Declare(
                                                DeclareModel { content: Box::new(content), ..x },
                                            ),
                                        ),
                                        table,
                                    )
                                } else if type_method(content_type, OprType::TypeCast.method())
                                    is None {
                                    refused(
                                        ErrorModel::error_4_3(
                                            place(span_of(a), target.name),
                                            target.name,
                                            ty,
                                            content_type,
                                        ),
                                        table,
                                    )
                                } else {
                                    passed(
                                        (
                                            content_type,
                                            AstModel::Declare(
                                                DeclareModel {
                                                    content: Box::new(cast_call(content, ty)),
                                                    ..x
                                                },
                                            ),
                                        ),
                                        table,
                                    )
                                }
                            },
                        },
                    },
                }
            },
            _ => refused(
                ErrorModel::error_2_2(place(span_of(*x.variable), source(*x.variable))),
                t,
            ),
        },
        AstModel::Assign(x) => match *x.variable {
            AstModel::Ident(target) => {
                let c = typecheck(*x.content, t);
                match c.result {
                    Err(e) => refused(e, c.table),
                    Ok((content_type, content)) => match c.table.get(target.name) {
                        None => refused(
                            ErrorModel::error_3_0(
                                place(span_of(*x.variable), target.name),
                                target.name,
                            ),
                            c.table,
                        ),
                        Some(var_type) => if same_type(content_type, var_type) {
                            passed(
                                (
                                    var_type,
                                    AstModel::Assign(AssignModel { content: Box::new(content), ..x }),
                                ),
                                c.table,
                            )
                        } else {
                            refused(
                                ErrorModel::error_4_3(
                                    place(span_of(a), target.name),
                                    target.name,
                                    var_type,
                                    content_type,
                                ),
                                c.table,
                            )
                        },
                    },
                }
            },
            _ => refused(
                ErrorModel::error_2_2(place(span_of(*x.variable), source(*x.variable))),
                t,
            ),
        },
        AstModel::If(x) => {
            let c = check_branches(x.conditions, 0, Seq::empty(), None, t);
            match c.result {
                Err(e) => refused(e, c.table),
                Ok((ty, conditions)) => passed((ty, AstModel::If(IfModel { conditions })), c.table),
            }
        },
        AstModel::Block(x) => {
            let c = check_block(x, t);
            match c.result {
                Err(e) => refused(e, c.table),
                Ok((ty, block)) => passed((ty, AstModel::Block(block)), c.table),
            }
        },
        AstModel::Call(x) => check_call(x, t),
        AstModel::BinaryOpr(x) => refused(internal(place(span_of(a), ""@), msg_not_desugared()), t),
        AstModel::UnaryOpr(x) => refused(internal(place(span_of(a), ""@), msg_not_desugared()), t),
        AstModel::Return(x) => {
            let c = typecheck(*x.value, t);
            match c.result {
                Err(e) => refused(e, c.table),
                Ok((_, value)) => passed(
                    (
                        Prim::Unit.instance(),
                        AstModel::Return(ReturnModel { value: Box::new(value), ..x }),
                    ),
                    c.table,
                ),
            }
        },
        AstModel::Procedure(x) => check_procedure(x, t),
        AstModel::Class(x) => check_class(x, t),
        AstModel::Defer(x) => {
            let c = check_block(x.content, t);
            match c.result {
                Err(e) => refused(e, c.table),
                Ok((_, content)) => passed(
                    (Prim::Unit.instance(), AstModel::Defer(DeferModel { content, ..x })),
                    c.table,
                ),
            }
        },
        AstModel::Delete(x) => check_delete(x.names, 0, a, t),
    }
}

/// The statements from `i` on, checked in order. The type is that of the
/// last statement, or `last` where there is none.
pub open spec fn check_stmts(
    stmts: Seq<AstModel>,
    i: nat,
    acc: Seq<AstModel>,
    last: TypeModel,
    t: TableModel<TypeModel>,
) -> Checked<(TypeModel, Seq<AstModel>)>
    decreases stmts, stmts.len() - i,
{
    if i >= stmts.len() {
        passed((last, acc), t)
    } else {
        let c = typecheck(stmts[i as int], t);
        match c.result {
            Err(e) => refused(e, c.table),
            Ok((ty, node)) => check_stmts(stmts, i + 1, acc.push(node), ty, c.table),
        }
    }
}

/// A block, checked in a scope of its own, which ends with the check
/// whether it fails or not. The type of an empty block is the unit type.
pub open spec fn check_block(x: BlockModel, t: TableModel<TypeModel>) -> Checked<
    (TypeModel, BlockModel),
>
    decreases x, 0nat,
{
    let body = check_stmts(
        x.content,
        0,
        Seq::empty(),
        Prim::Unit.instance(),
        t.pushed(None, FrameType::Normal),
    );
    match body.result {
        Err(e) => refused(e, body.table.popped()),
        Ok((ty, content)) => passed((ty, BlockModel { content, ..x }), body.table.popped()),
    }
}

/// The branches from `i` on, each with its condition and its body checked.
/// The type is that of the first body, or the unit type without a branch.
pub open spec fn check_branches(
    conditions: Seq<ConditionModel>,
    i: nat,
    acc: Seq<ConditionModel>,
    first: Option<TypeModel>,
    t: TableModel<TypeModel>,
) -> Checked<(TypeModel, Seq<ConditionModel>)>
    decreases conditions, conditions.len() - i,
{
    if i >= conditions.len() {
        passed(
            (
                match first {
                    Some(ty) => ty,
                    None => Prim::Unit.instance(),
                },
                acc,
            ),
            t,
        )
    } else {
        let branch = conditions[i as int];
        let c = check_opt(branch.condition, t);
        match c.result {
            Err(e) => refused(e, c.table),
            Ok(condition) => {
                let b = check_block(branch.if_true, c.table);
                match b.result {
                    Err(e) => refused(e, b.table),
                    Ok((ty, if_true)) => check_branches(
                        conditions,
                        i + 1,
                        acc.push(ConditionModel { condition, if_true, ..branch }),
                        match first {
                            Some(f) => Some(f),
                            None => Some(ty),
                        },
                        b.table,
                    ),
                }
            },
        }
    }
}

/// An optional node, checked if it is there.
pub open spec fn check_opt(o: Option<AstModel>, t: TableModel<TypeModel>) -> Checked<
    Option<AstModel>,
>
    decreases o, 0nat,
{
    match o {
        None => passed(None, t),
        Some(a) => {
            let c = typecheck(a, t);
            match c.result {
                Err(e) => refused(e, c.table),
                Ok((_, node)) => passed(Some(node), c.table),
            }
        },
    }
}

/// The nodes from `i` on, checked in order.
pub open spec fn check_args(
    args: Seq<AstModel>,
    i: nat,
    acc: Seq<AstModel>,
    t: TableModel<TypeModel>,
) -> Checked<Seq<AstModel>>
    decreases args, args.len() - i,
{
    if i >= args.len() {
        passed(acc, t)
    } else {
        let c = typecheck(args[i as int], t);
        match c.result {
            Err(e) => refused(e, c.table),
            Ok((_, node)) => check_args(args, i + 1, acc.push(node), c.table),
        }
    }
}

/// A call. A method call has the return type of the method, which the type
/// of the receiver must have. Any other call has type `Any`.
pub open spec fn check_call(x: CallModel, t: TableModel<TypeModel>) -> Checked<
    (TypeModel, AstModel),
>
    decreases x, 1nat,
{
    match *x.called {
        AstModel::Ident(m) => match m.parent {
            Some(p) => {
                let r = typecheck(*p, t);
                match r.result {
                    Err(e) => refused(e, r.table),
                    Ok((receiver_type, receiver)) => {
                        let rest = check_args(x.args, 0, Seq::empty(), r.table);
                        match rest.result {
                            Err(e) => refused(e, rest.table),
                            Ok(args) => match type_method(receiver_type, m.name) {
                                None => refused(
                                    ErrorModel::error_3_1_0(
                                        place(m.name_span, m.name),
                                        source(*p),
                                        receiver_type,
                                        m.name,
                                    ),
                                    rest.table,
                                ),
                                Some(f) => passed(
                                    (
                                        return_type_of(f),
                                        AstModel::Call(
                                            CallModel {
                                                called: Box::new(
                                                    AstModel::Ident(
                                                        IdentModel {
                                                            parent: Some(Box::new(receiver)),
                                                            ..m
                                                        },
                                                    ),
                                                ),
                                                args,
                                                ..x
                                            },
                                        ),
                                    ),
                                    rest.table,
                                ),
                            },
                        }
                    },
                }
            },
            None => check_plain_call(x, t),
        },
        _ => check_plain_call(x, t),
    }
}

pub open spec fn check_plain_call(x: CallModel, t: TableModel<TypeModel>) -> Checked<
    (TypeModel, AstModel),
>
    decreases x, 0nat,
{
    let r = typecheck(*x.called, t);
    match r.result {
        Err(e) => refused(e, r.table),
        Ok((_, called)) => {
            let rest = check_args(x.args, 0, Seq::empty(), r.table);
            match rest.result {
                Err(e) => refused(e, rest.table),
                Ok(args) => passed(
                    (
                        TypeModel::Any,
                        AstModel::Call(CallModel { called: Box::new(called), args, ..x }),
                    ),
                    rest.table,
                ),
            }
        },
    }
}

/// The table with the parameters from `i` on declared, each with the type
/// that its annotation names.
pub open spec fn declare_params(params: Seq<ArgumentModel>, i: nat, t: TableModel<TypeModel>) -> TableModel<
    TypeModel,
>
    decreases params.len() - i,
{
    if i >= params.len() {
        t
    } else {
        declare_params(
            params,
            i + 1,
            t.declared_type(params[i as int].name, static_type(Some(Box::new(params[i as int].ty)))),
        )
    }
}

/// A procedure literal: its body is checked in a scope that holds its
/// parameters, a function scope if it is a function. Its type is `Any`.
pub open spec fn check_procedure(x: ProcedureModel, t: TableModel<TypeModel>) -> Checked<
    (TypeModel, AstModel),
>
    decreases x, 0nat,
{
    let start = declare_params(
        x.args,
        0,
        t.pushed(
            None,
            if x.is_fn {
                FrameType::Function
            } else {
                FrameType::Normal
            },
        ),
    );
    let body = check_stmts(x.content.content, 0, Seq::empty(), Prim::Unit.instance(), start);
    match body.result {
        Err(e) => refused(e, body.table.popped()),
        Ok((_, content)) => passed(
            (
                TypeModel::Any,
                AstModel::Procedure(
                    ProcedureModel { content: BlockModel { content, ..x.content }, ..x },
                ),
            ),
            body.table.popped(),
        ),
    }
}

/// The field that a checked statement of a class body declares, if it is a
/// declaration of a name with the instance flag: its type is the annotated
/// type, or without an annotation the type `content_type` of the content,
/// and its default is the content.
pub open spec fn field_of(node: AstModel, content_type: TypeModel) -> Option<
    (InstFieldModel, FieldDefinitionModel),
> {
    match node {
        AstModel::Declare(d) => match *d.variable {
            AstModel::Ident(target) => if has_flag(d.flags, Flag::Inst) {
                let ty = match d.ty {
                    Some(annotation) => match annotated(*annotation) {
                        Some(ty) => ty,
                        None => content_type,
                    },
                    None => content_type,
                };
                Some(
                    (
                        InstFieldModel {
                            name: target.name,
                            ty: AstModel::Literal(
                                LiteralModel { span: None, content: ValueModel::Type(ty) },
                            ),
                            default: Some(*d.content),
                        },
                        FieldDefinitionModel {
                            name: target.name,
                            ty,
                            default: Some(static_value(*d.content)),
                        },
                    ),
                )
            } else {
                None
            },
            _ => None,
        },
        _ => None,
    }
}

/// The fields with `f` in place of the field of its name, or added, and the
/// definitions likewise with `d`.
pub open spec fn with_field(
    fields: (Seq<InstFieldModel>, Seq<FieldDefinitionModel>),
    f: (InstFieldModel, FieldDefinitionModel),
) -> (Seq<InstFieldModel>, Seq<FieldDefinitionModel>) {
    match field_index(fields.0, f.0.name, 0) {
        Some(i) => (fields.0.update(i, f.0), fields.1.update(i, f.1)),
        None => (fields.0.push(f.0), fields.1.push(f.1)),
    }
}

/// The statements of a class body from `i` on, checked in order. A checked
/// declaration that carries the instance flag gives the class a field; a
/// struct with parameters can have none.
pub open spec fn check_class_body(
    stmts: Seq<AstModel>,
    i: nat,
    acc: Seq<AstModel>,
    fields: (Seq<InstFieldModel>, Seq<FieldDefinitionModel>),
    has_args: bool,
    t: TableModel<TypeModel>,
) -> Checked<(Seq<AstModel>, (Seq<InstFieldModel>, Seq<FieldDefinitionModel>))>
    decreases stmts, stmts.len() - i,
{
    if i >= stmts.len() {
        passed((acc, fields), t)
    } else {
        let c = typecheck(stmts[i as int], t);
        match c.result {
            Err(e) => refused(e, c.table),
            Ok((ty, node)) => match field_of(node, ty) {
                Some(f) => if has_args {
                    refused(
                        internal(place(span_of(node), ""@), msg_field_with_parameters()),
                        c.table,
                    )
                } else {
                    check_class_body(
                        stmts,
                        i + 1,
                        acc.push(node),
                        with_field(fields, f),
                        has_args,
                        c.table,
                    )
                },
                None => check_class_body(stmts, i + 1, acc.push(node), fields, has_args, c.table),
            },
        }
    }
}

/// The methods from `i` on, checked in order.
pub open spec fn check_methods(
    items: Seq<(Seq<char>, AstModel)>,
    i: nat,
    acc: Seq<(Seq<char>, AstModel)>,
    t: TableModel<TypeModel>,
) -> Checked<Seq<(Seq<char>, AstModel)>>
    decreases items, items.len() - i,
{
    if i >= items.len() {
        passed(acc, t)
    } else {
        let c = typecheck(items[i as int].1, t);
        match c.result {
            Err(e) => refused(e, c.table),
            Ok((_, node)) => check_methods(items, i + 1, acc.push((items[i as int].0, node)), c.table),
        }
    }
}

/// The fields from `i` on that the body did not declare again, checked in
/// order: the type expression, then the default, whose type must be the
/// type that the type expression denotes.
pub open spec fn check_fields(
    fields: Seq<InstFieldModel>,
    i: nat,
    acc: (Seq<InstFieldModel>, Seq<FieldDefinitionModel>),
    declared: Seq<InstFieldModel>,
    t: TableModel<TypeModel>,
) -> Checked<(Seq<InstFieldModel>, Seq<FieldDefinitionModel>)>
    decreases fields, fields.len() - i,
{
    if i >= fields.len() {
        passed(acc, t)
    } else if field_index(declared, fields[i as int].name, 0) is Some {
        check_fields(fields, i + 1, acc, declared, t)
    } else {
        let c = typecheck_field(fields[i as int], t);
        match c.result {
            Err(e) => refused(e, c.table),
            Ok((node, definition)) => check_fields(
                fields,
                i + 1,
                (acc.0.push(node), acc.1.push(definition)),
                declared,
                c.table,
            ),
        }
    }
}

/// One field: its checked form and its definition.
pub open spec fn typecheck_field(field: InstFieldModel, t: TableModel<TypeModel>) -> Checked<
    (InstFieldModel, FieldDefinitionModel),
>
    decreases field, 0nat,
{
    let c = typecheck(field.ty, t);
    match c.result {
        Err(e) => refused(e, c.table),
        Ok((checked, ty_node)) => {
            let ty = denoted_type(field.ty, checked);
            match field.default {
                None => passed(
                    (
                        InstFieldModel { ty: ty_node, ..field },
                        FieldDefinitionModel { name: field.name, ty, default: None },
                    ),
                    c.table,
                ),
                Some(d) => {
                    let dc = typecheck(d, c.table);
                    match dc.result {
                        Err(e) => refused(e, dc.table),
                        Ok((default_type, default_node)) => if same_type(ty, default_type) {
                            passed(
                                (
                                    InstFieldModel {
                                        ty: ty_node,
                                        default: Some(default_node),
                                        ..field
                                    },
                                    FieldDefinitionModel {
                                        name: field.name,
                                        ty,
                                        default: Some(static_value(default_node)),
                                    },
                                ),
                                dc.table,
                            )
                        } else {
                            refused(
                                ErrorModel::error_4_3(
                                    place(span_of(d), field.name),
                                    field.name,
                                    ty,
                                    default_type,
                                ),
                                dc.table,
                            )
                        },
                    }
                },
            }
        },
    }
}

/// What a class does inside the scope that was opened for it: the body is
/// checked, then the methods, then the fields. The fields of the class are
/// its own that the body did not declare again, then those of the body.
pub open spec fn check_class_parts(x: ClassModel, start: TableModel<TypeModel>) -> Checked<
    (TypeModel, AstModel),
>
    decreases x, 0nat,
{
    let body = check_class_body(
        x.content.content,
        0,
        Seq::empty(),
        (Seq::empty(), Seq::empty()),
        x.args is Some,
        start,
    );
    match body.result {
        Err(e) => refused(e, body.table),
        Ok((content, declared)) => if x.args is Some && find_named(x.implementations, "_init"@)
            is Some {
            refused(internal(Seq::empty(), msg_init_with_parameters()), body.table)
        } else {
            let methods = check_methods(x.implementations, 0, Seq::empty(), body.table);
            match methods.result {
                Err(e) => refused(e, methods.table),
                Ok(implementations) => {
                    let fields = check_fields(
                        x.inst_fields,
                        0,
                        (Seq::empty(), Seq::empty()),
                        declared.0,
                        methods.table,
                    );
                    match fields.result {
                        Err(e) => refused(e, fields.table),
                        Ok(own) => {
                            let end = fields.table;
                            if end.next_id == u64::MAX {
                                refused(internal(Seq::empty(), msg_no_identity()), end)
                            } else {
                                passed(
                                    (
                                        TypeModel::Definition(
                                            TypeDefinitionModel {
                                                id: end.next_id,
                                                name: Some(class_name(x.is_struct)),
                                                inst_name: None,
                                                generics: Seq::empty(),
                                                implementations: static_values(implementations),
                                                inst_fields: own.1 + declared.1,
                                            },
                                        ),
                                        AstModel::Class(
                                            ClassModel {
                                                implementations,
                                                inst_fields: own.0 + declared.0,
                                                content: BlockModel { content, ..x.content },
                                                ..x
                                            },
                                        ),
                                    ),
                                    TableModel { next_id: (end.next_id + 1) as u64, ..end },
                                )
                            }
                        },
                    }
                },
            }
        },
    }
}

/// A class: its parts are checked in a scope of their own. Its type is a
/// new definition with the next free identity.
pub open spec fn check_class(x: ClassModel, t: TableModel<TypeModel>) -> Checked<
    (TypeModel, AstModel),
>
    decreases x, 1nat,
{
    let c = check_class_parts(x, t.pushed(None, FrameType::Normal));
    Checked { result: c.result, table: c.table.popped() }
}

/// The names from `i` on, each taken out of the innermost scope.
pub open spec fn check_delete(
    names: Seq<IdentModel>,
    i: nat,
    node: AstModel,
    t: TableModel<TypeModel>,
) -> Checked<(TypeModel, AstModel)>
    decreases names.len() - i,
{
    if i >= names.len() {
        passed((Prim::Unit.instance(), node), t)
    } else {
        let name = names[i as int].name;
        if t.frames[0].heap.contains_key(name) {
            check_delete(names, i + 1, node, t.deleted(name))
        } else {
            refused(ErrorModel::error_3_0(place(names[i as int].name_span, name), name), t)
        }
    }
}

/// What an executable check owes: the result and the table that
/// [`typecheck`] gives, an unchanged number of scopes, and a well-formed
/// table.
pub open spec fn checks<R>(
    before: TableModel<TypeModel>,
    after: TableModel<TypeModel>,
    expected: Checked<R>,
    got: Result<R, ErrorModel>,
) -> bool {
    &&& got == expected.result
    &&& after == expected.table
    &&& after.wf()
    &&& after.frames.len() == before.frames.len()
}

} // verus!
