//! Checking of classes: a class has a new definition as its type.

use vstd::prelude::*;
use vstd::string::*;
use crate::ast::{
    Argument, Ast, AstModel, Block, BlockModel, Class, ClassModel, Declare, Ident, InstField,
    InstFieldModel, Literal, LiteralModel,
};
use crate::errors::{ErrorModel, ZyxtError};
use crate::interpreter_data::{FrameType, InterpreterData};
use crate::position::Span;
use crate::token::Flag;
use crate::typecheck::{
    check_class, check_class_body, check_class_parts, check_fields, check_methods, checks,
    field_index, field_of, has_flag, static_value, static_values, typecheck, typecheck_field,
    with_field,
};
use crate::value::{
    FieldDefinition, FieldDefinitionModel, Type, TypeDefinition, TypeModel, Value, ValueModel,
};
use crate::check_block::checked_model;
use crate::check_node::{annotation_of, static_value_of};

verus! {

/// Whether the instance flag is among `flags`.
fn has_inst_flag(flags: &Vec<(Flag, Span)>) -> (b: bool)
    ensures
        b == has_flag(flags@, Flag::Inst),
{
    let mut i: usize = 0;
    while i < flags.len()
        invariant
            i <= flags.len(),
            forall|k: int| 0 <= k < i ==> (#[trigger] flags@[k]).0 != Flag::Inst,
        decreases flags.len() - i,
    {
        if flags[i].0 == Flag::Inst {
            return true;
        }
        i += 1;
    }
    false
}

/// The field that a checked statement of a class body declares.
fn field_from(node: &Ast, content_type: &Type) -> (out: Option<(InstField, FieldDefinition)>)
    ensures
        (match out {
            Some((f, d)) => Some((f@, d@)),
            None => None,
        }) == field_of(node@, content_type@),
{
    let declare = match node {
        Ast::Declare(d) => {
            assert(node@ == AstModel::Declare(d@));
            d
        },
        _ => {
            return None;
        },
    };
    let target = match &*declare.variable {
        Ast::Ident(target) => {
            assert(declare.variable@ == AstModel::Ident(target@));
            target
        },
        _ => {
            return None;
        },
    };
    if !has_inst_flag(&declare.flags) {
        return None;
    }
    let ty = match &declare.ty {
        Some(annotation) => match annotation_of(annotation) {
            Some(ty) => ty,
            None => content_type.clone(),
        },
        None => content_type.clone(),
    };
    let value = Value::Type(ty.clone());
    assert(value@ == ValueModel::Type(ty@));
    let literal = Literal { span: None, content: value };
    assert(literal@ == (LiteralModel { span: None, content: ValueModel::Type(ty@) }));
    let ty_node = Ast::Literal(literal);
    assert(ty_node@ == AstModel::Literal(literal@));
    let field = InstField {
        name: target.name.clone(),
        ty: ty_node,
        default: Some((*declare.content).clone()),
    };
    let definition = FieldDefinition {
        name: target.name.clone(),
        ty,
        default: Some(static_value_of(&declare.content)),
    };
    Some((field, definition))
}

/// The place of the first field named `name`.
fn index_of_field(fields: &Vec<InstField>, name: &String) -> (out: Option<usize>)
    ensures
        (match out {
            Some(i) => Some(i as int),
            None => None,
        }) == field_index(InstField::seq_model(*fields), name@, 0),
        out matches Some(i) ==> i < fields.len(),
{
    let ghost all = InstField::seq_model(*fields);
    let mut i: usize = 0;
    while i < fields.len()
        invariant
            i <= fields.len(),
            all == InstField::seq_model(*fields),
            field_index(all, name@, 0) == field_index(all, name@, i as nat),
        decreases fields.len() - i,
    {
        assert(all[i as int] == fields[i as int]@);
        if fields[i].name == *name {
            return Some(i);
        }
        i += 1;
    }
    None
}

/// Puts `field` in place of the field of its name, or adds it, and its
/// definition likewise.
fn put_field(
    fields: &mut Vec<InstField>,
    definitions: &mut Vec<FieldDefinition>,
    field: InstField,
    definition: FieldDefinition,
)
    requires
        old(fields).len() == old(definitions).len(),
    ensures
        final(fields).len() == final(definitions).len(),
        (InstField::seq_model(*final(fields)), FieldDefinition::seq_model(*final(definitions)))
            == with_field(
            (InstField::seq_model(*old(fields)), FieldDefinition::seq_model(*old(definitions))),
            (field@, definition@),
        ),
{
    let ghost before = (InstField::seq_model(*fields), FieldDefinition::seq_model(*definitions));
    match index_of_field(fields, &field.name) {
        Some(i) => {
            fields[i] = field;
            definitions[i] = definition;
            assert(InstField::seq_model(*fields) =~= before.0.update(i as int, field@));
            assert(FieldDefinition::seq_model(*definitions) =~= before.1.update(
                i as int,
                definition@,
            ));
        },
        None => {
            fields.push(field);
            definitions.push(definition);
            assert(InstField::seq_model(*fields) =~= before.0.push(field@));
            assert(FieldDefinition::seq_model(*definitions) =~= before.1.push(definition@));
        },
    }
}

/// What the check of a class body hands back: the checked statements, and
/// the fields that they declare with their definitions.
pub struct ClassBody {
    pub content: Vec<Ast>,
    pub fields: Vec<InstField>,
    pub definitions: Vec<FieldDefinition>,
}

pub open spec fn class_body_model(r: Result<ClassBody, ZyxtError>) -> Result<
    (Seq<AstModel>, (Seq<InstFieldModel>, Seq<FieldDefinitionModel>)),
    ErrorModel,
> {
    match r {
        Ok(body) => Ok(
            (
                Ast::seq_model(body.content),
                (InstField::seq_model(body.fields), FieldDefinition::seq_model(body.definitions)),
            ),
        ),
        Err(e) => Err(e@),
    }
}

/// Checks the statements of a class body in order.
fn typecheck_class_body(stmts: &Vec<Ast>, has_args: bool, sym: &mut InterpreterData<Type>) -> (out:
    Result<ClassBody, ZyxtError>)
    requires
        old(sym)@.wf(),
    ensures
        checks(
            old(sym)@,
            final(sym)@,
            check_class_body(
                Ast::seq_model(*stmts),
                0,
                Seq::empty(),
                (Seq::empty(), Seq::empty()),
                has_args,
                old(sym)@,
            ),
            class_body_model(out),
        ),
        out matches Ok(body) ==> body.fields.len() == body.definitions.len(),
    decreases stmts, 0nat,
{
    let ghost all = Ast::seq_model(*stmts);
    let ghost start = sym@;
    let mut content: Vec<Ast> = Vec::new();
    let mut fields: Vec<InstField> = Vec::new();
    let mut definitions: Vec<FieldDefinition> = Vec::new();
    assert(Ast::seq_model(content) =~= Seq::<AstModel>::empty());
    assert(InstField::seq_model(fields) =~= Seq::<InstFieldModel>::empty());
    assert(FieldDefinition::seq_model(definitions) =~= Seq::<FieldDefinitionModel>::empty());
    let mut i: usize = 0;
    while i < stmts.len()
        invariant
            i <= stmts.len(),
            all == Ast::seq_model(*stmts),
            start == old(sym)@,
            sym@.wf(),
            sym@.frames.len() == start.frames.len(),
            fields.len() == definitions.len(),
            check_class_body(all, 0, Seq::empty(), (Seq::empty(), Seq::empty()), has_args, start)
                == check_class_body(
                all,
                i as nat,
                Ast::seq_model(content),
                (InstField::seq_model(fields), FieldDefinition::seq_model(definitions)),
                has_args,
                sym@,
            ),
        decreases stmts.len() - i,
    {
        assert(all[i as int] == stmts[i as int]@);
        let ghost so_far = Ast::seq_model(content);
        let (ty, node) = match stmts[i].typecheck(sym) {
            Ok(checked) => checked,
            Err(e) => {
                return Err(e);
            },
        };
        match field_from(&node, &ty) {
            Some((field, definition)) => {
                if has_args {
                    return Err(
                        ZyxtError::from_span(node.span(), "").internal(
                            "Instance field in a struct with parameters",
                        ),
                    );
                }
                put_field(&mut fields, &mut definitions, field, definition);
            },
            None => {},
        }
        content.push(node);
        assert(Ast::seq_model(content) =~= so_far.push(node@));
        i += 1;
    }
    Ok(ClassBody { content, fields, definitions })
}

pub open spec fn checked_named_model(r: Result<Vec<(String, Ast)>, ZyxtError>) -> Result<
    Seq<(Seq<char>, AstModel)>,
    ErrorModel,
> {
    match r {
        Ok(items) => Ok(Ast::named_model(items)),
        Err(e) => Err(e@),
    }
}

/// Checks the methods of a class in order.
fn typecheck_methods(items: &Vec<(String, Ast)>, sym: &mut InterpreterData<Type>) -> (out: Result<
    Vec<(String, Ast)>,
    ZyxtError,
>)
    requires
        old(sym)@.wf(),
    ensures
        checks(
            old(sym)@,
            final(sym)@,
            check_methods(Ast::named_model(*items), 0, Seq::empty(), old(sym)@),
            checked_named_model(out),
        ),
    decreases items, 0nat,
{
    let ghost all = Ast::named_model(*items);
    let ghost start = sym@;
    let mut acc: Vec<(String, Ast)> = Vec::new();
    assert(Ast::named_model(acc) =~= Seq::empty());
    let mut i: usize = 0;
    while i < items.len()
        invariant
            i <= items.len(),
            all == Ast::named_model(*items),
            start == old(sym)@,
            sym@.wf(),
            sym@.frames.len() == start.frames.len(),
            check_methods(all, 0, Seq::empty(), start) == check_methods(
                all,
                i as nat,
                Ast::named_model(acc),
                sym@,
            ),
        decreases items.len() - i,
    {
        assert(all[i as int] == (items[i as int].0@, items[i as int].1@));
        let ghost so_far = Ast::named_model(acc);
        match items[i].1.typecheck(sym) {
            Err(e) => {
                return Err(e);
            },
            Ok((_, node)) => {
                acc.push((items[i].0.clone(), node));
                assert(Ast::named_model(acc) =~= so_far.push((items[i as int].0@, node@)));
            },
        }
        i += 1;
    }
    Ok(acc)
}

pub open spec fn checked_field_model(r: Result<(InstField, FieldDefinition), ZyxtError>) -> Result<
    (InstFieldModel, FieldDefinitionModel),
    ErrorModel,
> {
    match r {
        Ok((f, d)) => Ok((f@, d@)),
        Err(e) => Err(e@),
    }
}

/// Checks one field: its type expression, then its default.
fn typecheck_one_field(field: &InstField, sym: &mut InterpreterData<Type>) -> (out: Result<
    (InstField, FieldDefinition),
    ZyxtError,
>)
    requires
        old(sym)@.wf(),
    ensures
        checks(
            old(sym)@,
            final(sym)@,
            typecheck_field(field@, old(sym)@),
            checked_field_model(out),
        ),
    decreases field, 0nat,
{
    let (checked, ty_node) = match field.ty.typecheck(sym) {
        Ok(c) => c,
        Err(e) => {
            return Err(e);
        },
    };
    let ty = match annotation_of(&field.ty) {
        Some(t) => t,
        None => match checked {
            Type::Definition(d) => d.get_instance(),
            other => other,
        },
    };
    let default = match &field.default {
        None => {
            return Ok(
                (
                    InstField { name: field.name.clone(), ty: ty_node, default: None },
                    FieldDefinition { name: field.name.clone(), ty, default: None },
                ),
            );
        },
        Some(d) => d,
    };
    let (default_type, default_node) = match default.typecheck(sym) {
        Ok(c) => c,
        Err(e) => {
            return Err(e);
        },
    };
    if ty.same_as(&default_type) {
        let value = static_value_of(&default_node);
        Ok(
            (
                InstField { name: field.name.clone(), ty: ty_node, default: Some(default_node) },
                FieldDefinition { name: field.name.clone(), ty, default: Some(value) },
            ),
        )
    } else {
        Err(
            ZyxtError::from_span(default.span(), field.name.as_str()).error_4_3(
                field.name.clone(),
                ty,
                default_type,
            ),
        )
    }
}

pub open spec fn checked_fields_model(
    r: Result<(Vec<InstField>, Vec<FieldDefinition>), ZyxtError>,
) -> Result<(Seq<InstFieldModel>, Seq<FieldDefinitionModel>), ErrorModel> {
    match r {
        Ok((f, d)) => Ok((InstField::seq_model(f), FieldDefinition::seq_model(d))),
        Err(e) => Err(e@),
    }
}

/// Checks, in order, the fields that the body did not declare again.
fn typecheck_fields(
    fields: &Vec<InstField>,
    declared: &Vec<InstField>,
    sym: &mut InterpreterData<Type>,
) -> (out: Result<(Vec<InstField>, Vec<FieldDefinition>), ZyxtError>)
    requires
        old(sym)@.wf(),
    ensures
        checks(
            old(sym)@,
            final(sym)@,
            check_fields(
                InstField::seq_model(*fields),
                0,
                (Seq::empty(), Seq::empty()),
                InstField::seq_model(*declared),
                old(sym)@,
            ),
            checked_fields_model(out),
        ),
    decreases fields, 0nat,
{
    let ghost all = InstField::seq_model(*fields);
    let ghost again = InstField::seq_model(*declared);
    let ghost start = sym@;
    let mut nodes: Vec<InstField> = Vec::new();
    let mut definitions: Vec<FieldDefinition> = Vec::new();
    assert(InstField::seq_model(nodes) =~= Seq::<InstFieldModel>::empty());
    assert(FieldDefinition::seq_model(definitions) =~= Seq::<FieldDefinitionModel>::empty());
    let mut i: usize = 0;
    while i < fields.len()
        invariant
            i <= fields.len(),
            all == InstField::seq_model(*fields),
            again == InstField::seq_model(*declared),
            start == old(sym)@,
            sym@.wf(),
            sym@.frames.len() == start.frames.len(),
            check_fields(all, 0, (Seq::empty(), Seq::empty()), again, start) == check_fields(
                all,
                i as nat,
                (InstField::seq_model(nodes), FieldDefinition::seq_model(definitions)),
                again,
                sym@,
            ),
        decreases fields.len() - i,
    {
        assert(all[i as int] == fields[i as int]@);
        if index_of_field(declared, &fields[i].name).is_none() {
            let ghost so_far = (InstField::seq_model(nodes), FieldDefinition::seq_model(definitions));
            match typecheck_one_field(&fields[i], sym) {
                Err(e) => {
                    return Err(e);
                },
                Ok((node, definition)) => {
                    nodes.push(node);
                    definitions.push(definition);
                    assert(InstField::seq_model(nodes) =~= so_far.0.push(node@));
                    assert(FieldDefinition::seq_model(definitions) =~= so_far.1.push(definition@));
                },
            }
        }
        i += 1;
    }
    Ok((nodes, definitions))
}

/// The methods of a class, each as the value it stands for.
fn static_values_of(items: &Vec<(String, Ast)>) -> (out: Vec<(String, Value)>)
    ensures
        Value::named_model(out) == static_values(Ast::named_model(*items)),
{
    let mut out: Vec<(String, Value)> = Vec::new();
    let mut i: usize = 0;
    while i < items.len()
        invariant
            i <= items.len(),
            out.len() == i,
            forall|k: int|
                0 <= k < i ==> out[k].0@ == items[k].0@ && out[k].1@ == static_value(items[k].1@),
        decreases items.len() - i,
    {
        out.push((items[i].0.clone(), static_value_of(&items[i].1)));
        i += 1;
    }
    assert(Value::named_model(out) =~= static_values(Ast::named_model(*items)));
    out
}

/// Whether one of the items is named `name`.
fn has_name(items: &Vec<(String, Ast)>, name: &String) -> (b: bool)
    ensures
        b == (crate::primitives::find_named(Ast::named_model(*items), name@) is Some),
{
    let ghost all = Ast::named_model(*items);
    let mut i: usize = 0;
    assert(all.subrange(0, all.len() as int) =~= all);
    while i < items.len()
        invariant
            i <= items.len(),
            all == Ast::named_model(*items),
            crate::primitives::find_named(all, name@) == crate::primitives::find_named(
                all.subrange(i as int, all.len() as int),
                name@,
            ),
        decreases items.len() - i,
    {
        let ghost rest = all.subrange(i as int, all.len() as int);
        proof {
            assert(rest[0] == all[i as int]);
            assert(rest.drop_first() =~= all.subrange(i + 1, all.len() as int));
        }
        if items[i].0 == *name {
            return true;
        }
        i += 1;
    }
    proof {
        assert(all.subrange(i as int, all.len() as int).len() == 0);
    }
    false
}

impl Class {
    /// Checks the parts of the class in a scope of their own: the body,
    /// whose declarations with the instance flag give the class fields, then
    /// the methods, then the fields. The type is a new definition.
    pub fn typecheck(&self, sym: &mut InterpreterData<Type>) -> (out: Result<(Type, Ast), ZyxtError>)
        requires
            old(sym)@.wf(),
        ensures
            checks(old(sym)@, final(sym)@, check_class(self@, old(sym)@), checked_model(out)),
        decreases self, 1nat,
    {
        sym.add_frame(None, FrameType::Normal);
        let out = self.typecheck_parts(sym);
        sym.pop_frame();
        out
    }

    fn typecheck_parts(&self, sym: &mut InterpreterData<Type>) -> (out: Result<(Type, Ast), ZyxtError>)
        requires
            old(sym)@.wf(),
        ensures
            checks(old(sym)@, final(sym)@, check_class_parts(self@, old(sym)@), checked_model(out)),
        decreases self, 0nat,
    {
        let has_args = self.args.is_some();
        let body = match typecheck_class_body(&self.content.content, has_args, sym) {
            Ok(body) => body,
            Err(e) => {
                return Err(e);
            },
        };
        if has_args && has_name(&self.implementations, &String::from_str("_init")) {
            return Err(ZyxtError::no_pos().internal("Constructor in a struct with parameters"));
        }
        let implementations = match typecheck_methods(&self.implementations, sym) {
            Ok(items) => items,
            Err(e) => {
                return Err(e);
            },
        };
        let (inst_fields, definitions) = match typecheck_fields(
            &self.inst_fields,
            &body.fields,
            sym,
        ) {
            Ok(own) => own,
            Err(e) => {
                return Err(e);
            },
        };
        let id = match sym.fresh_type_id() {
            Some(id) => id,
            None => {
                return Err(ZyxtError::no_pos().internal("No type identity is left"));
            },
        };
        Ok(self.checked(id, body, implementations, inst_fields, definitions))
    }

    /// The definition and the checked form of the class, from its checked
    /// parts.
    fn checked(
        &self,
        id: u64,
        body: ClassBody,
        implementations: Vec<(String, Ast)>,
        inst_fields: Vec<InstField>,
        definitions: Vec<FieldDefinition>,
    ) -> (out: (Type, Ast))
        ensures
            out.0@ == TypeModel::Definition(
                crate::value::TypeDefinitionModel {
                    id,
                    name: Some(crate::semantics::class_name(self.is_struct)),
                    inst_name: None,
                    generics: Seq::empty(),
                    implementations: static_values(Ast::named_model(implementations)),
                    inst_fields: FieldDefinition::seq_model(definitions) + FieldDefinition::seq_model(
                        body.definitions,
                    ),
                },
            ),
            out.1@ == AstModel::Class(
                ClassModel {
                    implementations: Ast::named_model(implementations),
                    inst_fields: InstField::seq_model(inst_fields) + InstField::seq_model(
                        body.fields,
                    ),
                    content: BlockModel { content: Ast::seq_model(body.content), ..self@.content },
                    ..self@
                },
            ),
    {
        let ghost own = (InstField::seq_model(inst_fields), FieldDefinition::seq_model(definitions));
        let ghost declared = (
            InstField::seq_model(body.fields),
            FieldDefinition::seq_model(body.definitions),
        );
        let ghost methods = Ast::named_model(implementations);
        let mut inst_fields = inst_fields;
        let mut definitions = definitions;
        let mut declared_fields = body.fields;
        let mut declared_definitions = body.definitions;
        inst_fields.append(&mut declared_fields);
        definitions.append(&mut declared_definitions);
        assert(InstField::seq_model(inst_fields) =~= own.0 + declared.0);
        assert(FieldDefinition::seq_model(definitions) =~= own.1 + declared.1);
        let definition = TypeDefinition {
            id,
            name: Some(
                String::from_str(
                    if self.is_struct {
                        "struct"
                    } else {
                        "class"
                    },
                ),
            ),
            inst_name: None,
            generics: Vec::new(),
            implementations: static_values_of(&implementations),
            inst_fields: definitions,
        };
        assert(definition@.generics =~= Seq::<TypeModel>::empty());
        let ty = Type::Definition(definition);
        assert(ty@ == TypeModel::Definition(definition@));
        let block = Block { brace_spans: self.content.brace_spans, content: body.content };
        assert(block@ == (BlockModel { content: Ast::seq_model(body.content), ..self@.content }));
        let node = Class {
            is_struct: self.is_struct,
            implementations,
            inst_fields,
            content: block,
            args: match &self.args {
                Some(args) => Some(Argument::clone_seq(args)),
                None => None,
            },
        };
        assert(node@ == (ClassModel {
            implementations: methods,
            inst_fields: own.0 + declared.0,
            content: block@,
            ..self@
        }));
        let out = Ast::Class(node);
        assert(out@ == AstModel::Class(node@));
        (ty, out)
    }
}

} // verus!
