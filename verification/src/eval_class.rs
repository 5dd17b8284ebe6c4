//! Classes: a class evaluates to a new definition.

use vstd::prelude::*;
use vstd::string::*;
use crate::ast::{Ast, Class, InstField, InstFieldModel};
use crate::errors::{ErrorModel, ZyxtError};
use crate::semantics::{
    agrees, class_fields, class_methods, failed, interp_class, raised_at_runtime, result_model,
};
use crate::interpreter_data::InterpreterData;
use crate::value::{
    FieldDefinition, FieldDefinitionModel, Type, TypeDefinition, TypeModel, Value, ValueModel,
};

verus! {

pub open spec fn named_values_model(r: Result<Vec<(String, Value)>, ZyxtError>) -> Result<
    Seq<(Seq<char>, ValueModel)>,
    ErrorModel,
> {
    match r {
        Ok(v) => Ok(Value::named_model(v)),
        Err(e) => Err(e@),
    }
}

pub open spec fn fields_model(r: Result<Vec<FieldDefinition>, ZyxtError>) -> Result<
    Seq<FieldDefinitionModel>,
    ErrorModel,
> {
    match r {
        Ok(v) => Ok(FieldDefinition::seq_model(v)),
        Err(e) => Err(e@),
    }
}

/// Evaluates the methods of a class, in order.
fn interpret_methods(items: &Vec<(String, Ast)>, sym: &mut InterpreterData<Value>) -> (out: Result<
    Vec<(String, Value)>,
    ZyxtError,
>)
    requires
        old(sym)@.wf(),
    ensures
        agrees(
            old(sym)@,
            final(sym)@,
            old(sym).depth_left,
            final(sym).depth_left,
            class_methods(
                Ast::named_model(*items),
                0,
                Seq::empty(),
                old(sym)@,
                old(sym).depth_left as nat,
            ),
            named_values_model(out),
        ),
    decreases old(sym).depth_left, 1int, items, 0nat,
{
    let ghost all = Ast::named_model(*items);
    let ghost start = sym@;
    let ghost fuel = sym.depth_left as nat;
    let mut acc: Vec<(String, Value)> = Vec::new();
    assert(Value::named_model(acc) =~= Seq::empty());
    let mut i: usize = 0;
    while i < items.len()
        invariant
            i <= items.len(),
            all == Ast::named_model(*items),
            start == old(sym)@,
            fuel == old(sym).depth_left,
            sym@.wf(),
            sym.depth_left == fuel,
            sym@.frames.len() == start.frames.len(),
            class_methods(all, 0, Seq::empty(), start, fuel) == class_methods(
                all,
                i as nat,
                Value::named_model(acc),
                sym@,
                fuel,
            ),
        decreases items.len() - i,
    {
        assert(all[i as int] == (items[i as int].0@, items[i as int].1@));
        let ghost so_far = Value::named_model(acc);
        match items[i].1.interpret_expr(sym) {
            Err(e) => {
                return Err(e);
            },
            Ok(v) => {
                acc.push((items[i].0.clone(), v));
                assert(Value::named_model(acc) =~= so_far.push((items[i as int].0@, v@)));
            },
        }
        i += 1;
    }
    Ok(acc)
}

/// Evaluates the type and the default of one field of a class.
fn interpret_field(field: &InstField, sym: &mut InterpreterData<Value>) -> (out: Result<
    FieldDefinition,
    ZyxtError,
>)
    requires
        old(sym)@.wf(),
    ensures
        final(sym).depth_left == old(sym).depth_left,
        final(sym)@.wf(),
        final(sym)@.frames.len() == old(sym)@.frames.len(),
        out matches Err(e) ==> raised_at_runtime(e@),
        forall|items: Seq<InstFieldModel>, i: nat, acc: Seq<FieldDefinitionModel>|
            i < items.len() && items[i as int] == field@ ==> #[trigger] class_fields(
                items,
                i,
                acc,
                old(sym)@,
                old(sym).depth_left as nat,
            ) == (match out {
                Ok(d) => class_fields(
                    items,
                    i + 1,
                    acc.push(d@),
                    final(sym)@,
                    old(sym).depth_left as nat,
                ),
                Err(e) => failed(e@, final(sym)@),
            }),
    decreases old(sym).depth_left, 1int, field, 0nat,
{
    let ty = match field.ty.interpret_expr(sym) {
        Err(e) => {
            return Err(e);
        },
        Ok(v) => match v {
            Value::Type(ty) => ty,
            _ => {
                return Err(
                    ZyxtError::from_span(field.ty.span(), "").internal("Field type is not a type"),
                );
            },
        },
    };
    let default = match &field.default {
        None => None,
        Some(d) => match d.interpret_expr(sym) {
            Err(e) => {
                return Err(e);
            },
            Ok(v) => Some(v),
        },
    };
    Ok(FieldDefinition { name: field.name.clone(), ty, default })
}

/// Evaluates the fields of a class, in order.
fn interpret_fields(items: &Vec<InstField>, sym: &mut InterpreterData<Value>) -> (out: Result<
    Vec<FieldDefinition>,
    ZyxtError,
>)
    requires
        old(sym)@.wf(),
    ensures
        agrees(
            old(sym)@,
            final(sym)@,
            old(sym).depth_left,
            final(sym).depth_left,
            class_fields(
                InstField::seq_model(*items),
                0,
                Seq::empty(),
                old(sym)@,
                old(sym).depth_left as nat,
            ),
            fields_model(out),
        ),
    decreases old(sym).depth_left, 1int, items, 0nat,
{
    let ghost all = InstField::seq_model(*items);
    let ghost start = sym@;
    let ghost fuel = sym.depth_left as nat;
    let mut acc: Vec<FieldDefinition> = Vec::new();
    assert(FieldDefinition::seq_model(acc) =~= Seq::empty());
    let mut i: usize = 0;
    while i < items.len()
        invariant
            i <= items.len(),
            all == InstField::seq_model(*items),
            start == old(sym)@,
            fuel == old(sym).depth_left,
            sym@.wf(),
            sym.depth_left == fuel,
            sym@.frames.len() == start.frames.len(),
            class_fields(all, 0, Seq::empty(), start, fuel) == class_fields(
                all,
                i as nat,
                FieldDefinition::seq_model(acc),
                sym@,
                fuel,
            ),
        decreases items.len() - i,
    {
        assert(all[i as int] == items[i as int]@);
        let ghost so_far = FieldDefinition::seq_model(acc);
        match interpret_field(&items[i], sym) {
            Err(e) => {
                return Err(e);
            },
            Ok(d) => {
                acc.push(d);
                assert(FieldDefinition::seq_model(acc) =~= so_far.push(d@));
            },
        }
        i += 1;
    }
    Ok(acc)
}

impl Class {
    /// A class evaluates to a new definition.
    pub fn interpret_expr(&self, sym: &mut InterpreterData<Value>) -> (out: Result<Value, ZyxtError>)
        requires
            old(sym)@.wf(),
        ensures
            agrees(
                old(sym)@,
                final(sym)@,
                old(sym).depth_left,
                final(sym).depth_left,
                interp_class(self@, old(sym)@, old(sym).depth_left as nat),
                result_model(out),
            ),
        decreases old(sym).depth_left, 1int, self, 0nat,
    {
        let implementations = match interpret_methods(&self.implementations, sym) {
            Ok(v) => v,
            Err(e) => {
                return Err(e);
            },
        };
        let inst_fields = match interpret_fields(&self.inst_fields, sym) {
            Ok(v) => v,
            Err(e) => {
                return Err(e);
            },
        };
        let id = match sym.fresh_type_id() {
            Some(id) => id,
            None => {
                return Err(ZyxtError::no_pos().internal("No type identity is left"));
            },
        };
        let definition = TypeDefinition {
            id,
            name: Some(
                String::from_str(
                    if self.is_struct {
                        "struct"
                    } else {
                        "class"
                    },
                ),
            ),
            inst_name: None,
            generics: Vec::new(),
            implementations,
            inst_fields,
        };
        assert(definition@.generics =~= Seq::<TypeModel>::empty());
        let ty = Type::Definition(definition);
        assert(ty@ == TypeModel::Definition(definition@));
        let value = Value::Type(ty);
        assert(value@ == ValueModel::Type(ty@));
        Ok(value)
    }
}

} // verus!
