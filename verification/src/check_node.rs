//! Checking of the nodes that stand for one construct each.

use vstd::prelude::*;
use vstd::string::*;
use crate::ast::{
    Argument, Assign, Ast, AstModel, Block, Call, Class, Condition, ConditionModel, Declare,
    DeclareModel, Defer, Delete, Ident, If, Literal, LiteralModel, Procedure, Return, copy_flags,
};
use crate::desugar::call_method;
use crate::errors::ZyxtError;
use crate::eval_call::static_type_of;
use crate::interpreter_data::InterpreterData;
use crate::primitives::find_value;
use crate::token::OprType;
use crate::typecheck::{
    annotated, cast_call, check_branches, check_delete, checks, static_value, type_method,
    typecheck,
};
use crate::value::{Prim, Proc, ProcModel, Type, Value, ValueModel};
use crate::check_block::{checked_model, typecheck_opt};

verus! {

/// The type that a type annotation holds, if it is a literal type.
pub fn annotation_of(a: &Ast) -> (out: Option<Type>)
    ensures
        (match out {
            Some(t) => Some(t@),
            None => None,
        }) == annotated(a@),
{
    match a {
        Ast::Literal(l) => {
            assert(a@ == AstModel::Literal(l@));
            match &l.content {
                Value::Type(t) => {
                    assert(l@.content == ValueModel::Type(t@));
                    Some(t.clone())
                },
                _ => None,
            }
        },
        _ => None,
    }
}

/// The value that a node stands for without being run.
pub fn static_value_of(a: &Ast) -> (out: Value)
    ensures
        out@ == static_value(a@),
{
    match a {
        Ast::Literal(l) => {
            assert(a@ == AstModel::Literal(l@));
            l.content.clone()
        },
        Ast::Procedure(x) => {
            assert(a@ == AstModel::Procedure(x@));
            let proc = Proc::Defined {
                is_fn: x.is_fn,
                args: Argument::clone_seq(&x.args),
                return_type: static_type_of(&x.return_type),
                content: x.content.clone(),
            };
            assert(proc@ == (ProcModel::Defined {
                is_fn: x@.is_fn,
                args: x@.args,
                return_type: crate::semantics::static_type(x@.return_type),
                content: x@.content,
            }));
            let value = Value::Proc(proc);
            assert(value@ == ValueModel::Proc(proc@));
            value
        },
        _ => Value::Unit,
    }
}

impl Type {
    /// The method named `name` of the values of the type.
    pub fn method(&self, name: &String) -> (out: Option<Value>)
        ensures
            crate::builtins::opt_model(out) == type_method(self@, name@),
    {
        match self {
            Type::Any => None,
            Type::Instance { id, .. } => match Prim::from_id(*id) {
                Some(p) => {
                    let table = p.methods();
                    match find_value(&table, name) {
                        Some(v) => Some(v.clone()),
                        None => None,
                    }
                },
                None => None,
            },
            Type::Definition(d) => match find_value(&d.implementations, name) {
                Some(v) => Some(v.clone()),
                None => None,
            },
        }
    }
}

/// The call that converts the value of `content` to the type `ty`.
pub fn make_cast(content: Ast, ty: Type) -> (out: Ast)
    ensures
        out@ == cast_call(content@, ty@),
{
    let value = Value::Type(ty);
    assert(value@ == ValueModel::Type(ty@));
    let literal = Literal { span: None, content: value };
    assert(literal@ == (LiteralModel { span: None, content: ValueModel::Type(ty@) }));
    let node = Ast::Literal(literal);
    assert(node@ == AstModel::Literal(literal@));
    let mut args: Vec<Ast> = Vec::new();
    args.push(node);
    assert(Ast::seq_model(args) =~= seq![node@]);
    let call = call_method(OprType::TypeCast, None, content, args);
    Ast::Call(call)
}

impl Ast {
    /// Checks the node: its type, the node as later stages are to see it,
    /// and the table afterwards are those that [`typecheck`] gives.
    pub fn typecheck(&self, sym: &mut InterpreterData<Type>) -> (out: Result<(Type, Ast), ZyxtError>)
        requires
            old(sym)@.wf(),
        ensures
            checks(old(sym)@, final(sym)@, typecheck(self@, old(sym)@), checked_model(out)),
        decreases self, 0nat,
    {
        match self {
            Ast::Literal(x) => x.typecheck(sym),
            Ast::Ident(x) => x.typecheck(sym),
            Ast::Declare(x) => x.typecheck(sym),
            Ast::Assign(x) => x.typecheck(sym),
            Ast::If(x) => x.typecheck(sym),
            Ast::Block(x) => x.typecheck(sym),
            Ast::Call(x) => x.typecheck(sym),
            Ast::BinaryOpr(x) => Err(
                ZyxtError::from_span(x.span(), "").internal("Operator was not desugared"),
            ),
            Ast::UnaryOpr(x) => Err(
                ZyxtError::from_span(x.span(), "").internal("Operator was not desugared"),
            ),
            Ast::Return(x) => x.typecheck(sym),
            Ast::Procedure(x) => x.typecheck(sym),
            Ast::Class(x) => x.typecheck(sym),
            Ast::Defer(x) => x.typecheck(sym),
            Ast::Delete(x) => x.typecheck(sym),
        }
    }
}

impl Literal {
    /// The type of a literal is the type of the value it holds.
    pub fn typecheck(&self, sym: &mut InterpreterData<Type>) -> (out: Result<(Type, Ast), ZyxtError>)
        requires
            old(sym)@.wf(),
        ensures
            checks(
                old(sym)@,
                final(sym)@,
                typecheck(AstModel::Literal(self@), old(sym)@),
                checked_model(out),
            ),
    {
        Ok((self.content.type_of(), Ast::Literal(self.clone())))
    }
}

impl Ident {
    /// The type of a name is the type that a lookup of it finds.
    pub fn typecheck(&self, sym: &mut InterpreterData<Type>) -> (out: Result<(Type, Ast), ZyxtError>)
        requires
            old(sym)@.wf(),
        ensures
            checks(
                old(sym)@,
                final(sym)@,
                typecheck(AstModel::Ident(self@), old(sym)@),
                checked_model(out),
            ),
    {
        match sym.get_value(&self.name, ZyxtError::from_span(self.name_span, self.name.as_str())) {
            Ok(ty) => Ok((ty.clone(), Ast::Ident(self.clone()))),
            Err(e) => Err(e),
        }
    }
}

impl Declare {
    /// The declaration with `content` as its content.
    fn with_content(&self, content: Ast) -> (out: Declare)
        ensures
            out@ == (DeclareModel { content: Box::new(content@), ..self@ }),
    {
        Declare {
            variable: Box::new((*self.variable).clone()),
            content: Box::new(content),
            flags: copy_flags(&self.flags),
            ty: match &self.ty {
                Some(ty) => Some(Box::new((**ty).clone())),
                None => None,
            },
            eq_span: self.eq_span,
        }
    }

    /// Checks the content and binds the variable, in the innermost scope,
    /// to the annotated type, or without an annotation to the type of the
    /// content. Where the two types differ, the content is wrapped in a call
    /// of its type's conversion method; it is Type-Mismatch only if its type
    /// has none. A target that is not a name is a Pattern-Violation.
    pub fn typecheck(&self, sym: &mut InterpreterData<Type>) -> (out: Result<(Type, Ast), ZyxtError>)
        requires
            old(sym)@.wf(),
        ensures
            checks(
                old(sym)@,
                final(sym)@,
                typecheck(AstModel::Declare(self@), old(sym)@),
                checked_model(out),
            ),
        decreases self, 0nat,
    {
        let target = match &*self.variable {
            Ast::Ident(target) => {
                assert(self.variable@ == AstModel::Ident(target@));
                target
            },
            _ => {
                return Err(ZyxtError::from_element(&self.variable).error_2_2());
            },
        };
        let (content_type, content) = match self.content.typecheck(sym) {
            Ok(checked) => checked,
            Err(e) => {
                return Err(e);
            },
        };
        let annotation = match &self.ty {
            None => {
                sym.declare_val(&target.name, &content_type);
                let node = Ast::Declare(self.with_content(content));
                return Ok((content_type, node));
            },
            Some(annotation) => annotation,
        };
        let ty = match annotation_of(annotation) {
            None => {
                return Err(
                    ZyxtError::from_span(annotation.span(), "").internal(
                        "Type annotation is not a type",
                    ),
                );
            },
            Some(ty) => ty,
        };
        sym.declare_val(&target.name, &ty);
        if content_type.same_as(&ty) {
            let node = Ast::Declare(self.with_content(content));
            return Ok((content_type, node));
        }
        let conversion = String::from_str(OprType::TypeCast.method_name());
        match content_type.method(&conversion) {
            None => Err(
                ZyxtError::from_span(self.span(), target.name.as_str()).error_4_3(
                    target.name.clone(),
                    ty,
                    content_type,
                ),
            ),
            Some(_) => {
                let node = Ast::Declare(self.with_content(make_cast(content, ty)));
                Ok((content_type, node))
            },
        }
    }
}

impl Assign {
    /// Checks the content and looks the variable up. The type of the content
    /// must be the type of the variable, else it is Type-Mismatch. A target
    /// that is not a name is a Pattern-Violation.
    pub fn typecheck(&self, sym: &mut InterpreterData<Type>) -> (out: Result<(Type, Ast), ZyxtError>)
        requires
            old(sym)@.wf(),
        ensures
            checks(
                old(sym)@,
                final(sym)@,
                typecheck(AstModel::Assign(self@), old(sym)@),
                checked_model(out),
            ),
        decreases self, 0nat,
    {
        let target = match &*self.variable {
            Ast::Ident(target) => {
                assert(self.variable@ == AstModel::Ident(target@));
                target
            },
            _ => {
                return Err(ZyxtError::from_element(&self.variable).error_2_2());
            },
        };
        let (content_type, content) = match self.content.typecheck(sym) {
            Ok(checked) => checked,
            Err(e) => {
                return Err(e);
            },
        };
        let at = ZyxtError::from_span(self.variable.span(), target.name.as_str());
        let var_type = match sym.get_value(&target.name, at) {
            Ok(ty) => ty.clone(),
            Err(e) => {
                return Err(e);
            },
        };
        if content_type.same_as(&var_type) {
            let node = Assign {
                variable: Box::new((*self.variable).clone()),
                eq_span: self.eq_span,
                content: Box::new(content),
            };
            Ok((var_type, Ast::Assign(node)))
        } else {
            Err(
                ZyxtError::from_span(self.span(), target.name.as_str()).error_4_3(
                    target.name.clone(),
                    var_type,
                    content_type,
                ),
            )
        }
    }
}

impl If {
    /// Checks every branch in order, its condition and then its body. The
    /// type is that of the first body, or the unit type without a branch.
    pub fn typecheck(&self, sym: &mut InterpreterData<Type>) -> (out: Result<(Type, Ast), ZyxtError>)
        requires
            old(sym)@.wf(),
        ensures
            checks(
                old(sym)@,
                final(sym)@,
                typecheck(AstModel::If(self@), old(sym)@),
                checked_model(out),
            ),
        decreases self, 0nat,
    {
        let ghost all = Condition::seq_model(self.conditions);
        let ghost start = sym@;
        let mut acc: Vec<Condition> = Vec::new();
        assert(Condition::seq_model(acc) =~= Seq::<ConditionModel>::empty());
        let mut first: Option<Type> = None;
        let mut i: usize = 0;
        while i < self.conditions.len()
            invariant
                i <= self.conditions.len(),
                all == Condition::seq_model(self.conditions),
                start == old(sym)@,
                sym@.wf(),
                sym@.frames.len() == start.frames.len(),
                check_branches(all, 0, Seq::empty(), None, start) == check_branches(
                    all,
                    i as nat,
                    Condition::seq_model(acc),
                    match first {
                        Some(ty) => Some(ty@),
                        None => None,
                    },
                    sym@,
                ),
            decreases self.conditions.len() - i,
        {
            let branch = &self.conditions[i];
            assert(all[i as int] == branch@);
            let ghost so_far = Condition::seq_model(acc);
            let condition = match typecheck_opt(&branch.condition, sym) {
                Ok(c) => c,
                Err(e) => {
                    return Err(e);
                },
            };
            let (ty, if_true) = match branch.if_true.typecheck_block(sym) {
                Ok(b) => b,
                Err(e) => {
                    return Err(e);
                },
            };
            let checked = Condition { kwd_span: branch.kwd_span, condition, if_true };
            acc.push(checked);
            assert(Condition::seq_model(acc) =~= so_far.push(checked@));
            if first.is_none() {
                first = Some(ty);
            }
            i += 1;
        }
        let ty = match first {
            Some(ty) => ty,
            None => Prim::Unit.to_type(),
        };
        Ok((ty, Ast::If(If { conditions: acc })))
    }
}

impl Return {
    /// Checks the value. The type of the statement is the unit type.
    pub fn typecheck(&self, sym: &mut InterpreterData<Type>) -> (out: Result<(Type, Ast), ZyxtError>)
        requires
            old(sym)@.wf(),
        ensures
            checks(
                old(sym)@,
                final(sym)@,
                typecheck(AstModel::Return(self@), old(sym)@),
                checked_model(out),
            ),
        decreases self, 0nat,
    {
        match self.value.typecheck(sym) {
            Err(e) => Err(e),
            Ok((_, value)) => Ok(
                (
                    Prim::Unit.to_type(),
                    Ast::Return(Return { kwd_span: self.kwd_span, value: Box::new(value) }),
                ),
            ),
        }
    }
}

impl Defer {
    /// Checks the deferred block. The type of the statement is the unit type.
    pub fn typecheck(&self, sym: &mut InterpreterData<Type>) -> (out: Result<(Type, Ast), ZyxtError>)
        requires
            old(sym)@.wf(),
        ensures
            checks(
                old(sym)@,
                final(sym)@,
                typecheck(AstModel::Defer(self@), old(sym)@),
                checked_model(out),
            ),
        decreases self, 0nat,
    {
        match self.content.typecheck_block(sym) {
            Err(e) => Err(e),
            Ok((_, content)) => Ok(
                (Prim::Unit.to_type(), Ast::Defer(Defer { kwd_span: self.kwd_span, content })),
            ),
        }
    }
}

impl Delete {
    /// Takes the names out of the innermost scope of types, in order.
    pub fn typecheck(&self, sym: &mut InterpreterData<Type>) -> (out: Result<(Type, Ast), ZyxtError>)
        requires
            old(sym)@.wf(),
        ensures
            checks(
                old(sym)@,
                final(sym)@,
                typecheck(AstModel::Delete(self@), old(sym)@),
                checked_model(out),
            ),
    {
        let ghost all = Ident::seq_model(self.names);
        let ghost start = sym@;
        let ghost node = AstModel::Delete(self@);
        let mut i: usize = 0;
        while i < self.names.len()
            invariant
                i <= self.names.len(),
                all == Ident::seq_model(self.names),
                start == old(sym)@,
                sym@.wf(),
                sym@.frames.len() == start.frames.len(),
                node == AstModel::Delete(self@),
                check_delete(all, 0, node, start) == check_delete(all, i as nat, node, sym@),
            decreases self.names.len() - i,
        {
            let name = &self.names[i];
            assert(all[i as int] == name@);
            let at = ZyxtError::from_span(name.name_span, name.name.as_str());
            match sym.delete_value(&name.name, at) {
                Ok(_) => {},
                Err(e) => {
                    return Err(e);
                },
            }
            i += 1;
        }
        let same = Ast::Delete(self.clone());
        assert(same@ == node);
        Ok((Prim::Unit.to_type(), same))
    }
}

} // verus!
