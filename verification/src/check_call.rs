//! Checking of calls and of procedure literals.

use vstd::prelude::*;
use vstd::string::*;
use crate::ast::{Argument, Ast, AstModel, Block, BlockModel, Call, Ident, IdentModel, Procedure};
use crate::errors::ZyxtError;
use crate::interpreter_data::{FrameType, InterpreterData};
use crate::typecheck::{
    check_call, check_plain_call, check_procedure, checks, declare_params, return_type_of,
    typecheck,
};
use crate::value::{Proc, Type, Value, ValueModel};
use crate::check_block::{checked_model, typecheck_args, typecheck_stmts};
use crate::check_node::annotation_of;

verus! {

/// The type of what a call of the method `f` returns.
pub fn return_type(f: &Value) -> (out: Type)
    ensures
        out@ == return_type_of(f@),
{
    match f {
        Value::Proc(p) => {
            assert(f@ == ValueModel::Proc(p@));
            match p {
                Proc::Builtin { owner, op } => owner.return_type(*op),
                Proc::Defined { return_type, .. } => return_type.clone(),
            }
        },
        _ => Type::Any,
    }
}

impl Call {
    /// Checks the call: a method call where the called expression is a name
    /// with a parent, else a call of the called expression.
    pub fn typecheck(&self, sym: &mut InterpreterData<Type>) -> (out: Result<(Type, Ast), ZyxtError>)
        requires
            old(sym)@.wf(),
        ensures
            checks(old(sym)@, final(sym)@, check_call(self@, old(sym)@), checked_model(out)),
        decreases self, 2nat,
    {
        match &*self.called {
            Ast::Ident(m) => {
                assert(self.called@ == AstModel::Ident(m@));
                match &m.parent {
                    Some(p) => {
                        let (receiver_type, receiver) = match p.typecheck(sym) {
                            Ok(checked) => checked,
                            Err(e) => {
                                return Err(e);
                            },
                        };
                        let args = match typecheck_args(&self.args, sym) {
                            Ok(args) => args,
                            Err(e) => {
                                return Err(e);
                            },
                        };
                        match receiver_type.method(&m.name) {
                            None => Err(
                                ZyxtError::from_span(m.name_span, m.name.as_str()).error_3_1_0(
                                    p.reconstruct(),
                                    receiver_type,
                                    m.name.clone(),
                                ),
                            ),
                            Some(f) => {
                                let ident = Ident {
                                    name: m.name.clone(),
                                    name_span: m.name_span,
                                    dot_span: m.dot_span,
                                    parent: Some(Box::new(receiver)),
                                };
                                assert(ident@ == (IdentModel {
                                    parent: Some(Box::new(receiver@)),
                                    ..m@
                                }));
                                let called = Ast::Ident(ident);
                                assert(called@ == AstModel::Ident(ident@));
                                let node = Call {
                                    called: Box::new(called),
                                    paren_spans: self.paren_spans,
                                    args,
                                };
                                Ok((return_type(&f), Ast::Call(node)))
                            },
                        }
                    },
                    None => self.typecheck_plain(sym),
                }
            },
            _ => self.typecheck_plain(sym),
        }
    }

    /// Checks the called expression and the arguments. The type is `Any`.
    fn typecheck_plain(&self, sym: &mut InterpreterData<Type>) -> (out: Result<(Type, Ast), ZyxtError>)
        requires
            old(sym)@.wf(),
        ensures
            checks(old(sym)@, final(sym)@, check_plain_call(self@, old(sym)@), checked_model(out)),
        decreases self, 1nat,
    {
        let (_, called) = match self.called.typecheck(sym) {
            Ok(checked) => checked,
            Err(e) => {
                return Err(e);
            },
        };
        let args = match typecheck_args(&self.args, sym) {
            Ok(args) => args,
            Err(e) => {
                return Err(e);
            },
        };
        let node = Call { called: Box::new(called), paren_spans: self.paren_spans, args };
        Ok((Type::Any, Ast::Call(node)))
    }
}

impl Procedure {
    /// Checks the body in a scope that holds the parameters, a function
    /// scope if the procedure is a function. The type is `Any`.
    pub fn typecheck(&self, sym: &mut InterpreterData<Type>) -> (out: Result<(Type, Ast), ZyxtError>)
        requires
            old(sym)@.wf(),
        ensures
            checks(old(sym)@, final(sym)@, check_procedure(self@, old(sym)@), checked_model(out)),
        decreases self, 0nat,
    {
        let kind = if self.is_fn {
            FrameType::Function
        } else {
            FrameType::Normal
        };
        sym.add_frame(None, kind);
        let ghost pushed = sym@;
        let ghost params = Argument::seq_model(self.args);
        let mut i: usize = 0;
        while i < self.args.len()
            invariant
                i <= self.args.len(),
                params == Argument::seq_model(self.args),
                sym@.wf(),
                sym@.frames.len() == pushed.frames.len(),
                declare_params(params, 0, pushed) == declare_params(params, i as nat, sym@),
            decreases self.args.len() - i,
        {
            let param = &self.args[i];
            assert(params[i as int] == param@);
            let ty = match annotation_of(&param.ty) {
                Some(ty) => ty,
                None => Type::Any,
            };
            sym.declare_val(&param.name, &ty);
            i += 1;
        }
        match typecheck_stmts(&self.content.content, sym) {
            Err(e) => {
                sym.pop_frame();
                Err(e)
            },
            Ok((_, content)) => {
                sym.pop_frame();
                let block = Block { brace_spans: self.content.brace_spans, content };
                assert(block@ == (BlockModel {
                    content: Ast::seq_model(content),
                    ..self@.content
                }));
                let node = Procedure {
                    is_fn: self.is_fn,
                    kwd_span: self.kwd_span,
                    args: Argument::clone_seq(&self.args),
                    return_type: match &self.return_type {
                        Some(ty) => Some(Box::new((**ty).clone())),
                        None => None,
                    },
                    content: block,
                };
                assert(node@ == (crate::ast::ProcedureModel { content: block@, ..self@ }));
                let out = Ast::Procedure(node);
                assert(out@ == AstModel::Procedure(node@));
                Ok((Type::Any, out))
            },
        }
    }
}

} // verus!
