//! Evaluation of the nodes that stand for one construct each.

use vstd::prelude::*;
use vstd::string::*;
use crate::ast::{
    Argument, Assign, Ast, AstModel, Block, Call, Class, Condition, Declare, Defer, Delete, Ident,
    If, Literal, Procedure, Return,
};
use crate::errors::ZyxtError;
use crate::semantics::{
    agrees, interp, interp_branches, interp_delete, lemma_no_type_mismatch_at_runtime,
    result_model, static_type,
};
use crate::interpreter_data::InterpreterData;
use crate::value::{Proc, ProcModel, Type, Value, ValueModel};
use crate::eval_block::interpret_block;
use crate::eval_call::static_type_of;

verus! {

impl Ast {
    /// Evaluates the node: the result and the table are those that
    /// [`interp`] gives. Evaluation never fails with Type-Mismatch.
    pub fn interpret_expr(&self, sym: &mut InterpreterData<Value>) -> (out: Result<Value, ZyxtError>)
        requires
            old(sym)@.wf(),
        ensures
            agrees(
                old(sym)@,
                final(sym)@,
                old(sym).depth_left,
                final(sym).depth_left,
                interp(self@, old(sym)@, old(sym).depth_left as nat),
                result_model(out),
            ),
            out matches Err(e) ==> e@.code != "4.3"@,
        decreases old(sym).depth_left, 1int, self, 0nat,
    {
        let out = match self {
            Ast::Literal(x) => x.interpret_expr(sym),
            Ast::Ident(x) => x.interpret_expr(sym),
            Ast::Declare(x) => x.interpret_expr(sym),
            Ast::Assign(x) => x.interpret_expr(sym),
            Ast::If(x) => x.interpret_expr(sym),
            Ast::Block(x) => x.interpret_expr(sym),
            Ast::Call(x) => x.interpret_expr(sym),
            Ast::BinaryOpr(x) => Err(
                ZyxtError::from_span(x.span(), "").internal("Operator was not desugared"),
            ),
            Ast::UnaryOpr(x) => Err(
                ZyxtError::from_span(x.span(), "").internal("Operator was not desugared"),
            ),
            Ast::Return(x) => x.interpret_expr(sym),
            Ast::Procedure(x) => x.interpret_expr(sym),
            Ast::Class(x) => x.interpret_expr(sym),
            Ast::Defer(x) => x.interpret_expr(sym),
            Ast::Delete(x) => x.interpret_expr(sym),
        };
        proof {
            if out is Err {
                lemma_no_type_mismatch_at_runtime(out->Err_0@);
            }
        }
        out
    }
}

impl Literal {
    /// A literal evaluates to the value it holds.
    pub fn interpret_expr(&self, sym: &mut InterpreterData<Value>) -> (out: Result<Value, ZyxtError>)
        requires
            old(sym)@.wf(),
        ensures
            agrees(
                old(sym)@,
                final(sym)@,
                old(sym).depth_left,
                final(sym).depth_left,
                interp(AstModel::Literal(self@), old(sym)@, old(sym).depth_left as nat),
                result_model(out),
            ),
    {
        Ok(self.content.clone())
    }
}

impl Ident {
    /// A name evaluates to the value that a lookup of it finds, or fails
    /// with Undefined-Variable.
    pub fn interpret_expr(&self, sym: &mut InterpreterData<Value>) -> (out: Result<Value, ZyxtError>)
        requires
            old(sym)@.wf(),
        ensures
            agrees(
                old(sym)@,
                final(sym)@,
                old(sym).depth_left,
                final(sym).depth_left,
                interp(AstModel::Ident(self@), old(sym)@, old(sym).depth_left as nat),
                result_model(out),
            ),
    {
        match sym.get_value(&self.name, ZyxtError::from_span(self.name_span, self.name.as_str())) {
            Ok(v) => Ok(v.clone()),
            Err(e) => Err(e),
        }
    }
}

impl Declare {
    /// Evaluates the content and binds the variable to its value in the
    /// innermost scope. A target that is not a name is a Pattern-Violation.
    pub fn interpret_expr(&self, sym: &mut InterpreterData<Value>) -> (out: Result<Value, ZyxtError>)
        requires
            old(sym)@.wf(),
        ensures
            agrees(
                old(sym)@,
                final(sym)@,
                old(sym).depth_left,
                final(sym).depth_left,
                interp(AstModel::Declare(self@), old(sym)@, old(sym).depth_left as nat),
                result_model(out),
            ),
        decreases old(sym).depth_left, 1int, self, 0nat,
    {
        match &*self.variable {
            Ast::Ident(target) => {
                assert(self.variable@ == AstModel::Ident(target@));
                match self.content.interpret_expr(sym) {
                    Ok(v) => {
                        sym.declare(&target.name, v.clone());
                        Ok(v)
                    },
                    Err(e) => Err(e),
                }
            },
            _ => Err(ZyxtError::from_element(&self.variable).error_2_2()),
        }
    }
}

impl Assign {
    /// Evaluates the content and overwrites the variable in the scope that
    /// answers a lookup of it. A target that is not a name is a
    /// Pattern-Violation.
    pub fn interpret_expr(&self, sym: &mut InterpreterData<Value>) -> (out: Result<Value, ZyxtError>)
        requires
            old(sym)@.wf(),
        ensures
            agrees(
                old(sym)@,
                final(sym)@,
                old(sym).depth_left,
                final(sym).depth_left,
                interp(AstModel::Assign(self@), old(sym)@, old(sym).depth_left as nat),
                result_model(out),
            ),
        decreases old(sym).depth_left, 1int, self, 0nat,
    {
        match &*self.variable {
            Ast::Ident(target) => {
                assert(self.variable@ == AstModel::Ident(target@));
                match self.content.interpret_expr(sym) {
                    Ok(v) => {
                        let at = ZyxtError::from_span(self.span(), target.name.as_str());
                        match sym.set_value(&target.name, v.clone(), at) {
                            Ok(_) => Ok(v),
                            Err(e) => Err(e),
                        }
                    },
                    Err(e) => Err(e),
                }
            },
            _ => Err(ZyxtError::from_element(&self.variable).error_2_2()),
        }
    }
}

impl If {
    /// Evaluates the conditions in order; the first branch whose condition
    /// is absent or evaluates to `true` is chosen, and only its body runs.
    /// The result is that body's value, or the unit value if no branch is
    /// chosen.
    pub fn interpret_expr(&self, sym: &mut InterpreterData<Value>) -> (out: Result<Value, ZyxtError>)
        requires
            old(sym)@.wf(),
        ensures
            agrees(
                old(sym)@,
                final(sym)@,
                old(sym).depth_left,
                final(sym).depth_left,
                interp(AstModel::If(self@), old(sym)@, old(sym).depth_left as nat),
                result_model(out),
            ),
        decreases old(sym).depth_left, 1int, self, 0nat,
    {
        let ghost all = Condition::seq_model(self.conditions);
        let ghost start = sym@;
        let ghost fuel = sym.depth_left as nat;
        let mut i: usize = 0;
        while i < self.conditions.len()
            invariant
                i <= self.conditions.len(),
                all == Condition::seq_model(self.conditions),
                start == old(sym)@,
                fuel == old(sym).depth_left,
                sym@.wf(),
                sym.depth_left == fuel,
                sym@.frames.len() == start.frames.len(),
                interp_branches(all, 0, start, fuel) == interp_branches(all, i as nat, sym@, fuel),
            decreases self.conditions.len() - i,
        {
            let branch = &self.conditions[i];
            assert(all[i as int] == branch@);
            let chosen = match &branch.condition {
                None => true,
                Some(c) => match c.interpret_expr(sym) {
                    Err(e) => {
                        return Err(e);
                    },
                    Ok(v) => match v {
                        Value::Bool(b) => b,
                        _ => false,
                    },
                },
            };
            if chosen {
                return interpret_block(&branch.if_true.content, sym, true, false);
            }
            i += 1;
        }
        Ok(Value::Unit)
    }
}

impl Block {
    /// Runs the statements in a scope of their own.
    pub fn interpret_expr(&self, sym: &mut InterpreterData<Value>) -> (out: Result<Value, ZyxtError>)
        requires
            old(sym)@.wf(),
        ensures
            agrees(
                old(sym)@,
                final(sym)@,
                old(sym).depth_left,
                final(sym).depth_left,
                interp(AstModel::Block(self@), old(sym)@, old(sym).depth_left as nat),
                result_model(out),
            ),
        decreases old(sym).depth_left, 1int, self, 0nat,
    {
        interpret_block(&self.content, sym, true, false)
    }
}


impl Return {
    /// Evaluates the value and sends it on its way out of the enclosing call.
    pub fn interpret_expr(&self, sym: &mut InterpreterData<Value>) -> (out: Result<Value, ZyxtError>)
        requires
            old(sym)@.wf(),
        ensures
            agrees(
                old(sym)@,
                final(sym)@,
                old(sym).depth_left,
                final(sym).depth_left,
                interp(AstModel::Return(self@), old(sym)@, old(sym).depth_left as nat),
                result_model(out),
            ),
        decreases old(sym).depth_left, 1int, self, 0nat,
    {
        match self.value.interpret_expr(sym) {
            Ok(v) => Ok(Value::Return(Box::new(v))),
            Err(e) => Err(e),
        }
    }
}

impl Procedure {
    /// A procedure literal evaluates to a procedure value.
    pub fn interpret_expr(&self, sym: &mut InterpreterData<Value>) -> (out: Result<Value, ZyxtError>)
        requires
            old(sym)@.wf(),
        ensures
            agrees(
                old(sym)@,
                final(sym)@,
                old(sym).depth_left,
                final(sym).depth_left,
                interp(AstModel::Procedure(self@), old(sym)@, old(sym).depth_left as nat),
                result_model(out),
            ),
    {
        let proc = Proc::Defined {
            is_fn: self.is_fn,
            args: Argument::clone_seq(&self.args),
            return_type: static_type_of(&self.return_type),
            content: self.content.clone(),
        };
        assert(proc@ == (ProcModel::Defined {
            is_fn: self@.is_fn,
            args: self@.args,
            return_type: static_type(self@.return_type),
            content: self@.content,
        }));
        let value = Value::Proc(proc);
        assert(value@ == ValueModel::Proc(proc@));
        Ok(value)
    }
}


impl Defer {
    /// Leaves the block with the innermost scope, to run when the scope ends.
    pub fn interpret_expr(&self, sym: &mut InterpreterData<Value>) -> (out: Result<Value, ZyxtError>)
        requires
            old(sym)@.wf(),
        ensures
            agrees(
                old(sym)@,
                final(sym)@,
                old(sym).depth_left,
                final(sym).depth_left,
                interp(AstModel::Defer(self@), old(sym)@, old(sym).depth_left as nat),
                result_model(out),
            ),
    {
        sym.add_defer(Ast::clone_seq(&self.content.content));
        Ok(Value::Unit)
    }
}

impl Delete {
    /// Takes the names out of the innermost scope, in order.
    pub fn interpret_expr(&self, sym: &mut InterpreterData<Value>) -> (out: Result<Value, ZyxtError>)
        requires
            old(sym)@.wf(),
        ensures
            agrees(
                old(sym)@,
                final(sym)@,
                old(sym).depth_left,
                final(sym).depth_left,
                interp(AstModel::Delete(self@), old(sym)@, old(sym).depth_left as nat),
                result_model(out),
            ),
    {
        let ghost all = Ident::seq_model(self.names);
        let ghost start = sym@;
        let mut i: usize = 0;
        while i < self.names.len()
            invariant
                i <= self.names.len(),
                all == Ident::seq_model(self.names),
                start == old(sym)@,
                sym@.wf(),
                sym.depth_left == old(sym).depth_left,
                sym@.frames.len() == start.frames.len(),
                interp_delete(all, 0, start) == interp_delete(all, i as nat, sym@),
            decreases self.names.len() - i,
        {
            let name = &self.names[i];
            assert(all[i as int] == name@);
            let at = ZyxtError::from_span(name.name_span, name.name.as_str());
            match sym.delete_value(&name.name, at) {
                Ok(_) => {},
                Err(e) => {
                    return Err(e);
                },
            }
            i += 1;
        }
        Ok(Value::Unit)
    }
}

} // verus!
