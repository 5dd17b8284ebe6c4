//! Blocks: statements in order, a scope of their own, and what runs when the scope ends.

use vstd::prelude::*;

use crate::ast::{Ast, Return};
use crate::errors::ZyxtError;
use crate::semantics::{
    agrees, agrees_popped, early_model, interp_block, interp_stmts, pop_frame, result_model,
    run_defers,
};
use crate::interpreter_data::{FrameType, InterpreterData, defer_model};
use crate::value::Value;
use crate::eval_call::clone_defers;

verus! {

/// Runs the statements in order, up to the first that fails or that
/// evaluates to a value on its way out of a call.
pub fn interpret_stmts(stmts: &Vec<Ast>, sym: &mut InterpreterData<Value>) -> (out: Result<
    Value,
    ZyxtError,
>)
    requires
        old(sym)@.wf(),
    ensures
        agrees(
            old(sym)@,
            final(sym)@,
            old(sym).depth_left,
            final(sym).depth_left,
            interp_stmts(Ast::seq_model(*stmts), 0, old(sym)@, old(sym).depth_left as nat),
            result_model(out),
        ),
    decreases old(sym).depth_left, 1int, stmts, 0nat,
{
    let ghost all = Ast::seq_model(*stmts);
    let ghost start = sym@;
    let ghost fuel = sym.depth_left as nat;
    let mut i: usize = 0;
    while i < stmts.len()
        invariant
            i <= stmts.len(),
            all == Ast::seq_model(*stmts),
            start == old(sym)@,
            fuel == old(sym).depth_left,
            sym@.wf(),
            sym.depth_left == fuel,
            sym@.frames.len() == start.frames.len(),
            interp_stmts(all, 0, start, fuel) == interp_stmts(all, i as nat, sym@, fuel),
        decreases stmts.len() - i,
    {
        assert(all[i as int] == stmts[i as int]@);
        match stmts[i].interpret_expr(sym) {
            Err(e) => {
                return Err(e);
            },
            Ok(v) => {
                let leaving = match &v {
                    Value::Return(_) => true,
                    _ => false,
                };
                if leaving || i + 1 == stmts.len() {
                    return Ok(v);
                }
            },
        }
        i += 1;
    }
    Ok(Value::Unit)
}

/// Runs a block: with `add_frame` in a scope of its own, which ends with
/// the block; with `returnable` as the body of a call.
pub fn interpret_block(
    stmts: &Vec<Ast>,
    sym: &mut InterpreterData<Value>,
    add_frame: bool,
    returnable: bool,
) -> (out: Result<Value, ZyxtError>)
    requires
        old(sym)@.wf(),
    ensures
        agrees(
            old(sym)@,
            final(sym)@,
            old(sym).depth_left,
            final(sym).depth_left,
            interp_block(
                Ast::seq_model(*stmts),
                old(sym)@,
                old(sym).depth_left as nat,
                add_frame,
                returnable,
            ),
            result_model(out),
        ),
    decreases old(sym).depth_left, 1int, stmts, 1nat,
{
    if add_frame {
        sym.add_frame(None, FrameType::Normal);
    }
    let value = match interpret_stmts(stmts, sym) {
        Err(e) => {
            if add_frame {
                sym.drop_frame();
            }
            return Err(e);
        },
        Ok(v) => v,
    };
    let early = if add_frame {
        match sym.pop_frame() {
            Err(e) => {
                return Err(e);
            },
            Ok(early) => early,
        }
    } else {
        None
    };
    let value = match early {
        Some(r) => Value::Return(Box::new(r)),
        None => value,
    };
    if returnable {
        match value {
            Value::Return(inner) => Ok(*inner),
            other => Ok(other),
        }
    } else {
        Ok(value)
    }
}

/// Runs the deferred blocks in order, up to the first that fails or that
/// evaluates to a value on its way out of a call.
fn run_deferred(defers: &Vec<Vec<Ast>>, sym: &mut InterpreterData<Value>) -> (out: Result<
    Option<Value>,
    ZyxtError,
>)
    requires
        old(sym)@.wf(),
    ensures
        agrees(
            old(sym)@,
            final(sym)@,
            old(sym).depth_left,
            final(sym).depth_left,
            run_defers(
                defer_model(*defers),
                0,
                old(sym)@,
                old(sym).depth_left as nat,
            ),
            early_model(out),
        ),
    decreases old(sym).depth_left, 1int, defers, 0nat,
{
    let ghost all = defer_model(*defers);
    let ghost start = sym@;
    let ghost fuel = sym.depth_left as nat;
    let mut i: usize = 0;
    while i < defers.len()
        invariant
            i <= defers.len(),
            all == defer_model(*defers),
            start == old(sym)@,
            fuel == old(sym).depth_left,
            sym@.wf(),
            sym.depth_left == fuel,
            sym@.frames.len() == start.frames.len(),
            run_defers(all, 0, start, fuel) == run_defers(all, i as nat, sym@, fuel),
        decreases defers.len() - i,
    {
        assert(all[i as int] == Ast::seq_model(defers[i as int]));
        match interpret_block(&defers[i], sym, false, false) {
            Err(e) => {
                return Err(e);
            },
            Ok(v) => match v {
                Value::Return(inner) => {
                    return Ok(Some(*inner));
                },
                _ => {},
            },
        }
        i += 1;
    }
    Ok(None)
}

impl InterpreterData<Value> {
    /// Ends the innermost scope: runs its deferred blocks in the order in
    /// which they were deferred, then drops it. Where a deferred block
    /// returns early, the blocks after it do not run, and the value it
    /// returned is handed back.
    pub fn pop_frame(&mut self) -> (out: Result<Option<Value>, ZyxtError>)
        requires
            old(self)@.wf(),
            old(self)@.frames.len() > 2,
        ensures
            agrees_popped(
                old(self)@,
                final(self)@,
                old(self).depth_left,
                final(self).depth_left,
                pop_frame(old(self)@, old(self).depth_left as nat),
                early_model(out),
            ),
        decreases old(self).depth_left, 0int, *old(self), 0nat,
    {
        assert(self@.frames[0] == self.frames@[0]@);
        if self.frames[0].defer.len() == 0 {
            self.drop_frame();
            return Ok(None);
        }
        if self.depth_left == 0 {
            self.drop_frame();
            return Err(ZyxtError::no_pos().internal("Maximum call depth exceeded"));
        }
        let defers = clone_defers(&self.frames[0].defer);
        let ghost before = self@;
        self.depth_left = self.depth_left - 1;
        assert(self@ == before);
        let run = run_deferred(&defers, self);
        let ghost after = self@;
        self.depth_left = self.depth_left + 1;
        assert(self@ == after);
        self.drop_frame();
        run
    }
}

} // verus!
