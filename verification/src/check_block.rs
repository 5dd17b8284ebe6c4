//! Checking of blocks and of lists of nodes.

use vstd::prelude::*;

use crate::ast::{Ast, AstModel, Block, BlockModel};
use crate::errors::{ErrorModel, ZyxtError};
use crate::interpreter_data::{FrameType, InterpreterData};
use crate::typecheck::{check_args, check_block, check_opt, check_stmts, checks, typecheck};
use crate::value::{Prim, Type, TypeModel};

verus! {

pub open spec fn checked_model(r: Result<(Type, Ast), ZyxtError>) -> Result<
    (TypeModel, AstModel),
    ErrorModel,
> {
    match r {
        Ok((ty, node)) => Ok((ty@, node@)),
        Err(e) => Err(e@),
    }
}

pub open spec fn checked_block_model(r: Result<(Type, Block), ZyxtError>) -> Result<
    (TypeModel, BlockModel),
    ErrorModel,
> {
    match r {
        Ok((ty, node)) => Ok((ty@, node@)),
        Err(e) => Err(e@),
    }
}

pub open spec fn checked_stmts_model(r: Result<(Type, Vec<Ast>), ZyxtError>) -> Result<
    (TypeModel, Seq<AstModel>),
    ErrorModel,
> {
    match r {
        Ok((ty, nodes)) => Ok((ty@, Ast::seq_model(nodes))),
        Err(e) => Err(e@),
    }
}

pub open spec fn checked_nodes_model(r: Result<Vec<Ast>, ZyxtError>) -> Result<
    Seq<AstModel>,
    ErrorModel,
> {
    match r {
        Ok(nodes) => Ok(Ast::seq_model(nodes)),
        Err(e) => Err(e@),
    }
}

pub open spec fn checked_opt_model(r: Result<Option<Ast>, ZyxtError>) -> Result<
    Option<AstModel>,
    ErrorModel,
> {
    match r {
        Ok(Some(node)) => Ok(Some(node@)),
        Ok(None) => Ok(None),
        Err(e) => Err(e@),
    }
}

/// Checks the statements in order. The type is that of the last statement,
/// or the unit type where there is none.
pub fn typecheck_stmts(stmts: &Vec<Ast>, sym: &mut InterpreterData<Type>) -> (out: Result<
    (Type, Vec<Ast>),
    ZyxtError,
>)
    requires
        old(sym)@.wf(),
    ensures
        checks(
            old(sym)@,
            final(sym)@,
            check_stmts(Ast::seq_model(*stmts), 0, Seq::empty(), Prim::Unit.instance(), old(sym)@),
            checked_stmts_model(out),
        ),
    decreases stmts, 0nat,
{
    let ghost all = Ast::seq_model(*stmts);
    let ghost start = sym@;
    let mut acc: Vec<Ast> = Vec::new();
    assert(Ast::seq_model(acc) =~= Seq::<AstModel>::empty());
    let mut last = Prim::Unit.to_type();
    let mut i: usize = 0;
    while i < stmts.len()
        invariant
            i <= stmts.len(),
            all == Ast::seq_model(*stmts),
            start == old(sym)@,
            sym@.wf(),
            sym@.frames.len() == start.frames.len(),
            check_stmts(all, 0, Seq::empty(), Prim::Unit.instance(), start) == check_stmts(
                all,
                i as nat,
                Ast::seq_model(acc),
                last@,
                sym@,
            ),
        decreases stmts.len() - i,
    {
        assert(all[i as int] == stmts[i as int]@);
        let ghost so_far = Ast::seq_model(acc);
        match stmts[i].typecheck(sym) {
            Err(e) => {
                return Err(e);
            },
            Ok((ty, node)) => {
                acc.push(node);
                assert(Ast::seq_model(acc) =~= so_far.push(node@));
                last = ty;
            },
        }
        i += 1;
    }
    Ok((last, acc))
}

/// Checks the nodes in order.
pub fn typecheck_args(args: &Vec<Ast>, sym: &mut InterpreterData<Type>) -> (out: Result<
    Vec<Ast>,
    ZyxtError,
>)
    requires
        old(sym)@.wf(),
    ensures
        checks(
            old(sym)@,
            final(sym)@,
            check_args(Ast::seq_model(*args), 0, Seq::empty(), old(sym)@),
            checked_nodes_model(out),
        ),
    decreases args, 0nat,
{
    let ghost all = Ast::seq_model(*args);
    let ghost start = sym@;
    let mut acc: Vec<Ast> = Vec::new();
    assert(Ast::seq_model(acc) =~= Seq::<AstModel>::empty());
    let mut i: usize = 0;
    while i < args.len()
        invariant
            i <= args.len(),
            all == Ast::seq_model(*args),
            start == old(sym)@,
            sym@.wf(),
            sym@.frames.len() == start.frames.len(),
            check_args(all, 0, Seq::empty(), start) == check_args(
                all,
                i as nat,
                Ast::seq_model(acc),
                sym@,
            ),
        decreases args.len() - i,
    {
        assert(all[i as int] == args[i as int]@);
        let ghost so_far = Ast::seq_model(acc);
        match args[i].typecheck(sym) {
            Err(e) => {
                return Err(e);
            },
            Ok((_, node)) => {
                acc.push(node);
                assert(Ast::seq_model(acc) =~= so_far.push(node@));
            },
        }
        i += 1;
    }
    Ok(acc)
}

/// Checks a node if it is there.
pub fn typecheck_opt(o: &Option<Ast>, sym: &mut InterpreterData<Type>) -> (out: Result<
    Option<Ast>,
    ZyxtError,
>)
    requires
        old(sym)@.wf(),
    ensures
        checks(
            old(sym)@,
            final(sym)@,
            check_opt(
                match o {
                    Some(a) => Some(a@),
                    None => None,
                },
                old(sym)@,
            ),
            checked_opt_model(out),
        ),
    decreases o, 0nat,
{
    match o {
        None => Ok(None),
        Some(a) => match a.typecheck(sym) {
            Err(e) => Err(e),
            Ok((_, node)) => Ok(Some(node)),
        },
    }
}

impl Block {
    /// Checks the block in a scope of its own.
    pub fn typecheck_block(&self, sym: &mut InterpreterData<Type>) -> (out: Result<
        (Type, Block),
        ZyxtError,
    >)
        requires
            old(sym)@.wf(),
        ensures
            checks(
                old(sym)@,
                final(sym)@,
                check_block(self@, old(sym)@),
                checked_block_model(out),
            ),
        decreases self, 0nat,
    {
        sym.add_frame(None, FrameType::Normal);
        match typecheck_stmts(&self.content, sym) {
            Err(e) => {
                sym.pop_frame();
                Err(e)
            },
            Ok((ty, content)) => {
                sym.pop_frame();
                Ok((ty, Block { brace_spans: self.brace_spans, content }))
            },
        }
    }

    /// Checks the block in a scope of its own.
    pub fn typecheck(&self, sym: &mut InterpreterData<Type>) -> (out: Result<(Type, Ast), ZyxtError>)
        requires
            old(sym)@.wf(),
        ensures
            checks(
                old(sym)@,
                final(sym)@,
                typecheck(AstModel::Block(self@), old(sym)@),
                checked_model(out),
            ),
        decreases self, 1nat,
    {
        match self.typecheck_block(sym) {
            Err(e) => Err(e),
            Ok((ty, block)) => Ok((ty, Ast::Block(block))),
        }
    }
}

} // verus!
