//! A small scripting language: syntax tree, scoped symbol table, desugaring,
//! type checking and a tree-walking interpreter, with machine-checked contracts.
//!
//! What a program means is written down once, as mathematical functions on
//! models of the tree and of the table ([`semantics::interp`],
//! [`typecheck::typecheck`], [`desugar::desugar`]); the executable stages
//! are proved to compute those functions.

pub mod ast;
pub mod builtins;
pub mod check_block;
pub mod check_call;
pub mod check_class;
pub mod check_node;
pub mod describe;
pub mod desugar;
pub mod errors;
pub mod eval_block;
pub mod eval_call;
pub mod eval_class;
pub mod eval_node;
pub mod file_importer;
pub mod interpreter_data;
pub mod laws;
pub mod lexer;
pub mod name_map;
pub mod position;
pub mod primitives;
pub mod reconstruct;
pub mod render;
pub mod semantics;
pub mod span;
pub mod span_law;
pub mod tables;
pub mod text;
pub mod token;
pub mod typecheck;
pub mod ubig;
pub mod value;

use vstd::prelude::*;
use crate::ast::{Ast, AstModel};
use crate::desugar::desugar;
use crate::errors::{ErrorModel, ZyxtError};
use crate::semantics::interp_block;
use crate::interpreter_data::{InterpreterData, TableModel};
use crate::typecheck::{Checked, passed, refused, typecheck};
use crate::value::{Type, TypeModel, Value, ValueModel};

verus! {

/// The nodes from `i` on, each desugared and then checked, in order.
pub open spec fn compiled(
    nodes: Seq<AstModel>,
    i: nat,
    acc: Seq<AstModel>,
    t: TableModel<TypeModel>,
) -> Checked<Seq<AstModel>>
    decreases nodes.len() - i,
{
    if i >= nodes.len() {
        passed(acc, t)
    } else {
        let c = typecheck(desugar(nodes[i as int]), t);
        match c.result {
            Err(e) => refused(e, c.table),
            Ok((_, node)) => compiled(nodes, i + 1, acc.push(node), c.table),
        }
    }
}

/// The exit code that a program's value stands for: an `i32` is itself and
/// the unit value is zero. Other values stand for none.
pub open spec fn exit_code(v: ValueModel) -> Option<i32> {
    match v {
        ValueModel::I32(n) => Some(n),
        ValueModel::Unit => Some(0i32),
        _ => None,
    }
}

/// Turns parsed statements into what the interpreter runs: every statement
/// is desugared and then type checked against `typelist`, in order. The
/// first statement that fails ends the run with its error.
pub fn compile(input: &Vec<Ast>, typelist: &mut InterpreterData<Type>) -> (out: Result<
    Vec<Ast>,
    ZyxtError,
>)
    requires
        old(typelist)@.wf(),
    ensures
        final(typelist)@ == compiled(Ast::seq_model(*input), 0, Seq::empty(), old(typelist)@).table,
        final(typelist)@.wf(),
        final(typelist)@.frames.len() == old(typelist)@.frames.len(),
        match compiled(Ast::seq_model(*input), 0, Seq::empty(), old(typelist)@).result {
            Ok(nodes) => out matches Ok(v) && Ast::seq_model(v) == nodes,
            Err(e) => out matches Err(x) && x@ == e,
        },
{
    let ghost all = Ast::seq_model(*input);
    let ghost start = typelist@;
    let mut acc: Vec<Ast> = Vec::new();
    assert(Ast::seq_model(acc) =~= Seq::<AstModel>::empty());
    let mut i: usize = 0;
    while i < input.len()
        invariant
            i <= input.len(),
            all == Ast::seq_model(*input),
            start == old(typelist)@,
            typelist@.wf(),
            typelist@.frames.len() == start.frames.len(),
            compiled(all, 0, Seq::empty(), start) == compiled(
                all,
                i as nat,
                Ast::seq_model(acc),
                typelist@,
            ),
        decreases input.len() - i,
    {
        assert(all[i as int] == input[i as int]@);
        let ghost so_far = Ast::seq_model(acc);
        let plain = input[i].lowered();
        match plain.typecheck(typelist) {
            Err(e) => {
                return Err(e);
            },
            Ok((_, node)) => {
                acc.push(node);
                assert(Ast::seq_model(acc) =~= so_far.push(node@));
            },
        }
        i += 1;
    }
    Ok(acc)
}

/// Runs a program, statement by statement, in the current scope of
/// `i_data`. A `ret` ends the program with its value. The result is the
/// program's exit code; a value that stands for no exit code is an error.
/// No run fails with Type-Mismatch.
pub fn interpret(input: &Vec<Ast>, i_data: &mut InterpreterData<Value>) -> (out: Result<
    i32,
    ZyxtError,
>)
    requires
        old(i_data)@.wf(),
    ensures
        final(i_data)@ == interp_block(
            Ast::seq_model(*input),
            old(i_data)@,
            old(i_data).depth_left as nat,
            false,
            true,
        ).table,
        final(i_data)@.wf(),
        final(i_data).depth_left == old(i_data).depth_left,
        out matches Err(x) ==> x@.code != "4.3"@,
        match interp_block(
            Ast::seq_model(*input),
            old(i_data)@,
            old(i_data).depth_left as nat,
            false,
            true,
        ).result {
            Err(e) => out matches Err(x) && x@ == e,
            Ok(v) => match exit_code(v) {
                Some(n) => out == Ok::<i32, ZyxtError>(n),
                None => out matches Err(x) && x@ == ErrorModel::error_4_2(Seq::empty(), v),
            },
        },
{
    match crate::eval_block::interpret_block(input, i_data, false, true) {
        Err(e) => {
            proof {
                crate::semantics::lemma_no_type_mismatch_at_runtime(e@);
            }
            Err(e)
        },
        Ok(v) => match v {
            Value::I32(n) => Ok(n),
            Value::Unit => Ok(0),
            other => {
                proof {
                    reveal_strlit("4.2");
                    reveal_strlit("4.3");
                    assert("4.2"@[2] != "4.3"@[2]);
                }
                Err(ZyxtError::no_pos().error_4_2(other))
            },
        },
    }
}

} // verus!
