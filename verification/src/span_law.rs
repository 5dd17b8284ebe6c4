//! Desugaring keeps the span of every node: the call that takes the place
//! of an operator covers what the operator covered.

use vstd::prelude::*;
use crate::ast::{
    ArgumentModel, AstModel, BlockModel, ConditionModel, IdentModel, InstFieldModel,
};
use crate::desugar::{
    desugar, desugar_args, desugar_argument, desugar_block, desugar_condition,
    desugar_conditions, desugar_field, desugar_fields, desugar_ident, desugar_idents,
    desugar_named, desugar_opt, desugar_opt_box, desugar_seq, method_call,
};
use crate::position::{Span, merged};
use crate::span::{
    args_span, argument_span, block_span, condition_span, conditions_span, field_span,
    fields_span, ident_span, idents_span, named_span, opt_box_span, opt_span, seq_span, span_of,
};
use crate::token::OprType;

verus! {

/// Merging two spans does not depend on their order.
pub proof fn lemma_merged_commutes(a: Option<Span>, b: Option<Span>)
    ensures
        merged(a, b) == merged(b, a),
{
}

/// Desugaring keeps the span of a node.
pub proof fn lemma_desugar_keeps_span(a: AstModel)
    ensures
        span_of(desugar(a)) == span_of(a),
    decreases a,
{
    match a {
        AstModel::Literal(x) => {},
        AstModel::Ident(x) => {
            lemma_ident_keeps_span(x);
        },
        AstModel::Declare(x) => {
            lemma_desugar_keeps_span(*x.content);
            lemma_opt_box_keeps_span(x.ty);
        },
        AstModel::Assign(x) => {
            lemma_desugar_keeps_span(*x.content);
        },
        AstModel::If(x) => {
            lemma_conditions_keep_span(x.conditions, x.conditions.len());
        },
        AstModel::Block(x) => {
            lemma_block_keeps_span(x);
        },
        AstModel::Call(x) => {
            lemma_desugar_keeps_span(*x.called);
            lemma_seq_keeps_span(x.args, x.args.len());
        },
        AstModel::BinaryOpr(x) => {
            lemma_desugar_keeps_span(*x.operand1);
            lemma_desugar_keeps_span(*x.operand2);
            let args = seq![desugar(*x.operand2)];
            assert(seq_span(args, 0) == None::<Span>);
            assert(seq_span(args, 1) == merged(None, span_of(args[0])));
            lemma_method_call_span(x.ty, x.opr_span, desugar(*x.operand1), args);
        },
        AstModel::UnaryOpr(x) => {
            lemma_desugar_keeps_span(*x.operand);
            let args = Seq::<AstModel>::empty();
            assert(seq_span(args, 0) == None::<Span>);
            lemma_method_call_span(x.ty, x.opr_span, desugar(*x.operand), args);
            lemma_merged_commutes(span_of(*x.operand), x.opr_span);
        },
        AstModel::Return(x) => {
            lemma_desugar_keeps_span(*x.value);
        },
        AstModel::Procedure(x) => {
            lemma_args_keep_span(x.args, x.args.len());
            lemma_opt_box_keeps_span(x.return_type);
            lemma_block_keeps_span(x.content);
        },
        AstModel::Class(x) => {
            lemma_block_keeps_span(x.content);
            lemma_named_keep_span(x.implementations, x.implementations.len());
            lemma_fields_keep_span(x.inst_fields, x.inst_fields.len());
            match x.args {
                Some(args) => {
                    lemma_args_keep_span(args, args.len());
                },
                None => {},
            }
        },
        AstModel::Defer(x) => {
            lemma_block_keeps_span(x.content);
        },
        AstModel::Delete(x) => {
            lemma_idents_keep_span(x.names, x.names.len());
        },
    }
}

proof fn lemma_method_call_span(
    op: OprType,
    opr_span: Option<Span>,
    receiver: AstModel,
    args: Seq<AstModel>,
)
    ensures
        span_of(AstModel::Call(method_call(op, opr_span, receiver, args))) == merged(
            merged(span_of(receiver), opr_span),
            seq_span(args, args.len()),
        ),
{
    let call = method_call(op, opr_span, receiver, args);
    let called = *call.called;
    let ident = called->Ident_0;
    assert(opt_box_span(ident.parent) == span_of(receiver));
    assert(ident_span(ident) == merged(merged(span_of(receiver), None), opr_span));
    assert(span_of(called) == ident_span(ident));
}

proof fn lemma_opt_keeps_span(o: Option<AstModel>)
    ensures
        opt_span(desugar_opt(o)) == opt_span(o),
    decreases o,
{
    match o {
        Some(a) => {
            lemma_desugar_keeps_span(a);
        },
        None => {},
    }
}

proof fn lemma_opt_box_keeps_span(o: Option<Box<AstModel>>)
    ensures
        opt_box_span(desugar_opt_box(o)) == opt_box_span(o),
    decreases o,
{
    match o {
        Some(a) => {
            lemma_desugar_keeps_span(*a);
        },
        None => {},
    }
}

proof fn lemma_ident_keeps_span(x: IdentModel)
    ensures
        ident_span(desugar_ident(x)) == ident_span(x),
    decreases x,
{
    lemma_opt_box_keeps_span(x.parent);
}

proof fn lemma_block_keeps_span(x: BlockModel)
    ensures
        block_span(desugar_block(x)) == block_span(x),
    decreases x,
{
    lemma_seq_keeps_span(x.content, x.content.len());
}

proof fn lemma_seq_keeps_span(s: Seq<AstModel>, n: nat)
    requires
        n <= s.len(),
    ensures
        seq_span(desugar_seq(s), n) == seq_span(s, n),
    decreases s, n,
{
    if n > 0 {
        lemma_seq_keeps_span(s, (n - 1) as nat);
        lemma_desugar_keeps_span(s[n - 1]);
        assert(desugar_seq(s)[n - 1] == desugar(s[n - 1]));
    }
}

proof fn lemma_named_keep_span(s: Seq<(Seq<char>, AstModel)>, n: nat)
    requires
        n <= s.len(),
    ensures
        named_span(desugar_named(s), n) == named_span(s, n),
    decreases s, n,
{
    if n > 0 {
        lemma_named_keep_span(s, (n - 1) as nat);
        lemma_desugar_keeps_span(s[n - 1].1);
        assert(desugar_named(s)[n - 1].1 == desugar(s[n - 1].1));
    }
}

proof fn lemma_idents_keep_span(s: Seq<IdentModel>, n: nat)
    requires
        n <= s.len(),
    ensures
        idents_span(desugar_idents(s), n) == idents_span(s, n),
    decreases s, n,
{
    if n > 0 {
        lemma_idents_keep_span(s, (n - 1) as nat);
        lemma_ident_keeps_span(s[n - 1]);
        assert(desugar_idents(s)[n - 1] == desugar_ident(s[n - 1]));
    }
}

proof fn lemma_condition_keeps_span(x: ConditionModel)
    ensures
        condition_span(desugar_condition(x)) == condition_span(x),
    decreases x,
{
    lemma_opt_keeps_span(x.condition);
    lemma_block_keeps_span(x.if_true);
    let y = desugar_condition(x);
    assert(y.kwd_span == x.kwd_span);
    assert(y.condition == desugar_opt(x.condition));
    assert(y.if_true == desugar_block(x.if_true));
}

proof fn lemma_conditions_keep_span(s: Seq<ConditionModel>, n: nat)
    requires
        n <= s.len(),
    ensures
        conditions_span(desugar_conditions(s), n) == conditions_span(s, n),
    decreases s, n,
{
    if n > 0 {
        lemma_conditions_keep_span(s, (n - 1) as nat);
        lemma_condition_keeps_span(s[n - 1]);
        assert(desugar_conditions(s)[n - 1] == desugar_condition(s[n - 1]));
    }
}

proof fn lemma_args_keep_span(s: Seq<ArgumentModel>, n: nat)
    requires
        n <= s.len(),
    ensures
        args_span(desugar_args(s), n) == args_span(s, n),
    decreases s, n,
{
    if n > 0 {
        lemma_args_keep_span(s, (n - 1) as nat);
        lemma_argument_keeps_span(s[n - 1]);
        assert(desugar_args(s)[n - 1] == desugar_argument(s[n - 1]));
    }
}

proof fn lemma_fields_keep_span(s: Seq<InstFieldModel>, n: nat)
    requires
        n <= s.len(),
    ensures
        fields_span(desugar_fields(s), n) == fields_span(s, n),
    decreases s, n,
{
    if n > 0 {
        lemma_fields_keep_span(s, (n - 1) as nat);
        lemma_field_keeps_span(s[n - 1]);
        assert(desugar_fields(s)[n - 1] == desugar_field(s[n - 1]));
    }
}


proof fn lemma_argument_keeps_span(x: ArgumentModel)
    ensures
        argument_span(desugar_argument(x)) == argument_span(x),
    decreases x,
{
    lemma_desugar_keeps_span(x.ty);
    lemma_opt_keeps_span(x.default);
    let y = desugar_argument(x);
    assert(y.ty == desugar(x.ty));
    assert(y.default == desugar_opt(x.default));
}

proof fn lemma_field_keeps_span(x: InstFieldModel)
    ensures
        field_span(desugar_field(x)) == field_span(x),
    decreases x,
{
    lemma_desugar_keeps_span(x.ty);
    lemma_opt_keeps_span(x.default);
    let y = desugar_field(x);
    assert(y.ty == desugar(x.ty));
    assert(y.default == desugar_opt(x.default));
}

} // verus!
