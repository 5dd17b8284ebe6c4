//! The span of a node: the smallest span that covers the node's own spans
//! and the spans of its children.

use vstd::prelude::*;
use crate::ast::{
    Argument, ArgumentModel, Assign, Ast, AstModel, BinaryOpr, Block, BlockModel, Call, Class,
    Condition, ConditionModel, Declare, Defer, Delete, Ident, IdentModel, If, InstField,
    InstFieldModel, Literal, Procedure, Return, UnaryOpr,
};
use crate::position::{Span, merge_span, merged};
use crate::token::Flag;

verus! {

/// The span that covers both spans of a pair, if there is a pair.
pub open spec fn pair_span(p: Option<(Span, Span)>) -> Option<Span> {
    match p {
        Some((a, b)) => merged(Some(a), Some(b)),
        None => None,
    }
}

/// The span that covers the spans of the first `n` flags.
pub open spec fn flags_span(flags: Seq<(Flag, Span)>, n: nat) -> Option<Span>
    decreases n,
{
    if n == 0 || n > flags.len() {
        None
    } else {
        merged(flags_span(flags, (n - 1) as nat), Some(flags[n - 1].1))
    }
}

/// The span of a node.
pub open spec fn span_of(a: AstModel) -> Option<Span>
    decreases a, 0nat,
{
    match a {
        AstModel::Literal(x) => x.span,
        AstModel::Ident(x) => ident_span(x),
        AstModel::Declare(x) => merged(
            merged(
                merged(
                    merged(span_of(*x.variable), flags_span(x.flags, x.flags.len())),
                    opt_box_span(x.ty),
                ),
                span_of(*x.content),
            ),
            x.eq_span,
        ),
        AstModel::Assign(x) => merged(merged(span_of(*x.variable), x.eq_span), span_of(*x.content)),
        AstModel::If(x) => conditions_span(x.conditions, x.conditions.len()),
        AstModel::Block(x) => block_span(x),
        AstModel::Call(x) => merged(
            merged(span_of(*x.called), pair_span(x.paren_spans)),
            seq_span(x.args, x.args.len()),
        ),
        AstModel::BinaryOpr(x) => merged(
            merged(span_of(*x.operand1), x.opr_span),
            span_of(*x.operand2),
        ),
        AstModel::UnaryOpr(x) => merged(x.opr_span, span_of(*x.operand)),
        AstModel::Return(x) => merged(x.kwd_span, span_of(*x.value)),
        AstModel::Procedure(x) => merged(
            merged(merged(x.kwd_span, args_span(x.args, x.args.len())), opt_box_span(x.return_type)),
            block_span(x.content),
        ),
        AstModel::Class(x) => merged(
            merged(
                merged(
                    block_span(x.content),
                    named_span(x.implementations, x.implementations.len()),
                ),
                fields_span(x.inst_fields, x.inst_fields.len()),
            ),
            match x.args {
                Some(args) => args_span(args, args.len()),
                None => None,
            },
        ),
        AstModel::Defer(x) => merged(x.kwd_span, block_span(x.content)),
        AstModel::Delete(x) => merged(x.kwd_span, idents_span(x.names, x.names.len())),
    }
}

pub open spec fn opt_span(o: Option<AstModel>) -> Option<Span>
    decreases o, 0nat,
{
    match o {
        Some(a) => span_of(a),
        None => None,
    }
}

pub open spec fn opt_box_span(o: Option<Box<AstModel>>) -> Option<Span>
    decreases o, 0nat,
{
    match o {
        Some(a) => span_of(*a),
        None => None,
    }
}

pub open spec fn ident_span(x: IdentModel) -> Option<Span>
    decreases x, 0nat,
{
    merged(merged(opt_box_span(x.parent), x.dot_span), x.name_span)
}

pub open spec fn block_span(x: BlockModel) -> Option<Span>
    decreases x, 0nat,
{
    merged(pair_span(x.brace_spans), seq_span(x.content, x.content.len()))
}

pub open spec fn condition_span(x: ConditionModel) -> Option<Span>
    decreases x, 0nat,
{
    merged(merged(x.kwd_span, opt_span(x.condition)), block_span(x.if_true))
}

pub open spec fn argument_span(x: ArgumentModel) -> Option<Span>
    decreases x, 0nat,
{
    merged(span_of(x.ty), opt_span(x.default))
}

pub open spec fn field_span(x: InstFieldModel) -> Option<Span>
    decreases x, 0nat,
{
    merged(span_of(x.ty), opt_span(x.default))
}

/// The span that covers the first `n` nodes of `s`.
pub open spec fn seq_span(s: Seq<AstModel>, n: nat) -> Option<Span>
    decreases s, n,
{
    if n == 0 || n > s.len() {
        None
    } else {
        merged(seq_span(s, (n - 1) as nat), span_of(s[n - 1]))
    }
}

pub open spec fn named_span(s: Seq<(Seq<char>, AstModel)>, n: nat) -> Option<Span>
    decreases s, n,
{
    if n == 0 || n > s.len() {
        None
    } else {
        merged(named_span(s, (n - 1) as nat), span_of(s[n - 1].1))
    }
}

pub open spec fn idents_span(s: Seq<IdentModel>, n: nat) -> Option<Span>
    decreases s, n,
{
    if n == 0 || n > s.len() {
        None
    } else {
        merged(idents_span(s, (n - 1) as nat), ident_span(s[n - 1]))
    }
}

pub open spec fn conditions_span(s: Seq<ConditionModel>, n: nat) -> Option<Span>
    decreases s, n,
{
    if n == 0 || n > s.len() {
        None
    } else {
        merged(conditions_span(s, (n - 1) as nat), condition_span(s[n - 1]))
    }
}

pub open spec fn args_span(s: Seq<ArgumentModel>, n: nat) -> Option<Span>
    decreases s, n,
{
    if n == 0 || n > s.len() {
        None
    } else {
        merged(args_span(s, (n - 1) as nat), argument_span(s[n - 1]))
    }
}

pub open spec fn fields_span(s: Seq<InstFieldModel>, n: nat) -> Option<Span>
    decreases s, n,
{
    if n == 0 || n > s.len() {
        None
    } else {
        merged(fields_span(s, (n - 1) as nat), field_span(s[n - 1]))
    }
}

fn span_of_pair(p: Option<(Span, Span)>) -> (out: Option<Span>)
    ensures
        out == pair_span(p),
{
    match p {
        Some((a, b)) => merge_span(Some(a), Some(b)),
        None => None,
    }
}

fn span_of_flags(flags: &Vec<(Flag, Span)>) -> (out: Option<Span>)
    ensures
        out == flags_span(flags@, flags@.len()),
{
    let mut out: Option<Span> = None;
    let mut i: usize = 0;
    while i < flags.len()
        invariant
            i <= flags.len(),
            out == flags_span(flags@, i as nat),
        decreases flags.len() - i,
    {
        out = merge_span(out, Some(flags[i].1));
        i += 1;
    }
    out
}

impl Ast {
    /// The span of the node.
    pub fn span(&self) -> (out: Option<Span>)
        ensures
            out == span_of(self@),
        decreases self, 0nat,
    {
        match self {
            Ast::Literal(x) => x.span(),
            Ast::Ident(x) => x.span(),
            Ast::Declare(x) => x.span(),
            Ast::Assign(x) => x.span(),
            Ast::If(x) => x.span(),
            Ast::Block(x) => x.span(),
            Ast::Call(x) => x.span(),
            Ast::BinaryOpr(x) => x.span(),
            Ast::UnaryOpr(x) => x.span(),
            Ast::Return(x) => x.span(),
            Ast::Procedure(x) => x.span(),
            Ast::Class(x) => x.span(),
            Ast::Defer(x) => x.span(),
            Ast::Delete(x) => x.span(),
        }
    }

    fn span_of_opt(o: &Option<Ast>) -> (out: Option<Span>)
        ensures
            out == opt_span(
                match o {
                    Some(a) => Some(a@),
                    None => None,
                },
            ),
        decreases o, 0nat,
    {
        match o {
            Some(a) => a.span(),
            None => None,
        }
    }

    fn span_of_opt_box(o: &Option<Box<Ast>>) -> (out: Option<Span>)
        ensures
            out == opt_box_span(
                match o {
                    Some(a) => Some(Box::new(a@)),
                    None => None,
                },
            ),
        decreases o, 0nat,
    {
        match o {
            Some(a) => a.span(),
            None => None,
        }
    }

    fn span_of_seq(v: &Vec<Ast>) -> (out: Option<Span>)
        ensures
            out == seq_span(Ast::seq_model(*v), v.len() as nat),
        decreases v, 0nat,
    {
        let mut out: Option<Span> = None;
        let mut i: usize = 0;
        while i < v.len()
            invariant
                i <= v.len(),
                out == seq_span(Ast::seq_model(*v), i as nat),
            decreases v.len() - i,
        {
            out = merge_span(out, v[i].span());
            i += 1;
        }
        out
    }

    fn span_of_named(v: &Vec<(String, Ast)>) -> (out: Option<Span>)
        ensures
            out == named_span(Ast::named_model(*v), v.len() as nat),
        decreases v, 0nat,
    {
        let mut out: Option<Span> = None;
        let mut i: usize = 0;
        while i < v.len()
            invariant
                i <= v.len(),
                out == named_span(Ast::named_model(*v), i as nat),
            decreases v.len() - i,
        {
            out = merge_span(out, v[i].1.span());
            i += 1;
        }
        out
    }
}

impl Literal {
    /// The span of the node.
    pub fn span(&self) -> (out: Option<Span>)
        ensures
            out == span_of(AstModel::Literal(self@)),
    {
        self.span
    }
}

impl Ident {
    /// The span of the node: its parent, the dot and the name.
    pub fn span(&self) -> (out: Option<Span>)
        ensures
            out == ident_span(self@),
            out == span_of(AstModel::Ident(self@)),
        decreases self, 0nat,
    {
        merge_span(merge_span(Ast::span_of_opt_box(&self.parent), self.dot_span), self.name_span)
    }

    fn span_of_seq(v: &Vec<Ident>) -> (out: Option<Span>)
        ensures
            out == idents_span(Ident::seq_model(*v), v.len() as nat),
        decreases v, 0nat,
    {
        let mut out: Option<Span> = None;
        let mut i: usize = 0;
        while i < v.len()
            invariant
                i <= v.len(),
                out == idents_span(Ident::seq_model(*v), i as nat),
            decreases v.len() - i,
        {
            out = merge_span(out, v[i].span());
            i += 1;
        }
        out
    }
}

impl Declare {
    /// The span of the node: the variable, the flags, the type, the content
    /// and the declaration sign.
    pub fn span(&self) -> (out: Option<Span>)
        ensures
            out == span_of(AstModel::Declare(self@)),
        decreases self, 0nat,
    {
        let a = merge_span(self.variable.span(), span_of_flags(&self.flags));
        let b = merge_span(a, Ast::span_of_opt_box(&self.ty));
        let c = merge_span(b, self.content.span());
        merge_span(c, self.eq_span)
    }
}

impl Assign {
    /// The span of the node: the variable, the assignment sign and the content.
    pub fn span(&self) -> (out: Option<Span>)
        ensures
            out == span_of(AstModel::Assign(self@)),
        decreases self, 0nat,
    {
        merge_span(merge_span(self.variable.span(), self.eq_span), self.content.span())
    }
}

impl Condition {
    pub fn span(&self) -> (out: Option<Span>)
        ensures
            out == condition_span(self@),
        decreases self, 0nat,
    {
        merge_span(
            merge_span(self.kwd_span, Ast::span_of_opt(&self.condition)),
            self.if_true.span(),
        )
    }
}

impl If {
    /// The span of the node: all of its branches.
    pub fn span(&self) -> (out: Option<Span>)
        ensures
            out == span_of(AstModel::If(self@)),
        decreases self, 0nat,
    {
        let v = &self.conditions;
        let mut out: Option<Span> = None;
        let mut i: usize = 0;
        while i < v.len()
            invariant
                i <= v.len(),
                v == &self.conditions,
                out == conditions_span(Condition::seq_model(*v), i as nat),
            decreases v.len() - i,
        {
            out = merge_span(out, v[i].span());
            i += 1;
        }
        out
    }
}

impl Block {
    /// The span of the block: its braces and its statements.
    pub fn span(&self) -> (out: Option<Span>)
        ensures
            out == block_span(self@),
            out == span_of(AstModel::Block(self@)),
        decreases self, 0nat,
    {
        merge_span(span_of_pair(self.brace_spans), Ast::span_of_seq(&self.content))
    }
}

impl Call {
    /// The span of the call: the called expression, the parentheses and the
    /// arguments.
    pub fn span(&self) -> (out: Option<Span>)
        ensures
            out == span_of(AstModel::Call(self@)),
        decreases self, 0nat,
    {
        merge_span(
            merge_span(self.called.span(), span_of_pair(self.paren_spans)),
            Ast::span_of_seq(&self.args),
        )
    }
}

impl BinaryOpr {
    /// The span of the node: both operands and the operator.
    pub fn span(&self) -> (out: Option<Span>)
        ensures
            out == span_of(AstModel::BinaryOpr(self@)),
        decreases self, 0nat,
    {
        merge_span(merge_span(self.operand1.span(), self.opr_span), self.operand2.span())
    }
}

impl UnaryOpr {
    /// The span of the node: the operator and the operand.
    pub fn span(&self) -> (out: Option<Span>)
        ensures
            out == span_of(AstModel::UnaryOpr(self@)),
        decreases self, 0nat,
    {
        merge_span(self.opr_span, self.operand.span())
    }
}

impl Return {
    /// The span of the node: the keyword and the value.
    pub fn span(&self) -> (out: Option<Span>)
        ensures
            out == span_of(AstModel::Return(self@)),
        decreases self, 0nat,
    {
        merge_span(self.kwd_span, self.value.span())
    }
}

impl Argument {
    pub fn span(&self) -> (out: Option<Span>)
        ensures
            out == argument_span(self@),
        decreases self, 0nat,
    {
        merge_span(self.ty.span(), Ast::span_of_opt(&self.default))
    }

    fn span_of_seq(v: &Vec<Argument>) -> (out: Option<Span>)
        ensures
            out == args_span(Argument::seq_model(*v), v.len() as nat),
        decreases v, 0nat,
    {
        let mut out: Option<Span> = None;
        let mut i: usize = 0;
        while i < v.len()
            invariant
                i <= v.len(),
                out == args_span(Argument::seq_model(*v), i as nat),
            decreases v.len() - i,
        {
            out = merge_span(out, v[i].span());
            i += 1;
        }
        out
    }
}

impl Procedure {
    /// The span of the node: the keyword, the parameters, the return type
    /// and the body.
    pub fn span(&self) -> (out: Option<Span>)
        ensures
            out == span_of(AstModel::Procedure(self@)),
        decreases self, 0nat,
    {
        let a = merge_span(self.kwd_span, Argument::span_of_seq(&self.args));
        let b = merge_span(a, Ast::span_of_opt_box(&self.return_type));
        merge_span(b, self.content.span())
    }
}

impl InstField {
    pub fn span(&self) -> (out: Option<Span>)
        ensures
            out == field_span(self@),
        decreases self, 0nat,
    {
        merge_span(self.ty.span(), Ast::span_of_opt(&self.default))
    }

    fn span_of_seq(v: &Vec<InstField>) -> (out: Option<Span>)
        ensures
            out == fields_span(InstField::seq_model(*v), v.len() as nat),
        decreases v, 0nat,
    {
        let mut out: Option<Span> = None;
        let mut i: usize = 0;
        while i < v.len()
            invariant
                i <= v.len(),
                out == fields_span(InstField::seq_model(*v), i as nat),
            decreases v.len() - i,
        {
            out = merge_span(out, v[i].span());
            i += 1;
        }
        out
    }
}

impl Class {
    /// The span of the node: the body, the methods, the fields and the
    /// parameters.
    pub fn span(&self) -> (out: Option<Span>)
        ensures
            out == span_of(AstModel::Class(self@)),
        decreases self, 0nat,
    {
        let a = merge_span(self.content.span(), Ast::span_of_named(&self.implementations));
        let b = merge_span(a, InstField::span_of_seq(&self.inst_fields));
        let c = match &self.args {
            Some(args) => Argument::span_of_seq(args),
            None => None,
        };
        merge_span(b, c)
    }
}

impl Defer {
    /// The span of the node: the keyword and the block.
    pub fn span(&self) -> (out: Option<Span>)
        ensures
            out == span_of(AstModel::Defer(self@)),
        decreases self, 0nat,
    {
        merge_span(self.kwd_span, self.content.span())
    }
}

impl Delete {
    /// The span of the node: the keyword and the names.
    pub fn span(&self) -> (out: Option<Span>)
        ensures
            out == span_of(AstModel::Delete(self@)),
        decreases self, 0nat,
    {
        merge_span(self.kwd_span, Ident::span_of_seq(&self.names))
    }
}

} // verus!
