//! The syntax tree: one kind of node for each construct of the language.
//!
//! Every type here has a model, a value made of sequences and plain values
//! only, which the contracts of the crate speak of.

use vstd::prelude::*;
use crate::position::Span;
use crate::token::{Flag, OprType};
use crate::value::{Value, ValueModel};

verus! {

/// A copy of a list of flags.
pub fn copy_flags(flags: &Vec<(Flag, Span)>) -> (out: Vec<(Flag, Span)>)
    ensures
        out@ == flags@,
{
    let mut out: Vec<(Flag, Span)> = Vec::new();
    let mut i: usize = 0;
    while i < flags.len()
        invariant
            i <= flags.len(),
            out@ == flags@.subrange(0, i as int),
        decreases flags.len() - i,
    {
        out.push(flags[i]);
        i += 1;
        assert(out@ =~= flags@.subrange(0, i as int));
    }
    assert(flags@.subrange(0, i as int) =~= flags@);
    out
}

/// A node of the syntax tree.
#[derive(Debug, PartialEq)]
pub enum Ast {
    /// A value written in the source.
    Literal(Literal),
    /// A name, possibly reached through a parent expression.
    Ident(Ident),
    /// A declaration of a new name.
    Declare(Declare),
    /// An assignment to an existing name.
    Assign(Assign),
    /// A chain of conditions with their bodies.
    If(If),
    /// A sequence of statements with a scope of its own.
    Block(Block),
    /// A call of a procedure or of a method.
    Call(Call),
    /// An operator between two operands.
    BinaryOpr(BinaryOpr),
    /// An operator before one operand.
    UnaryOpr(UnaryOpr),
    /// An early return from the enclosing procedure.
    Return(Return),
    /// A procedure or function literal.
    Procedure(Procedure),
    /// A class or struct definition.
    Class(Class),
    /// A block to run when the enclosing scope ends.
    Defer(Defer),
    /// Removal of names from the innermost scope.
    Delete(Delete),
}

/// What an [`Ast`] holds, as plain mathematical values.
pub enum AstModel {
    Literal(LiteralModel),
    Ident(IdentModel),
    Declare(DeclareModel),
    Assign(AssignModel),
    If(IfModel),
    Block(BlockModel),
    Call(CallModel),
    BinaryOpr(BinaryOprModel),
    UnaryOpr(UnaryOprModel),
    Return(ReturnModel),
    Procedure(ProcedureModel),
    Class(ClassModel),
    Defer(DeferModel),
    Delete(DeleteModel),
}

impl Ast {
    /// What the value holds, as plain mathematical values.
    pub open spec fn model(&self) -> AstModel
        decreases self,
    {
        match self {
            Ast::Literal(x) => AstModel::Literal(x.model()),
            Ast::Ident(x) => AstModel::Ident(x.model()),
            Ast::Declare(x) => AstModel::Declare(x.model()),
            Ast::Assign(x) => AstModel::Assign(x.model()),
            Ast::If(x) => AstModel::If(x.model()),
            Ast::Block(x) => AstModel::Block(x.model()),
            Ast::Call(x) => AstModel::Call(x.model()),
            Ast::BinaryOpr(x) => AstModel::BinaryOpr(x.model()),
            Ast::UnaryOpr(x) => AstModel::UnaryOpr(x.model()),
            Ast::Return(x) => AstModel::Return(x.model()),
            Ast::Procedure(x) => AstModel::Procedure(x.model()),
            Ast::Class(x) => AstModel::Class(x.model()),
            Ast::Defer(x) => AstModel::Defer(x.model()),
            Ast::Delete(x) => AstModel::Delete(x.model()),
        }
    }
}

impl View for Ast {
    type V = AstModel;

    open spec fn view(&self) -> AstModel {
        self.model()
    }
}

impl Clone for Ast {
    fn clone(&self) -> (out: Self)
        ensures
            out@ == self@,
        decreases self,
    {
        match self {
            Ast::Literal(x) => Ast::Literal(x.clone()),
            Ast::Ident(x) => Ast::Ident(x.clone()),
            Ast::Declare(x) => Ast::Declare(x.clone()),
            Ast::Assign(x) => Ast::Assign(x.clone()),
            Ast::If(x) => Ast::If(x.clone()),
            Ast::Block(x) => Ast::Block(x.clone()),
            Ast::Call(x) => Ast::Call(x.clone()),
            Ast::BinaryOpr(x) => Ast::BinaryOpr(x.clone()),
            Ast::UnaryOpr(x) => Ast::UnaryOpr(x.clone()),
            Ast::Return(x) => Ast::Return(x.clone()),
            Ast::Procedure(x) => Ast::Procedure(x.clone()),
            Ast::Class(x) => Ast::Class(x.clone()),
            Ast::Defer(x) => Ast::Defer(x.clone()),
            Ast::Delete(x) => Ast::Delete(x.clone()),
        }
    }
}

impl Ast {
    /// The models of the items of `v`, in order.
    pub open spec fn seq_model(v: Vec<Ast>) -> Seq<AstModel>
        decreases v,
    {
        Seq::new(
            v.len() as nat,
            |i: int|
                if 0 <= i < v.len() {
                    v[i].model()
                } else {
                    arbitrary()
                },
        )
    }

    /// A copy of each item of `v`, in order.
    pub fn clone_seq(v: &Vec<Ast>) -> (out: Vec<Ast>)
        ensures
            Ast::seq_model(out) == Ast::seq_model(*v),
        decreases v,
    {
        let mut out: Vec<Ast> = Vec::new();
        let mut i: usize = 0;
        while i < v.len()
            invariant
                i <= v.len(),
                out.len() == i,
                forall|k: int| 0 <= k < i ==> out[k].model() == v[k].model(),
            decreases v.len() - i,
        {
            out.push(v[i].clone());
            i += 1;
        }
        assert(Ast::seq_model(out) =~= Ast::seq_model(*v));
        out
    }

    /// The models of the named items of `v`, in order.
    pub open spec fn named_model(v: Vec<(String, Ast)>) -> Seq<(Seq<char>, AstModel)>
        decreases v,
    {
        Seq::new(
            v.len() as nat,
            |i: int|
                if 0 <= i < v.len() {
                    (v[i].0@, v[i].1.model())
                } else {
                    arbitrary()
                },
        )
    }

    /// A copy of each named item of `v`, in order.
    pub fn clone_named(v: &Vec<(String, Ast)>) -> (out: Vec<(String, Ast)>)
        ensures
            Ast::named_model(out) == Ast::named_model(*v),
        decreases v,
    {
        let mut out: Vec<(String, Ast)> = Vec::new();
        let mut i: usize = 0;
        while i < v.len()
            invariant
                i <= v.len(),
                out.len() == i,
                forall|k: int|
                    0 <= k < i ==> out[k].0@ == v[k].0@ && out[k].1.model() == v[k].1.model(),
            decreases v.len() - i,
        {
            out.push((v[i].0.clone(), v[i].1.clone()));
            i += 1;
        }
        assert(Ast::named_model(out) =~= Ast::named_model(*v));
        out
    }

}

/// A value written in the source.
#[derive(Debug, PartialEq)]
pub struct Literal {
    pub span: Option<Span>,
    pub content: Value,
}

/// What a [`Literal`] holds, as plain mathematical values.
pub struct LiteralModel {
    pub span: Option<Span>,
    pub content: ValueModel,
}

impl Literal {
    /// What the value holds, as plain mathematical values.
    pub open spec fn model(&self) -> LiteralModel
        decreases self,
    {
        LiteralModel {
            span: self.span,
            content: self.content.model(),
        }
    }
}

impl View for Literal {
    type V = LiteralModel;

    open spec fn view(&self) -> LiteralModel {
        self.model()
    }
}

impl Clone for Literal {
    fn clone(&self) -> (out: Self)
        ensures
            out@ == self@,
        decreases self,
    {
        Literal {
            span: self.span,
            content: self.content.clone(),
        }
    }
}

/// A name, with the expression it is looked up in, if any.
#[derive(Debug, PartialEq)]
pub struct Ident {
    pub name: String,
    pub name_span: Option<Span>,
    pub dot_span: Option<Span>,
    pub parent: Option<Box<Ast>>,
}

/// What an [`Ident`] holds, as plain mathematical values.
pub struct IdentModel {
    pub name: Seq<char>,
    pub name_span: Option<Span>,
    pub dot_span: Option<Span>,
    pub parent: Option<Box<AstModel>>,
}

impl Ident {
    /// What the value holds, as plain mathematical values.
    pub open spec fn model(&self) -> IdentModel
        decreases self,
    {
        IdentModel {
            name: self.name@,
            name_span: self.name_span,
            dot_span: self.dot_span,
            parent: match self.parent { Some(b) => Some(Box::new(b.model())), None => None },
        }
    }
}

impl View for Ident {
    type V = IdentModel;

    open spec fn view(&self) -> IdentModel {
        self.model()
    }
}

impl Clone for Ident {
    fn clone(&self) -> (out: Self)
        ensures
            out@ == self@,
        decreases self,
    {
        Ident {
            name: self.name.clone(),
            name_span: self.name_span,
            dot_span: self.dot_span,
            parent: match &self.parent { Some(b) => Some(Box::new((**b).clone())), None => None },
        }
    }
}

impl Ident {
    /// The models of the items of `v`, in order.
    pub open spec fn seq_model(v: Vec<Ident>) -> Seq<IdentModel>
        decreases v,
    {
        Seq::new(
            v.len() as nat,
            |i: int|
                if 0 <= i < v.len() {
                    v[i].model()
                } else {
                    arbitrary()
                },
        )
    }

    /// A copy of each item of `v`, in order.
    pub fn clone_seq(v: &Vec<Ident>) -> (out: Vec<Ident>)
        ensures
            Ident::seq_model(out) == Ident::seq_model(*v),
        decreases v,
    {
        let mut out: Vec<Ident> = Vec::new();
        let mut i: usize = 0;
        while i < v.len()
            invariant
                i <= v.len(),
                out.len() == i,
                forall|k: int| 0 <= k < i ==> out[k].model() == v[k].model(),
            decreases v.len() - i,
        {
            out.push(v[i].clone());
            i += 1;
        }
        assert(Ident::seq_model(out) =~= Ident::seq_model(*v));
        out
    }

}

/// `variable := content`, with optional flags and type annotation.
#[derive(Debug, PartialEq)]
pub struct Declare {
    pub variable: Box<Ast>,
    pub content: Box<Ast>,
    pub flags: Vec<(Flag, Span)>,
    pub ty: Option<Box<Ast>>,
    pub eq_span: Option<Span>,
}

/// What a [`Declare`] holds, as plain mathematical values.
pub struct DeclareModel {
    pub variable: Box<AstModel>,
    pub content: Box<AstModel>,
    pub flags: Seq<(Flag, Span)>,
    pub ty: Option<Box<AstModel>>,
    pub eq_span: Option<Span>,
}

impl Declare {
    /// What the value holds, as plain mathematical values.
    pub open spec fn model(&self) -> DeclareModel
        decreases self,
    {
        DeclareModel {
            variable: Box::new(self.variable.model()),
            content: Box::new(self.content.model()),
            flags: self.flags@,
            ty: match self.ty { Some(b) => Some(Box::new(b.model())), None => None },
            eq_span: self.eq_span,
        }
    }
}

impl View for Declare {
    type V = DeclareModel;

    open spec fn view(&self) -> DeclareModel {
        self.model()
    }
}

impl Clone for Declare {
    fn clone(&self) -> (out: Self)
        ensures
            out@ == self@,
        decreases self,
    {
        Declare {
            variable: Box::new((*self.variable).clone()),
            content: Box::new((*self.content).clone()),
            flags: copy_flags(&self.flags),
            ty: match &self.ty { Some(b) => Some(Box::new((**b).clone())), None => None },
            eq_span: self.eq_span,
        }
    }
}

/// `variable = content`.
#[derive(Debug, PartialEq)]
pub struct Assign {
    pub variable: Box<Ast>,
    pub eq_span: Option<Span>,
    pub content: Box<Ast>,
}

/// What an [`Assign`] holds, as plain mathematical values.
pub struct AssignModel {
    pub variable: Box<AstModel>,
    pub eq_span: Option<Span>,
    pub content: Box<AstModel>,
}

impl Assign {
    /// What the value holds, as plain mathematical values.
    pub open spec fn model(&self) -> AssignModel
        decreases self,
    {
        AssignModel {
            variable: Box::new(self.variable.model()),
            eq_span: self.eq_span,
            content: Box::new(self.content.model()),
        }
    }
}

impl View for Assign {
    type V = AssignModel;

    open spec fn view(&self) -> AssignModel {
        self.model()
    }
}

impl Clone for Assign {
    fn clone(&self) -> (out: Self)
        ensures
            out@ == self@,
        decreases self,
    {
        Assign {
            variable: Box::new((*self.variable).clone()),
            eq_span: self.eq_span,
            content: Box::new((*self.content).clone()),
        }
    }
}

/// One branch of an `if`: a condition, absent for `else`, and a body.
#[derive(Debug, PartialEq)]
pub struct Condition {
    pub kwd_span: Option<Span>,
    pub condition: Option<Ast>,
    pub if_true: Block,
}

/// What a [`Condition`] holds, as plain mathematical values.
pub struct ConditionModel {
    pub kwd_span: Option<Span>,
    pub condition: Option<AstModel>,
    pub if_true: BlockModel,
}

impl Condition {
    /// What the value holds, as plain mathematical values.
    pub open spec fn model(&self) -> ConditionModel
        decreases self,
    {
        ConditionModel {
            kwd_span: self.kwd_span,
            condition: match self.condition { Some(x) => Some(x.model()), None => None },
            if_true: self.if_true.model(),
        }
    }
}

impl View for Condition {
    type V = ConditionModel;

    open spec fn view(&self) -> ConditionModel {
        self.model()
    }
}

impl Clone for Condition {
    fn clone(&self) -> (out: Self)
        ensures
            out@ == self@,
        decreases self,
    {
        Condition {
            kwd_span: self.kwd_span,
            condition: match &self.condition { Some(x) => Some(x.clone()), None => None },
            if_true: self.if_true.clone(),
        }
    }
}

impl Condition {
    /// The models of the items of `v`, in order.
    pub open spec fn seq_model(v: Vec<Condition>) -> Seq<ConditionModel>
        decreases v,
    {
        Seq::new(
            v.len() as nat,
            |i: int|
                if 0 <= i < v.len() {
                    v[i].model()
                } else {
                    arbitrary()
                },
        )
    }

    /// A copy of each item of `v`, in order.
    pub fn clone_seq(v: &Vec<Condition>) -> (out: Vec<Condition>)
        ensures
            Condition::seq_model(out) == Condition::seq_model(*v),
        decreases v,
    {
        let mut out: Vec<Condition> = Vec::new();
        let mut i: usize = 0;
        while i < v.len()
            invariant
                i <= v.len(),
                out.len() == i,
                forall|k: int| 0 <= k < i ==> out[k].model() == v[k].model(),
            decreases v.len() - i,
        {
            out.push(v[i].clone());
            i += 1;
        }
        assert(Condition::seq_model(out) =~= Condition::seq_model(*v));
        out
    }

}

/// A chain of branches, tried in order.
#[derive(Debug, PartialEq)]
pub struct If {
    pub conditions: Vec<Condition>,
}

/// What an [`If`] holds, as plain mathematical values.
pub struct IfModel {
    pub conditions: Seq<ConditionModel>,
}

impl If {
    /// What the value holds, as plain mathematical values.
    pub open spec fn model(&self) -> IfModel
        decreases self,
    {
        IfModel {
            conditions: Condition::seq_model(self.conditions),
        }
    }
}

impl View for If {
    type V = IfModel;

    open spec fn view(&self) -> IfModel {
        self.model()
    }
}

impl Clone for If {
    fn clone(&self) -> (out: Self)
        ensures
            out@ == self@,
        decreases self,
    {
        If {
            conditions: Condition::clone_seq(&self.conditions),
        }
    }
}

/// Statements between braces.
#[derive(Debug, PartialEq)]
pub struct Block {
    pub brace_spans: Option<(Span, Span)>,
    pub content: Vec<Ast>,
}

/// What a [`Block`] holds, as plain mathematical values.
pub struct BlockModel {
    pub brace_spans: Option<(Span, Span)>,
    pub content: Seq<AstModel>,
}

impl Block {
    /// What the value holds, as plain mathematical values.
    pub open spec fn model(&self) -> BlockModel
        decreases self,
    {
        BlockModel {
            brace_spans: self.brace_spans,
            content: Ast::seq_model(self.content),
        }
    }
}

impl View for Block {
    type V = BlockModel;

    open spec fn view(&self) -> BlockModel {
        self.model()
    }
}

impl Clone for Block {
    fn clone(&self) -> (out: Self)
        ensures
            out@ == self@,
        decreases self,
    {
        Block {
            brace_spans: self.brace_spans,
            content: Ast::clone_seq(&self.content),
        }
    }
}

impl Block {
    /// The models of the items of `v`, in order.
    pub open spec fn seq_model(v: Vec<Block>) -> Seq<BlockModel>
        decreases v,
    {
        Seq::new(
            v.len() as nat,
            |i: int|
                if 0 <= i < v.len() {
                    v[i].model()
                } else {
                    arbitrary()
                },
        )
    }

    /// A copy of each item of `v`, in order.
    pub fn clone_seq(v: &Vec<Block>) -> (out: Vec<Block>)
        ensures
            Block::seq_model(out) == Block::seq_model(*v),
        decreases v,
    {
        let mut out: Vec<Block> = Vec::new();
        let mut i: usize = 0;
        while i < v.len()
            invariant
                i <= v.len(),
                out.len() == i,
                forall|k: int| 0 <= k < i ==> out[k].model() == v[k].model(),
            decreases v.len() - i,
        {
            out.push(v[i].clone());
            i += 1;
        }
        assert(Block::seq_model(out) =~= Block::seq_model(*v));
        out
    }

}

/// `called(args)`.
#[derive(Debug, PartialEq)]
pub struct Call {
    pub called: Box<Ast>,
    pub paren_spans: Option<(Span, Span)>,
    pub args: Vec<Ast>,
}

/// What a [`Call`] holds, as plain mathematical values.
pub struct CallModel {
    pub called: Box<AstModel>,
    pub paren_spans: Option<(Span, Span)>,
    pub args: Seq<AstModel>,
}

impl Call {
    /// What the value holds, as plain mathematical values.
    pub open spec fn model(&self) -> CallModel
        decreases self,
    {
        CallModel {
            called: Box::new(self.called.model()),
            paren_spans: self.paren_spans,
            args: Ast::seq_model(self.args),
        }
    }
}

impl View for Call {
    type V = CallModel;

    open spec fn view(&self) -> CallModel {
        self.model()
    }
}

impl Clone for Call {
    fn clone(&self) -> (out: Self)
        ensures
            out@ == self@,
        decreases self,
    {
        Call {
            called: Box::new((*self.called).clone()),
            paren_spans: self.paren_spans,
            args: Ast::clone_seq(&self.args),
        }
    }
}

/// `operand1 <operator> operand2`.
#[derive(Debug, PartialEq)]
pub struct BinaryOpr {
    pub ty: OprType,
    pub opr_span: Option<Span>,
    pub operand1: Box<Ast>,
    pub operand2: Box<Ast>,
}

/// What a [`BinaryOpr`] holds, as plain mathematical values.
pub struct BinaryOprModel {
    pub ty: OprType,
    pub opr_span: Option<Span>,
    pub operand1: Box<AstModel>,
    pub operand2: Box<AstModel>,
}

impl BinaryOpr {
    /// What the value holds, as plain mathematical values.
    pub open spec fn model(&self) -> BinaryOprModel
        decreases self,
    {
        BinaryOprModel {
            ty: self.ty,
            opr_span: self.opr_span,
            operand1: Box::new(self.operand1.model()),
            operand2: Box::new(self.operand2.model()),
        }
    }
}

impl View for BinaryOpr {
    type V = BinaryOprModel;

    open spec fn view(&self) -> BinaryOprModel {
        self.model()
    }
}

impl Clone for BinaryOpr {
    fn clone(&self) -> (out: Self)
        ensures
            out@ == self@,
        decreases self,
    {
        BinaryOpr {
            ty: self.ty,
            opr_span: self.opr_span,
            operand1: Box::new((*self.operand1).clone()),
            operand2: Box::new((*self.operand2).clone()),
        }
    }
}

/// `<operator> operand`.
#[derive(Debug, PartialEq)]
pub struct UnaryOpr {
    pub ty: OprType,
    pub opr_span: Option<Span>,
    pub operand: Box<Ast>,
}

/// What an [`UnaryOpr`] holds, as plain mathematical values.
pub struct UnaryOprModel {
    pub ty: OprType,
    pub opr_span: Option<Span>,
    pub operand: Box<AstModel>,
}

impl UnaryOpr {
    /// What the value holds, as plain mathematical values.
    pub open spec fn model(&self) -> UnaryOprModel
        decreases self,
    {
        UnaryOprModel {
            ty: self.ty,
            opr_span: self.opr_span,
            operand: Box::new(self.operand.model()),
        }
    }
}

impl View for UnaryOpr {
    type V = UnaryOprModel;

    open spec fn view(&self) -> UnaryOprModel {
        self.model()
    }
}

impl Clone for UnaryOpr {
    fn clone(&self) -> (out: Self)
        ensures
            out@ == self@,
        decreases self,
    {
        UnaryOpr {
            ty: self.ty,
            opr_span: self.opr_span,
            operand: Box::new((*self.operand).clone()),
        }
    }
}

/// `ret value`.
#[derive(Debug, PartialEq)]
pub struct Return {
    pub kwd_span: Option<Span>,
    pub value: Box<Ast>,
}

/// What a [`Return`] holds, as plain mathematical values.
pub struct ReturnModel {
    pub kwd_span: Option<Span>,
    pub value: Box<AstModel>,
}

impl Return {
    /// What the value holds, as plain mathematical values.
    pub open spec fn model(&self) -> ReturnModel
        decreases self,
    {
        ReturnModel {
            kwd_span: self.kwd_span,
            value: Box::new(self.value.model()),
        }
    }
}

impl View for Return {
    type V = ReturnModel;

    open spec fn view(&self) -> ReturnModel {
        self.model()
    }
}

impl Clone for Return {
    fn clone(&self) -> (out: Self)
        ensures
            out@ == self@,
        decreases self,
    {
        Return {
            kwd_span: self.kwd_span,
            value: Box::new((*self.value).clone()),
        }
    }
}

/// A parameter of a procedure: its name, its type and its default value.
#[derive(Debug, PartialEq)]
pub struct Argument {
    pub name: String,
    pub ty: Ast,
    pub default: Option<Ast>,
}

/// What an [`Argument`] holds, as plain mathematical values.
pub struct ArgumentModel {
    pub name: Seq<char>,
    pub ty: AstModel,
    pub default: Option<AstModel>,
}

impl Argument {
    /// What the value holds, as plain mathematical values.
    pub open spec fn model(&self) -> ArgumentModel
        decreases self,
    {
        ArgumentModel {
            name: self.name@,
            ty: self.ty.model(),
            default: match self.default { Some(x) => Some(x.model()), None => None },
        }
    }
}

impl View for Argument {
    type V = ArgumentModel;

    open spec fn view(&self) -> ArgumentModel {
        self.model()
    }
}

impl Clone for Argument {
    fn clone(&self) -> (out: Self)
        ensures
            out@ == self@,
        decreases self,
    {
        Argument {
            name: self.name.clone(),
            ty: self.ty.clone(),
            default: match &self.default { Some(x) => Some(x.clone()), None => None },
        }
    }
}

impl Argument {
    /// The models of the items of `v`, in order.
    pub open spec fn seq_model(v: Vec<Argument>) -> Seq<ArgumentModel>
        decreases v,
    {
        Seq::new(
            v.len() as nat,
            |i: int|
                if 0 <= i < v.len() {
                    v[i].model()
                } else {
                    arbitrary()
                },
        )
    }

    /// A copy of each item of `v`, in order.
    pub fn clone_seq(v: &Vec<Argument>) -> (out: Vec<Argument>)
        ensures
            Argument::seq_model(out) == Argument::seq_model(*v),
        decreases v,
    {
        let mut out: Vec<Argument> = Vec::new();
        let mut i: usize = 0;
        while i < v.len()
            invariant
                i <= v.len(),
                out.len() == i,
                forall|k: int| 0 <= k < i ==> out[k].model() == v[k].model(),
            decreases v.len() - i,
        {
            out.push(v[i].clone());
            i += 1;
        }
        assert(Argument::seq_model(out) =~= Argument::seq_model(*v));
        out
    }

}

/// `proc|args|: return_type { content }`, or the same with `fn`.
#[derive(Debug, PartialEq)]
pub struct Procedure {
    pub is_fn: bool,
    pub kwd_span: Option<Span>,
    pub args: Vec<Argument>,
    pub return_type: Option<Box<Ast>>,
    pub content: Block,
}

/// What a [`Procedure`] holds, as plain mathematical values.
pub struct ProcedureModel {
    pub is_fn: bool,
    pub kwd_span: Option<Span>,
    pub args: Seq<ArgumentModel>,
    pub return_type: Option<Box<AstModel>>,
    pub content: BlockModel,
}

impl Procedure {
    /// What the value holds, as plain mathematical values.
    pub open spec fn model(&self) -> ProcedureModel
        decreases self,
    {
        ProcedureModel {
            is_fn: self.is_fn,
            kwd_span: self.kwd_span,
            args: Argument::seq_model(self.args),
            return_type: match self.return_type { Some(b) => Some(Box::new(b.model())), None => None },
            content: self.content.model(),
        }
    }
}

impl View for Procedure {
    type V = ProcedureModel;

    open spec fn view(&self) -> ProcedureModel {
        self.model()
    }
}

impl Clone for Procedure {
    fn clone(&self) -> (out: Self)
        ensures
            out@ == self@,
        decreases self,
    {
        Procedure {
            is_fn: self.is_fn,
            kwd_span: self.kwd_span,
            args: Argument::clone_seq(&self.args),
            return_type: match &self.return_type { Some(b) => Some(Box::new((**b).clone())), None => None },
            content: self.content.clone(),
        }
    }
}

/// A field of the instances of a class: its name, its type and its default value.
#[derive(Debug, PartialEq)]
pub struct InstField {
    pub name: String,
    pub ty: Ast,
    pub default: Option<Ast>,
}

/// What an [`InstField`] holds, as plain mathematical values.
pub struct InstFieldModel {
    pub name: Seq<char>,
    pub ty: AstModel,
    pub default: Option<AstModel>,
}

impl InstField {
    /// What the value holds, as plain mathematical values.
    pub open spec fn model(&self) -> InstFieldModel
        decreases self,
    {
        InstFieldModel {
            name: self.name@,
            ty: self.ty.model(),
            default: match self.default { Some(x) => Some(x.model()), None => None },
        }
    }
}

impl View for InstField {
    type V = InstFieldModel;

    open spec fn view(&self) -> InstFieldModel {
        self.model()
    }
}

impl Clone for InstField {
    fn clone(&self) -> (out: Self)
        ensures
            out@ == self@,
        decreases self,
    {
        InstField {
            name: self.name.clone(),
            ty: self.ty.clone(),
            default: match &self.default { Some(x) => Some(x.clone()), None => None },
        }
    }
}

impl InstField {
    /// The models of the items of `v`, in order.
    pub open spec fn seq_model(v: Vec<InstField>) -> Seq<InstFieldModel>
        decreases v,
    {
        Seq::new(
            v.len() as nat,
            |i: int|
                if 0 <= i < v.len() {
                    v[i].model()
                } else {
                    arbitrary()
                },
        )
    }

    /// A copy of each item of `v`, in order.
    pub fn clone_seq(v: &Vec<InstField>) -> (out: Vec<InstField>)
        ensures
            InstField::seq_model(out) == InstField::seq_model(*v),
        decreases v,
    {
        let mut out: Vec<InstField> = Vec::new();
        let mut i: usize = 0;
        while i < v.len()
            invariant
                i <= v.len(),
                out.len() == i,
                forall|k: int| 0 <= k < i ==> out[k].model() == v[k].model(),
            decreases v.len() - i,
        {
            out.push(v[i].clone());
            i += 1;
        }
        assert(InstField::seq_model(out) =~= InstField::seq_model(*v));
        out
    }

}

/// `class { content }` or `struct|args| { content }`.
#[derive(Debug, PartialEq)]
pub struct Class {
    pub is_struct: bool,
    pub implementations: Vec<(String, Ast)>,
    pub inst_fields: Vec<InstField>,
    pub content: Block,
    pub args: Option<Vec<Argument>>,
}

/// What a [`Class`] holds, as plain mathematical values.
pub struct ClassModel {
    pub is_struct: bool,
    pub implementations: Seq<(Seq<char>, AstModel)>,
    pub inst_fields: Seq<InstFieldModel>,
    pub content: BlockModel,
    pub args: Option<Seq<ArgumentModel>>,
}

impl Class {
    /// What the value holds, as plain mathematical values.
    pub open spec fn model(&self) -> ClassModel
        decreases self,
    {
        ClassModel {
            is_struct: self.is_struct,
            implementations: Ast::named_model(self.implementations),
            inst_fields: InstField::seq_model(self.inst_fields),
            content: self.content.model(),
            args: match self.args { Some(v) => Some(Argument::seq_model(v)), None => None },
        }
    }
}

impl View for Class {
    type V = ClassModel;

    open spec fn view(&self) -> ClassModel {
        self.model()
    }
}

impl Clone for Class {
    fn clone(&self) -> (out: Self)
        ensures
            out@ == self@,
        decreases self,
    {
        Class {
            is_struct: self.is_struct,
            implementations: Ast::clone_named(&self.implementations),
            inst_fields: InstField::clone_seq(&self.inst_fields),
            content: self.content.clone(),
            args: match &self.args { Some(v) => Some(Argument::clone_seq(v)), None => None },
        }
    }
}

/// `defer { content }`.
#[derive(Debug, PartialEq)]
pub struct Defer {
    pub kwd_span: Option<Span>,
    pub content: Block,
}

/// What a [`Defer`] holds, as plain mathematical values.
pub struct DeferModel {
    pub kwd_span: Option<Span>,
    pub content: BlockModel,
}

impl Defer {
    /// What the value holds, as plain mathematical values.
    pub open spec fn model(&self) -> DeferModel
        decreases self,
    {
        DeferModel {
            kwd_span: self.kwd_span,
            content: self.content.model(),
        }
    }
}

impl View for Defer {
    type V = DeferModel;

    open spec fn view(&self) -> DeferModel {
        self.model()
    }
}

impl Clone for Defer {
    fn clone(&self) -> (out: Self)
        ensures
            out@ == self@,
        decreases self,
    {
        Defer {
            kwd_span: self.kwd_span,
            content: self.content.clone(),
        }
    }
}

/// `del names`.
#[derive(Debug, PartialEq)]
pub struct Delete {
    pub kwd_span: Option<Span>,
    pub names: Vec<Ident>,
}

/// What a [`Delete`] holds, as plain mathematical values.
pub struct DeleteModel {
    pub kwd_span: Option<Span>,
    pub names: Seq<IdentModel>,
}

impl Delete {
    /// What the value holds, as plain mathematical values.
    pub open spec fn model(&self) -> DeleteModel
        decreases self,
    {
        DeleteModel {
            kwd_span: self.kwd_span,
            names: Ident::seq_model(self.names),
        }
    }
}

impl View for Delete {
    type V = DeleteModel;

    open spec fn view(&self) -> DeleteModel {
        self.model()
    }
}

impl Clone for Delete {
    fn clone(&self) -> (out: Self)
        ensures
            out@ == self@,
        decreases self,
    {
        Delete {
            kwd_span: self.kwd_span,
            names: Ident::clone_seq(&self.names),
        }
    }
}

} // verus!
