//! Desugaring: operators become calls of the methods that implement them.
//!
//! The rewrite goes bottom-up: a node first has its children rewritten, then
//! itself. What comes out holds no operator node, and rewriting it again
//! changes nothing.

use vstd::prelude::*;
use vstd::string::*;
use crate::ast::{
    Argument, ArgumentModel, Assign, AssignModel, Ast, AstModel, BinaryOpr, Block, BlockModel,
    Call, CallModel, Class, ClassModel, Condition, ConditionModel, Declare, DeclareModel, Defer,
    DeferModel, Delete, DeleteModel, Ident, IdentModel, If, IfModel, InstField, InstFieldModel,
    Literal, Procedure, ProcedureModel, Return, ReturnModel, UnaryOpr, copy_flags,
};
use crate::errors::ZyxtError;
use crate::position::Span;
use crate::token::OprType;

verus! {

/// The call of the method that implements `op` on `receiver`.
pub open spec fn method_call(
    op: OprType,
    opr_span: Option<Span>,
    receiver: AstModel,
    args: Seq<AstModel>,
) -> CallModel {
    CallModel {
        called: Box::new(
            AstModel::Ident(
                IdentModel {
                    name: op.method(),
                    name_span: opr_span,
                    dot_span: None,
                    parent: Some(Box::new(receiver)),
                },
            ),
        ),
        paren_spans: None,
        args,
    }
}

/// The node with every operator in it turned into a method call.
pub open spec fn desugar(a: AstModel) -> AstModel
    decreases a,
{
    match a {
        AstModel::Literal(x) => a,
        AstModel::Ident(x) => AstModel::Ident(desugar_ident(x)),
        AstModel::Declare(x) => AstModel::Declare(
            DeclareModel {
                content: Box::new(desugar(*x.content)),
                ty: desugar_opt_box(x.ty),
                ..x
            },
        ),
        AstModel::Assign(x) => AstModel::Assign(
            AssignModel { content: Box::new(desugar(*x.content)), ..x },
        ),
        AstModel::If(x) => AstModel::If(IfModel { conditions: desugar_conditions(x.conditions) }),
        AstModel::Block(x) => AstModel::Block(desugar_block(x)),
        AstModel::Call(x) => AstModel::Call(
            CallModel { called: Box::new(desugar(*x.called)), args: desugar_seq(x.args), ..x },
        ),
        AstModel::BinaryOpr(x) => AstModel::Call(
            method_call(x.ty, x.opr_span, desugar(*x.operand1), seq![desugar(*x.operand2)]),
        ),
        AstModel::UnaryOpr(x) => AstModel::Call(
            method_call(x.ty, x.opr_span, desugar(*x.operand), Seq::empty()),
        ),
        AstModel::Return(x) => AstModel::Return(
            ReturnModel { value: Box::new(desugar(*x.value)), ..x },
        ),
        AstModel::Procedure(x) => AstModel::Procedure(
            ProcedureModel {
                args: desugar_args(x.args),
                return_type: desugar_opt_box(x.return_type),
                content: desugar_block(x.content),
                ..x
            },
        ),
        AstModel::Class(x) => AstModel::Class(
            ClassModel {
                implementations: desugar_named(x.implementations),
                inst_fields: desugar_fields(x.inst_fields),
                content: desugar_block(x.content),
                args: match x.args {
                    Some(args) => Some(desugar_args(args)),
                    None => None,
                },
                ..x
            },
        ),
        AstModel::Defer(x) => AstModel::Defer(DeferModel { content: desugar_block(x.content), ..x }),
        AstModel::Delete(x) => AstModel::Delete(DeleteModel { names: desugar_idents(x.names), ..x }),
    }
}

pub open spec fn desugar_opt(o: Option<AstModel>) -> Option<AstModel>
    decreases o,
{
    match o {
        Some(a) => Some(desugar(a)),
        None => None,
    }
}

pub open spec fn desugar_opt_box(o: Option<Box<AstModel>>) -> Option<Box<AstModel>>
    decreases o,
{
    match o {
        Some(a) => Some(Box::new(desugar(*a))),
        None => None,
    }
}

pub open spec fn desugar_ident(x: IdentModel) -> IdentModel
    decreases x,
{
    IdentModel { parent: desugar_opt_box(x.parent), ..x }
}

pub open spec fn desugar_block(x: BlockModel) -> BlockModel
    decreases x,
{
    BlockModel { content: desugar_seq(x.content), ..x }
}

pub open spec fn desugar_condition(x: ConditionModel) -> ConditionModel
    decreases x,
{
    ConditionModel { condition: desugar_opt(x.condition), if_true: desugar_block(x.if_true), ..x }
}

pub open spec fn desugar_argument(x: ArgumentModel) -> ArgumentModel
    decreases x,
{
    ArgumentModel { ty: desugar(x.ty), default: desugar_opt(x.default), ..x }
}

pub open spec fn desugar_field(x: InstFieldModel) -> InstFieldModel
    decreases x,
{
    InstFieldModel { ty: desugar(x.ty), default: desugar_opt(x.default), ..x }
}

pub open spec fn desugar_seq(s: Seq<AstModel>) -> Seq<AstModel>
    decreases s,
{
    Seq::new(
        s.len(),
        |i: int|
            if 0 <= i < s.len() {
                desugar(s[i])
            } else {
                arbitrary()
            },
    )
}

pub open spec fn desugar_named(s: Seq<(Seq<char>, AstModel)>) -> Seq<(Seq<char>, AstModel)>
    decreases s,
{
    Seq::new(
        s.len(),
        |i: int|
            if 0 <= i < s.len() {
                (s[i].0, desugar(s[i].1))
            } else {
                arbitrary()
            },
    )
}

pub open spec fn desugar_idents(s: Seq<IdentModel>) -> Seq<IdentModel>
    decreases s,
{
    Seq::new(
        s.len(),
        |i: int|
            if 0 <= i < s.len() {
                desugar_ident(s[i])
            } else {
                arbitrary()
            },
    )
}

pub open spec fn desugar_conditions(s: Seq<ConditionModel>) -> Seq<ConditionModel>
    decreases s,
{
    Seq::new(
        s.len(),
        |i: int|
            if 0 <= i < s.len() {
                desugar_condition(s[i])
            } else {
                arbitrary()
            },
    )
}

pub open spec fn desugar_args(s: Seq<ArgumentModel>) -> Seq<ArgumentModel>
    decreases s,
{
    Seq::new(
        s.len(),
        |i: int|
            if 0 <= i < s.len() {
                desugar_argument(s[i])
            } else {
                arbitrary()
            },
    )
}

pub open spec fn desugar_fields(s: Seq<InstFieldModel>) -> Seq<InstFieldModel>
    decreases s,
{
    Seq::new(
        s.len(),
        |i: int|
            if 0 <= i < s.len() {
                desugar_field(s[i])
            } else {
                arbitrary()
            },
    )
}

/// Desugaring is idempotent: a desugared node is its own desugaring.
pub proof fn lemma_desugar_idempotent(a: AstModel)
    ensures
        desugar(desugar(a)) == desugar(a),
    decreases a,
{
    match a {
        AstModel::Literal(x) => {},
        AstModel::Ident(x) => {
            lemma_ident_idempotent(x);
        },
        AstModel::Declare(x) => {
            lemma_desugar_idempotent(*x.content);
            lemma_opt_box_idempotent(x.ty);
        },
        AstModel::Assign(x) => {
            lemma_desugar_idempotent(*x.content);
        },
        AstModel::If(x) => {
            let once = desugar_conditions(x.conditions);
            assert forall|i: int| 0 <= i < once.len() implies desugar_condition(once[i])
                == once[i] by {
                lemma_condition_idempotent(x.conditions[i]);
            }
            assert(desugar_conditions(once) =~= once);
        },
        AstModel::Block(x) => {
            lemma_block_idempotent(x);
        },
        AstModel::Call(x) => {
            lemma_desugar_idempotent(*x.called);
            lemma_seq_idempotent(x.args);
        },
        AstModel::BinaryOpr(x) => {
            lemma_desugar_idempotent(*x.operand1);
            lemma_desugar_idempotent(*x.operand2);
            let args = seq![desugar(*x.operand2)];
            assert(desugar_seq(args) =~= args);
            lemma_method_call_idempotent(x.ty, x.opr_span, desugar(*x.operand1), args);
        },
        AstModel::UnaryOpr(x) => {
            lemma_desugar_idempotent(*x.operand);
            let args = Seq::<AstModel>::empty();
            assert(desugar_seq(args) =~= args);
            lemma_method_call_idempotent(x.ty, x.opr_span, desugar(*x.operand), args);
        },
        AstModel::Return(x) => {
            lemma_desugar_idempotent(*x.value);
        },
        AstModel::Procedure(x) => {
            lemma_args_idempotent(x.args);
            lemma_opt_box_idempotent(x.return_type);
            lemma_block_idempotent(x.content);
        },
        AstModel::Class(x) => {
            let once = desugar_named(x.implementations);
            assert forall|i: int| 0 <= i < once.len() implies desugar(once[i].1) == once[i].1 by {
                lemma_desugar_idempotent(x.implementations[i].1);
            }
            assert(desugar_named(once) =~= once);
            let fields = desugar_fields(x.inst_fields);
            assert forall|i: int| 0 <= i < fields.len() implies desugar_field(fields[i])
                == fields[i] by {
                lemma_desugar_idempotent(x.inst_fields[i].ty);
                lemma_opt_idempotent(x.inst_fields[i].default);
            }
            assert(desugar_fields(fields) =~= fields);
            lemma_block_idempotent(x.content);
            match x.args {
                Some(args) => {
                    lemma_args_idempotent(args);
                },
                None => {},
            }
        },
        AstModel::Defer(x) => {
            lemma_block_idempotent(x.content);
        },
        AstModel::Delete(x) => {
            let once = desugar_idents(x.names);
            assert forall|i: int| 0 <= i < once.len() implies desugar_ident(once[i])
                == once[i] by {
                lemma_ident_idempotent(x.names[i]);
            }
            assert(desugar_idents(once) =~= once);
        },
    }
}

proof fn lemma_method_call_idempotent(
    op: OprType,
    opr_span: Option<Span>,
    receiver: AstModel,
    args: Seq<AstModel>,
)
    requires
        desugar(receiver) == receiver,
        desugar_seq(args) == args,
    ensures
        desugar(AstModel::Call(method_call(op, opr_span, receiver, args))) == AstModel::Call(
            method_call(op, opr_span, receiver, args),
        ),
{
    let call = method_call(op, opr_span, receiver, args);
    let called = *call.called;
    let ident = called->Ident_0;
    assert(desugar_opt_box(ident.parent) == ident.parent);
    assert(desugar_ident(ident) == ident);
    assert(desugar(called) == called);
}

proof fn lemma_opt_idempotent(o: Option<AstModel>)
    ensures
        desugar_opt(desugar_opt(o)) == desugar_opt(o),
    decreases o,
{
    match o {
        Some(a) => {
            lemma_desugar_idempotent(a);
        },
        None => {},
    }
}

proof fn lemma_opt_box_idempotent(o: Option<Box<AstModel>>)
    ensures
        desugar_opt_box(desugar_opt_box(o)) == desugar_opt_box(o),
    decreases o,
{
    match o {
        Some(a) => {
            lemma_desugar_idempotent(*a);
        },
        None => {},
    }
}

proof fn lemma_ident_idempotent(x: IdentModel)
    ensures
        desugar_ident(desugar_ident(x)) == desugar_ident(x),
    decreases x,
{
    lemma_opt_box_idempotent(x.parent);
}

proof fn lemma_seq_idempotent(s: Seq<AstModel>)
    ensures
        desugar_seq(desugar_seq(s)) == desugar_seq(s),
    decreases s,
{
    let once = desugar_seq(s);
    assert forall|i: int| 0 <= i < once.len() implies desugar(once[i]) == once[i] by {
        lemma_desugar_idempotent(s[i]);
    }
    assert(desugar_seq(once) =~= once);
}

proof fn lemma_block_idempotent(x: BlockModel)
    ensures
        desugar_block(desugar_block(x)) == desugar_block(x),
    decreases x,
{
    lemma_seq_idempotent(x.content);
}

proof fn lemma_condition_idempotent(x: ConditionModel)
    ensures
        desugar_condition(desugar_condition(x)) == desugar_condition(x),
    decreases x,
{
    lemma_opt_idempotent(x.condition);
    lemma_block_idempotent(x.if_true);
}

proof fn lemma_args_idempotent(s: Seq<ArgumentModel>)
    ensures
        desugar_args(desugar_args(s)) == desugar_args(s),
    decreases s,
{
    let once = desugar_args(s);
    assert forall|i: int| 0 <= i < once.len() implies desugar_argument(once[i]) == once[i] by {
        lemma_desugar_idempotent(s[i].ty);
        lemma_opt_idempotent(s[i].default);
    }
    assert(desugar_args(once) =~= once);
}

/// Whether a node can be the target of a declaration or an assignment: only
/// a name can.
pub open spec fn is_pattern(a: AstModel) -> bool {
    a is Ident
}

impl Ast {
    /// Whether the node can be the target of a declaration or an assignment.
    pub fn is_pattern(&self) -> (b: bool)
        ensures
            b == is_pattern(self@),
    {
        match self {
            Ast::Ident(_) => true,
            _ => false,
        }
    }

    /// The node with every operator in it turned into a method call.
    pub fn lowered(&self) -> (out: Ast)
        ensures
            out@ == desugar(self@),
        decreases self,
    {
        match self {
            Ast::Literal(x) => Ast::Literal(x.clone()),
            Ast::Ident(x) => Ast::Ident(x.lowered()),
            Ast::Declare(x) => Ast::Declare(x.lowered()),
            Ast::Assign(x) => Ast::Assign(x.lowered()),
            Ast::If(x) => Ast::If(x.lowered()),
            Ast::Block(x) => Ast::Block(x.lowered()),
            Ast::Call(x) => Ast::Call(x.lowered()),
            Ast::BinaryOpr(x) => Ast::Call(x.lowered()),
            Ast::UnaryOpr(x) => Ast::Call(x.lowered()),
            Ast::Return(x) => Ast::Return(x.lowered()),
            Ast::Procedure(x) => Ast::Procedure(x.lowered()),
            Ast::Class(x) => Ast::Class(x.lowered()),
            Ast::Defer(x) => Ast::Defer(x.lowered()),
            Ast::Delete(x) => Ast::Delete(x.lowered()),
        }
    }

    /// The node with every operator in it turned into a method call. This
    /// never fails.
    pub fn desugared(&self) -> (out: Result<Ast, ZyxtError>)
        ensures
            out matches Ok(a) && a@ == desugar(self@),
    {
        Ok(self.lowered())
    }

    fn lower_opt(o: &Option<Ast>) -> (out: Option<Ast>)
        ensures
            (match out {
                Some(a) => Some(a@),
                None => None,
            }) == desugar_opt(
                match o {
                    Some(a) => Some(a@),
                    None => None,
                },
            ),
        decreases o,
    {
        match o {
            Some(a) => Some(a.lowered()),
            None => None,
        }
    }

    fn lower_opt_box(o: &Option<Box<Ast>>) -> (out: Option<Box<Ast>>)
        ensures
            (match out {
                Some(a) => Some(Box::new(a@)),
                None => None,
            }) == desugar_opt_box(
                match o {
                    Some(a) => Some(Box::new(a@)),
                    None => None,
                },
            ),
        decreases o,
    {
        match o {
            Some(a) => Some(Box::new(a.lowered())),
            None => None,
        }
    }

    fn lower_seq(v: &Vec<Ast>) -> (out: Vec<Ast>)
        ensures
            Ast::seq_model(out) == desugar_seq(Ast::seq_model(*v)),
        decreases v,
    {
        let mut out: Vec<Ast> = Vec::new();
        let mut i: usize = 0;
        while i < v.len()
            invariant
                i <= v.len(),
                out.len() == i,
                forall|k: int| 0 <= k < i ==> out[k]@ == desugar(v[k]@),
            decreases v.len() - i,
        {
            out.push(v[i].lowered());
            i += 1;
        }
        assert(Ast::seq_model(out) =~= desugar_seq(Ast::seq_model(*v)));
        out
    }

    fn lower_named(v: &Vec<(String, Ast)>) -> (out: Vec<(String, Ast)>)
        ensures
            Ast::named_model(out) == desugar_named(Ast::named_model(*v)),
        decreases v,
    {
        let mut out: Vec<(String, Ast)> = Vec::new();
        let mut i: usize = 0;
        while i < v.len()
            invariant
                i <= v.len(),
                out.len() == i,
                forall|k: int| 0 <= k < i ==> out[k].0@ == v[k].0@ && out[k].1@ == desugar(v[k].1@),
            decreases v.len() - i,
        {
            out.push((v[i].0.clone(), v[i].1.lowered()));
            i += 1;
        }
        assert(Ast::named_model(out) =~= desugar_named(Ast::named_model(*v)));
        out
    }
}

/// The call of the method that implements `op` on `receiver`.
pub fn call_method(op: OprType, opr_span: Option<Span>, receiver: Ast, args: Vec<Ast>) -> (out: Call)
    ensures
        out@ == method_call(op, opr_span, receiver@, Ast::seq_model(args)),
{
    let ident = Ident {
        name: String::from_str(op.method_name()),
        name_span: opr_span,
        dot_span: None,
        parent: Some(Box::new(receiver)),
    };
    assert(ident@ == (IdentModel {
        name: op.method(),
        name_span: opr_span,
        dot_span: None,
        parent: Some(Box::new(receiver@)),
    }));
    let called = Ast::Ident(ident);
    assert(called@ == AstModel::Ident(ident@));
    Call { called: Box::new(called), paren_spans: None, args }
}

impl Ident {
    /// Whether the node can be the target of a declaration or an assignment.
    pub fn is_pattern(&self) -> (b: bool)
        ensures
            b,
    {
        true
    }

    /// The node as a node of the tree.
    pub fn as_variant(&self) -> (out: Ast)
        ensures
            out@ == AstModel::Ident(self@),
    {
        Ast::Ident(self.clone())
    }

    pub fn lowered(&self) -> (out: Ident)
        ensures
            out@ == desugar_ident(self@),
        decreases self,
    {
        Ident {
            name: self.name.clone(),
            name_span: self.name_span,
            dot_span: self.dot_span,
            parent: Ast::lower_opt_box(&self.parent),
        }
    }

    /// The name with its parent expression desugared.
    pub fn desugared(&self) -> (out: Result<Ast, ZyxtError>)
        ensures
            out matches Ok(a) && a@ == desugar(AstModel::Ident(self@)),
    {
        Ok(Ast::Ident(self.lowered()))
    }

    fn lower_seq(v: &Vec<Ident>) -> (out: Vec<Ident>)
        ensures
            Ident::seq_model(out) == desugar_idents(Ident::seq_model(*v)),
        decreases v,
    {
        let mut out: Vec<Ident> = Vec::new();
        let mut i: usize = 0;
        while i < v.len()
            invariant
                i <= v.len(),
                out.len() == i,
                forall|k: int| 0 <= k < i ==> out[k]@ == desugar_ident(v[k]@),
            decreases v.len() - i,
        {
            out.push(v[i].lowered());
            i += 1;
        }
        assert(Ident::seq_model(out) =~= desugar_idents(Ident::seq_model(*v)));
        out
    }
}

impl Declare {
    /// The node as a node of the tree.
    pub fn as_variant(&self) -> (out: Ast)
        ensures
            out@ == AstModel::Declare(self@),
    {
        Ast::Declare(self.clone())
    }

    pub fn lowered(&self) -> (out: Declare)
        ensures
            AstModel::Declare(out@) == desugar(AstModel::Declare(self@)),
        decreases self,
    {
        Declare {
            variable: Box::new((*self.variable).clone()),
            content: Box::new(self.content.lowered()),
            flags: copy_flags(&self.flags),
            ty: Ast::lower_opt_box(&self.ty),
            eq_span: self.eq_span,
        }
    }

    /// The declaration with its content and its type annotation desugared.
    pub fn desugared(&self) -> (out: Result<Ast, ZyxtError>)
        ensures
            out matches Ok(a) && a@ == desugar(AstModel::Declare(self@)),
    {
        Ok(Ast::Declare(self.lowered()))
    }
}

impl Assign {
    /// The node as a node of the tree.
    pub fn as_variant(&self) -> (out: Ast)
        ensures
            out@ == AstModel::Assign(self@),
    {
        Ast::Assign(self.clone())
    }

    pub fn lowered(&self) -> (out: Assign)
        ensures
            AstModel::Assign(out@) == desugar(AstModel::Assign(self@)),
        decreases self,
    {
        Assign {
            variable: Box::new((*self.variable).clone()),
            eq_span: self.eq_span,
            content: Box::new(self.content.lowered()),
        }
    }

    /// The assignment with its content desugared.
    pub fn desugared(&self) -> (out: Result<Ast, ZyxtError>)
        ensures
            out matches Ok(a) && a@ == desugar(AstModel::Assign(self@)),
    {
        Ok(Ast::Assign(self.lowered()))
    }
}

impl Condition {
    pub fn lowered(&self) -> (out: Condition)
        ensures
            out@ == desugar_condition(self@),
        decreases self,
    {
        Condition {
            kwd_span: self.kwd_span,
            condition: Ast::lower_opt(&self.condition),
            if_true: self.if_true.lowered(),
        }
    }

    fn lower_seq(v: &Vec<Condition>) -> (out: Vec<Condition>)
        ensures
            Condition::seq_model(out) == desugar_conditions(Condition::seq_model(*v)),
        decreases v,
    {
        let mut out: Vec<Condition> = Vec::new();
        let mut i: usize = 0;
        while i < v.len()
            invariant
                i <= v.len(),
                out.len() == i,
                forall|k: int| 0 <= k < i ==> out[k]@ == desugar_condition(v[k]@),
            decreases v.len() - i,
        {
            out.push(v[i].lowered());
            i += 1;
        }
        assert(Condition::seq_model(out) =~= desugar_conditions(Condition::seq_model(*v)));
        out
    }
}

impl If {
    /// Whether the node can be the target of a declaration or an assignment.
    pub fn is_pattern(&self) -> (b: bool)
        ensures
            !b,
    {
        false
    }

    /// The node as a node of the tree.
    pub fn as_variant(&self) -> (out: Ast)
        ensures
            out@ == AstModel::If(self@),
    {
        Ast::If(self.clone())
    }

    pub fn lowered(&self) -> (out: If)
        ensures
            AstModel::If(out@) == desugar(AstModel::If(self@)),
        decreases self,
    {
        If { conditions: Condition::lower_seq(&self.conditions) }
    }

    /// The chain with every condition and every body desugared.
    pub fn desugared(&self) -> (out: Result<Ast, ZyxtError>)
        ensures
            out matches Ok(a) && a@ == desugar(AstModel::If(self@)),
    {
        Ok(Ast::If(self.lowered()))
    }
}

impl Block {
    pub fn lowered(&self) -> (out: Block)
        ensures
            out@ == desugar_block(self@),
        decreases self,
    {
        Block { brace_spans: self.brace_spans, content: Ast::lower_seq(&self.content) }
    }

    /// The block with every statement desugared.
    pub fn desugared(&self) -> (out: Result<Ast, ZyxtError>)
        ensures
            out matches Ok(a) && a@ == desugar(AstModel::Block(self@)),
    {
        Ok(Ast::Block(self.lowered()))
    }
}

impl Call {
    pub fn lowered(&self) -> (out: Call)
        ensures
            AstModel::Call(out@) == desugar(AstModel::Call(self@)),
        decreases self,
    {
        Call {
            called: Box::new(self.called.lowered()),
            paren_spans: self.paren_spans,
            args: Ast::lower_seq(&self.args),
        }
    }

    /// The call with the called expression and the arguments desugared.
    pub fn desugared(&self) -> (out: Result<Ast, ZyxtError>)
        ensures
            out matches Ok(a) && a@ == desugar(AstModel::Call(self@)),
    {
        Ok(Ast::Call(self.lowered()))
    }
}

impl BinaryOpr {
    /// The node as a node of the tree.
    pub fn as_variant(&self) -> (out: Ast)
        ensures
            out@ == AstModel::BinaryOpr(self@),
    {
        Ast::BinaryOpr(self.clone())
    }

    pub fn lowered(&self) -> (out: Call)
        ensures
            AstModel::Call(out@) == desugar(AstModel::BinaryOpr(self@)),
        decreases self,
    {
        let receiver = self.operand1.lowered();
        let mut args: Vec<Ast> = Vec::new();
        args.push(self.operand2.lowered());
        assert(Ast::seq_model(args) =~= seq![desugar(*self@.operand2)]);
        call_method(self.ty, self.opr_span, receiver, args)
    }

    /// The call of the operator's method on the first operand, with the
    /// second operand as its argument.
    pub fn desugared(&self) -> (out: Result<Ast, ZyxtError>)
        ensures
            out matches Ok(a) && a@ == desugar(AstModel::BinaryOpr(self@)),
    {
        Ok(Ast::Call(self.lowered()))
    }
}

impl UnaryOpr {
    /// The node as a node of the tree.
    pub fn as_variant(&self) -> (out: Ast)
        ensures
            out@ == AstModel::UnaryOpr(self@),
    {
        Ast::UnaryOpr(self.clone())
    }

    pub fn lowered(&self) -> (out: Call)
        ensures
            AstModel::Call(out@) == desugar(AstModel::UnaryOpr(self@)),
        decreases self,
    {
        let receiver = self.operand.lowered();
        let args: Vec<Ast> = Vec::new();
        assert(Ast::seq_model(args) =~= Seq::<AstModel>::empty());
        call_method(self.ty, self.opr_span, receiver, args)
    }

    /// The call, without arguments, of the operator's method on the operand:
    /// `-x` becomes `x._un_minus()`.
    pub fn desugared(&self) -> (out: Result<Ast, ZyxtError>)
        ensures
            out matches Ok(a) && a@ == AstModel::Call(
                method_call(self.ty, self.opr_span, desugar(*self@.operand), Seq::empty()),
            ),
    {
        Ok(Ast::Call(self.lowered()))
    }
}

impl Return {
    /// The node as a node of the tree.
    pub fn as_variant(&self) -> (out: Ast)
        ensures
            out@ == AstModel::Return(self@),
    {
        Ast::Return(self.clone())
    }

    pub fn lowered(&self) -> (out: Return)
        ensures
            AstModel::Return(out@) == desugar(AstModel::Return(self@)),
        decreases self,
    {
        Return { kwd_span: self.kwd_span, value: Box::new(self.value.lowered()) }
    }

    /// The return with its value desugared.
    pub fn desugared(&self) -> (out: Result<Ast, ZyxtError>)
        ensures
            out matches Ok(a) && a@ == desugar(AstModel::Return(self@)),
    {
        Ok(Ast::Return(self.lowered()))
    }
}

impl Argument {
    pub fn lowered(&self) -> (out: Argument)
        ensures
            out@ == desugar_argument(self@),
        decreases self,
    {
        Argument {
            name: self.name.clone(),
            ty: self.ty.lowered(),
            default: Ast::lower_opt(&self.default),
        }
    }

    fn lower_seq(v: &Vec<Argument>) -> (out: Vec<Argument>)
        ensures
            Argument::seq_model(out) == desugar_args(Argument::seq_model(*v)),
        decreases v,
    {
        let mut out: Vec<Argument> = Vec::new();
        let mut i: usize = 0;
        while i < v.len()
            invariant
                i <= v.len(),
                out.len() == i,
                forall|k: int| 0 <= k < i ==> out[k]@ == desugar_argument(v[k]@),
            decreases v.len() - i,
        {
            out.push(v[i].lowered());
            i += 1;
        }
        assert(Argument::seq_model(out) =~= desugar_args(Argument::seq_model(*v)));
        out
    }
}

impl Procedure {
    pub fn lowered(&self) -> (out: Procedure)
        ensures
            AstModel::Procedure(out@) == desugar(AstModel::Procedure(self@)),
        decreases self,
    {
        Procedure {
            is_fn: self.is_fn,
            kwd_span: self.kwd_span,
            args: Argument::lower_seq(&self.args),
            return_type: Ast::lower_opt_box(&self.return_type),
            content: self.content.lowered(),
        }
    }

    /// The procedure with its parameters, return type and body desugared.
    pub fn desugared(&self) -> (out: Result<Ast, ZyxtError>)
        ensures
            out matches Ok(a) && a@ == desugar(AstModel::Procedure(self@)),
    {
        Ok(Ast::Procedure(self.lowered()))
    }
}

impl InstField {
    pub fn lowered(&self) -> (out: InstField)
        ensures
            out@ == desugar_field(self@),
        decreases self,
    {
        InstField {
            name: self.name.clone(),
            ty: self.ty.lowered(),
            default: Ast::lower_opt(&self.default),
        }
    }

    fn lower_seq(v: &Vec<InstField>) -> (out: Vec<InstField>)
        ensures
            InstField::seq_model(out) == desugar_fields(InstField::seq_model(*v)),
        decreases v,
    {
        let mut out: Vec<InstField> = Vec::new();
        let mut i: usize = 0;
        while i < v.len()
            invariant
                i <= v.len(),
                out.len() == i,
                forall|k: int| 0 <= k < i ==> out[k]@ == desugar_field(v[k]@),
            decreases v.len() - i,
        {
            out.push(v[i].lowered());
            i += 1;
        }
        assert(InstField::seq_model(out) =~= desugar_fields(InstField::seq_model(*v)));
        out
    }
}

impl Class {
    /// The node as a node of the tree.
    pub fn as_variant(&self) -> (out: Ast)
        ensures
            out@ == AstModel::Class(self@),
    {
        Ast::Class(self.clone())
    }

    pub fn lowered(&self) -> (out: Class)
        ensures
            AstModel::Class(out@) == desugar(AstModel::Class(self@)),
        decreases self,
    {
        Class {
            is_struct: self.is_struct,
            implementations: Ast::lower_named(&self.implementations),
            inst_fields: InstField::lower_seq(&self.inst_fields),
            content: self.content.lowered(),
            args: match &self.args {
                Some(args) => Some(Argument::lower_seq(args)),
                None => None,
            },
        }
    }

    /// The class with its methods, fields, body and parameters desugared.
    pub fn desugared(&self) -> (out: Result<Ast, ZyxtError>)
        ensures
            out matches Ok(a) && a@ == desugar(AstModel::Class(self@)),
    {
        Ok(Ast::Class(self.lowered()))
    }
}

impl Defer {
    pub fn lowered(&self) -> (out: Defer)
        ensures
            AstModel::Defer(out@) == desugar(AstModel::Defer(self@)),
        decreases self,
    {
        Defer { kwd_span: self.kwd_span, content: self.content.lowered() }
    }

    /// The deferred block with its statements desugared.
    pub fn desugared(&self) -> (out: Result<Ast, ZyxtError>)
        ensures
            out matches Ok(a) && a@ == desugar(AstModel::Defer(self@)),
    {
        Ok(Ast::Defer(self.lowered()))
    }
}

impl Delete {
    pub fn lowered(&self) -> (out: Delete)
        ensures
            AstModel::Delete(out@) == desugar(AstModel::Delete(self@)),
        decreases self,
    {
        Delete { kwd_span: self.kwd_span, names: Ident::lower_seq(&self.names) }
    }

    /// The deletion with the parent expressions of its names desugared.
    pub fn desugared(&self) -> (out: Result<Ast, ZyxtError>)
        ensures
            out matches Ok(a) && a@ == desugar(AstModel::Delete(self@)),
    {
        Ok(Ast::Delete(self.lowered()))
    }
}

} // verus!
