//! The source text of a node, written out again from the tree.

use vstd::prelude::*;
use vstd::string::*;
use crate::ast::{
    Argument, ArgumentModel, Assign, Ast, AstModel, BinaryOpr, Block, BlockModel, Call, Class,
    Condition, ConditionModel, Declare, Defer, Delete, Ident, IdentModel, If, Literal, Procedure,
    Return, UnaryOpr,
};
use crate::describe::value_text;
use crate::errors::{PositionForZyxtError, ZyxtError, place};
use crate::position::Span;
use crate::span::span_of;
use crate::token::{Flag, OprType};
use crate::value::{Value, ValueModel};

verus! {

impl OprType {
    /// The operator as programs write it.
    pub open spec fn symbol_text(self) -> Seq<char> {
        match self {
            OprType::Not => "!"@,
            OprType::UnPlus => "+"@,
            OprType::UnMinus => "-"@,
            OprType::Add => "+"@,
            OprType::Sub => "-"@,
            OprType::Mul => "*"@,
            OprType::Div => "/"@,
            OprType::Mod => "%"@,
            OprType::Eq => "=="@,
            OprType::Ne => "!="@,
            OprType::Lt => "<"@,
            OprType::Le => "<="@,
            OprType::Gt => ">"@,
            OprType::Ge => ">="@,
            OprType::Concat => ".."@,
            OprType::TypeCast => "@"@,
        }
    }

    pub fn symbol(&self) -> (out: &'static str)
        ensures
            out@ == self.symbol_text(),
    {
        match self {
            OprType::Not => "!",
            OprType::UnPlus => "+",
            OprType::UnMinus => "-",
            OprType::Add => "+",
            OprType::Sub => "-",
            OprType::Mul => "*",
            OprType::Div => "/",
            OprType::Mod => "%",
            OprType::Eq => "==",
            OprType::Ne => "!=",
            OprType::Lt => "<",
            OprType::Le => "<=",
            OprType::Gt => ">",
            OprType::Ge => ">=",
            OprType::Concat => "..",
            OprType::TypeCast => "@",
        }
    }
}

impl Flag {
    /// The flag as programs write it.
    pub open spec fn text(self) -> Seq<char> {
        match self {
            Flag::Hoi => "hoi"@,
            Flag::Pub => "pub"@,
            Flag::Priv => "priv"@,
            Flag::Prot => "prot"@,
            Flag::Const => "const"@,
            Flag::Inst => "inst"@,
        }
    }

    pub fn name(&self) -> (out: &'static str)
        ensures
            out@ == self.text(),
    {
        match self {
            Flag::Hoi => "hoi",
            Flag::Pub => "pub",
            Flag::Priv => "priv",
            Flag::Prot => "prot",
            Flag::Const => "const",
            Flag::Inst => "inst",
        }
    }
}

/// A literal as programs write it: a string between quotes, any other value
/// as it is shown.
pub open spec fn literal_source(v: ValueModel) -> Seq<char> {
    match v {
        ValueModel::Str(s) => "\""@ + s + "\""@,
        _ => value_text(v),
    }
}

/// The first `n` flags, each followed by a space.
pub open spec fn flags_source(flags: Seq<(Flag, Span)>, n: nat) -> Seq<char>
    decreases n,
{
    if n == 0 || n > flags.len() {
        Seq::empty()
    } else {
        flags_source(flags, (n - 1) as nat) + flags[n - 1].0.text() + " "@
    }
}

/// The source text of a node.
pub open spec fn source(a: AstModel) -> Seq<char>
    decreases a, 0nat,
{
    match a {
        AstModel::Literal(x) => literal_source(x.content),
        AstModel::Ident(x) => ident_source(x),
        AstModel::Declare(x) => flags_source(x.flags, x.flags.len()) + source(*x.variable) + (
        match x.ty {
            Some(ty) => ": "@ + source(*ty),
            None => Seq::empty(),
        }) + " := "@ + source(*x.content),
        AstModel::Assign(x) => source(*x.variable) + " = "@ + source(*x.content),
        AstModel::If(x) => branches_source(x.conditions, x.conditions.len()),
        AstModel::Block(x) => block_source(x),
        AstModel::Call(x) => source(*x.called) + "("@ + list_source(x.args, x.args.len()) + ")"@,
        AstModel::BinaryOpr(x) => source(*x.operand1) + " "@ + x.ty.symbol_text() + " "@ + source(
            *x.operand2,
        ),
        AstModel::UnaryOpr(x) => x.ty.symbol_text() + source(*x.operand),
        AstModel::Return(x) => "ret "@ + source(*x.value),
        AstModel::Procedure(x) => (if x.is_fn {
            "fn"@
        } else {
            "proc"@
        }) + "|"@ + params_source(x.args, x.args.len()) + "|"@ + (match x.return_type {
            Some(ty) => ": "@ + source(*ty),
            None => Seq::empty(),
        }) + " "@ + block_source(x.content),
        AstModel::Class(x) => (if x.is_struct {
            "struct"@
        } else {
            "class"@
        }) + (match x.args {
            Some(args) => "|"@ + params_source(args, args.len()) + "|"@,
            None => Seq::empty(),
        }) + " "@ + block_source(x.content),
        AstModel::Defer(x) => "defer "@ + block_source(x.content),
        AstModel::Delete(x) => "del "@ + names_source(x.names, x.names.len()),
    }
}

/// A name, behind its parent and a dot where it has a parent.
pub open spec fn ident_source(x: IdentModel) -> Seq<char>
    decreases x, 0nat,
{
    match x.parent {
        Some(p) => source(*p) + "."@ + x.name,
        None => x.name,
    }
}

/// The statements of a block between braces, with `; ` between them.
pub open spec fn block_source(x: BlockModel) -> Seq<char>
    decreases x, 0nat,
{
    "{"@ + stmts_source(x.content, x.content.len()) + "}"@
}

/// The first `n` statements, with `; ` between them.
pub open spec fn stmts_source(s: Seq<AstModel>, n: nat) -> Seq<char>
    decreases s, n,
{
    if n == 0 || n > s.len() {
        Seq::empty()
    } else if n == 1 {
        source(s[0])
    } else {
        stmts_source(s, (n - 1) as nat) + "; "@ + source(s[n - 1])
    }
}

/// The first `n` nodes, with `, ` between them.
pub open spec fn list_source(s: Seq<AstModel>, n: nat) -> Seq<char>
    decreases s, n,
{
    if n == 0 || n > s.len() {
        Seq::empty()
    } else if n == 1 {
        source(s[0])
    } else {
        list_source(s, (n - 1) as nat) + ", "@ + source(s[n - 1])
    }
}

/// The first `n` names, with `, ` between them.
pub open spec fn names_source(s: Seq<IdentModel>, n: nat) -> Seq<char>
    decreases s, n,
{
    if n == 0 || n > s.len() {
        Seq::empty()
    } else if n == 1 {
        ident_source(s[0])
    } else {
        names_source(s, (n - 1) as nat) + ", "@ + ident_source(s[n - 1])
    }
}

/// A parameter: its name, its type, and its default where it has one.
pub open spec fn param_source(x: ArgumentModel) -> Seq<char>
    decreases x, 0nat,
{
    x.name + ": "@ + source(x.ty) + (match x.default {
        Some(d) => ": "@ + source(d),
        None => Seq::empty(),
    })
}

/// The first `n` parameters, with `, ` between them.
pub open spec fn params_source(s: Seq<ArgumentModel>, n: nat) -> Seq<char>
    decreases s, n,
{
    if n == 0 || n > s.len() {
        Seq::empty()
    } else if n == 1 {
        param_source(s[0])
    } else {
        params_source(s, (n - 1) as nat) + ", "@ + param_source(s[n - 1])
    }
}

/// The branch at `i`: `if` for the first, `else` for one without a
/// condition, `elif` for any other; then the condition and the body.
pub open spec fn branch_source(x: ConditionModel, i: int) -> Seq<char>
    decreases x, 0nat,
{
    match x.condition {
        Some(c) => (if i == 0 {
            "if "@
        } else {
            "elif "@
        }) + source(c) + " "@ + block_source(x.if_true),
        None => "else "@ + block_source(x.if_true),
    }
}

/// The first `n` branches, with a space between them.
pub open spec fn branches_source(s: Seq<ConditionModel>, n: nat) -> Seq<char>
    decreases s, n,
{
    if n == 0 || n > s.len() {
        Seq::empty()
    } else if n == 1 {
        branch_source(s[0], 0)
    } else {
        branches_source(s, (n - 1) as nat) + " "@ + branch_source(s[n - 1], n - 1)
    }
}

fn literal_text(v: &Value) -> (out: String)
    ensures
        out@ == literal_source(v@),
{
    match v {
        Value::Str(s) => {
            let mut out = String::from_str("\"");
            out.append(s.as_str());
            out.append("\"");
            out
        },
        _ => v.to_text(),
    }
}

fn flags_text(flags: &Vec<(Flag, Span)>) -> (out: String)
    ensures
        out@ == flags_source(flags@, flags@.len()),
{
    let mut out = String::new();
    let mut i: usize = 0;
    while i < flags.len()
        invariant
            i <= flags.len(),
            out@ == flags_source(flags@, i as nat),
        decreases flags.len() - i,
    {
        out.append(flags[i].0.name());
        out.append(" ");
        i += 1;
    }
    out
}

impl Ast {
    /// The source text of the node.
    pub fn reconstruct(&self) -> (out: String)
        ensures
            out@ == source(self@),
        decreases self, 0nat,
    {
        match self {
            Ast::Literal(x) => literal_text(&x.content),
            Ast::Ident(x) => x.reconstruct(),
            Ast::Declare(x) => x.reconstruct(),
            Ast::Assign(x) => x.reconstruct(),
            Ast::If(x) => x.reconstruct(),
            Ast::Block(x) => x.reconstruct(),
            Ast::Call(x) => x.reconstruct(),
            Ast::BinaryOpr(x) => x.reconstruct(),
            Ast::UnaryOpr(x) => x.reconstruct(),
            Ast::Return(x) => x.reconstruct(),
            Ast::Procedure(x) => x.reconstruct(),
            Ast::Class(x) => x.reconstruct(),
            Ast::Defer(x) => x.reconstruct(),
            Ast::Delete(x) => x.reconstruct(),
        }
    }

    fn reconstruct_stmts(v: &Vec<Ast>) -> (out: String)
        ensures
            out@ == stmts_source(Ast::seq_model(*v), v.len() as nat),
        decreases v, 0nat,
    {
        let mut out = String::new();
        let mut i: usize = 0;
        while i < v.len()
            invariant
                i <= v.len(),
                out@ == stmts_source(Ast::seq_model(*v), i as nat),
            decreases v.len() - i,
        {
            if i > 0 {
                out.append("; ");
            }
            out.append(v[i].reconstruct().as_str());
            assert(out@ =~= stmts_source(Ast::seq_model(*v), (i + 1) as nat));
            i += 1;
        }
        out
    }

    fn reconstruct_list(v: &Vec<Ast>) -> (out: String)
        ensures
            out@ == list_source(Ast::seq_model(*v), v.len() as nat),
        decreases v, 0nat,
    {
        let mut out = String::new();
        let mut i: usize = 0;
        while i < v.len()
            invariant
                i <= v.len(),
                out@ == list_source(Ast::seq_model(*v), i as nat),
            decreases v.len() - i,
        {
            if i > 0 {
                out.append(", ");
            }
            out.append(v[i].reconstruct().as_str());
            assert(out@ =~= list_source(Ast::seq_model(*v), (i + 1) as nat));
            i += 1;
        }
        out
    }
}

impl Ident {
    /// The source text of the name.
    pub fn reconstruct(&self) -> (out: String)
        ensures
            out@ == ident_source(self@),
        decreases self, 0nat,
    {
        match &self.parent {
            Some(p) => {
                let mut out = p.reconstruct();
                out.append(".");
                out.append(self.name.as_str());
                out
            },
            None => self.name.clone(),
        }
    }

    fn reconstruct_names(v: &Vec<Ident>) -> (out: String)
        ensures
            out@ == names_source(Ident::seq_model(*v), v.len() as nat),
        decreases v, 0nat,
    {
        let mut out = String::new();
        let mut i: usize = 0;
        while i < v.len()
            invariant
                i <= v.len(),
                out@ == names_source(Ident::seq_model(*v), i as nat),
            decreases v.len() - i,
        {
            if i > 0 {
                out.append(", ");
            }
            out.append(v[i].reconstruct().as_str());
            assert(out@ =~= names_source(Ident::seq_model(*v), (i + 1) as nat));
            i += 1;
        }
        out
    }
}

impl Declare {
    /// The source text of the declaration.
    pub fn reconstruct(&self) -> (out: String)
        ensures
            out@ == source(AstModel::Declare(self@)),
        decreases self, 0nat,
    {
        let mut out = flags_text(&self.flags);
        out.append(self.variable.reconstruct().as_str());
        match &self.ty {
            Some(ty) => {
                out.append(": ");
                out.append(ty.reconstruct().as_str());
            },
            None => {},
        }
        out.append(" := ");
        out.append(self.content.reconstruct().as_str());
        assert(out@ =~= source(AstModel::Declare(self@)));
        out
    }
}

impl Assign {
    /// The source text of the assignment.
    pub fn reconstruct(&self) -> (out: String)
        ensures
            out@ == source(AstModel::Assign(self@)),
        decreases self, 0nat,
    {
        let mut out = self.variable.reconstruct();
        out.append(" = ");
        out.append(self.content.reconstruct().as_str());
        out
    }
}

impl Condition {
    fn reconstruct(&self, first: bool) -> (out: String)
        ensures
            out@ == branch_source(
                self@,
                if first {
                    0int
                } else {
                    1int
                },
            ),
        decreases self, 0nat,
    {
        let mut out = match &self.condition {
            Some(c) => {
                let mut out = String::from_str(
                    if first {
                        "if "
                    } else {
                        "elif "
                    },
                );
                out.append(c.reconstruct().as_str());
                out.append(" ");
                out
            },
            None => String::from_str("else "),
        };
        out.append(self.if_true.reconstruct().as_str());
        assert(out@ =~= branch_source(
            self@,
            if first {
                0int
            } else {
                1int
            },
        ));
        out
    }
}

impl If {
    /// The source text of the chain of branches.
    pub fn reconstruct(&self) -> (out: String)
        ensures
            out@ == source(AstModel::If(self@)),
        decreases self, 0nat,
    {
        let v = &self.conditions;
        let mut out = String::new();
        let mut i: usize = 0;
        while i < v.len()
            invariant
                i <= v.len(),
                v == &self.conditions,
                out@ == branches_source(Condition::seq_model(*v), i as nat),
            decreases v.len() - i,
        {
            if i > 0 {
                out.append(" ");
            }
            let branch = v[i].reconstruct(i == 0);
            assert(branch@ == branch_source(Condition::seq_model(*v)[i as int], i as int));
            out.append(branch.as_str());
            assert(out@ =~= branches_source(Condition::seq_model(*v), (i + 1) as nat));
            i += 1;
        }
        out
    }
}

impl Block {
    /// The source text of the block.
    pub fn reconstruct(&self) -> (out: String)
        ensures
            out@ == block_source(self@),
            out@ == source(AstModel::Block(self@)),
        decreases self, 0nat,
    {
        let mut out = String::from_str("{");
        out.append(Ast::reconstruct_stmts(&self.content).as_str());
        out.append("}");
        assert(out@ == block_source(self@));
        assert(source(AstModel::Block(self@)) == block_source(self@));
        out
    }
}

impl Call {
    /// The source text of the call.
    pub fn reconstruct(&self) -> (out: String)
        ensures
            out@ == source(AstModel::Call(self@)),
        decreases self, 0nat,
    {
        let mut out = self.called.reconstruct();
        out.append("(");
        out.append(Ast::reconstruct_list(&self.args).as_str());
        out.append(")");
        out
    }
}

impl BinaryOpr {
    /// The source text of the operation.
    pub fn reconstruct(&self) -> (out: String)
        ensures
            out@ == source(AstModel::BinaryOpr(self@)),
        decreases self, 0nat,
    {
        let mut out = self.operand1.reconstruct();
        out.append(" ");
        out.append(self.ty.symbol());
        out.append(" ");
        out.append(self.operand2.reconstruct().as_str());
        out
    }
}

impl UnaryOpr {
    /// The source text of the operation.
    pub fn reconstruct(&self) -> (out: String)
        ensures
            out@ == source(AstModel::UnaryOpr(self@)),
        decreases self, 0nat,
    {
        let mut out = String::from_str(self.ty.symbol());
        out.append(self.operand.reconstruct().as_str());
        out
    }
}

impl Return {
    /// The source text of the return: `ret` and the value.
    pub fn reconstruct(&self) -> (out: String)
        ensures
            out@ == source(AstModel::Return(self@)),
        decreases self, 0nat,
    {
        let mut out = String::from_str("ret ");
        out.append(self.value.reconstruct().as_str());
        out
    }
}

impl Argument {
    /// The source text of the parameter.
    pub fn reconstruct(&self) -> (out: String)
        ensures
            out@ == param_source(self@),
        decreases self, 0nat,
    {
        let mut out = self.name.clone();
        out.append(": ");
        out.append(self.ty.reconstruct().as_str());
        match &self.default {
            Some(d) => {
                out.append(": ");
                out.append(d.reconstruct().as_str());
            },
            None => {},
        }
        assert(out@ =~= param_source(self@));
        out
    }

    fn reconstruct_params(v: &Vec<Argument>) -> (out: String)
        ensures
            out@ == params_source(Argument::seq_model(*v), v.len() as nat),
        decreases v, 0nat,
    {
        let mut out = String::new();
        let mut i: usize = 0;
        while i < v.len()
            invariant
                i <= v.len(),
                out@ == params_source(Argument::seq_model(*v), i as nat),
            decreases v.len() - i,
        {
            if i > 0 {
                out.append(", ");
            }
            out.append(v[i].reconstruct().as_str());
            assert(out@ =~= params_source(Argument::seq_model(*v), (i + 1) as nat));
            i += 1;
        }
        out
    }
}

impl Procedure {
    /// The source text of the procedure.
    pub fn reconstruct(&self) -> (out: String)
        ensures
            out@ == source(AstModel::Procedure(self@)),
        decreases self, 0nat,
    {
        let mut out = String::from_str(
            if self.is_fn {
                "fn"
            } else {
                "proc"
            },
        );
        out.append("|");
        out.append(Argument::reconstruct_params(&self.args).as_str());
        out.append("|");
        match &self.return_type {
            Some(ty) => {
                out.append(": ");
                out.append(ty.reconstruct().as_str());
            },
            None => {},
        }
        out.append(" ");
        out.append(self.content.reconstruct().as_str());
        assert(out@ =~= source(AstModel::Procedure(self@)));
        out
    }
}

impl Class {
    /// The source text of the class: the keyword, the parameters and the
    /// body.
    pub fn reconstruct(&self) -> (out: String)
        ensures
            out@ == source(AstModel::Class(self@)),
        decreases self, 0nat,
    {
        let mut out = String::from_str(
            if self.is_struct {
                "struct"
            } else {
                "class"
            },
        );
        match &self.args {
            Some(args) => {
                out.append("|");
                out.append(Argument::reconstruct_params(args).as_str());
                out.append("|");
            },
            None => {},
        }
        out.append(" ");
        out.append(self.content.reconstruct().as_str());
        assert(out@ =~= source(AstModel::Class(self@)));
        out
    }
}

impl Defer {
    /// The source text of the deferred block.
    pub fn reconstruct(&self) -> (out: String)
        ensures
            out@ == source(AstModel::Defer(self@)),
        decreases self, 0nat,
    {
        let mut out = String::from_str("defer ");
        out.append(self.content.reconstruct().as_str());
        out
    }
}

impl Delete {
    /// The source text of the deletion.
    pub fn reconstruct(&self) -> (out: String)
        ensures
            out@ == source(AstModel::Delete(self@)),
        decreases self, 0nat,
    {
        let mut out = String::from_str("del ");
        out.append(Ident::reconstruct_names(&self.names).as_str());
        out
    }
}

impl ZyxtError {
    /// The places of an error raised at the node `element`: the start of its
    /// span, if it has one, with its source text.
    pub fn from_element(element: &Ast) -> (out: PositionForZyxtError)
        ensures
            out@ == place(span_of(element@), source(element@)),
    {
        ZyxtError::from_span(element.span(), element.reconstruct().as_str())
    }
}

} // verus!
