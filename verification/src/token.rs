//! The operators, flags and keywords of the language.

use vstd::prelude::*;

verus! {

/// An operator of the language.
#[derive(Clone, Copy, Debug, PartialEq, Eq, Structural)]
pub enum OprType {
    Not,
    UnPlus,
    UnMinus,
    Add,
    Sub,
    Mul,
    Div,
    Mod,
    Eq,
    Ne,
    Lt,
    Le,
    Gt,
    Ge,
    Concat,
    TypeCast,
}

/// A flag on a declaration.
#[derive(Clone, Copy, Debug, PartialEq, Eq, Structural)]
pub enum Flag {
    Hoi,
    Pub,
    Priv,
    Prot,
    Const,
    Inst,
}

/// A keyword of the language.
#[derive(Clone, Copy, Debug, PartialEq, Eq, Structural)]
pub enum Keyword {
    If,
    Elif,
    Else,
    Do,
    While,
    For,
    Delete,
    Return,
    Proc,
    Fn,
    Pre,
    Defer,
    Class,
    Struct,
}

impl OprType {
    /// Whether the operator stands before a single operand.
    pub open spec fn is_unary(self) -> bool {
        self == OprType::Not || self == OprType::UnPlus || self == OprType::UnMinus
    }

    /// The reserved name under which a type implements the operator.
    pub open spec fn method(self) -> Seq<char> {
        match self {
            OprType::Not => "_not"@,
            OprType::UnPlus => "_un_plus"@,
            OprType::UnMinus => "_un_minus"@,
            OprType::Add => "_add"@,
            OprType::Sub => "_sub"@,
            OprType::Mul => "_mul"@,
            OprType::Div => "_div"@,
            OprType::Mod => "_rem"@,
            OprType::Eq => "_eq"@,
            OprType::Ne => "_neq"@,
            OprType::Lt => "_lt"@,
            OprType::Le => "_le"@,
            OprType::Gt => "_gt"@,
            OprType::Ge => "_ge"@,
            OprType::Concat => "_concat"@,
            OprType::TypeCast => "_typecast"@,
        }
    }

    pub fn unary(&self) -> (b: bool)
        ensures
            b == self.is_unary(),
    {
        match self {
            OprType::Not | OprType::UnPlus | OprType::UnMinus => true,
            _ => false,
        }
    }

    pub fn method_name(&self) -> (name: &'static str)
        ensures
            name@ == self.method(),
    {
        match self {
            OprType::Not => "_not",
            OprType::UnPlus => "_un_plus",
            OprType::UnMinus => "_un_minus",
            OprType::Add => "_add",
            OprType::Sub => "_sub",
            OprType::Mul => "_mul",
            OprType::Div => "_div",
            OprType::Mod => "_rem",
            OprType::Eq => "_eq",
            OprType::Ne => "_neq",
            OprType::Lt => "_lt",
            OprType::Le => "_le",
            OprType::Gt => "_gt",
            OprType::Ge => "_ge",
            OprType::Concat => "_concat",
            OprType::TypeCast => "_typecast",
        }
    }
}

impl Keyword {
    /// The keyword's name as diagnostics show it.
    pub open spec fn text(self) -> Seq<char> {
        match self {
            Keyword::If => "If"@,
            Keyword::Elif => "Elif"@,
            Keyword::Else => "Else"@,
            Keyword::Do => "Do"@,
            Keyword::While => "While"@,
            Keyword::For => "For"@,
            Keyword::Delete => "Delete"@,
            Keyword::Return => "Return"@,
            Keyword::Proc => "Proc"@,
            Keyword::Fn => "Fn"@,
            Keyword::Pre => "Pre"@,
            Keyword::Defer => "Defer"@,
            Keyword::Class => "Class"@,
            Keyword::Struct => "Struct"@,
        }
    }

    pub fn name(&self) -> (name: &'static str)
        ensures
            name@ == self.text(),
    {
        match self {
            Keyword::If => "If",
            Keyword::Elif => "Elif",
            Keyword::Else => "Else",
            Keyword::Do => "Do",
            Keyword::While => "While",
            Keyword::For => "For",
            Keyword::Delete => "Delete",
            Keyword::Return => "Return",
            Keyword::Proc => "Proc",
            Keyword::Fn => "Fn",
            Keyword::Pre => "Pre",
            Keyword::Defer => "Defer",
            Keyword::Class => "Class",
            Keyword::Struct => "Struct",
        }
    }
}

} // verus!
