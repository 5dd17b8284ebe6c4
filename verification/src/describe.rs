//! The names and identities of the builtin types, the type of a value, and
//! the text that stands for a value or a type in a diagnostic.

use vstd::prelude::*;
use vstd::string::*;
use crate::text::{decimal, i128_to_string, signed_decimal, u128_to_string};
use crate::value::{Prim, Type, TypeDefinitionModel, TypeModel, Value, ValueModel};

verus! {

impl Prim {
    /// The name by which programs refer to the type.
    pub open spec fn name_text(self) -> Seq<char> {
        match self {
            Prim::Str => "str"@,
            Prim::Bool => "bool"@,
            Prim::I8 => "i8"@,
            Prim::I16 => "i16"@,
            Prim::I32 => "i32"@,
            Prim::I64 => "i64"@,
            Prim::I128 => "i128"@,
            Prim::Isize => "isize"@,
            Prim::Ibig => "ibig"@,
            Prim::U8 => "u8"@,
            Prim::U16 => "u16"@,
            Prim::U32 => "u32"@,
            Prim::U64 => "u64"@,
            Prim::U128 => "u128"@,
            Prim::Usize => "usize"@,
            Prim::Ubig => "ubig"@,
            Prim::F16 => "f16"@,
            Prim::F32 => "f32"@,
            Prim::F64 => "f64"@,
            Prim::Unit => "_unit"@,
            Prim::Type => "type"@,
        }
    }

    /// The identity of the type's definition.
    pub open spec fn ident(self) -> u64 {
        match self {
            Prim::Str => 0,
            Prim::Bool => 1,
            Prim::I8 => 2,
            Prim::I16 => 3,
            Prim::I32 => 4,
            Prim::I64 => 5,
            Prim::I128 => 6,
            Prim::Isize => 7,
            Prim::Ibig => 8,
            Prim::U8 => 9,
            Prim::U16 => 10,
            Prim::U32 => 11,
            Prim::U64 => 12,
            Prim::U128 => 13,
            Prim::Usize => 14,
            Prim::Ubig => 15,
            Prim::F16 => 16,
            Prim::F32 => 17,
            Prim::F64 => 18,
            Prim::Unit => 19,
            Prim::Type => 20,
        }
    }

    /// The type of the values of this builtin type.
    pub open spec fn instance(self) -> TypeModel {
        TypeModel::Instance { name: self.name_text(), id: self.ident() }
    }

    pub fn name(&self) -> (name: &'static str)
        ensures
            name@ == self.name_text(),
    {
        match self {
            Prim::Str => "str",
            Prim::Bool => "bool",
            Prim::I8 => "i8",
            Prim::I16 => "i16",
            Prim::I32 => "i32",
            Prim::I64 => "i64",
            Prim::I128 => "i128",
            Prim::Isize => "isize",
            Prim::Ibig => "ibig",
            Prim::U8 => "u8",
            Prim::U16 => "u16",
            Prim::U32 => "u32",
            Prim::U64 => "u64",
            Prim::U128 => "u128",
            Prim::Usize => "usize",
            Prim::Ubig => "ubig",
            Prim::F16 => "f16",
            Prim::F32 => "f32",
            Prim::F64 => "f64",
            Prim::Unit => "_unit",
            Prim::Type => "type",
        }
    }

    pub fn id(&self) -> (id: u64)
        ensures
            id == self.ident(),
    {
        match self {
            Prim::Str => 0,
            Prim::Bool => 1,
            Prim::I8 => 2,
            Prim::I16 => 3,
            Prim::I32 => 4,
            Prim::I64 => 5,
            Prim::I128 => 6,
            Prim::Isize => 7,
            Prim::Ibig => 8,
            Prim::U8 => 9,
            Prim::U16 => 10,
            Prim::U32 => 11,
            Prim::U64 => 12,
            Prim::U128 => 13,
            Prim::Usize => 14,
            Prim::Ubig => 15,
            Prim::F16 => 16,
            Prim::F32 => 17,
            Prim::F64 => 18,
            Prim::Unit => 19,
            Prim::Type => 20,
        }
    }

    /// The builtin type whose definition has identity `id`, if there is one.
    pub open spec fn with_ident(id: u64) -> Option<Prim> {
        if id == 0 {
            Some(Prim::Str)
        } else if id == 1 {
            Some(Prim::Bool)
        } else if id == 2 {
            Some(Prim::I8)
        } else if id == 3 {
            Some(Prim::I16)
        } else if id == 4 {
            Some(Prim::I32)
        } else if id == 5 {
            Some(Prim::I64)
        } else if id == 6 {
            Some(Prim::I128)
        } else if id == 7 {
            Some(Prim::Isize)
        } else if id == 8 {
            Some(Prim::Ibig)
        } else if id == 9 {
            Some(Prim::U8)
        } else if id == 10 {
            Some(Prim::U16)
        } else if id == 11 {
            Some(Prim::U32)
        } else if id == 12 {
            Some(Prim::U64)
        } else if id == 13 {
            Some(Prim::U128)
        } else if id == 14 {
            Some(Prim::Usize)
        } else if id == 15 {
            Some(Prim::Ubig)
        } else if id == 16 {
            Some(Prim::F16)
        } else if id == 17 {
            Some(Prim::F32)
        } else if id == 18 {
            Some(Prim::F64)
        } else if id == 19 {
            Some(Prim::Unit)
        } else if id == 20 {
            Some(Prim::Type)
        } else {
            None
        }
    }

    pub fn from_id(id: u64) -> (p: Option<Prim>)
        ensures
            p == Prim::with_ident(id),
    {
        if id == 0 {
            Some(Prim::Str)
        } else if id == 1 {
            Some(Prim::Bool)
        } else if id == 2 {
            Some(Prim::I8)
        } else if id == 3 {
            Some(Prim::I16)
        } else if id == 4 {
            Some(Prim::I32)
        } else if id == 5 {
            Some(Prim::I64)
        } else if id == 6 {
            Some(Prim::I128)
        } else if id == 7 {
            Some(Prim::Isize)
        } else if id == 8 {
            Some(Prim::Ibig)
        } else if id == 9 {
            Some(Prim::U8)
        } else if id == 10 {
            Some(Prim::U16)
        } else if id == 11 {
            Some(Prim::U32)
        } else if id == 12 {
            Some(Prim::U64)
        } else if id == 13 {
            Some(Prim::U128)
        } else if id == 14 {
            Some(Prim::Usize)
        } else if id == 15 {
            Some(Prim::Ubig)
        } else if id == 16 {
            Some(Prim::F16)
        } else if id == 17 {
            Some(Prim::F32)
        } else if id == 18 {
            Some(Prim::F64)
        } else if id == 19 {
            Some(Prim::Unit)
        } else if id == 20 {
            Some(Prim::Type)
        } else {
            None
        }
    }

    /// The type of the values of this builtin type.
    pub fn to_type(&self) -> (ty: Type)
        ensures
            ty@ == self.instance(),
    {
        Type::Instance { name: String::from_str(self.name()), id: self.id() }
    }
}

/// The number of identities that the builtin types take up; the definitions
/// that a program makes are numbered from here on.
pub const FIRST_FREE_ID: u64 = 21;

/// Identities are what tells two definitions apart: every builtin type has
/// its own, below [`FIRST_FREE_ID`], and is found again by it.
pub proof fn lemma_prim_identity(p: Prim)
    ensures
        p.ident() < FIRST_FREE_ID,
        Prim::with_ident(p.ident()) == Some(p),
{
}

/// Whether two types are the same type: both `Any`, or both the instances of
/// one definition, or both one definition. Definitions are told apart by
/// their identity, not by what they hold.
pub open spec fn same_type(a: TypeModel, b: TypeModel) -> bool {
    match (a, b) {
        (TypeModel::Any, TypeModel::Any) => true,
        (TypeModel::Instance { id: x, .. }, TypeModel::Instance { id: y, .. }) => x == y,
        (TypeModel::Definition(x), TypeModel::Definition(y)) => x.id == y.id,
        _ => false,
    }
}

/// The name under which a definition is shown.
pub open spec fn definition_text(d: TypeDefinitionModel) -> Seq<char> {
    match d.name {
        Some(name) => name,
        None => match d.inst_name {
            Some(name) => name,
            None => "{unknown}"@,
        },
    }
}

/// The text that stands for a type in a diagnostic.
pub open spec fn type_text(t: TypeModel) -> Seq<char> {
    match t {
        TypeModel::Any => "_any"@,
        TypeModel::Instance { name, .. } => name,
        TypeModel::Definition(d) => definition_text(d),
    }
}

/// The type of a value. A value on its way out of a call has the type of the
/// value it carries; a procedure has type `Any`.
pub open spec fn type_of(v: ValueModel) -> TypeModel
    decreases v,
{
    match v {
        ValueModel::I8(_) => Prim::I8.instance(),
        ValueModel::I32(_) => Prim::I32.instance(),
        ValueModel::U8(_) => Prim::U8.instance(),
        ValueModel::U128(_) => Prim::U128.instance(),
        ValueModel::Ubig(_) => Prim::Ubig.instance(),
        ValueModel::Bool(_) => Prim::Bool.instance(),
        ValueModel::Str(_) => Prim::Str.instance(),
        ValueModel::Unit => Prim::Unit.instance(),
        ValueModel::Type(_) => Prim::Type.instance(),
        ValueModel::Proc(_) => TypeModel::Any,
        ValueModel::Return(inner) => type_of(*inner),
    }
}

/// The text that stands for a value in a diagnostic.
pub open spec fn value_text(v: ValueModel) -> Seq<char>
    decreases v,
{
    match v {
        ValueModel::I8(n) => signed_decimal(n as int),
        ValueModel::I32(n) => signed_decimal(n as int),
        ValueModel::U8(n) => decimal(n as nat),
        ValueModel::U128(n) => decimal(n as nat),
        ValueModel::Ubig(n) => decimal(n),
        ValueModel::Bool(b) => if b {
            "true"@
        } else {
            "false"@
        },
        ValueModel::Str(s) => s,
        ValueModel::Unit => "()"@,
        ValueModel::Type(t) => type_text(t),
        ValueModel::Proc(_) => "{procedure}"@,
        ValueModel::Return(inner) => value_text(*inner),
    }
}

impl Type {
    /// Whether `self` and `other` are the same type.
    pub fn same_as(&self, other: &Type) -> (same: bool)
        ensures
            same == same_type(self@, other@),
    {
        match (self, other) {
            (Type::Any, Type::Any) => true,
            (Type::Instance { id: x, .. }, Type::Instance { id: y, .. }) => *x == *y,
            (Type::Definition(x), Type::Definition(y)) => x.id == y.id,
            _ => false,
        }
    }

    /// The text that stands for the type in a diagnostic.
    pub fn to_text(&self) -> (out: String)
        ensures
            out@ == type_text(self@),
    {
        match self {
            Type::Any => String::from_str("_any"),
            Type::Instance { name, .. } => name.clone(),
            Type::Definition(d) => match &d.name {
                Some(name) => name.clone(),
                None => match &d.inst_name {
                    Some(name) => name.clone(),
                    None => String::from_str("{unknown}"),
                },
            },
        }
    }
}

impl Value {
    /// The type of the value.
    pub fn type_of(&self) -> (ty: Type)
        ensures
            ty@ == type_of(self@),
        decreases self,
    {
        match self {
            Value::I8(_) => Prim::I8.to_type(),
            Value::I32(_) => Prim::I32.to_type(),
            Value::U8(_) => Prim::U8.to_type(),
            Value::U128(_) => Prim::U128.to_type(),
            Value::Ubig(_) => Prim::Ubig.to_type(),
            Value::Bool(_) => Prim::Bool.to_type(),
            Value::Str(_) => Prim::Str.to_type(),
            Value::Unit => Prim::Unit.to_type(),
            Value::Type(_) => Prim::Type.to_type(),
            Value::Proc(_) => Type::Any,
            Value::Return(inner) => inner.type_of(),
        }
    }

    /// The text that stands for the value in a diagnostic.
    pub fn to_text(&self) -> (out: String)
        ensures
            out@ == value_text(self@),
        decreases self,
    {
        match self {
            Value::I8(n) => i128_to_string(*n as i128),
            Value::I32(n) => i128_to_string(*n as i128),
            Value::U8(n) => u128_to_string(*n as u128),
            Value::U128(n) => u128_to_string(*n),
            Value::Ubig(n) => n.to_text(),
            Value::Bool(b) => if *b {
                String::from_str("true")
            } else {
                String::from_str("false")
            },
            Value::Str(s) => s.clone(),
            Value::Unit => String::from_str("()"),
            Value::Type(t) => t.to_text(),
            Value::Proc(_) => String::from_str("{procedure}"),
            Value::Return(inner) => inner.to_text(),
        }
    }
}

} // verus!
