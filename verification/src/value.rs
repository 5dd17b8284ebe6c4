//! Run-time values and types.

use vstd::prelude::*;
use crate::ast::{Argument, ArgumentModel, Block, BlockModel};
use crate::token::OprType;
use crate::ubig::Ubig;

verus! {

/// The builtin types, in the order in which a new table names them.
#[derive(Clone, Copy, Debug, PartialEq, Eq, Structural)]
pub enum Prim {
    Str,
    Bool,
    I8,
    I16,
    I32,
    I64,
    I128,
    Isize,
    Ibig,
    U8,
    U16,
    U32,
    U64,
    U128,
    Usize,
    Ubig,
    F16,
    F32,
    F64,
    Unit,
    Type,
}

/// A value of the language.
#[derive(Debug, PartialEq)]
pub enum Value {
    I8(i8),
    I32(i32),
    U8(u8),
    U128(u128),
    /// A natural number of any size.
    Ubig(Ubig),
    Bool(bool),
    Str(String),
    /// The value of a statement without a result.
    Unit,
    /// A type, as a value.
    Type(Type),
    /// A procedure, as a value.
    Proc(Proc),
    /// A value on its way out of the enclosing procedure call.
    Return(Box<Value>),
}

/// What a [`Value`] holds, as plain mathematical values.
pub enum ValueModel {
    I8(i8),
    I32(i32),
    U8(u8),
    U128(u128),
    Ubig(nat),
    Bool(bool),
    Str(Seq<char>),
    Unit,
    Type(TypeModel),
    Proc(ProcModel),
    Return(Box<ValueModel>),
}

impl Value {
    /// What the value holds, as plain mathematical values.
    pub open spec fn model(&self) -> ValueModel
        decreases self,
    {
        match self {
            Value::I8(x) => ValueModel::I8(*x),
            Value::I32(x) => ValueModel::I32(*x),
            Value::U8(x) => ValueModel::U8(*x),
            Value::U128(x) => ValueModel::U128(*x),
            Value::Ubig(x) => ValueModel::Ubig(x@),
            Value::Bool(x) => ValueModel::Bool(*x),
            Value::Str(x) => ValueModel::Str(x@),
            Value::Unit => ValueModel::Unit,
            Value::Type(x) => ValueModel::Type(x.model()),
            Value::Proc(x) => ValueModel::Proc(x.model()),
            Value::Return(x) => ValueModel::Return(Box::new(x.model())),
        }
    }
}

impl View for Value {
    type V = ValueModel;

    open spec fn view(&self) -> ValueModel {
        self.model()
    }
}

impl Clone for Value {
    fn clone(&self) -> (out: Self)
        ensures
            out@ == self@,
        decreases self,
    {
        match self {
            Value::I8(x) => Value::I8(*x),
            Value::I32(x) => Value::I32(*x),
            Value::U8(x) => Value::U8(*x),
            Value::U128(x) => Value::U128(*x),
            Value::Ubig(x) => Value::Ubig(x.clone()),
            Value::Bool(x) => Value::Bool(*x),
            Value::Str(x) => Value::Str(x.clone()),
            Value::Unit => Value::Unit,
            Value::Type(x) => Value::Type(x.clone()),
            Value::Proc(x) => Value::Proc(x.clone()),
            Value::Return(x) => Value::Return(Box::new((**x).clone())),
        }
    }
}

impl Value {
    /// The models of the items of `v`, in order.
    pub open spec fn seq_model(v: Vec<Value>) -> Seq<ValueModel>
        decreases v,
    {
        Seq::new(
            v.len() as nat,
            |i: int|
                if 0 <= i < v.len() {
                    v[i].model()
                } else {
                    arbitrary()
                },
        )
    }

    /// A copy of each item of `v`, in order.
    pub fn clone_seq(v: &Vec<Value>) -> (out: Vec<Value>)
        ensures
            Value::seq_model(out) == Value::seq_model(*v),
        decreases v,
    {
        let mut out: Vec<Value> = Vec::new();
        let mut i: usize = 0;
        while i < v.len()
            invariant
                i <= v.len(),
                out.len() == i,
                forall|k: int| 0 <= k < i ==> out[k].model() == v[k].model(),
            decreases v.len() - i,
        {
            out.push(v[i].clone());
            i += 1;
        }
        assert(Value::seq_model(out) =~= Value::seq_model(*v));
        out
    }

    /// The models of the named items of `v`, in order.
    pub open spec fn named_model(v: Vec<(String, Value)>) -> Seq<(Seq<char>, ValueModel)>
        decreases v,
    {
        Seq::new(
            v.len() as nat,
            |i: int|
                if 0 <= i < v.len() {
                    (v[i].0@, v[i].1.model())
                } else {
                    arbitrary()
                },
        )
    }

    /// A copy of each named item of `v`, in order.
    pub fn clone_named(v: &Vec<(String, Value)>) -> (out: Vec<(String, Value)>)
        ensures
            Value::named_model(out) == Value::named_model(*v),
        decreases v,
    {
        let mut out: Vec<(String, Value)> = Vec::new();
        let mut i: usize = 0;
        while i < v.len()
            invariant
                i <= v.len(),
                out.len() == i,
                forall|k: int|
                    0 <= k < i ==> out[k].0@ == v[k].0@ && out[k].1.model() == v[k].1.model(),
            decreases v.len() - i,
        {
            out.push((v[i].0.clone(), v[i].1.clone()));
            i += 1;
        }
        assert(Value::named_model(out) =~= Value::named_model(*v));
        out
    }

}

/// A type of the language.
#[derive(Debug, PartialEq)]
pub enum Type {
    /// The type of every value.
    Any,
    /// The type of the instances of the definition with identity `id`.
    Instance {
        name: String,
        id: u64,
    },
    /// A definition itself: a class, a struct or a builtin type.
    Definition(TypeDefinition),
}

/// What a [`Type`] holds, as plain mathematical values.
pub enum TypeModel {
    Any,
    Instance {
        name: Seq<char>,
        id: u64,
    },
    Definition(TypeDefinitionModel),
}

impl Type {
    /// What the value holds, as plain mathematical values.
    pub open spec fn model(&self) -> TypeModel
        decreases self,
    {
        match self {
            Type::Any => TypeModel::Any,
            Type::Instance { name, id } => TypeModel::Instance {
                name: name@,
                id: *id,
            },
            Type::Definition(x) => TypeModel::Definition(x.model()),
        }
    }
}

impl View for Type {
    type V = TypeModel;

    open spec fn view(&self) -> TypeModel {
        self.model()
    }
}

impl Clone for Type {
    fn clone(&self) -> (out: Self)
        ensures
            out@ == self@,
        decreases self,
    {
        match self {
            Type::Any => Type::Any,
            Type::Instance { name, id } => Type::Instance {
                name: name.clone(),
                id: *id,
            },
            Type::Definition(x) => Type::Definition(x.clone()),
        }
    }
}

impl Type {
    /// The models of the items of `v`, in order.
    pub open spec fn seq_model(v: Vec<Type>) -> Seq<TypeModel>
        decreases v,
    {
        Seq::new(
            v.len() as nat,
            |i: int|
                if 0 <= i < v.len() {
                    v[i].model()
                } else {
                    arbitrary()
                },
        )
    }

    /// A copy of each item of `v`, in order.
    pub fn clone_seq(v: &Vec<Type>) -> (out: Vec<Type>)
        ensures
            Type::seq_model(out) == Type::seq_model(*v),
        decreases v,
    {
        let mut out: Vec<Type> = Vec::new();
        let mut i: usize = 0;
        while i < v.len()
            invariant
                i <= v.len(),
                out.len() == i,
                forall|k: int| 0 <= k < i ==> out[k].model() == v[k].model(),
            decreases v.len() - i,
        {
            out.push(v[i].clone());
            i += 1;
        }
        assert(Type::seq_model(out) =~= Type::seq_model(*v));
        out
    }

}

/// A field of the instances of a definition: its name, type and default value.
#[derive(Debug, PartialEq)]
pub struct FieldDefinition {
    pub name: String,
    pub ty: Type,
    pub default: Option<Value>,
}

/// What a [`FieldDefinition`] holds, as plain mathematical values.
pub struct FieldDefinitionModel {
    pub name: Seq<char>,
    pub ty: TypeModel,
    pub default: Option<ValueModel>,
}

impl FieldDefinition {
    /// What the value holds, as plain mathematical values.
    pub open spec fn model(&self) -> FieldDefinitionModel
        decreases self,
    {
        FieldDefinitionModel {
            name: self.name@,
            ty: self.ty.model(),
            default: match self.default { Some(x) => Some(x.model()), None => None },
        }
    }
}

impl View for FieldDefinition {
    type V = FieldDefinitionModel;

    open spec fn view(&self) -> FieldDefinitionModel {
        self.model()
    }
}

impl Clone for FieldDefinition {
    fn clone(&self) -> (out: Self)
        ensures
            out@ == self@,
        decreases self,
    {
        FieldDefinition {
            name: self.name.clone(),
            ty: self.ty.clone(),
            default: match &self.default { Some(x) => Some(x.clone()), None => None },
        }
    }
}

impl FieldDefinition {
    /// The models of the items of `v`, in order.
    pub open spec fn seq_model(v: Vec<FieldDefinition>) -> Seq<FieldDefinitionModel>
        decreases v,
    {
        Seq::new(
            v.len() as nat,
            |i: int|
                if 0 <= i < v.len() {
                    v[i].model()
                } else {
                    arbitrary()
                },
        )
    }

    /// A copy of each item of `v`, in order.
    pub fn clone_seq(v: &Vec<FieldDefinition>) -> (out: Vec<FieldDefinition>)
        ensures
            FieldDefinition::seq_model(out) == FieldDefinition::seq_model(*v),
        decreases v,
    {
        let mut out: Vec<FieldDefinition> = Vec::new();
        let mut i: usize = 0;
        while i < v.len()
            invariant
                i <= v.len(),
                out.len() == i,
                forall|k: int| 0 <= k < i ==> out[k].model() == v[k].model(),
            decreases v.len() - i,
        {
            out.push(v[i].clone());
            i += 1;
        }
        assert(FieldDefinition::seq_model(out) =~= FieldDefinition::seq_model(*v));
        out
    }

}

/// A named type: its identity, its methods by name and the fields of its instances.
#[derive(Debug, PartialEq)]
pub struct TypeDefinition {
    pub id: u64,
    pub name: Option<String>,
    pub inst_name: Option<String>,
    pub generics: Vec<Type>,
    pub implementations: Vec<(String, Value)>,
    pub inst_fields: Vec<FieldDefinition>,
}

/// What a [`TypeDefinition`] holds, as plain mathematical values.
pub struct TypeDefinitionModel {
    pub id: u64,
    pub name: Option<Seq<char>>,
    pub inst_name: Option<Seq<char>>,
    pub generics: Seq<TypeModel>,
    pub implementations: Seq<(Seq<char>, ValueModel)>,
    pub inst_fields: Seq<FieldDefinitionModel>,
}

impl TypeDefinition {
    /// What the value holds, as plain mathematical values.
    pub open spec fn model(&self) -> TypeDefinitionModel
        decreases self,
    {
        TypeDefinitionModel {
            id: self.id,
            name: match self.name { Some(s) => Some(s@), None => None },
            inst_name: match self.inst_name { Some(s) => Some(s@), None => None },
            generics: Type::seq_model(self.generics),
            implementations: Value::named_model(self.implementations),
            inst_fields: FieldDefinition::seq_model(self.inst_fields),
        }
    }
}

impl View for TypeDefinition {
    type V = TypeDefinitionModel;

    open spec fn view(&self) -> TypeDefinitionModel {
        self.model()
    }
}

impl Clone for TypeDefinition {
    fn clone(&self) -> (out: Self)
        ensures
            out@ == self@,
        decreases self,
    {
        TypeDefinition {
            id: self.id,
            name: match &self.name { Some(s) => Some(s.clone()), None => None },
            inst_name: match &self.inst_name { Some(s) => Some(s.clone()), None => None },
            generics: Type::clone_seq(&self.generics),
            implementations: Value::clone_named(&self.implementations),
            inst_fields: FieldDefinition::clone_seq(&self.inst_fields),
        }
    }
}

/// A procedure value.
#[derive(Debug, PartialEq)]
pub enum Proc {
    /// An operation of a builtin type.
    Builtin {
        owner: Prim,
        op: OprType,
    },
    /// A procedure written in the language.
    Defined {
        is_fn: bool,
        args: Vec<Argument>,
        return_type: Type,
        content: Block,
    },
}

/// What a [`Proc`] holds, as plain mathematical values.
pub enum ProcModel {
    Builtin {
        owner: Prim,
        op: OprType,
    },
    Defined {
        is_fn: bool,
        args: Seq<ArgumentModel>,
        return_type: TypeModel,
        content: BlockModel,
    },
}

impl Proc {
    /// What the value holds, as plain mathematical values.
    pub open spec fn model(&self) -> ProcModel
        decreases self,
    {
        match self {
            Proc::Builtin { owner, op } => ProcModel::Builtin {
                owner: *owner,
                op: *op,
            },
            Proc::Defined { is_fn, args, return_type, content } => ProcModel::Defined {
                is_fn: *is_fn,
                args: Argument::seq_model(*args),
                return_type: return_type.model(),
                content: content.model(),
            },
        }
    }
}

impl View for Proc {
    type V = ProcModel;

    open spec fn view(&self) -> ProcModel {
        self.model()
    }
}

impl Clone for Proc {
    fn clone(&self) -> (out: Self)
        ensures
            out@ == self@,
        decreases self,
    {
        match self {
            Proc::Builtin { owner, op } => Proc::Builtin {
                owner: *owner,
                op: *op,
            },
            Proc::Defined { is_fn, args, return_type, content } => Proc::Defined {
                is_fn: *is_fn,
                args: Argument::clone_seq(args),
                return_type: return_type.clone(),
                content: content.clone(),
            },
        }
    }
}

} // verus!
