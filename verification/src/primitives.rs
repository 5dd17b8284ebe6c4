//! The builtin types: which operations each implements, and under which
//! reserved names.

use vstd::prelude::*;
use vstd::string::*;
use crate::text::concat3;
use crate::token::OprType;
use crate::ubig::Ubig;
use crate::value::{Prim, Proc, ProcModel, TypeDefinition, TypeDefinitionModel, Value, ValueModel};
use crate::value::{FieldDefinitionModel, TypeModel};

verus! {

/// The entry under which `owner` implements `op`.
pub open spec fn builtin(owner: Prim, op: OprType) -> (Seq<char>, ValueModel) {
    (op.method(), ValueModel::Proc(ProcModel::Builtin { owner, op }))
}

/// The entry that names the value which a variable of the type starts with.
pub open spec fn default_entry(value: ValueModel) -> Seq<(Seq<char>, ValueModel)> {
    seq![("_default"@, value)]
}

pub open spec fn concat_entries(owner: Prim) -> Seq<(Seq<char>, ValueModel)> {
    seq![builtin(owner, OprType::Concat)]
}

pub open spec fn unary_entries(owner: Prim, signed: bool) -> Seq<(Seq<char>, ValueModel)> {
    if signed {
        seq![
            builtin(owner, OprType::UnPlus),
            builtin(owner, OprType::UnMinus),
            builtin(owner, OprType::Not),
        ]
    } else {
        seq![builtin(owner, OprType::UnPlus), builtin(owner, OprType::Not)]
    }
}

pub open spec fn arith_entries(owner: Prim) -> Seq<(Seq<char>, ValueModel)> {
    seq![
        builtin(owner, OprType::Add),
        builtin(owner, OprType::Sub),
        builtin(owner, OprType::Mul),
        builtin(owner, OprType::Div),
        builtin(owner, OprType::Mod),
    ]
}

pub open spec fn comp_entries(owner: Prim) -> Seq<(Seq<char>, ValueModel)> {
    seq![
        builtin(owner, OprType::Eq),
        builtin(owner, OprType::Ne),
        builtin(owner, OprType::Gt),
        builtin(owner, OprType::Ge),
        builtin(owner, OprType::Lt),
        builtin(owner, OprType::Le),
    ]
}

pub open spec fn typecast_entries(owner: Prim) -> Seq<(Seq<char>, ValueModel)> {
    seq![builtin(owner, OprType::TypeCast)]
}

/// What a signed integer type implements.
pub open spec fn signed_entries(owner: Prim, zero: ValueModel) -> Seq<(Seq<char>, ValueModel)> {
    default_entry(zero) + concat_entries(owner) + unary_entries(owner, true) + arith_entries(owner)
        + comp_entries(owner) + typecast_entries(owner)
}

/// What an unsigned integer type implements.
pub open spec fn unsigned_entries(owner: Prim, zero: ValueModel) -> Seq<(Seq<char>, ValueModel)> {
    default_entry(zero) + concat_entries(owner) + unary_entries(owner, false) + arith_entries(
        owner,
    ) + comp_entries(owner) + typecast_entries(owner)
}

/// The methods of a builtin type, by name, in the order in which the type
/// lists them. A builtin type without values in this crate has none.
pub open spec fn implementations(p: Prim) -> Seq<(Seq<char>, ValueModel)> {
    match p {
        Prim::I8 => signed_entries(p, ValueModel::I8(0)),
        Prim::I32 => signed_entries(p, ValueModel::I32(0)),
        Prim::U8 => unsigned_entries(p, ValueModel::U8(0)),
        Prim::U128 => unsigned_entries(p, ValueModel::U128(0)),
        Prim::Ubig => unsigned_entries(p, ValueModel::Ubig(0)),
        Prim::Bool => default_entry(ValueModel::Bool(false)) + concat_entries(p) + comp_entries(p)
            + typecast_entries(p),
        Prim::Unit => concat_entries(p) + comp_entries(p) + typecast_entries(p),
        _ => Seq::empty(),
    }
}

/// The definition of a builtin type.
pub open spec fn definition(p: Prim) -> TypeDefinitionModel {
    TypeDefinitionModel {
        id: p.ident(),
        name: Some("{builtin "@ + p.name_text() + "}"@),
        inst_name: Some(p.name_text()),
        generics: Seq::<TypeModel>::empty(),
        implementations: implementations(p),
        inst_fields: Seq::<FieldDefinitionModel>::empty(),
    }
}

/// The value of the first entry named `name`, if there is one.
pub open spec fn find_named<V>(entries: Seq<(Seq<char>, V)>, name: Seq<char>) -> Option<V>
    decreases entries.len(),
{
    if entries.len() == 0 {
        None
    } else if entries[0].0 == name {
        Some(entries[0].1)
    } else {
        find_named(entries.drop_first(), name)
    }
}

/// The value of the first entry of `entries` named `name`, if there is one.
pub fn find_value<'a>(entries: &'a Vec<(String, Value)>, name: &String) -> (found: Option<&'a Value>)
    ensures
        match found {
            Some(v) => find_named(Value::named_model(*entries), name@) == Some(v@),
            None => find_named(Value::named_model(*entries), name@) is None,
        },
{
    let ghost all = Value::named_model(*entries);
    let mut i: usize = 0;
    assert(all.subrange(0, all.len() as int) =~= all);
    while i < entries.len()
        invariant
            i <= entries.len(),
            all == Value::named_model(*entries),
            find_named(all, name@) == find_named(all.subrange(i as int, all.len() as int), name@),
        decreases entries.len() - i,
    {
        let ghost rest = all.subrange(i as int, all.len() as int);
        proof {
            assert(rest[0] == all[i as int]);
            assert(rest.drop_first() =~= all.subrange(i + 1, all.len() as int));
        }
        if entries[i].0 == *name {
            return Some(&entries[i].1);
        }
        i += 1;
    }
    proof {
        assert(all.subrange(i as int, all.len() as int).len() == 0);
    }
    None
}

fn push_entry(h: &mut Vec<(String, Value)>, name: &str, value: Value)
    ensures
        Value::named_model(*final(h)) == Value::named_model(*old(h)).push((name@, value@)),
{
    h.push((String::from_str(name), value));
    assert(Value::named_model(*h) =~= Value::named_model(*old(h)).push((name@, value@)));
}

fn push_builtin(h: &mut Vec<(String, Value)>, owner: Prim, op: OprType)
    ensures
        Value::named_model(*final(h)) == Value::named_model(*old(h)).push(builtin(owner, op)),
{
    let proc = Proc::Builtin { owner, op };
    assert(proc.model() == ProcModel::Builtin { owner, op });
    let value = Value::Proc(proc);
    assert(value.model() == ValueModel::Proc(ProcModel::Builtin { owner, op }));
    push_entry(h, op.method_name(), value);
}

/// Adds the concatenation of two values as text.
pub fn concat_vals(h: &mut Vec<(String, Value)>, owner: Prim)
    ensures
        Value::named_model(*final(h)) == Value::named_model(*old(h)) + concat_entries(owner),
{
    push_builtin(h, owner, OprType::Concat);
    assert(Value::named_model(*h) =~= Value::named_model(*old(h)) + concat_entries(owner));
}

/// Adds the operators that stand before one operand.
pub fn unary(h: &mut Vec<(String, Value)>, owner: Prim, signed: bool)
    ensures
        Value::named_model(*final(h)) == Value::named_model(*old(h)) + unary_entries(owner, signed),
{
    push_builtin(h, owner, OprType::UnPlus);
    if signed {
        push_builtin(h, owner, OprType::UnMinus);
    }
    push_builtin(h, owner, OprType::Not);
    assert(Value::named_model(*h) =~= Value::named_model(*old(h)) + unary_entries(owner, signed));
}

/// Adds the arithmetic operators.
pub fn arith_opr_num(h: &mut Vec<(String, Value)>, owner: Prim)
    ensures
        Value::named_model(*final(h)) == Value::named_model(*old(h)) + arith_entries(owner),
{
    push_builtin(h, owner, OprType::Add);
    push_builtin(h, owner, OprType::Sub);
    push_builtin(h, owner, OprType::Mul);
    push_builtin(h, owner, OprType::Div);
    push_builtin(h, owner, OprType::Mod);
    assert(Value::named_model(*h) =~= Value::named_model(*old(h)) + arith_entries(owner));
}

/// Adds the comparisons.
pub fn comp_opr_num(h: &mut Vec<(String, Value)>, owner: Prim)
    ensures
        Value::named_model(*final(h)) == Value::named_model(*old(h)) + comp_entries(owner),
{
    push_builtin(h, owner, OprType::Eq);
    push_builtin(h, owner, OprType::Ne);
    push_builtin(h, owner, OprType::Gt);
    push_builtin(h, owner, OprType::Ge);
    push_builtin(h, owner, OprType::Lt);
    push_builtin(h, owner, OprType::Le);
    assert(Value::named_model(*h) =~= Value::named_model(*old(h)) + comp_entries(owner));
}

/// Adds the conversion to other types.
pub fn typecast(h: &mut Vec<(String, Value)>, owner: Prim)
    ensures
        Value::named_model(*final(h)) == Value::named_model(*old(h)) + typecast_entries(owner),
{
    push_builtin(h, owner, OprType::TypeCast);
    assert(Value::named_model(*h) =~= Value::named_model(*old(h)) + typecast_entries(owner));
}

fn integer(owner: Prim, zero: Value, signed: bool) -> (h: Vec<(String, Value)>)
    ensures
        signed ==> Value::named_model(h) == signed_entries(owner, zero@),
        !signed ==> Value::named_model(h) == unsigned_entries(owner, zero@),
{
    let mut h: Vec<(String, Value)> = Vec::new();
    assert(Value::named_model(h) =~= Seq::empty());
    push_entry(&mut h, "_default", zero);
    assert(Value::named_model(h) =~= default_entry(zero@));
    concat_vals(&mut h, owner);
    unary(&mut h, owner, signed);
    arith_opr_num(&mut h, owner);
    comp_opr_num(&mut h, owner);
    typecast(&mut h, owner);
    h
}

/// The methods of `i8`.
pub fn i8_t() -> (h: Vec<(String, Value)>)
    ensures
        Value::named_model(h) == implementations(Prim::I8),
{
    integer(Prim::I8, Value::I8(0), true)
}

/// The methods of `i32`.
pub fn i32_t() -> (h: Vec<(String, Value)>)
    ensures
        Value::named_model(h) == implementations(Prim::I32),
{
    integer(Prim::I32, Value::I32(0), true)
}

/// The methods of `u8`.
pub fn u8_t() -> (h: Vec<(String, Value)>)
    ensures
        Value::named_model(h) == implementations(Prim::U8),
{
    integer(Prim::U8, Value::U8(0), false)
}

/// The methods of `u128`.
pub fn u128_t() -> (h: Vec<(String, Value)>)
    ensures
        Value::named_model(h) == implementations(Prim::U128),
{
    integer(Prim::U128, Value::U128(0), false)
}

/// The methods of `ubig`.
pub fn ubig_t() -> (h: Vec<(String, Value)>)
    ensures
        Value::named_model(h) == implementations(Prim::Ubig),
{
    integer(Prim::Ubig, Value::Ubig(Ubig::from_u128(0)), false)
}

/// The methods of `bool`.
pub fn bool_t() -> (h: Vec<(String, Value)>)
    ensures
        Value::named_model(h) == implementations(Prim::Bool),
{
    let mut h: Vec<(String, Value)> = Vec::new();
    assert(Value::named_model(h) =~= Seq::empty());
    push_entry(&mut h, "_default", Value::Bool(false));
    assert(Value::named_model(h) =~= default_entry(ValueModel::Bool(false)));
    concat_vals(&mut h, Prim::Bool);
    comp_opr_num(&mut h, Prim::Bool);
    typecast(&mut h, Prim::Bool);
    h
}

/// The methods of the unit type.
pub fn unit_t() -> (h: Vec<(String, Value)>)
    ensures
        Value::named_model(h) == implementations(Prim::Unit),
{
    let mut h: Vec<(String, Value)> = Vec::new();
    assert(Value::named_model(h) =~= Seq::empty());
    concat_vals(&mut h, Prim::Unit);
    assert(Value::named_model(h) =~= concat_entries(Prim::Unit));
    comp_opr_num(&mut h, Prim::Unit);
    typecast(&mut h, Prim::Unit);
    h
}

impl Prim {
    /// The methods of the type, by name.
    pub fn methods(&self) -> (h: Vec<(String, Value)>)
        ensures
            Value::named_model(h) == implementations(*self),
    {
        match self {
            Prim::I8 => i8_t(),
            Prim::I32 => i32_t(),
            Prim::U8 => u8_t(),
            Prim::U128 => u128_t(),
            Prim::Ubig => ubig_t(),
            Prim::Bool => bool_t(),
            Prim::Unit => unit_t(),
            _ => {
                let h: Vec<(String, Value)> = Vec::new();
                assert(Value::named_model(h) =~= Seq::empty());
                h
            },
        }
    }

    /// The definition of the type.
    pub fn to_definition(&self) -> (d: TypeDefinition)
        ensures
            d@ == definition(*self),
    {
        let d = TypeDefinition {
            id: self.id(),
            name: Some(concat3("{builtin ", self.name(), "}")),
            inst_name: Some(String::from_str(self.name())),
            generics: Vec::new(),
            implementations: self.methods(),
            inst_fields: Vec::new(),
        };
        assert(d@.generics =~= Seq::<TypeModel>::empty());
        assert(d@.inst_fields =~= Seq::<FieldDefinitionModel>::empty());
        d
    }
}

} // verus!
