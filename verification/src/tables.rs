//! The two tables of a program: one of values, for the interpreter, and one
//! of types, for the type checker. Both start with the names of the builtin
//! types in their scope of constants, and with an empty global scope.

use std::collections::VecDeque;
use vstd::prelude::*;
use vstd::string::*;
use crate::describe::{FIRST_FREE_ID, type_of, type_text, value_text};
use crate::interpreter_data::{
    DEPTH_LIMIT, Frame, FrameModel, FrameType, InterpreterData, TableModel,
};
use crate::primitives::definition;
use crate::value::{Prim, Type, TypeDefinition, TypeDefinitionModel, TypeModel, Value, ValueModel};

verus! {

/// The builtin types, in the order in which a new table names them.
pub open spec fn all_prims() -> Seq<Prim> {
    seq![
        Prim::Str,
        Prim::Bool,
        Prim::I8,
        Prim::I16,
        Prim::I32,
        Prim::I64,
        Prim::I128,
        Prim::Isize,
        Prim::Ibig,
        Prim::U8,
        Prim::U16,
        Prim::U32,
        Prim::U64,
        Prim::U128,
        Prim::Usize,
        Prim::Ubig,
        Prim::F16,
        Prim::F32,
        Prim::F64,
        Prim::Unit,
        Prim::Type,
    ]
}

/// The builtin types, in the order in which a new table names them.
pub fn prim_list() -> (out: Vec<Prim>)
    ensures
        out@ == all_prims(),
{
    let mut out: Vec<Prim> = Vec::new();
    out.push(Prim::Str);
    out.push(Prim::Bool);
    out.push(Prim::I8);
    out.push(Prim::I16);
    out.push(Prim::I32);
    out.push(Prim::I64);
    out.push(Prim::I128);
    out.push(Prim::Isize);
    out.push(Prim::Ibig);
    out.push(Prim::U8);
    out.push(Prim::U16);
    out.push(Prim::U32);
    out.push(Prim::U64);
    out.push(Prim::U128);
    out.push(Prim::Usize);
    out.push(Prim::Ubig);
    out.push(Prim::F16);
    out.push(Prim::F32);
    out.push(Prim::F64);
    out.push(Prim::Unit);
    out.push(Prim::Type);
    assert(out@ =~= all_prims());
    out
}

/// The first `n` builtin types by name, each as a type value.
pub open spec fn seeded_values(prims: Seq<Prim>, n: nat) -> Map<Seq<char>, ValueModel>
    decreases n,
{
    if n == 0 || n > prims.len() {
        Map::empty()
    } else {
        seeded_values(prims, (n - 1) as nat).insert(
            prims[n - 1].name_text(),
            ValueModel::Type(prims[n - 1].instance()),
        )
    }
}

/// The first `n` builtin types by name, each as its definition.
pub open spec fn seeded_types(prims: Seq<Prim>, n: nat) -> Map<Seq<char>, TypeModel>
    decreases n,
{
    if n == 0 || n > prims.len() {
        Map::empty()
    } else {
        seeded_types(prims, (n - 1) as nat).insert(
            prims[n - 1].name_text(),
            TypeModel::Definition(definition(prims[n - 1])),
        )
    }
}

/// The first `n` builtin types by name, each as the type of its values.
pub open spec fn seeded_typedefs(prims: Seq<Prim>, n: nat) -> Map<Seq<char>, TypeModel>
    decreases n,
{
    if n == 0 || n > prims.len() {
        Map::empty()
    } else {
        seeded_typedefs(prims, (n - 1) as nat).insert(
            prims[n - 1].name_text(),
            prims[n - 1].instance(),
        )
    }
}

/// The names that a program's values start with: every builtin type as a
/// type value, and `_any`.
pub open spec fn value_constants() -> Map<Seq<char>, ValueModel> {
    seeded_values(all_prims(), all_prims().len()).insert(
        "_any"@,
        ValueModel::Type(TypeModel::Any),
    )
}

/// The table that the interpreter starts with.
pub open spec fn new_value_table() -> TableModel<ValueModel> {
    TableModel {
        frames: seq![
            FrameModel::empty(None, FrameType::Normal),
            FrameModel {
                heap: value_constants(),
                ..FrameModel::empty(None, FrameType::Constants)
            },
        ],
        next_id: FIRST_FREE_ID,
    }
}

/// The table that the type checker starts with: every builtin name has its
/// definition as its type, and names the type of its values.
pub open spec fn new_type_table() -> TableModel<TypeModel> {
    TableModel {
        frames: seq![
            FrameModel::empty(None, FrameType::Normal),
            FrameModel {
                heap: seeded_types(all_prims(), all_prims().len()).insert("_any"@, TypeModel::Any),
                typedefs: seeded_typedefs(all_prims(), all_prims().len()).insert(
                    "_any"@,
                    TypeModel::Any,
                ),
                ..FrameModel::empty(None, FrameType::Constants)
            },
        ],
        next_id: FIRST_FREE_ID,
    }
}

/// The type of the instances of a definition.
pub open spec fn instance_of(d: TypeDefinitionModel) -> TypeModel {
    TypeModel::Instance {
        name: match d.inst_name {
            Some(name) => name,
            None => match d.name {
                Some(name) => name,
                None => Seq::empty(),
            },
        },
        id: d.id,
    }
}

impl TypeDefinition {
    /// The type of the instances of the definition.
    pub fn get_instance(&self) -> (out: Type)
        ensures
            out@ == instance_of(self@),
    {
        let name = match &self.inst_name {
            Some(name) => name.clone(),
            None => match &self.name {
                Some(name) => name.clone(),
                None => String::new(),
            },
        };
        Type::Instance { name, id: self.id }
    }
}

impl TableModel<TypeModel> {
    /// The table after `name` was declared with type `ty` in the innermost
    /// scope. A name declared as a definition also names the type of the
    /// definition's instances.
    pub open spec fn declared_type(self, name: Seq<char>, ty: TypeModel) -> Self {
        let frame = self.frames[0].with_value(name, ty);
        self.with_frame(
            0,
            match ty {
                TypeModel::Definition(d) => frame.with_typedef(name, instance_of(d)),
                _ => frame,
            },
        )
    }
}

/// The first `n` of `lines`, with `separator` between them.
pub open spec fn joined(lines: Seq<Seq<char>>, separator: Seq<char>, n: nat) -> Seq<char>
    decreases n,
{
    if n == 0 || n > lines.len() {
        Seq::empty()
    } else if n == 1 {
        lines[0]
    } else {
        joined(lines, separator, (n - 1) as nat) + separator + lines[n - 1]
    }
}

/// One name of a scope: the name, the type of its value, and the value.
pub open spec fn entry_line(entry: (Seq<char>, ValueModel)) -> Seq<char> {
    entry.0 + ": "@ + type_text(type_of(entry.1)) + " = "@ + value_text(entry.1)
}

/// The names of one scope, one on each line, in the order of their entries.
pub open spec fn heap_text(entries: Seq<(Seq<char>, ValueModel)>) -> Seq<char> {
    joined(Seq::new(entries.len(), |i: int| entry_line(entries[i])), "\n"@, entries.len())
}

impl InterpreterData<Value> {
    /// The table that the interpreter starts with.
    pub fn new() -> (out: Self)
        ensures
            out@ == new_value_table(),
            out@.wf(),
            out.depth_left == DEPTH_LIMIT,
    {
        let mut constants: Frame<Value> = Frame::new(None, FrameType::Constants);
        let prims = prim_list();
        let mut i: usize = 0;
        while i < prims.len()
            invariant
                i <= prims.len(),
                prims@ == all_prims(),
                constants@ == (FrameModel {
                    heap: seeded_values(all_prims(), i as nat),
                    ..FrameModel::<ValueModel>::empty(None, FrameType::Constants)
                }),
            decreases prims.len() - i,
        {
            let p = prims[i];
            let ty = p.to_type();
            let value = Value::Type(ty);
            assert(value@ == ValueModel::Type(p.instance()));
            constants.heap.insert(String::from_str(p.name()), value);
            i += 1;
        }
        let any_type = Type::Any;
        assert(any_type@ == TypeModel::Any);
        let any = Value::Type(any_type);
        assert(any@ == ValueModel::Type(TypeModel::Any));
        constants.heap.insert(String::from_str("_any"), any);
        let global: Frame<Value> = Frame::new(None, FrameType::Normal);
        let mut frames: VecDeque<Frame<Value>> = VecDeque::new();
        frames.push_front(constants);
        frames.push_front(global);
        let out = InterpreterData { frames, next_type_id: FIRST_FREE_ID, depth_left: DEPTH_LIMIT };
        assert(out@.frames =~= new_value_table().frames);
        out
    }

    /// Binds `name` to a copy of `value` in the innermost scope. An outer
    /// scope that binds the name is hidden by this, not changed. A table
    /// without scopes gets a scope first.
    pub fn declare_val(&mut self, name: &String, value: &Value)
        ensures
            old(self)@.frames.len() > 0 ==> final(self)@ == old(self)@.declared(name@, value@),
            old(self)@.frames.len() == 0 ==> final(self)@ == old(self)@.pushed(
                None,
                FrameType::Normal,
            ).declared(name@, value@),
            final(self).depth_left == old(self).depth_left,
            old(self)@.wf() ==> final(self)@.wf(),
    {
        if self.frames.len() == 0 {
            let ghost before = self@;
            self.frames.push_front(Frame::new(None, FrameType::Normal));
            assert(self@.frames =~= before.pushed(None, FrameType::Normal).frames);
        }
        self.declare(name, value.clone());
    }

    /// The names of every scope with their types and values, innermost
    /// scope first, with a line of dashes between two scopes.
    pub fn heap_to_string(&self) -> (out: String)
        ensures
            out@ == joined(
                Seq::new(self.frames@.len(), |i: int| heap_text(self.frames@[i].heap.entries())),
                "\n-------\n"@,
                self.frames@.len(),
            ),
    {
        let ghost texts = Seq::new(
            self.frames@.len(),
            |i: int| heap_text(self.frames@[i].heap.entries()),
        );
        let mut out = String::new();
        let mut i: usize = 0;
        while i < self.frames.len()
            invariant
                i <= self.frames@.len(),
                texts == Seq::new(
                    self.frames@.len(),
                    |i: int| heap_text(self.frames@[i].heap.entries()),
                ),
                out@ == joined(texts, "\n-------\n"@, i as nat),
            decreases self.frames.len() - i,
        {
            if i > 0 {
                out.append("\n-------\n");
            }
            let heap = &self.frames[i].heap;
            let ghost entries = heap.entries();
            let ghost lines = Seq::new(entries.len(), |k: int| entry_line(entries[k]));
            let mut text = String::new();
            let mut k: usize = 0;
            while k < heap.len()
                invariant
                    k <= heap.entries().len(),
                    entries == heap.entries(),
                    lines == Seq::new(entries.len(), |k: int| entry_line(entries[k])),
                    text@ == joined(lines, "\n"@, k as nat),
                decreases entries.len() - k,
            {
                if k > 0 {
                    text.append("\n");
                }
                let value = heap.value_at(k);
                text.append(heap.name_at(k).as_str());
                text.append(": ");
                text.append(value.type_of().to_text().as_str());
                text.append(" = ");
                text.append(value.to_text().as_str());
                assert(text@ =~= joined(lines, "\n"@, (k + 1) as nat));
                k += 1;
            }
            assert(text@ == texts[i as int]);
            out.append(text.as_str());
            assert(out@ =~= joined(texts, "\n-------\n"@, (i + 1) as nat));
            i += 1;
        }
        out
    }
}

impl InterpreterData<Type> {
    /// The table that the type checker starts with.
    pub fn new() -> (out: Self)
        ensures
            out@ == new_type_table(),
            out@.wf(),
            out.depth_left == DEPTH_LIMIT,
    {
        let mut constants: Frame<Type> = Frame::new(None, FrameType::Constants);
        let prims = prim_list();
        let mut i: usize = 0;
        while i < prims.len()
            invariant
                i <= prims.len(),
                prims@ == all_prims(),
                constants@ == (FrameModel {
                    heap: seeded_types(all_prims(), i as nat),
                    typedefs: seeded_typedefs(all_prims(), i as nat),
                    ..FrameModel::<TypeModel>::empty(None, FrameType::Constants)
                }),
            decreases prims.len() - i,
        {
            let p = prims[i];
            let ty = Type::Definition(p.to_definition());
            assert(ty@ == TypeModel::Definition(definition(p)));
            constants.heap.insert(String::from_str(p.name()), ty);
            constants.typedefs.insert(String::from_str(p.name()), p.to_type());
            i += 1;
        }
        constants.heap.insert(String::from_str("_any"), Type::Any);
        constants.typedefs.insert(String::from_str("_any"), Type::Any);
        let global: Frame<Type> = Frame::new(None, FrameType::Normal);
        let mut frames: VecDeque<Frame<Type>> = VecDeque::new();
        frames.push_front(constants);
        frames.push_front(global);
        let out = InterpreterData { frames, next_type_id: FIRST_FREE_ID, depth_left: DEPTH_LIMIT };
        assert(out@.frames =~= new_type_table().frames);
        out
    }

    /// Binds `name` to a copy of the type `value` in the innermost scope. A
    /// name bound to a definition also names the type of the definition's
    /// instances. A table without scopes gets a scope first.
    pub fn declare_val(&mut self, name: &String, value: &Type)
        ensures
            old(self)@.frames.len() > 0 ==> final(self)@ == old(self)@.declared_type(
                name@,
                value@,
            ),
            old(self)@.frames.len() == 0 ==> final(self)@ == old(self)@.pushed(
                None,
                FrameType::Normal,
            ).declared_type(name@, value@),
            final(self).depth_left == old(self).depth_left,
            final(self)@.frames.len() > 0,
            old(self)@.frames.len() > 0 ==> final(self)@.frames.len() == old(self)@.frames.len(),
            old(self)@.wf() ==> final(self)@.wf(),
    {
        if self.frames.len() == 0 {
            let ghost before = self@;
            self.frames.push_front(Frame::new(None, FrameType::Normal));
            assert(self@.frames =~= before.pushed(None, FrameType::Normal).frames);
        }
        let ghost before = self@;
        assert(before.frames[0] == self.frames@[0]@);
        let mut frame = self.frames.pop_front().unwrap();
        frame.heap.insert(name.clone(), value.clone());
        match value {
            Type::Definition(d) => {
                assert(value@ == TypeModel::Definition(d@));
                frame.typedefs.insert(name.clone(), d.get_instance());
            },
            _ => {},
        }
        self.frames.push_front(frame);
        proof {
            assert(self@.frames =~= before.declared_type(name@, value@).frames);
            if before.wf() {
                assert forall|i: int| 0 <= i < self@.frames.len() - 1 implies (
                #[trigger] self@.frames[i]).ty != FrameType::Constants by {
                    assert(self@.frames[i].ty == before.frames[i].ty);
                }
            }
        }
    }

    /// Drops the innermost scope.
    pub fn pop_frame(&mut self)
        requires
            old(self)@.wf(),
            old(self)@.frames.len() > 2,
        ensures
            final(self)@ == old(self)@.popped(),
            final(self)@.wf(),
            final(self).depth_left == old(self).depth_left,
    {
        self.drop_frame();
    }
}

} // verus!
