//! The symbol table: a stack of scopes, innermost first.
//!
//! A name is looked up from the innermost scope outwards. Once the walk has
//! passed the scope of a function call, only the scope of constants can still
//! answer: a function body sees its own parameters and the constants, not the
//! variables of its caller.

use std::collections::VecDeque;
use vstd::prelude::*;
use vstd::string::*;
use crate::ast::{Ast, AstModel};
use crate::errors::{ErrorModel, PositionForZyxtError, ZyxtError};
use crate::name_map::NameMap;
use crate::position::Position;
use crate::primitives::definition;
use crate::text::trimmed;
use crate::value::{Type, TypeModel};

verus! {

/// How many nested calls and deferred blocks a new table lets a program enter.
pub const DEPTH_LIMIT: usize = 200;

/// What a scope was opened for.
#[derive(Clone, Copy, Debug, PartialEq, Eq, Structural)]
pub enum FrameType {
    /// A block, or the global scope.
    Normal,
    /// The scope of the names that every program starts with.
    Constants,
    /// The body of a function: a boundary for the lookup of names.
    Function,
}

/// The call that opened a scope, for diagnostics.
pub struct FrameData<T> {
    pub position: Position,
    pub raw_call: String,
    pub args: NameMap<T>,
}

/// One scope: its names, the blocks it runs when it ends, and its kind.
pub struct Frame<T> {
    pub heap: NameMap<T>,
    pub defer: Vec<Vec<Ast>>,
    pub frame_data: Option<FrameData<T>>,
    pub typedefs: NameMap<Type>,
    pub ty: FrameType,
}

/// The stack of scopes of one pass over a program.
pub struct InterpreterData<T> {
    /// The scopes, innermost first.
    pub frames: VecDeque<Frame<T>>,
    /// The identity that the next definition gets.
    pub next_type_id: u64,
    /// How many nested calls and deferred blocks may still be entered.
    pub depth_left: usize,
}

/// What a [`FrameData`] holds, as plain mathematical values.
pub struct FrameDataModel<V> {
    pub position: Position,
    pub raw_call: Seq<char>,
    pub args: Map<Seq<char>, V>,
}

/// What a [`Frame`] holds, as plain mathematical values.
pub struct FrameModel<V> {
    pub heap: Map<Seq<char>, V>,
    pub defer: Seq<Seq<AstModel>>,
    pub frame_data: Option<FrameDataModel<V>>,
    pub typedefs: Map<Seq<char>, TypeModel>,
    pub ty: FrameType,
}

/// What an [`InterpreterData`] holds, as plain mathematical values: the
/// scopes, innermost first, and the next free identity.
pub struct TableModel<V> {
    pub frames: Seq<FrameModel<V>>,
    pub next_id: u64,
}

impl<V> FrameModel<V> {
    /// A scope of kind `ty` without names.
    pub open spec fn empty(frame_data: Option<FrameDataModel<V>>, ty: FrameType) -> Self {
        FrameModel {
            heap: Map::empty(),
            defer: Seq::empty(),
            frame_data,
            typedefs: Map::empty(),
            ty,
        }
    }

    /// The scope with `name` bound to `value`.
    pub open spec fn with_value(self, name: Seq<char>, value: V) -> Self {
        FrameModel { heap: self.heap.insert(name, value), ..self }
    }

    /// The scope without `name`.
    pub open spec fn without_value(self, name: Seq<char>) -> Self {
        FrameModel { heap: self.heap.remove(name), ..self }
    }

    /// The scope with `name` also naming the type `ty`.
    pub open spec fn with_typedef(self, name: Seq<char>, ty: TypeModel) -> Self {
        FrameModel { typedefs: self.typedefs.insert(name, ty), ..self }
    }

    /// The scope with one more block to run when it ends.
    pub open spec fn with_defer(self, content: Seq<AstModel>) -> Self {
        FrameModel { defer: self.defer.push(content), ..self }
    }
}

impl<V> TableModel<V> {
    /// The table's shape: the outermost scope is the only scope of
    /// constants, and the global scope lies right inside it.
    pub open spec fn wf(self) -> bool {
        &&& self.frames.len() >= 2
        &&& self.frames[self.frames.len() - 1].ty == FrameType::Constants
        &&& self.frames[self.frames.len() - 2].ty == FrameType::Normal
        &&& forall|i: int|
            0 <= i < self.frames.len() - 1 ==> (#[trigger] self.frames[i]).ty
                != FrameType::Constants
    }

    /// Whether the walk from the innermost scope has passed the scope of a
    /// function call before it reaches scope `i`.
    pub open spec fn boundary_before(self, i: int) -> bool {
        exists|k: int| 0 <= k < i && k < self.frames.len() && (#[trigger] self.frames[k]).ty
            == FrameType::Function
    }

    /// Whether scope `i` may answer a lookup: every scope up to and including
    /// the first function scope may, and beyond it only a scope of constants.
    pub open spec fn eligible(self, i: int) -> bool {
        !self.boundary_before(i) || self.frames[i].ty == FrameType::Constants
    }

    /// Whether scope `i` may answer a lookup of `name` and binds it.
    pub open spec fn holds(self, name: Seq<char>, i: int) -> bool {
        &&& 0 <= i < self.frames.len()
        &&& self.eligible(i)
        &&& self.frames[i].heap.contains_key(name)
    }

    /// Whether scope `i` is the first that answers a lookup of `name`.
    pub open spec fn is_resolution(self, name: Seq<char>, i: int) -> bool {
        &&& self.holds(name, i)
        &&& forall|k: int| 0 <= k < i ==> !self.holds(name, k)
    }

    /// The scope that answers a lookup of `name`, if any does.
    pub open spec fn resolve(self, name: Seq<char>) -> Option<int> {
        if exists|i: int| self.is_resolution(name, i) {
            Some(choose|i: int| self.is_resolution(name, i))
        } else {
            None
        }
    }

    /// The value that a lookup of `name` finds, if it finds one.
    pub open spec fn get(self, name: Seq<char>) -> Option<V> {
        match self.resolve(name) {
            Some(i) => Some(self.frames[i].heap[name]),
            None => None,
        }
    }

    /// The table with scope `i` replaced by `frame`.
    pub open spec fn with_frame(self, i: int, frame: FrameModel<V>) -> Self {
        TableModel { frames: self.frames.update(i, frame), ..self }
    }

    /// The table after `name` was declared in the innermost scope.
    pub open spec fn declared(self, name: Seq<char>, value: V) -> Self {
        self.with_frame(0, self.frames[0].with_value(name, value))
    }

    /// The table after `value` was assigned to `name` in scope `i`.
    pub open spec fn assigned(self, i: int, name: Seq<char>, value: V) -> Self {
        self.with_frame(i, self.frames[i].with_value(name, value))
    }

    /// The table after `name` was deleted from the innermost scope.
    pub open spec fn deleted(self, name: Seq<char>) -> Self {
        self.with_frame(0, self.frames[0].without_value(name))
    }

    /// The table after a block was deferred in the innermost scope.
    pub open spec fn deferred(self, content: Seq<AstModel>) -> Self {
        self.with_frame(0, self.frames[0].with_defer(content))
    }

    /// The table with a new, empty innermost scope.
    pub open spec fn pushed(self, frame_data: Option<FrameDataModel<V>>, ty: FrameType) -> Self {
        TableModel { frames: seq![FrameModel::empty(frame_data, ty)] + self.frames, ..self }
    }

    /// The table without its innermost scope.
    pub open spec fn popped(self) -> Self {
        TableModel { frames: self.frames.drop_first(), ..self }
    }

    /// The first scope that answers is the scope that answers.
    pub proof fn lemma_resolution(self, name: Seq<char>, i: int)
        requires
            self.is_resolution(name, i),
        ensures
            self.resolve(name) == Some(i),
    {
        let c = choose|c: int| self.is_resolution(name, c);
        if c < i {
            assert(!self.holds(name, c));
        } else if i < c {
            assert(!self.holds(name, i));
        }
    }

    /// Where no scope answers, the lookup fails.
    pub proof fn lemma_unresolved(self, name: Seq<char>)
        requires
            forall|k: int| 0 <= k < self.frames.len() ==> !self.holds(name, k),
        ensures
            self.resolve(name) is None,
    {
        if exists|i: int| self.is_resolution(name, i) {
            let c = choose|c: int| self.is_resolution(name, c);
            assert(self.holds(name, c));
        }
    }
}

impl<T: View> View for FrameData<T> {
    type V = FrameDataModel<T::V>;

    open spec fn view(&self) -> FrameDataModel<T::V> {
        FrameDataModel { position: self.position, raw_call: self.raw_call@, args: self.args@ }
    }
}

/// The model of the call that opened a scope, if a call did.
pub open spec fn frame_data_model<T: View>(frame_data: Option<FrameData<T>>) -> Option<
    FrameDataModel<T::V>,
> {
    match frame_data {
        Some(data) => Some(data@),
        None => None,
    }
}

/// The models of a list of deferred blocks.
pub open spec fn defer_model(defer: Vec<Vec<Ast>>) -> Seq<Seq<AstModel>> {
    Seq::new(defer.len() as nat, |i: int| Ast::seq_model(defer[i]))
}

impl<T: View> View for Frame<T> {
    type V = FrameModel<T::V>;

    open spec fn view(&self) -> FrameModel<T::V> {
        FrameModel {
            heap: self.heap@,
            defer: defer_model(self.defer),
            frame_data: frame_data_model(self.frame_data),
            typedefs: self.typedefs@,
            ty: self.ty,
        }
    }
}

impl<T: View> View for InterpreterData<T> {
    type V = TableModel<T::V>;

    open spec fn view(&self) -> TableModel<T::V> {
        TableModel {
            frames: Seq::new(self.frames@.len(), |i: int| self.frames@[i]@),
            next_id: self.next_type_id,
        }
    }
}

impl<T: View> Frame<T> {
    /// A scope of kind `ty` without names.
    pub fn new(frame_data: Option<FrameData<T>>, ty: FrameType) -> (out: Self)
        ensures
            out@ == FrameModel::<T::V>::empty(frame_data_model(frame_data), ty),
    {
        let out = Frame {
            heap: NameMap::new(),
            defer: Vec::new(),
            frame_data,
            typedefs: NameMap::new(),
            ty,
        };
        assert(out@.defer =~= Seq::<Seq<AstModel>>::empty());
        out
    }
}

impl<T: View> InterpreterData<T> {
    /// Opens a new innermost scope.
    pub fn add_frame(&mut self, frame_data: Option<FrameData<T>>, ty: FrameType)
        requires
            old(self)@.wf(),
            ty != FrameType::Constants,
        ensures
            final(self)@ == old(self)@.pushed(frame_data_model(frame_data), ty),
            final(self)@.wf(),
            final(self).depth_left == old(self).depth_left,
    {
        let ghost model = frame_data_model(frame_data);
        let frame = Frame::new(frame_data, ty);
        self.frames.push_front(frame);
        proof {
            assert(self@.frames =~= old(self)@.pushed(model, ty).frames);
            assert forall|i: int| 0 <= i < self@.frames.len() - 1 implies (#[trigger] self@.frames[i]).ty
                != FrameType::Constants by {
                if i > 0 {
                    assert(self@.frames[i] == old(self)@.frames[i - 1]);
                }
            }
        }
    }

    /// The scope that answers a lookup of `name`.
    fn find_frame(&self, name: &String) -> (at: Option<usize>)
        ensures
            match at {
                Some(i) => self@.resolve(name@) == Some(i as int),
                None => self@.resolve(name@) is None,
            },
    {
        let mut only_consts = false;
        let mut i: usize = 0;
        while i < self.frames.len()
            invariant
                i <= self.frames@.len(),
                only_consts == self@.boundary_before(i as int),
                forall|k: int| 0 <= k < i ==> !self@.holds(name@, k),
            decreases self.frames.len() - i,
        {
            let frame = &self.frames[i];
            assert(self@.frames[i as int] == frame@);
            if (!only_consts || frame.ty == FrameType::Constants) && frame.heap.contains_key(name) {
                proof {
                    self@.lemma_resolution(name@, i as int);
                }
                return Some(i);
            }
            proof {
                if self@.boundary_before(i + 1) && !only_consts {
                    let k = choose|k: int|
                        0 <= k < i + 1 && k < self@.frames.len() && (#[trigger] self@.frames[k]).ty
                            == FrameType::Function;
                    assert(k == i);
                }
                if only_consts {
                    let k = choose|k: int|
                        0 <= k < i && k < self@.frames.len() && (#[trigger] self@.frames[k]).ty
                            == FrameType::Function;
                    assert(0 <= k < i + 1 && self@.frames[k].ty == FrameType::Function);
                }
            }
            if frame.ty == FrameType::Function {
                only_consts = true;
            }
            i += 1;
        }
        proof {
            self@.lemma_unresolved(name@);
        }
        None
    }

    /// Looks `name` up, from the innermost scope outwards. Beyond the first
    /// function scope only the scope of constants is asked. Where no scope
    /// answers, the error is Undefined-Variable, at `position`.
    pub fn get_val(&self, name: &String, position: &Position, raw: &String) -> (out: Result<
        &T,
        ZyxtError,
    >)
        ensures
            match self@.get(name@) {
                Some(value) => out matches Ok(v) && v@ == value,
                None => out matches Err(e) && e@ == ErrorModel::error_3_0(
                    seq![(*position, trimmed(raw@))],
                    name@,
                ),
            },
    {
        self.get_value(name, ZyxtError::from_pos_and_raw(position, raw))
    }

    /// As [`InterpreterData::get_val`], for an error whose places are `place`.
    pub fn get_value(&self, name: &String, place: PositionForZyxtError) -> (out: Result<
        &T,
        ZyxtError,
    >)
        ensures
            match self@.get(name@) {
                Some(value) => out matches Ok(v) && v@ == value,
                None => out matches Err(e) && e@ == ErrorModel::error_3_0(place@, name@),
            },
    {
        match self.find_frame(name) {
            Some(i) => {
                assert(self@.frames[i as int] == self.frames@[i as int]@);
                match self.frames[i].heap.get(name) {
                    Some(v) => Ok(v),
                    None => Err(place.error_3_0(name.clone())),
                }
            },
            None => Err(place.error_3_0(name.clone())),
        }
    }

    /// Overwrites `name` in the scope that answers a lookup of it. Where no
    /// scope answers, the error is Undefined-Variable; where the scope of
    /// constants answers, Immutable-Constant. The table is then unchanged.
    pub fn set_val(&mut self, name: &String, value: T, position: &Position, raw: &String) -> (out:
        Result<(), ZyxtError>)
        ensures
            match old(self)@.resolve(name@) {
                None => out matches Err(e) && e@ == ErrorModel::error_3_0(
                    seq![(*position, trimmed(raw@))],
                    name@,
                ) && final(self)@ == old(self)@,
                Some(i) => if old(self)@.frames[i].ty == FrameType::Constants {
                    out matches Err(e) && e@ == ErrorModel::error_3_2(
                        seq![(*position, trimmed(raw@))],
                        name@,
                    ) && final(self)@ == old(self)@
                } else {
                    out is Ok && final(self)@ == old(self)@.assigned(i, name@, value@)
                },
            },
            old(self)@.wf() ==> final(self)@.wf(),
            final(self)@.frames.len() == old(self)@.frames.len(),
            final(self).depth_left == old(self).depth_left,
    {
        self.set_value(name, value, ZyxtError::from_pos_and_raw(position, raw))
    }

    /// As [`InterpreterData::set_val`], for an error whose places are `place`.
    pub fn set_value(&mut self, name: &String, value: T, place: PositionForZyxtError) -> (out:
        Result<(), ZyxtError>)
        ensures
            match old(self)@.resolve(name@) {
                None => out matches Err(e) && e@ == ErrorModel::error_3_0(place@, name@) && final(self)@ == old(self)@,
                Some(i) => if old(self)@.frames[i].ty == FrameType::Constants {
                    out matches Err(e) && e@ == ErrorModel::error_3_2(place@, name@) && final(self)@
                        == old(self)@
                } else {
                    out is Ok && final(self)@ == old(self)@.assigned(i, name@, value@)
                },
            },
            old(self)@.wf() ==> final(self)@.wf(),
            final(self)@.frames.len() == old(self)@.frames.len(),
            final(self).depth_left == old(self).depth_left,
    {
        match self.find_frame(name) {
            None => Err(place.error_3_0(name.clone())),
            Some(i) => {
                assert(self@.frames[i as int] == self.frames@[i as int]@);
                if self.frames[i].ty == FrameType::Constants {
                    Err(place.error_3_2(name.clone()))
                } else {
                    self.update_frame_value(i, name, value);
                    Ok(())
                }
            },
        }
    }

    fn update_frame_value(&mut self, i: usize, name: &String, value: T)
        requires
            i < old(self)@.frames.len(),
        ensures
            final(self)@ == old(self)@.assigned(i as int, name@, value@),
            final(self).depth_left == old(self).depth_left,
            old(self)@.wf() ==> final(self)@.wf(),
    {
        let ghost before = self@;
        assert(before.frames[i as int] == self.frames@[i as int]@);
        let mut frame = self.frames.remove(i).unwrap();
        frame.heap.insert(name.clone(), value);
        assert(frame@ == before.frames[i as int].with_value(name@, value@));
        self.frames.insert(i, frame);
        proof {
            assert(self@.frames =~= before.assigned(i as int, name@, value@).frames);
        }
    }

    /// Binds `name` in the innermost scope, whatever outer scopes bind.
    pub fn declare(&mut self, name: &String, value: T)
        requires
            old(self)@.frames.len() > 0,
        ensures
            final(self)@ == old(self)@.declared(name@, value@),
            final(self).depth_left == old(self).depth_left,
            old(self)@.wf() ==> final(self)@.wf(),
    {
        self.update_frame_value(0, name, value);
    }

    /// Takes `name` out of the innermost scope, and no other. Where the
    /// innermost scope does not bind it, the error is Undefined-Variable,
    /// whatever outer scopes bind.
    pub fn delete_val(&mut self, name: &String, position: &Position, raw: &String) -> (out: Result<
        T,
        ZyxtError,
    >)
        requires
            old(self)@.frames.len() > 0,
        ensures
            if old(self)@.frames[0].heap.contains_key(name@) {
                out matches Ok(v) && v@ == old(self)@.frames[0].heap[name@] && final(self)@ == old(self)@.deleted(name@)
            } else {
                out matches Err(e) && e@ == ErrorModel::error_3_0(
                    seq![(*position, trimmed(raw@))],
                    name@,
                ) && final(self)@ == old(self)@
            },
            old(self)@.wf() ==> final(self)@.wf(),
            final(self)@.frames.len() == old(self)@.frames.len(),
            final(self).depth_left == old(self).depth_left,
    {
        self.delete_value(name, ZyxtError::from_pos_and_raw(position, raw))
    }

    /// As [`InterpreterData::delete_val`], for an error whose places are `place`.
    pub fn delete_value(&mut self, name: &String, place: PositionForZyxtError) -> (out: Result<
        T,
        ZyxtError,
    >)
        requires
            old(self)@.frames.len() > 0,
        ensures
            if old(self)@.frames[0].heap.contains_key(name@) {
                out matches Ok(v) && v@ == old(self)@.frames[0].heap[name@] && final(self)@ == old(self)@.deleted(name@)
            } else {
                out matches Err(e) && e@ == ErrorModel::error_3_0(place@, name@) && final(self)@
                    == old(self)@
            },
            old(self)@.wf() ==> final(self)@.wf(),
            final(self)@.frames.len() == old(self)@.frames.len(),
            final(self).depth_left == old(self).depth_left,
    {
        let ghost before = self@;
        assert(before.frames[0] == self.frames@[0]@);
        let mut frame = self.frames.pop_front().unwrap();
        let removed = frame.heap.remove(name);
        let ghost after = frame@;
        self.frames.push_front(frame);
        match removed {
            Some(v) => {
                proof {
                    assert(after == before.frames[0].without_value(name@));
                    assert(self@.frames =~= before.deleted(name@).frames);
                }
                Ok(v)
            },
            None => {
                proof {
                    assert(after.heap =~= before.frames[0].heap);
                    assert(self@.frames =~= before.frames);
                }
                Err(place.error_3_0(name.clone()))
            },
        }
    }

    /// Leaves `content` with the innermost scope, to run when the scope ends.
    pub fn add_defer(&mut self, content: Vec<Ast>)
        requires
            old(self)@.frames.len() > 0,
        ensures
            final(self)@ == old(self)@.deferred(Ast::seq_model(content)),
            old(self)@.wf() ==> final(self)@.wf(),
            final(self).depth_left == old(self).depth_left,
    {
        let ghost before = self@;
        assert(before.frames[0] == self.frames@[0]@);
        let mut frame = self.frames.pop_front().unwrap();
        let ghost old_defer = defer_model(frame.defer);
        frame.defer.push(content);
        proof {
            assert(defer_model(frame.defer) =~= old_defer.push(Ast::seq_model(content)));
            assert(frame@ == before.frames[0].with_defer(Ast::seq_model(content)));
        }
        self.frames.push_front(frame);
        proof {
            assert(self@.frames =~= before.deferred(Ast::seq_model(content)).frames);
        }
    }

    /// Drops the innermost scope.
    pub fn drop_frame(&mut self)
        requires
            old(self)@.wf(),
            old(self)@.frames.len() > 2,
        ensures
            final(self)@ == old(self)@.popped(),
            final(self)@.wf(),
            final(self).depth_left == old(self).depth_left,
    {
        let ghost before = self@;
        let _ = self.frames.pop_front();
        proof {
            assert(self@.frames =~= before.popped().frames);
            assert forall|i: int| 0 <= i < self@.frames.len() - 1 implies (#[trigger] self@.frames[i]).ty
                != FrameType::Constants by {
                assert(self@.frames[i] == before.frames[i + 1]);
            }
        }
    }

    /// Whether the table has the shape that its operations keep: an outermost
    /// scope of constants, the only one, with the global scope right inside.
    pub fn well_formed(&self) -> (b: bool)
        ensures
            b == self@.wf(),
    {
        let n = self.frames.len();
        if n < 2 {
            return false;
        }
        assert(self@.frames[n - 1] == self.frames@[n - 1]@);
        assert(self@.frames[n - 2] == self.frames@[n - 2]@);
        if self.frames[n - 1].ty != FrameType::Constants || self.frames[n - 2].ty
            != FrameType::Normal {
            return false;
        }
        let mut i: usize = 0;
        while i < n - 1
            invariant
                i <= n - 1,
                n == self.frames@.len(),
                forall|k: int| 0 <= k < i ==> (#[trigger] self@.frames[k]).ty != FrameType::Constants,
            decreases n - 1 - i,
        {
            assert(self@.frames[i as int] == self.frames@[i as int]@);
            if self.frames[i].ty == FrameType::Constants {
                return false;
            }
            i += 1;
        }
        true
    }

    /// Hands out an identity that no definition has yet, if one is left.
    pub fn fresh_type_id(&mut self) -> (id: Option<u64>)
        ensures
            final(self)@.frames == old(self)@.frames,
            final(self).depth_left == old(self).depth_left,
            match id {
                Some(n) => n == old(self)@.next_id && n < u64::MAX && final(self)@.next_id == n + 1,
                None => old(self)@.next_id == u64::MAX && final(self)@ == old(self)@,
            },
    {
        if self.next_type_id < u64::MAX {
            let id = self.next_type_id;
            self.next_type_id = id + 1;
            assert(self@.frames =~= old(self)@.frames);
            Some(id)
        } else {
            None
        }
    }
}

} // verus!
