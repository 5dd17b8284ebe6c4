//! What holds of the table of names whatever the program: laws of scoping,
//! each proved from the definitions of the table and of the interpreter.

use vstd::prelude::*;
use crate::ast::AstModel;
use crate::semantics::{done, interp_block, pop_frame, run_defers};
use crate::interpreter_data::{FrameDataModel, FrameType, TableModel};
use crate::value::ValueModel;

verus! {

/// A name that was just declared is found, with the value it was declared
/// with.
pub proof fn law_declared_is_found<V>(t: TableModel<V>, name: Seq<char>, value: V)
    requires
        t.frames.len() > 0,
    ensures
        t.declared(name, value).get(name) == Some(value),
{
    let after = t.declared(name, value);
    assert(after.frames[0].heap.contains_key(name));
    assert(!after.boundary_before(0));
    assert(after.is_resolution(name, 0));
    after.lemma_resolution(name, 0);
}

/// A declaration reaches the innermost scope only: every other scope is as
/// it was, so a name that an outer scope binds is hidden, not changed.
pub proof fn law_declaration_is_local<V>(t: TableModel<V>, name: Seq<char>, value: V, i: int)
    requires
        0 < i < t.frames.len(),
    ensures
        t.declared(name, value).frames[i] == t.frames[i],
        t.declared(name, value).frames.len() == t.frames.len(),
{
}

/// Shadowing: after a scope was opened, a name declared in it, and the
/// scope dropped, the table is what it was before, whatever the outer scopes
/// bind the name to.
pub proof fn law_shadowing_ends_with_scope<V>(
    t: TableModel<V>,
    frame_data: Option<FrameDataModel<V>>,
    ty: FrameType,
    name: Seq<char>,
    value: V,
)
    ensures
        t.pushed(frame_data, ty).declared(name, value).popped() == t,
        t.pushed(frame_data, ty).declared(name, value).get(name) == Some(value),
{
    let inner = t.pushed(frame_data, ty).declared(name, value);
    assert(inner.popped().frames =~= t.frames);
    law_declared_is_found(t.pushed(frame_data, ty), name, value);
}

/// The same for the interpreter's way of ending a scope: a scope without
/// deferred blocks ends without a result, and the table is what it was
/// before the scope was opened.
pub proof fn law_scope_without_defers_ends_quietly(
    t: TableModel<ValueModel>,
    frame_data: Option<FrameDataModel<ValueModel>>,
    ty: FrameType,
    name: Seq<char>,
    value: ValueModel,
    fuel: nat,
)
    ensures
        pop_frame(t.pushed(frame_data, ty).declared(name, value), fuel) == done(
            None::<ValueModel>,
            t,
        ),
{
    let inner = t.pushed(frame_data, ty).declared(name, value);
    assert(inner.frames[0].defer =~= Seq::<Seq<AstModel>>::empty());
    assert(inner.popped().frames =~= t.frames);
}

/// Function-boundary isolation: inside a new function scope a lookup finds
/// what the scope of constants binds, and nothing else. A variable of the
/// caller is not found, whichever scope holds it.
pub proof fn law_function_scope_sees_constants_only<V>(
    t: TableModel<V>,
    frame_data: Option<FrameDataModel<V>>,
    name: Seq<char>,
)
    requires
        t.wf(),
    ensures
        t.pushed(frame_data, FrameType::Function).get(name) == (if t.frames.last().heap.contains_key(
            name,
        ) {
            Some(t.frames.last().heap[name])
        } else {
            None
        }),
{
    let inner = t.pushed(frame_data, FrameType::Function);
    let last = inner.frames.len() - 1;
    assert(inner.frames[0].ty == FrameType::Function);
    assert(inner.frames[last] == t.frames.last());
    assert forall|k: int| 0 <= k < last implies !inner.holds(name, k) by {
        if k == 0 {
            assert(!inner.frames[0].heap.contains_key(name));
        } else {
            assert(inner.frames[k] == t.frames[k - 1]);
            assert(inner.boundary_before(k));
        }
    }
    if t.frames.last().heap.contains_key(name) {
        assert(inner.eligible(last));
        assert(inner.is_resolution(name, last));
        inner.lemma_resolution(name, last);
    } else {
        inner.lemma_unresolved(name);
    }
}

/// Deletion looks at the innermost scope only: a name that only an outer
/// scope binds is found by a lookup, and yet the innermost scope, which a
/// deletion asks, does not bind it.
pub proof fn law_deletion_is_innermost_only<V>(t: TableModel<V>, name: Seq<char>, value: V)
    requires
        t.frames.len() > 0,
    ensures
        t.declared(name, value).pushed(None, FrameType::Normal).get(name) == Some(value),
        !t.declared(name, value).pushed(None, FrameType::Normal).frames[0].heap.contains_key(name),
{
    let outer = t.declared(name, value);
    let inner = outer.pushed(None, FrameType::Normal);
    assert(inner.frames[1] == outer.frames[0]);
    assert(!inner.boundary_before(1)) by {
        if inner.boundary_before(1) {
            let k = choose|k: int|
                0 <= k < 1 && k < inner.frames.len() && (#[trigger] inner.frames[k]).ty
                    == FrameType::Function;
            assert(inner.frames[0].ty == FrameType::Normal);
        }
    }
    assert(inner.holds(name, 1));
    assert(!inner.holds(name, 0));
    assert(inner.is_resolution(name, 1));
    inner.lemma_resolution(name, 1);
}

/// A deferred block joins the end of its scope's list: the blocks of a scope
/// stand in the order in which they were deferred.
pub proof fn law_defers_keep_their_order(
    t: TableModel<ValueModel>,
    first: Seq<AstModel>,
    second: Seq<AstModel>,
)
    requires
        t.frames.len() > 0,
    ensures
        t.deferred(first).deferred(second).frames[0].defer == t.frames[0].defer.push(first).push(
            second,
        ),
{
}

/// Deferred blocks run in order: where the block at `i` ends without a
/// value on its way out of a call, the run goes on with the block after it,
/// in the table that the block left.
pub proof fn law_defers_run_in_order(
    defers: Seq<Seq<AstModel>>,
    i: nat,
    t: TableModel<ValueModel>,
    fuel: nat,
)
    requires
        i < defers.len(),
        interp_block(defers[i as int], t, fuel, false, false).result matches Ok(v) && !(v
            is Return),
    ensures
        run_defers(defers, i, t, fuel) == run_defers(
            defers,
            i + 1,
            interp_block(defers[i as int], t, fuel, false, false).table,
            fuel,
        ),
{
}

/// A deferred block that returns early ends the run: its value is the
/// result, and the blocks after it do not run, whatever they are.
pub proof fn law_early_return_skips_later_defers(
    defers: Seq<Seq<AstModel>>,
    others: Seq<Seq<AstModel>>,
    i: nat,
    t: TableModel<ValueModel>,
    fuel: nat,
)
    requires
        i < defers.len(),
        i < others.len(),
        others[i as int] == defers[i as int],
        interp_block(defers[i as int], t, fuel, false, false).result matches Ok(v) && v is Return,
    ensures
        run_defers(defers, i, t, fuel).result == Ok::<Option<ValueModel>, crate::errors::ErrorModel>(
            Some(*interp_block(defers[i as int], t, fuel, false, false).result->Ok_0->Return_0),
        ),
        run_defers(defers, i, t, fuel) == run_defers(others, i, t, fuel),
{
}

/// The end of a scope drops the scope, whatever its deferred blocks did:
/// the table afterwards is the table that the deferred blocks left, without
/// its innermost scope.
pub proof fn law_scope_ends_after_defers(t: TableModel<ValueModel>, fuel: nat)
    requires
        t.frames.len() > 0,
        t.frames[0].defer.len() > 0,
        fuel > 0,
    ensures
        pop_frame(t, fuel).result == run_defers(t.frames[0].defer, 0, t, (fuel - 1) as nat).result,
        pop_frame(t, fuel).table == run_defers(
            t.frames[0].defer,
            0,
            t,
            (fuel - 1) as nat,
        ).table.popped(),
{
}

} // verus!
