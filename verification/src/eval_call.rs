//! Calls: arguments, parameters, builtin operations and procedures of the language.

use vstd::prelude::*;
use vstd::string::*;
use crate::ast::{Argument, ArgumentModel, Ast, AstModel, Block, BlockModel, Call, Ident, Literal};
use crate::builtins::{call_builtin, opt_model};
use crate::errors::{PositionForZyxtError, ZyxtError};
use crate::semantics::{
    CallSite, Outcome, agrees, agrees_popped, apply, bind_params, bound_args, call_site, done,
    failed, find_method, interp_args, interp_block, interp_call, plain_call, pop_frame,
    result_model, results_model, shorter, static_type, unit_model, unsuccessful,
};
use crate::interpreter_data::{FrameData, FrameType, InterpreterData, TableModel, defer_model};
use crate::name_map::NameMap;
use crate::position::{Position, Span, merge_span};
use crate::primitives::find_value;
use crate::value::{Prim, Proc, Type, TypeModel, Value, ValueModel};
use crate::eval_block::interpret_block;

verus! {

/// Where a call stands, for diagnostics.
pub struct Site {
    pub place: PositionForZyxtError,
    pub position: Position,
    pub name: String,
}

impl View for Site {
    type V = CallSite;

    open spec fn view(&self) -> CallSite {
        CallSite { place: self.place@, position: self.position, name: self.name@ }
    }
}

/// A copy of a list of deferred blocks.
pub fn clone_defers(defer: &Vec<Vec<Ast>>) -> (out: Vec<Vec<Ast>>)
    ensures
        defer_model(out) == defer_model(*defer),
{
    let mut out: Vec<Vec<Ast>> = Vec::new();
    let mut i: usize = 0;
    while i < defer.len()
        invariant
            i <= defer.len(),
            out.len() == i,
            forall|k: int| 0 <= k < i ==> Ast::seq_model(out[k]) == Ast::seq_model(defer[k]),
        decreases defer.len() - i,
    {
        out.push(Ast::clone_seq(&defer[i]));
        i += 1;
    }
    assert(defer_model(out) =~= defer_model(
        *defer,
    ));
    out
}

/// The type that a type annotation names.
pub fn static_type_of(o: &Option<Box<Ast>>) -> (out: Type)
    ensures
        out@ == static_type(
            match o {
                Some(a) => Some(Box::new(a@)),
                None => None,
            },
        ),
{
    match o {
        Some(a) => match &**a {
            Ast::Literal(l) => {
                assert(a@ == AstModel::Literal(l@));
                match &l.content {
                    Value::Type(t) => {
                        assert(l@.content == ValueModel::Type(t@));
                        t.clone()
                    },
                    _ => Type::Any,
                }
            },
            _ => Type::Any,
        },
        None => Type::Any,
    }
}

/// The method named `name` of the value `receiver`.
pub fn method_of(receiver: &Value, name: &String) -> (out: Option<Value>)
    ensures
        opt_model(out) == find_method(receiver@, name@),
{
    match receiver {
        Value::Type(ty) => {
            assert(receiver@ == ValueModel::Type(ty@));
            match ty {
                Type::Definition(d) => {
                    assert(ty@ == TypeModel::Definition(d@));
                    match find_value(&d.implementations, name) {
                        Some(v) => Some(v.clone()),
                        None => None,
                    }
                },
                _ => {
                    let table = Prim::Type.methods();
                    match find_value(&table, name) {
                        Some(v) => Some(v.clone()),
                        None => None,
                    }
                },
            }
        },
        _ => match receiver.prim() {
            Some(p) => {
                let table = p.methods();
                match find_value(&table, name) {
                    Some(v) => Some(v.clone()),
                    None => None,
                }
            },
            None => None,
        },
    }
}

/// The error of a builtin operation that has no result on `args`.
fn unsuccessful_error(place: PositionForZyxtError, name: &str, args: &Vec<Value>) -> (out: ZyxtError)
    ensures
        out@ == unsuccessful(place@, name@, Value::seq_model(*args)),
{
    if args.len() >= 2 {
        place.error_4_1_0(String::from_str(name), args[0].clone(), args[1].clone())
    } else if args.len() == 1 {
        place.error_4_1_1(String::from_str(name), args[0].clone())
    } else {
        place.error_4_0_1(String::from_str(name), String::from_str("()"))
    }
}

/// The first parameters, each bound to the argument in its place.
fn bind_positional(params: &Vec<Argument>, args: &Vec<Value>) -> (out: NameMap<Value>)
    ensures
        out@ == bound_args(
            Argument::seq_model(*params),
            Value::seq_model(*args),
            shorter(params.len() as nat, args.len() as nat),
        ),
{
    let mut out: NameMap<Value> = NameMap::new();
    let n = if params.len() <= args.len() {
        params.len()
    } else {
        args.len()
    };
    let mut i: usize = 0;
    while i < n
        invariant
            i <= n,
            n <= params.len(),
            n <= args.len(),
            out@ == bound_args(Argument::seq_model(*params), Value::seq_model(*args), i as nat),
        decreases n - i,
    {
        out.insert(params[i].name.clone(), args[i].clone());
        i += 1;
    }
    out
}


/// The values that a call starts with: the receiver of a method call.
pub open spec fn first_args(receiver: Option<&Value>) -> Seq<ValueModel> {
    match receiver {
        Some(v) => seq![v@],
        None => Seq::empty(),
    }
}

/// Evaluates the arguments in order, after the receiver if there is one.
fn interpret_args(args: &Vec<Ast>, receiver: Option<&Value>, sym: &mut InterpreterData<Value>) -> (out:
    Result<Vec<Value>, ZyxtError>)
    requires
        old(sym)@.wf(),
    ensures
        agrees(
            old(sym)@,
            final(sym)@,
            old(sym).depth_left,
            final(sym).depth_left,
            interp_args(
                Ast::seq_model(*args),
                0,
                first_args(receiver),
                old(sym)@,
                old(sym).depth_left as nat,
            ),
            results_model(out),
        ),
    decreases old(sym).depth_left, 1int, args, 0nat,
{
    let ghost all = Ast::seq_model(*args);
    let ghost start = sym@;
    let ghost fuel = sym.depth_left as nat;
    let mut acc: Vec<Value> = Vec::new();
    assert(Value::seq_model(acc) =~= Seq::<ValueModel>::empty());
    match receiver {
        Some(v) => {
            acc.push(v.clone());
            assert(Value::seq_model(acc) =~= seq![v@]);
        },
        None => {},
    }
    let mut i: usize = 0;
    while i < args.len()
        invariant
            i <= args.len(),
            all == Ast::seq_model(*args),
            start == old(sym)@,
            fuel == old(sym).depth_left,
            sym@.wf(),
            sym.depth_left == fuel,
            sym@.frames.len() == start.frames.len(),
            interp_args(all, 0, first_args(receiver), start, fuel) == interp_args(
                all,
                i as nat,
                Value::seq_model(acc),
                sym@,
                fuel,
            ),
        decreases args.len() - i,
    {
        assert(all[i as int] == args[i as int]@);
        let ghost so_far = Value::seq_model(acc);
        match args[i].interpret_expr(sym) {
            Err(e) => {
                return Err(e);
            },
            Ok(v) => {
                acc.push(v);
                assert(Value::seq_model(acc) =~= so_far.push(v@));
            },
        }
        i += 1;
    }
    Ok(acc)
}

/// Declares the parameters in the innermost scope, each with the argument
/// in its place or with the value of its default.
fn bind_parameters(
    params: &Vec<Argument>,
    args: &Vec<Value>,
    sym: &mut InterpreterData<Value>,
    place: PositionForZyxtError,
) -> (out: Result<(), ZyxtError>)
    requires
        old(sym)@.wf(),
    ensures
        agrees(
            old(sym)@,
            final(sym)@,
            old(sym).depth_left,
            final(sym).depth_left,
            bind_params(
                Argument::seq_model(*params),
                0,
                Value::seq_model(*args),
                old(sym)@,
                old(sym).depth_left as nat,
                place@,
            ),
            unit_model(out),
        ),
    decreases old(sym).depth_left, 1int, params, 0nat,
{
    let ghost all = Argument::seq_model(*params);
    let ghost values = Value::seq_model(*args);
    let ghost start = sym@;
    let ghost fuel = sym.depth_left as nat;
    let mut i: usize = 0;
    while i < params.len()
        invariant
            i <= params.len(),
            all == Argument::seq_model(*params),
            values == Value::seq_model(*args),
            start == old(sym)@,
            fuel == old(sym).depth_left,
            sym@.wf(),
            sym.depth_left == fuel,
            sym@.frames.len() == start.frames.len(),
            bind_params(all, 0, values, start, fuel, place@) == bind_params(
                all,
                i as nat,
                values,
                sym@,
                fuel,
                place@,
            ),
        decreases params.len() - i,
    {
        assert(all[i as int] == params[i as int]@);
        if i < args.len() {
            assert(values[i as int] == args[i as int]@);
            sym.declare(&params[i].name, args[i].clone());
        } else {
            match &params[i].default {
                None => {
                    return Err(place.error_2_3(params[i].name.clone()));
                },
                Some(d) => match d.interpret_expr(sym) {
                    Err(e) => {
                        return Err(e);
                    },
                    Ok(v) => {
                        sym.declare(&params[i].name, v);
                    },
                },
            }
        }
        i += 1;
    }
    Ok(())
}

/// Calls the value `f` on `args`.
pub fn apply_value(f: Value, args: Vec<Value>, sym: &mut InterpreterData<Value>, site: Site) -> (out:
    Result<Value, ZyxtError>)
    requires
        old(sym)@.wf(),
    ensures
        agrees(
            old(sym)@,
            final(sym)@,
            old(sym).depth_left,
            final(sym).depth_left,
            apply(f@, Value::seq_model(args), old(sym)@, old(sym).depth_left as nat, site@),
            result_model(out),
        ),
    decreases old(sym).depth_left, 0int, f, 0nat,
{
    match f {
        Value::Proc(p) => {
            assert(f@ == ValueModel::Proc(p@));
            match p {
                Proc::Builtin { owner, op } => match call_builtin(owner, op, &args) {
                    Some(v) => Ok(v),
                    None => Err(unsuccessful_error(site.place, op.method_name(), &args)),
                },
                Proc::Defined { is_fn, args: params, return_type, content } => {
                    if sym.depth_left == 0 {
                        return Err(site.place.internal("Maximum call depth exceeded"));
                    }
                    let data = FrameData {
                        position: site.position,
                        raw_call: site.name,
                        args: bind_positional(&params, &args),
                    };
                    let kind = if is_fn {
                        FrameType::Function
                    } else {
                        FrameType::Normal
                    };
                    sym.add_frame(Some(data), kind);
                    let ghost pushed = sym@;
                    sym.depth_left = sym.depth_left - 1;
                    assert(sym@ == pushed);
                    let out = run_call(&params, &args, &content, sym, site.place);
                    let ghost after = sym@;
                    sym.depth_left = sym.depth_left + 1;
                    assert(sym@ == after);
                    out
                },
            }
        },
        _ => Err(site.place.internal("Value is not a procedure")),
    }
}

/// What a call does inside the scope that was opened for it, and the end of
/// that scope.
pub open spec fn call_in_scope(
    params: Seq<ArgumentModel>,
    args: Seq<ValueModel>,
    content: BlockModel,
    start: TableModel<ValueModel>,
    inner: nat,
    position: Seq<(Position, Seq<char>)>,
) -> Outcome<ValueModel> {
    let bound = bind_params(params, 0, args, start, inner, position);
    match bound.result {
        Err(e) => failed(e, bound.table.popped()),
        Ok(_) => {
            let body = interp_block(content.content, bound.table, inner, false, true);
            match body.result {
                Err(e) => failed(e, body.table.popped()),
                Ok(v) => {
                    let end = pop_frame(body.table, inner);
                    match end.result {
                        Err(e) => failed(e, end.table),
                        Ok(early) => done(
                            match early {
                                Some(r) => r,
                                None => v,
                            },
                            end.table,
                        ),
                    }
                },
            }
        },
    }
}

fn run_call(
    params: &Vec<Argument>,
    args: &Vec<Value>,
    content: &Block,
    sym: &mut InterpreterData<Value>,
    place: PositionForZyxtError,
) -> (out: Result<Value, ZyxtError>)
    requires
        old(sym)@.wf(),
        old(sym)@.frames.len() > 2,
    ensures
        agrees_popped(
            old(sym)@,
            final(sym)@,
            old(sym).depth_left,
            final(sym).depth_left,
            call_in_scope(
                Argument::seq_model(*params),
                Value::seq_model(*args),
                content@,
                old(sym)@,
                old(sym).depth_left as nat,
                place@,
            ),
            result_model(out),
        ),
    decreases old(sym).depth_left, 2int, params, 0nat,
{
    match bind_parameters(params, args, sym, place) {
        Err(e) => {
            sym.drop_frame();
            return Err(e);
        },
        Ok(_) => {},
    }
    let value = match interpret_block(&content.content, sym, false, true) {
        Err(e) => {
            sym.drop_frame();
            return Err(e);
        },
        Ok(v) => v,
    };
    match sym.pop_frame() {
        Err(e) => Err(e),
        Ok(Some(r)) => Ok(r),
        Ok(None) => Ok(value),
    }
}


impl Call {
    /// Where this call stands; `name` is the name of what it calls.
    fn site(&self, name_span: Option<Span>, name: &str) -> (out: Site)
        ensures
            out@ == call_site(self@, name_span, name@),
    {
        let position = match self.paren_spans {
            Some((open, close)) => match merge_span(Some(open), Some(close)) {
                Some(s) => s.start,
                None => Position { line: 0, column: 0 },
            },
            None => Position { line: 0, column: 0 },
        };
        Site { place: ZyxtError::from_span(name_span, name), position, name: String::from_str(name) }
    }

    /// Evaluates the call: a method call where the called expression is a
    /// name with a parent, else a call of the value of the called expression.
    pub fn interpret_expr(&self, sym: &mut InterpreterData<Value>) -> (out: Result<Value, ZyxtError>)
        requires
            old(sym)@.wf(),
        ensures
            agrees(
                old(sym)@,
                final(sym)@,
                old(sym).depth_left,
                final(sym).depth_left,
                interp_call(self@, old(sym)@, old(sym).depth_left as nat),
                result_model(out),
            ),
        decreases old(sym).depth_left, 1int, self, 2nat,
    {
        match &*self.called {
            Ast::Ident(m) => {
                assert(self.called@ == AstModel::Ident(m@));
                match &m.parent {
                    Some(p) => {
                        let receiver = match p.interpret_expr(sym) {
                            Ok(v) => v,
                            Err(e) => {
                                return Err(e);
                            },
                        };
                        let args = match interpret_args(&self.args, Some(&receiver), sym) {
                            Ok(args) => args,
                            Err(e) => {
                                return Err(e);
                            },
                        };
                        match method_of(&receiver, &m.name) {
                            None => Err(
                                ZyxtError::from_span(m.name_span, m.name.as_str()).error_3_1_1(
                                    receiver,
                                    m.name.clone(),
                                ),
                            ),
                            Some(f) => {
                                let site = self.site(m.name_span, m.name.as_str());
                                apply_value(f, args, sym, site)
                            },
                        }
                    },
                    None => self.plain_call(sym),
                }
            },
            _ => self.plain_call(sym),
        }
    }

    /// Calls the value of the called expression.
    fn plain_call(&self, sym: &mut InterpreterData<Value>) -> (out: Result<Value, ZyxtError>)
        requires
            old(sym)@.wf(),
        ensures
            agrees(
                old(sym)@,
                final(sym)@,
                old(sym).depth_left,
                final(sym).depth_left,
                plain_call(self@, old(sym)@, old(sym).depth_left as nat),
                result_model(out),
            ),
        decreases old(sym).depth_left, 1int, self, 1nat,
    {
        let f = match self.called.interpret_expr(sym) {
            Ok(v) => v,
            Err(e) => {
                return Err(e);
            },
        };
        let args = match interpret_args(&self.args, None, sym) {
            Ok(args) => args,
            Err(e) => {
                return Err(e);
            },
        };
        let site = match &*self.called {
            Ast::Ident(x) => {
                assert(self.called@ == AstModel::Ident(x@));
                self.site(x.name_span, x.name.as_str())
            },
            _ => self.site(None, ""),
        };
        proof {
            reveal_strlit("");
            assert(""@ =~= Seq::<char>::empty());
        }
        apply_value(f, args, sym, site)
    }
}

} // verus!
