//! What the operations of the builtin types compute.

use vstd::prelude::*;
use vstd::string::*;
use crate::describe::{type_of, value_text};
use crate::text::concat2;
use crate::token::OprType;
use crate::ubig::Ubig;
use crate::value::{Prim, Type, TypeModel, Value, ValueModel};

verus! {

/// The builtin type that a value belongs to. A procedure belongs to none,
/// nor does a value on its way out of a call.
pub open spec fn prim_of(v: ValueModel) -> Option<Prim> {
    match v {
        ValueModel::I8(_) => Some(Prim::I8),
        ValueModel::I32(_) => Some(Prim::I32),
        ValueModel::U8(_) => Some(Prim::U8),
        ValueModel::U128(_) => Some(Prim::U128),
        ValueModel::Ubig(_) => Some(Prim::Ubig),
        ValueModel::Bool(_) => Some(Prim::Bool),
        ValueModel::Str(_) => Some(Prim::Str),
        ValueModel::Unit => Some(Prim::Unit),
        ValueModel::Type(_) => Some(Prim::Type),
        ValueModel::Proc(_) => None,
        ValueModel::Return(_) => None,
    }
}

/// Whether the type is an integer type that has values in this crate.
pub open spec fn is_integer(p: Prim) -> bool {
    p == Prim::I8 || p == Prim::I32 || p == Prim::U8 || p == Prim::U128 || p == Prim::Ubig
}

/// Whether the type is a signed integer type that has values in this crate.
pub open spec fn is_signed(p: Prim) -> bool {
    p == Prim::I8 || p == Prim::I32
}

/// The number that a value stands for: an integer is itself, `true` is one
/// and `false` is zero. Other values stand for no number.
pub open spec fn number(v: ValueModel) -> Option<int> {
    match v {
        ValueModel::I8(n) => Some(n as int),
        ValueModel::I32(n) => Some(n as int),
        ValueModel::U8(n) => Some(n as int),
        ValueModel::U128(n) => Some(n as int),
        ValueModel::Ubig(n) => Some(n as int),
        ValueModel::Bool(b) => Some(
            if b {
                1int
            } else {
                0int
            },
        ),
        _ => None,
    }
}

/// Whether `n` is a value of the integer type `p`.
pub open spec fn in_range(p: Prim, n: int) -> bool {
    match p {
        Prim::I8 => i8::MIN <= n <= i8::MAX,
        Prim::I32 => i32::MIN <= n <= i32::MAX,
        Prim::U8 => 0 <= n <= u8::MAX,
        Prim::U128 => 0 <= n <= u128::MAX,
        Prim::Ubig => 0 <= n,
        _ => false,
    }
}

/// The value of the integer type `p` that stands for `n`, if `n` fits.
pub open spec fn make_int(p: Prim, n: int) -> Option<ValueModel> {
    if !in_range(p, n) {
        None
    } else {
        match p {
            Prim::I8 => Some(ValueModel::I8(n as i8)),
            Prim::I32 => Some(ValueModel::I32(n as i32)),
            Prim::U8 => Some(ValueModel::U8(n as u8)),
            Prim::U128 => Some(ValueModel::U128(n as u128)),
            _ => Some(ValueModel::Ubig(n as nat)),
        }
    }
}

/// The quotient of `x` by `d`, rounded towards zero; `d` is not zero.
pub open spec fn trunc_div(x: int, d: int) -> int {
    if x == 0 {
        0
    } else if x > 0 && d > 0 {
        x / d
    } else if x < 0 && d < 0 {
        ((x * -1) / (d * -1))
    } else if x < 0 {
        ((x * -1) / d) * -1
    } else {
        (x / (d * -1)) * -1
    }
}

/// The remainder of `x` by `d`, with the sign of `x`; `d` is not zero.
pub open spec fn trunc_rem(x: int, d: int) -> int {
    if x == 0 {
        0
    } else if x > 0 && d > 0 {
        x % d
    } else if x < 0 && d < 0 {
        ((x * -1) % (d * -1)) * -1
    } else if x < 0 {
        ((x * -1) % d) * -1
    } else {
        x % (d * -1)
    }
}

/// Whether `op` is one of the five arithmetic operators.
pub open spec fn is_arithmetic(op: OprType) -> bool {
    op == OprType::Add || op == OprType::Sub || op == OprType::Mul || op == OprType::Div || op
        == OprType::Mod
}

/// Whether `op` is one of the six comparisons.
pub open spec fn is_comparison(op: OprType) -> bool {
    op == OprType::Eq || op == OprType::Ne || op == OprType::Lt || op == OprType::Le || op
        == OprType::Gt || op == OprType::Ge
}

/// The result of an arithmetic operator on two integers, in the integers;
/// there is none for a division by zero.
pub open spec fn arithmetic(op: OprType, a: int, b: int) -> Option<int> {
    match op {
        OprType::Add => Some(a + b),
        OprType::Sub => Some(a - b),
        OprType::Mul => Some(a * b),
        OprType::Div => if b == 0 {
            None
        } else {
            Some(trunc_div(a, b))
        },
        _ => if b == 0 {
            None
        } else {
            Some(trunc_rem(a, b))
        },
    }
}

/// The result of a comparison of two numbers.
pub open spec fn comparison(op: OprType, a: int, b: int) -> bool {
    match op {
        OprType::Eq => a == b,
        OprType::Ne => a != b,
        OprType::Lt => a < b,
        OprType::Le => a <= b,
        OprType::Gt => a > b,
        _ => a >= b,
    }
}

/// Whether the builtin type `owner` implements `op`.
pub open spec fn implements(owner: Prim, op: OprType) -> bool {
    match owner {
        Prim::I8 | Prim::I32 => true,
        Prim::U8 | Prim::U128 | Prim::Ubig => op != OprType::UnMinus,
        Prim::Bool | Prim::Unit => op == OprType::Concat || is_comparison(op) || op
            == OprType::TypeCast,
        _ => false,
    }
}

/// The value `v` converted to the builtin type `target`, where there is
/// such a conversion. A number becomes an integer only if it fits.
pub open spec fn cast(v: ValueModel, target: Prim) -> Option<ValueModel> {
    match target {
        Prim::Type => Some(ValueModel::Type(type_of(v))),
        Prim::Str => Some(ValueModel::Str(value_text(v))),
        Prim::Bool => match number(v) {
            Some(n) => Some(ValueModel::Bool(n != 0)),
            None => None,
        },
        Prim::I8 | Prim::I32 | Prim::U8 | Prim::U128 | Prim::Ubig => match number(v) {
            Some(n) => make_int(target, n),
            None => None,
        },
        _ => None,
    }
}

/// The builtin type that a value names, if it is a type value that names one.
pub open spec fn named_prim(v: ValueModel) -> Option<Prim> {
    match v {
        ValueModel::Type(TypeModel::Instance { id, .. }) => Prim::with_ident(id),
        _ => None,
    }
}

/// What the operation `op` of the builtin type `owner` returns on `args`,
/// the first of which is the value that the method was called on. There is
/// no result where the type lacks the operation, where the number or the
/// types of the arguments are not those of the operation, where an integer
/// result does not fit its type, and for a division by zero.
pub open spec fn builtin_result(owner: Prim, op: OprType, args: Seq<ValueModel>) -> Option<
    ValueModel,
> {
    if !implements(owner, op) || args.len() == 0 || prim_of(args[0]) != Some(owner) {
        None
    } else if op.is_unary() {
        if args.len() != 1 {
            None
        } else {
            match op {
                OprType::UnPlus => Some(args[0]),
                OprType::UnMinus => make_int(owner, -number(args[0])->0),
                _ => Some(ValueModel::Bool(number(args[0])->0 == 0)),
            }
        }
    } else if args.len() != 2 {
        None
    } else if op == OprType::Concat {
        Some(ValueModel::Str(value_text(args[0]) + value_text(args[1])))
    } else if op == OprType::TypeCast {
        match named_prim(args[1]) {
            Some(target) => cast(args[0], target),
            None => None,
        }
    } else if prim_of(args[1]) != Some(owner) {
        None
    } else if is_comparison(op) {
        if owner == Prim::Unit {
            Some(ValueModel::Bool(comparison(op, 0, 0)))
        } else {
            Some(ValueModel::Bool(comparison(op, number(args[0])->0, number(args[1])->0)))
        }
    } else {
        match arithmetic(op, number(args[0])->0, number(args[1])->0) {
            Some(n) => make_int(owner, n),
            None => None,
        }
    }
}

/// The type of what the operation `op` of the builtin type `owner` returns.
pub open spec fn builtin_return_type(owner: Prim, op: OprType) -> TypeModel {
    if op == OprType::Concat {
        Prim::Str.instance()
    } else if op == OprType::TypeCast {
        TypeModel::Any
    } else if op == OprType::Not || is_comparison(op) {
        Prim::Bool.instance()
    } else {
        owner.instance()
    }
}

/// A view of an optional value.
pub open spec fn opt_model(v: Option<Value>) -> Option<ValueModel> {
    match v {
        Some(x) => Some(x@),
        None => None,
    }
}

impl OprType {
    pub fn comparison(&self) -> (b: bool)
        ensures
            b == is_comparison(*self),
    {
        match self {
            OprType::Eq | OprType::Ne | OprType::Lt | OprType::Le | OprType::Gt | OprType::Ge => true,
            _ => false,
        }
    }
}

impl Prim {
    /// Whether the type implements `op`.
    pub fn implements(&self, op: OprType) -> (b: bool)
        ensures
            b == implements(*self, op),
    {
        match self {
            Prim::I8 | Prim::I32 => true,
            Prim::U8 | Prim::U128 | Prim::Ubig => match op {
                OprType::UnMinus => false,
                _ => true,
            },
            Prim::Bool | Prim::Unit => match op {
                OprType::Concat | OprType::TypeCast => true,
                _ => op.comparison(),
            },
            _ => false,
        }
    }

    /// The type of what the type's operation `op` returns.
    pub fn return_type(&self, op: OprType) -> (ty: Type)
        ensures
            ty@ == builtin_return_type(*self, op),
    {
        match op {
            OprType::Concat => Prim::Str.to_type(),
            OprType::TypeCast => Type::Any,
            OprType::Not => Prim::Bool.to_type(),
            _ => if op.comparison() {
                Prim::Bool.to_type()
            } else {
                self.to_type()
            },
        }
    }
}

impl Value {
    /// The builtin type that the value belongs to.
    pub fn prim(&self) -> (p: Option<Prim>)
        ensures
            p == prim_of(self@),
    {
        match self {
            Value::I8(_) => Some(Prim::I8),
            Value::I32(_) => Some(Prim::I32),
            Value::U8(_) => Some(Prim::U8),
            Value::U128(_) => Some(Prim::U128),
            Value::Ubig(_) => Some(Prim::Ubig),
            Value::Bool(_) => Some(Prim::Bool),
            Value::Str(_) => Some(Prim::Str),
            Value::Unit => Some(Prim::Unit),
            Value::Type(_) => Some(Prim::Type),
            Value::Proc(_) => None,
            Value::Return(_) => None,
        }
    }

    /// The builtin type that the value names.
    pub fn names_prim(&self) -> (p: Option<Prim>)
        ensures
            p == named_prim(self@),
    {
        match self {
            Value::Type(ty) => {
                assert(self@ == ValueModel::Type(ty@));
                match ty {
                    Type::Instance { id, .. } => Prim::from_id(*id),
                    _ => None,
                }
            },
            _ => None,
        }
    }
}

/// A number as the machine holds it: in `i128` where it fits, else in
/// `u128`, or as a natural number of any size.
enum Number {
    Small(i128),
    Big(u128),
    Huge(Ubig),
}

impl Number {
    spec fn value(self) -> int {
        match self {
            Number::Small(n) => n as int,
            Number::Big(n) => n as int,
            Number::Huge(n) => n@ as int,
        }
    }

    fn of(v: &Value) -> (out: Option<Number>)
        ensures
            match out {
                Some(n) => {
                    &&& number(v@) == Some(n.value())
                    &&& n is Big <==> v@ is U128
                    &&& n is Huge <==> v@ is Ubig
                    &&& is_integer(prim_of(v@)->0) ==> in_range(prim_of(v@)->0, n.value())
                },
                None => number(v@) is None,
            },
    {
        match v {
            Value::I8(n) => Some(Number::Small(*n as i128)),
            Value::I32(n) => Some(Number::Small(*n as i128)),
            Value::U8(n) => Some(Number::Small(*n as i128)),
            Value::U128(n) => Some(Number::Big(*n)),
            Value::Ubig(n) => Some(Number::Huge(n.clone())),
            Value::Bool(b) => Some(
                Number::Small(
                    if *b {
                        1
                    } else {
                        0
                    },
                ),
            ),
            _ => None,
        }
    }

    fn is_zero(&self) -> (b: bool)
        ensures
            b == (self.value() == 0),
    {
        match self {
            Number::Small(n) => *n == 0,
            Number::Big(n) => *n == 0,
            Number::Huge(n) => n.is_zero(),
        }
    }

    /// The number as a natural number of any size, unless it is negative.
    fn to_huge(&self) -> (out: Option<Ubig>)
        ensures
            match out {
                Some(n) => n@ == self.value(),
                None => self.value() < 0,
            },
    {
        match self {
            Number::Small(n) => if *n < 0 {
                None
            } else {
                Some(Ubig::from_u128(*n as u128))
            },
            Number::Big(n) => Some(Ubig::from_u128(*n)),
            Number::Huge(n) => Some(n.clone()),
        }
    }

    fn compare(&self, op: OprType, other: &Number) -> (b: bool)
        requires
            is_comparison(op),
        ensures
            b == comparison(op, self.value(), other.value()),
    {
        let (less, equal) = match (self, other) {
            (Number::Small(a), Number::Small(b)) => (*a < *b, *a == *b),
            (Number::Big(a), Number::Big(b)) => (*a < *b, *a == *b),
            _ => match (self.to_huge(), other.to_huge()) {
                (Some(a), Some(b)) => (a.less_than(&b), a.same_as(&b)),
                (None, Some(_)) => (true, false),
                (Some(_), None) => (false, false),
                (None, None) => match (self, other) {
                    (Number::Small(a), Number::Small(b)) => (*a < *b, *a == *b),
                    _ => (false, true),
                },
            },
        };
        match op {
            OprType::Eq => equal,
            OprType::Ne => !equal,
            OprType::Lt => less,
            OprType::Le => less || equal,
            OprType::Gt => !less && !equal,
            _ => !less,
        }
    }

    /// The number as a value of the integer type `p`, if it fits.
    fn to_value(&self, p: Prim) -> (out: Option<Value>)
        ensures
            opt_model(out) == make_int(p, self.value()),
    {
        match p {
            Prim::Ubig => match self.to_huge() {
                Some(n) => Some(Value::Ubig(n)),
                None => None,
            },
            _ => match self {
                Number::Small(n) => {
                    let n: i128 = *n;
                    match p {
                        Prim::I8 => if -128 <= n && n <= 127 {
                            Some(Value::I8(n as i8))
                        } else {
                            None
                        },
                        Prim::I32 => if -2147483648 <= n && n <= 2147483647 {
                            Some(Value::I32(n as i32))
                        } else {
                            None
                        },
                        Prim::U8 => if 0 <= n && n <= 255 {
                            Some(Value::U8(n as u8))
                        } else {
                            None
                        },
                        Prim::U128 => if 0 <= n {
                            Some(Value::U128(n as u128))
                        } else {
                            None
                        },
                        _ => None,
                    }
                },
                Number::Big(n) => Number::fit(*n, p),
                Number::Huge(n) => match n.to_u128() {
                    Some(m) => Number::fit(m, p),
                    None => None,
                },
            },
        }
    }

    /// The natural number `n` as a value of the integer type `p`, which is
    /// not the type of the numbers of any size, if it fits.
    fn fit(n: u128, p: Prim) -> (out: Option<Value>)
        requires
            p != Prim::Ubig,
        ensures
            opt_model(out) == make_int(p, n as int),
    {
        match p {
            Prim::I8 => if n <= 127 {
                Some(Value::I8(n as i8))
            } else {
                None
            },
            Prim::I32 => if n <= 2147483647 {
                Some(Value::I32(n as i32))
            } else {
                None
            },
            Prim::U8 => if n <= 255 {
                Some(Value::U8(n as u8))
            } else {
                None
            },
            Prim::U128 => Some(Value::U128(n)),
            _ => None,
        }
    }

    /// The result of an arithmetic operator as a value of the integer type
    /// `p`, if there is a result and it fits.
    fn combine(&self, op: OprType, other: &Number, p: Prim) -> (out: Option<Value>)
        requires
            is_arithmetic(op),
            is_integer(p),
            (self is Big) == (other is Big),
            (self is Big) == (p == Prim::U128),
            (self is Huge) == (other is Huge),
            (self is Huge) == (p == Prim::Ubig),
            in_range(p, self.value()),
            in_range(p, other.value()),
        ensures
            opt_model(out) == (match arithmetic(op, self.value(), other.value()) {
                Some(n) => make_int(p, n),
                None => None,
            }),
    {
        match (self, other) {
            (Number::Small(a), Number::Small(b)) => {
                let a: i128 = *a;
                let b: i128 = *b;
                let r = match op {
                    OprType::Add => a.checked_add(b),
                    OprType::Sub => a.checked_sub(b),
                    OprType::Mul => a.checked_mul(b),
                    OprType::Div => a.checked_div(b),
                    _ => a.checked_rem(b),
                };
                match r {
                    Some(n) => Number::Small(n).to_value(p),
                    None => None,
                }
            },
            (Number::Big(a), Number::Big(b)) => {
                let a: u128 = *a;
                let b: u128 = *b;
                let r = match op {
                    OprType::Add => a.checked_add(b),
                    OprType::Sub => a.checked_sub(b),
                    OprType::Mul => a.checked_mul(b),
                    OprType::Div => if b == 0 {
                        None
                    } else if a == 0 {
                        Some(0)
                    } else {
                        Some(a / b)
                    },
                    _ => if b == 0 {
                        None
                    } else if a == 0 {
                        Some(0)
                    } else {
                        Some(a % b)
                    },
                };
                match r {
                    Some(n) => Some(Value::U128(n)),
                    None => None,
                }
            },
            (Number::Huge(a), Number::Huge(b)) => {
                let r = match op {
                    OprType::Add => a.checked_add(b),
                    OprType::Sub => a.checked_sub(b),
                    OprType::Mul => a.checked_mul(b),
                    OprType::Div => if b.is_zero() {
                        None
                    } else if a.is_zero() {
                        Some(Ubig::from_u128(0))
                    } else {
                        a.checked_div(b)
                    },
                    _ => if b.is_zero() {
                        None
                    } else if a.is_zero() {
                        Some(Ubig::from_u128(0))
                    } else {
                        a.checked_rem(b)
                    },
                };
                match r {
                    Some(n) => Some(Value::Ubig(n)),
                    None => None,
                }
            },
            _ => None,
        }
    }
}

/// Converts `v` to the builtin type `target`.
pub fn cast_value(v: &Value, target: Prim) -> (out: Option<Value>)
    ensures
        opt_model(out) == cast(v@, target),
{
    match target {
        Prim::Type => Some(Value::Type(v.type_of())),
        Prim::Str => Some(Value::Str(v.to_text())),
        Prim::Bool => match Number::of(v) {
            Some(n) => Some(Value::Bool(!n.is_zero())),
            None => None,
        },
        Prim::I8 | Prim::I32 | Prim::U8 | Prim::U128 | Prim::Ubig => match Number::of(v) {
            Some(n) => n.to_value(target),
            None => None,
        },
        _ => None,
    }
}

/// Runs the operation `op` of the builtin type `owner` on `args`, the first
/// of which is the value that the method was called on.
pub fn call_builtin(owner: Prim, op: OprType, args: &Vec<Value>) -> (out: Option<Value>)
    ensures
        opt_model(out) == builtin_result(owner, op, Value::seq_model(*args)),
{
    let ghost models = Value::seq_model(*args);
    if !owner.implements(op) || args.len() == 0 {
        return None;
    }
    assert(models[0] == args[0]@);
    if args[0].prim() != Some(owner) {
        return None;
    }
    if op.unary() {
        if args.len() != 1 {
            return None;
        }
        let n = match Number::of(&args[0]) {
            Some(n) => n,
            None => {
                return None;
            },
        };
        return match op {
            OprType::UnPlus => Some(args[0].clone()),
            OprType::UnMinus => match n {
                Number::Small(x) => match 0i128.checked_sub(x) {
                    Some(y) => Number::Small(y).to_value(owner),
                    None => None,
                },
                _ => None,
            },
            _ => Some(Value::Bool(n.is_zero())),
        };
    }
    if args.len() != 2 {
        return None;
    }
    assert(models[1] == args[1]@);
    match op {
        OprType::Concat => {
            let left = args[0].to_text();
            let right = args[1].to_text();
            return Some(Value::Str(concat2(left.as_str(), right.as_str())));
        },
        OprType::TypeCast => {
            return match args[1].names_prim() {
                Some(target) => cast_value(&args[0], target),
                None => None,
            };
        },
        _ => {},
    }
    if args[1].prim() != Some(owner) {
        return None;
    }
    if op.comparison() {
        return match (Number::of(&args[0]), Number::of(&args[1])) {
            (Some(a), Some(b)) => Some(Value::Bool(a.compare(op, &b))),
            _ => Some(Value::Bool(Number::Small(0).compare(op, &Number::Small(0)))),
        };
    }
    match (Number::of(&args[0]), Number::of(&args[1])) {
        (Some(a), Some(b)) => a.combine(op, &b, owner),
        _ => None,
    }
}

} // verus!
