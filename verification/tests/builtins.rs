use zyxt::builtins::{call_builtin, cast_value};
use zyxt::primitives::{bool_t, find_value, i32_t, i8_t, u128_t, u8_t, unit_t};
use zyxt::token::OprType;
use zyxt::value::{Prim, Proc, Type, Value};

fn s(text: &str) -> String {
    String::from(text)
}

fn ty(p: Prim) -> Value {
    Value::Type(p.to_type())
}

#[test]
fn addition_is_checked() {
    assert_eq!(call_builtin(Prim::I32, OprType::Add, &vec![Value::I32(2), Value::I32(3)]), Some(Value::I32(5)));
    assert_eq!(call_builtin(Prim::I32, OprType::Add, &vec![Value::I32(i32::MAX), Value::I32(1)]), None);
    assert_eq!(call_builtin(Prim::U8, OprType::Add, &vec![Value::U8(200), Value::U8(100)]), None);
    assert_eq!(call_builtin(Prim::U8, OprType::Add, &vec![Value::U8(200), Value::U8(55)]), Some(Value::U8(255)));
    assert_eq!(call_builtin(Prim::U128, OprType::Add, &vec![Value::U128(u128::MAX), Value::U128(1)]), None);
    assert_eq!(
        call_builtin(Prim::U128, OprType::Add, &vec![Value::U128(u128::MAX - 1), Value::U128(1)]),
        Some(Value::U128(u128::MAX))
    );
}

#[test]
fn subtraction_is_checked() {
    assert_eq!(call_builtin(Prim::I8, OprType::Sub, &vec![Value::I8(-128), Value::I8(1)]), None);
    assert_eq!(call_builtin(Prim::I8, OprType::Sub, &vec![Value::I8(-127), Value::I8(1)]), Some(Value::I8(-128)));
    assert_eq!(call_builtin(Prim::U8, OprType::Sub, &vec![Value::U8(1), Value::U8(2)]), None);
    assert_eq!(call_builtin(Prim::U128, OprType::Sub, &vec![Value::U128(1), Value::U128(2)]), None);
    assert_eq!(call_builtin(Prim::U128, OprType::Sub, &vec![Value::U128(5), Value::U128(2)]), Some(Value::U128(3)));
}

#[test]
fn multiplication_is_checked() {
    assert_eq!(call_builtin(Prim::I32, OprType::Mul, &vec![Value::I32(-6), Value::I32(7)]), Some(Value::I32(-42)));
    assert_eq!(call_builtin(Prim::I32, OprType::Mul, &vec![Value::I32(65536), Value::I32(32768)]), None);
    assert_eq!(
        call_builtin(Prim::U128, OprType::Mul, &vec![Value::U128(1 << 64), Value::U128(1 << 64)]),
        None
    );
    assert_eq!(
        call_builtin(Prim::U128, OprType::Mul, &vec![Value::U128(1 << 64), Value::U128(1 << 63)]),
        Some(Value::U128(1 << 127))
    );
}

#[test]
fn division_rounds_towards_zero() {
    assert_eq!(call_builtin(Prim::I32, OprType::Div, &vec![Value::I32(-7), Value::I32(2)]), Some(Value::I32(-3)));
    assert_eq!(call_builtin(Prim::I32, OprType::Div, &vec![Value::I32(7), Value::I32(-2)]), Some(Value::I32(-3)));
    assert_eq!(call_builtin(Prim::I32, OprType::Div, &vec![Value::I32(-7), Value::I32(-2)]), Some(Value::I32(3)));
    assert_eq!(call_builtin(Prim::I32, OprType::Div, &vec![Value::I32(7), Value::I32(0)]), None);
    assert_eq!(call_builtin(Prim::I8, OprType::Div, &vec![Value::I8(-128), Value::I8(-1)]), None);
    assert_eq!(call_builtin(Prim::U128, OprType::Div, &vec![Value::U128(7), Value::U128(2)]), Some(Value::U128(3)));
    assert_eq!(call_builtin(Prim::U128, OprType::Div, &vec![Value::U128(0), Value::U128(2)]), Some(Value::U128(0)));
    assert_eq!(call_builtin(Prim::U128, OprType::Div, &vec![Value::U128(7), Value::U128(0)]), None);
}

#[test]
fn remainder_has_sign_of_dividend() {
    assert_eq!(call_builtin(Prim::I32, OprType::Mod, &vec![Value::I32(-7), Value::I32(2)]), Some(Value::I32(-1)));
    assert_eq!(call_builtin(Prim::I32, OprType::Mod, &vec![Value::I32(7), Value::I32(-2)]), Some(Value::I32(1)));
    assert_eq!(call_builtin(Prim::I32, OprType::Mod, &vec![Value::I32(7), Value::I32(0)]), None);
    assert_eq!(call_builtin(Prim::I8, OprType::Mod, &vec![Value::I8(-128), Value::I8(-1)]), Some(Value::I8(0)));
    assert_eq!(call_builtin(Prim::U8, OprType::Mod, &vec![Value::U8(7), Value::U8(4)]), Some(Value::U8(3)));
    assert_eq!(call_builtin(Prim::U128, OprType::Mod, &vec![Value::U128(7), Value::U128(4)]), Some(Value::U128(3)));
}

#[test]
fn unary_operators() {
    assert_eq!(call_builtin(Prim::I32, OprType::UnMinus, &vec![Value::I32(5)]), Some(Value::I32(-5)));
    assert_eq!(call_builtin(Prim::I8, OprType::UnMinus, &vec![Value::I8(-128)]), None);
    assert_eq!(call_builtin(Prim::U8, OprType::UnMinus, &vec![Value::U8(1)]), None);
    assert_eq!(call_builtin(Prim::U8, OprType::UnPlus, &vec![Value::U8(1)]), Some(Value::U8(1)));
    assert_eq!(call_builtin(Prim::I32, OprType::Not, &vec![Value::I32(0)]), Some(Value::Bool(true)));
    assert_eq!(call_builtin(Prim::I32, OprType::Not, &vec![Value::I32(3)]), Some(Value::Bool(false)));
    assert_eq!(call_builtin(Prim::U128, OprType::Not, &vec![Value::U128(0)]), Some(Value::Bool(true)));
    assert_eq!(call_builtin(Prim::Bool, OprType::Not, &vec![Value::Bool(true)]), None);
    assert_eq!(call_builtin(Prim::I32, OprType::UnMinus, &vec![Value::I32(5), Value::I32(5)]), None);
}

#[test]
fn comparisons() {
    let pair = vec![Value::I32(-1), Value::I32(2)];
    assert_eq!(call_builtin(Prim::I32, OprType::Lt, &pair), Some(Value::Bool(true)));
    assert_eq!(call_builtin(Prim::I32, OprType::Le, &pair), Some(Value::Bool(true)));
    assert_eq!(call_builtin(Prim::I32, OprType::Gt, &pair), Some(Value::Bool(false)));
    assert_eq!(call_builtin(Prim::I32, OprType::Ge, &pair), Some(Value::Bool(false)));
    assert_eq!(call_builtin(Prim::I32, OprType::Eq, &pair), Some(Value::Bool(false)));
    assert_eq!(call_builtin(Prim::I32, OprType::Ne, &pair), Some(Value::Bool(true)));
    let big = vec![Value::U128(u128::MAX), Value::U128(u128::MAX)];
    assert_eq!(call_builtin(Prim::U128, OprType::Ge, &big), Some(Value::Bool(true)));
    assert_eq!(call_builtin(Prim::U128, OprType::Gt, &big), Some(Value::Bool(false)));
    let bools = vec![Value::Bool(false), Value::Bool(true)];
    assert_eq!(call_builtin(Prim::Bool, OprType::Lt, &bools), Some(Value::Bool(true)));
    assert_eq!(call_builtin(Prim::Bool, OprType::Eq, &bools), Some(Value::Bool(false)));
    let units = vec![Value::Unit, Value::Unit];
    assert_eq!(call_builtin(Prim::Unit, OprType::Eq, &units), Some(Value::Bool(true)));
    assert_eq!(call_builtin(Prim::Unit, OprType::Ne, &units), Some(Value::Bool(false)));
    assert_eq!(call_builtin(Prim::Unit, OprType::Gt, &units), Some(Value::Bool(false)));
    assert_eq!(call_builtin(Prim::Unit, OprType::Ge, &units), Some(Value::Bool(true)));
    assert_eq!(call_builtin(Prim::Unit, OprType::Lt, &units), Some(Value::Bool(false)));
    assert_eq!(call_builtin(Prim::Unit, OprType::Le, &units), Some(Value::Bool(true)));
}

#[test]
fn operands_must_have_the_owner_type() {
    assert_eq!(call_builtin(Prim::I32, OprType::Add, &vec![Value::I32(1), Value::I8(1)]), None);
    assert_eq!(call_builtin(Prim::I32, OprType::Add, &vec![Value::I8(1), Value::I8(1)]), None);
    assert_eq!(call_builtin(Prim::I32, OprType::Lt, &vec![Value::I32(1), Value::Bool(true)]), None);
    assert_eq!(call_builtin(Prim::I32, OprType::Add, &vec![Value::I32(1)]), None);
    assert_eq!(call_builtin(Prim::I32, OprType::Add, &vec![]), None);
    assert_eq!(call_builtin(Prim::Str, OprType::Concat, &vec![Value::Str(s("a")), Value::Str(s("b"))]), None);
    assert_eq!(call_builtin(Prim::Bool, OprType::Add, &vec![Value::Bool(true), Value::Bool(true)]), None);
}

#[test]
fn concatenation_joins_texts() {
    assert_eq!(
        call_builtin(Prim::I32, OprType::Concat, &vec![Value::I32(-1), Value::Str(s("x"))]),
        Some(Value::Str(s("-1x")))
    );
    assert_eq!(
        call_builtin(Prim::Bool, OprType::Concat, &vec![Value::Bool(true), Value::Unit]),
        Some(Value::Str(s("true()")))
    );
    assert_eq!(
        call_builtin(Prim::U128, OprType::Concat, &vec![Value::U128(u128::MAX), Value::U8(0)]),
        Some(Value::Str(s("3402823669209384634633746074317682114550")))
    );
}

#[test]
fn casts_between_integers_are_checked() {
    assert_eq!(call_builtin(Prim::I32, OprType::TypeCast, &vec![Value::I32(5), ty(Prim::I8)]), Some(Value::I8(5)));
    assert_eq!(call_builtin(Prim::I32, OprType::TypeCast, &vec![Value::I32(300), ty(Prim::U8)]), None);
    assert_eq!(call_builtin(Prim::I32, OprType::TypeCast, &vec![Value::I32(-1), ty(Prim::U128)]), None);
    assert_eq!(
        call_builtin(Prim::I32, OprType::TypeCast, &vec![Value::I32(7), ty(Prim::U128)]),
        Some(Value::U128(7))
    );
    assert_eq!(
        call_builtin(Prim::U128, OprType::TypeCast, &vec![Value::U128(127), ty(Prim::I8)]),
        Some(Value::I8(127))
    );
    assert_eq!(call_builtin(Prim::U128, OprType::TypeCast, &vec![Value::U128(128), ty(Prim::I8)]), None);
    assert_eq!(call_builtin(Prim::U128, OprType::TypeCast, &vec![Value::U128(u128::MAX), ty(Prim::I32)]), None);
    assert_eq!(call_builtin(Prim::I32, OprType::TypeCast, &vec![Value::I32(5), ty(Prim::I32)]), Some(Value::I32(5)));
    assert_eq!(call_builtin(Prim::I32, OprType::TypeCast, &vec![Value::I32(5), ty(Prim::I64)]), None);
    assert_eq!(call_builtin(Prim::I32, OprType::TypeCast, &vec![Value::I32(5), Value::I32(1)]), None);
    assert_eq!(call_builtin(Prim::I32, OprType::TypeCast, &vec![Value::I32(5), Value::Type(Type::Any)]), None);
}

#[test]
fn casts_to_other_types() {
    assert_eq!(cast_value(&Value::I32(-12), Prim::Str), Some(Value::Str(s("-12"))));
    assert_eq!(cast_value(&Value::I32(0), Prim::Bool), Some(Value::Bool(false)));
    assert_eq!(cast_value(&Value::U8(2), Prim::Bool), Some(Value::Bool(true)));
    assert_eq!(cast_value(&Value::Bool(true), Prim::U8), Some(Value::U8(1)));
    assert_eq!(cast_value(&Value::Bool(false), Prim::Str), Some(Value::Str(s("false"))));
    assert_eq!(cast_value(&Value::Unit, Prim::Str), Some(Value::Str(s("()"))));
    assert_eq!(cast_value(&Value::Unit, Prim::Bool), None);
    assert_eq!(cast_value(&Value::Unit, Prim::I32), None);
    assert_eq!(cast_value(&Value::I8(1), Prim::Type), Some(ty(Prim::I8)));
    assert_eq!(cast_value(&Value::Unit, Prim::Type), Some(ty(Prim::Unit)));
    assert_eq!(cast_value(&Value::I8(1), Prim::F32), None);
}

#[test]
fn tables_list_methods_in_order() {
    let names = |table: &Vec<(String, Value)>| table.iter().map(|e| e.0.clone()).collect::<Vec<_>>();
    assert_eq!(
        names(&i32_t()),
        vec![
            "_default", "_concat", "_un_plus", "_un_minus", "_not", "_add", "_sub", "_mul", "_div",
            "_rem", "_eq", "_neq", "_gt", "_ge", "_lt", "_le", "_typecast"
        ]
    );
    assert_eq!(names(&i8_t()), names(&i32_t()));
    assert_eq!(
        names(&u8_t()),
        vec![
            "_default", "_concat", "_un_plus", "_not", "_add", "_sub", "_mul", "_div", "_rem", "_eq",
            "_neq", "_gt", "_ge", "_lt", "_le", "_typecast"
        ]
    );
    assert_eq!(names(&u128_t()), names(&u8_t()));
    assert_eq!(
        names(&bool_t()),
        vec!["_default", "_concat", "_eq", "_neq", "_gt", "_ge", "_lt", "_le", "_typecast"]
    );
    assert_eq!(names(&unit_t()), vec!["_concat", "_eq", "_neq", "_gt", "_ge", "_lt", "_le", "_typecast"]);
}

#[test]
fn tables_hold_defaults_and_builtins() {
    assert_eq!(find_value(&i32_t(), &s("_default")), Some(&Value::I32(0)));
    assert_eq!(find_value(&u128_t(), &s("_default")), Some(&Value::U128(0)));
    assert_eq!(find_value(&bool_t(), &s("_default")), Some(&Value::Bool(false)));
    assert_eq!(find_value(&unit_t(), &s("_default")), None);
    assert_eq!(
        find_value(&i8_t(), &s("_add")),
        Some(&Value::Proc(Proc::Builtin { owner: Prim::I8, op: OprType::Add }))
    );
    assert_eq!(find_value(&u8_t(), &s("_un_minus")), None);
    assert!(Prim::Str.methods().is_empty());
    assert!(Prim::F64.methods().is_empty());
}

#[test]
fn prim_identities_round_trip() {
    for (i, p) in zyxt::tables::prim_list().into_iter().enumerate() {
        assert_eq!(p.id(), i as u64);
        assert_eq!(Prim::from_id(p.id()), Some(p));
        assert_eq!(p.to_type(), Type::Instance { name: String::from(p.name()), id: i as u64 });
        assert_eq!(p.to_definition().id, i as u64);
    }
    assert_eq!(Prim::from_id(21), None);
}

#[test]
fn types_are_told_apart_by_identity() {
    let a = Type::Instance { name: s("a"), id: 30 };
    let b = Type::Instance { name: s("b"), id: 30 };
    let c = Type::Instance { name: s("a"), id: 31 };
    assert!(a.same_as(&b));
    assert!(!a.same_as(&c));
    assert!(Type::Any.same_as(&Type::Any));
    assert!(!Type::Any.same_as(&a));
    let mut d1 = Prim::I32.to_definition();
    let d2 = Prim::I32.to_definition();
    d1.implementations.clear();
    assert!(Type::Definition(d1.clone()).same_as(&Type::Definition(d2)));
    assert!(!Type::Definition(d1).same_as(&Prim::I32.to_type()));
    assert!(!Type::Definition(Prim::I32.to_definition()).same_as(&Type::Definition(Prim::I8.to_definition())));
}

fn big(n: u128) -> Value {
    Value::Ubig(zyxt::ubig::Ubig::from_u128(n))
}

fn over() -> Value {
    call_builtin(Prim::Ubig, OprType::Add, &vec![big(u128::MAX), big(1)]).unwrap()
}

#[test]
fn big_numbers_grow_past_u128() {
    assert_eq!(over().to_text(), "340282366920938463463374607431768211456");
    assert_eq!(
        call_builtin(Prim::Ubig, OprType::Mul, &vec![over(), over()]).unwrap().to_text(),
        "115792089237316195423570985008687907853269984665640564039457584007913129639936"
    );
    assert_eq!(call_builtin(Prim::Ubig, OprType::Sub, &vec![over(), big(1)]), Some(big(u128::MAX)));
    assert_eq!(call_builtin(Prim::Ubig, OprType::Add, &vec![big(2), big(3)]), Some(big(5)));
    assert_ne!(call_builtin(Prim::Ubig, OprType::Add, &vec![big(2), big(3)]), Some(big(2)));
}

#[test]
fn big_numbers_stay_natural() {
    assert_eq!(call_builtin(Prim::Ubig, OprType::Sub, &vec![big(1), big(2)]), None);
    assert_eq!(call_builtin(Prim::Ubig, OprType::Sub, &vec![big(2), big(2)]), Some(big(0)));
    assert_eq!(call_builtin(Prim::Ubig, OprType::UnMinus, &vec![big(1)]), None);
    assert_eq!(call_builtin(Prim::Ubig, OprType::UnPlus, &vec![big(1)]), Some(big(1)));
    assert_eq!(call_builtin(Prim::Ubig, OprType::Not, &vec![big(0)]), Some(Value::Bool(true)));
    assert_eq!(call_builtin(Prim::Ubig, OprType::Not, &vec![over()]), Some(Value::Bool(false)));
}

#[test]
fn big_numbers_divide() {
    assert_eq!(call_builtin(Prim::Ubig, OprType::Div, &vec![big(7), big(2)]), Some(big(3)));
    assert_eq!(call_builtin(Prim::Ubig, OprType::Mod, &vec![big(7), big(2)]), Some(big(1)));
    assert_eq!(call_builtin(Prim::Ubig, OprType::Div, &vec![big(0), big(2)]), Some(big(0)));
    assert_eq!(call_builtin(Prim::Ubig, OprType::Mod, &vec![big(0), big(2)]), Some(big(0)));
    assert_eq!(call_builtin(Prim::Ubig, OprType::Div, &vec![big(7), big(0)]), None);
    assert_eq!(call_builtin(Prim::Ubig, OprType::Mod, &vec![big(7), big(0)]), None);
    assert_eq!(call_builtin(Prim::Ubig, OprType::Div, &vec![over(), big(2)]), Some(big(1 << 127)));
    assert_eq!(call_builtin(Prim::Ubig, OprType::Mod, &vec![over(), big(10)]), Some(big(6)));
}

#[test]
fn big_numbers_compare() {
    assert_eq!(call_builtin(Prim::Ubig, OprType::Lt, &vec![big(u128::MAX), over()]), Some(Value::Bool(true)));
    assert_eq!(call_builtin(Prim::Ubig, OprType::Ge, &vec![big(u128::MAX), over()]), Some(Value::Bool(false)));
    assert_eq!(call_builtin(Prim::Ubig, OprType::Eq, &vec![over(), over()]), Some(Value::Bool(true)));
    assert_eq!(call_builtin(Prim::Ubig, OprType::Ne, &vec![over(), over()]), Some(Value::Bool(false)));
    assert_eq!(call_builtin(Prim::Ubig, OprType::Le, &vec![over(), over()]), Some(Value::Bool(true)));
    assert_eq!(call_builtin(Prim::Ubig, OprType::Gt, &vec![over(), big(0)]), Some(Value::Bool(true)));
    assert_eq!(call_builtin(Prim::Ubig, OprType::Lt, &vec![big(1), Value::U128(2)]), None);
}

#[test]
fn big_numbers_convert() {
    assert_eq!(cast_value(&big(255), Prim::U8), Some(Value::U8(255)));
    assert_eq!(cast_value(&big(256), Prim::U8), None);
    assert_eq!(cast_value(&big(u128::MAX), Prim::U128), Some(Value::U128(u128::MAX)));
    assert_eq!(cast_value(&over(), Prim::U128), None);
    assert_eq!(cast_value(&over(), Prim::I32), None);
    assert_eq!(cast_value(&over(), Prim::Ubig), Some(over()));
    assert_eq!(cast_value(&Value::I32(7), Prim::Ubig), Some(big(7)));
    assert_eq!(cast_value(&Value::I32(-7), Prim::Ubig), None);
    assert_eq!(cast_value(&Value::U128(u128::MAX), Prim::Ubig), Some(big(u128::MAX)));
    assert_eq!(cast_value(&Value::Bool(true), Prim::Ubig), Some(big(1)));
    assert_eq!(cast_value(&over(), Prim::Bool), Some(Value::Bool(true)));
    assert_eq!(cast_value(&big(0), Prim::Bool), Some(Value::Bool(false)));
    assert_eq!(cast_value(&over(), Prim::Str), Some(Value::Str(s("340282366920938463463374607431768211456"))));
    assert_eq!(cast_value(&over(), Prim::Type), Some(ty(Prim::Ubig)));
    assert_eq!(over().type_of(), Prim::Ubig.to_type());
    assert_eq!(over().clone(), over());
}

#[test]
fn big_number_table() {
    let table = zyxt::primitives::ubig_t();
    assert_eq!(table.len(), 16);
    assert_eq!(find_value(&table, &s("_default")), Some(&big(0)));
    assert_eq!(find_value(&table, &s("_un_minus")), None);
    assert_eq!(
        find_value(&table, &s("_rem")),
        Some(&Value::Proc(Proc::Builtin { owner: Prim::Ubig, op: OprType::Mod }))
    );
}

#[test]
fn big_number_methods() {
    let a = zyxt::ubig::Ubig::from_u128(u128::MAX);
    let one = zyxt::ubig::Ubig::from_u128(1);
    let sum = a.checked_add(&one).unwrap();
    assert_eq!(sum.to_u128(), None);
    assert_eq!(a.to_u128(), Some(u128::MAX));
    assert!(a.less_than(&sum));
    assert!(!sum.less_than(&a));
    assert!(sum.same_as(&sum.clone()));
    assert!(!sum.is_zero());
    assert!(sum.checked_sub(&sum).unwrap().is_zero());
    assert_eq!(one.checked_sub(&a), None);
    assert_eq!(sum.checked_div(&a).unwrap().to_text(), "1");
    assert_eq!(sum.checked_rem(&a).unwrap().to_text(), "1");
    assert_eq!(sum.checked_div(&sum.checked_sub(&sum).unwrap()), None);
    assert_eq!(sum.checked_rem(&sum.checked_sub(&sum).unwrap()), None);
    assert_eq!(a.checked_mul(&one).unwrap(), a);
}
