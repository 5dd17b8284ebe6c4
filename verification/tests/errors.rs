use ansi_term::Colour::{Black, Red, Yellow};
use ansi_term::Style;
use zyxt::errors::{ErrorKind, ZyxtError};
use zyxt::file_importer::FileCache;
use zyxt::position::{merge_span, merge_spans, Position, Span};
use zyxt::text::{concat2, concat3, i128_to_string, is_space_char, trim, u128_to_string};
use zyxt::token::Keyword;
use zyxt::value::{Prim, Value};

fn s(text: &str) -> String {
    String::from(text)
}

fn here() -> Position {
    Position { line: 3, column: 14 }
}

#[test]
fn positions_are_trimmed_and_kept() {
    let e = ZyxtError::from_pos_and_raw(&here(), &s("  x := 1 \n")).error_2_2();
    assert_eq!(e.position, vec![(here(), s("x := 1"))]);
    assert_eq!(e.code, "2.2");
    assert_eq!(e.message, "Assignment without variable name");
    assert_eq!(ZyxtError::no_pos().error_0_1().position, vec![]);
}

#[test]
fn errors_collect_places_on_their_way() {
    let e = ZyxtError::from_pos_and_raw(&here(), &s("inner")).error_3_0(s("x"));
    let e = e.with_pos_and_raw(&Position { line: 1, column: 1 }, &s(" outer "));
    assert_eq!(e.position, vec![(here(), s("inner")), (Position { line: 1, column: 1 }, s("outer"))]);
    assert_eq!(e.code, "3.0");
}

#[test]
fn from_span_takes_the_start() {
    let span = Span { start: here(), end: Position { line: 4, column: 1 } };
    assert_eq!(ZyxtError::from_span(Some(span), " x ").error_0_1().position, vec![(here(), s("x"))]);
    assert_eq!(ZyxtError::from_span(None, "x").error_0_1().position, vec![]);
}

#[test]
fn messages_of_internal_and_file_errors() {
    let at = || ZyxtError::no_pos();
    let e = at().error_0_0(s("boom"), s("trace"));
    assert_eq!(e.code, "0.0");
    assert_eq!(
        e.message,
        "Internal error: \nboom\ntrace\n\nThis shouldn't happen! Open an issue on our Github repo page: [TODO]"
    );
    assert_eq!(at().error_0_1().message, "No file given");
    assert_eq!(at().error_1_0(s("a.zx")).message, "File `a.zx` does not exist");
    assert_eq!(at().error_1_1(s("a.zx")).message, "File `a.zx` cannot be opened");
    assert_eq!(at().error_1_2(s("dir")).message, "Directory given (Got `dir`)");
    assert_eq!(at().error_1_2(s("dir")).code, "1.2");
    assert_eq!(at().internal("oops").code, "0.0");
}

#[test]
fn messages_of_syntax_errors() {
    let at = || ZyxtError::no_pos();
    assert_eq!(
        at().error_2_0_0(s("("), s("]")).message,
        "Parentheses `(` and `]` not closed properly; try swapping them"
    );
    assert_eq!(at().error_2_0_1(s("(")).message, "Parenthesis `(` not closed");
    assert_eq!(at().error_2_0_2(s(")")).message, "Parenthesis `)` not opened");
    assert_eq!(at().error_2_1_0(s("x")).message, "Unexpected ident `x`");
    assert_eq!(at().error_2_1_1(s("x")).message, "Ident `x` not recognised by lexer");
    assert_eq!(at().error_2_1_2().message, "Stray `.` at end of expression");
    assert_eq!(at().error_2_1_3(s("+")).message, "Stray `+` binary operator at start/end of expression");
    assert_eq!(at().error_2_1_4(s("!")).message, "Stray `!` unary operator at start/end of expression");
    assert_eq!(at().error_2_1_5().message, "Stray `:=` at start/end of expression");
    assert_eq!(at().error_2_1_6(s("x")).message, "Stray `x` between first flag and declared variable");
    assert_eq!(at().error_2_1_7(s("elif")).message, "`elif` detected after `else` keyword");
    assert_eq!(at().error_2_1_8(s("x")).message, "Block expected, not `x`");
    assert_eq!(at().error_2_1_9(s("else")).message, "Stray `else` without starting `if`");
    assert_eq!(at().error_2_1_10(s("*/")).message, "Stray unclosed/unopened `*/`");
    assert_eq!(at().error_2_1_11(s("1")).message, "Only variables can be deleted (Got `1`)");
    assert_eq!(at().error_2_1_12(s("\\x")).message, "Cannot delete dereferenced variable (Got `\\x`)");
    assert_eq!(at().error_2_1_13().message, "Opening bar not closed");
    assert_eq!(at().error_2_1_14(s("x")).message, "Extra values past default value (Got `x`)");
    assert_eq!(at().error_2_1_15(s("1")).message, "Variable name isn't variable (Got `1`)");
    assert_eq!(at().error_2_1_16().message, "`pre` at end of line");
    assert_eq!(at().error_2_1_17().message, "Parameters found after `class` keyword");
    assert_eq!(at().error_2_1_18(&Keyword::Proc).message, "Block expected after `Proc`");
    assert_eq!(at().error_2_1_18(&Keyword::Struct).code, "2.1.18");
    assert_eq!(at().error_2_2().message, "Assignment without variable name");
    assert_eq!(at().error_2_3(s("a")).message, "Unfilled argument `a`");
    assert_eq!(at().error_2_1_10(s("x")).code, "2.1.10");
}

#[test]
fn messages_of_name_and_type_errors() {
    let at = || ZyxtError::no_pos();
    assert_eq!(at().error_3_0(s("x")).message, "Undefined variable `x`");
    assert_eq!(
        at().error_3_1_0(s(" a.b "), Prim::I32.to_type(), s("c")).message,
        "`a.b` (type `i32`) has no attribute `c`"
    );
    assert_eq!(
        at().error_3_1_1(Value::Bool(true), s("c")).message,
        "`true` (type `bool`) has no attribute `c`"
    );
    assert_eq!(at().error_3_2(s("i32")).message, "Cannot assign to constant `i32`");
    assert_eq!(
        at().error_4_0_0(s("+"), s("i32"), s("str")).message,
        "Operator + not implemented for types `i32`, `str`"
    );
    assert_eq!(at().error_4_0_1(s("-"), s("str")).message, "Operator - not implemented for type `str`");
    assert_eq!(
        at().error_4_1_0(s("/"), Value::I32(1), Value::U8(0)).message,
        "Operator / unsuccessful on `1` (type `i32`), `0` (type `u8`)"
    );
    assert_eq!(
        at().error_4_1_1(s("-"), Value::I8(-128)).message,
        "Operator - unsuccessful on `-128` (type `i8`)"
    );
    assert_eq!(
        at().error_4_2(Value::Str(s("x"))).message,
        "Non-i32 script return value detected (Got `x`)"
    );
    assert_eq!(
        at().error_4_3(s("x"), Prim::I32.to_type(), Prim::Str.to_type()).message,
        "Value of type `str` assigned to variable `x` of type `i32`"
    );
    let e = at().error_4_t(Prim::I32.to_type(), Prim::Unit.to_type());
    assert_eq!(e.code, "4.4");
    assert_eq!(
        e.message,
        "Block returns variable of type `i32` earlier on, but also returns variable of type `_unit`"
    );
}

#[test]
fn kinds_follow_the_code() {
    let at = || ZyxtError::no_pos();
    assert_eq!(at().error_0_1().kind(), ErrorKind::Internal);
    assert_eq!(at().error_1_0(s("f")).kind(), ErrorKind::File);
    assert_eq!(at().error_2_1_18(&Keyword::If).kind(), ErrorKind::Syntax);
    assert_eq!(at().error_3_2(s("x")).kind(), ErrorKind::Name);
    assert_eq!(at().error_4_2(Value::Unit).kind(), ErrorKind::Type);
}

#[test]
fn errors_can_be_copied() {
    let e = ZyxtError::from_pos_and_raw(&here(), &s("raw")).error_3_0(s("x"));
    assert_eq!(e.clone(), e);
}

#[test]
fn rendering_paints_as_ansi_term_does() {
    let e = ZyxtError::from_pos_and_raw(&here(), &s("x + 1")).error_3_0(s("x"));
    let lines = e.rendered();
    assert_eq!(lines.len(), 2);
    assert_eq!(
        lines[0],
        format!(
            "{}{}",
            Style::new().on(Red).bold().paint(" 3:14 "),
            Style::new().bold().paint(" x + 1 ")
        )
    );
    assert_eq!(
        lines[1],
        format!(
            "{}{}",
            Black.on(Yellow).paint(" Error 3.0 "),
            Red.bold().paint(" Undefined variable `x`")
        )
    );
    assert_eq!(lines[0], "\u{1b}[1;41m 3:14 \u{1b}[0m\u{1b}[1m x + 1 \u{1b}[0m");
    assert_eq!(
        lines[1],
        "\u{1b}[43;30m Error 3.0 \u{1b}[0m\u{1b}[1;31m Undefined variable `x`\u{1b}[0m"
    );
}

#[test]
fn rendering_without_places_is_one_line() {
    let lines = ZyxtError::no_pos().error_0_1().rendered();
    assert_eq!(lines, vec![s("\u{1b}[43;30m Error 0.1 \u{1b}[0m\u{1b}[1;31m No file given\u{1b}[0m")]);
}

#[test]
fn trimming_follows_unicode_white_space() {
    assert_eq!(trim("  a b \t\n"), "a b");
    assert_eq!(trim("\u{2003}x\u{3000}"), "x");
    assert_eq!(trim("\u{200b}x"), "\u{200b}x");
    assert_eq!(trim(" \n "), "");
    assert_eq!(trim(""), "");
    assert_eq!(trim("é"), "é");
    for c in ['\t', '\n', '\u{b}', '\u{c}', '\r', ' ', '\u{85}', '\u{a0}', '\u{1680}', '\u{2028}', '\u{205f}'] {
        assert!(is_space_char(c));
    }
    for code in 0..0x3100u32 {
        if let Some(c) = char::from_u32(code) {
            assert_eq!(is_space_char(c), c.is_whitespace());
        }
    }
}

#[test]
fn numerals_are_decimal() {
    assert_eq!(u128_to_string(0), "0");
    assert_eq!(u128_to_string(9), "9");
    assert_eq!(u128_to_string(10), "10");
    assert_eq!(u128_to_string(u128::MAX), u128::MAX.to_string());
    assert_eq!(i128_to_string(-1), "-1");
    assert_eq!(i128_to_string(i128::MIN), i128::MIN.to_string());
    assert_eq!(i128_to_string(i128::MAX), i128::MAX.to_string());
    assert_eq!(concat2("a", "b"), "ab");
    assert_eq!(concat3("a", "", "c"), "ac");
}

#[test]
fn positions_show_line_and_column() {
    assert_eq!(Position { line: 12, column: 7 }.to_text(), "12:7");
    assert!(Position { line: 1, column: 9 }.le(&Position { line: 2, column: 1 }));
    assert!(Position { line: 2, column: 1 }.le(&Position { line: 2, column: 1 }));
    assert!(!Position { line: 2, column: 2 }.le(&Position { line: 2, column: 1 }));
}

#[test]
fn merging_spans_covers_both() {
    let p = |line, column| Position { line, column };
    let a = Span { start: p(1, 5), end: p(1, 9) };
    let b = Span { start: p(1, 2), end: p(1, 7) };
    let c = Span { start: p(2, 1), end: p(2, 3) };
    assert_eq!(merge_span(Some(a), Some(b)), Some(Span { start: p(1, 2), end: p(1, 9) }));
    assert_eq!(merge_span(Some(a), None), Some(a));
    assert_eq!(merge_span(None, Some(b)), Some(b));
    assert_eq!(merge_span(None, None), None);
    assert_eq!(
        merge_spans(&vec![None, Some(a), None, Some(c), Some(b)]),
        Some(Span { start: p(1, 2), end: p(2, 3) })
    );
    assert_eq!(merge_spans(&vec![None, None]), None);
    assert_eq!(merge_spans(&vec![]), None);
}

#[test]
fn file_cache_keeps_first_import_and_last_registration() {
    let mut cache = FileCache::new();
    assert_eq!(cache.get_input(&s("a")), None);
    assert_eq!(cache.import_file(&s("a"), s("one")), "one");
    assert_eq!(cache.import_file(&s("a"), s("two")), "one");
    assert_eq!(cache.get_input(&s("a")), Some(s("one")));
    assert_eq!(cache.register_input(&s("a"), "three"), "three");
    assert_eq!(cache.get_input(&s("a")), Some(s("three")));
    assert_eq!(cache.get_input(&s("b")), None);
}

#[test]
fn values_and_types_have_texts() {
    assert_eq!(Value::I8(-5).to_text(), "-5");
    assert_eq!(Value::U128(7).to_text(), "7");
    assert_eq!(Value::Bool(false).to_text(), "false");
    assert_eq!(Value::Str(s("hi")).to_text(), "hi");
    assert_eq!(Value::Unit.to_text(), "()");
    assert_eq!(Value::Return(Box::new(Value::I32(1))).to_text(), "1");
    assert_eq!(Value::Type(Prim::Unit.to_type()).to_text(), "_unit");
    assert_eq!(Value::Return(Box::new(Value::I32(1))).type_of(), Prim::I32.to_type());
    assert_eq!(Value::Type(zyxt::value::Type::Any).type_of(), Prim::Type.to_type());
    assert_eq!(zyxt::value::Type::Any.to_text(), "_any");
    assert_eq!(zyxt::value::Type::Definition(Prim::U8.to_definition()).to_text(), "{builtin u8}");
}
