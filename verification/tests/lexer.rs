use zyxt::errors::ZyxtError;
use zyxt::lexer::{
    get_next_char, get_next_char_noupdate, merge_decimals, PositionTracker, StateTracker, Token,
    TokenCategory, TokenType,
};
use zyxt::position::Position;

fn token(value: &str, type_: TokenType, column: u32) -> Token {
    Token {
        value: String::from(value),
        type_,
        position: Position { line: 1, column },
        categories: vec![],
    }
}

fn number(value: &str, column: u32) -> Token {
    token(value, TokenType::LiteralNumber, column)
}

fn dot(column: u32) -> Token {
    token(".", TokenType::DotOpr, column)
}

fn decimal(value: &str, column: u32) -> Token {
    Token {
        value: String::from(value),
        type_: TokenType::LiteralNumber,
        position: Position { line: 1, column },
        categories: vec![TokenCategory::Literal],
    }
}

#[test]
fn trackers_start_at_line_one_column_one() {
    let position = PositionTracker::default();
    assert_eq!(position.filename, "[unknown]");
    assert_eq!((position.line, position.column, position.prev_column, position.char_pos), (1, 1, 0, 0));
    let states = StateTracker::default();
    assert_eq!(states.position, position);
    assert!(!states.is_literal_string);
    assert_eq!(states.literal_string_type, TokenType::Null);
    assert_eq!(states.prev_type, TokenType::Null);
    assert_eq!((states.literal_string_line, states.literal_string_column), (0, 0));
    assert!(states.brackets.is_empty());
}

#[test]
fn next_char_moves_on_and_gathers() {
    let input = String::from("a b\nç");
    let mut stack = vec![String::from("a")];
    let mut states = StateTracker::default();
    assert_eq!(get_next_char('a', &input, &mut stack, &mut states), Ok(' '));
    assert_eq!(stack, vec!["a"]);
    assert_eq!((states.position.line, states.position.column, states.position.char_pos), (1, 2, 1));
    assert_eq!(get_next_char(' ', &input, &mut stack, &mut states), Ok('b'));
    assert_eq!(stack, vec!["a", "b"]);
    assert_eq!(get_next_char('b', &input, &mut stack, &mut states), Ok('\n'));
    assert_eq!(stack, vec!["a", "b"]);
    assert_eq!(get_next_char('\n', &input, &mut stack, &mut states), Ok('ç'));
    assert_eq!(stack, vec!["a", "b", "ç"]);
    assert_eq!(
        (states.position.line, states.position.column, states.position.prev_column, states.position.char_pos),
        (2, 1, 4, 4)
    );
    assert_eq!(get_next_char('ç', &input, &mut stack, &mut states), Err(false));
    assert_eq!(stack, vec!["a", "b", "ç"]);
    assert_eq!((states.position.line, states.position.column, states.position.char_pos), (2, 2, 5));
}

#[test]
fn next_char_keeps_blanks_inside_literal_strings() {
    let input = String::from("\" \r\n");
    let mut stack = vec![];
    let mut states = StateTracker::default();
    states.is_literal_string = true;
    assert_eq!(get_next_char('"', &input, &mut stack, &mut states), Ok(' '));
    assert_eq!(get_next_char(' ', &input, &mut stack, &mut states), Ok('\r'));
    assert_eq!(get_next_char('\r', &input, &mut stack, &mut states), Ok('\n'));
    assert_eq!(stack, vec![" ", "\r", "\n"]);
}

#[test]
fn peeking_changes_nothing() {
    let input = String::from("ab");
    let mut states = StateTracker::default();
    let before = states.clone();
    assert_eq!(get_next_char_noupdate(&input, &states), 'b');
    assert_eq!(states, before);
    states.position.char_pos = 1;
    assert_eq!(get_next_char_noupdate(&input, &states), '\0');
    states.position.char_pos = 7;
    assert_eq!(get_next_char_noupdate(&input, &states), '\0');
}

#[test]
fn dot_between_numbers_makes_a_decimal() {
    let tokens = vec![number("1", 1), dot(2), number("5", 3)];
    assert_eq!(merge_decimals(&tokens), vec![decimal("1.5", 1)]);
    let tokens = vec![token("x", TokenType::Variable, 1), number("12", 3), dot(5), number("50", 6), dot(8)];
    assert_eq!(
        merge_decimals(&tokens),
        vec![token("x", TokenType::Variable, 1), decimal("12.50", 3), dot(8)]
    );
}

#[test]
fn other_dots_are_kept() {
    let tokens = vec![dot(1), number("5", 2)];
    assert_eq!(merge_decimals(&tokens), tokens);
    let tokens = vec![number("5", 1), dot(2)];
    assert_eq!(merge_decimals(&tokens), tokens);
    let tokens = vec![number("5", 1), dot(2), token("x", TokenType::Variable, 3)];
    assert_eq!(merge_decimals(&tokens), tokens);
    let tokens = vec![token("x", TokenType::Variable, 1), dot(2), number("5", 3)];
    assert_eq!(merge_decimals(&tokens), tokens);
    assert_eq!(merge_decimals(&vec![]), vec![]);
    assert_eq!(merge_decimals(&vec![dot(1)]), vec![dot(1)]);
}

#[test]
fn second_dot_takes_the_place_of_the_first_decimal() {
    let tokens = vec![number("1", 1), dot(2), number("2", 3), dot(4), number("3", 5)];
    assert_eq!(merge_decimals(&tokens), vec![decimal("2.3", 3)]);
}

#[test]
fn error_places_come_from_tokens() {
    let t = Token {
        value: String::from(" :=  "),
        type_: TokenType::Null,
        position: Position { line: 7, column: 3 },
        categories: vec![],
    };
    let err = ZyxtError::from_token(&t).error_2_1_5();
    assert_eq!(err.position, vec![(Position { line: 7, column: 3 }, String::from(":="))]);
    assert_eq!(err.code, "2.1.5");
}

fn rule(value: &str, match_whole: bool, prohibited: &str, next_prohibited: &str) -> zyxt::lexer::EntryRule {
    zyxt::lexer::EntryRule {
        value: String::from(value),
        match_whole,
        prohibited: String::from(prohibited),
        next_prohibited: String::from(next_prohibited),
    }
}

fn stack(pieces: &[&str]) -> Vec<String> {
    pieces.iter().map(|p| String::from(*p)).collect()
}

#[test]
fn entry_with_text_matches_the_end_of_the_stack() {
    let assign = rule(":=", false, "", "");
    assert_eq!(
        zyxt::lexer::match_entry(&stack(&["x", ":", "="]), &assign, true, "1"),
        Some(Some(String::from(":=")))
    );
    assert_eq!(zyxt::lexer::match_entry(&stack(&["x", ":"]), &assign, true, "="), Some(None));
    assert_eq!(zyxt::lexer::match_entry(&stack(&["x", ":", "="]), &assign, false, "1"), Some(None));
    assert_eq!(zyxt::lexer::match_entry(&stack(&[]), &assign, true, "1"), Some(None));
}

#[test]
fn entry_for_whole_text_matches_nothing_longer() {
    let keyword = rule("if", true, "", r"\W");
    assert_eq!(
        zyxt::lexer::match_entry(&stack(&["i", "f"]), &keyword, true, " "),
        Some(Some(String::from("if")))
    );
    assert_eq!(zyxt::lexer::match_entry(&stack(&["e", "l", "i", "f"]), &keyword, true, " "), Some(None));
    assert_eq!(zyxt::lexer::match_entry(&stack(&["i", "f"]), &keyword, true, "x"), Some(None));
}

#[test]
fn entry_without_text_takes_the_whole_stack() {
    let number = rule("", false, r"[^\d]", r"[^\d]");
    assert_eq!(
        zyxt::lexer::match_entry(&stack(&["1", "2"]), &number, true, "+"),
        Some(Some(String::from("12")))
    );
    assert_eq!(zyxt::lexer::match_entry(&stack(&["1", "2"]), &number, true, "3"), Some(None));
    assert_eq!(zyxt::lexer::match_entry(&stack(&["1", "a"]), &number, true, "+"), Some(None));
    assert_eq!(zyxt::lexer::match_entry(&stack(&[]), &number, true, "+"), Some(None));
}

#[test]
fn entry_with_broken_pattern_has_no_answer() {
    assert_eq!(zyxt::lexer::match_entry(&stack(&["a"]), &rule("a", false, "(", ""), true, "b"), None);
    assert_eq!(zyxt::lexer::match_entry(&stack(&["a"]), &rule("a", false, "", "["), true, "b"), None);
}

#[test]
fn entry_decision_follows_the_answers() {
    let decide = zyxt::lexer::decide_entry;
    assert_eq!(decide("ab", "b", false, true, true, true), Some(String::from("b")));
    assert_eq!(decide("ab", "b", true, true, true, true), None);
    assert_eq!(decide("b", "b", true, true, true, true), Some(String::from("b")));
    assert_eq!(decide("ab", "", false, true, true, true), Some(String::from("ab")));
    assert_eq!(decide("ab", "b", false, false, true, true), None);
    assert_eq!(decide("ab", "b", false, true, false, true), None);
    assert_eq!(decide("ab", "b", false, true, true, false), None);
    assert_eq!(decide("", "", false, true, true, true), None);
    assert_eq!(decide("", "", true, true, true, true), None);
    assert!(zyxt::lexer::text_ends_with("héllo", "llo"));
    assert!(zyxt::lexer::text_ends_with("héllo", ""));
    assert!(!zyxt::lexer::text_ends_with("llo", "héllo"));
    assert!(!zyxt::lexer::text_ends_with("héllo", "hél"));
    assert_eq!(zyxt::lexer::join_stack(&stack(&["a", "", "bc"])), "abc");
}
