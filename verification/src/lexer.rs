//! The state of the lexer as it walks a source text, and the tokens it
//! hands on.

use vstd::prelude::*;
use vstd::string::*;
use crate::errors::{PositionForZyxtError, ZyxtError};
use crate::position::Position;
use crate::text::{concat3, trimmed};
use crate::token::Keyword;

verus! {

/// The kind of a token.
#[derive(Clone, Copy, Debug, PartialEq, Eq, Structural)]
pub enum TokenType {
    Null,
    Variable,
    LiteralNumber,
    LiteralString,
    DotOpr,
    Bar,
    Colon,
    Comma,
    Keyword(Keyword),
}

/// A group of kinds of token.
#[derive(Clone, Copy, Debug, PartialEq, Eq, Structural)]
pub enum TokenCategory {
    Literal,
    LiteralStringStart,
    LiteralStringEnd,
}

/// A piece of the source text with its kind and its place.
#[derive(Debug, PartialEq, Eq)]
pub struct Token {
    pub value: String,
    pub type_: TokenType,
    pub position: Position,
    pub categories: Vec<TokenCategory>,
}

/// What a [`Token`] holds, as plain mathematical values.
pub struct TokenModel {
    pub value: Seq<char>,
    pub type_: TokenType,
    pub position: Position,
    pub categories: Seq<TokenCategory>,
}

impl View for Token {
    type V = TokenModel;

    open spec fn view(&self) -> TokenModel {
        TokenModel {
            value: self.value@,
            type_: self.type_,
            position: self.position,
            categories: self.categories@,
        }
    }
}

impl Clone for Token {
    fn clone(&self) -> (out: Self)
        ensures
            out@ == self@,
    {
        let mut categories: Vec<TokenCategory> = Vec::new();
        let mut i: usize = 0;
        while i < self.categories.len()
            invariant
                i <= self.categories.len(),
                categories@ == self.categories@.subrange(0, i as int),
            decreases self.categories.len() - i,
        {
            categories.push(self.categories[i]);
            i += 1;
            assert(categories@ =~= self.categories@.subrange(0, i as int));
        }
        assert(self.categories@.subrange(0, i as int) =~= self.categories@);
        Token {
            value: self.value.clone(),
            type_: self.type_,
            position: self.position,
            categories,
        }
    }
}

/// The views of a list of tokens.
pub open spec fn tokens_model(tokens: Vec<Token>) -> Seq<TokenModel> {
    Seq::new(tokens.len() as nat, |i: int| tokens[i]@)
}

impl ZyxtError {
    /// The places of an error raised at `token`.
    pub fn from_token(token: &Token) -> (out: PositionForZyxtError)
        ensures
            out@ == seq![(token.position, trimmed(token.value@))],
    {
        ZyxtError::from_pos_and_raw(&token.position, &token.value)
    }
}

/// Where the lexer stands in the source text.
#[derive(Clone, Debug, PartialEq, Eq)]
pub struct PositionTracker {
    pub filename: String,
    pub line: u32,
    pub column: u32,
    pub prev_column: u32,
    pub char_pos: u32,
}

/// What the lexer knows of the text it has walked so far.
#[derive(Clone, Debug, PartialEq, Eq)]
pub struct StateTracker {
    pub position: PositionTracker,
    pub is_literal_string: bool,
    pub literal_string_type: TokenType,
    pub prev_type: TokenType,
    pub literal_string_line: u32,
    pub literal_string_column: u32,
    pub brackets: Vec<char>,
}

/// What a [`StateTracker`] holds, as plain mathematical values.
pub struct StateModel {
    pub filename: Seq<char>,
    pub line: u32,
    pub column: u32,
    pub prev_column: u32,
    pub char_pos: u32,
    pub is_literal_string: bool,
    pub literal_string_type: TokenType,
    pub prev_type: TokenType,
    pub literal_string_line: u32,
    pub literal_string_column: u32,
    pub brackets: Seq<char>,
}

impl View for StateTracker {
    type V = StateModel;

    open spec fn view(&self) -> StateModel {
        StateModel {
            filename: self.position.filename@,
            line: self.position.line,
            column: self.position.column,
            prev_column: self.position.prev_column,
            char_pos: self.position.char_pos,
            is_literal_string: self.is_literal_string,
            literal_string_type: self.literal_string_type,
            prev_type: self.prev_type,
            literal_string_line: self.literal_string_line,
            literal_string_column: self.literal_string_column,
            brackets: self.brackets@,
        }
    }
}

impl Default for PositionTracker {
    /// The start of a text without a name: line one, column one.
    fn default() -> (out: Self)
        ensures
            out.filename@ == "[unknown]"@,
            out.line == 1,
            out.column == 1,
            out.prev_column == 0,
            out.char_pos == 0,
    {
        PositionTracker {
            filename: String::from_str("[unknown]"),
            line: 1,
            column: 1,
            prev_column: 0,
            char_pos: 0,
        }
    }
}

impl StateModel {
    /// The state at the start of a text named `filename`.
    pub open spec fn start(filename: Seq<char>) -> StateModel {
        StateModel {
            filename,
            line: 1,
            column: 1,
            prev_column: 0,
            char_pos: 0,
            is_literal_string: false,
            literal_string_type: TokenType::Null,
            prev_type: TokenType::Null,
            literal_string_line: 0,
            literal_string_column: 0,
            brackets: Seq::empty(),
        }
    }

    /// The state after the lexer has left the character `c`: a line break
    /// starts a new line at column one, any other character moves one column
    /// on, and the place in the text moves on by one.
    pub open spec fn stepped(self, c: char) -> StateModel {
        if c == '\n' {
            StateModel {
                line: (self.line + 1) as u32,
                prev_column: self.column,
                column: 1,
                char_pos: (self.char_pos + 1) as u32,
                ..self
            }
        } else {
            StateModel {
                column: (self.column + 1) as u32,
                char_pos: (self.char_pos + 1) as u32,
                ..self
            }
        }
    }
}

impl Default for StateTracker {
    /// The state at the start of a text without a name.
    fn default() -> (out: Self)
        ensures
            out@ == StateModel::start("[unknown]"@),
    {
        StateTracker {
            position: PositionTracker::default(),
            is_literal_string: false,
            literal_string_type: TokenType::Null,
            prev_type: TokenType::Null,
            literal_string_line: 0,
            literal_string_column: 0,
            brackets: Vec::new(),
        }
    }
}

/// Whether the lexer drops `c` outside a literal string.
pub open spec fn is_blank(c: char) -> bool {
    c == ' ' || c == '\n' || c == '\r'
}

/// The views of the pieces of text that the lexer has gathered.
pub open spec fn stack_model(stack: Vec<String>) -> Seq<Seq<char>> {
    Seq::new(stack.len() as nat, |i: int| stack[i]@)
}

/// Leaves the character `c` and moves on to the next character of `input`,
/// which is handed back. The next character joins `stack`, unless it is
/// blank outside a literal string. At the end of `input` there is no next
/// character, and `Err(false)` says so.
pub fn get_next_char(c: char, input: &String, stack: &mut Vec<String>, states: &mut StateTracker) -> (out:
    Result<char, bool>)
    requires
        old(states).position.line < u32::MAX,
        old(states).position.column < u32::MAX,
        old(states).position.char_pos < u32::MAX,
    ensures
        final(states)@ == old(states)@.stepped(c),
        match out {
            Ok(next) => {
                &&& final(states)@.char_pos < input@.len()
                &&& next == input@[final(states)@.char_pos as int]
                &&& stack_model(*final(stack)) == if is_blank(next) && !old(
                    states,
                ).is_literal_string {
                    stack_model(*old(stack))
                } else {
                    stack_model(*old(stack)).push(seq![next])
                }
            },
            Err(end) => {
                &&& !end
                &&& final(states)@.char_pos >= input@.len()
                &&& stack_model(*final(stack)) == stack_model(*old(stack))
            },
        },
{
    let ghost before = stack_model(*stack);
    if c == '\n' {
        states.position.line = states.position.line + 1;
        states.position.prev_column = states.position.column;
        states.position.column = 1;
    } else {
        states.position.column = states.position.column + 1;
    }
    states.position.char_pos = states.position.char_pos + 1;
    let at = states.position.char_pos as usize;
    let text = input.as_str();
    if at < text.unicode_len() {
        let next = text.get_char(at);
        let blank = next == ' ' || next == '\n' || next == '\r';
        if !blank || states.is_literal_string {
            stack.push(String::from_str(text.substring_char(at, at + 1)));
            assert(stack_model(*stack) =~= before.push(seq![next])) by {
                assert(input@.subrange(at as int, at + 1) =~= seq![next]);
            }
        }
        Ok(next)
    } else {
        Err(false)
    }
}

/// The character after the one that the lexer stands at, or the character
/// zero at the end of `input`. Nothing changes.
pub fn get_next_char_noupdate(input: &String, states: &StateTracker) -> (out: char)
    requires
        states.position.char_pos < u32::MAX,
    ensures
        out == if states.position.char_pos + 1 < input@.len() {
            input@[states.position.char_pos + 1]
        } else {
            '\0'
        },
{
    let at = (states.position.char_pos + 1) as usize;
    let text = input.as_str();
    if at < text.unicode_len() {
        text.get_char(at)
    } else {
        '\0'
    }
}

/// Whether the token at `i` is a dot between two numbers.
pub open spec fn is_decimal_point(tokens: Seq<TokenModel>, i: int) -> bool {
    &&& 0 < i < tokens.len() - 1
    &&& tokens[i].type_ == TokenType::DotOpr
    &&& tokens[i - 1].type_ == TokenType::LiteralNumber
    &&& tokens[i + 1].type_ == TokenType::LiteralNumber
}

/// The number that a dot at `i` makes of the numbers around it.
pub open spec fn decimal_token(tokens: Seq<TokenModel>, i: int) -> TokenModel {
    TokenModel {
        value: tokens[i - 1].value + "."@ + tokens[i + 1].value,
        type_: TokenType::LiteralNumber,
        position: tokens[i - 1].position,
        categories: seq![TokenCategory::Literal],
    }
}

/// The tokens from `i` on, added to `acc`: a dot between two numbers takes
/// the place of the token before it and of the token after it, as one
/// number; every other token is kept.
pub open spec fn merged_decimals(tokens: Seq<TokenModel>, i: nat, acc: Seq<TokenModel>) -> Seq<
    TokenModel,
>
    decreases tokens.len() - i,
{
    if i >= tokens.len() {
        acc
    } else if is_decimal_point(tokens, i as int) {
        merged_decimals(
            tokens,
            i + 2,
            (if acc.len() > 0 {
                acc.drop_last()
            } else {
                acc
            }).push(decimal_token(tokens, i as int)),
        )
    } else {
        merged_decimals(tokens, i + 1, acc.push(tokens[i as int]))
    }
}

/// Joins every dot between two numbers with the numbers around it.
pub fn merge_decimals(tokens: &Vec<Token>) -> (out: Vec<Token>)
    ensures
        tokens_model(out) == merged_decimals(tokens_model(*tokens), 0, Seq::empty()),
{
    let ghost all = tokens_model(*tokens);
    let mut out: Vec<Token> = Vec::new();
    assert(tokens_model(out) =~= Seq::<TokenModel>::empty());
    let mut cursor: usize = 0;
    while cursor < tokens.len()
        invariant
            all == tokens_model(*tokens),
            merged_decimals(all, 0, Seq::empty()) == merged_decimals(
                all,
                cursor as nat,
                tokens_model(out),
            ),
        decreases tokens.len() - cursor,
    {
        let ghost so_far = tokens_model(out);
        let point = tokens[cursor].type_ == TokenType::DotOpr && cursor != 0 && tokens[cursor
            - 1].type_ == TokenType::LiteralNumber && cursor != tokens.len() - 1 && tokens[cursor
            + 1].type_ == TokenType::LiteralNumber;
        assert(point == is_decimal_point(all, cursor as int));
        if point {
            let _ = out.pop();
            let mut categories: Vec<TokenCategory> = Vec::new();
            categories.push(TokenCategory::Literal);
            let joined = Token {
                value: concat3(tokens[cursor - 1].value.as_str(), ".", tokens[cursor + 1].value.as_str()),
                type_: TokenType::LiteralNumber,
                position: tokens[cursor - 1].position,
                categories,
            };
            assert(joined@.categories =~= seq![TokenCategory::Literal]);
            assert(joined@ == decimal_token(all, cursor as int));
            out.push(joined);
            assert(tokens_model(out) =~= (if so_far.len() > 0 {
                so_far.drop_last()
            } else {
                so_far
            }).push(decimal_token(all, cursor as int)));
            cursor += 2;
        } else {
            out.push(tokens[cursor].clone());
            assert(tokens_model(out) =~= so_far.push(all[cursor as int]));
            cursor += 1;
        }
    }
    out
}

/// Whether the regular expression `pattern` matches somewhere in `text`, as
/// the `regex` crate decides it. There is no answer where `pattern` is not a
/// regular expression that the crate accepts.
pub uninterp spec fn regex_match(pattern: Seq<char>, text: Seq<char>) -> Option<bool>;

/// Compiles `pattern` with `regex::Regex::new` and asks `Regex::is_match`
/// whether it matches somewhere in `text`. The contract gives the answer a
/// name and claims nothing else of it.
#[verifier::external_body]
fn is_match(pattern: &str, text: &str) -> (out: Option<bool>)
    ensures
        out == regex_match(pattern@, text@),
{
    match regex::Regex::new(pattern) {
        Ok(re) => Some(re.is_match(text)),
        Err(_) => None,
    }
}

/// What an entry of the token catalogue asks of the text: the text of the
/// token, whether the gathered text must be the token or only end with it,
/// and what the gathered text and the character after it must not match.
#[derive(Clone, Debug, PartialEq, Eq)]
pub struct EntryRule {
    pub value: String,
    pub match_whole: bool,
    pub prohibited: String,
    pub next_prohibited: String,
}

/// The first `n` pieces of gathered text in a row.
pub open spec fn joined_stack(stack: Seq<Seq<char>>, n: nat) -> Seq<char>
    decreases n,
{
    if n == 0 || n > stack.len() {
        Seq::empty()
    } else {
        joined_stack(stack, (n - 1) as nat) + stack[n - 1]
    }
}

/// Whether `text` ends with `suffix`.
pub open spec fn ends_with(text: Seq<char>, suffix: Seq<char>) -> bool {
    suffix.len() <= text.len() && text.subrange(text.len() - suffix.len(), text.len() as int)
        == suffix
}

/// The token that an entry finds in the gathered text `joined`, if it finds
/// one. It finds one where the text is not empty and is the entry's text, or
/// ends with it if the entry does not ask for the whole; the entry's
/// condition on the state holds; and the two checks against what is
/// prohibited went well. The token is the entry's text, or all of the
/// gathered text for an entry without a text of its own.
pub open spec fn entry_token(
    joined: Seq<char>,
    value: Seq<char>,
    match_whole: bool,
    condition: bool,
    next_ok: bool,
    stack_ok: bool,
) -> Option<Seq<char>> {
    if ((!match_whole && ends_with(joined, value)) || (match_whole && joined == value))
        && condition && next_ok && stack_ok && joined.len() != 0 {
        Some(
            if value.len() == 0 {
                joined
            } else {
                value
            },
        )
    } else {
        None
    }
}

/// The gathered pieces of text in a row.
pub fn join_stack(stack: &Vec<String>) -> (out: String)
    ensures
        out@ == joined_stack(stack_model(*stack), stack.len() as nat),
{
    let mut out = String::new();
    let mut i: usize = 0;
    while i < stack.len()
        invariant
            i <= stack.len(),
            out@ == joined_stack(stack_model(*stack), i as nat),
        decreases stack.len() - i,
    {
        out.append(stack[i].as_str());
        i += 1;
    }
    out
}

/// Whether `text` ends with `suffix`.
pub fn text_ends_with(text: &str, suffix: &str) -> (b: bool)
    ensures
        b == ends_with(text@, suffix@),
{
    let n = text.unicode_len();
    let m = suffix.unicode_len();
    if m > n {
        return false;
    }
    let tail = String::from_str(text.substring_char(n - m, n));
    let wanted = String::from_str(suffix);
    tail == wanted
}

/// The token that an entry finds in the gathered text, given what its
/// condition and the two checks against what is prohibited have answered.
pub fn decide_entry(
    joined: &str,
    value: &str,
    match_whole: bool,
    condition: bool,
    next_ok: bool,
    stack_ok: bool,
) -> (out: Option<String>)
    ensures
        (match out {
            Some(token) => Some(token@),
            None => None,
        }) == entry_token(joined@, value@, match_whole, condition, next_ok, stack_ok),
{
    let fits = if match_whole {
        String::from_str(joined) == String::from_str(value)
    } else {
        text_ends_with(joined, value)
    };
    if fits && condition && next_ok && stack_ok && joined.unicode_len() != 0 {
        if value.unicode_len() == 0 {
            Some(String::from_str(joined))
        } else {
            Some(String::from_str(value))
        }
    } else {
        None
    }
}

/// Whether the character after the gathered text may follow the token: there
/// is nothing to check for an entry that prohibits nothing, else the
/// character must match what the entry calls prohibited.
pub open spec fn next_allowed(next_prohibited: Seq<char>, next: Seq<char>) -> Option<bool> {
    if next_prohibited.len() == 0 {
        Some(true)
    } else {
        regex_match(next_prohibited, next)
    }
}

/// Whether the gathered text may be the token: there is nothing to check for
/// an entry that prohibits nothing, else the text must not match what the
/// entry calls prohibited.
pub open spec fn stack_allowed(prohibited: Seq<char>, joined: Seq<char>) -> Option<bool> {
    if prohibited.len() == 0 {
        Some(true)
    } else {
        match regex_match(prohibited, joined) {
            Some(found) => Some(!found),
            None => None,
        }
    }
}

/// Tries one entry of the token catalogue on the gathered text. `condition`
/// is what the entry's condition on the state has answered, and `next` holds
/// the character after the gathered text. The outer result is `None` where
/// one of the entry's patterns is not a regular expression.
pub fn match_entry(stack: &Vec<String>, rule: &EntryRule, condition: bool, next: &str) -> (out:
    Option<Option<String>>)
    ensures
        ({
            let joined = joined_stack(stack_model(*stack), stack.len() as nat);
            match (
                regex_match(rule.next_prohibited@, next@),
                regex_match(rule.prohibited@, joined),
            ) {
                (Some(_), Some(_)) => match (
                    next_allowed(rule.next_prohibited@, next@),
                    stack_allowed(rule.prohibited@, joined),
                ) {
                    (Some(next_ok), Some(stack_ok)) => out matches Some(found) && (match found {
                        Some(token) => Some(token@),
                        None => None,
                    }) == entry_token(
                        joined,
                        rule.value@,
                        rule.match_whole,
                        condition,
                        next_ok,
                        stack_ok,
                    ),
                    _ => false,
                },
                _ => out is None,
            }
        }),
{
    let joined = join_stack(stack);
    let next_found = match is_match(rule.next_prohibited.as_str(), next) {
        Some(found) => found,
        None => {
            return None;
        },
    };
    let stack_found = match is_match(rule.prohibited.as_str(), joined.as_str()) {
        Some(found) => found,
        None => {
            return None;
        },
    };
    let next_ok = rule.next_prohibited.as_str().unicode_len() == 0 || next_found;
    let stack_ok = rule.prohibited.as_str().unicode_len() == 0 || !stack_found;
    Some(
        decide_entry(
            joined.as_str(),
            rule.value.as_str(),
            rule.match_whole,
            condition,
            next_ok,
            stack_ok,
        ),
    )
}

} // verus!
