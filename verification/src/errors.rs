//! Errors: a stable code, a message, and the places in the source that the
//! error passed on its way up.

use vstd::prelude::*;
use vstd::string::*;
use crate::describe::{type_of, type_text, value_text};
use crate::position::{Position, Span};
use crate::text::{trim, trimmed};
use crate::token::Keyword;
use crate::value::{Type, TypeModel, Value, ValueModel};

verus! {

/// An error of the language, as raised by any stage.
#[derive(Debug, PartialEq)]
pub struct ZyxtError {
    /// The places the error passed, innermost first, each with its source text.
    pub position: Vec<(Position, String)>,
    /// The code of the error's kind.
    pub code: &'static str,
    pub message: String,
}

/// The places of an error that is about to be given its kind.
#[derive(Debug, PartialEq)]
pub struct PositionForZyxtError {
    position: Vec<(Position, String)>,
}

/// What a [`ZyxtError`] holds, as plain mathematical values.
pub struct ErrorModel {
    pub position: Seq<(Position, Seq<char>)>,
    pub code: Seq<char>,
    pub message: Seq<char>,
}

/// The places of a list of annotations, each with its text as characters.
pub open spec fn annotations(v: Vec<(Position, String)>) -> Seq<(Position, Seq<char>)> {
    Seq::new(v.len() as nat, |i: int| (v[i].0, v[i].1@))
}

/// The places of an error raised at a node with span `span`, where the
/// source reads `raw`: the start of the span, or no place without a span.
pub open spec fn place(span: Option<Span>, raw: Seq<char>) -> Seq<(Position, Seq<char>)> {
    match span {
        Some(s) => seq![(s.start, trimmed(raw))],
        None => Seq::empty(),
    }
}

/// An error inside the interpreter itself, with the message `message`.
pub open spec fn internal(position: Seq<(Position, Seq<char>)>, message: Seq<char>) -> ErrorModel {
    ErrorModel::error_0_0(position, message, Seq::empty())
}

/// The kinds of error, by the first number of the code.
#[derive(Clone, Copy, Debug, PartialEq, Eq, Structural)]
pub enum ErrorKind {
    Internal,
    File,
    Syntax,
    Name,
    Type,
}

impl View for ZyxtError {
    type V = ErrorModel;

    open spec fn view(&self) -> ErrorModel {
        ErrorModel { position: annotations(self.position), code: self.code@, message: self.message@ }
    }
}

impl View for PositionForZyxtError {
    type V = Seq<(Position, Seq<char>)>;

    closed spec fn view(&self) -> Seq<(Position, Seq<char>)> {
        annotations(self.position)
    }
}

fn clone_annotations(v: &Vec<(Position, String)>) -> (out: Vec<(Position, String)>)
    ensures
        annotations(out) == annotations(*v),
{
    let mut out: Vec<(Position, String)> = Vec::new();
    let mut i: usize = 0;
    while i < v.len()
        invariant
            i <= v.len(),
            out.len() == i,
            forall|k: int| 0 <= k < i ==> out[k].0 == v[k].0 && out[k].1@ == v[k].1@,
        decreases v.len() - i,
    {
        out.push((v[i].0, v[i].1.clone()));
        i += 1;
    }
    assert(annotations(out) =~= annotations(*v));
    out
}

impl Clone for ZyxtError {
    fn clone(&self) -> (out: Self)
        ensures
            out@ == self@,
    {
        ZyxtError {
            position: clone_annotations(&self.position),
            code: self.code,
            message: self.message.clone(),
        }
    }
}

impl ZyxtError {
    /// The places of an error raised at `pos`, where the source reads `raw`.
    pub fn from_pos_and_raw(pos: &Position, raw: &String) -> (out: PositionForZyxtError)
        ensures
            out@ == seq![(*pos, trimmed(raw@))],
    {
        let mut position: Vec<(Position, String)> = Vec::new();
        position.push((*pos, trim(raw.as_str())));
        let out = PositionForZyxtError { position };
        assert(out@ =~= seq![(*pos, trimmed(raw@))]);
        out
    }

    /// The places of an error raised at a node with span `span`, where the
    /// source reads `raw`.
    pub fn from_span(span: Option<Span>, raw: &str) -> (out: PositionForZyxtError)
        ensures
            out@ == place(span, raw@),
    {
        let mut position: Vec<(Position, String)> = Vec::new();
        match span {
            Some(s) => {
                position.push((s.start, trim(raw)));
            },
            None => {},
        }
        let out = PositionForZyxtError { position };
        assert(out@ =~= place(span, raw@));
        out
    }

    /// The places of an error that has no place in the source.
    pub fn no_pos() -> (out: PositionForZyxtError)
        ensures
            out@ == Seq::<(Position, Seq<char>)>::empty(),
    {
        let out = PositionForZyxtError { position: Vec::new() };
        assert(out@ =~= Seq::<(Position, Seq<char>)>::empty());
        out
    }

    /// The same error with one more place behind those it already has: the
    /// place of the construct that passes the error on.
    pub fn with_pos_and_raw(self, pos: &Position, raw: &String) -> (out: ZyxtError)
        ensures
            out@ == self@.passed(*pos, trimmed(raw@)),
    {
        let mut position = self.position;
        position.push((*pos, trim(raw.as_str())));
        let out = ZyxtError { position, code: self.code, message: self.message };
        assert(out@.position =~= self@.passed(*pos, trimmed(raw@)).position);
        out
    }

    /// The kind of the error.
    pub fn kind(&self) -> (kind: ErrorKind)
        ensures
            kind == self@.kind(),
    {
        if self.code.unicode_len() == 0 {
            return ErrorKind::Internal;
        }
        let first = self.code.get_char(0);
        if first == '1' {
            ErrorKind::File
        } else if first == '2' {
            ErrorKind::Syntax
        } else if first == '3' {
            ErrorKind::Name
        } else if first == '4' {
            ErrorKind::Type
        } else {
            ErrorKind::Internal
        }
    }
}

impl ErrorModel {
    /// The error after it passed one more place.
    pub open spec fn passed(self, pos: Position, raw: Seq<char>) -> ErrorModel {
        ErrorModel { position: self.position.push((pos, raw)), ..self }
    }

    /// The kind of the error, by the first character of its code.
    pub open spec fn kind(self) -> ErrorKind {
        if self.code.len() == 0 {
            ErrorKind::Internal
        } else if self.code[0] == '1' {
            ErrorKind::File
        } else if self.code[0] == '2' {
            ErrorKind::Syntax
        } else if self.code[0] == '3' {
            ErrorKind::Name
        } else if self.code[0] == '4' {
            ErrorKind::Type
        } else {
            ErrorKind::Internal
        }
    }


    /// An error inside the interpreter itself.
    pub open spec fn error_0_0(position: Seq<(Position, Seq<char>)>, error: Seq<char>, backtrace: Seq<char>) -> ErrorModel {
        ErrorModel { position, code: "0.0"@, message: "Internal error: \n"@ + error + "\n"@ + backtrace + "\n\nThis shouldn't happen! Open an issue on our Github repo page: [TODO]"@ }
    }

    /// No file given.
    pub open spec fn error_0_1(position: Seq<(Position, Seq<char>)>) -> ErrorModel {
        ErrorModel { position, code: "0.1"@, message: "No file given"@ }
    }

    /// The file does not exist.
    pub open spec fn error_1_0(position: Seq<(Position, Seq<char>)>, filename: Seq<char>) -> ErrorModel {
        ErrorModel { position, code: "1.0"@, message: "File `"@ + filename + "` does not exist"@ }
    }

    /// The file cannot be opened.
    pub open spec fn error_1_1(position: Seq<(Position, Seq<char>)>, filename: Seq<char>) -> ErrorModel {
        ErrorModel { position, code: "1.1"@, message: "File `"@ + filename + "` cannot be opened"@ }
    }

    /// A directory was given in place of a file.
    pub open spec fn error_1_2(position: Seq<(Position, Seq<char>)>, dirname: Seq<char>) -> ErrorModel {
        ErrorModel { position, code: "1.2"@, message: "Directory given (Got `"@ + dirname + "`)"@ }
    }

    /// Two parentheses closed in the wrong order.
    pub open spec fn error_2_0_0(position: Seq<(Position, Seq<char>)>, paren1: Seq<char>, paren2: Seq<char>) -> ErrorModel {
        ErrorModel { position, code: "2.0.0"@, message: "Parentheses `"@ + paren1 + "` and `"@ + paren2 + "` not closed properly; try swapping them"@ }
    }

    /// A parenthesis that is never closed.
    pub open spec fn error_2_0_1(position: Seq<(Position, Seq<char>)>, paren: Seq<char>) -> ErrorModel {
        ErrorModel { position, code: "2.0.1"@, message: "Parenthesis `"@ + paren + "` not closed"@ }
    }

    /// A parenthesis that was never opened.
    pub open spec fn error_2_0_2(position: Seq<(Position, Seq<char>)>, paren: Seq<char>) -> ErrorModel {
        ErrorModel { position, code: "2.0.2"@, message: "Parenthesis `"@ + paren + "` not opened"@ }
    }

    /// An unexpected ident.
    pub open spec fn error_2_1_0(position: Seq<(Position, Seq<char>)>, ident: Seq<char>) -> ErrorModel {
        ErrorModel { position, code: "2.1.0"@, message: "Unexpected ident `"@ + ident + "`"@ }
    }

    /// An ident that the lexer does not know.
    pub open spec fn error_2_1_1(position: Seq<(Position, Seq<char>)>, ident: Seq<char>) -> ErrorModel {
        ErrorModel { position, code: "2.1.1"@, message: "Ident `"@ + ident + "` not recognised by lexer"@ }
    }

    /// A dot at the end of an expression.
    pub open spec fn error_2_1_2(position: Seq<(Position, Seq<char>)>) -> ErrorModel {
        ErrorModel { position, code: "2.1.2"@, message: "Stray `.` at end of expression"@ }
    }

    /// A binary operator at the start or end of an expression.
    pub open spec fn error_2_1_3(position: Seq<(Position, Seq<char>)>, ident: Seq<char>) -> ErrorModel {
        ErrorModel { position, code: "2.1.3"@, message: "Stray `"@ + ident + "` binary operator at start/end of expression"@ }
    }

    /// A unary operator at the start or end of an expression.
    pub open spec fn error_2_1_4(position: Seq<(Position, Seq<char>)>, ident: Seq<char>) -> ErrorModel {
        ErrorModel { position, code: "2.1.4"@, message: "Stray `"@ + ident + "` unary operator at start/end of expression"@ }
    }

    /// A declaration sign at the start or end of an expression.
    pub open spec fn error_2_1_5(position: Seq<(Position, Seq<char>)>) -> ErrorModel {
        ErrorModel { position, code: "2.1.5"@, message: "Stray `:=` at start/end of expression"@ }
    }

    /// Something other than a flag between the first flag and the declared variable.
    pub open spec fn error_2_1_6(position: Seq<(Position, Seq<char>)>, ident: Seq<char>) -> ErrorModel {
        ErrorModel { position, code: "2.1.6"@, message: "Stray `"@ + ident + "` between first flag and declared variable"@ }
    }

    /// An `else` or `elif` after the `else` branch.
    pub open spec fn error_2_1_7(position: Seq<(Position, Seq<char>)>, ident: Seq<char>) -> ErrorModel {
        ErrorModel { position, code: "2.1.7"@, message: "`"@ + ident + "` detected after `else` keyword"@ }
    }

    /// Something other than a block where a block must stand.
    pub open spec fn error_2_1_8(position: Seq<(Position, Seq<char>)>, ident: Seq<char>) -> ErrorModel {
        ErrorModel { position, code: "2.1.8"@, message: "Block expected, not `"@ + ident + "`"@ }
    }

    /// An `else` or `elif` without an `if`.
    pub open spec fn error_2_1_9(position: Seq<(Position, Seq<char>)>, ident: Seq<char>) -> ErrorModel {
        ErrorModel { position, code: "2.1.9"@, message: "Stray `"@ + ident + "` without starting `if`"@ }
    }

    /// A comment mark without its partner.
    pub open spec fn error_2_1_10(position: Seq<(Position, Seq<char>)>, ident: Seq<char>) -> ErrorModel {
        ErrorModel { position, code: "2.1.10"@, message: "Stray unclosed/unopened `"@ + ident + "`"@ }
    }

    /// A deletion of something that is not a variable.
    pub open spec fn error_2_1_11(position: Seq<(Position, Seq<char>)>, ident: Seq<char>) -> ErrorModel {
        ErrorModel { position, code: "2.1.11"@, message: "Only variables can be deleted (Got `"@ + ident + "`)"@ }
    }

    /// A deletion of a dereferenced variable.
    pub open spec fn error_2_1_12(position: Seq<(Position, Seq<char>)>, ident: Seq<char>) -> ErrorModel {
        ErrorModel { position, code: "2.1.12"@, message: "Cannot delete dereferenced variable (Got `"@ + ident + "`)"@ }
    }

    /// An opening bar that is never closed.
    pub open spec fn error_2_1_13(position: Seq<(Position, Seq<char>)>) -> ErrorModel {
        ErrorModel { position, code: "2.1.13"@, message: "Opening bar not closed"@ }
    }

    /// Values after the default value of a parameter.
    pub open spec fn error_2_1_14(position: Seq<(Position, Seq<char>)>, ident: Seq<char>) -> ErrorModel {
        ErrorModel { position, code: "2.1.14"@, message: "Extra values past default value (Got `"@ + ident + "`)"@ }
    }

    /// A parameter name that is not a variable.
    pub open spec fn error_2_1_15(position: Seq<(Position, Seq<char>)>, ident: Seq<char>) -> ErrorModel {
        ErrorModel { position, code: "2.1.15"@, message: "Variable name isn't variable (Got `"@ + ident + "`)"@ }
    }

    /// `pre` at the end of a line.
    pub open spec fn error_2_1_16(position: Seq<(Position, Seq<char>)>) -> ErrorModel {
        ErrorModel { position, code: "2.1.16"@, message: "`pre` at end of line"@ }
    }

    /// Parameters after the `class` keyword.
    pub open spec fn error_2_1_17(position: Seq<(Position, Seq<char>)>) -> ErrorModel {
        ErrorModel { position, code: "2.1.17"@, message: "Parameters found after `class` keyword"@ }
    }

    /// A keyword that is not followed by a block.
    pub open spec fn error_2_1_18(position: Seq<(Position, Seq<char>)>, kwd: Keyword) -> ErrorModel {
        ErrorModel { position, code: "2.1.18"@, message: "Block expected after `"@ + kwd.text() + "`"@ }
    }

    /// A declaration or assignment whose target is not a name.
    pub open spec fn error_2_2(position: Seq<(Position, Seq<char>)>) -> ErrorModel {
        ErrorModel { position, code: "2.2"@, message: "Assignment without variable name"@ }
    }

    /// A parameter without an argument.
    pub open spec fn error_2_3(position: Seq<(Position, Seq<char>)>, arg: Seq<char>) -> ErrorModel {
        ErrorModel { position, code: "2.3"@, message: "Unfilled argument `"@ + arg + "`"@ }
    }

    /// A name that no visible scope defines.
    pub open spec fn error_3_0(position: Seq<(Position, Seq<char>)>, varname: Seq<char>) -> ErrorModel {
        ErrorModel { position, code: "3.0"@, message: "Undefined variable `"@ + varname + "`"@ }
    }

    /// An attribute that a type lacks, found while type checking; `parent` is the source text of the expression.
    pub open spec fn error_3_1_0(position: Seq<(Position, Seq<char>)>, parent: Seq<char>, parent_type: TypeModel, attribute: Seq<char>) -> ErrorModel {
        ErrorModel { position, code: "3.1.0"@, message: "`"@ + trimmed(parent) + "` (type `"@ + type_text(parent_type) + "`) has no attribute `"@ + attribute + "`"@ }
    }

    /// An attribute that a value's type lacks, found while interpreting.
    pub open spec fn error_3_1_1(position: Seq<(Position, Seq<char>)>, parent: ValueModel, attribute: Seq<char>) -> ErrorModel {
        ErrorModel { position, code: "3.1.1"@, message: "`"@ + value_text(parent) + "` (type `"@ + type_text(type_of(parent)) + "`) has no attribute `"@ + attribute + "`"@ }
    }

    /// An assignment to a name of the constants scope.
    pub open spec fn error_3_2(position: Seq<(Position, Seq<char>)>, varname: Seq<char>) -> ErrorModel {
        ErrorModel { position, code: "3.2"@, message: "Cannot assign to constant `"@ + varname + "`"@ }
    }

    /// A binary operator that the operand types do not implement.
    pub open spec fn error_4_0_0(position: Seq<(Position, Seq<char>)>, operator: Seq<char>, type1: Seq<char>, type2: Seq<char>) -> ErrorModel {
        ErrorModel { position, code: "4.0.0"@, message: "Operator "@ + operator + " not implemented for types `"@ + type1 + "`, `"@ + type2 + "`"@ }
    }

    /// A unary operator that the operand type does not implement.
    pub open spec fn error_4_0_1(position: Seq<(Position, Seq<char>)>, operator: Seq<char>, type_: Seq<char>) -> ErrorModel {
        ErrorModel { position, code: "4.0.1"@, message: "Operator "@ + operator + " not implemented for type `"@ + type_ + "`"@ }
    }

    /// A binary operation that failed on its operands.
    pub open spec fn error_4_1_0(position: Seq<(Position, Seq<char>)>, operator: Seq<char>, value1: ValueModel, value2: ValueModel) -> ErrorModel {
        ErrorModel { position, code: "4.1.0"@, message: "Operator "@ + operator + " unsuccessful on `"@ + value_text(value1) + "` (type `"@ + type_text(type_of(value1)) + "`), `"@ + value_text(value2) + "` (type `"@ + type_text(type_of(value2)) + "`)"@ }
    }

    /// A unary operation that failed on its operand.
    pub open spec fn error_4_1_1(position: Seq<(Position, Seq<char>)>, operator: Seq<char>, value: ValueModel) -> ErrorModel {
        ErrorModel { position, code: "4.1.1"@, message: "Operator "@ + operator + " unsuccessful on `"@ + value_text(value) + "` (type `"@ + type_text(type_of(value)) + "`)"@ }
    }

    /// A script that ends in a value that is not an `i32`.
    pub open spec fn error_4_2(position: Seq<(Position, Seq<char>)>, value: ValueModel) -> ErrorModel {
        ErrorModel { position, code: "4.2"@, message: "Non-i32 script return value detected (Got `"@ + value_text(value) + "`)"@ }
    }

    /// A value assigned to a variable of another type.
    pub open spec fn error_4_3(position: Seq<(Position, Seq<char>)>, variable: Seq<char>, var_type: TypeModel, value_type: TypeModel) -> ErrorModel {
        ErrorModel { position, code: "4.3"@, message: "Value of type `"@ + type_text(value_type) + "` assigned to variable `"@ + variable + "` of type `"@ + type_text(var_type) + "`"@ }
    }

    /// A block that returns values of two types.
    pub open spec fn error_4_t(position: Seq<(Position, Seq<char>)>, block_type: TypeModel, return_type: TypeModel) -> ErrorModel {
        ErrorModel { position, code: "4.4"@, message: "Block returns variable of type `"@ + type_text(block_type) + "` earlier on, but also returns variable of type `"@ + type_text(return_type) + "`"@ }
    }
}

impl PositionForZyxtError {
    /// An error inside the interpreter itself, with the message `message`.
    pub fn internal(self, message: &str) -> (out: ZyxtError)
        ensures
            out@ == internal(self@, message@),
    {
        self.error_0_0(String::from_str(message), String::new())
    }

    /// An error inside the interpreter itself.
    pub fn error_0_0(self, error: String, backtrace: String) -> (out: ZyxtError)
        ensures
            out@ == ErrorModel::error_0_0(self@, error@, backtrace@),
    {
        let mut message = String::from_str("Internal error: \n");
        message.append(error.as_str());
        message.append("\n");
        message.append(backtrace.as_str());
        message.append("\n\nThis shouldn't happen! Open an issue on our Github repo page: [TODO]");
        ZyxtError { position: self.position, code: "0.0", message }
    }

    /// No file given.
    pub fn error_0_1(self) -> (out: ZyxtError)
        ensures
            out@ == ErrorModel::error_0_1(self@),
    {
        ZyxtError { position: self.position, code: "0.1", message: String::from_str("No file given") }
    }

    /// The file does not exist.
    pub fn error_1_0(self, filename: String) -> (out: ZyxtError)
        ensures
            out@ == ErrorModel::error_1_0(self@, filename@),
    {
        let mut message = String::from_str("File `");
        message.append(filename.as_str());
        message.append("` does not exist");
        ZyxtError { position: self.position, code: "1.0", message }
    }

    /// The file cannot be opened.
    pub fn error_1_1(self, filename: String) -> (out: ZyxtError)
        ensures
            out@ == ErrorModel::error_1_1(self@, filename@),
    {
        let mut message = String::from_str("File `");
        message.append(filename.as_str());
        message.append("` cannot be opened");
        ZyxtError { position: self.position, code: "1.1", message }
    }

    /// A directory was given in place of a file.
    pub fn error_1_2(self, dirname: String) -> (out: ZyxtError)
        ensures
            out@ == ErrorModel::error_1_2(self@, dirname@),
    {
        let mut message = String::from_str("Directory given (Got `");
        message.append(dirname.as_str());
        message.append("`)");
        ZyxtError { position: self.position, code: "1.2", message }
    }

    /// Two parentheses closed in the wrong order.
    pub fn error_2_0_0(self, paren1: String, paren2: String) -> (out: ZyxtError)
        ensures
            out@ == ErrorModel::error_2_0_0(self@, paren1@, paren2@),
    {
        let mut message = String::from_str("Parentheses `");
        message.append(paren1.as_str());
        message.append("` and `");
        message.append(paren2.as_str());
        message.append("` not closed properly; try swapping them");
        ZyxtError { position: self.position, code: "2.0.0", message }
    }

    /// A parenthesis that is never closed.
    pub fn error_2_0_1(self, paren: String) -> (out: ZyxtError)
        ensures
            out@ == ErrorModel::error_2_0_1(self@, paren@),
    {
        let mut message = String::from_str("Parenthesis `");
        message.append(paren.as_str());
        message.append("` not closed");
        ZyxtError { position: self.position, code: "2.0.1", message }
    }

    /// A parenthesis that was never opened.
    pub fn error_2_0_2(self, paren: String) -> (out: ZyxtError)
        ensures
            out@ == ErrorModel::error_2_0_2(self@, paren@),
    {
        let mut message = String::from_str("Parenthesis `");
        message.append(paren.as_str());
        message.append("` not opened");
        ZyxtError { position: self.position, code: "2.0.2", message }
    }

    /// An unexpected ident.
    pub fn error_2_1_0(self, ident: String) -> (out: ZyxtError)
        ensures
            out@ == ErrorModel::error_2_1_0(self@, ident@),
    {
        let mut message = String::from_str("Unexpected ident `");
        message.append(ident.as_str());
        message.append("`");
        ZyxtError { position: self.position, code: "2.1.0", message }
    }

    /// An ident that the lexer does not know.
    pub fn error_2_1_1(self, ident: String) -> (out: ZyxtError)
        ensures
            out@ == ErrorModel::error_2_1_1(self@, ident@),
    {
        let mut message = String::from_str("Ident `");
        message.append(ident.as_str());
        message.append("` not recognised by lexer");
        ZyxtError { position: self.position, code: "2.1.1", message }
    }

    /// A dot at the end of an expression.
    pub fn error_2_1_2(self) -> (out: ZyxtError)
        ensures
            out@ == ErrorModel::error_2_1_2(self@),
    {
        ZyxtError { position: self.position, code: "2.1.2", message: String::from_str("Stray `.` at end of expression") }
    }

    /// A binary operator at the start or end of an expression.
    pub fn error_2_1_3(self, ident: String) -> (out: ZyxtError)
        ensures
            out@ == ErrorModel::error_2_1_3(self@, ident@),
    {
        let mut message = String::from_str("Stray `");
        message.append(ident.as_str());
        message.append("` binary operator at start/end of expression");
        ZyxtError { position: self.position, code: "2.1.3", message }
    }

    /// A unary operator at the start or end of an expression.
    pub fn error_2_1_4(self, ident: String) -> (out: ZyxtError)
        ensures
            out@ == ErrorModel::error_2_1_4(self@, ident@),
    {
        let mut message = String::from_str("Stray `");
        message.append(ident.as_str());
        message.append("` unary operator at start/end of expression");
        ZyxtError { position: self.position, code: "2.1.4", message }
    }

    /// A declaration sign at the start or end of an expression.
    pub fn error_2_1_5(self) -> (out: ZyxtError)
        ensures
            out@ == ErrorModel::error_2_1_5(self@),
    {
        ZyxtError { position: self.position, code: "2.1.5", message: String::from_str("Stray `:=` at start/end of expression") }
    }

    /// Something other than a flag between the first flag and the declared variable.
    pub fn error_2_1_6(self, ident: String) -> (out: ZyxtError)
        ensures
            out@ == ErrorModel::error_2_1_6(self@, ident@),
    {
        let mut message = String::from_str("Stray `");
        message.append(ident.as_str());
        message.append("` between first flag and declared variable");
        ZyxtError { position: self.position, code: "2.1.6", message }
    }

    /// An `else` or `elif` after the `else` branch.
    pub fn error_2_1_7(self, ident: String) -> (out: ZyxtError)
        ensures
            out@ == ErrorModel::error_2_1_7(self@, ident@),
    {
        let mut message = String::from_str("`");
        message.append(ident.as_str());
        message.append("` detected after `else` keyword");
        ZyxtError { position: self.position, code: "2.1.7", message }
    }

    /// Something other than a block where a block must stand.
    pub fn error_2_1_8(self, ident: String) -> (out: ZyxtError)
        ensures
            out@ == ErrorModel::error_2_1_8(self@, ident@),
    {
        let mut message = String::from_str("Block expected, not `");
        message.append(ident.as_str());
        message.append("`");
        ZyxtError { position: self.position, code: "2.1.8", message }
    }

    /// An `else` or `elif` without an `if`.
    pub fn error_2_1_9(self, ident: String) -> (out: ZyxtError)
        ensures
            out@ == ErrorModel::error_2_1_9(self@, ident@),
    {
        let mut message = String::from_str("Stray `");
        message.append(ident.as_str());
        message.append("` without starting `if`");
        ZyxtError { position: self.position, code: "2.1.9", message }
    }

    /// A comment mark without its partner.
    pub fn error_2_1_10(self, ident: String) -> (out: ZyxtError)
        ensures
            out@ == ErrorModel::error_2_1_10(self@, ident@),
    {
        let mut message = String::from_str("Stray unclosed/unopened `");
        message.append(ident.as_str());
        message.append("`");
        ZyxtError { position: self.position, code: "2.1.10", message }
    }

    /// A deletion of something that is not a variable.
    pub fn error_2_1_11(self, ident: String) -> (out: ZyxtError)
        ensures
            out@ == ErrorModel::error_2_1_11(self@, ident@),
    {
        let mut message = String::from_str("Only variables can be deleted (Got `");
        message.append(ident.as_str());
        message.append("`)");
        ZyxtError { position: self.position, code: "2.1.11", message }
    }

    /// A deletion of a dereferenced variable.
    pub fn error_2_1_12(self, ident: String) -> (out: ZyxtError)
        ensures
            out@ == ErrorModel::error_2_1_12(self@, ident@),
    {
        let mut message = String::from_str("Cannot delete dereferenced variable (Got `");
        message.append(ident.as_str());
        message.append("`)");
        ZyxtError { position: self.position, code: "2.1.12", message }
    }

    /// An opening bar that is never closed.
    pub fn error_2_1_13(self) -> (out: ZyxtError)
        ensures
            out@ == ErrorModel::error_2_1_13(self@),
    {
        ZyxtError { position: self.position, code: "2.1.13", message: String::from_str("Opening bar not closed") }
    }

    /// Values after the default value of a parameter.
    pub fn error_2_1_14(self, ident: String) -> (out: ZyxtError)
        ensures
            out@ == ErrorModel::error_2_1_14(self@, ident@),
    {
        let mut message = String::from_str("Extra values past default value (Got `");
        message.append(ident.as_str());
        message.append("`)");
        ZyxtError { position: self.position, code: "2.1.14", message }
    }

    /// A parameter name that is not a variable.
    pub fn error_2_1_15(self, ident: String) -> (out: ZyxtError)
        ensures
            out@ == ErrorModel::error_2_1_15(self@, ident@),
    {
        let mut message = String::from_str("Variable name isn't variable (Got `");
        message.append(ident.as_str());
        message.append("`)");
        ZyxtError { position: self.position, code: "2.1.15", message }
    }

    /// `pre` at the end of a line.
    pub fn error_2_1_16(self) -> (out: ZyxtError)
        ensures
            out@ == ErrorModel::error_2_1_16(self@),
    {
        ZyxtError { position: self.position, code: "2.1.16", message: String::from_str("`pre` at end of line") }
    }

    /// Parameters after the `class` keyword.
    pub fn error_2_1_17(self) -> (out: ZyxtError)
        ensures
            out@ == ErrorModel::error_2_1_17(self@),
    {
        ZyxtError { position: self.position, code: "2.1.17", message: String::from_str("Parameters found after `class` keyword") }
    }

    /// A keyword that is not followed by a block.
    pub fn error_2_1_18(self, kwd: &Keyword) -> (out: ZyxtError)
        ensures
            out@ == ErrorModel::error_2_1_18(self@, *kwd),
    {
        let mut message = String::from_str("Block expected after `");
        message.append(kwd.name());
        message.append("`");
        ZyxtError { position: self.position, code: "2.1.18", message }
    }

    /// A declaration or assignment whose target is not a name.
    pub fn error_2_2(self) -> (out: ZyxtError)
        ensures
            out@ == ErrorModel::error_2_2(self@),
    {
        ZyxtError { position: self.position, code: "2.2", message: String::from_str("Assignment without variable name") }
    }

    /// A parameter without an argument.
    pub fn error_2_3(self, arg: String) -> (out: ZyxtError)
        ensures
            out@ == ErrorModel::error_2_3(self@, arg@),
    {
        let mut message = String::from_str("Unfilled argument `");
        message.append(arg.as_str());
        message.append("`");
        ZyxtError { position: self.position, code: "2.3", message }
    }

    /// A name that no visible scope defines.
    pub fn error_3_0(self, varname: String) -> (out: ZyxtError)
        ensures
            out@ == ErrorModel::error_3_0(self@, varname@),
    {
        let mut message = String::from_str("Undefined variable `");
        message.append(varname.as_str());
        message.append("`");
        ZyxtError { position: self.position, code: "3.0", message }
    }

    /// An attribute that a type lacks, found while type checking; `parent` is the source text of the expression.
    pub fn error_3_1_0(self, parent: String, parent_type: Type, attribute: String) -> (out: ZyxtError)
        ensures
            out@ == ErrorModel::error_3_1_0(self@, parent@, parent_type@, attribute@),
    {
        let mut message = String::from_str("`");
        message.append(trim(parent.as_str()).as_str());
        message.append("` (type `");
        message.append(parent_type.to_text().as_str());
        message.append("`) has no attribute `");
        message.append(attribute.as_str());
        message.append("`");
        ZyxtError { position: self.position, code: "3.1.0", message }
    }

    /// An attribute that a value's type lacks, found while interpreting.
    pub fn error_3_1_1(self, parent: Value, attribute: String) -> (out: ZyxtError)
        ensures
            out@ == ErrorModel::error_3_1_1(self@, parent@, attribute@),
    {
        let mut message = String::from_str("`");
        message.append(parent.to_text().as_str());
        message.append("` (type `");
        message.append(parent.type_of().to_text().as_str());
        message.append("`) has no attribute `");
        message.append(attribute.as_str());
        message.append("`");
        ZyxtError { position: self.position, code: "3.1.1", message }
    }

    /// An assignment to a name of the constants scope.
    pub fn error_3_2(self, varname: String) -> (out: ZyxtError)
        ensures
            out@ == ErrorModel::error_3_2(self@, varname@),
    {
        let mut message = String::from_str("Cannot assign to constant `");
        message.append(varname.as_str());
        message.append("`");
        ZyxtError { position: self.position, code: "3.2", message }
    }

    /// A binary operator that the operand types do not implement.
    pub fn error_4_0_0(self, operator: String, type1: String, type2: String) -> (out: ZyxtError)
        ensures
            out@ == ErrorModel::error_4_0_0(self@, operator@, type1@, type2@),
    {
        let mut message = String::from_str("Operator ");
        message.append(operator.as_str());
        message.append(" not implemented for types `");
        message.append(type1.as_str());
        message.append("`, `");
        message.append(type2.as_str());
        message.append("`");
        ZyxtError { position: self.position, code: "4.0.0", message }
    }

    /// A unary operator that the operand type does not implement.
    pub fn error_4_0_1(self, operator: String, type_: String) -> (out: ZyxtError)
        ensures
            out@ == ErrorModel::error_4_0_1(self@, operator@, type_@),
    {
        let mut message = String::from_str("Operator ");
        message.append(operator.as_str());
        message.append(" not implemented for type `");
        message.append(type_.as_str());
        message.append("`");
        ZyxtError { position: self.position, code: "4.0.1", message }
    }

    /// A binary operation that failed on its operands.
    pub fn error_4_1_0(self, operator: String, value1: Value, value2: Value) -> (out: ZyxtError)
        ensures
            out@ == ErrorModel::error_4_1_0(self@, operator@, value1@, value2@),
    {
        let mut message = String::from_str("Operator ");
        message.append(operator.as_str());
        message.append(" unsuccessful on `");
        message.append(value1.to_text().as_str());
        message.append("` (type `");
        message.append(value1.type_of().to_text().as_str());
        message.append("`), `");
        message.append(value2.to_text().as_str());
        message.append("` (type `");
        message.append(value2.type_of().to_text().as_str());
        message.append("`)");
        ZyxtError { position: self.position, code: "4.1.0", message }
    }

    /// A unary operation that failed on its operand.
    pub fn error_4_1_1(self, operator: String, value: Value) -> (out: ZyxtError)
        ensures
            out@ == ErrorModel::error_4_1_1(self@, operator@, value@),
    {
        let mut message = String::from_str("Operator ");
        message.append(operator.as_str());
        message.append(" unsuccessful on `");
        message.append(value.to_text().as_str());
        message.append("` (type `");
        message.append(value.type_of().to_text().as_str());
        message.append("`)");
        ZyxtError { position: self.position, code: "4.1.1", message }
    }

    /// A script that ends in a value that is not an `i32`.
    pub fn error_4_2(self, value: Value) -> (out: ZyxtError)
        ensures
            out@ == ErrorModel::error_4_2(self@, value@),
    {
        let mut message = String::from_str("Non-i32 script return value detected (Got `");
        message.append(value.to_text().as_str());
        message.append("`)");
        ZyxtError { position: self.position, code: "4.2", message }
    }

    /// A value assigned to a variable of another type.
    pub fn error_4_3(self, variable: String, var_type: Type, value_type: Type) -> (out: ZyxtError)
        ensures
            out@ == ErrorModel::error_4_3(self@, variable@, var_type@, value_type@),
    {
        let mut message = String::from_str("Value of type `");
        message.append(value_type.to_text().as_str());
        message.append("` assigned to variable `");
        message.append(variable.as_str());
        message.append("` of type `");
        message.append(var_type.to_text().as_str());
        message.append("`");
        ZyxtError { position: self.position, code: "4.3", message }
    }

    /// A block that returns values of two types.
    pub fn error_4_t(self, block_type: Type, return_type: Type) -> (out: ZyxtError)
        ensures
            out@ == ErrorModel::error_4_t(self@, block_type@, return_type@),
    {
        let mut message = String::from_str("Block returns variable of type `");
        message.append(block_type.to_text().as_str());
        message.append("` earlier on, but also returns variable of type `");
        message.append(return_type.to_text().as_str());
        message.append("`");
        ZyxtError { position: self.position, code: "4.4", message }
    }
}

} // verus!
