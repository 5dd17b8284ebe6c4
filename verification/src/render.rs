//! How an error looks on a terminal: coloured lines, ready to be printed.

use vstd::prelude::*;
use vstd::string::*;
use crate::errors::ZyxtError;
use crate::position::Position;
use crate::text::{concat2, concat3};

verus! {

/// A colour of the terminal.
#[derive(Clone, Copy, Debug, PartialEq, Eq, Structural)]
pub enum Color {
    Black,
    Red,
    Yellow,
}

/// How a piece of text is to look.
#[derive(Clone, Copy, Debug, PartialEq, Eq, Structural)]
pub struct TextStyle {
    pub foreground: Option<Color>,
    pub background: Option<Color>,
    pub bold: bool,
}

/// The last digit of a colour's code.
pub open spec fn color_digit(c: Color) -> char {
    match c {
        Color::Black => '0',
        Color::Red => '1',
        Color::Yellow => '3',
    }
}

/// The codes of a style, in the order in which the terminal gets them:
/// bold, then the background, then the foreground.
pub open spec fn style_codes(style: TextStyle) -> Seq<Seq<char>> {
    (if style.bold {
        seq![seq!['1']]
    } else {
        Seq::empty()
    }) + (match style.background {
        Some(c) => seq![seq!['4', color_digit(c)]],
        None => Seq::empty(),
    }) + (match style.foreground {
        Some(c) => seq![seq!['3', color_digit(c)]],
        None => Seq::empty(),
    })
}

/// The first `n` codes with a semicolon between them.
pub open spec fn joined_codes(codes: Seq<Seq<char>>, n: nat) -> Seq<char>
    decreases n,
{
    if n == 0 || n > codes.len() {
        Seq::empty()
    } else if n == 1 {
        codes[0]
    } else {
        joined_codes(codes, (n - 1) as nat) + seq![';'] + codes[n - 1]
    }
}

/// The text with the escape sequences that give it the style: the codes
/// before it and a reset after it. Text without a style stays as it is.
pub open spec fn painted(style: TextStyle, text: Seq<char>) -> Seq<char> {
    let codes = style_codes(style);
    if codes.len() == 0 {
        text
    } else {
        seq!['\x1B', '['] + joined_codes(codes, codes.len()) + seq!['m'] + text + seq![
            '\x1B',
            '[',
            '0',
            'm',
        ]
    }
}

/// Calls `ansi_term::Style::paint` with the style that `style` describes,
/// and turns the painted text into a string. The contract states the escape
/// sequences as the `ansi_term` crate writes them: the codes of the style
/// between `ESC [` and `m`, the text, and `ESC [ 0 m`.
#[verifier::external_body]
fn paint(style: TextStyle, text: &str) -> (out: String)
    ensures
        out@ == painted(style, text@),
{
    let colour = |c: Color| match c {
        Color::Black => ansi_term::Colour::Black,
        Color::Red => ansi_term::Colour::Red,
        Color::Yellow => ansi_term::Colour::Yellow,
    };
    let mut look = ansi_term::Style::new();
    look.is_bold = style.bold;
    look.foreground = style.foreground.map(colour);
    look.background = style.background.map(colour);
    look.paint(text).to_string()
}

/// The look of a place in the source: bold on red.
pub open spec fn place_style() -> TextStyle {
    TextStyle { foreground: None, background: Some(Color::Red), bold: true }
}

/// The look of the source text at a place: bold.
pub open spec fn raw_style() -> TextStyle {
    TextStyle { foreground: None, background: None, bold: true }
}

/// The look of an error's code: black on yellow.
pub open spec fn code_style() -> TextStyle {
    TextStyle { foreground: Some(Color::Black), background: Some(Color::Yellow), bold: false }
}

/// The look of an error's message: bold red.
pub open spec fn message_style() -> TextStyle {
    TextStyle { foreground: Some(Color::Red), background: None, bold: true }
}

/// The line that shows one place of an error.
pub open spec fn place_line(entry: (Position, Seq<char>)) -> Seq<char> {
    painted(place_style(), " "@ + entry.0.text() + " "@) + painted(
        raw_style(),
        " "@ + entry.1 + " "@,
    )
}

/// The line that shows the code and the message of an error.
pub open spec fn message_line(code: Seq<char>, message: Seq<char>) -> Seq<char> {
    painted(code_style(), " Error "@ + code + " "@) + painted(message_style(), " "@ + message)
}

/// The views of a list of lines.
pub open spec fn lines_model(lines: Vec<String>) -> Seq<Seq<char>> {
    Seq::new(lines.len() as nat, |i: int| lines[i]@)
}

impl ZyxtError {
    /// The lines that show the error on a terminal: one for each place it
    /// passed, then one with its code and its message.
    pub fn rendered(&self) -> (lines: Vec<String>)
        ensures
            lines_model(lines) == Seq::new(
                self@.position.len(),
                |i: int| place_line(self@.position[i]),
            ).push(message_line(self@.code, self@.message)),
    {
        let ghost places = Seq::new(self@.position.len(), |i: int| place_line(self@.position[i]));
        let mut lines: Vec<String> = Vec::new();
        let mut i: usize = 0;
        while i < self.position.len()
            invariant
                i <= self.position.len(),
                places == Seq::new(self@.position.len(), |i: int| place_line(self@.position[i])),
                lines.len() == i,
                forall|k: int| 0 <= k < i ==> lines[k]@ == places[k],
            decreases self.position.len() - i,
        {
            let place = concat3(" ", self.position[i].0.to_text().as_str(), " ");
            let raw = concat3(" ", self.position[i].1.as_str(), " ");
            let left = paint(
                TextStyle { foreground: None, background: Some(Color::Red), bold: true },
                place.as_str(),
            );
            let right = paint(
                TextStyle { foreground: None, background: None, bold: true },
                raw.as_str(),
            );
            lines.push(concat2(left.as_str(), right.as_str()));
            i += 1;
        }
        let code = concat3(" Error ", self.code, " ");
        let message = concat2(" ", self.message.as_str());
        let left = paint(
            TextStyle { foreground: Some(Color::Black), background: Some(Color::Yellow), bold: false },
            code.as_str(),
        );
        let right = paint(
            TextStyle { foreground: Some(Color::Red), background: None, bold: true },
            message.as_str(),
        );
        lines.push(concat2(left.as_str(), right.as_str()));
        assert(lines_model(lines) =~= places.push(message_line(self@.code, self@.message)));
        lines
    }
}

} // verus!
