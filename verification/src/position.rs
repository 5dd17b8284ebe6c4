//! Source positions and spans.

use vstd::prelude::*;
use vstd::string::*;
use crate::text::{concat3, decimal, u128_to_string};

verus! {

/// A place in a source text: a line and a column, both counted from one.
#[derive(Clone, Copy, Debug, PartialEq, Eq, Structural)]
pub struct Position {
    pub line: u32,
    pub column: u32,
}

/// A half-open range of a source text, from `start` up to `end`.
#[derive(Clone, Copy, Debug, PartialEq, Eq, Structural)]
pub struct Span {
    pub start: Position,
    pub end: Position,
}

/// Whether `a` comes no later than `b` in reading order.
pub open spec fn pos_le(a: Position, b: Position) -> bool {
    a.line < b.line || (a.line == b.line && a.column <= b.column)
}

/// The earlier of two positions.
pub open spec fn pos_min(a: Position, b: Position) -> Position {
    if pos_le(a, b) {
        a
    } else {
        b
    }
}

/// The later of two positions.
pub open spec fn pos_max(a: Position, b: Position) -> Position {
    if pos_le(a, b) {
        b
    } else {
        a
    }
}

/// The smallest span that covers both arguments; an absent span adds nothing.
pub open spec fn merged(a: Option<Span>, b: Option<Span>) -> Option<Span> {
    match (a, b) {
        (None, _) => b,
        (_, None) => a,
        (Some(x), Some(y)) => Some(
            Span { start: pos_min(x.start, y.start), end: pos_max(x.end, y.end) },
        ),
    }
}

/// The smallest span that covers every span of the sequence.
pub open spec fn merged_all(spans: Seq<Option<Span>>) -> Option<Span>
    decreases spans.len(),
{
    if spans.len() == 0 {
        None
    } else {
        merged(merged_all(spans.drop_last()), spans.last())
    }
}

impl Position {
    /// What a position looks like in a diagnostic: line, colon, column.
    pub open spec fn text(self) -> Seq<char> {
        decimal(self.line as nat) + seq![':'] + decimal(self.column as nat)
    }

    pub fn le(&self, other: &Position) -> (b: bool)
        ensures
            b == pos_le(*self, *other),
    {
        self.line < other.line || (self.line == other.line && self.column <= other.column)
    }

    pub fn to_text(&self) -> (out: String)
        ensures
            out@ == self.text(),
    {
        let line = u128_to_string(self.line as u128);
        let column = u128_to_string(self.column as u128);
        proof {
            reveal_strlit(":");
            assert(":"@ =~= seq![':']);
        }
        concat3(line.as_str(), ":", column.as_str())
    }
}

/// Combines two optional spans into the smallest span covering both.
pub fn merge_span(a: Option<Span>, b: Option<Span>) -> (out: Option<Span>)
    ensures
        out == merged(a, b),
{
    match (a, b) {
        (None, _) => b,
        (_, None) => a,
        (Some(x), Some(y)) => {
            let start = if x.start.le(&y.start) {
                x.start
            } else {
                y.start
            };
            let end = if x.end.le(&y.end) {
                y.end
            } else {
                x.end
            };
            Some(Span { start, end })
        },
    }
}

/// Combines any number of optional spans.
pub fn merge_spans(spans: &Vec<Option<Span>>) -> (out: Option<Span>)
    ensures
        out == merged_all(spans@),
{
    let mut out: Option<Span> = None;
    let mut i: usize = 0;
    while i < spans.len()
        invariant
            i <= spans.len(),
            out == merged_all(spans@.subrange(0, i as int)),
        decreases spans.len() - i,
    {
        proof {
            let next = spans@.subrange(0, i + 1);
            assert(next.drop_last() =~= spans@.subrange(0, i as int));
            assert(next.last() == spans@[i as int]);
        }
        out = merge_span(out, spans[i]);
        i += 1;
    }
    assert(spans@.subrange(0, i as int) =~= spans@);
    out
}

/// Merging yields no span exactly when every input is absent.
pub proof fn lemma_merged_all_absent(spans: Seq<Option<Span>>)
    ensures
        merged_all(spans) is None <==> forall|i: int| 0 <= i < spans.len() ==> spans[i] is None,
    decreases spans.len(),
{
    if spans.len() > 0 {
        lemma_merged_all_absent(spans.drop_last());
        if merged_all(spans) is None {
            assert forall|i: int| 0 <= i < spans.len() implies spans[i] is None by {
                if i < spans.len() - 1 {
                    assert(spans.drop_last()[i] == spans[i]);
                }
            }
        } else {
            if forall|i: int| 0 <= i < spans.len() ==> spans[i] is None {
                assert forall|i: int| 0 <= i < spans.drop_last().len() implies spans.drop_last()[i] is None by {
                    assert(spans.drop_last()[i] == spans[i]);
                }
                assert(spans.last() is None);
            }
        }
    }
}

/// A merged span starts where its earliest input starts and ends where its
/// latest input ends, so it covers both.
pub proof fn lemma_merged_covers(a: Span, b: Span)
    ensures
        merged(Some(a), Some(b)) matches Some(m) && pos_le(m.start, a.start) && pos_le(
            m.start,
            b.start,
        ) && pos_le(a.end, m.end) && pos_le(b.end, m.end),
{
}

} // verus!
