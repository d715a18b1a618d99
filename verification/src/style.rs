//! Styled text building blocks for render plans: a span is a run of text
//! with one style, a line is a sequence of spans. Spec-level views reduce
//! lines to (character sequence, style) pairs so that contracts can state
//! exactly what a widget paints.

use vstd::prelude::*;

verus! {

/// The styles the client paints with. `Plain` is the terminal default;
/// `Yellow` marks focus, borders of the detail pane and section headers;
/// `Gray` marks muted text and unfocused borders; `White` marks titles.
#[derive(Clone, Copy, PartialEq, Eq, Structural, Debug)]
pub enum TextStyle {
    Plain,
    White,
    Gray,
    Yellow,
}

/// A run of text painted in one style.
pub struct Span {
    pub text: String,
    pub style: TextStyle,
}

/// The spec-level value of one span: its characters and its style.
pub open spec fn span_view(s: Span) -> (Seq<char>, TextStyle) {
    (s.text@, s.style)
}

/// The spec-level value of one line of spans.
pub open spec fn line_view(l: Seq<Span>) -> Seq<(Seq<char>, TextStyle)> {
    l.map_values(|s: Span| span_view(s))
}

/// The spec-level value of a block of lines.
pub open spec fn lines_view(v: Seq<Vec<Span>>) -> Seq<Seq<(Seq<char>, TextStyle)>> {
    v.map_values(|l: Vec<Span>| line_view(l@))
}

/// A line holding one unstyled empty span: how a blank separator line is
/// painted.
pub open spec fn blank_line_view() -> Seq<(Seq<char>, TextStyle)> {
    seq![(Seq::<char>::empty(), TextStyle::Plain)]
}

/// A line holding a single span.
pub open spec fn single_span_line(text: Seq<char>, style: TextStyle) -> Seq<(Seq<char>, TextStyle)> {
    seq![(text, style)]
}

/// Builds a span in the terminal's default style.
pub fn span_raw(text: String) -> (s: Span)
    ensures
        span_view(s) == (text@, TextStyle::Plain),
{
    Span { text, style: TextStyle::Plain }
}

/// Builds a span in the given style.
pub fn span_styled(text: String, style: TextStyle) -> (s: Span)
    ensures
        span_view(s) == (text@, style),
{
    Span { text, style }
}

/// Builds a blank separator line.
pub fn blank_line() -> (l: Vec<Span>)
    ensures
        line_view(l@) == blank_line_view(),
{
    let l: Vec<Span> = vec![Span { text: String::new(), style: TextStyle::Plain }];
    proof {
        assert(line_view(l@) =~= blank_line_view());
    }
    l
}

/// Builds a line holding one span.
pub fn line_of(span: Span) -> (l: Vec<Span>)
    ensures
        line_view(l@) == single_span_line(span.text@, span.style),
{
    let ghost s = span;
    let l: Vec<Span> = vec![span];
    proof {
        assert(line_view(l@) =~= single_span_line(s.text@, s.style));
    }
    l
}

} // verus!
