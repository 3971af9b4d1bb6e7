//! Styled text: spans, lines, and what they say once the styling is left
//! out.

use vstd::prelude::*;
use vstd::string::*;

verus! {

/// The styles this tool prints in.
#[derive(Clone, Copy, Debug, PartialEq, Eq, Structural)]
pub enum Style {
    Plain,
    Bold,
    Italic,
    Green,
    Yellow,
    Blue,
    BoldGreen,
    BoldYellow,
    BoldBlue,
    ItalicBlue,
}

/// A run of text in one style.
#[derive(Clone, Debug, PartialEq, Eq)]
pub struct Span {
    pub text: String,
    pub style: Style,
}

/// What a span is: its characters and its style.
pub struct SpanModel {
    pub text: Seq<char>,
    pub style: Style,
}

impl View for Span {
    type V = SpanModel;

    open spec fn view(&self) -> SpanModel {
        SpanModel { text: self.text@, style: self.style }
    }
}

/// One line of output: its spans, left to right.
#[derive(Clone, Debug, PartialEq, Eq)]
pub struct Line {
    pub spans: Vec<Span>,
}

impl View for Line {
    type V = Seq<SpanModel>;

    open spec fn view(&self) -> Seq<SpanModel> {
        Seq::new(self.spans@.len(), |i: int| self.spans@[i]@)
    }
}

/// A span of unstyled text.
pub open spec fn plain(text: Seq<char>) -> SpanModel {
    SpanModel { text, style: Style::Plain }
}

/// A span of text in `style`.
pub open spec fn styled(text: Seq<char>, style: Style) -> SpanModel {
    SpanModel { text, style }
}

/// An empty line.
pub open spec fn blank() -> Seq<SpanModel> {
    Seq::empty()
}

/// A line of unstyled text.
pub open spec fn note(text: Seq<char>) -> Seq<SpanModel> {
    seq![plain(text)]
}

/// The models of a run of lines, in order.
pub open spec fn lines_view(lines: Seq<Line>) -> Seq<Seq<SpanModel>> {
    Seq::new(lines.len(), |i: int| lines[i]@)
}

/// The texts in `parts`, one after the other.
pub open spec fn joined(parts: Seq<Seq<char>>) -> Seq<char>
    decreases parts.len(),
{
    if parts.len() == 0 {
        Seq::empty()
    } else {
        joined(parts.drop_last()) + parts.last()
    }
}

/// The texts of the spans of a line, styles left out.
pub open spec fn span_texts(line: Seq<SpanModel>) -> Seq<Seq<char>> {
    Seq::new(line.len(), |i: int| line[i].text)
}

/// What a line says: the texts of its spans, one after the other.
pub open spec fn plain_text_of(line: Seq<SpanModel>) -> Seq<char> {
    joined(span_texts(line))
}

impl Line {
    /// The empty line.
    pub fn new() -> (line: Line)
        ensures
            line@ == Seq::<SpanModel>::empty(),
    {
        let line = Line { spans: Vec::new() };
        assert(line@ =~= Seq::<SpanModel>::empty());
        line
    }

    /// This line with one more span at its end.
    pub fn with(self, text: &str, style: Style) -> (line: Line)
        ensures
            line@ == self@.push(styled(text@, style)),
    {
        let mut spans = self.spans;
        spans.push(Span { text: text.to_owned(), style });
        let line = Line { spans };
        assert(line@ =~= self@.push(styled(text@, style)));
        line
    }

    /// A line of unstyled text.
    pub fn note(text: &str) -> (line: Line)
        ensures
            line@ == note(text@),
    {
        Line::new().with(text, Style::Plain)
    }

    /// What this line says, styles left out.
    pub fn plain_text(&self) -> (out: String)
        ensures
            out@ == plain_text_of(self@),
    {
        let mut out = String::new();
        let mut i: usize = 0;
        assert(span_texts(self@).take(0) =~= Seq::<Seq<char>>::empty());
        while i < self.spans.len()
            invariant
                i <= self.spans.len(),
                out@ == joined(span_texts(self@).take(i as int)),
            decreases self.spans.len() - i,
        {
            out.append(self.spans[i].text.as_str());
            proof {
                let texts = span_texts(self@);
                assert(texts.take(i + 1).drop_last() =~= texts.take(i as int));
            }
            i += 1;
        }
        assert(span_texts(self@).take(i as int) =~= span_texts(self@));
        out
    }
}

/// A run of lines with nothing in it.
pub fn no_lines() -> (lines: Vec<Line>)
    ensures
        lines_view(lines@) == Seq::<Seq<SpanModel>>::empty(),
{
    let lines: Vec<Line> = Vec::new();
    assert(lines_view(lines@) =~= Seq::<Seq<SpanModel>>::empty());
    lines
}

/// Adds `line` at the end of `lines`.
pub fn push_line(lines: &mut Vec<Line>, line: Line)
    ensures
        lines_view(final(lines)@) == lines_view(old(lines)@).push(line@),
{
    lines.push(line);
    assert(lines_view(lines@) =~= lines_view(old(lines)@).push(line@));
}

/// Adds the lines of `more`, in order, at the end of `lines`.
pub fn push_lines(lines: &mut Vec<Line>, more: Vec<Line>)
    ensures
        lines_view(final(lines)@) == lines_view(old(lines)@) + lines_view(more@),
{
    let ghost added = more@;
    let mut more = more;
    lines.append(&mut more);
    assert(lines_view(lines@) =~= lines_view(old(lines)@) + lines_view(added));
}

} // verus!
