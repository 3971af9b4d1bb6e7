//! Lines as the terminal gets them: each span painted in its style.

use vstd::prelude::*;
use vstd::string::*;
use colored::Colorize;
use crate::style::{Line, SpanModel, Style, joined, plain_text_of, span_texts};
use crate::text::{contains_text, lemma_contains_transitive, lemma_middle_occurs, texts_of};

verus! {

/// The sequence that ends a styled text on the terminal.
pub open spec fn reset_sequence() -> Seq<char> {
    "\x1b[0m"@
}

/// What a text may come out as when it is painted: the text as it is,
/// where colours are switched off, or the text between the sequence that
/// starts its style and the one that ends it.
pub open spec fn painting_of(text: Seq<char>, out: Seq<char>) -> bool {
    out == text || exists|prefix: Seq<char>| out == prefix + text + reset_sequence()
}

/// `Colorize::bold` on a `&str`, and `ToString::to_string` on what it
/// gives. Whether escape sequences are written depends on the environment
/// and on the terminal, and which ones on `colored`. Claimed is what holds
/// either way for a text that holds no closing sequence itself: it comes
/// out as it is, or between a prefix and the closing sequence.
#[verifier::external_body]
fn bold(text: &str) -> (out: String)
    ensures
        !contains_text(text@, reset_sequence()) ==> painting_of(text@, out@),
{
    text.bold().to_string()
}

/// `Colorize::italic` on a `&str`, and `ToString::to_string` on what it
/// gives. The claim is that of `bold`.
#[verifier::external_body]
fn italic(text: &str) -> (out: String)
    ensures
        !contains_text(text@, reset_sequence()) ==> painting_of(text@, out@),
{
    text.italic().to_string()
}

/// `Colorize::green` on a `&str`, and `ToString::to_string` on what it
/// gives. The claim is that of `bold`.
#[verifier::external_body]
fn green(text: &str) -> (out: String)
    ensures
        !contains_text(text@, reset_sequence()) ==> painting_of(text@, out@),
{
    text.green().to_string()
}

/// `Colorize::yellow` on a `&str`, and `ToString::to_string` on what it
/// gives. The claim is that of `bold`.
#[verifier::external_body]
fn yellow(text: &str) -> (out: String)
    ensures
        !contains_text(text@, reset_sequence()) ==> painting_of(text@, out@),
{
    text.yellow().to_string()
}

/// `Colorize::blue` on a `&str`, and `ToString::to_string` on what it
/// gives. The claim is that of `bold`.
#[verifier::external_body]
fn blue(text: &str) -> (out: String)
    ensures
        !contains_text(text@, reset_sequence()) ==> painting_of(text@, out@),
{
    text.blue().to_string()
}

/// `Colorize::bold` on a `&str`, `Colorize::green` on what it gives, and
/// `ToString::to_string` on the result. The claim is that of `bold`.
#[verifier::external_body]
fn bold_green(text: &str) -> (out: String)
    ensures
        !contains_text(text@, reset_sequence()) ==> painting_of(text@, out@),
{
    text.bold().green().to_string()
}

/// `Colorize::bold` on a `&str`, `Colorize::yellow` on what it gives, and
/// `ToString::to_string` on the result. The claim is that of `bold`.
#[verifier::external_body]
fn bold_yellow(text: &str) -> (out: String)
    ensures
        !contains_text(text@, reset_sequence()) ==> painting_of(text@, out@),
{
    text.bold().yellow().to_string()
}

/// `Colorize::bold` on a `&str`, `Colorize::blue` on what it gives, and
/// `ToString::to_string` on the result. The claim is that of `bold`.
#[verifier::external_body]
fn bold_blue(text: &str) -> (out: String)
    ensures
        !contains_text(text@, reset_sequence()) ==> painting_of(text@, out@),
{
    text.bold().blue().to_string()
}

/// `Colorize::italic` on a `&str`, `Colorize::blue` on what it gives, and
/// `ToString::to_string` on the result. The claim is that of `bold`.
#[verifier::external_body]
fn italic_blue(text: &str) -> (out: String)
    ensures
        !contains_text(text@, reset_sequence()) ==> painting_of(text@, out@),
{
    text.italic().blue().to_string()
}

/// The text of a span as the terminal gets it. Unstyled text is handed on
/// as it is. Styled text that holds no closing sequence itself comes out
/// as it is or between the sequence that starts its style and the closing
/// one; which of the two depends on the environment.
pub fn paint(text: &str, style: Style) -> (out: String)
    ensures
        style == Style::Plain ==> out@ == text@,
        !contains_text(text@, reset_sequence()) ==> painting_of(text@, out@),
{
    match style {
        Style::Plain => text.to_owned(),
        Style::Bold => bold(text),
        Style::Italic => italic(text),
        Style::Green => green(text),
        Style::Yellow => yellow(text),
        Style::Blue => blue(text),
        Style::BoldGreen => bold_green(text),
        Style::BoldYellow => bold_yellow(text),
        Style::BoldBlue => bold_blue(text),
        Style::ItalicBlue => italic_blue(text),
    }
}

/// `parts` are the spans of `line` painted: one part for each span; for
/// an unstyled span its text; and for a span whose text holds no closing
/// sequence a painting of that text.
pub open spec fn painted(line: Seq<SpanModel>, parts: Seq<Seq<char>>) -> bool {
    &&& parts.len() == line.len()
    &&& forall|i: int|
        0 <= i < line.len() && line[i].style == Style::Plain ==> #[trigger] parts[i] == line[i].text
    &&& forall|i: int|
        0 <= i < line.len() && !contains_text(line[i].text, reset_sequence()) ==> painting_of(
            line[i].text,
            #[trigger] parts[i],
        )
}

/// No span of the line is styled.
pub open spec fn unstyled_line(line: Seq<SpanModel>) -> bool {
    forall|i: int| 0 <= i < line.len() ==> (#[trigger] line[i]).style == Style::Plain
}

/// The texts in `parts`, one after the other.
pub fn join(parts: &Vec<String>) -> (out: String)
    ensures
        out@ == joined(texts_of(parts@)),
{
    let mut out = String::new();
    let mut i: usize = 0;
    assert(texts_of(parts@).take(0) =~= Seq::<Seq<char>>::empty());
    while i < parts.len()
        invariant
            i <= parts.len(),
            out@ == joined(texts_of(parts@).take(i as int)),
        decreases parts.len() - i,
    {
        out.append(parts[i].as_str());
        proof {
            let texts = texts_of(parts@);
            assert(texts.take(i + 1).drop_last() =~= texts.take(i as int));
        }
        i += 1;
    }
    assert(texts_of(parts@).take(i as int) =~= texts_of(parts@));
    out
}

/// The spans of a line, each painted in its style.
pub fn paint_spans(line: &Line) -> (parts: Vec<String>)
    ensures
        painted(line@, texts_of(parts@)),
{
    let mut parts: Vec<String> = Vec::new();
    let mut i: usize = 0;
    while i < line.spans.len()
        invariant
            i <= line.spans.len(),
            parts.len() == i,
            forall|j: int|
                0 <= j < i && line@[j].style == Style::Plain ==> #[trigger] texts_of(parts@)[j]
                    == line@[j].text,
            forall|j: int|
                0 <= j < i && !contains_text(line@[j].text, reset_sequence()) ==> painting_of(
                    line@[j].text,
                    #[trigger] texts_of(parts@)[j],
                ),
        decreases line.spans.len() - i,
    {
        let ghost before = texts_of(parts@);
        let part = paint(line.spans[i].text.as_str(), line.spans[i].style);
        let ghost text = part@;
        parts.push(part);
        assert(texts_of(parts@) =~= before.push(text));
        i += 1;
    }
    parts
}

/// A painting of a text holds the text.
pub proof fn lemma_painting_holds_text(text: Seq<char>, out: Seq<char>)
    requires
        painting_of(text, out),
    ensures
        contains_text(out, text),
{
    if out == text {
        lemma_middle_occurs(Seq::empty(), text, Seq::empty());
        assert(Seq::<char>::empty() + text + Seq::<char>::empty() =~= text);
    } else {
        let prefix = choose|prefix: Seq<char>| out == prefix + text + reset_sequence();
        lemma_middle_occurs(prefix, text, reset_sequence());
    }
}

/// Texts put together hold each of them.
pub proof fn lemma_joined_holds_part(parts: Seq<Seq<char>>, i: int)
    requires
        0 <= i < parts.len(),
    ensures
        contains_text(joined(parts), parts[i]),
    decreases parts.len(),
{
    let front = joined(parts.drop_last());
    if i == parts.len() - 1 {
        lemma_middle_occurs(front, parts.last(), Seq::empty());
        assert(front + parts.last() + Seq::<char>::empty() =~= joined(parts));
    } else {
        lemma_joined_holds_part(parts.drop_last(), i);
        lemma_middle_occurs(Seq::empty(), front, parts.last());
        assert(Seq::<char>::empty() + front + parts.last() =~= joined(parts));
        lemma_contains_transitive(joined(parts), front, parts[i]);
    }
}

/// Painting loses no text: the spans of a line painted and put together
/// hold the text of each span that holds no closing sequence.
pub proof fn lemma_painted_line_holds_texts(line: Seq<SpanModel>, parts: Seq<Seq<char>>, i: int)
    requires
        painted(line, parts),
        0 <= i < line.len(),
        !contains_text(line[i].text, reset_sequence()),
    ensures
        contains_text(joined(parts), line[i].text),
{
    assert(painting_of(line[i].text, parts[i]));
    lemma_painting_holds_text(line[i].text, parts[i]);
    lemma_joined_holds_part(parts, i);
    lemma_contains_transitive(joined(parts), parts[i], line[i].text);
}

/// A line as the terminal gets it: its spans painted and put together, in
/// their order. An unstyled line comes out as what it says, and the text
/// of every span that holds no closing sequence stands in the result.
pub fn render_line(line: &Line) -> (out: String)
    ensures
        exists|parts: Seq<Seq<char>>| painted(line@, parts) && out@ == joined(parts),
        unstyled_line(line@) ==> out@ == plain_text_of(line@),
        forall|i: int|
            0 <= i < line@.len() && !contains_text(line@[i].text, reset_sequence())
                ==> contains_text(out@, #[trigger] line@[i].text),
{
    let parts = paint_spans(line);
    let out = join(&parts);
    proof {
        assert(painted(line@, texts_of(parts@)) && out@ == joined(texts_of(parts@)));
        if unstyled_line(line@) {
            assert(texts_of(parts@) =~= span_texts(line@));
        }
        assert forall|i: int|
            0 <= i < line@.len() && !contains_text(
                line@[i].text,
                reset_sequence(),
            ) implies contains_text(out@, #[trigger] line@[i].text) by {
            lemma_painted_line_holds_texts(line@, texts_of(parts@), i);
        }
    }
    out
}

} // verus!
