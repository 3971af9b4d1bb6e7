//! What the tool prints besides the advice: the help, the list of
//! templates, and its short notices.

use vstd::prelude::*;
use vstd::string::*;
use crate::args::{Flag, ParseError};
use crate::catalog::{Family, Groups, catalog_groups, catalog_names, of_family};
use crate::session::{Selection, SelectionModel};
use crate::style::{
    Line, SpanModel, Style, blank, lines_view, no_lines, note, plain, push_line, styled,
};
use crate::text::texts_of;

verus! {

/// A line of the help that explains one flag: how it is spelled, whether
/// it has to be given, and what it is for.
pub open spec fn flag_help(spelling: Seq<char>, need: Seq<char>, purpose: Seq<char>) -> Seq<
    SpanModel,
> {
    seq![plain(spelling), styled(need, Style::Yellow), plain(purpose)]
}

/// The help.
pub open spec fn help_model() -> Seq<Seq<SpanModel>> {
    seq![
        seq![plain("Usage: "@), styled("appseed-cli"@, Style::Green), plain(" [OPTIONS]"@)],
        blank(),
        note("Options:"@),
        flag_help(
            "    --template,    -t     "@,
            "[Required]"@,
            " The template to use from app-generator"@,
        ),
        flag_help(
            "    --folder-name, -n     "@,
            "[Required]"@,
            " The name of the folder to create"@,
        ),
        flag_help(
            "    --docker,      -d     "@,
            "[Optional]"@,
            " Docker support at the end of the installation"@,
        ),
        flag_help(
            "    --list,        -l     "@,
            "[Optional]"@,
            " Print the list of available templates"@,
        ),
        note("    --help,        -h     Print this help message"@),
    ]
}

/// A line of the help that explains one flag.
fn flag_help_line(spelling: &str, need: &str, purpose: &str) -> (line: Line)
    ensures
        line@ == flag_help(spelling@, need@, purpose@),
{
    Line::new().with(spelling, Style::Plain).with(need, Style::Yellow).with(purpose, Style::Plain)
}

/// The help: how the tool is called, and its flags.
pub fn help_lines() -> (lines: Vec<Line>)
    ensures
        lines_view(lines@) == help_model(),
{
    let mut lines = no_lines();
    push_line(
        &mut lines,
        Line::new().with("Usage: ", Style::Plain).with("appseed-cli", Style::Green).with(
            " [OPTIONS]",
            Style::Plain,
        ),
    );
    push_line(&mut lines, Line::new());
    push_line(&mut lines, Line::note("Options:"));
    push_line(
        &mut lines,
        flag_help_line(
            "    --template,    -t     ",
            "[Required]",
            " The template to use from app-generator",
        ),
    );
    push_line(
        &mut lines,
        flag_help_line(
            "    --folder-name, -n     ",
            "[Required]",
            " The name of the folder to create",
        ),
    );
    push_line(
        &mut lines,
        flag_help_line(
            "    --docker,      -d     ",
            "[Optional]",
            " Docker support at the end of the installation",
        ),
    );
    push_line(
        &mut lines,
        flag_help_line(
            "    --list,        -l     ",
            "[Optional]",
            " Print the list of available templates",
        ),
    );
    push_line(&mut lines, Line::note("    --help,        -h     Print this help message"));
    assert(lines_view(lines@) =~~= help_model());
    lines
}

/// The line above the templates of one family.
pub open spec fn family_heading(name: Seq<char>) -> Seq<SpanModel> {
    seq![plain("  "@), styled(name, Style::Blue)]
}

/// The line of one template in the list.
pub open spec fn entry(name: Seq<char>) -> Seq<SpanModel> {
    seq![plain("    "@), styled("->"@, Style::ItalicBlue), plain(" "@), styled(name, Style::Green)]
}

/// The lines of the templates of one family, in their order.
pub open spec fn entries(names: Seq<Seq<char>>) -> Seq<Seq<SpanModel>> {
    Seq::new(names.len(), |i: int| entry(names[i]))
}

/// The list of templates: a title, then each family under its heading.
/// The two families are always shown; the group of the others only where
/// it holds a template.
pub open spec fn listing(flask: Seq<Seq<char>>, django: Seq<Seq<char>>, other: Seq<Seq<char>>) -> Seq<
    Seq<SpanModel>,
> {
    seq![seq![styled("Available templates:"@, Style::Yellow)], family_heading("Flask"@)] + entries(
        flask,
    ) + seq![family_heading("Django"@)] + entries(django) + (if other.len() > 0 {
        seq![family_heading("Other"@)] + entries(other)
    } else {
        Seq::empty()
    })
}

/// The line above the templates of one family.
fn family_heading_line(name: &str) -> (line: Line)
    ensures
        line@ == family_heading(name@),
{
    Line::new().with("  ", Style::Plain).with(name, Style::Blue)
}

/// The line of one template in the list.
fn entry_line(name: &str) -> (line: Line)
    ensures
        line@ == entry(name@),
{
    Line::new().with("    ", Style::Plain).with("->", Style::ItalicBlue).with(
        " ",
        Style::Plain,
    ).with(name, Style::Green)
}

/// Adds the heading of a family and the lines of its templates.
fn push_family(lines: &mut Vec<Line>, heading: &str, names: &Vec<String>)
    ensures
        lines_view(final(lines)@) == lines_view(old(lines)@) + seq![family_heading(heading@)]
            + entries(texts_of(names@)),
{
    push_line(lines, family_heading_line(heading));
    let ghost start = lines_view(lines@);
    assert(start =~= lines_view(old(lines)@) + seq![family_heading(heading@)]);
    let mut i: usize = 0;
    assert(start =~= start + entries(texts_of(names@).take(0)));
    while i < names.len()
        invariant
            i <= names.len(),
            lines_view(lines@) == start + entries(texts_of(names@).take(i as int)),
        decreases names.len() - i,
    {
        let ghost before = lines_view(lines@);
        push_line(lines, entry_line(names[i].as_str()));
        proof {
            let texts = texts_of(names@);
            assert(texts.take(i + 1)[i as int] == names@[i as int]@);
            assert(start + entries(texts.take(i + 1)) =~= (start + entries(
                texts.take(i as int),
            )).push(entry(names@[i as int]@)));
        }
        i += 1;
    }
    assert(texts_of(names@).take(i as int) =~= texts_of(names@));
}

/// The list of the templates in `groups`.
pub fn list_lines(groups: &Groups) -> (lines: Vec<Line>)
    ensures
        lines_view(lines@) == listing(
            texts_of(groups.flask@),
            texts_of(groups.django@),
            texts_of(groups.other@),
        ),
{
    let mut lines = no_lines();
    push_line(&mut lines, Line::new().with("Available templates:", Style::Yellow));
    push_family(&mut lines, "Flask", &groups.flask);
    push_family(&mut lines, "Django", &groups.django);
    if groups.other.len() > 0 {
        push_family(&mut lines, "Other", &groups.other);
    }
    assert(lines_view(lines@) =~~= listing(
        texts_of(groups.flask@),
        texts_of(groups.django@),
        texts_of(groups.other@),
    ));
    lines
}

/// The list of the known templates: the catalog split by family, each
/// family in the order of the catalog.
pub fn catalog_list_lines() -> (lines: Vec<Line>)
    ensures
        lines_view(lines@) == listing(
            of_family(catalog_names(), Family::Flask),
            of_family(catalog_names(), Family::Django),
            of_family(catalog_names(), Family::Other),
        ),
{
    list_lines(&catalog_groups())
}

/// The question above the menu of templates.
pub const TEMPLATE_PROMPT: &'static str = " Select a template";

/// The entry of the menu that is marked when it opens: the first of the
/// catalog.
pub const MARKED_TEMPLATE: usize = 0;

/// The question for the folder.
pub const FOLDER_PROMPT: &'static str = " Enter a folder name for your new project";

/// The question before the clone.
pub const CONFIRM_PROMPT: &'static str = " Do you want to continue?";

/// What stands beside the spinner while the clone runs.
pub const DOWNLOADING_MESSAGE: &'static str = " Downloading...";

/// What replaces the spinner's message after a clone that failed, whatever
/// made it fail.
pub const FAILED_MESSAGE: &'static str = "Failed!";

/// What is printed when the user declines.
pub const ABORT_NOTICE: &'static str = "Aborting...";

/// The glyphs that the spinner cycles through; the last one is shown when
/// it stops.
pub const SPINNER_FRAMES: [&'static str; 11] = [
    "\u{280b}",
    "\u{2819}",
    "\u{2839}",
    "\u{2838}",
    "\u{283c}",
    "\u{2834}",
    "\u{2826}",
    "\u{2827}",
    "\u{2807}",
    "\u{280f}",
    "\u{2714}",
];

/// The time between two glyphs of the spinner, in milliseconds.
pub const SPINNER_TICK_MILLIS: u64 = 120;

/// What replaces the spinner's message after a clone that went well.
pub open spec fn done_model() -> Seq<SpanModel> {
    seq![plain(" "@), styled("Done!"@, Style::Bold)]
}

/// What replaces the spinner's message after a clone that went well.
pub fn done_line() -> (line: Line)
    ensures
        line@ == done_model(),
{
    Line::new().with(" ", Style::Plain).with("Done!", Style::Bold)
}

/// How a flag is named to the user: its long form, and its short form in
/// brackets.
pub open spec fn flag_name(flag: Flag) -> Seq<char> {
    match flag {
        Flag::Docker => "--docker (-d)"@,
        Flag::Template => "--template (-t)"@,
        Flag::FolderName => "--folder-name (-n)"@,
        Flag::Help => "--help (-h)"@,
        Flag::List => "--list (-l)"@,
    }
}

/// The line that reports a wrong command line: what is wrong, and the
/// flag.
pub open spec fn usage_error_model(error: ParseError) -> Seq<SpanModel> {
    match error {
        ParseError::MissingArgumentValue(flag) => seq![
            plain("error: missing argument value for "@),
            plain(flag_name(flag)),
        ],
    }
}

/// The line that reports a wrong command line.
pub fn usage_error_line(error: ParseError) -> (line: Line)
    ensures
        line@ == usage_error_model(error),
{
    match error {
        ParseError::MissingArgumentValue(flag) => {
            let name = match flag {
                Flag::Docker => "--docker (-d)",
                Flag::Template => "--template (-t)",
                Flag::FolderName => "--folder-name (-n)",
                Flag::Help => "--help (-h)",
                Flag::List => "--list (-l)",
            };
            Line::new().with("error: missing argument value for ", Style::Plain).with(
                name,
                Style::Plain,
            )
        },
    }
}

/// The settled values, one on each line.
pub open spec fn summary_model(selection: SelectionModel) -> Seq<Seq<SpanModel>> {
    seq![
        seq![
            plain("Use Docker: "@),
            styled(
                if selection.use_container {
                    "true"@
                } else {
                    "false"@
                },
                Style::Green,
            ),
        ],
        seq![plain("Template Name: "@), styled(selection.template, Style::Green)],
        seq![plain("Folder Name: "@), styled(selection.folder, Style::Green)],
    ]
}

/// The settled values, one on each line: whether a container is used, the
/// template, and the folder.
pub fn summary_lines(selection: &Selection) -> (lines: Vec<Line>)
    ensures
        lines_view(lines@) == summary_model(selection@),
{
    let container = if selection.use_container {
        "true"
    } else {
        "false"
    };
    let mut lines = no_lines();
    push_line(
        &mut lines,
        Line::new().with("Use Docker: ", Style::Plain).with(container, Style::Green),
    );
    push_line(
        &mut lines,
        Line::new().with("Template Name: ", Style::Plain).with(
            selection.template.as_str(),
            Style::Green,
        ),
    );
    push_line(
        &mut lines,
        Line::new().with("Folder Name: ", Style::Plain).with(
            selection.folder.as_str(),
            Style::Green,
        ),
    );
    assert(lines_view(lines@) =~~= summary_model(selection@));
    lines
}

} // verus!
