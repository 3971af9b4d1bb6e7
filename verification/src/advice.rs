//! What to do once the template has been fetched: the lines printed after
//! a clone that went well.

use vstd::prelude::*;
use vstd::string::*;
use crate::catalog::{django_like, flask_like};
use crate::remote::{repository_page, repository_url};
use crate::style::{
    Line, SpanModel, Style, blank, lines_view, no_lines, note, plain, push_line, push_lines, styled,
};
use crate::text::{contains_text, has_text};

verus! {

/// A host whose name holds `windows` gets the instructions for Windows.
pub open spec fn windows_like(os: Seq<char>) -> bool {
    contains_text(os, "windows"@)
}

/// The templates with the optional step that generates the API.
pub open spec fn soft_ui_like(template: Seq<char>) -> bool {
    contains_text(template, "soft-ui"@)
}

/// An indented shell command.
pub open spec fn command(text: Seq<char>) -> Seq<SpanModel> {
    seq![plain("    "@), styled(text, Style::BoldYellow)]
}

/// An indented shell command with a remark behind it.
pub open spec fn command_with_remark(text: Seq<char>, remark: Seq<char>) -> Seq<SpanModel> {
    seq![plain("    "@), styled(text, Style::BoldYellow), plain(remark)]
}

/// The line that changes into the new folder.
pub open spec fn enter_folder(folder: Seq<char>) -> Seq<SpanModel> {
    seq![
        plain("    "@),
        styled("cd"@, Style::BoldYellow),
        plain(" "@),
        styled(folder, Style::Italic),
    ]
}

/// An indented line that sets a variable: the keyword or the variable
/// stands out, the rest follows unstyled.
pub open spec fn assignment(head: Seq<char>, rest: Seq<char>) -> Seq<SpanModel> {
    seq![plain("    "@), styled(head, Style::BoldBlue), plain(rest)]
}

/// The line that names the address to open in a browser.
pub open spec fn browse(url: Seq<char>, url_style: Style) -> Seq<SpanModel> {
    seq![
        plain("    "@),
        styled("And open your browser at:"@, Style::ItalicBlue),
        plain(" "@),
        styled(url, url_style),
    ]
}

/// The heading above the steps.
pub open spec fn heading() -> Seq<Seq<SpanModel>> {
    seq![seq![plain(" "@), styled("Next steps:"@, Style::BoldGreen)], blank()]
}

/// The steps for a project that runs in a container: the same for every
/// template and every host.
pub open spec fn container_steps(folder: Seq<char>) -> Seq<Seq<SpanModel>> {
    seq![
        enter_folder(folder),
        seq![
            plain("    "@),
            styled("docker-compose up"@, Style::BoldYellow),
            plain(" "@),
            styled("--build"@, Style::ItalicBlue),
        ],
        blank(),
        browse("http://localhost:5000"@, Style::Bold),
    ]
}

/// The steps that make a virtual environment and install into it.
pub open spec fn install_steps(folder: Seq<char>, windows: bool) -> Seq<Seq<SpanModel>> {
    if windows {
        seq![
            note("    # Install dependencies"@),
            enter_folder(folder),
            command("python -m venv venv"@),
            command("venv\\Scripts\\activate"@),
            command("pip install -r requirements.txt"@),
        ]
    } else {
        seq![
            note("    # Install dependencies"@),
            enter_folder(folder),
            command("python3 -m venv venv"@),
            command("source venv/bin/activate"@),
            command("pip install -r requirements.txt"@),
        ]
    }
}

/// The steps that set Flask's variables and run it, on port 5000.
pub open spec fn flask_steps(windows: bool) -> Seq<Seq<SpanModel>> {
    if windows {
        seq![
            blank(),
            note("    # CMD"@),
            assignment("set"@, " FLASK_APP=run.py"@),
            assignment("set"@, " FLASK_ENV=development"@),
            blank(),
            note("    # Powershell"@),
            assignment("$env:FLASK_APP"@, " = \".\\run.py\""@),
            assignment("$env:FLASK_ENV"@, " = \"development\""@),
            blank(),
            note("    # Run"@),
            command("flask run"@),
            browse("http://localhost:5000"@, Style::Plain),
        ]
    } else {
        seq![
            blank(),
            note("    # Set variables"@),
            assignment("export"@, " FLASK_APP=run.py"@),
            assignment("export"@, " FLASK_ENV=development"@),
            blank(),
            note("    # Run"@),
            command("flask run"@),
            browse("http://localhost:5000"@, Style::Plain),
        ]
    }
}

/// The steps that set up Django's database.
pub open spec fn database_steps(with_api: bool) -> Seq<Seq<SpanModel>> {
    if with_api {
        seq![
            note("    # Setup the Database"@),
            command("python manage.py makemigrations"@),
            command("python manage.py migrate"@),
            command_with_remark("python manage.py generate-api"@, " # Optional"@),
        ]
    } else {
        seq![
            note("    # Setup the Database"@),
            command("python manage.py makemigrations"@),
            command("python manage.py migrate"@),
        ]
    }
}

/// The steps that run Django, on port 8000.
pub open spec fn runserver_steps() -> Seq<Seq<SpanModel>> {
    seq![
        blank(),
        note("    # Run"@),
        command("python manage.py runserver"@),
        browse("http://localhost:8000"@, Style::Plain),
    ]
}

/// The lines that set Django's variables on Windows: once for the command
/// prompt, with `set`, and once for PowerShell, with `$env:`. The two
/// variables are this tool's choice: the module of Django's settings, and
/// the switch for debugging.
pub open spec fn django_variables() -> Seq<Seq<SpanModel>> {
    seq![
        blank(),
        note("    # CMD"@),
        assignment("set"@, " DJANGO_SETTINGS_MODULE=core.settings"@),
        assignment("set"@, " DEBUG=True"@),
        blank(),
        note("    # Powershell"@),
        assignment("$env:DJANGO_SETTINGS_MODULE"@, " = \"core.settings\""@),
        assignment("$env:DEBUG"@, " = \"True\""@),
    ]
}

/// The steps for Django: the database, then the run. On Windows the
/// variables are set first, and an empty line parts them from the
/// database.
pub open spec fn django_steps(with_api: bool, windows: bool) -> Seq<Seq<SpanModel>> {
    if windows {
        django_variables() + seq![blank()] + database_steps(with_api) + runserver_steps()
    } else {
        database_steps(with_api) + runserver_steps()
    }
}

/// The steps for a project that runs on the host: the environment first,
/// then the steps for Flask if the template's name holds `flask`, then
/// those for Django if it holds `django`. A name that holds neither gets
/// the environment alone.
pub open spec fn host_steps(template: Seq<char>, folder: Seq<char>, windows: bool) -> Seq<
    Seq<SpanModel>,
> {
    install_steps(folder, windows) + (if flask_like(template) {
        flask_steps(windows)
    } else {
        Seq::empty()
    }) + (if django_like(template) {
        django_steps(soft_ui_like(template), windows)
    } else {
        Seq::empty()
    })
}

/// The last lines: where to read more.
pub open spec fn closing(template: Seq<char>) -> Seq<Seq<SpanModel>> {
    seq![
        blank(),
        seq![
            plain("    "@),
            styled("For more information:"@, Style::ItalicBlue),
            plain(" "@),
            plain(repository_page(template)),
        ],
    ]
}

/// Everything printed after a clone that went well.
pub open spec fn advice_model(
    template: Seq<char>,
    folder: Seq<char>,
    use_container: bool,
    windows: bool,
) -> Seq<Seq<SpanModel>> {
    heading() + (if use_container {
        container_steps(folder)
    } else {
        host_steps(template, folder, windows)
    }) + closing(template)
}

impl Line {
    /// An indented shell command.
    pub fn command(text: &str) -> (line: Line)
        ensures
            line@ == command(text@),
    {
        Line::new().with("    ", Style::Plain).with(text, Style::BoldYellow)
    }

    /// An indented shell command with a remark behind it.
    pub fn command_with_remark(text: &str, remark: &str) -> (line: Line)
        ensures
            line@ == command_with_remark(text@, remark@),
    {
        Line::new().with("    ", Style::Plain).with(text, Style::BoldYellow).with(
            remark,
            Style::Plain,
        )
    }

    /// The line that changes into the new folder.
    pub fn enter_folder(folder: &str) -> (line: Line)
        ensures
            line@ == enter_folder(folder@),
    {
        Line::new().with("    ", Style::Plain).with("cd", Style::BoldYellow).with(
            " ",
            Style::Plain,
        ).with(folder, Style::Italic)
    }

    /// An indented line that sets a variable.
    pub fn assignment(head: &str, rest: &str) -> (line: Line)
        ensures
            line@ == assignment(head@, rest@),
    {
        Line::new().with("    ", Style::Plain).with(head, Style::BoldBlue).with(rest, Style::Plain)
    }

    /// The line that names the address to open in a browser.
    pub fn browse(url: &str, url_style: Style) -> (line: Line)
        ensures
            line@ == browse(url@, url_style),
    {
        Line::new().with("    ", Style::Plain).with(
            "And open your browser at:",
            Style::ItalicBlue,
        ).with(" ", Style::Plain).with(url, url_style)
    }
}

/// The heading above the steps.
fn heading_lines() -> (lines: Vec<Line>)
    ensures
        lines_view(lines@) == heading(),
{
    let mut lines = no_lines();
    push_line(&mut lines, Line::new().with(" ", Style::Plain).with("Next steps:", Style::BoldGreen));
    push_line(&mut lines, Line::new());
    assert(lines_view(lines@) =~~= heading());
    lines
}

/// The steps for a project that runs in a container.
fn container_lines(folder: &str) -> (lines: Vec<Line>)
    ensures
        lines_view(lines@) == container_steps(folder@),
{
    let mut lines = no_lines();
    push_line(&mut lines, Line::enter_folder(folder));
    push_line(
        &mut lines,
        Line::new().with("    ", Style::Plain).with("docker-compose up", Style::BoldYellow).with(
            " ",
            Style::Plain,
        ).with("--build", Style::ItalicBlue),
    );
    push_line(&mut lines, Line::new());
    push_line(&mut lines, Line::browse("http://localhost:5000", Style::Bold));
    assert(lines_view(lines@) =~~= container_steps(folder@));
    lines
}

/// The steps that make a virtual environment and install into it.
fn install_lines(folder: &str, windows: bool) -> (lines: Vec<Line>)
    ensures
        lines_view(lines@) == install_steps(folder@, windows),
{
    let mut lines = no_lines();
    push_line(&mut lines, Line::note("    # Install dependencies"));
    push_line(&mut lines, Line::enter_folder(folder));
    if windows {
        push_line(&mut lines, Line::command("python -m venv venv"));
        push_line(&mut lines, Line::command("venv\\Scripts\\activate"));
    } else {
        push_line(&mut lines, Line::command("python3 -m venv venv"));
        push_line(&mut lines, Line::command("source venv/bin/activate"));
    }
    push_line(&mut lines, Line::command("pip install -r requirements.txt"));
    assert(lines_view(lines@) =~~= install_steps(folder@, windows));
    lines
}

/// The steps that set Flask's variables and run it.
fn flask_lines(windows: bool) -> (lines: Vec<Line>)
    ensures
        lines_view(lines@) == flask_steps(windows),
{
    let mut lines = no_lines();
    push_line(&mut lines, Line::new());
    if windows {
        push_line(&mut lines, Line::note("    # CMD"));
        push_line(&mut lines, Line::assignment("set", " FLASK_APP=run.py"));
        push_line(&mut lines, Line::assignment("set", " FLASK_ENV=development"));
        push_line(&mut lines, Line::new());
        push_line(&mut lines, Line::note("    # Powershell"));
        push_line(&mut lines, Line::assignment("$env:FLASK_APP", " = \".\\run.py\""));
        push_line(&mut lines, Line::assignment("$env:FLASK_ENV", " = \"development\""));
    } else {
        push_line(&mut lines, Line::note("    # Set variables"));
        push_line(&mut lines, Line::assignment("export", " FLASK_APP=run.py"));
        push_line(&mut lines, Line::assignment("export", " FLASK_ENV=development"));
    }
    push_line(&mut lines, Line::new());
    push_line(&mut lines, Line::note("    # Run"));
    push_line(&mut lines, Line::command("flask run"));
    push_line(&mut lines, Line::browse("http://localhost:5000", Style::Plain));
    assert(lines_view(lines@) =~~= flask_steps(windows));
    lines
}

/// The steps that set up Django's database.
fn database_lines(with_api: bool) -> (lines: Vec<Line>)
    ensures
        lines_view(lines@) == database_steps(with_api),
{
    let mut lines = no_lines();
    push_line(&mut lines, Line::note("    # Setup the Database"));
    push_line(&mut lines, Line::command("python manage.py makemigrations"));
    push_line(&mut lines, Line::command("python manage.py migrate"));
    if with_api {
        push_line(
            &mut lines,
            Line::command_with_remark("python manage.py generate-api", " # Optional"),
        );
    }
    assert(lines_view(lines@) =~~= database_steps(with_api));
    lines
}

/// The steps that run Django.
fn runserver_lines() -> (lines: Vec<Line>)
    ensures
        lines_view(lines@) == runserver_steps(),
{
    let mut lines = no_lines();
    push_line(&mut lines, Line::new());
    push_line(&mut lines, Line::note("    # Run"));
    push_line(&mut lines, Line::command("python manage.py runserver"));
    push_line(&mut lines, Line::browse("http://localhost:8000", Style::Plain));
    assert(lines_view(lines@) =~~= runserver_steps());
    lines
}

/// The lines that set Django's variables on Windows.
fn django_variable_lines() -> (lines: Vec<Line>)
    ensures
        lines_view(lines@) == django_variables(),
{
    let mut lines = no_lines();
    push_line(&mut lines, Line::new());
    push_line(&mut lines, Line::note("    # CMD"));
    push_line(&mut lines, Line::assignment("set", " DJANGO_SETTINGS_MODULE=core.settings"));
    push_line(&mut lines, Line::assignment("set", " DEBUG=True"));
    push_line(&mut lines, Line::new());
    push_line(&mut lines, Line::note("    # Powershell"));
    push_line(
        &mut lines,
        Line::assignment("$env:DJANGO_SETTINGS_MODULE", " = \"core.settings\""),
    );
    push_line(&mut lines, Line::assignment("$env:DEBUG", " = \"True\""));
    assert(lines_view(lines@) =~~= django_variables());
    lines
}

/// The steps for Django.
fn django_lines(with_api: bool, windows: bool) -> (lines: Vec<Line>)
    ensures
        lines_view(lines@) == django_steps(with_api, windows),
{
    let mut lines = no_lines();
    if windows {
        push_lines(&mut lines, django_variable_lines());
        push_line(&mut lines, Line::new());
    }
    push_lines(&mut lines, database_lines(with_api));
    push_lines(&mut lines, runserver_lines());
    assert(lines_view(lines@) =~~= django_steps(with_api, windows));
    lines
}

/// The last lines: where to read more.
fn closing_lines(template: &str) -> (lines: Vec<Line>)
    ensures
        lines_view(lines@) == closing(template@),
{
    let url = repository_url(template);
    let mut lines = no_lines();
    push_line(&mut lines, Line::new());
    push_line(
        &mut lines,
        Line::new().with("    ", Style::Plain).with("For more information:", Style::ItalicBlue).with(
            " ",
            Style::Plain,
        ).with(url.as_str(), Style::Plain),
    );
    assert(lines_view(lines@) =~~= closing(template@));
    lines
}

/// The steps for a project that runs on the host.
fn host_lines(template: &str, folder: &str, windows: bool) -> (lines: Vec<Line>)
    ensures
        lines_view(lines@) == host_steps(template@, folder@, windows),
{
    let mut lines = install_lines(folder, windows);
    if has_text(template, "flask") {
        push_lines(&mut lines, flask_lines(windows));
    }
    if has_text(template, "django") {
        push_lines(&mut lines, django_lines(has_text(template, "soft-ui"), windows));
    }
    assert(lines_view(lines@) =~~= host_steps(template@, folder@, windows));
    lines
}

/// Whether the host named `os` gets the instructions for Windows.
pub fn is_windows_like(os: &str) -> (windows: bool)
    ensures
        windows == windows_like(os@),
{
    has_text(os, "windows")
}

/// The lines to print after a clone that went well: a heading, the steps,
/// and where to read more. With `use_container` the steps are those for
/// the container, whatever the template and the host. Without it they
/// depend on the host named `os` and on what the template's name holds.
pub fn advice_lines(template: &str, folder: &str, use_container: bool, os: &str) -> (lines: Vec<
    Line,
>)
    ensures
        lines_view(lines@) == advice_model(template@, folder@, use_container, windows_like(os@)),
{
    let mut lines = heading_lines();
    if use_container {
        push_lines(&mut lines, container_lines(folder));
    } else {
        push_lines(&mut lines, host_lines(template, folder, is_windows_like(os)));
    }
    push_lines(&mut lines, closing_lines(template));
    lines
}

/// With a container the advice is the same on every host, and its steps
/// are the same for every template.
pub proof fn lemma_container_advice_is_fixed(
    template: Seq<char>,
    other_template: Seq<char>,
    folder: Seq<char>,
)
    ensures
        advice_model(template, folder, true, true) == advice_model(template, folder, true, false),
        advice_model(template, folder, true, true) == heading() + container_steps(folder) + closing(
            template,
        ),
        advice_model(other_template, folder, true, true) == heading() + container_steps(folder)
            + closing(other_template),
{
}

/// The advice always ends with the line that points to the template's
/// repository page.
pub proof fn lemma_advice_ends_with_repository_page(
    template: Seq<char>,
    folder: Seq<char>,
    use_container: bool,
    windows: bool,
)
    ensures
        advice_model(template, folder, use_container, windows).len() >= 4,
        advice_model(template, folder, use_container, windows).last() == seq![
            plain("    "@),
            styled("For more information:"@, Style::ItalicBlue),
            plain(" "@),
            plain(repository_page(template)),
        ],
{
    assert(closing(template).len() == 2);
    assert(heading().len() == 2);
}

} // verus!
