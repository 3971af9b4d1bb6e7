use appseed_cli::args::{Flag, ParseError};
use appseed_cli::catalog::{group_by_family, Groups};
use appseed_cli::screens::{
    catalog_list_lines, done_line, help_lines, list_lines, summary_lines, usage_error_line,
    ABORT_NOTICE, CONFIRM_PROMPT, DOWNLOADING_MESSAGE, FAILED_MESSAGE, FOLDER_PROMPT,
    MARKED_TEMPLATE, SPINNER_FRAMES, SPINNER_TICK_MILLIS, TEMPLATE_PROMPT,
};
use appseed_cli::session::Selection;
use appseed_cli::style::{Line, Style};

fn texts(lines: &[Line]) -> Vec<String> {
    lines.iter().map(|line| line.plain_text()).collect()
}

fn styles(line: &Line) -> Vec<Style> {
    line.spans.iter().map(|span| span.style).collect()
}

fn names(list: &[&str]) -> Vec<String> {
    list.iter().map(|n| n.to_string()).collect()
}

#[test]
fn the_help() {
    assert_eq!(
        texts(&help_lines()),
        vec![
            "Usage: appseed-cli [OPTIONS]",
            "",
            "Options:",
            "    --template,    -t     [Required] The template to use from app-generator",
            "    --folder-name, -n     [Required] The name of the folder to create",
            "    --docker,      -d     [Optional] Docker support at the end of the installation",
            "    --list,        -l     [Optional] Print the list of available templates",
            "    --help,        -h     Print this help message",
        ]
    );
}

#[test]
fn the_styles_of_the_help() {
    let lines = help_lines();
    assert_eq!(styles(&lines[0]), vec![Style::Plain, Style::Green, Style::Plain]);
    assert_eq!(lines[0].spans[1].text, "appseed-cli");
    assert_eq!(styles(&lines[2]), vec![Style::Plain]);
    for at in 3..7 {
        assert_eq!(styles(&lines[at]), vec![Style::Plain, Style::Yellow, Style::Plain]);
    }
    assert_eq!(lines[3].spans[1].text, "[Required]");
    assert_eq!(lines[5].spans[1].text, "[Optional]");
    assert_eq!(styles(&lines[7]), vec![Style::Plain]);
}

#[test]
fn the_list_of_the_catalog() {
    assert_eq!(
        texts(&catalog_list_lines()),
        vec![
            "Available templates:",
            "  Flask",
            "    -> flask-datta-able",
            "    -> flask-volt-dashboard",
            "    -> flask-adminlte",
            "  Django",
            "    -> django-datta-able",
            "    -> django-volt-dashboard",
            "    -> django-soft-ui-dashboard",
        ]
    );
}

#[test]
fn the_styles_of_the_list() {
    let lines = catalog_list_lines();
    assert_eq!(styles(&lines[0]), vec![Style::Yellow]);
    assert_eq!(styles(&lines[1]), vec![Style::Plain, Style::Blue]);
    assert_eq!(
        styles(&lines[2]),
        vec![Style::Plain, Style::ItalicBlue, Style::Plain, Style::Green]
    );
}

#[test]
fn other_templates_are_listed_under_their_own_heading() {
    let groups = group_by_family(&names(&["flask-a", "rails-blog", "django-b", "phoenix-app"]));
    assert_eq!(
        texts(&list_lines(&groups)),
        vec![
            "Available templates:",
            "  Flask",
            "    -> flask-a",
            "  Django",
            "    -> django-b",
            "  Other",
            "    -> rails-blog",
            "    -> phoenix-app",
        ]
    );
}

#[test]
fn empty_families_keep_their_heading() {
    let groups = Groups { flask: names(&[]), django: names(&[]), other: names(&[]) };
    assert_eq!(texts(&list_lines(&groups)), vec!["Available templates:", "  Flask", "  Django"]);
}

#[test]
fn the_notices() {
    assert_eq!(TEMPLATE_PROMPT, " Select a template");
    assert_eq!(MARKED_TEMPLATE, 0);
    assert_eq!(FOLDER_PROMPT, " Enter a folder name for your new project");
    assert_eq!(CONFIRM_PROMPT, " Do you want to continue?");
    assert_eq!(DOWNLOADING_MESSAGE, " Downloading...");
    assert_eq!(FAILED_MESSAGE, "Failed!");
    assert_eq!(ABORT_NOTICE, "Aborting...");
    let done = done_line();
    assert_eq!(done.plain_text(), " Done!");
    assert_eq!(styles(&done), vec![Style::Plain, Style::Bold]);
}

#[test]
fn the_spinner() {
    assert_eq!(SPINNER_TICK_MILLIS, 120);
    assert_eq!(SPINNER_FRAMES.len(), 11);
    assert_eq!(SPINNER_FRAMES.concat(), "⠋⠙⠹⠸⠼⠴⠦⠧⠇⠏✔");
}

#[test]
fn a_usage_error_names_the_flag() {
    assert_eq!(
        usage_error_line(ParseError::MissingArgumentValue(Flag::Template)).plain_text(),
        "error: missing argument value for --template (-t)"
    );
    assert_eq!(
        usage_error_line(ParseError::MissingArgumentValue(Flag::FolderName)).plain_text(),
        "error: missing argument value for --folder-name (-n)"
    );
    assert_eq!(
        usage_error_line(ParseError::MissingArgumentValue(Flag::Docker)).plain_text(),
        "error: missing argument value for --docker (-d)"
    );
    assert_eq!(
        usage_error_line(ParseError::MissingArgumentValue(Flag::Help)).plain_text(),
        "error: missing argument value for --help (-h)"
    );
    assert_eq!(
        usage_error_line(ParseError::MissingArgumentValue(Flag::List)).plain_text(),
        "error: missing argument value for --list (-l)"
    );
}

#[test]
fn the_summary_of_a_selection() {
    let selection = Selection {
        template: "flask-adminlte".to_string(),
        folder: "shop".to_string(),
        use_container: true,
    };
    let lines = summary_lines(&selection);
    assert_eq!(
        texts(&lines),
        vec!["Use Docker: true", "Template Name: flask-adminlte", "Folder Name: shop"]
    );
    assert_eq!(styles(&lines[0]), vec![Style::Plain, Style::Green]);
    let selection = Selection { use_container: false, ..selection };
    assert_eq!(summary_lines(&selection)[0].plain_text(), "Use Docker: false");
}
