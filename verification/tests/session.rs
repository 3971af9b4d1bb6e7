use appseed_cli::advice::advice_lines;
use appseed_cli::args::{Flag, Options, ParseError};
use appseed_cli::session::{
    advance, begin, clone_finished, clone_request, exit_status, first_stage, CloneRequest, Event,
    Selection, Stage,
};

fn words(tokens: &[&str]) -> Vec<String> {
    tokens.iter().map(|t| t.to_string()).collect()
}

fn selection(template: &str, folder: &str, use_container: bool) -> Selection {
    Selection { template: template.to_string(), folder: folder.to_string(), use_container }
}

fn every_event() -> Vec<Event> {
    vec![
        Event::TemplateChosen(0),
        Event::TemplateChosen(99),
        Event::FolderEntered("x".to_string()),
        Event::FolderEntered(String::new()),
        Event::Confirmed(true),
        Event::Confirmed(false),
        Event::CloneFinished(true),
        Event::CloneFinished(false),
    ]
}

#[test]
fn no_arguments_show_the_help_and_end_with_0() {
    let stage = begin(&words(&[]));
    assert_eq!(stage, Stage::ShowHelp);
    assert_eq!(exit_status(&stage), Some(0));
}

#[test]
fn the_help_flag_shows_the_help() {
    assert_eq!(begin(&words(&["-t", "flask-adminlte", "-n", "x", "-h"])), Stage::ShowHelp);
    assert_eq!(begin(&words(&["--help"])), Stage::ShowHelp);
}

#[test]
fn the_list_flag_shows_the_list_and_ends_with_0() {
    let stage = begin(&words(&["--list"]));
    assert_eq!(stage, Stage::ShowList);
    assert_eq!(exit_status(&stage), Some(0));
    assert_eq!(begin(&words(&["-l", "-t", "flask-adminlte", "-n", "x"])), Stage::ShowList);
}

#[test]
fn the_help_goes_before_the_list() {
    assert_eq!(begin(&words(&["-l", "-h"])), Stage::ShowHelp);
}

#[test]
fn a_missing_value_is_a_usage_error_with_status_2() {
    let stage = begin(&words(&["-t"]));
    assert_eq!(stage, Stage::ReportUsage(ParseError::MissingArgumentValue(Flag::Template)));
    assert_eq!(exit_status(&stage), Some(2));
    let stage = begin(&words(&["-l", "--folder-name"]));
    assert_eq!(stage, Stage::ReportUsage(ParseError::MissingArgumentValue(Flag::FolderName)));
    assert_eq!(exit_status(&stage), Some(2));
}

#[test]
fn an_unknown_template_opens_the_menu() {
    let stage = begin(&words(&["--template", "rails-blog", "-n", "blog", "-d"]));
    assert_eq!(
        stage,
        Stage::AskTemplate { folder: Some("blog".to_string()), use_container: true }
    );
    assert_eq!(exit_status(&stage), None);
    let stage = advance(stage, Event::TemplateChosen(2));
    assert_eq!(stage, Stage::AskConfirm(selection("django-volt-dashboard", "blog", true)));
}

#[test]
fn a_template_that_is_not_given_opens_the_menu() {
    assert_eq!(
        begin(&words(&["-d"])),
        Stage::AskTemplate { folder: None, use_container: true }
    );
    assert_eq!(
        begin(&words(&["-t", "default"])),
        Stage::AskTemplate { folder: None, use_container: false }
    );
}

#[test]
fn a_known_template_without_a_folder_asks_for_the_folder() {
    let stage = begin(&words(&["--template", "django-volt-dashboard"]));
    assert_eq!(
        stage,
        Stage::AskFolder { template: "django-volt-dashboard".to_string(), use_container: false }
    );
    let stage = advance(stage, Event::FolderEntered("site".to_string()));
    assert_eq!(stage, Stage::AskConfirm(selection("django-volt-dashboard", "site", false)));
}

#[test]
fn the_folder_default_on_the_command_line_is_asked_for() {
    assert_eq!(
        begin(&words(&["-t", "flask-adminlte", "-n", "default"])),
        Stage::AskFolder { template: "flask-adminlte".to_string(), use_container: false }
    );
}

#[test]
fn a_folder_named_default_at_the_prompt_is_taken() {
    let stage = Stage::AskFolder { template: "flask-adminlte".to_string(), use_container: false };
    assert_eq!(
        advance(stage, Event::FolderEntered("default".to_string())),
        Stage::AskConfirm(selection("flask-adminlte", "default", false))
    );
}

#[test]
fn the_menu_then_the_folder_then_the_confirmation() {
    let stage = begin(&words(&["--docker"]));
    let stage = advance(stage, Event::TemplateChosen(0));
    assert_eq!(
        stage,
        Stage::AskFolder { template: "flask-datta-able".to_string(), use_container: true }
    );
    let stage = advance(stage, Event::FolderEntered("app".to_string()));
    assert_eq!(stage, Stage::AskConfirm(selection("flask-datta-able", "app", true)));
}

#[test]
fn every_index_of_the_menu_gives_its_template() {
    let names = [
        "flask-datta-able",
        "django-datta-able",
        "django-volt-dashboard",
        "flask-volt-dashboard",
        "flask-adminlte",
        "django-soft-ui-dashboard",
    ];
    for (index, name) in names.iter().enumerate() {
        let stage = Stage::AskTemplate { folder: None, use_container: false };
        assert_eq!(
            advance(stage, Event::TemplateChosen(index)),
            Stage::AskFolder { template: name.to_string(), use_container: false }
        );
    }
}

#[test]
fn an_index_beyond_the_catalog_asks_again() {
    let stage = Stage::AskTemplate { folder: None, use_container: false };
    assert_eq!(advance(stage.clone(), Event::TemplateChosen(6)), stage);
    assert_eq!(advance(stage.clone(), Event::TemplateChosen(usize::MAX)), stage);
}

#[test]
fn an_empty_folder_name_asks_again() {
    let stage = Stage::AskFolder { template: "flask-adminlte".to_string(), use_container: false };
    assert_eq!(advance(stage.clone(), Event::FolderEntered(String::new())), stage);
}

#[test]
fn full_command_line_goes_straight_to_the_confirmation() {
    let stage = begin(&words(&["-t", "flask-datta-able", "-n", "myapp", "-d"]));
    assert_eq!(stage, Stage::AskConfirm(selection("flask-datta-able", "myapp", true)));
}

#[test]
fn declined_confirmation_aborts_with_status_0() {
    let stage = begin(&words(&["-t", "flask-datta-able", "-n", "myapp"]));
    let stage = advance(stage, Event::Confirmed(false));
    assert_eq!(stage, Stage::Abort);
    assert_eq!(exit_status(&stage), Some(0));
    for event in every_event() {
        assert_eq!(advance(Stage::Abort, event), Stage::Abort);
    }
}

#[test]
fn confirmed_selection_is_cloned() {
    let stage = begin(&words(&["-t", "flask-datta-able", "-n", "myapp", "-d"]));
    let stage = advance(stage, Event::Confirmed(true));
    assert_eq!(stage, Stage::RunClone(selection("flask-datta-able", "myapp", true)));
    assert_eq!(exit_status(&stage), None);
}

#[test]
fn the_clone_command() {
    assert_eq!(
        clone_request(&selection("flask-datta-able", "myapp", true)),
        CloneRequest {
            program: "git".to_string(),
            arguments: words(&[
                "clone",
                "https://github.com/app-generator/flask-datta-able.git",
                "myapp",
            ]),
        }
    );
}

#[test]
fn a_failed_clone_is_reported_and_ends_with_1() {
    let stage = Stage::RunClone(selection("flask-datta-able", "myapp", false));
    let stage = advance(stage, Event::CloneFinished(false));
    assert_eq!(stage, Stage::ReportFailure);
    assert_eq!(exit_status(&stage), Some(1));
}

#[test]
fn a_clone_that_went_well_leads_to_the_advice() {
    let stage = Stage::RunClone(selection("flask-datta-able", "myapp", false));
    let stage = advance(stage, Event::CloneFinished(true));
    assert_eq!(stage, Stage::Advise(selection("flask-datta-able", "myapp", false)));
    assert_eq!(exit_status(&stage), Some(0));
}

#[test]
fn events_that_do_not_answer_leave_the_stage() {
    let stages = vec![
        Stage::AskTemplate { folder: None, use_container: false },
        Stage::AskFolder { template: "flask-adminlte".to_string(), use_container: true },
        Stage::AskConfirm(selection("flask-adminlte", "x", true)),
        Stage::RunClone(selection("flask-adminlte", "x", true)),
    ];
    for (at, stage) in stages.iter().enumerate() {
        for event in every_event() {
            let answers = match (at, &event) {
                (0, Event::TemplateChosen(index)) => *index < 6,
                (1, Event::FolderEntered(name)) => !name.is_empty(),
                (2, Event::Confirmed(_)) => true,
                (3, Event::CloneFinished(_)) => true,
                _ => false,
            };
            let next = advance(stage.clone(), event);
            assert_eq!(next == *stage, !answers);
        }
    }
}

#[test]
fn a_run_that_has_ended_stays_ended() {
    let ends = vec![
        Stage::ShowHelp,
        Stage::ShowList,
        Stage::ReportUsage(ParseError::MissingArgumentValue(Flag::Template)),
        Stage::Abort,
        Stage::Advise(selection("flask-adminlte", "x", false)),
        Stage::ReportFailure,
    ];
    for end in ends {
        assert!(exit_status(&end).is_some());
        for event in every_event() {
            assert_eq!(advance(end.clone(), event), end);
        }
    }
}

#[test]
fn first_stage_of_given_options() {
    let options = Options {
        use_container: true,
        template_name: Some("flask-volt-dashboard".to_string()),
        folder_name: Some("volt".to_string()),
    };
    assert_eq!(
        first_stage(options),
        Stage::AskConfirm(selection("flask-volt-dashboard", "volt", true))
    );
    let options = Options { use_container: false, template_name: None, folder_name: None };
    assert_eq!(first_stage(options), Stage::AskTemplate { folder: None, use_container: false });
}

#[test]
fn scenario_with_container() {
    let mut stage = begin(&words(&["-t", "flask-datta-able", "-n", "myapp", "-d"]));
    stage = advance(stage, Event::Confirmed(true));
    let request = match &stage {
        Stage::RunClone(selection) => clone_request(selection),
        other => panic!("clone expected, got {:?}", other),
    };
    assert_eq!(request.program, "git");
    assert_eq!(
        request.arguments,
        words(&["clone", "https://github.com/app-generator/flask-datta-able.git", "myapp"])
    );
    stage = advance(stage, Event::CloneFinished(true));
    let lines = match &stage {
        Stage::Advise(s) => advice_lines(&s.template, &s.folder, s.use_container, "linux"),
        other => panic!("advice expected, got {:?}", other),
    };
    let said: Vec<String> = lines.iter().map(|l| l.plain_text()).collect();
    assert_eq!(
        said,
        vec![
            " Next steps:",
            "",
            "    cd myapp",
            "    docker-compose up --build",
            "",
            "    And open your browser at: http://localhost:5000",
            "",
            "    For more information: https://github.com/app-generator/flask-datta-able",
        ]
    );
    assert_eq!(exit_status(&stage), Some(0));
}

#[test]
fn scenario_without_container_on_linux() {
    let mut stage = begin(&words(&["-t", "flask-datta-able", "-n", "myapp"]));
    stage = advance(stage, Event::Confirmed(true));
    stage = advance(stage, Event::CloneFinished(true));
    let lines = match &stage {
        Stage::Advise(s) => advice_lines(&s.template, &s.folder, s.use_container, "linux"),
        other => panic!("advice expected, got {:?}", other),
    };
    let said: Vec<String> = lines.iter().map(|l| l.plain_text()).collect();
    let at = |text: &str| said.iter().position(|l| l == text).unwrap();
    assert!(at("    python3 -m venv venv") < at("    source venv/bin/activate"));
    assert!(at("    source venv/bin/activate") < at("    export FLASK_APP=run.py"));
    assert!(at("    export FLASK_APP=run.py") < at("    export FLASK_ENV=development"));
    assert!(at("    export FLASK_ENV=development") < at("    flask run"));
    assert_eq!(at("    flask run") + 1, at("    And open your browser at: http://localhost:5000"));
}

#[test]
fn scenario_django_on_windows() {
    let mut stage = begin(&words(&["--template", "django-volt-dashboard"]));
    stage = advance(stage, Event::FolderEntered("site".to_string()));
    stage = advance(stage, Event::Confirmed(true));
    stage = advance(stage, Event::CloneFinished(true));
    let lines = match &stage {
        Stage::Advise(s) => advice_lines(&s.template, &s.folder, s.use_container, "windows"),
        other => panic!("advice expected, got {:?}", other),
    };
    let said: Vec<String> = lines.iter().map(|l| l.plain_text()).collect();
    let at = |text: &str| said.iter().position(|l| l == text).unwrap();
    assert!(at("    python -m venv venv") < at("    venv\\Scripts\\activate"));
    assert!(at("    venv\\Scripts\\activate") < at("    set DJANGO_SETTINGS_MODULE=core.settings"));
    assert!(
        at("    set DJANGO_SETTINGS_MODULE=core.settings")
            < at("    $env:DJANGO_SETTINGS_MODULE = \"core.settings\"")
    );
    assert!(
        at("    $env:DJANGO_SETTINGS_MODULE = \"core.settings\"")
            < at("    python manage.py migrate")
    );
    assert!(at("    python manage.py migrate") < at("    python manage.py runserver"));
    assert_eq!(
        at("    python manage.py runserver") + 1,
        at("    And open your browser at: http://localhost:8000")
    );
    assert!(!said.iter().any(|l| l.contains("source")));
}

#[test]
fn a_program_that_did_not_start_counts_as_a_failed_clone() {
    assert_eq!(clone_finished(true, true), Event::CloneFinished(true));
    assert_eq!(clone_finished(true, false), Event::CloneFinished(false));
    assert_eq!(clone_finished(false, false), Event::CloneFinished(false));
    assert_eq!(clone_finished(false, true), Event::CloneFinished(false));
    let stage = Stage::RunClone(selection("flask-adminlte", "x", false));
    assert_eq!(advance(stage, clone_finished(false, false)), Stage::ReportFailure);
}
