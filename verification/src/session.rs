//! The course of one run: what the tool is about to do, and what it does
//! next once that is done.
//!
//! The library neither asks, clones nor prints. The caller does what the
//! stage names, reports what came of it as an event, and is told the next
//! stage.

use vstd::prelude::*;
use vstd::string::*;
use crate::args::{
    Flag, Options, OptionsModel, ParseError, given, missing_value, parse_args, parse_model,
};
use crate::catalog::{catalog, catalog_names, in_catalog, is_known_template};
use crate::remote::{clone_source, clone_url};
use crate::text::{text_of, texts_of};

verus! {

/// What is fetched, where to, and how the project is to run: every value
/// is settled.
#[derive(Clone, Debug, PartialEq, Eq)]
pub struct Selection {
    pub template: String,
    pub folder: String,
    pub use_container: bool,
}

/// What a `Selection` holds.
pub struct SelectionModel {
    pub template: Seq<char>,
    pub folder: Seq<char>,
    pub use_container: bool,
}

impl View for Selection {
    type V = SelectionModel;

    open spec fn view(&self) -> SelectionModel {
        SelectionModel {
            template: self.template@,
            folder: self.folder@,
            use_container: self.use_container,
        }
    }
}

/// What the tool is about to do. The first three stages and the last
/// three end the run; each of the others waits for an event.
#[derive(Clone, Debug, PartialEq, Eq)]
pub enum Stage {
    /// Print the help and end.
    ShowHelp,
    /// Print the list of templates and end.
    ShowList,
    /// Say that the command line is wrong and end.
    ReportUsage(ParseError),
    /// Let the user pick a template from the catalog, the first one
    /// marked.
    AskTemplate { folder: Option<String>, use_container: bool },
    /// Ask the user for the name of the folder.
    AskFolder { template: String, use_container: bool },
    /// Ask the user whether to go on.
    AskConfirm(Selection),
    /// Clone the template into the folder.
    RunClone(Selection),
    /// Say that the user has declined and end.
    Abort,
    /// Say that the clone went well, print the advice and end.
    Advise(Selection),
    /// Say that the clone failed, whatever made it fail, and end.
    ReportFailure,
}

/// What a `Stage` holds.
pub enum StageModel {
    ShowHelp,
    ShowList,
    ReportUsage(ParseError),
    AskTemplate { folder: Option<Seq<char>>, use_container: bool },
    AskFolder { template: Seq<char>, use_container: bool },
    AskConfirm(SelectionModel),
    RunClone(SelectionModel),
    Abort,
    Advise(SelectionModel),
    ReportFailure,
}

impl View for Stage {
    type V = StageModel;

    open spec fn view(&self) -> StageModel {
        match *self {
            Stage::ShowHelp => StageModel::ShowHelp,
            Stage::ShowList => StageModel::ShowList,
            Stage::ReportUsage(error) => StageModel::ReportUsage(error),
            Stage::AskTemplate { folder, use_container } => StageModel::AskTemplate {
                folder: text_of(folder),
                use_container,
            },
            Stage::AskFolder { template, use_container } => StageModel::AskFolder {
                template: template@,
                use_container,
            },
            Stage::AskConfirm(selection) => StageModel::AskConfirm(selection@),
            Stage::RunClone(selection) => StageModel::RunClone(selection@),
            Stage::Abort => StageModel::Abort,
            Stage::Advise(selection) => StageModel::Advise(selection@),
            Stage::ReportFailure => StageModel::ReportFailure,
        }
    }
}

/// What came of the work that a stage named.
#[derive(Clone, Debug, PartialEq, Eq)]
pub enum Event {
    /// The user picked the template at this index of the catalog.
    TemplateChosen(usize),
    /// The user entered this name for the folder.
    FolderEntered(String),
    /// The user agreed to go on, or declined.
    Confirmed(bool),
    /// The clone ended, well or not.
    CloneFinished(bool),
}

/// What an `Event` holds.
pub enum EventModel {
    TemplateChosen(int),
    FolderEntered(Seq<char>),
    Confirmed(bool),
    CloneFinished(bool),
}

impl View for Event {
    type V = EventModel;

    open spec fn view(&self) -> EventModel {
        match *self {
            Event::TemplateChosen(index) => EventModel::TemplateChosen(index as int),
            Event::FolderEntered(name) => EventModel::FolderEntered(name@),
            Event::Confirmed(yes) => EventModel::Confirmed(yes),
            Event::CloneFinished(success) => EventModel::CloneFinished(success),
        }
    }
}

/// The stage once the template is settled: with a folder at hand the
/// confirmation, else the question for the folder.
pub open spec fn with_template(
    template: Seq<char>,
    folder: Option<Seq<char>>,
    use_container: bool,
) -> StageModel {
    match folder {
        Some(folder) => StageModel::AskConfirm(SelectionModel { template, folder, use_container }),
        None => StageModel::AskFolder { template, use_container },
    }
}

/// The first stage for the options of a command line that asks neither
/// for the help nor for the list. A template that is not given, or is not
/// in the catalog, is asked for: it is no error.
pub open spec fn first_question(options: OptionsModel) -> StageModel {
    match options.template_name {
        Some(template) => if in_catalog(template) {
            with_template(template, options.folder_name, options.use_container)
        } else {
            StageModel::AskTemplate {
                folder: options.folder_name,
                use_container: options.use_container,
            }
        },
        None => StageModel::AskTemplate {
            folder: options.folder_name,
            use_container: options.use_container,
        },
    }
}

/// The first stage of a run: a wrong command line is reported; the help
/// goes before the list, and both before any question.
pub open spec fn begin_model(args: Seq<Seq<char>>) -> StageModel {
    match parse_model(args) {
        Err(error) => StageModel::ReportUsage(error),
        Ok(invocation) => if invocation.show_help {
            StageModel::ShowHelp
        } else if invocation.show_list {
            StageModel::ShowList
        } else {
            first_question(invocation.options)
        },
    }
}

/// The stage that follows `stage` on `event`.
///
/// A choice within the catalog settles the template; a name that is not
/// empty settles the folder; agreement starts the clone and a refusal
/// ends the run; a clone that went well leads to the advice, one that
/// failed to the report of the failure. An event that does not answer
/// the stage (another kind of event, an index beyond the catalog, an
/// empty name, any event once the run has ended) leaves the stage as it
/// is.
pub open spec fn advance_model(stage: StageModel, event: EventModel) -> StageModel {
    match stage {
        StageModel::AskTemplate { folder, use_container } => match event {
            EventModel::TemplateChosen(index) => if 0 <= index < catalog_names().len() {
                with_template(catalog_names()[index], folder, use_container)
            } else {
                stage
            },
            _ => stage,
        },
        StageModel::AskFolder { template, use_container } => match event {
            EventModel::FolderEntered(name) => if name.len() > 0 {
                StageModel::AskConfirm(SelectionModel { template, folder: name, use_container })
            } else {
                stage
            },
            _ => stage,
        },
        StageModel::AskConfirm(selection) => match event {
            EventModel::Confirmed(yes) => if yes {
                StageModel::RunClone(selection)
            } else {
                StageModel::Abort
            },
            _ => stage,
        },
        StageModel::RunClone(selection) => match event {
            EventModel::CloneFinished(success) => if success {
                StageModel::Advise(selection)
            } else {
                StageModel::ReportFailure
            },
            _ => stage,
        },
        _ => stage,
    }
}

/// The stage once the template is settled.
fn stage_with_template(template: String, folder: Option<String>, use_container: bool) -> (stage:
    Stage)
    ensures
        stage@ == with_template(template@, text_of(folder), use_container),
{
    match folder {
        Some(folder) => Stage::AskConfirm(Selection { template, folder, use_container }),
        None => Stage::AskFolder { template, use_container },
    }
}

/// The first stage for the options of a command line that asks neither
/// for the help nor for the list.
pub fn first_stage(options: Options) -> (stage: Stage)
    ensures
        stage@ == first_question(options@),
{
    let Options { use_container, template_name, folder_name } = options;
    match template_name {
        Some(template) => {
            if is_known_template(template.as_str()) {
                stage_with_template(template, folder_name, use_container)
            } else {
                Stage::AskTemplate { folder: folder_name, use_container }
            }
        },
        None => Stage::AskTemplate { folder: folder_name, use_container },
    }
}

/// The first stage of a run, from the arguments of the command line, the
/// program's name left out.
pub fn begin(args: &Vec<String>) -> (stage: Stage)
    ensures
        stage@ == begin_model(texts_of(args@)),
{
    match parse_args(args) {
        Err(error) => Stage::ReportUsage(error),
        Ok(invocation) => {
            if invocation.show_help {
                Stage::ShowHelp
            } else if invocation.show_list {
                Stage::ShowList
            } else {
                first_stage(invocation.options)
            }
        },
    }
}

/// The stage that follows `stage` on `event`. An event that does not
/// answer the stage leaves it as it is.
pub fn advance(stage: Stage, event: Event) -> (next: Stage)
    ensures
        next@ == advance_model(stage@, event@),
{
    match stage {
        Stage::AskTemplate { folder, use_container } => match event {
            Event::TemplateChosen(index) => {
                let names = catalog();
                if index < names.len() {
                    assert(texts_of(names@)[index as int] == names@[index as int]@);
                    stage_with_template(names[index].clone(), folder, use_container)
                } else {
                    assert(texts_of(names@).len() == names@.len());
                    Stage::AskTemplate { folder, use_container }
                }
            },
            _ => Stage::AskTemplate { folder, use_container },
        },
        Stage::AskFolder { template, use_container } => match event {
            Event::FolderEntered(name) => {
                if !name.as_str().is_empty() {
                    Stage::AskConfirm(Selection { template, folder: name, use_container })
                } else {
                    Stage::AskFolder { template, use_container }
                }
            },
            _ => Stage::AskFolder { template, use_container },
        },
        Stage::AskConfirm(selection) => match event {
            Event::Confirmed(yes) => {
                if yes {
                    Stage::RunClone(selection)
                } else {
                    Stage::Abort
                }
            },
            _ => Stage::AskConfirm(selection),
        },
        Stage::RunClone(selection) => match event {
            Event::CloneFinished(success) => {
                if success {
                    Stage::Advise(selection)
                } else {
                    Stage::ReportFailure
                }
            },
            _ => Stage::RunClone(selection),
        },
        other => other,
    }
}

/// The event for a clone that has ended. The clone went well if the
/// program could be started and ended well; a program that could not be
/// started counts as a clone that failed, and the two are not told apart.
pub fn clone_finished(started: bool, succeeded: bool) -> (event: Event)
    ensures
        event@ == EventModel::CloneFinished(started && succeeded),
{
    Event::CloneFinished(started && succeeded)
}

/// Whether the run ends with `stage`.
pub open spec fn is_final(stage: StageModel) -> bool {
    match stage {
        StageModel::AskTemplate { .. } => false,
        StageModel::AskFolder { .. } => false,
        StageModel::AskConfirm(_) => false,
        StageModel::RunClone(_) => false,
        _ => true,
    }
}

/// The status that the process ends with at `stage`: 2 for a wrong
/// command line, 1 for a clone that failed, 0 at every other end, and
/// none while the run goes on.
pub open spec fn exit_status_of(stage: StageModel) -> Option<i32> {
    match stage {
        StageModel::ReportUsage(_) => Some(2i32),
        StageModel::ReportFailure => Some(1i32),
        _ => if is_final(stage) {
            Some(0i32)
        } else {
            None
        },
    }
}

/// The status that the process ends with at `stage`, if the run ends
/// there.
pub fn exit_status(stage: &Stage) -> (status: Option<i32>)
    ensures
        status == exit_status_of(stage@),
{
    match stage {
        Stage::ReportUsage(_) => Some(2),
        Stage::ReportFailure => Some(1),
        Stage::AskTemplate { .. } => None,
        Stage::AskFolder { .. } => None,
        Stage::AskConfirm(_) => None,
        Stage::RunClone(_) => None,
        _ => Some(0),
    }
}

/// A command to run: the program and its arguments.
#[derive(Clone, Debug, PartialEq, Eq)]
pub struct CloneRequest {
    pub program: String,
    pub arguments: Vec<String>,
}

/// What a `CloneRequest` holds.
pub struct CloneRequestModel {
    pub program: Seq<char>,
    pub arguments: Seq<Seq<char>>,
}

impl View for CloneRequest {
    type V = CloneRequestModel;

    open spec fn view(&self) -> CloneRequestModel {
        CloneRequestModel { program: self.program@, arguments: texts_of(self.arguments@) }
    }
}

/// The clone for a selection: `git clone`, the address of the template,
/// and the folder as it was given.
pub open spec fn clone_request_model(selection: SelectionModel) -> CloneRequestModel {
    CloneRequestModel {
        program: "git"@,
        arguments: seq!["clone"@, clone_source(selection.template), selection.folder],
    }
}

/// The command that clones the template of `selection` into its folder.
pub fn clone_request(selection: &Selection) -> (request: CloneRequest)
    ensures
        request@ == clone_request_model(selection@),
{
    let mut arguments: Vec<String> = Vec::new();
    arguments.push("clone".to_owned());
    arguments.push(clone_url(selection.template.as_str()));
    arguments.push(selection.folder.clone());
    assert(texts_of(arguments@) =~= clone_request_model(selection@).arguments);
    CloneRequest { program: "git".to_owned(), arguments }
}

/// Whatever template `stage` holds is one of the catalog.
pub open spec fn template_settled(stage: StageModel) -> bool {
    match stage {
        StageModel::AskFolder { template, .. } => in_catalog(template),
        StageModel::AskConfirm(selection) => in_catalog(selection.template),
        StageModel::RunClone(selection) => in_catalog(selection.template),
        StageModel::Advise(selection) => in_catalog(selection.template),
        _ => true,
    }
}

/// How far a run has come: the questions in their order, then the clone,
/// then the end.
pub open spec fn progress(stage: StageModel) -> int {
    match stage {
        StageModel::AskTemplate { .. } => 0,
        StageModel::AskFolder { .. } => 1,
        StageModel::AskConfirm(_) => 2,
        StageModel::RunClone(_) => 3,
        _ => 4,
    }
}

/// A run starts with a template of the catalog or with none, and never
/// with the clone or with what follows it: the clone is always asked for
/// first.
pub proof fn lemma_begin_settled(args: Seq<Seq<char>>)
    ensures
        template_settled(begin_model(args)),
        progress(begin_model(args)) < 3 || begin_model(args) is ShowHelp || begin_model(args)
            is ShowList || begin_model(args) is ReportUsage,
{
}

/// Once a template of the catalog is settled it stays: by the time of the
/// clone, and of the advice, the template is one of the catalog.
pub proof fn lemma_advance_settled(stage: StageModel, event: EventModel)
    requires
        template_settled(stage),
    ensures
        template_settled(advance_model(stage, event)),
{
    match stage {
        StageModel::AskTemplate { folder, use_container } => match event {
            EventModel::TemplateChosen(index) => {
                if 0 <= index < catalog_names().len() {
                    assert(catalog_names().contains(catalog_names()[index]));
                }
            },
            _ => {},
        },
        _ => {},
    }
}

/// A run only moves forward: an event either leaves the stage as it is
/// or leads to a later one, and a run that has ended stays ended.
pub proof fn lemma_advance_forward(stage: StageModel, event: EventModel)
    ensures
        advance_model(stage, event) == stage || progress(advance_model(stage, event)) > progress(
            stage,
        ),
        is_final(stage) ==> advance_model(stage, event) == stage,
{
}

/// With no arguments the help is shown and the process ends with 0:
/// nothing is asked and nothing is cloned.
pub proof fn lemma_no_arguments_show_help()
    ensures
        begin_model(Seq::empty()) == StageModel::ShowHelp,
        exit_status_of(StageModel::ShowHelp) == Some(0i32),
{
}

/// A command line that asks for the list, is complete and does not ask
/// for the help shows the list and ends with 0: nothing is asked and
/// nothing is cloned.
pub proof fn lemma_list_ends_run(args: Seq<Seq<char>>)
    requires
        given(args, Flag::List),
        !given(args, Flag::Help),
        missing_value(args) is None,
    ensures
        begin_model(args) == StageModel::ShowList,
        exit_status_of(StageModel::ShowList) == Some(0i32),
        is_final(StageModel::ShowList),
{
}

/// A template that is not in the catalog is no error: where neither the
/// help nor the list is asked for, the run starts with the menu of
/// templates, and keeps the folder and the choice of a container.
pub proof fn lemma_unknown_template_opens_menu(args: Seq<Seq<char>>)
    requires
        parse_model(args) is Ok,
        !parse_model(args)->Ok_0.show_help,
        !parse_model(args)->Ok_0.show_list,
        match parse_model(args)->Ok_0.options.template_name {
            Some(template) => !in_catalog(template),
            None => true,
        },
    ensures
        begin_model(args) == (StageModel::AskTemplate {
            folder: parse_model(args)->Ok_0.options.folder_name,
            use_container: parse_model(args)->Ok_0.options.use_container,
        }),
{
}

/// When the user declines, the run ends with the notice and with status
/// 0, and no event leads on from there.
pub proof fn lemma_refusal_ends_run(selection: SelectionModel, later: EventModel)
    ensures
        advance_model(StageModel::AskConfirm(selection), EventModel::Confirmed(false))
            == StageModel::Abort,
        exit_status_of(StageModel::Abort) == Some(0i32),
        advance_model(StageModel::Abort, later) == StageModel::Abort,
{
}

/// Nothing is cloned unless the user has agreed: only agreement at the
/// confirmation leads to the clone, and for the selection that was
/// confirmed.
pub proof fn lemma_clone_needs_agreement(stage: StageModel, event: EventModel)
    requires
        advance_model(stage, event) is RunClone,
        !(stage is RunClone),
    ensures
        stage == StageModel::AskConfirm(advance_model(stage, event)->RunClone_0),
        event == EventModel::Confirmed(true),
{
}

/// The advice follows only a clone that went well.
pub proof fn lemma_advice_needs_success(stage: StageModel, event: EventModel)
    requires
        advance_model(stage, event) is Advise,
        !(stage is Advise),
    ensures
        stage == StageModel::RunClone(advance_model(stage, event)->Advise_0),
        event == EventModel::CloneFinished(true),
{
}

/// A command line that ends with a flag that takes a value is reported as
/// wrong, with the flag, and no other is; the process then ends with a
/// status other than 0.
pub proof fn lemma_missing_value_is_reported(args: Seq<Seq<char>>)
    ensures
        match missing_value(args) {
            Some(flag) => begin_model(args) == StageModel::ReportUsage(
                ParseError::MissingArgumentValue(flag),
            ) && exit_status_of(begin_model(args)) == Some(2i32),
            None => !(begin_model(args) is ReportUsage),
        },
{
}

/// The process ends exactly where the run does, and with 0 unless the
/// command line was wrong or the clone failed.
pub proof fn lemma_status_at_the_end(stage: StageModel)
    ensures
        exit_status_of(stage) is Some <==> is_final(stage),
        is_final(stage) && !(stage is ReportUsage) && !(stage is ReportFailure) ==> exit_status_of(
            stage,
        ) == Some(0i32),
        stage is ReportUsage || stage is ReportFailure ==> exit_status_of(stage) is Some
            && exit_status_of(stage) != Some(0i32),
{
}

} // verus!
