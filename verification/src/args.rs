//! Reading the command line.

use vstd::prelude::*;
use vstd::string::*;
use crate::text::{same_text, text_of, texts_of};

verus! {

/// The flags of the command line.
#[derive(Clone, Copy, Debug, PartialEq, Eq, Structural)]
pub enum Flag {
    Docker,
    Template,
    FolderName,
    Help,
    List,
}

/// The flag that a token spells, in its long or its short form. A token
/// that is neither spells none.
pub open spec fn flag_of(token: Seq<char>) -> Option<Flag> {
    if token == "--docker"@ || token == "-d"@ {
        Some(Flag::Docker)
    } else if token == "--template"@ || token == "-t"@ {
        Some(Flag::Template)
    } else if token == "--folder-name"@ || token == "-n"@ {
        Some(Flag::FolderName)
    } else if token == "--help"@ || token == "-h"@ {
        Some(Flag::Help)
    } else if token == "--list"@ || token == "-l"@ {
        Some(Flag::List)
    } else {
        None
    }
}

/// Whether the token behind `flag` is read as its value.
pub open spec fn takes_value(flag: Flag) -> bool {
    flag == Flag::Template || flag == Flag::FolderName
}

/// The index of the first token from `from` on that spells `flag`, or the
/// number of tokens where none does.
pub open spec fn first_position(args: Seq<Seq<char>>, flag: Flag, from: int) -> int
    decreases args.len() - from,
{
    if from < 0 || from >= args.len() {
        args.len() as int
    } else if flag_of(args[from]) == Some(flag) {
        from
    } else {
        first_position(args, flag, from + 1)
    }
}

/// Whether some token spells `flag`.
pub open spec fn given(args: Seq<Seq<char>>, flag: Flag) -> bool {
    first_position(args, flag, 0) < args.len()
}

/// The value of `flag`: the token behind the first one that spells it,
/// whatever that token is. The word `default` stands for no value, and so
/// does a flag that is not given.
pub open spec fn value_of(args: Seq<Seq<char>>, flag: Flag) -> Option<Seq<char>> {
    let at = first_position(args, flag, 0) + 1;
    if at < args.len() && args[at] != "default"@ {
        Some(args[at])
    } else {
        None
    }
}

/// The flag whose value is missing: the one that the last token spells,
/// where that flag takes a value.
pub open spec fn missing_value(args: Seq<Seq<char>>) -> Option<Flag> {
    if args.len() == 0 {
        None
    } else {
        match flag_of(args.last()) {
            Some(flag) => if takes_value(flag) {
                Some(flag)
            } else {
                None
            },
            None => None,
        }
    }
}

/// Why a command line was refused.
#[derive(Clone, Copy, Debug, PartialEq, Eq, Structural)]
pub enum ParseError {
    /// The command line ends with a flag that takes a value.
    MissingArgumentValue(Flag),
}

/// What the command line asks for, as far as it says.
#[derive(Clone, Debug, PartialEq, Eq)]
pub struct Options {
    pub use_container: bool,
    pub template_name: Option<String>,
    pub folder_name: Option<String>,
}

/// What `Options` holds.
pub struct OptionsModel {
    pub use_container: bool,
    pub template_name: Option<Seq<char>>,
    pub folder_name: Option<Seq<char>>,
}

impl View for Options {
    type V = OptionsModel;

    open spec fn view(&self) -> OptionsModel {
        OptionsModel {
            use_container: self.use_container,
            template_name: text_of(self.template_name),
            folder_name: text_of(self.folder_name),
        }
    }
}

/// A command line that was read: the options, and whether the help or
/// the list of templates is asked for.
#[derive(Clone, Debug, PartialEq, Eq)]
pub struct Invocation {
    pub options: Options,
    pub show_help: bool,
    pub show_list: bool,
}

/// What `Invocation` holds.
pub struct InvocationModel {
    pub options: OptionsModel,
    pub show_help: bool,
    pub show_list: bool,
}

impl View for Invocation {
    type V = InvocationModel;

    open spec fn view(&self) -> InvocationModel {
        InvocationModel {
            options: self.options@,
            show_help: self.show_help,
            show_list: self.show_list,
        }
    }
}

/// What reading `args` gives. A command line that ends with a flag that
/// takes a value is refused. Otherwise each flag is looked up on its own:
/// a token may be both the value of one flag and the spelling of another,
/// and tokens that spell no flag and are no value are passed over. No
/// tokens at all ask for the help.
pub open spec fn parse_model(args: Seq<Seq<char>>) -> Result<InvocationModel, ParseError> {
    match missing_value(args) {
        Some(flag) => Err(ParseError::MissingArgumentValue(flag)),
        None => Ok(
            InvocationModel {
                options: OptionsModel {
                    use_container: given(args, Flag::Docker),
                    template_name: value_of(args, Flag::Template),
                    folder_name: value_of(args, Flag::FolderName),
                },
                show_help: args.len() == 0 || given(args, Flag::Help),
                show_list: given(args, Flag::List),
            },
        ),
    }
}

/// What a result of reading holds.
pub open spec fn parsed_view(parsed: Result<Invocation, ParseError>) -> Result<
    InvocationModel,
    ParseError,
> {
    match parsed {
        Ok(invocation) => Ok(invocation@),
        Err(error) => Err(error),
    }
}

/// The flag that `token` spells.
pub fn read_flag(token: &str) -> (flag: Option<Flag>)
    ensures
        flag == flag_of(token@),
{
    if same_text(token, "--docker") || same_text(token, "-d") {
        Some(Flag::Docker)
    } else if same_text(token, "--template") || same_text(token, "-t") {
        Some(Flag::Template)
    } else if same_text(token, "--folder-name") || same_text(token, "-n") {
        Some(Flag::FolderName)
    } else if same_text(token, "--help") || same_text(token, "-h") {
        Some(Flag::Help)
    } else if same_text(token, "--list") || same_text(token, "-l") {
        Some(Flag::List)
    } else {
        None
    }
}

/// Whether `token` spells `flag`.
fn spells(token: &str, flag: Flag) -> (yes: bool)
    ensures
        yes == (flag_of(token@) == Some(flag)),
{
    match read_flag(token) {
        Some(found) => found == flag,
        None => false,
    }
}

/// Where the search from `from` ends, given that no token from `from` up
/// to `at` spells the flag and that the one at `at`, if there is one, does.
proof fn lemma_first_position(args: Seq<Seq<char>>, flag: Flag, from: int, at: int)
    requires
        0 <= from <= at <= args.len(),
        forall|j: int| from <= j < at ==> flag_of(#[trigger] args[j]) != Some(flag),
        at < args.len() ==> flag_of(args[at]) == Some(flag),
    ensures
        first_position(args, flag, from) == at,
    decreases at - from,
{
    if from < at {
        lemma_first_position(args, flag, from + 1, at);
    }
}

/// The index of the first token that spells `flag`, or the number of
/// tokens where none does.
fn find_flag(args: &Vec<String>, flag: Flag) -> (at: usize)
    ensures
        at == first_position(texts_of(args@), flag, 0),
        at <= args.len(),
{
    let mut at: usize = 0;
    while at < args.len()
        invariant
            at <= args.len(),
            forall|j: int| 0 <= j < at ==> flag_of(#[trigger] texts_of(args@)[j]) != Some(flag),
        decreases args.len() - at,
    {
        if spells(args[at].as_str(), flag) {
            proof {
                lemma_first_position(texts_of(args@), flag, 0, at as int);
            }
            return at;
        }
        at += 1;
    }
    proof {
        lemma_first_position(texts_of(args@), flag, 0, at as int);
    }
    at
}

/// The value that `args` gives for `flag`.
fn find_value(args: &Vec<String>, flag: Flag) -> (value: Option<String>)
    ensures
        text_of(value) == value_of(texts_of(args@), flag),
{
    let at = find_flag(args, flag);
    if at < args.len() && at + 1 < args.len() && !same_text(args[at + 1].as_str(), "default") {
        Some(args[at + 1].clone())
    } else {
        None
    }
}

/// The flag whose value `args` lacks.
fn find_missing_value(args: &Vec<String>) -> (flag: Option<Flag>)
    ensures
        flag == missing_value(texts_of(args@)),
{
    if args.len() == 0 {
        return None;
    }
    match read_flag(args[args.len() - 1].as_str()) {
        Some(Flag::Template) => Some(Flag::Template),
        Some(Flag::FolderName) => Some(Flag::FolderName),
        _ => None,
    }
}

/// Reads the arguments of the command line, the program's name left out.
///
/// Fails exactly if the last token spells a flag that takes a value, and
/// names that flag. Otherwise each flag is looked up on its own, in its
/// long or its short form; of a flag given twice the first counts; the
/// word `default` as a value stands for no value; no arguments at all ask
/// for the help.
pub fn parse_args(args: &Vec<String>) -> (parsed: Result<Invocation, ParseError>)
    ensures
        parsed_view(parsed) == parse_model(texts_of(args@)),
{
    match find_missing_value(args) {
        Some(flag) => Err(ParseError::MissingArgumentValue(flag)),
        None => {
            let use_container = find_flag(args, Flag::Docker) < args.len();
            let template_name = find_value(args, Flag::Template);
            let folder_name = find_value(args, Flag::FolderName);
            let show_help = args.len() == 0 || find_flag(args, Flag::Help) < args.len();
            let show_list = find_flag(args, Flag::List) < args.len();
            Ok(
                Invocation {
                    options: Options { use_container, template_name, folder_name },
                    show_help,
                    show_list,
                },
            )
        },
    }
}

/// Each flag is spelled by its long and by its short form.
pub proof fn lemma_flag_spellings()
    ensures
        flag_of("--docker"@) == Some(Flag::Docker),
        flag_of("-d"@) == Some(Flag::Docker),
        flag_of("--template"@) == Some(Flag::Template),
        flag_of("-t"@) == Some(Flag::Template),
        flag_of("--folder-name"@) == Some(Flag::FolderName),
        flag_of("-n"@) == Some(Flag::FolderName),
        flag_of("--help"@) == Some(Flag::Help),
        flag_of("-h"@) == Some(Flag::Help),
        flag_of("--list"@) == Some(Flag::List),
        flag_of("-l"@) == Some(Flag::List),
{
    reveal_strlit("--docker");
    reveal_strlit("-d");
    reveal_strlit("--template");
    reveal_strlit("-t");
    reveal_strlit("--folder-name");
    reveal_strlit("-n");
    reveal_strlit("--help");
    reveal_strlit("-h");
    reveal_strlit("--list");
    reveal_strlit("-l");
    assert("--docker"@.len() == 8 && "--template"@.len() == 10 && "--folder-name"@.len() == 13);
    assert("--help"@.len() == 6 && "--list"@.len() == 6);
    assert("-d"@.len() == 2 && "-t"@.len() == 2 && "-n"@.len() == 2 && "-h"@.len() == 2
        && "-l"@.len() == 2);
    assert("-t"@[1] != "-d"@[1]);
    assert("-n"@[1] != "-d"@[1]);
    assert("-n"@[1] != "-t"@[1]);
    assert("-h"@[1] != "-d"@[1]);
    assert("-h"@[1] != "-t"@[1]);
    assert("-h"@[1] != "-n"@[1]);
    assert("-l"@[1] != "-d"@[1]);
    assert("-l"@[1] != "-t"@[1]);
    assert("-l"@[1] != "-n"@[1]);
    assert("-l"@[1] != "-h"@[1]);
    assert("--list"@[2] != "--help"@[2]);
}

/// Whether the token at `at` stands right behind a flag that takes a
/// value.
pub open spec fn behind_value_flag(args: Seq<Seq<char>>, at: int) -> bool {
    0 < at < args.len() && match flag_of(args[at - 1]) {
        Some(flag) => takes_value(flag),
        None => false,
    }
}

/// Two command lines that differ at most in how their flags are spelled:
/// token by token they spell the same flag or none, and a token behind a
/// flag that takes a value is the same in both.
pub open spec fn same_up_to_spelling(a: Seq<Seq<char>>, b: Seq<Seq<char>>) -> bool {
    &&& a.len() == b.len()
    &&& forall|i: int| 0 <= i < a.len() ==> flag_of(#[trigger] a[i]) == flag_of(b[i])
    &&& forall|i: int| #[trigger] behind_value_flag(a, i) ==> a[i] == b[i]
}

/// The search for a flag ends within the command line or at its end, and
/// where it ends within, the token spells the flag.
proof fn lemma_position_spells(args: Seq<Seq<char>>, flag: Flag, from: int)
    requires
        0 <= from <= args.len(),
    ensures
        from <= first_position(args, flag, from) <= args.len(),
        first_position(args, flag, from) < args.len() ==> flag_of(
            args[first_position(args, flag, from)],
        ) == Some(flag),
    decreases args.len() - from,
{
    if from < args.len() && flag_of(args[from]) != Some(flag) {
        lemma_position_spells(args, flag, from + 1);
    }
}

/// The search for a flag ends at the same place in two command lines that
/// differ at most in spelling.
proof fn lemma_same_positions(a: Seq<Seq<char>>, b: Seq<Seq<char>>, flag: Flag, from: int)
    requires
        same_up_to_spelling(a, b),
        0 <= from <= a.len(),
    ensures
        first_position(a, flag, from) == first_position(b, flag, from),
    decreases a.len() - from,
{
    if from < a.len() {
        assert(flag_of(a[from]) == flag_of(b[from]));
        if flag_of(a[from]) != Some(flag) {
            lemma_same_positions(a, b, flag, from + 1);
        }
    }
}

/// The value of a flag is the same in two command lines that differ at
/// most in spelling.
proof fn lemma_same_values(a: Seq<Seq<char>>, b: Seq<Seq<char>>, flag: Flag)
    requires
        same_up_to_spelling(a, b),
        takes_value(flag),
    ensures
        value_of(a, flag) == value_of(b, flag),
{
    lemma_same_positions(a, b, flag, 0);
    lemma_position_spells(a, flag, 0);
    let at = first_position(a, flag, 0) + 1;
    if at < a.len() {
        assert(behind_value_flag(a, at));
    }
}

/// The long and the short form of a flag mean the same: two command lines
/// that differ at most in how their flags are spelled are read alike.
pub proof fn lemma_spelling_invariance(a: Seq<Seq<char>>, b: Seq<Seq<char>>)
    requires
        same_up_to_spelling(a, b),
    ensures
        parse_model(a) == parse_model(b),
{
    lemma_same_positions(a, b, Flag::Docker, 0);
    lemma_same_positions(a, b, Flag::Help, 0);
    lemma_same_positions(a, b, Flag::List, 0);
    lemma_same_values(a, b, Flag::Template);
    lemma_same_values(a, b, Flag::FolderName);
    if a.len() > 0 {
        assert(flag_of(a[a.len() - 1]) == flag_of(b[b.len() - 1]));
    }
}

/// One more token at the end does not move the place where the search
/// for a flag ends, unless the search ran to the end and the new token
/// spells the flag.
proof fn lemma_position_after_push(args: Seq<Seq<char>>, token: Seq<char>, flag: Flag, from: int)
    requires
        0 <= from <= args.len(),
    ensures
        first_position(args.push(token), flag, from) == if first_position(args, flag, from)
            < args.len() || flag_of(token) == Some(flag) {
            first_position(args, flag, from)
        } else {
            (args.len() + 1) as int
        },
    decreases args.len() - from,
{
    let longer = args.push(token);
    if from < args.len() {
        assert(longer[from] == args[from]);
        if flag_of(args[from]) != Some(flag) {
            lemma_position_after_push(args, token, flag, from + 1);
        }
    } else {
        assert(longer[from] == token);
        assert(first_position(longer, flag, from + 1) == longer.len());
    }
}

/// A token that spells no flag and is no value is passed over: behind a
/// command line that is complete and not empty it changes nothing.
pub proof fn lemma_unknown_token_is_ignored(args: Seq<Seq<char>>, token: Seq<char>)
    requires
        args.len() > 0,
        missing_value(args) is None,
        flag_of(token) is None,
    ensures
        parse_model(args.push(token)) == parse_model(args),
{
    let longer = args.push(token);
    assert(longer.last() == token);
    lemma_position_after_push(args, token, Flag::Docker, 0);
    lemma_position_after_push(args, token, Flag::Help, 0);
    lemma_position_after_push(args, token, Flag::List, 0);
    lemma_position_after_push(args, token, Flag::Template, 0);
    lemma_position_after_push(args, token, Flag::FolderName, 0);
    lemma_position_spells(args, Flag::Template, 0);
    lemma_position_spells(args, Flag::FolderName, 0);
    let template_at = first_position(args, Flag::Template, 0);
    let folder_at = first_position(args, Flag::FolderName, 0);
    assert(template_at != args.len() - 1);
    assert(folder_at != args.len() - 1);
    if template_at + 1 < args.len() {
        assert(longer[template_at + 1] == args[template_at + 1]);
    }
    if folder_at + 1 < args.len() {
        assert(longer[folder_at + 1] == args[folder_at + 1]);
    }
}

} // verus!
