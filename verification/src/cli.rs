//! The command line.

use std::path::PathBuf;

use vstd::prelude::*;

use crate::path;
use crate::scrcpy::ScrcpyOptions;
use crate::text;

verus! {

/// What an option takes.
#[derive(Debug, Clone, Copy, PartialEq, Eq, Structural)]
pub enum CliKind {
    /// Nothing: it is given or not.
    Switch,
    /// A path that is not empty.
    Path,
    /// A text.
    Text,
    /// A number from 0 to `u64::MAX`.
    Number,
}

/// An option of a command line.
#[verifier::ext_equal]
pub struct CliOption {
    /// Its name, without the two hyphens in front.
    pub long: Seq<char>,
    pub kind: CliKind,
    /// What stands for its value in the help.
    pub value_name: Option<Seq<char>>,
    pub help: Seq<char>,
    /// What it takes when it is not given.
    pub default: Option<Seq<char>>,
    /// The option that must not be given with it.
    pub conflict: Option<Seq<char>>,
}

/// What a command line says about an option.
pub enum CliValue {
    Switch(bool),
    Path(Option<Seq<u8>>),
    Text(Option<Seq<char>>),
    Number(Option<u64>),
}

/// What comes of a command line.
pub enum CliOutcome {
    /// It is accepted, and says this about the options.
    Accepted(Map<Seq<char>, CliValue>),
    /// There is a text to show instead, without and with styling: an error, or else the help or
    /// the version.
    Shown { text: Seq<char>, styled: Seq<char>, is_error: bool },
}

/// The command of the crate `clap`: a description of a command line.
#[verifier::external_type_specification]
#[verifier::external_body]
pub struct ExCommand(clap::Command);

/// What the crate `clap` made of a command line.
#[verifier::external_type_specification]
#[verifier::external_body]
pub struct ExArgMatches(clap::ArgMatches);

/// The options that a command holds, in the order in which they were added.
pub uninterp spec fn declared_options(command: clap::Command) -> Seq<CliOption>;

/// The name of a command, what it is for, and its version.
pub uninterp spec fn declared_title(command: clap::Command) -> Seq<Seq<char>>;

/// What the matches hold, by the names of the options.
pub uninterp spec fn matched_values(found: clap::ArgMatches) -> Map<Seq<char>, CliValue>;

/// What `clap::Command::try_get_matches_from` makes of a command line, given the title and the
/// options of a command.
pub uninterp spec fn parsed_command_line(
    title: Seq<Seq<char>>,
    options: Seq<CliOption>,
    argv: Seq<Seq<u8>>,
) -> CliOutcome;

/// The names can stand on a command line: none is empty, starts with a hyphen, holds an equals
/// sign, is one of the two that every command has, or occurs twice; and a conflict names
/// another option.
pub open spec fn usable(options: Seq<CliOption>) -> bool {
    &&& forall|i: int|
        0 <= i < options.len() ==> {
            &&& (#[trigger] options[i]).long.len() > 0
            &&& options[i].long[0] != '-'
            &&& !options[i].long.contains('=')
            &&& options[i].long != "help"@
            &&& options[i].long != "version"@
        }
    &&& forall|i: int, j: int|
        0 <= i < j < options.len() ==> (#[trigger] options[i]).long != (
        #[trigger] options[j]).long
    &&& forall|i: int|
        0 <= i < options.len() ==> match (#[trigger] options[i]).conflict {
            Some(other) => other != options[i].long && names(options, other),
            None => true,
        }
}

/// One of the options has this name.
pub open spec fn names(options: Seq<CliOption>, long: Seq<char>) -> bool {
    exists|j: int| 0 <= j < options.len() && (#[trigger] options[j]).long == long
}

/// What an option that is not given is taken to say.
pub open spec fn value_when_absent(option: CliOption) -> CliValue {
    match option.kind {
        CliKind::Switch => CliValue::Switch(false),
        CliKind::Path => CliValue::Path(
            match option.default {
                Some(default) => Some(vstd::utf8::encode_utf8(default)),
                None => None,
            },
        ),
        CliKind::Text => CliValue::Text(option.default),
        CliKind::Number => CliValue::Number(
            match option.default {
                Some(default) => match text::number(default) {
                    Some(n) => Some(n as u64),
                    None => None,
                },
                None => None,
            },
        ),
    }
}

/// The value is of the kind that the option takes, and is there if the option has a default.
pub open spec fn suits(option: CliOption, value: CliValue) -> bool {
    match value {
        CliValue::Switch(_) => option.kind == CliKind::Switch,
        CliValue::Path(path) => {
            &&& option.kind == CliKind::Path
            &&& option.default is Some ==> path is Some
            &&& path is Some ==> path->0.len() > 0
        },
        CliValue::Text(text) => option.kind == CliKind::Text && (option.default is Some
            ==> text is Some),
        CliValue::Number(number) => option.kind == CliKind::Number && (option.default is Some
            ==> number is Some),
    }
}

/// There is a suitable value for each option, and no two switches that conflict are on.
pub open spec fn answers(options: Seq<CliOption>, values: Map<Seq<char>, CliValue>) -> bool {
    &&& forall|i: int|
        0 <= i < options.len() ==> values.dom().contains((#[trigger] options[i]).long) && suits(
            options[i],
            values[options[i].long],
        )
    &&& forall|i: int|
        0 <= i < options.len() ==> match (#[trigger] options[i]).conflict {
            Some(other) => !(values[options[i].long] == CliValue::Switch(true) && values[other]
                == CliValue::Switch(true)),
            None => true,
        }
}

/// One thing that a command line says: an option, by its place among the options, and the
/// value that it is given, in bytes, which counts for nothing if it is a switch.
pub struct CliSetting {
    pub option: int,
    pub value: Seq<u8>,
}

/// The words that spell out some settings.
pub open spec fn spelled(options: Seq<CliOption>, settings: Seq<CliSetting>) -> Seq<Seq<u8>>
    decreases settings.len(),
{
    if settings.len() == 0 {
        seq![]
    } else {
        let last = settings.last();
        let word = vstd::utf8::encode_utf8("--"@ + options[last.option].long);
        spelled(options, settings.drop_last()) + if options[last.option].kind == CliKind::Switch {
            seq![word]
        } else {
            seq![word, last.value]
        }
    }
}

/// The option can be given this value in a word of its own.
pub open spec fn can_be(option: CliOption, value: Seq<u8>) -> bool {
    option.kind == CliKind::Switch || {
        &&& value.len() > 0 ==> value[0] != '-' as u8
        &&& option.kind == CliKind::Path ==> value.len() > 0
        &&& option.kind != CliKind::Path ==> vstd::utf8::valid_utf8(value)
        &&& option.kind == CliKind::Number ==> match text::number(
            vstd::utf8::decode_utf8(value),
        ) {
            Some(n) => n <= u64::MAX,
            None => false,
        }
    }
}

/// There is an option for each setting, which can be given its value, and none is set twice.
pub open spec fn settable(options: Seq<CliOption>, settings: Seq<CliSetting>) -> bool {
    &&& forall|k: int|
        0 <= k < settings.len() ==> 0 <= (#[trigger] settings[k]).option < options.len()
            && can_be(options[settings[k].option], settings[k].value)
    &&& forall|k: int, l: int|
        0 <= k < l < settings.len() ==> (#[trigger] settings[k]).option != (
        #[trigger] settings[l]).option
}

/// One of the settings is about this option.
pub open spec fn is_set(settings: Seq<CliSetting>, option: int) -> bool {
    exists|k: int| 0 <= k < settings.len() && (#[trigger] settings[k]).option == option
}

/// Two of the settings must not be given together.
pub open spec fn conflicting(options: Seq<CliOption>, settings: Seq<CliSetting>) -> bool {
    exists|k: int, l: int|
        0 <= k < settings.len() && 0 <= l < settings.len() && options[(
        #[trigger] settings[k]).option].conflict == Some(
            options[(#[trigger] settings[l]).option].long,
        )
}

/// What an option that is given this value is taken to say.
pub open spec fn value_when_set(option: CliOption, value: Seq<u8>) -> CliValue {
    match option.kind {
        CliKind::Switch => CliValue::Switch(true),
        CliKind::Path => CliValue::Path(Some(value)),
        CliKind::Text => CliValue::Text(Some(vstd::utf8::decode_utf8(value))),
        CliKind::Number => CliValue::Number(
            match text::number(vstd::utf8::decode_utf8(value)) {
                Some(n) => Some(n as u64),
                None => None,
            },
        ),
    }
}

/// The values are those of the settings, and for the other options what they say when they are
/// absent.
pub open spec fn follow(
    options: Seq<CliOption>,
    settings: Seq<CliSetting>,
    values: Map<Seq<char>, CliValue>,
) -> bool {
    &&& forall|k: int|
        0 <= k < settings.len() ==> values[options[(#[trigger] settings[k]).option].long]
            == value_when_set(options[settings[k].option], settings[k].value)
    &&& forall|i: int|
        0 <= i < options.len() && !is_set(settings, i) ==> values[(#[trigger] options[i]).long]
            == value_when_absent(options[i])
}

/// The words of a command line after the name of the program.
pub open spec fn words_of(argv: Seq<Seq<u8>>) -> Seq<Seq<u8>> {
    if argv.len() == 0 {
        seq![]
    } else {
        argv.drop_first()
    }
}

/// A line that spells out some settings is accepted with their values, unless two of them
/// conflict: then it is an error.
pub open spec fn heeds(options: Seq<CliOption>, argv: Seq<Seq<u8>>, outcome: CliOutcome) -> bool {
    forall|settings: Seq<CliSetting>| #[trigger]
        spelled(options, settings) == words_of(argv) && settable(options, settings)
            ==> match outcome {
            CliOutcome::Accepted(values) => !conflicting(options, settings) && follow(
                options,
                settings,
                values,
            ),
            CliOutcome::Shown { is_error, .. } => conflicting(options, settings) && is_error,
        }
}

/// Calls `clap::Command::new`, `about` and `version`: a command that has no options yet.
#[verifier::external_body]
fn new_command(name: &'static str, about: &'static str, version: &'static str) -> (command:
    clap::Command)
    ensures
        declared_title(command) == seq![name@, about@, version@],
        declared_options(command) == Seq::<CliOption>::empty(),
{
    clap::Command::new(name).about(about).version(version)
}

/// Calls `clap::Command::arg` with an argument whose action is `SetTrue`: the command has one
/// more option, which takes no value and must not be given with `conflict`.
#[verifier::external_body]
fn with_switch(
    command: clap::Command,
    long: &'static str,
    help: &'static str,
    conflict: Option<&'static str>,
) -> (more: clap::Command)
    ensures
        declared_title(more) == declared_title(command),
        declared_options(more) == declared_options(command).push(
            CliOption {
                long: long@,
                kind: CliKind::Switch,
                value_name: None,
                help: help@,
                default: None,
                conflict: match conflict {
                    Some(other) => Some(other@),
                    None => None,
                },
            },
        ),
{
    command.arg(
        clap::Arg::new(long).long(long).help(help).action(clap::ArgAction::SetTrue)
            .conflicts_with_all(conflict),
    )
}

/// Calls `clap::Command::arg` with an argument whose value goes through
/// `PathBufValueParser`: the command has one more option, which takes a path that is not empty.
#[verifier::external_body]
fn with_path(
    command: clap::Command,
    long: &'static str,
    value_name: &'static str,
    help: &'static str,
) -> (more: clap::Command)
    ensures
        declared_title(more) == declared_title(command),
        declared_options(more) == declared_options(command).push(
            CliOption {
                long: long@,
                kind: CliKind::Path,
                value_name: Some(value_name@),
                help: help@,
                default: None,
                conflict: None,
            },
        ),
{
    command.arg(
        clap::Arg::new(long).long(long).value_name(value_name).help(help).value_parser(
            clap::builder::PathBufValueParser::new(),
        ),
    )
}

/// Calls `clap::Command::arg` with an argument whose value goes through `StringValueParser`:
/// the command has one more option, which takes a text and has a default.
#[verifier::external_body]
fn with_text(
    command: clap::Command,
    long: &'static str,
    value_name: &'static str,
    default: &'static str,
    help: &'static str,
) -> (more: clap::Command)
    ensures
        declared_title(more) == declared_title(command),
        declared_options(more) == declared_options(command).push(
            CliOption {
                long: long@,
                kind: CliKind::Text,
                value_name: Some(value_name@),
                help: help@,
                default: Some(default@),
                conflict: None,
            },
        ),
{
    command.arg(
        clap::Arg::new(long).long(long).value_name(value_name).default_value(default).help(help)
            .value_parser(clap::builder::StringValueParser::new()),
    )
}

/// Calls `clap::Command::arg` with an argument whose value goes through
/// `RangedU64ValueParser`: the command has one more option, which takes a number and has a
/// default.
#[verifier::external_body]
fn with_number(
    command: clap::Command,
    long: &'static str,
    value_name: &'static str,
    default: &'static str,
    help: &'static str,
) -> (more: clap::Command)
    requires
        match text::number(default@) {
            Some(n) => n <= u64::MAX,
            None => false,
        },
    ensures
        declared_title(more) == declared_title(command),
        declared_options(more) == declared_options(command).push(
            CliOption {
                long: long@,
                kind: CliKind::Number,
                value_name: Some(value_name@),
                help: help@,
                default: Some(default@),
                conflict: None,
            },
        ),
{
    command.arg(
        clap::Arg::new(long).long(long).value_name(value_name).default_value(default).help(help)
            .value_parser(clap::builder::RangedU64ValueParser::<u64>::new()),
    )
}

/// Calls `clap::Command::try_get_matches_from`, and on an error `render` and `use_stderr` of
/// `clap::Error` and `ansi` of what it renders. What comes of a command line depends on the
/// title, the options and the words of the line, the first of which is the name of the program.
/// Where the line is accepted, there is a suitable value for each option and no conflict; and a
/// line that does no more than spell out some settings is accepted with them, unless they
/// conflict. Of any other line it is not said whether it is accepted.
#[verifier::external_body]
fn match_command_line(command: clap::Command, argv: Vec<PathBuf>) -> (outcome: Result<
    clap::ArgMatches,
    UsageError,
>)
    requires
        usable(declared_options(command)),
    ensures
        parsed_command_line(
            declared_title(command),
            declared_options(command),
            path::encoded_all(argv@),
        ) == outcome_of(outcome),
        heeds(declared_options(command), path::encoded_all(argv@), outcome_of(outcome)),
        match outcome {
            Ok(found) => answers(declared_options(command), matched_values(found)),
            Err(_) => true,
        },
{
    match command.try_get_matches_from(argv) {
        Ok(found) => Ok(found),
        Err(error) => Err(
            UsageError {
                text: error.render().to_string(),
                styled: error.render().ansi().to_string(),
                is_error: error.use_stderr(),
            },
        ),
    }
}

/// What a result of matching a command line is.
pub open spec fn outcome_of(outcome: Result<clap::ArgMatches, UsageError>) -> CliOutcome {
    match outcome {
        Ok(found) => CliOutcome::Accepted(matched_values(found)),
        Err(error) => error.outcome(),
    }
}

/// Calls `clap::ArgMatches::get_flag`: whether a switch is on.
#[verifier::external_body]
fn switch_value(found: &clap::ArgMatches, long: &'static str) -> (on: bool)
    requires
        matched_values(*found).dom().contains(long@),
        matched_values(*found)[long@] is Switch,
    ensures
        matched_values(*found)[long@] == CliValue::Switch(on),
{
    found.get_flag(long)
}

/// Calls `clap::ArgMatches::get_one` for a `PathBuf`: the path of an option, if there is one.
#[verifier::external_body]
fn path_value(found: &clap::ArgMatches, long: &'static str) -> (path: Option<PathBuf>)
    requires
        matched_values(*found).dom().contains(long@),
        matched_values(*found)[long@] is Path,
    ensures
        matched_values(*found)[long@] == CliValue::Path(path::encoded_option(path)),
{
    found.get_one::<PathBuf>(long).cloned()
}

/// Calls `clap::ArgMatches::get_one` for a `String`: the text of an option, if there is one.
#[verifier::external_body]
fn text_value(found: &clap::ArgMatches, long: &'static str) -> (text: Option<String>)
    requires
        matched_values(*found).dom().contains(long@),
        matched_values(*found)[long@] is Text,
    ensures
        matched_values(*found)[long@] == CliValue::Text(text.deep_view()),
{
    found.get_one::<String>(long).cloned()
}

/// Calls `clap::ArgMatches::get_one` for a `u64`: the number of an option, if there is one.
#[verifier::external_body]
fn number_value(found: &clap::ArgMatches, long: &'static str) -> (number: Option<u64>)
    requires
        matched_values(*found).dom().contains(long@),
        matched_values(*found)[long@] is Number,
    ensures
        matched_values(*found)[long@] == CliValue::Number(number),
{
    found.get_one::<u64>(long).copied()
}

/// How `scrcpy` is started once a phone is connected.
#[derive(Debug, Clone, Copy, PartialEq, Eq, Structural)]
pub enum ScrcpyLaunchMode {
    /// The user is asked.
    Menu,
    Background,
    Foreground,
}

/// What the user asked for on the command line.
#[derive(Debug, PartialEq, Eq)]
pub struct Args {
    pub adb: Option<PathBuf>,
    pub scrcpy: Option<PathBuf>,
    /// In seconds.
    pub timeout: u64,
    pub no_scrcpy_check: bool,
    pub reset_adb: bool,
    pub background: bool,
    pub foreground: bool,
    pub plain_window: bool,
    pub always_on_top: bool,
    pub window_title: String,
}

/// A text to show instead of going on: why the command line was refused, or the help or the
/// version that it asked for.
#[derive(Debug, PartialEq, Eq)]
pub struct UsageError {
    pub text: String,
    /// The same text with the escape codes that style it in a terminal.
    pub styled: String,
    pub is_error: bool,
}

impl UsageError {
    /// The outcome of a command line that this is.
    pub open spec fn outcome(self) -> CliOutcome {
        CliOutcome::Shown { text: self.text@, styled: self.styled@, is_error: self.is_error }
    }

    /// The status that the program ends with.
    pub fn exit_code(&self) -> (code: u8)
        ensures
            self.is_error ==> code == 2,
            !self.is_error ==> code == 0,
    {
        if self.is_error {
            2
        } else {
            0
        }
    }
}

/// The name of the command, what it is for, and its version.
pub open spec fn airadb_title() -> Seq<Seq<char>> {
    seq!["airadb"@, "Interactive QR pairing for Android wireless debugging."@, "0.1.0"@]
}

/// A switch, as an option.
pub open spec fn switch(
    long: Seq<char>,
    help: Seq<char>,
    conflict: Option<Seq<char>>,
) -> CliOption {
    CliOption {
        long,
        kind: CliKind::Switch,
        value_name: None,
        help,
        default: None,
        conflict,
    }
}

/// The options of the command, in the order of the help.
pub open spec fn airadb_options() -> Seq<CliOption> {
    seq![
        CliOption {
            long: "adb"@,
            kind: CliKind::Path,
            value_name: Some("PATH"@),
            help: "Path to adb"@,
            default: None,
            conflict: None,
        },
        CliOption {
            long: "scrcpy"@,
            kind: CliKind::Path,
            value_name: Some("PATH"@),
            help: "Path to scrcpy"@,
            default: None,
            conflict: None,
        },
        CliOption {
            long: "timeout"@,
            kind: CliKind::Number,
            value_name: Some("SECONDS"@),
            help: "How long to wait for phone pairing and connection discovery"@,
            default: Some("60"@),
            conflict: None,
        },
        switch("no-scrcpy-check"@, "Skip checking for scrcpy before launching it"@, None),
        switch("reset-adb"@, "Kill and restart the local ADB server before pairing"@, None),
        switch(
            "background"@,
            "Start scrcpy in the background once connected and skip the menu"@,
            Some("foreground"@),
        ),
        switch(
            "foreground"@,
            "Start scrcpy in the foreground once connected and skip the menu"@,
            Some("background"@),
        ),
        switch(
            "plain-window"@,
            "Use scrcpy's regular decorated window instead of a borderless Pixel-style window"@,
            None,
        ),
        switch("always-on-top"@, "Keep the scrcpy window above other windows"@, None),
        CliOption {
            long: "window-title"@,
            kind: CliKind::Text,
            value_name: Some("TEXT"@),
            help: "Window title passed to scrcpy"@,
            default: Some("Pixel 10 Pro"@),
            conflict: None,
        },
    ]
}

proof fn lemma_options_usable()
    ensures
        usable(airadb_options()),
        text::number("60"@) == Some(60nat),
{
    reveal_strlit("adb");
    reveal_strlit("scrcpy");
    reveal_strlit("timeout");
    reveal_strlit("no-scrcpy-check");
    reveal_strlit("reset-adb");
    reveal_strlit("background");
    reveal_strlit("foreground");
    reveal_strlit("plain-window");
    reveal_strlit("always-on-top");
    reveal_strlit("window-title");
    reveal_strlit("help");
    reveal_strlit("version");
    reveal_strlit("60");
    reveal_with_fuel(text::digits_value, 3);
    let options = airadb_options();
    assert(options.len() == 10);
    assert(options[0].long.len() == 3 && options[0].long[0] == 'a');
    assert(options[1].long.len() == 6 && options[1].long[0] == 's');
    assert(options[2].long.len() == 7 && options[2].long[0] == 't');
    assert(options[3].long.len() == 15 && options[3].long[0] == 'n');
    assert(options[4].long.len() == 9 && options[4].long[0] == 'r');
    assert(options[5].long.len() == 10 && options[5].long[0] == 'b');
    assert(options[6].long.len() == 10 && options[6].long[0] == 'f');
    assert(options[7].long.len() == 12 && options[7].long[0] == 'p');
    assert(options[8].long.len() == 13 && options[8].long[0] == 'a');
    assert(options[9].long.len() == 12 && options[9].long[0] == 'w');
    assert("help"@[0] == 'h' && "version"@[0] == 'v');
    assert(options[5].long == "background"@ && names(options, "background"@));
    assert(options[6].long == "foreground"@ && names(options, "foreground"@));
    assert forall|i: int, j: int| 0 <= i < j < options.len() implies (
    #[trigger] options[i]).long != (#[trigger] options[j]).long by {
        assert(options[i].long.len() != options[j].long.len() || options[i].long[0]
            != options[j].long[0]);
    }
    assert("60"@ =~= seq!['6', '0']);
    assert("60"@.drop_last() =~= seq!['6']);
    assert("60"@.drop_last().drop_last() =~= seq![]);
}

/// The arguments are those that the values stand for.
pub open spec fn stand_for(values: Map<Seq<char>, CliValue>, args: Args) -> bool {
    &&& values["adb"@] == CliValue::Path(path::encoded_option(args.adb))
    &&& values["scrcpy"@] == CliValue::Path(path::encoded_option(args.scrcpy))
    &&& values["timeout"@] == CliValue::Number(Some(args.timeout))
    &&& values["no-scrcpy-check"@] == CliValue::Switch(args.no_scrcpy_check)
    &&& values["reset-adb"@] == CliValue::Switch(args.reset_adb)
    &&& values["background"@] == CliValue::Switch(args.background)
    &&& values["foreground"@] == CliValue::Switch(args.foreground)
    &&& values["plain-window"@] == CliValue::Switch(args.plain_window)
    &&& values["always-on-top"@] == CliValue::Switch(args.always_on_top)
    &&& values["window-title"@] == CliValue::Text(Some(args.window_title@))
}

impl Args {
    /// The arguments of a command line that has none.
    pub open spec fn are_default(self) -> bool {
        &&& self.adb is None
        &&& self.scrcpy is None
        &&& self.timeout == 60
        &&& !self.no_scrcpy_check
        &&& !self.reset_adb
        &&& !self.background
        &&& !self.foreground
        &&& !self.plain_window
        &&& !self.always_on_top
        &&& self.window_title@ == "Pixel 10 Pro"@
    }

    /// The description of the command line.
    fn command() -> (command: clap::Command)
        ensures
            declared_title(command) == airadb_title(),
            declared_options(command) == airadb_options(),
    {
        proof {
            lemma_options_usable();
        }
        let command = new_command(
            "airadb",
            "Interactive QR pairing for Android wireless debugging.",
            "0.1.0",
        );
        let command = with_path(command, "adb", "PATH", "Path to adb");
        let command = with_path(command, "scrcpy", "PATH", "Path to scrcpy");
        let command = with_number(
            command,
            "timeout",
            "SECONDS",
            "60",
            "How long to wait for phone pairing and connection discovery",
        );
        let command = with_switch(
            command,
            "no-scrcpy-check",
            "Skip checking for scrcpy before launching it",
            None,
        );
        let command = with_switch(
            command,
            "reset-adb",
            "Kill and restart the local ADB server before pairing",
            None,
        );
        let command = with_switch(
            command,
            "background",
            "Start scrcpy in the background once connected and skip the menu",
            Some("foreground"),
        );
        let command = with_switch(
            command,
            "foreground",
            "Start scrcpy in the foreground once connected and skip the menu",
            Some("background"),
        );
        let command = with_switch(
            command,
            "plain-window",
            "Use scrcpy's regular decorated window instead of a borderless Pixel-style window",
            None,
        );
        let command = with_switch(
            command,
            "always-on-top",
            "Keep the scrcpy window above other windows",
            None,
        );
        let command = with_text(
            command,
            "window-title",
            "TEXT",
            "Pixel 10 Pro",
            "Window title passed to scrcpy",
        );
        assert(declared_options(command) =~= airadb_options());
        command
    }

    /// Reads the arguments from a command line, whose first word is the name of the program. The
    /// words are paths of std because they need not be Unicode.
    /// A line that spells out some settings is accepted with them, unless they conflict; which
    /// other lines are accepted, and with what values, is up to the crate `clap`.
    pub fn try_parse_from(argv: Vec<PathBuf>) -> (parsed: Result<Args, UsageError>)
        ensures
            heeds(
                airadb_options(),
                path::encoded_all(argv@),
                parsed_command_line(airadb_title(), airadb_options(), path::encoded_all(argv@)),
            ),
            match parsed {
                Ok(args) => {
                    &&& match parsed_command_line(
                        airadb_title(),
                        airadb_options(),
                        path::encoded_all(argv@),
                    ) {
                        CliOutcome::Accepted(values) => stand_for(values, args),
                        CliOutcome::Shown { .. } => false,
                    }
                    &&& !(args.background && args.foreground)
                    &&& args.adb is Some ==> path::encoded(args.adb->0).len() > 0
                    &&& args.scrcpy is Some ==> path::encoded(args.scrcpy->0).len() > 0
                    &&& argv@.len() <= 1 ==> args.are_default()
                },
                Err(error) => {
                    &&& argv@.len() > 1
                    &&& parsed_command_line(
                        airadb_title(),
                        airadb_options(),
                        path::encoded_all(argv@),
                    ) == error.outcome()
                },
            },
    {
        proof {
            lemma_options_usable();
        }
        let ghost line = path::encoded_all(argv@);
        proof {
            let none: Seq<CliSetting> = seq![];
            assert(spelled(airadb_options(), none) =~= seq![]);
            assert(settable(airadb_options(), none));
            assert(!conflicting(airadb_options(), none));
            assert(line.len() <= 1 ==> words_of(line) =~= seq![]);
        }
        let found = match match_command_line(Args::command(), argv) {
            Ok(found) => found,
            Err(error) => return Err(error),
        };
        let ghost options = airadb_options();
        let ghost values = matched_values(found);
        proof {
            assert(forall|i: int| !is_set(Seq::<CliSetting>::empty(), i));
            assert(options[0].long == "adb"@);
            assert(options[1].long == "scrcpy"@);
            assert(options[2].long == "timeout"@);
            assert(options[3].long == "no-scrcpy-check"@);
            assert(options[4].long == "reset-adb"@);
            assert(options[5].long == "background"@);
            assert(options[6].long == "foreground"@);
            assert(options[7].long == "plain-window"@);
            assert(options[8].long == "always-on-top"@);
            assert(options[9].long == "window-title"@);
        }
        let timeout = match number_value(&found, "timeout") {
            Some(timeout) => timeout,
            None => vstd::pervasive::unreached(),
        };
        let window_title = match text_value(&found, "window-title") {
            Some(title) => title,
            None => vstd::pervasive::unreached(),
        };
        Ok(
            Args {
                adb: path_value(&found, "adb"),
                scrcpy: path_value(&found, "scrcpy"),
                timeout,
                no_scrcpy_check: switch_value(&found, "no-scrcpy-check"),
                reset_adb: switch_value(&found, "reset-adb"),
                background: switch_value(&found, "background"),
                foreground: switch_value(&found, "foreground"),
                plain_window: switch_value(&found, "plain-window"),
                always_on_top: switch_value(&found, "always-on-top"),
                window_title,
            },
        )
    }

    /// How `scrcpy` is started once a phone is connected.
    pub fn scrcpy_launch_mode(&self) -> (mode: ScrcpyLaunchMode)
        ensures
            mode == self.launch_mode(),
    {
        if self.background {
            ScrcpyLaunchMode::Background
        } else if self.foreground {
            ScrcpyLaunchMode::Foreground
        } else {
            ScrcpyLaunchMode::Menu
        }
    }

    /// How `scrcpy` is started once a phone is connected.
    pub open spec fn launch_mode(self) -> ScrcpyLaunchMode {
        if self.background {
            ScrcpyLaunchMode::Background
        } else if self.foreground {
            ScrcpyLaunchMode::Foreground
        } else {
            ScrcpyLaunchMode::Menu
        }
    }

    /// The options are those that the arguments ask for.
    pub open spec fn ask_for(self, options: ScrcpyOptions) -> bool {
        &&& options.no_audio
        &&& options.stay_awake
        &&& options.borderless == !self.plain_window
        &&& options.always_on_top == self.always_on_top
        &&& options.window_title@ == self.window_title@
    }

    /// The options that `scrcpy` is started with.
    pub fn scrcpy_options(&self) -> (options: ScrcpyOptions)
        ensures
            self.ask_for(options),
    {
        let mut options = ScrcpyOptions::default();
        options.borderless = !self.plain_window;
        options.always_on_top = self.always_on_top;
        options.window_title = self.window_title.clone();
        options
    }
}

/// A line that spells out some settings turns on the switches that it names and no others, and
/// is refused exactly if it names both of those for the launch mode.
pub proof fn law_switches_mean_what_they_say(
    argv: Seq<Seq<u8>>,
    outcome: CliOutcome,
    settings: Seq<CliSetting>,
    args: Args,
)
    requires
        heeds(airadb_options(), argv, outcome),
        spelled(airadb_options(), settings) == words_of(argv),
        settable(airadb_options(), settings),
        match outcome {
            CliOutcome::Accepted(values) => stand_for(values, args),
            CliOutcome::Shown { .. } => true,
        },
    ensures
        outcome is Shown <==> is_set(settings, 5) && is_set(settings, 6),
        outcome is Accepted ==> {
            &&& args.no_scrcpy_check == is_set(settings, 3)
            &&& args.reset_adb == is_set(settings, 4)
            &&& args.background == is_set(settings, 5)
            &&& args.foreground == is_set(settings, 6)
            &&& args.plain_window == is_set(settings, 7)
            &&& args.always_on_top == is_set(settings, 8)
        },
{
    let options = airadb_options();
    lemma_options_usable();
    assert(options[3].long == "no-scrcpy-check"@);
    assert(options[4].long == "reset-adb"@);
    assert(options[5].long == "background"@);
    assert(options[6].long == "foreground"@);
    assert(options[7].long == "plain-window"@);
    assert(options[8].long == "always-on-top"@);
    if is_set(settings, 5) && is_set(settings, 6) {
        let k = choose|k: int| 0 <= k < settings.len() && (#[trigger] settings[k]).option == 5;
        let l = choose|l: int| 0 <= l < settings.len() && (#[trigger] settings[l]).option == 6;
        assert(options[settings[k].option].conflict == Some(options[settings[l].option].long));
    }
    if conflicting(options, settings) {
        let (k, l) = choose|k: int, l: int|
            0 <= k < settings.len() && 0 <= l < settings.len() && options[(
            #[trigger] settings[k]).option].conflict == Some(
                options[(#[trigger] settings[l]).option].long,
            );
        let (i, j) = (settings[k].option, settings[l].option);
        assert(i == 5 || i == 6);
        assert(i == 5 ==> options[j].long == options[6].long);
        assert(i == 6 ==> options[j].long == options[5].long);
    }
    assert forall|i: int| 3 <= i < 9 && is_set(settings, i) && outcome is Accepted implies
        outcome->Accepted_0[(#[trigger] options[i]).long] == CliValue::Switch(true) by {
        let k = choose|k: int| 0 <= k < settings.len() && (#[trigger] settings[k]).option == i;
        assert(options[settings[k].option].kind == CliKind::Switch);
    }
}

/// A command line without arguments leads to the menu, with the default options.
pub proof fn law_default_arguments_mean_menu_and_default_options(
    args: Args,
    options: ScrcpyOptions,
)
    requires
        args.are_default(),
        args.ask_for(options),
    ensures
        args.launch_mode() == ScrcpyLaunchMode::Menu,
        options.are_default(),
{
}

/// Where the two switches for the launch mode conflict, each of them has its effect.
pub proof fn law_launch_switches_have_their_effect(args: Args)
    requires
        !(args.background && args.foreground),
    ensures
        args.launch_mode() == ScrcpyLaunchMode::Background <==> args.background,
        args.launch_mode() == ScrcpyLaunchMode::Foreground <==> args.foreground,
{
}

/// A line that spells out some settings gives each option with a value that value, and the others
/// what they say when they are absent.
pub proof fn law_values_are_those_of_the_line(
    argv: Seq<Seq<u8>>,
    values: Map<Seq<char>, CliValue>,
    settings: Seq<CliSetting>,
    args: Args,
    k: int,
)
    requires
        heeds(airadb_options(), argv, CliOutcome::Accepted(values)),
        spelled(airadb_options(), settings) == words_of(argv),
        settable(airadb_options(), settings),
        stand_for(values, args),
        0 <= k < settings.len(),
    ensures
        settings[k].option == 0 ==> args.adb is Some && path::encoded(args.adb->0)
            == settings[k].value,
        settings[k].option == 1 ==> args.scrcpy is Some && path::encoded(args.scrcpy->0)
            == settings[k].value,
        settings[k].option == 2 ==> text::number(vstd::utf8::decode_utf8(settings[k].value))
            == Some(args.timeout as nat),
        settings[k].option == 9 ==> args.window_title@ == vstd::utf8::decode_utf8(
            settings[k].value,
        ),
{
    let options = airadb_options();
    assert(options[0].long == "adb"@);
    assert(options[1].long == "scrcpy"@);
    assert(options[2].long == "timeout"@);
    assert(options[9].long == "window-title"@);
}

/// An option with a value that a line does not name has its default.
pub proof fn law_values_that_are_not_named_are_the_defaults(
    argv: Seq<Seq<u8>>,
    values: Map<Seq<char>, CliValue>,
    settings: Seq<CliSetting>,
    args: Args,
)
    requires
        heeds(airadb_options(), argv, CliOutcome::Accepted(values)),
        spelled(airadb_options(), settings) == words_of(argv),
        settable(airadb_options(), settings),
        stand_for(values, args),
    ensures
        !is_set(settings, 0) ==> args.adb is None,
        !is_set(settings, 1) ==> args.scrcpy is None,
        !is_set(settings, 2) ==> args.timeout == 60,
        !is_set(settings, 9) ==> args.window_title@ == "Pixel 10 Pro"@,
{
    let options = airadb_options();
    lemma_options_usable();
    assert(options[0].long == "adb"@);
    assert(options[1].long == "scrcpy"@);
    assert(options[2].long == "timeout"@);
    assert(options[9].long == "window-title"@);
}

/// What `scrcpy` is started with follows the arguments, and nothing else of it can be changed.
pub proof fn law_options_follow_the_arguments(args: Args, options: ScrcpyOptions)
    requires
        args.ask_for(options),
    ensures
        options.no_audio,
        options.stay_awake,
        options.borderless <==> !args.plain_window,
        options.always_on_top <==> args.always_on_top,
        options.window_title@ == args.window_title@,
{
}

} // verus!
