//! The screen mirroring program `scrcpy` and how it is started.

use std::path::PathBuf;

use vstd::prelude::*;

use crate::failure::Failure;
use crate::path;
use crate::path::{copy_path, path_of, show_path};
use crate::text::two;

verus! {

/// The program, by its path.
#[derive(Debug, PartialEq, Eq)]
pub struct Scrcpy {
    pub path: PathBuf,
}

/// Whether the program keeps the terminal.
#[derive(Debug, Clone, Copy, PartialEq, Eq, Structural)]
pub enum ScrcpyRunMode {
    Background,
    Foreground,
}

/// How the window looks and behaves.
#[derive(Debug, PartialEq, Eq)]
pub struct ScrcpyOptions {
    pub no_audio: bool,
    pub stay_awake: bool,
    pub borderless: bool,
    pub always_on_top: bool,
    pub window_title: String,
}

/// A program to start: its path, its arguments, and whether it is cut off from the terminal.
#[derive(Debug, PartialEq, Eq)]
pub struct ScrcpyCommand {
    pub program: PathBuf,
    pub arguments: Vec<String>,
    pub silent: bool,
}

/// What finding the program takes.
#[derive(Debug, PartialEq, Eq)]
pub enum ScrcpyLookup {
    /// Nothing more: here it is.
    Known(Scrcpy),
    /// A search for the program of this name, or at this path if there is one.
    Search { program: String, override_path: Option<PathBuf> },
}

/// How a program ended.
#[derive(Debug, PartialEq, Eq)]
pub struct ExitReport {
    pub success: bool,
    /// The status in words.
    pub status: String,
}

impl Clone for Scrcpy {
    fn clone(&self) -> (copy: Self)
        ensures
            path::encoded(copy.path) == path::encoded(self.path),
    {
        Scrcpy { path: copy_path(&self.path) }
    }
}

impl Clone for ScrcpyOptions {
    fn clone(&self) -> (copy: Self)
        ensures
            copy == *self,
    {
        ScrcpyOptions {
            no_audio: self.no_audio,
            stay_awake: self.stay_awake,
            borderless: self.borderless,
            always_on_top: self.always_on_top,
            window_title: self.window_title.clone(),
        }
    }
}

impl ScrcpyOptions {
    /// The options that hold unless others are asked for.
    pub open spec fn are_default(self) -> bool {
        &&& self.no_audio
        &&& self.stay_awake
        &&& self.borderless
        &&& !self.always_on_top
        &&& self.window_title@ == "Pixel 10 Pro"@
    }
}

impl Default for ScrcpyOptions {
    fn default() -> (options: Self)
        ensures
            options.are_default(),
    {
        ScrcpyOptions {
            no_audio: true,
            stay_awake: true,
            borderless: true,
            always_on_top: false,
            window_title: "Pixel 10 Pro".to_owned(),
        }
    }
}

/// The argument, if it is wanted.
pub open spec fn when(wanted: bool, argument: Seq<char>) -> Seq<Seq<char>> {
    if wanted {
        seq![argument]
    } else {
        seq![]
    }
}

/// The arguments that choose the phone and the window.
pub open spec fn arguments(serial: Seq<char>, options: ScrcpyOptions) -> Seq<Seq<char>> {
    seq!["-s"@, serial] + when(options.no_audio, "--no-audio"@) + when(
        options.stay_awake,
        "--stay-awake"@,
    ) + when(options.borderless, "--window-borderless"@) + when(
        options.always_on_top,
        "--always-on-top"@,
    ) + if options.window_title@.len() == 0 {
        seq![]
    } else {
        seq!["--window-title"@, options.window_title@]
    }
}

/// Adds the argument, if it is wanted.
fn add_when(args: &mut Vec<String>, wanted: bool, argument: &str)
    ensures
        final(args).deep_view() == old(args).deep_view() + when(wanted, argument@),
{
    let ghost before = args.deep_view();
    if wanted {
        args.push(argument.to_owned());
    }
    assert(args.deep_view() =~= before + when(wanted, argument@));
}

/// The arguments for a phone and the options.
pub fn default_args(serial: &str, options: &ScrcpyOptions) -> (args: Vec<String>)
    ensures
        args.deep_view() == arguments(serial@, *options),
{
    let mut args: Vec<String> = vec!["-s".to_owned(), serial.to_owned()];
    assert(args.deep_view() =~= seq!["-s"@, serial@]);
    add_when(&mut args, options.no_audio, "--no-audio");
    add_when(&mut args, options.stay_awake, "--stay-awake");
    add_when(&mut args, options.borderless, "--window-borderless");
    add_when(&mut args, options.always_on_top, "--always-on-top");
    let titled = !options.window_title.as_str().is_empty();
    add_when(&mut args, titled, "--window-title");
    add_when(&mut args, titled, options.window_title.as_str());
    assert(args.deep_view() =~= arguments(serial@, *options));
    args
}

impl ScrcpyCommand {
    /// The command starts this program for this phone with these options.
    pub open spec fn starts(
        self,
        scrcpy: Scrcpy,
        serial: Seq<char>,
        options: ScrcpyOptions,
    ) -> bool {
        &&& path::encoded(self.program) == path::encoded(scrcpy.path)
        &&& self.arguments.deep_view() == arguments(serial, options)
    }
}

impl Scrcpy {
    /// Where the program is. Without the check it is taken to be where the caller says, or
    /// to be found under its own name; with it, a search has to confirm that.
    pub fn resolve(override_path: Option<PathBuf>, skip_check: bool) -> (lookup: ScrcpyLookup)
        ensures
            match lookup {
                ScrcpyLookup::Known(scrcpy) => skip_check && match override_path {
                    Some(path) => scrcpy.path == path,
                    None => path::encoded(scrcpy.path) == vstd::utf8::encode_utf8("scrcpy"@),
                },
                ScrcpyLookup::Search { program, override_path: path } => !skip_check
                    && program@ == "scrcpy"@ && path == override_path,
            },
    {
        if skip_check {
            let path = match override_path {
                Some(path) => path,
                None => path_of("scrcpy"),
            };
            ScrcpyLookup::Known(Scrcpy { path })
        } else {
            ScrcpyLookup::Search { program: "scrcpy".to_owned(), override_path }
        }
    }

    /// The program that a search came back with.
    pub fn found(outcome: Result<PathBuf, Failure>) -> (result: Result<Scrcpy, Failure>)
        ensures
            match outcome {
                Ok(path) => result == Ok::<Scrcpy, Failure>(Scrcpy { path }),
                Err(failure) => result == Err::<Scrcpy, Failure>(failure),
            },
    {
        match outcome {
            Ok(path) => Ok(Scrcpy { path }),
            Err(failure) => Err(failure),
        }
    }

    /// The command that mirrors a phone until its window is closed.
    pub fn launch(&self, serial: &str, options: &ScrcpyOptions) -> (command: ScrcpyCommand)
        ensures
            command.starts(*self, serial@, *options),
            !command.silent,
    {
        self.spawn(serial, options, ScrcpyRunMode::Foreground)
    }

    /// What the end of a launched program means.
    pub fn launched(&self, outcome: Result<ExitReport, Failure>) -> (result: Result<(), Failure>)
        ensures
            match outcome {
                Ok(report) => match result {
                    Ok(_) => report.success,
                    Err(failure) => !report.success && !failure.cancelled && failure.message@
                        == "scrcpy exited with status "@ + report.status@,
                },
                Err(cause) => match result {
                    Ok(_) => false,
                    Err(failure) => self.could_not_run(cause, failure),
                },
            },
    {
        match outcome {
            Ok(report) => if report.success {
                Ok(())
            } else {
                Err(Failure::new(two("scrcpy exited with status ", report.status.as_str())))
            },
            Err(cause) => Err(self.not_run(cause)),
        }
    }

    /// The command that mirrors a phone on its own.
    pub fn launch_background(&self, serial: &str, options: &ScrcpyOptions) -> (command:
        ScrcpyCommand)
        ensures
            command.starts(*self, serial@, *options),
            command.silent,
    {
        self.spawn(serial, options, ScrcpyRunMode::Background)
    }

    /// The command that mirrors a phone. In the background it has no part in the terminal.
    pub fn spawn(&self, serial: &str, options: &ScrcpyOptions, mode: ScrcpyRunMode) -> (command:
        ScrcpyCommand)
        ensures
            command.starts(*self, serial@, *options),
            command.silent == (mode == ScrcpyRunMode::Background),
    {
        ScrcpyCommand {
            program: copy_path(&self.path),
            arguments: default_args(serial, options),
            silent: mode == ScrcpyRunMode::Background,
        }
    }

    /// What the start of a program on its own means: its process, if it started.
    pub fn spawned(&self, outcome: Result<u32, Failure>) -> (result: Result<u32, Failure>)
        ensures
            match outcome {
                Ok(pid) => result == Ok::<u32, Failure>(pid),
                Err(cause) => match result {
                    Ok(_) => false,
                    Err(failure) => self.could_not_run(cause, failure),
                },
            },
    {
        match outcome {
            Ok(pid) => Ok(pid),
            Err(cause) => Err(self.not_run(cause)),
        }
    }

    /// `failure` says that this program could not be run, and why.
    pub open spec fn could_not_run(self, cause: Failure, failure: Failure) -> bool {
        &&& exists|shown: Seq<char>| #[trigger]
            path::is_shown(self.path, shown) && failure.message@ == "failed to run "@ + shown
                + ": "@ + cause.message@
        &&& failure.cancelled == cause.cancelled
    }

    fn not_run(&self, cause: Failure) -> (failure: Failure)
        ensures
            self.could_not_run(cause, failure),
    {
        let shown = show_path(&self.path);
        assert(path::is_shown(self.path, shown@));
        cause.context(two("failed to run ", shown.as_str()).as_str())
    }
}

/// The arguments always name the phone first.
pub proof fn law_arguments_name_the_phone(serial: Seq<char>, options: ScrcpyOptions)
    ensures
        arguments(serial, options).len() >= 2,
        arguments(serial, options)[0] == "-s"@,
        arguments(serial, options)[1] == serial,
{
}

/// A title comes last, right after the option that announces it; an empty one is left out
/// together with that option.
pub proof fn law_title_comes_last_or_not_at_all(
    serial: Seq<char>,
    options: ScrcpyOptions,
    untitled: ScrcpyOptions,
)
    requires
        untitled == (ScrcpyOptions { window_title: untitled.window_title, ..options }),
        untitled.window_title@.len() == 0,
    ensures
        arguments(serial, options) == if options.window_title@.len() == 0 {
            arguments(serial, untitled)
        } else {
            arguments(serial, untitled) + seq!["--window-title"@, options.window_title@]
        },
{
    assert(arguments(serial, options) =~= if options.window_title@.len() == 0 {
        arguments(serial, untitled)
    } else {
        arguments(serial, untitled) + seq!["--window-title"@, options.window_title@]
    });
}

/// A program on its own and one that keeps the terminal are started with the same
/// arguments.
pub proof fn law_run_mode_does_not_change_the_arguments(
    scrcpy: Scrcpy,
    serial: Seq<char>,
    options: ScrcpyOptions,
    alone: ScrcpyCommand,
    attached: ScrcpyCommand,
)
    requires
        alone.starts(scrcpy, serial, options),
        attached.starts(scrcpy, serial, options),
    ensures
        path::encoded(alone.program) == path::encoded(attached.program),
        alone.arguments.deep_view() == attached.arguments.deep_view(),
{
}

/// With nothing asked for, the arguments only choose the phone.
pub proof fn law_no_options_only_choose_the_phone(serial: Seq<char>, options: ScrcpyOptions)
    requires
        !options.no_audio,
        !options.stay_awake,
        !options.borderless,
        !options.always_on_top,
        options.window_title@.len() == 0,
    ensures
        arguments(serial, options) == seq!["-s"@, serial],
{
    assert(arguments(serial, options) =~= seq!["-s"@, serial]);
}

/// How many words are wanted.
pub open spec fn count_when(wanted: bool) -> int {
    if wanted {
        1
    } else {
        0
    }
}

/// A word that stands between two rows of words is put in behind the first.
proof fn lemma_put_in(head: Seq<Seq<char>>, word: Seq<char>, tail: Seq<Seq<char>>)
    ensures
        (head + tail).insert(head.len() as int, word) == head + seq![word] + tail,
        head + seq![] + tail == head + tail,
{
    assert((head + tail).insert(head.len() as int, word) =~= head + seq![word] + tail);
    assert(head + seq![] + tail =~= head + tail);
}

/// The words after those of the first options.
pub open spec fn title_words(options: ScrcpyOptions) -> Seq<Seq<char>> {
    if options.window_title@.len() == 0 {
        seq![]
    } else {
        seq!["--window-title"@, options.window_title@]
    }
}

/// Turning the sound off puts one word into the arguments, behind those of the options before
/// it, and changes nothing else.
pub proof fn law_no_audio_adds_its_own_word(serial: Seq<char>, off: ScrcpyOptions)
    requires
        !off.no_audio,
    ensures
        arguments(serial, ScrcpyOptions { no_audio: true, ..off }) == arguments(serial, off).insert(
            2,
            "--no-audio"@,
        ),
{
    let head = seq!["-s"@, serial];
    let tail = when(off.stay_awake, "--stay-awake"@) + when(
        off.borderless,
        "--window-borderless"@,
    ) + when(off.always_on_top, "--always-on-top"@) + title_words(off);
    lemma_put_in(head, "--no-audio"@, tail);
    assert(head.len() == 2);
    assert(arguments(serial, off) =~= head + seq![] + tail);
    assert(arguments(serial, ScrcpyOptions { no_audio: true, ..off }) =~= head + seq![
        "--no-audio"@,
    ] + tail);
}

/// Keeping the phone awake puts one word into the arguments, behind those of the options before
/// it, and changes nothing else.
pub proof fn law_stay_awake_adds_its_own_word(serial: Seq<char>, off: ScrcpyOptions)
    requires
        !off.stay_awake,
    ensures
        arguments(serial, ScrcpyOptions { stay_awake: true, ..off }) == arguments(
            serial,
            off,
        ).insert(
            2 + count_when(off.no_audio),
            "--stay-awake"@,
        ),
{
    let head = seq!["-s"@, serial] + when(off.no_audio, "--no-audio"@);
    let tail = when(off.borderless, "--window-borderless"@) + when(
        off.always_on_top,
        "--always-on-top"@,
    ) + title_words(off);
    lemma_put_in(head, "--stay-awake"@, tail);
    assert(head.len() == 2 + count_when(off.no_audio));
    assert(arguments(serial, off) =~= head + seq![] + tail);
    assert(arguments(serial, ScrcpyOptions { stay_awake: true, ..off }) =~= head + seq![
        "--stay-awake"@,
    ] + tail);
}

/// A window without borders puts one word into the arguments, behind those of the options before
/// it, and changes nothing else.
pub proof fn law_borderless_adds_its_own_word(serial: Seq<char>, off: ScrcpyOptions)
    requires
        !off.borderless,
    ensures
        arguments(serial, ScrcpyOptions { borderless: true, ..off }) == arguments(
            serial,
            off,
        ).insert(
            2 + count_when(off.no_audio) + count_when(off.stay_awake),
            "--window-borderless"@,
        ),
{
    let head = seq!["-s"@, serial] + when(off.no_audio, "--no-audio"@) + when(
        off.stay_awake,
        "--stay-awake"@,
    );
    let tail = when(off.always_on_top, "--always-on-top"@) + title_words(off);
    lemma_put_in(head, "--window-borderless"@, tail);
    assert(head.len() == 2 + count_when(off.no_audio) + count_when(off.stay_awake));
    assert(arguments(serial, off) =~= head + seq![] + tail);
    assert(arguments(serial, ScrcpyOptions { borderless: true, ..off }) =~= head + seq![
        "--window-borderless"@,
    ] + tail);
}

/// A window above the others puts one word into the arguments, behind those of the options before
/// it, and changes nothing else.
pub proof fn law_always_on_top_adds_its_own_word(serial: Seq<char>, off: ScrcpyOptions)
    requires
        !off.always_on_top,
    ensures
        arguments(serial, ScrcpyOptions { always_on_top: true, ..off }) == arguments(
            serial,
            off,
        ).insert(
            2 + count_when(off.no_audio) + count_when(off.stay_awake) + count_when(off.borderless),
            "--always-on-top"@,
        ),
{
    let head = seq!["-s"@, serial] + when(off.no_audio, "--no-audio"@) + when(
        off.stay_awake,
        "--stay-awake"@,
    ) + when(off.borderless, "--window-borderless"@);
    let tail = title_words(off);
    lemma_put_in(head, "--always-on-top"@, tail);
    assert(head.len() == 2 + count_when(off.no_audio) + count_when(off.stay_awake) + count_when(
        off.borderless,
    ));
    assert(arguments(serial, off) =~= head + seq![] + tail);
    assert(arguments(serial, ScrcpyOptions { always_on_top: true, ..off }) =~= head + seq![
        "--always-on-top"@,
    ] + tail);
}

/// A failure to run a program names it, and keeps its cause.
pub proof fn law_failure_to_run_names_the_program(
    scrcpy: Scrcpy,
    cause: Failure,
    failure: Failure,
    name: Seq<char>,
)
    requires
        scrcpy.could_not_run(cause, failure),
        path::encoded(scrcpy.path) == vstd::utf8::encode_utf8(name),
    ensures
        failure.message@ == "failed to run "@ + name + ": "@ + cause.message@,
        failure.cancelled == cause.cancelled,
{
    vstd::utf8::encode_utf8_valid_utf8(name);
    vstd::utf8::encode_utf8_decode_utf8(name);
}

} // verus!
