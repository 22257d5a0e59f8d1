use std::path::PathBuf;

use airadb::cli::Args;
use airadb::device::ConnectedPhone;
use airadb::dialogue::{Next, Notice, Reply, Request};
use airadb::failure::Failure;
use airadb::mirror::{
    connected_phone_menu, handle_connected_phone, resolve_scrcpy, start_scrcpy_background,
    start_scrcpy_foreground, PhoneHandling, PhoneMenu, ScrcpySearch, ScrcpyStart,
};
use airadb::scrcpy::{
    default_args, ExitReport, Scrcpy, ScrcpyCommand, ScrcpyLookup, ScrcpyOptions, ScrcpyRunMode,
};

fn arguments(words: &[&str]) -> Args {
    Args::try_parse_from(words.iter().map(PathBuf::from).collect()).unwrap()
}

fn pixel() -> ConnectedPhone {
    ConnectedPhone {
        serial: "10.0.0.2:5555".to_string(),
        display_name: "Pixel".to_string(),
    }
}

fn no_such_file() -> Failure {
    Failure::new("No such file".to_string())
}

fn menu_of_a_phone() -> Next {
    Next::Ask(Request::Menu(vec![
        "Start scrcpy in background and close".to_string(),
        "Start scrcpy".to_string(),
        "Close".to_string(),
    ]))
}

#[test]
fn builds_raycast_equivalent_scrcpy_args() {
    let args = default_args("192.168.1.23:40233", &ScrcpyOptions::default());
    let args: Vec<_> = args.iter().map(|arg| arg.to_string()).collect();

    assert_eq!(
        args,
        vec![
            "-s",
            "192.168.1.23:40233",
            "--no-audio",
            "--stay-awake",
            "--window-borderless",
            "--window-title",
            "Pixel 10 Pro",
        ]
    );
}

#[test]
fn builds_plain_window_scrcpy_args() {
    let options = ScrcpyOptions {
        borderless: false,
        always_on_top: true,
        window_title: "Ovi Pixel".to_string(),
        ..ScrcpyOptions::default()
    };
    let args = default_args("device", &options);
    let args: Vec<_> = args.iter().map(|arg| arg.to_string()).collect();

    assert_eq!(
        args,
        vec![
            "-s",
            "device",
            "--no-audio",
            "--stay-awake",
            "--always-on-top",
            "--window-title",
            "Ovi Pixel",
        ]
    );
}

#[test]
fn empty_title_is_left_out_with_its_option() {
    let options = ScrcpyOptions {
        no_audio: false,
        stay_awake: false,
        borderless: false,
        always_on_top: false,
        window_title: String::new(),
    };
    assert_eq!(default_args("", &options), vec!["-s", ""]);
}

#[test]
fn run_mode_decides_only_about_the_terminal() {
    let scrcpy = Scrcpy {
        path: PathBuf::from("/bin/scrcpy"),
    };
    let options = ScrcpyOptions::default();
    let alone = scrcpy.spawn("s", &options, ScrcpyRunMode::Background);
    let attached = scrcpy.spawn("s", &options, ScrcpyRunMode::Foreground);
    assert_eq!(alone.program, PathBuf::from("/bin/scrcpy"));
    assert_eq!(alone.program, attached.program);
    assert_eq!(alone.arguments, attached.arguments);
    assert_eq!(alone.arguments, default_args("s", &options));
    assert!(alone.silent);
    assert!(!attached.silent);
    assert_eq!(scrcpy.launch("s", &options), attached);
    assert_eq!(scrcpy.launch_background("s", &options), alone);
}

#[test]
fn program_is_found_with_and_without_the_check() {
    assert_eq!(
        Scrcpy::resolve(None, true),
        ScrcpyLookup::Known(Scrcpy {
            path: PathBuf::from("scrcpy")
        })
    );
    assert_eq!(
        Scrcpy::resolve(Some(PathBuf::from("/x")), true),
        ScrcpyLookup::Known(Scrcpy {
            path: PathBuf::from("/x")
        })
    );
    assert_eq!(
        Scrcpy::resolve(Some(PathBuf::from("/x")), false),
        ScrcpyLookup::Search {
            program: "scrcpy".to_string(),
            override_path: Some(PathBuf::from("/x"))
        }
    );
    assert_eq!(
        Scrcpy::found(Ok(PathBuf::from("/y"))),
        Ok(Scrcpy {
            path: PathBuf::from("/y")
        })
    );
    assert_eq!(Scrcpy::found(Err(no_such_file())), Err(no_such_file()));
}

#[test]
fn end_of_a_launched_program_is_judged() {
    let scrcpy = Scrcpy {
        path: PathBuf::from("scrcpy"),
    };
    let report = |success: bool| ExitReport {
        success,
        status: "exit status: 1".to_string(),
    };
    assert_eq!(scrcpy.launched(Ok(report(true))), Ok(()));
    assert_eq!(
        scrcpy.launched(Ok(report(false))).unwrap_err().message,
        "scrcpy exited with status exit status: 1"
    );
    assert_eq!(
        scrcpy.launched(Err(no_such_file())).unwrap_err().message,
        "failed to run scrcpy: No such file"
    );
    assert_eq!(scrcpy.spawned(Ok(7)), Ok(7));
    assert_eq!(
        scrcpy.spawned(Err(no_such_file())).unwrap_err().message,
        "failed to run scrcpy: No such file"
    );
}

#[test]
fn launch_mode_decides_what_happens_to_a_phone() {
    let next = |words: &[&str]| PhoneHandling::begin(pixel(), &arguments(words)).1.next;
    assert_eq!(
        next(&["airadb"]),
        Next::Ask(Request::ConnectedPhoneMenu(pixel()))
    );
    assert_eq!(
        next(&["airadb", "--background"]),
        Next::Ask(Request::StartScrcpyBackground(pixel()))
    );
    assert_eq!(
        next(&["airadb", "--foreground"]),
        Next::Ask(Request::StartScrcpyForeground(pixel()))
    );
    let (mut handling, _) = PhoneHandling::begin(pixel(), &arguments(&["airadb"]));
    assert!(handling.accepts(&Reply::Done));
    assert_eq!(
        handle_connected_phone(&mut handling, Reply::Failed(no_such_file())).next,
        Next::Give(Reply::Failed(no_such_file()))
    );
    assert!(!handling.accepts(&Reply::Done));
}

#[test]
fn menu_comes_back_after_mirroring() {
    let (mut menu, step) = PhoneMenu::begin(pixel());
    assert_eq!(step.next, menu_of_a_phone());
    let step = connected_phone_menu(&mut menu, Reply::Choice(2));
    assert_eq!(
        step.next,
        Next::Ask(Request::StartScrcpyForeground(pixel()))
    );
    let step = connected_phone_menu(&mut menu, Reply::Done);
    assert_eq!(step.next, menu_of_a_phone());
    let step = connected_phone_menu(&mut menu, Reply::Choice(1));
    assert_eq!(
        step.next,
        Next::Ask(Request::StartScrcpyBackground(pixel()))
    );
    let step = connected_phone_menu(&mut menu, Reply::Done);
    assert_eq!(step.next, Next::Give(Reply::Done));
}

#[test]
fn menu_ends_on_close_and_on_failures() {
    let (mut menu, _) = PhoneMenu::begin(pixel());
    assert!(!menu.accepts(&Reply::Choice(0)));
    assert!(!menu.accepts(&Reply::Choice(4)));
    assert_eq!(
        connected_phone_menu(&mut menu, Reply::Choice(3)).next,
        Next::Give(Reply::Done)
    );

    let (mut menu, _) = PhoneMenu::begin(pixel());
    connected_phone_menu(&mut menu, Reply::Choice(2));
    assert_eq!(
        connected_phone_menu(&mut menu, Reply::Failed(no_such_file())).next,
        Next::Give(Reply::Failed(no_such_file()))
    );

    let (mut menu, _) = PhoneMenu::begin(pixel());
    assert_eq!(
        connected_phone_menu(&mut menu, Reply::Failed(Failure::cancelled())).next,
        Next::Give(Reply::Failed(Failure::cancelled()))
    );
}

#[test]
fn failed_search_for_the_program_is_explained() {
    let (mut search, step) = ScrcpySearch::begin(&arguments(&["airadb", "--scrcpy", "/s"]));
    assert_eq!(
        step.next,
        Next::Ask(Request::FindProgram {
            program: "scrcpy".to_string(),
            override_path: Some(PathBuf::from("/s"))
        })
    );
    let step = resolve_scrcpy(&mut search, Reply::Failed(no_such_file()));
    assert_eq!(
        step.next,
        Next::Give(Reply::Failed(Failure::new(
            "scrcpy was not found. Install scrcpy, then try again: No such file".to_string()
        )))
    );

    let (mut search, _) = ScrcpySearch::begin(&arguments(&["airadb"]));
    assert_eq!(
        resolve_scrcpy(&mut search, Reply::Path(PathBuf::from("/bin/scrcpy"))).next,
        Next::Give(Reply::Scrcpy(Scrcpy {
            path: PathBuf::from("/bin/scrcpy")
        }))
    );

    let (search, step) = ScrcpySearch::begin(&arguments(&["airadb", "--no-scrcpy-check"]));
    assert!(search.over);
    assert_eq!(
        step.next,
        Next::Give(Reply::Scrcpy(Scrcpy {
            path: PathBuf::from("scrcpy")
        }))
    );
}

#[test]
fn background_start_tells_the_process() {
    let args = arguments(&["airadb", "--plain-window"]);
    let (mut start, step) = ScrcpyStart::begin(pixel(), &args);
    assert_eq!(step.next, Next::Ask(Request::ResolveScrcpy));
    let found = Reply::Scrcpy(Scrcpy {
        path: PathBuf::from("/s"),
    });
    let step = start_scrcpy_background(&mut start, found);
    assert_eq!(
        step.next,
        Next::Ask(Request::Spawn(ScrcpyCommand {
            program: PathBuf::from("/s"),
            arguments: default_args("10.0.0.2:5555", &args.scrcpy_options()),
            silent: true,
        }))
    );
    let step = start_scrcpy_background(&mut start, Reply::Pid(4242));
    assert_eq!(
        step.script.notices,
        vec![Notice::Success(
            "Started scrcpy in the background (pid 4242).".to_string()
        )]
    );
    assert_eq!(step.next, Next::Give(Reply::Done));
}

#[test]
fn foreground_start_ends_with_the_program() {
    let args = arguments(&["airadb"]);
    let found = || {
        Reply::Scrcpy(Scrcpy {
            path: PathBuf::from("/s"),
        })
    };
    let (mut start, _) = ScrcpyStart::begin(pixel(), &args);
    let step = start_scrcpy_foreground(&mut start, found());
    assert!(matches!(step.next, Next::Ask(Request::Launch(ref command)) if !command.silent));
    let report = ExitReport {
        success: false,
        status: "exit status: 2".to_string(),
    };
    assert_eq!(
        start_scrcpy_foreground(&mut start, Reply::Exit(report)).next,
        Next::Give(Reply::Failed(Failure::new(
            "scrcpy exited with status exit status: 2".to_string()
        )))
    );

    let (mut start, _) = ScrcpyStart::begin(pixel(), &args);
    start_scrcpy_foreground(&mut start, found());
    assert_eq!(
        start_scrcpy_foreground(&mut start, Reply::Failed(no_such_file())).next,
        Next::Give(Reply::Failed(Failure::new(
            "failed to run /s: No such file".to_string()
        )))
    );

    let (mut start, _) = ScrcpyStart::begin(pixel(), &args);
    assert_eq!(
        start_scrcpy_foreground(&mut start, Reply::Failed(no_such_file())).next,
        Next::Give(Reply::Failed(no_such_file()))
    );
}
