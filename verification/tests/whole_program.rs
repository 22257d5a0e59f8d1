use std::path::PathBuf;

use airadb::cli::Args;
use airadb::clock::{MILLISECOND, SECOND};
use airadb::device::{AdbDevice, ConnectedPhone, DeviceState};
use airadb::dialogue::{Next, Notice, Reply, Request, StartupDeviceChoice, Step};
use airadb::failure::Failure;
use airadb::program::Program;
use airadb::scrcpy::ExitReport;
use airadb::startup::{
    ending, reset_adb_server, run, startup_device_choice, wait_for_startup_connected_phones,
    warn_if_mdns_check_fails, DiscoveryCheck, Ending, ServerReset, Session, StartupChoice,
    StartupWait,
};

fn args_of(words: &[&str]) -> Args {
    Args::try_parse_from(words.iter().map(PathBuf::from).collect()).unwrap()
}

fn plugged_in(serial: &str) -> AdbDevice {
    AdbDevice {
        serial: serial.to_string(),
        state: DeviceState::Device,
        display_name: serial.to_uppercase(),
    }
}

fn phone_named(serial: &str) -> ConnectedPhone {
    ConnectedPhone {
        serial: serial.to_string(),
        display_name: serial.to_uppercase(),
    }
}

fn trouble(message: &str) -> Reply {
    Reply::Failed(Failure::new(message.to_string()))
}

fn healthy() -> Reply {
    Reply::MdnsCheck {
        success: true,
        output: String::new(),
    }
}

/// Goes on with the program, and tells what it asks for next.
fn go(program: &mut Program, reply: Reply, now: u128) -> Step {
    assert!(program.accepts(&reply), "{:?}", reply);
    program.resume(reply, now)
}

#[test]
fn server_reset_is_announced_and_confirmed() {
    let (mut reset, step) = ServerReset::begin();
    assert_eq!(
        step.script.notices,
        vec![Notice::Status("Resetting local ADB server...".to_string())]
    );
    assert_eq!(step.next, Next::Ask(Request::ResetServer));
    let step = reset_adb_server(&mut reset, Reply::Done);
    assert_eq!(
        step.script.notices,
        vec![Notice::Success("ADB server restarted.".to_string())]
    );
    assert_eq!(step.next, Next::Give(Reply::Done));

    let (mut reset, _) = ServerReset::begin();
    let step = reset_adb_server(&mut reset, trouble("busy"));
    assert_eq!(step.script.notices, vec![]);
    assert_eq!(step.next, Next::Give(trouble("busy")));
}

#[test]
fn discovery_check_only_warns() {
    let said = |reply: Reply| {
        let (mut check, step) = DiscoveryCheck::begin();
        assert_eq!(step.next, Next::Ask(Request::MdnsCheck));
        let step = warn_if_mdns_check_fails(&mut check, reply);
        assert_eq!(step.next, Next::Give(Reply::Done));
        step.script.notices
    };
    assert_eq!(said(healthy()), vec![]);
    assert_eq!(
        said(Reply::MdnsCheck {
            success: false,
            output: "no daemon".to_string()
        }),
        vec![Notice::Warning(
            "adb mdns check reported a problem: no daemon".to_string()
        )]
    );
    assert_eq!(
        said(trouble("no adb")),
        vec![Notice::Warning(
            "could not run adb mdns check: no adb".to_string()
        )]
    );
}

#[test]
fn startup_wait_ends_with_phones_or_at_the_deadline() {
    let (mut wait, step) = StartupWait::begin(2 * SECOND, SECOND);
    assert_eq!(step.next, Next::Ask(Request::Devices));
    let step = wait_for_startup_connected_phones(&mut wait, Reply::Devices(Vec::new()), SECOND);
    assert_eq!(step.next, Next::Ask(Request::Pause(250 * MILLISECOND)));
    let step = wait_for_startup_connected_phones(&mut wait, Reply::Done, 2 * SECOND);
    assert_eq!(step.next, Next::Ask(Request::Devices));
    let devices = Reply::Devices(vec![plugged_in("a")]);
    let step = wait_for_startup_connected_phones(&mut wait, devices, 2 * SECOND);
    assert_eq!(
        step.next,
        Next::Give(Reply::Phones(vec![phone_named("a")]))
    );

    let (mut wait, _) = StartupWait::begin(2 * SECOND, SECOND);
    let step =
        wait_for_startup_connected_phones(&mut wait, Reply::Devices(Vec::new()), 3 * SECOND);
    assert_eq!(step.next, Next::Give(Reply::Phones(Vec::new())));

    let (mut wait, _) = StartupWait::begin(2 * SECOND, SECOND);
    let step = wait_for_startup_connected_phones(&mut wait, trouble("no server"), SECOND);
    assert_eq!(step.next, Next::Give(trouble("no server")));
}

#[test]
fn startup_choice_depends_on_the_phones() {
    let (mut choice, step) = StartupChoice::begin();
    assert_eq!(
        step.next,
        Next::Ask(Request::WaitForStartupConnectedPhones(2 * SECOND))
    );
    let step = startup_device_choice(&mut choice, Reply::Phones(Vec::new()));
    assert_eq!(
        step.next,
        Next::Give(Reply::Startup(StartupDeviceChoice::PairNew))
    );

    let (mut choice, _) = StartupChoice::begin();
    let step = startup_device_choice(&mut choice, Reply::Phones(vec![phone_named("a")]));
    assert_eq!(
        step.script.notices,
        vec![Notice::Success(
            "ADB is already connected to A.".to_string()
        )]
    );
    assert_eq!(
        step.next,
        Next::Give(Reply::Startup(StartupDeviceChoice::Connected(
            phone_named("a")
        )))
    );

    let expected = [
        StartupDeviceChoice::Connected(phone_named("a")),
        StartupDeviceChoice::Connected(phone_named("b")),
        StartupDeviceChoice::PairNew,
        StartupDeviceChoice::Close,
    ];
    for (i, meaning) in expected.into_iter().enumerate() {
        let (mut choice, _) = StartupChoice::begin();
        let phones = vec![phone_named("a"), phone_named("b")];
        let step = startup_device_choice(&mut choice, Reply::Phones(phones));
        assert_eq!(
            step.script.notices,
            vec![Notice::Status(
                "ADB is already connected to multiple devices.".to_string()
            )]
        );
        assert_eq!(
            step.next,
            Next::Ask(Request::Menu(vec![
                "Use A".to_string(),
                "Use B".to_string(),
                "Pair a new phone".to_string(),
                "Close".to_string(),
            ]))
        );
        let step = startup_device_choice(&mut choice, Reply::Choice(i + 1));
        assert_eq!(step.next, Next::Give(Reply::Startup(meaning)));
    }
}

#[test]
fn session_goes_through_its_phases() {
    let (mut session, step) =
        Session::begin(&args_of(&["airadb", "--adb", "/a", "--reset-adb", "--timeout", "5"]));
    assert_eq!(
        step.script.notices,
        vec![
            Notice::Title(
                "airadb".to_string(),
                "Android wireless debugging companion".to_string()
            ),
            Notice::Status("Checking ADB...".to_string()),
        ]
    );
    assert_eq!(
        step.next,
        Next::Ask(Request::ResolveAdb(Some(PathBuf::from("/a"))))
    );
    assert_eq!(
        run(&mut session, Reply::Done).next,
        Next::Ask(Request::AdbVersion)
    );
    assert_eq!(
        run(&mut session, Reply::Done).next,
        Next::Ask(Request::ResetAdbServer)
    );
    assert_eq!(
        run(&mut session, Reply::Done).next,
        Next::Ask(Request::WarnIfMdnsCheckFails)
    );
    assert_eq!(
        run(&mut session, Reply::Done).next,
        Next::Ask(Request::StartupDeviceChoice)
    );
    assert_eq!(
        run(&mut session, Reply::Startup(StartupDeviceChoice::PairNew)).next,
        Next::Ask(Request::RetryingPairingFlow(5 * SECOND))
    );
    let step = run(&mut session, Reply::Phone(phone_named("a")));
    assert_eq!(
        step.script.notices,
        vec![Notice::Success("Connected to A".to_string())]
    );
    assert_eq!(
        step.next,
        Next::Ask(Request::HandleConnectedPhone(phone_named("a")))
    );
    assert_eq!(
        run(&mut session, Reply::Done).next,
        Next::Give(Reply::Done)
    );
}

#[test]
fn ending_tells_failures_from_cancelling() {
    assert_eq!(
        ending(Reply::Done),
        Ending {
            success: true,
            error: None
        }
    );
    assert_eq!(
        ending(Reply::Failed(Failure::cancelled())),
        Ending {
            success: true,
            error: None
        }
    );
    assert_eq!(
        ending(trouble("no adb")),
        Ending {
            success: false,
            error: Some("no adb".to_string())
        }
    );
}

#[test]
fn program_mirrors_a_phone_that_is_connected() {
    let (mut program, step) = Program::begin(args_of(&["airadb", "--background"]));
    assert_eq!(step.next, Next::Ask(Request::ResolveAdb(None)));
    let step = go(&mut program, Reply::Done, 0);
    assert_eq!(step.next, Next::Ask(Request::AdbVersion));
    let step = go(&mut program, Reply::Done, 0);
    assert_eq!(step.next, Next::Ask(Request::MdnsCheck));
    let step = go(&mut program, healthy(), 0);
    assert_eq!(step.next, Next::Ask(Request::Devices));
    assert_eq!(program.flows.len(), 3);
    let step = go(&mut program, Reply::Devices(vec![plugged_in("a")]), 0);
    assert_eq!(
        step.script.notices,
        vec![
            Notice::Success("ADB is already connected to A.".to_string()),
            Notice::Success("Connected to A".to_string()),
        ]
    );
    assert_eq!(
        step.next,
        Next::Ask(Request::FindProgram {
            program: "scrcpy".to_string(),
            override_path: None
        })
    );
    let step = go(&mut program, Reply::Path(PathBuf::from("/s")), 0);
    match step.next {
        Next::Ask(Request::Spawn(command)) => {
            assert_eq!(command.program, PathBuf::from("/s"));
            assert_eq!(command.arguments[..2], ["-s", "a"]);
            assert!(command.silent);
        }
        other => panic!("{:?}", other),
    }
    let step = go(&mut program, Reply::Pid(12), 0);
    assert_eq!(
        step.script.notices,
        vec![Notice::Success(
            "Started scrcpy in the background (pid 12).".to_string()
        )]
    );
    assert_eq!(step.next, Next::Give(Reply::Done));
    assert!(program.flows.is_empty());
    assert!(!program.accepts(&Reply::Done));
}

#[test]
fn program_needs_no_search_without_the_check() {
    let words = ["airadb", "--foreground", "--no-scrcpy-check"];
    let (mut program, _) = Program::begin(args_of(&words));
    go(&mut program, Reply::Done, 0);
    go(&mut program, Reply::Done, 0);
    go(&mut program, healthy(), 0);
    let step = go(&mut program, Reply::Devices(vec![plugged_in("a")]), 0);
    match step.next {
        Next::Ask(Request::Launch(command)) => assert_eq!(command.program, PathBuf::from("scrcpy")),
        other => panic!("{:?}", other),
    }
    let report = ExitReport {
        success: false,
        status: "exit status: 1".to_string(),
    };
    let step = go(&mut program, Reply::Exit(report), 0);
    assert_eq!(
        step.next,
        Next::Give(trouble("scrcpy exited with status exit status: 1"))
    );
}

#[test]
fn program_pairs_by_qr_code_and_shows_the_menu() {
    let (mut program, _) = Program::begin(args_of(&["airadb", "--timeout", "10"]));
    go(&mut program, Reply::Done, 0);
    go(&mut program, Reply::Done, 0);
    go(&mut program, healthy(), 0);
    let step = go(&mut program, Reply::Devices(Vec::new()), 3 * SECOND);
    assert_eq!(step.next, Next::Ask(Request::MdnsServices));
    go(&mut program, Reply::Services(Vec::new()), 3 * SECOND);
    go(&mut program, Reply::Services(Vec::new()), 3 * SECOND);
    go(&mut program, Reply::Devices(Vec::new()), 3 * SECOND);
    go(&mut program, Reply::Texts(Vec::new()), 3 * SECOND);
    let qr = Reply::Qr {
        instance: "qr-1".to_string(),
        secret: "open sesame".to_string(),
    };
    go(&mut program, qr, 3 * SECOND);
    let step = go(&mut program, Reply::Text("##".to_string()), 3 * SECOND);
    assert_eq!(
        step.script.notices,
        vec![
            Notice::QrCode("##".to_string()),
            Notice::BlankLine,
            Notice::CancelHint,
            Notice::CountdownBegins("Waiting for QR scan".to_string()),
        ]
    );
    assert_eq!(step.next, Next::Ask(Request::Tick(10 * SECOND)));
    go(&mut program, Reply::Done, 3 * SECOND);
    go(&mut program, Reply::Devices(Vec::new()), 3 * SECOND);
    go(&mut program, Reply::Services(Vec::new()), 3 * SECOND);
    let found = Reply::MaybeText(Some("p:1".to_string()));
    let step = go(&mut program, found, 5 * SECOND);
    assert_eq!(
        step.next,
        Next::Ask(Request::Pair {
            address: "p:1".to_string(),
            secret: "open sesame".to_string(),
        })
    );
    let step = go(&mut program, Reply::Done, 6 * SECOND);
    assert_eq!(step.next, Next::Ask(Request::Tick(10 * SECOND)));
    go(&mut program, Reply::Done, 6 * SECOND);
    go(
        &mut program,
        Reply::Devices(vec![plugged_in("p:1")]),
        6 * SECOND,
    );
    let found = Reply::MaybeDevice(Some(plugged_in("p:1")));
    let step = go(&mut program, found, 6 * SECOND);
    assert_eq!(
        step.script.notices,
        vec![
            Notice::CountdownEnds,
            Notice::Success("ADB device is ready: P:1".to_string()),
            Notice::Success("Connected to P:1".to_string()),
        ]
    );
    assert_eq!(
        step.next,
        Next::Ask(Request::Menu(vec![
            "Start scrcpy in background and close".to_string(),
            "Start scrcpy".to_string(),
            "Close".to_string(),
        ]))
    );
    let step = go(&mut program, Reply::Choice(3), 7 * SECOND);
    assert_eq!(step.next, Next::Give(Reply::Done));
}

#[test]
fn program_offers_other_ways_after_a_failed_pairing() {
    let (mut program, _) = Program::begin(args_of(&["airadb"]));
    go(&mut program, Reply::Done, 0);
    go(&mut program, Reply::Done, 0);
    go(&mut program, healthy(), 0);
    go(&mut program, Reply::Devices(Vec::new()), 2 * SECOND);
    go(&mut program, trouble("no mdns"), 2 * SECOND);
    go(&mut program, Reply::Services(Vec::new()), 2 * SECOND);
    go(&mut program, trouble("no devices"), 2 * SECOND);
    go(&mut program, Reply::Texts(Vec::new()), 2 * SECOND);
    let qr = Reply::Qr {
        instance: "qr-1".to_string(),
        secret: "open sesame".to_string(),
    };
    go(&mut program, qr, 2 * SECOND);
    let step = go(&mut program, trouble("too long"), 2 * SECOND);
    assert_eq!(
        step.script.notices,
        vec![Notice::Error("too long".to_string())]
    );
    go(&mut program, Reply::Choice(2), 2 * SECOND);
    go(&mut program, Reply::Devices(Vec::new()), 2 * SECOND);
    let step = go(&mut program, Reply::Texts(Vec::new()), 2 * SECOND);
    assert_eq!(
        step.next,
        Next::Ask(Request::Prompt("Enter phone IP:port"))
    );
    let step = go(&mut program, Reply::Text("h:1".to_string()), 2 * SECOND);
    assert_eq!(step.next, Next::Ask(Request::Connect("h:1".to_string())));
    let step = go(&mut program, trouble("refused"), 2 * SECOND);
    assert_eq!(
        step.script.notices,
        vec![Notice::Error("refused".to_string())]
    );
    assert_eq!(step.next, Next::Ask(Request::MdnsServices));
}

#[test]
fn program_ends_where_the_bridge_is_missing() {
    let (mut program, _) = Program::begin(args_of(&["airadb"]));
    let step = go(&mut program, trouble("adb was not found"), 0);
    assert_eq!(step.next, Next::Give(trouble("adb was not found")));
    let result = match step.next {
        Next::Give(result) => result,
        Next::Ask(_) => unreachable!(),
    };
    assert_eq!(ending(result).error, Some("adb was not found".to_string()));
}
