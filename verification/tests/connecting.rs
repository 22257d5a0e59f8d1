use airadb::clock::SECOND;
use airadb::connect::{
    connect_to_endpoint, manual_connect_device, manual_connect_flow, prompt_endpoint,
    wait_for_ready_device, EndpointConnection, EndpointPrompt, ManualDevice, ManualFlow,
    ReadyDeviceWait,
};
use airadb::device::{AdbDevice, ConnectedPhone, DeviceState, MdnsService, ServiceKind};
use airadb::dialogue::{Next, Notice, Reply, Request, Step, Topic};
use airadb::discovery::{
    try_direct_bonjour_connect, try_ui_hierarchy_connect, BonjourAttempt, ScreenAttempt,
};
use airadb::failure::Failure;
use airadb::search::{connect_and_wait_for_device, DeviceSearch};

fn ready(serial: &str, display_name: &str) -> AdbDevice {
    AdbDevice {
        serial: serial.to_string(),
        state: DeviceState::Device,
        display_name: display_name.to_string(),
    }
}

fn offline(serial: &str) -> AdbDevice {
    AdbDevice {
        serial: serial.to_string(),
        state: DeviceState::Other,
        display_name: serial.to_string(),
    }
}

fn candidate(address: &str) -> MdnsService {
    MdnsService {
        instance: "adb-x".to_string(),
        kind: ServiceKind::Connect,
        address: address.to_string(),
    }
}

fn failed(message: &str) -> Reply {
    Reply::Failed(Failure::new(message.to_string()))
}

fn texts(items: &[&str]) -> Vec<String> {
    items.iter().map(|item| item.to_string()).collect()
}

fn status(text: &str) -> Notice {
    Notice::Status(text.to_string())
}

fn warning(text: &str) -> Notice {
    Notice::Warning(text.to_string())
}

fn success(text: &str) -> Notice {
    Notice::Success(text.to_string())
}

fn to_endpoint(endpoint: &str, baseline: &[&str], timeout: u128) -> Next {
    Next::Ask(Request::ConnectToEndpoint {
        endpoint: endpoint.to_string(),
        baseline: texts(baseline),
        timeout,
    })
}

#[test]
fn waits_until_the_device_is_ready() {
    let (mut wait, step) =
        ReadyDeviceWait::begin("s".to_string(), texts(&["old"]), 60 * SECOND, 100 * SECOND);
    assert_eq!(
        step.script.notices,
        vec![
            status("Waiting for adb devices..."),
            Notice::CancelHint,
            Notice::CountdownBegins("ADB device wait".to_string()),
        ]
    );
    assert_eq!(step.next, Next::Ask(Request::Tick(60 * SECOND)));
    let step = wait_for_ready_device(&mut wait, Reply::Done, 100 * SECOND);
    assert_eq!(step.next, Next::Ask(Request::Devices));
    let step = wait_for_ready_device(&mut wait, failed("no server"), 101 * SECOND);
    assert_eq!(
        step.next,
        Next::Ask(Request::MatchReadyDevice {
            devices: Vec::new(),
            expected_serial: "s".to_string(),
            baseline: texts(&["old"]),
        })
    );
    let step = wait_for_ready_device(&mut wait, Reply::MaybeDevice(None), 159 * SECOND);
    assert_eq!(step.next, Next::Ask(Request::Sleep(SECOND)));
    let step = wait_for_ready_device(&mut wait, Reply::Done, 160 * SECOND);
    assert_eq!(step.next, Next::Ask(Request::Tick(0)));
    wait_for_ready_device(&mut wait, Reply::Done, 160 * SECOND);
    wait_for_ready_device(
        &mut wait,
        Reply::Devices(vec![ready("s", "Pixel")]),
        161 * SECOND,
    );
    let found = Reply::MaybeDevice(Some(ready("s", "Pixel")));
    let step = wait_for_ready_device(&mut wait, found, 161 * SECOND);
    assert_eq!(
        step.script.notices,
        vec![
            Notice::CountdownEnds,
            success("ADB device is ready: Pixel")
        ]
    );
    assert_eq!(step.next, Next::Give(Reply::Device(ready("s", "Pixel"))));
}

#[test]
fn gives_up_on_a_device_at_the_deadline() {
    let (mut wait, _) = ReadyDeviceWait::begin("s".to_string(), Vec::new(), 0, 5);
    wait_for_ready_device(&mut wait, Reply::Done, 5);
    wait_for_ready_device(&mut wait, Reply::Devices(Vec::new()), 5);
    let step = wait_for_ready_device(&mut wait, Reply::MaybeDevice(None), 5);
    assert_eq!(step.script.notices, vec![Notice::CountdownEnds]);
    assert_eq!(
        step.next,
        Next::Give(failed(
            "timed out waiting for s to appear in adb devices"
        ))
    );
    assert!(!wait.accepts(&Reply::Done));
}

#[test]
fn cancelling_the_wait_ends_it() {
    let (mut wait, _) = ReadyDeviceWait::begin("s".to_string(), Vec::new(), SECOND, 0);
    let step = wait_for_ready_device(&mut wait, Reply::Failed(Failure::cancelled()), 0);
    assert_eq!(step.script.notices, vec![]);
    assert_eq!(step.next, Next::Give(Reply::Failed(Failure::cancelled())));

    let (mut wait, _) = ReadyDeviceWait::begin("s".to_string(), Vec::new(), SECOND, 0);
    wait_for_ready_device(&mut wait, Reply::Done, 0);
    wait_for_ready_device(&mut wait, Reply::Devices(Vec::new()), 0);
    wait_for_ready_device(&mut wait, Reply::MaybeDevice(None), 0);
    let step = wait_for_ready_device(&mut wait, Reply::Failed(Failure::cancelled()), 0);
    assert_eq!(step.script.notices, vec![Notice::CountdownEnds]);
    assert_eq!(step.next, Next::Give(Reply::Failed(Failure::cancelled())));
}

#[test]
fn connection_waits_for_the_serial_that_was_printed() {
    let begin = || EndpointConnection::begin("1.1.1.1:1".to_string(), texts(&["b"]), SECOND);
    let wait_for = |serial: &str| {
        Next::Ask(Request::WaitForReadyDevice {
            expected_serial: serial.to_string(),
            baseline: texts(&["b"]),
            timeout: SECOND,
        })
    };
    let (mut connection, step) = begin();
    assert_eq!(
        step.script.notices,
        vec![status("Connecting to 1.1.1.1:1...")]
    );
    assert_eq!(
        step.next,
        Next::Ask(Request::Connect("1.1.1.1:1".to_string()))
    );
    let step = connect_to_endpoint(&mut connection, Reply::Text("out".to_string()));
    assert_eq!(
        step.next,
        Next::Ask(Request::SerialFromOutput("out".to_string()))
    );
    let step = connect_to_endpoint(&mut connection, Reply::MaybeText(Some("n".to_string())));
    assert_eq!(
        step.script.notices,
        vec![status("Verifying the device is ready...")]
    );
    assert_eq!(step.next, wait_for("n"));
    let step = connect_to_endpoint(&mut connection, Reply::Device(ready("n", "N")));
    assert_eq!(step.next, Next::Give(Reply::Device(ready("n", "N"))));

    let (mut connection, _) = begin();
    connect_to_endpoint(&mut connection, Reply::Text("out".to_string()));
    let step = connect_to_endpoint(&mut connection, Reply::MaybeText(None));
    assert_eq!(step.next, wait_for("1.1.1.1:1"));

    let (mut connection, _) = begin();
    let step = connect_to_endpoint(&mut connection, failed("refused"));
    assert_eq!(step.next, Next::Give(failed("refused")));
}

#[test]
fn prompt_is_repeated_until_the_answer_is_plausible() {
    let (mut prompt, step) = EndpointPrompt::begin("Enter phone IP:port");
    assert_eq!(
        step.next,
        Next::Ask(Request::Prompt("Enter phone IP:port"))
    );
    let step = prompt_endpoint(&mut prompt, Reply::Text("1.1.1.1".to_string()));
    assert_eq!(
        step.script.notices,
        vec![warning(
            "Use the full value shown on the phone, for example 192.168.68.54:37123."
        )]
    );
    assert_eq!(
        step.next,
        Next::Ask(Request::Prompt("Enter phone IP:port"))
    );
    let step = prompt_endpoint(&mut prompt, Reply::Text(" 1.1.1.1:1 ".to_string()));
    assert_eq!(
        step.next,
        Next::Give(Reply::Text(" 1.1.1.1:1 ".to_string()))
    );

    let (mut prompt, _) = EndpointPrompt::begin("Enter phone IP:port");
    assert_eq!(
        prompt_endpoint(&mut prompt, failed("closed")).next,
        Next::Give(failed("closed"))
    );
}

#[test]
fn connects_by_hand_to_what_was_entered() {
    let (mut flow, step) = ManualFlow::begin(9 * SECOND);
    assert_eq!(step.next, Next::Ask(Request::Devices));
    let step = manual_connect_flow(&mut flow, Reply::Devices(vec![ready("a", "A")]));
    assert_eq!(
        step.next,
        Next::Ask(Request::ReadySerials(vec![ready("a", "A")]))
    );
    let step = manual_connect_flow(&mut flow, Reply::Texts(texts(&["a"])));
    assert_eq!(
        step.next,
        Next::Ask(Request::ManualConnectDevice {
            baseline: texts(&["a"]),
            timeout: 9 * SECOND,
        })
    );

    let (mut manual, step) = ManualDevice::begin(texts(&["a"]), 9 * SECOND);
    assert_eq!(
        step.script.notices,
        vec![Notice::Section(Topic::ManualConnection)]
    );
    assert_eq!(
        step.next,
        Next::Ask(Request::PromptEndpoint("Enter phone IP:port"))
    );
    let step = manual_connect_device(&mut manual, Reply::Text("h:1".to_string()));
    assert_eq!(step.next, to_endpoint("h:1", &["a"], 9 * SECOND));
    let step = manual_connect_device(&mut manual, Reply::Device(ready("h:1", "H")));
    assert_eq!(step.next, Next::Give(Reply::Device(ready("h:1", "H"))));

    let step = manual_connect_flow(&mut flow, Reply::Device(ready("h:1", "H")));
    assert_eq!(
        step.next,
        Next::Give(Reply::Phone(ConnectedPhone {
            serial: "h:1".to_string(),
            display_name: "H".to_string(),
        }))
    );
}

#[test]
fn bonjour_endpoints_are_tried_in_turn_but_for_the_skipped_one() {
    let (mut attempt, step) = BonjourAttempt::begin(
        "p:1".to_string(),
        texts(&["b"]),
        Some("1.1.1.1:1".to_string()),
        60 * SECOND,
    );
    assert_eq!(
        step.script.notices,
        vec![status(
            "Checking macOS Bonjour directly for wireless debugging endpoints..."
        )]
    );
    assert_eq!(
        step.next,
        Next::Ask(Request::DiscoverConnect {
            pairing_address: "p:1".to_string(),
            patience: 6 * SECOND,
        })
    );
    let found = texts(&["1.1.1.1:1", "2.2.2.2:2", "1.1.1.1:1", "3.3.3.3:3"]);
    let step = try_direct_bonjour_connect(&mut attempt, Reply::Texts(found));
    assert_eq!(
        step.script.notices,
        vec![
            status("Bonjour endpoint candidate(s): 1.1.1.1:1, 2.2.2.2:2, 1.1.1.1:1, 3.3.3.3:3"),
            status("Skipping 1.1.1.1:1; ADB already tried it."),
        ]
    );
    assert_eq!(step.next, to_endpoint("2.2.2.2:2", &["b"], 8 * SECOND));
    let step = try_direct_bonjour_connect(&mut attempt, failed("refused"));
    assert_eq!(
        step.script.notices,
        vec![
            warning("Bonjour endpoint 2.2.2.2:2 failed: refused"),
            status("Skipping 1.1.1.1:1; ADB already tried it."),
        ]
    );
    assert_eq!(step.next, to_endpoint("3.3.3.3:3", &["b"], 8 * SECOND));
    let step = try_direct_bonjour_connect(&mut attempt, failed("refused"));
    assert_eq!(step.next, Next::Give(Reply::MaybeDevice(None)));
}

#[test]
fn bonjour_search_can_find_nothing_or_fail_or_succeed() {
    let begin = || BonjourAttempt::begin("p:1".to_string(), Vec::new(), None, 0).0;
    let mut attempt = begin();
    let step = try_direct_bonjour_connect(&mut attempt, Reply::Texts(Vec::new()));
    assert_eq!(
        step.script.notices,
        vec![status("No Bonjour connect endpoints found outside ADB.")]
    );
    assert_eq!(step.next, Next::Give(Reply::MaybeDevice(None)));

    let mut attempt = begin();
    let step = try_direct_bonjour_connect(&mut attempt, failed("no dns-sd"));
    assert_eq!(
        step.script.notices,
        vec![warning("Bonjour connect lookup failed: no dns-sd")]
    );
    assert_eq!(step.next, Next::Give(Reply::MaybeDevice(None)));

    let mut attempt = begin();
    let step = try_direct_bonjour_connect(&mut attempt, Reply::Texts(texts(&["a:1"])));
    assert_eq!(step.next, to_endpoint("a:1", &[], SECOND));
    let step = try_direct_bonjour_connect(&mut attempt, Reply::Device(ready("a:1", "A")));
    assert_eq!(
        step.next,
        Next::Give(Reply::MaybeDevice(Some(ready("a:1", "A"))))
    );
}

#[test]
fn endpoints_on_screens_are_tried_once() {
    let (mut attempt, step) = ScreenAttempt::begin(texts(&["b"]), 5 * SECOND);
    assert_eq!(step.next, Next::Ask(Request::Devices));
    let devices = vec![ready("x", "X"), offline("y"), ready("z", "Z")];
    let step = try_ui_hierarchy_connect(&mut attempt, Reply::Devices(devices));
    assert_eq!(
        step.script.notices,
        vec![
            status("Trying to read the visible phone screen through ADB..."),
            status("Reading UI hierarchy from X..."),
        ]
    );
    assert_eq!(
        step.next,
        Next::Ask(Request::DumpUiHierarchy("x".to_string()))
    );
    let screen = Reply::Text("<1.1.1.1:1> <2.2.2.2:2>".to_string());
    let step = try_ui_hierarchy_connect(&mut attempt, screen);
    assert_eq!(
        step.script.notices,
        vec![status(
            "Screen endpoint candidate(s): 1.1.1.1:1, 2.2.2.2:2"
        )]
    );
    assert_eq!(step.next, to_endpoint("1.1.1.1:1", &["b"], 5 * SECOND));
    let step = try_ui_hierarchy_connect(&mut attempt, failed("refused"));
    assert_eq!(
        step.script.notices,
        vec![warning("Screen endpoint 1.1.1.1:1 failed: refused")]
    );
    assert_eq!(step.next, to_endpoint("2.2.2.2:2", &["b"], 5 * SECOND));
    let step = try_ui_hierarchy_connect(&mut attempt, failed("refused"));
    assert_eq!(
        step.script.notices,
        vec![
            warning("Screen endpoint 2.2.2.2:2 failed: refused"),
            status("Reading UI hierarchy from Z..."),
        ]
    );
    let screen = Reply::Text("2.2.2.2:2 3.3.3.3:3 1.1.1.1:1".to_string());
    let step = try_ui_hierarchy_connect(&mut attempt, screen);
    assert_eq!(step.next, to_endpoint("3.3.3.3:3", &["b"], 5 * SECOND));
    let step = try_ui_hierarchy_connect(&mut attempt, failed("refused"));
    assert_eq!(step.next, Next::Give(Reply::MaybeDevice(None)));
}

#[test]
fn screens_can_be_missing_unreadable_or_empty() {
    let (mut attempt, _) = ScreenAttempt::begin(Vec::new(), SECOND);
    let step = try_ui_hierarchy_connect(&mut attempt, failed("no server"));
    assert_eq!(
        step.script.notices,
        vec![status(
            "No existing ADB transport is available for screen parsing."
        )]
    );
    assert_eq!(step.next, Next::Give(Reply::MaybeDevice(None)));

    let (mut attempt, _) = ScreenAttempt::begin(Vec::new(), SECOND);
    let devices = vec![ready("x", "X"), ready("y", "Y"), ready("z", "Z")];
    try_ui_hierarchy_connect(&mut attempt, Reply::Devices(devices));
    let step = try_ui_hierarchy_connect(&mut attempt, failed("locked"));
    assert_eq!(
        step.script.notices,
        vec![
            warning("Could not read UI hierarchy from X: locked"),
            status("Reading UI hierarchy from Y..."),
        ]
    );
    let step = try_ui_hierarchy_connect(&mut attempt, Reply::Text("nothing".to_string()));
    assert_eq!(
        step.script.notices,
        vec![
            status("No IP:port text found on Y."),
            status("Reading UI hierarchy from Z..."),
        ]
    );
    try_ui_hierarchy_connect(&mut attempt, Reply::Text("4.4.4.4:4".to_string()));
    let step = try_ui_hierarchy_connect(&mut attempt, Reply::Device(ready("4.4.4.4:4", "4")));
    assert_eq!(
        step.next,
        Next::Give(Reply::MaybeDevice(Some(ready("4.4.4.4:4", "4"))))
    );
}

fn begin_search(timeout: u128) -> DeviceSearch {
    let (search, step) = DeviceSearch::begin(
        "p:1".to_string(),
        vec![candidate("old:1")],
        texts(&["b"]),
        timeout,
        0,
    );
    assert_eq!(
        step.script.notices,
        vec![Notice::CountdownBegins(
            "Connection endpoint wait".to_string()
        )]
    );
    assert_eq!(step.next, Next::Ask(Request::Tick(timeout)));
    search
}

/// Goes through one round of the search up to the reply with the candidates.
fn one_round(search: &mut DeviceSearch, candidates: &[&str], now: u128) -> Step {
    connect_and_wait_for_device(search, Reply::Done, now);
    connect_and_wait_for_device(search, Reply::Devices(Vec::new()), now);
    connect_and_wait_for_device(search, Reply::MaybeDevice(None), now);
    let step = connect_and_wait_for_device(search, Reply::Services(Vec::new()), now);
    assert_eq!(
        step.next,
        Next::Ask(Request::ConnectCandidates {
            services: Vec::new(),
            pairing_address: "p:1".to_string(),
            baseline_services: vec![candidate("old:1")],
        })
    );
    let found = candidates.iter().map(|address| candidate(address)).collect();
    connect_and_wait_for_device(search, Reply::Services(found), now)
}

#[test]
fn search_announces_each_endpoint_once_and_counts_attempts() {
    let mut search = begin_search(60 * SECOND);
    let step = one_round(&mut search, &["1.1.1.1:1", "2.2.2.2:2"], SECOND);
    assert_eq!(
        step.script.notices,
        vec![
            Notice::CountdownEnds,
            status("Connect endpoint candidate(s): 1.1.1.1:1, 2.2.2.2:2"),
            Notice::CountdownEnds,
            status("Connecting to 1.1.1.1:1..."),
            Notice::CountdownEnds,
            status("Attempt 1: adb connect 1.1.1.1:1"),
        ]
    );
    assert_eq!(
        step.next,
        Next::Ask(Request::Connect("1.1.1.1:1".to_string()))
    );
    let step = connect_and_wait_for_device(&mut search, Reply::Text("ok".to_string()), SECOND);
    assert_eq!(
        step.next,
        Next::Ask(Request::SerialFromOutput("ok".to_string()))
    );
    let step = connect_and_wait_for_device(&mut search, Reply::MaybeText(None), SECOND);
    assert_eq!(
        step.script.notices,
        vec![
            Notice::CountdownEnds,
            status("Verifying the device is ready...")
        ]
    );
    let step = connect_and_wait_for_device(&mut search, failed("no list"), SECOND);
    assert_eq!(
        step.next,
        Next::Ask(Request::MatchReadyDevice {
            devices: Vec::new(),
            expected_serial: "1.1.1.1:1".to_string(),
            baseline: texts(&["b"]),
        })
    );
    let step = connect_and_wait_for_device(&mut search, Reply::MaybeDevice(None), SECOND);
    assert_eq!(
        step.script.notices,
        vec![
            Notice::CountdownEnds,
            status("Connecting to 2.2.2.2:2..."),
            Notice::CountdownEnds,
            status("Attempt 2: adb connect 2.2.2.2:2"),
        ]
    );
    connect_and_wait_for_device(&mut search, Reply::Text("ok".to_string()), SECOND);
    connect_and_wait_for_device(&mut search, Reply::MaybeText(Some("n".to_string())), SECOND);
    connect_and_wait_for_device(&mut search, Reply::Devices(Vec::new()), SECOND);
    let step = connect_and_wait_for_device(&mut search, Reply::MaybeDevice(None), SECOND);
    assert_eq!(step.next, Next::Ask(Request::Sleep(2 * SECOND)));
    assert_eq!(search.expected_serial, "n");

    let step = connect_and_wait_for_device(&mut search, Reply::Done, 3 * SECOND);
    assert_eq!(step.next, Next::Ask(Request::Tick(57 * SECOND)));
    let step = one_round(&mut search, &["1.1.1.1:1", "2.2.2.2:2"], 3 * SECOND);
    assert_eq!(
        step.script.notices,
        vec![
            Notice::CountdownEnds,
            status("Attempt 3: adb connect 1.1.1.1:1")
        ]
    );
    connect_and_wait_for_device(&mut search, Reply::Text("ok".to_string()), 3 * SECOND);
    connect_and_wait_for_device(&mut search, Reply::MaybeText(None), 3 * SECOND);
    connect_and_wait_for_device(&mut search, Reply::Devices(Vec::new()), 3 * SECOND);
    let found = Reply::MaybeDevice(Some(ready("n", "N")));
    let step = connect_and_wait_for_device(&mut search, found, 3 * SECOND);
    assert_eq!(step.script.notices, vec![Notice::CountdownEnds]);
    assert_eq!(step.next, Next::Give(Reply::Device(ready("n", "N"))));
}

#[test]
fn search_reports_waiting_once_and_asks_bonjour_every_ten_seconds() {
    let mut search = begin_search(60 * SECOND);
    let bonjour = || {
        Next::Ask(Request::TryDirectBonjourConnect {
            pairing_address: "p:1".to_string(),
            baseline: texts(&["b"]),
            skipped: None,
            timeout: 60 * SECOND,
        })
    };
    let step = one_round(&mut search, &[], SECOND);
    assert_eq!(
        step.script.notices,
        vec![
            Notice::CountdownEnds,
            status("Waiting for the phone to advertise its connection endpoint..."),
            Notice::CancelHint,
            Notice::CountdownEnds,
        ]
    );
    assert_eq!(step.next, bonjour());
    let step = connect_and_wait_for_device(&mut search, Reply::MaybeDevice(None), 8 * SECOND);
    assert_eq!(step.next, Next::Ask(Request::Sleep(2 * SECOND)));
    connect_and_wait_for_device(&mut search, Reply::Done, 10 * SECOND);
    let step = one_round(&mut search, &[], 11 * SECOND - 1);
    assert_eq!(step.script.notices, vec![]);
    assert_eq!(step.next, Next::Ask(Request::Sleep(2 * SECOND)));
    connect_and_wait_for_device(&mut search, Reply::Done, 11 * SECOND);
    let step = one_round(&mut search, &[], 11 * SECOND);
    assert_eq!(step.script.notices, vec![Notice::CountdownEnds]);
    assert_eq!(step.next, bonjour());
    let found = Reply::MaybeDevice(Some(ready("n", "N")));
    let step = connect_and_wait_for_device(&mut search, found, 12 * SECOND);
    assert_eq!(step.script.notices, vec![]);
    assert_eq!(step.next, Next::Give(Reply::Device(ready("n", "N"))));
}

#[test]
fn search_reports_failing_discovery_once() {
    let mut search = begin_search(60 * SECOND);
    let mut says = Vec::new();
    for _ in 0..2 {
        connect_and_wait_for_device(&mut search, Reply::Done, 0);
        let devices = Reply::Devices(vec![ready("b", "B"), offline("c")]);
        connect_and_wait_for_device(&mut search, devices, 0);
        let step = connect_and_wait_for_device(&mut search, Reply::MaybeDevice(None), 0);
        assert_eq!(
            step.script.notices,
            vec![
                Notice::CountdownEnds,
                status("ADB sees 1 ready device(s), but not the just-paired phone yet."),
            ]
        );
        let step = connect_and_wait_for_device(&mut search, failed("no mdns"), 0);
        says.push(step.script.notices);
        connect_and_wait_for_device(&mut search, Reply::Services(Vec::new()), 0);
        if says.len() == 1 {
            connect_and_wait_for_device(&mut search, Reply::MaybeDevice(None), 0);
            connect_and_wait_for_device(&mut search, Reply::Done, 0);
        }
    }
    assert_eq!(
        says,
        vec![
            vec![
                Notice::CountdownEnds,
                warning("adb mDNS connect lookup failed: no mdns")
            ],
            vec![],
        ]
    );
}

#[test]
fn search_falls_back_when_a_candidate_fails() {
    let mut search = begin_search(60 * SECOND);
    one_round(&mut search, &["1.1.1.1:1"], 0);
    let step = connect_and_wait_for_device(&mut search, failed("refused"), 0);
    assert_eq!(
        step.script.notices,
        vec![
            Notice::CountdownEnds,
            warning("ADB mDNS endpoint 1.1.1.1:1 failed: refused"),
        ]
    );
    assert_eq!(
        step.next,
        Next::Ask(Request::TryDirectBonjourConnect {
            pairing_address: "p:1".to_string(),
            baseline: texts(&["b"]),
            skipped: Some("1.1.1.1:1".to_string()),
            timeout: 60 * SECOND,
        })
    );
    let step = connect_and_wait_for_device(&mut search, Reply::MaybeDevice(None), 0);
    assert_eq!(
        step.next,
        Next::Ask(Request::TryUiHierarchyConnect {
            baseline: texts(&["b"]),
            timeout: 60 * SECOND,
        })
    );
    let step = connect_and_wait_for_device(&mut search, Reply::MaybeDevice(None), 0);
    assert_eq!(
        step.script.notices,
        vec![warning(
            "Automatic discovery did not find a working endpoint."
        )]
    );
    assert_eq!(
        step.next,
        Next::Ask(Request::ManualConnectDevice {
            baseline: texts(&["b"]),
            timeout: 60 * SECOND,
        })
    );
    let step = connect_and_wait_for_device(&mut search, failed("gave up"), 0);
    assert_eq!(step.next, Next::Give(failed("gave up")));
}

#[test]
fn search_falls_back_when_its_time_is_up() {
    let mut search = begin_search(SECOND);
    one_round(&mut search, &[], 0);
    let step = connect_and_wait_for_device(&mut search, Reply::MaybeDevice(None), SECOND);
    assert_eq!(step.script.notices, vec![Notice::CountdownEnds]);
    assert_eq!(
        step.next,
        Next::Ask(Request::TryUiHierarchyConnect {
            baseline: texts(&["b"]),
            timeout: SECOND,
        })
    );
    let step = connect_and_wait_for_device(&mut search, Reply::MaybeDevice(None), SECOND);
    assert_eq!(
        step.script.notices,
        vec![warning(
            "Automatic discovery timed out before finding a connectable wireless debugging endpoint."
        )]
    );
    let step =
        connect_and_wait_for_device(&mut search, Reply::Device(ready("m:1", "M")), SECOND);
    assert_eq!(step.next, Next::Give(Reply::Device(ready("m:1", "M"))));
}

#[test]
fn search_gives_a_device_that_is_ready_at_once() {
    let mut search = begin_search(SECOND);
    connect_and_wait_for_device(&mut search, Reply::Done, 0);
    let devices = vec![ready("p:1", "P")];
    let step = connect_and_wait_for_device(&mut search, Reply::Devices(devices), 0);
    assert_eq!(
        step.next,
        Next::Ask(Request::MatchReadyDevice {
            devices: vec![ready("p:1", "P")],
            expected_serial: "p:1".to_string(),
            baseline: texts(&["b"]),
        })
    );
    let found = Reply::MaybeDevice(Some(ready("p:1", "P")));
    let step = connect_and_wait_for_device(&mut search, found, 0);
    assert_eq!(
        step.script.notices,
        vec![Notice::CountdownEnds, success("ADB device is ready: P")]
    );
    assert_eq!(step.next, Next::Give(Reply::Device(ready("p:1", "P"))));
}

#[test]
fn search_cannot_count_attempts_without_end() {
    let mut search = begin_search(SECOND);
    one_round(&mut search, &["1.1.1.1:1"], 0);
    connect_and_wait_for_device(&mut search, Reply::Text(String::new()), 0);
    connect_and_wait_for_device(&mut search, Reply::MaybeText(None), 0);
    connect_and_wait_for_device(&mut search, Reply::Devices(Vec::new()), 0);
    search.attempt = i32::MAX as u32;
    assert!(search.accepts(&Reply::MaybeDevice(None)));
    search.candidates.push(candidate("2.2.2.2:2"));
    assert!(!search.accepts(&Reply::MaybeDevice(None)));
    assert!(search.accepts(&Reply::MaybeDevice(Some(ready("n", "N")))));
}
