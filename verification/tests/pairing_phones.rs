use airadb::clock::{MILLISECOND, SECOND};
use airadb::device::{AdbDevice, ConnectedPhone, DeviceState, MdnsService, ServiceKind};
use airadb::dialogue::{Next, Notice, PairingWaitOutcome, Reply, Request, Topic};
use airadb::failure::Failure;
use airadb::flows::{
    pair_and_connect, pairing_code_flow, retrying_pairing_flow, CodePairing, PairingRetry,
    QrPairing,
};
use airadb::pairing::{
    already_connected_phone_choice, find_pairing_address, wait_for_pairing_endpoint,
    ExistingPhones, PairingWait,
};

fn online(serial: &str) -> AdbDevice {
    AdbDevice {
        serial: serial.to_string(),
        state: DeviceState::Device,
        display_name: serial.to_uppercase(),
    }
}

fn online_phone(serial: &str) -> ConnectedPhone {
    ConnectedPhone {
        serial: serial.to_string(),
        display_name: serial.to_uppercase(),
    }
}

fn service(instance: &str, kind: ServiceKind, address: &str) -> MdnsService {
    MdnsService {
        instance: instance.to_string(),
        kind,
        address: address.to_string(),
    }
}

fn problem(message: &str) -> Reply {
    Reply::Failed(Failure::new(message.to_string()))
}

fn info(text: &str) -> Notice {
    Notice::Status(text.to_string())
}

fn alert(text: &str) -> Notice {
    Notice::Warning(text.to_string())
}

fn cheer(text: &str) -> Notice {
    Notice::Success(text.to_string())
}

fn retry_menu() -> Next {
    Next::Ask(Request::Menu(vec![
        "Retry QR pairing".to_string(),
        "Enter phone IP:port manually".to_string(),
        "Reset ADB server and retry".to_string(),
        "Pair with pairing code".to_string(),
        "Close".to_string(),
    ]))
}

fn outcome(address: &str) -> Next {
    Next::Give(Reply::Pairing(PairingWaitOutcome::PairingEndpoint(
        address.to_string(),
    )))
}

fn begin_wait(timeout: u128) -> PairingWait {
    let (wait, step) = PairingWait::begin("qr-1".to_string(), timeout, 0);
    assert_eq!(
        step.script.notices,
        vec![Notice::CountdownBegins("Waiting for QR scan".to_string())]
    );
    assert_eq!(step.next, Next::Ask(Request::Tick(timeout)));
    wait
}

#[test]
fn existing_phones_are_used_offered_or_ignored() {
    let none: Vec<ConnectedPhone> = Vec::new();
    let one = vec![online_phone("a")];
    let two = vec![online_phone("a"), online_phone("b")];
    assert_eq!(
        already_connected_phone_choice(&none, false),
        ExistingPhones::Ignore
    );
    assert_eq!(
        already_connected_phone_choice(&one, true),
        ExistingPhones::Use(online_phone("a"))
    );
    assert_eq!(
        already_connected_phone_choice(&two, true),
        ExistingPhones::Ignore
    );
    assert_eq!(
        already_connected_phone_choice(&two, false),
        ExistingPhones::Offer(vec![
            "Use A".to_string(),
            "Use B".to_string(),
            "Keep waiting for QR scan".to_string(),
        ])
    );
}

#[test]
fn pairing_service_is_found_by_name_and_kind() {
    let services = vec![
        service("qr-1", ServiceKind::Connect, "1:1"),
        service("qr-2", ServiceKind::Pairing, "2:2"),
        service("qr-1", ServiceKind::Pairing, "3:3"),
        service("qr-1", ServiceKind::Pairing, "4:4"),
    ];
    let find = |instance: &str| find_pairing_address(&services, &instance.to_string());
    assert_eq!(find("qr-1"), Some("3:3".to_string()));
    assert_eq!(find("qr-2"), Some("2:2".to_string()));
    assert_eq!(find("qr-3"), None);
}

#[test]
fn wait_ends_with_a_service_that_the_bridge_knows() {
    let mut wait = begin_wait(SECOND);
    let step = wait_for_pairing_endpoint(&mut wait, Reply::Done, 0);
    assert_eq!(step.next, Next::Ask(Request::Devices));
    let step = wait_for_pairing_endpoint(&mut wait, Reply::Devices(Vec::new()), 0);
    assert_eq!(step.script.notices, vec![]);
    assert_eq!(step.next, Next::Ask(Request::MdnsServices));
    let services = vec![service("qr-1", ServiceKind::Pairing, "3:3")];
    let step = wait_for_pairing_endpoint(&mut wait, Reply::Services(services), 0);
    assert_eq!(step.script.notices, vec![Notice::CountdownEnds]);
    assert_eq!(step.next, outcome("3:3"));
}

#[test]
fn wait_reports_each_kind_of_failure_once() {
    let mut wait = begin_wait(60 * SECOND);
    let mut said = Vec::new();
    for round in 0..2u128 {
        wait_for_pairing_endpoint(&mut wait, Reply::Done, round);
        let step = wait_for_pairing_endpoint(&mut wait, problem("no devices"), round);
        said.push(step.script.notices);
        let step = wait_for_pairing_endpoint(&mut wait, problem("no mdns"), round);
        said.push(step.script.notices);
        assert_eq!(
            step.next,
            Next::Ask(Request::DiscoverPairing {
                instance: "qr-1".to_string(),
                patience: 2 * SECOND,
            })
        );
        let step = wait_for_pairing_endpoint(&mut wait, problem("no bonjour"), round);
        said.push(step.script.notices);
        assert_eq!(step.next, Next::Ask(Request::Sleep(500 * MILLISECOND)));
        let step = wait_for_pairing_endpoint(&mut wait, Reply::Done, SECOND);
        assert_eq!(step.next, Next::Ask(Request::Tick(59 * SECOND)));
    }
    assert_eq!(
        said,
        vec![
            vec![
                Notice::CountdownEnds,
                alert("could not check existing ADB devices: no devices"),
            ],
            vec![
                Notice::CountdownEnds,
                alert("adb mDNS lookup failed: no mdns"),
                Notice::CountdownEnds,
                info("Also checking macOS Bonjour directly for the QR pairing service..."),
            ],
            vec![
                Notice::CountdownEnds,
                alert("Bonjour pairing lookup failed: no bonjour"),
            ],
            vec![],
            vec![],
            vec![],
        ]
    );
}

#[test]
fn wait_ends_with_an_endpoint_from_bonjour_or_at_the_deadline() {
    let mut wait = begin_wait(SECOND);
    wait_for_pairing_endpoint(&mut wait, Reply::Done, 0);
    wait_for_pairing_endpoint(&mut wait, Reply::Devices(Vec::new()), 0);
    wait_for_pairing_endpoint(&mut wait, Reply::Services(Vec::new()), 0);
    let found = Reply::MaybeText(Some("5:5".to_string()));
    let step = wait_for_pairing_endpoint(&mut wait, found, 0);
    assert_eq!(
        step.script.notices,
        vec![
            Notice::CountdownEnds,
            cheer("Phone found through macOS Bonjour.")
        ]
    );
    assert_eq!(step.next, outcome("5:5"));

    let mut wait = begin_wait(SECOND);
    wait_for_pairing_endpoint(&mut wait, Reply::Done, 0);
    wait_for_pairing_endpoint(&mut wait, Reply::Devices(Vec::new()), 0);
    wait_for_pairing_endpoint(&mut wait, Reply::Services(Vec::new()), 0);
    let step = wait_for_pairing_endpoint(&mut wait, Reply::MaybeText(None), SECOND);
    assert_eq!(step.script.notices, vec![Notice::CountdownEnds]);
    assert_eq!(
        step.next,
        Next::Give(problem(
            "timed out waiting for the phone to advertise the QR pairing service `qr-1`"
        ))
    );
}

#[test]
fn wait_takes_a_single_phone_that_is_there_already() {
    let mut wait = begin_wait(SECOND);
    wait_for_pairing_endpoint(&mut wait, Reply::Done, 0);
    let step = wait_for_pairing_endpoint(&mut wait, Reply::Devices(vec![online("a")]), 0);
    assert_eq!(
        step.script.notices,
        vec![
            Notice::CountdownEnds,
            cheer("ADB already sees A; skipping QR scan."),
            Notice::CountdownEnds,
        ]
    );
    assert_eq!(
        step.next,
        Next::Give(Reply::Pairing(PairingWaitOutcome::AlreadyConnected(
            online_phone("a")
        )))
    );
}

#[test]
fn wait_offers_several_phones_once() {
    let devices = || Reply::Devices(vec![online("a"), online("b")]);
    let mut wait = begin_wait(SECOND);
    wait_for_pairing_endpoint(&mut wait, Reply::Done, 0);
    let step = wait_for_pairing_endpoint(&mut wait, devices(), 0);
    assert_eq!(
        step.script.notices,
        vec![
            Notice::CountdownEnds,
            info("ADB already sees multiple ready devices.")
        ]
    );
    assert_eq!(
        step.next,
        Next::Ask(Request::Menu(vec![
            "Use A".to_string(),
            "Use B".to_string(),
            "Keep waiting for QR scan".to_string(),
        ]))
    );
    assert!(!wait.accepts(&Reply::Choice(0)));
    let step = wait_for_pairing_endpoint(&mut wait, Reply::Choice(3), 0);
    assert_eq!(step.next, Next::Ask(Request::MdnsServices));
    wait_for_pairing_endpoint(&mut wait, Reply::Services(Vec::new()), 0);
    wait_for_pairing_endpoint(&mut wait, Reply::MaybeText(None), 0);
    wait_for_pairing_endpoint(&mut wait, Reply::Done, 0);
    wait_for_pairing_endpoint(&mut wait, Reply::Done, 0);
    let step = wait_for_pairing_endpoint(&mut wait, devices(), 0);
    assert_eq!(step.script.notices, vec![Notice::CountdownEnds]);
    assert_eq!(step.next, Next::Ask(Request::MdnsServices));

    let mut wait = begin_wait(SECOND);
    wait_for_pairing_endpoint(&mut wait, Reply::Done, 0);
    wait_for_pairing_endpoint(&mut wait, devices(), 0);
    let step = wait_for_pairing_endpoint(&mut wait, Reply::Choice(2), 0);
    assert_eq!(step.script.notices, vec![Notice::CountdownEnds]);
    assert_eq!(
        step.next,
        Next::Give(Reply::Pairing(PairingWaitOutcome::AlreadyConnected(
            online_phone("b")
        )))
    );
}

#[test]
fn cancelling_ends_the_wait_for_a_scan() {
    let cancelled = || Reply::Failed(Failure::cancelled());
    let mut wait = begin_wait(SECOND);
    assert_eq!(
        wait_for_pairing_endpoint(&mut wait, cancelled(), 0).next,
        Next::Give(cancelled())
    );

    let mut wait = begin_wait(SECOND);
    wait_for_pairing_endpoint(&mut wait, Reply::Done, 0);
    wait_for_pairing_endpoint(
        &mut wait,
        Reply::Devices(vec![online("a"), online("b")]),
        0,
    );
    let step = wait_for_pairing_endpoint(&mut wait, cancelled(), 0);
    assert_eq!(step.script.notices, vec![]);
    assert_eq!(step.next, Next::Give(cancelled()));

    let mut wait = begin_wait(SECOND);
    wait_for_pairing_endpoint(&mut wait, Reply::Done, 0);
    wait_for_pairing_endpoint(&mut wait, Reply::Devices(Vec::new()), 0);
    wait_for_pairing_endpoint(&mut wait, Reply::Services(Vec::new()), 0);
    wait_for_pairing_endpoint(&mut wait, Reply::MaybeText(None), 0);
    let step = wait_for_pairing_endpoint(&mut wait, cancelled(), 0);
    assert_eq!(step.script.notices, vec![Notice::CountdownEnds]);
    assert_eq!(step.next, Next::Give(cancelled()));
}

#[test]
fn qr_pairing_uses_the_code_that_is_shown() {
    let (mut pairing, step) = QrPairing::begin(7 * SECOND);
    assert_eq!(step.next, Next::Ask(Request::MdnsServices));
    let old = || vec![service("adb", ServiceKind::Connect, "o:1")];
    let step = pair_and_connect(&mut pairing, Reply::Services(old()));
    assert_eq!(step.next, Next::Ask(Request::ConnectServices(old())));
    let step = pair_and_connect(&mut pairing, Reply::Services(old()));
    assert_eq!(step.next, Next::Ask(Request::Devices));
    let step = pair_and_connect(&mut pairing, problem("no server"));
    assert_eq!(step.next, Next::Ask(Request::ReadySerials(Vec::new())));
    let step = pair_and_connect(&mut pairing, Reply::Texts(vec!["b".to_string()]));
    assert_eq!(step.next, Next::Ask(Request::GenerateQr));
    let qr = Reply::Qr {
        instance: "qr-1".to_string(),
        secret: "open sesame".to_string(),
    };
    let step = pair_and_connect(&mut pairing, qr);
    assert_eq!(
        step.script.notices,
        vec![Notice::Section(Topic::PairWithQrCode)]
    );
    assert_eq!(
        step.next,
        Next::Ask(Request::RenderQr {
            instance: "qr-1".to_string(),
            secret: "open sesame".to_string(),
        })
    );
    let step = pair_and_connect(&mut pairing, Reply::Text("##".to_string()));
    assert_eq!(
        step.script.notices,
        vec![
            Notice::QrCode("##".to_string()),
            Notice::BlankLine,
            Notice::CancelHint
        ]
    );
    assert_eq!(
        step.next,
        Next::Ask(Request::WaitForPairingEndpoint {
            instance: "qr-1".to_string(),
            timeout: 7 * SECOND,
        })
    );
    let found = PairingWaitOutcome::PairingEndpoint("p:1".to_string());
    let step = pair_and_connect(&mut pairing, Reply::Pairing(found));
    assert_eq!(
        step.script.notices,
        vec![cheer("Phone found. Completing ADB pairing...")]
    );
    assert_eq!(
        step.next,
        Next::Ask(Request::Pair {
            address: "p:1".to_string(),
            secret: "open sesame".to_string(),
        })
    );
    let step = pair_and_connect(&mut pairing, Reply::Done);
    assert_eq!(
        step.script.notices,
        vec![info(
            "Looking for the wireless debugging connection endpoint..."
        )]
    );
    assert_eq!(
        step.next,
        Next::Ask(Request::ConnectAndWaitForDevice {
            pairing_address: "p:1".to_string(),
            baseline_services: old(),
            baseline: vec!["b".to_string()],
            timeout: 7 * SECOND,
        })
    );
    let step = pair_and_connect(&mut pairing, Reply::Device(online("a")));
    assert_eq!(step.next, Next::Give(Reply::Phone(online_phone("a"))));
}

#[test]
fn qr_pairing_stops_at_a_known_phone_and_at_failures() {
    let scanning = || {
        let (mut pairing, _) = QrPairing::begin(SECOND);
        pair_and_connect(&mut pairing, problem("no mdns"));
        pair_and_connect(&mut pairing, Reply::Services(Vec::new()));
        pair_and_connect(&mut pairing, Reply::Devices(Vec::new()));
        pair_and_connect(&mut pairing, Reply::Texts(Vec::new()));
        let qr = Reply::Qr {
            instance: "qr-1".to_string(),
            secret: "open sesame".to_string(),
        };
        pair_and_connect(&mut pairing, qr);
        pairing
    };
    let mut pairing = scanning();
    assert_eq!(
        pair_and_connect(&mut pairing, problem("too long")).next,
        Next::Give(problem("too long"))
    );

    let mut pairing = scanning();
    pair_and_connect(&mut pairing, Reply::Text("##".to_string()));
    let known = PairingWaitOutcome::AlreadyConnected(online_phone("a"));
    assert_eq!(
        pair_and_connect(&mut pairing, Reply::Pairing(known)).next,
        Next::Give(Reply::Phone(online_phone("a")))
    );

    let mut pairing = scanning();
    pair_and_connect(&mut pairing, Reply::Text("##".to_string()));
    let found = PairingWaitOutcome::PairingEndpoint("p:1".to_string());
    pair_and_connect(&mut pairing, Reply::Pairing(found));
    assert_eq!(
        pair_and_connect(&mut pairing, problem("wrong code")).next,
        Next::Give(problem("wrong code"))
    );
    assert!(!pairing.accepts(&Reply::Done));
}

#[test]
fn code_pairing_pairs_and_then_connects() {
    let (mut pairing, step) = CodePairing::begin(7 * SECOND);
    assert_eq!(
        step.script.notices,
        vec![Notice::Section(Topic::PairWithPairingCode)]
    );
    assert_eq!(
        step.next,
        Next::Ask(Request::PromptEndpoint("Enter pairing IP:port"))
    );
    let step = pairing_code_flow(&mut pairing, Reply::Text("p:1".to_string()));
    assert_eq!(step.next, Next::Ask(Request::Prompt("Enter pairing code")));
    let step = pairing_code_flow(&mut pairing, Reply::Text("code".to_string()));
    assert_eq!(step.script.notices, vec![info("Pairing with p:1...")]);
    assert_eq!(
        step.next,
        Next::Ask(Request::Pair {
            address: "p:1".to_string(),
            secret: "code".to_string(),
        })
    );
    let step = pairing_code_flow(&mut pairing, Reply::Done);
    assert_eq!(
        step.script.notices,
        vec![
            cheer("Pairing succeeded."),
            Notice::Section(Topic::ConnectPairedPhone)
        ]
    );
    assert_eq!(
        step.next,
        Next::Ask(Request::PromptEndpoint("Enter phone IP:port"))
    );
    let step = pairing_code_flow(&mut pairing, Reply::Text("c:2".to_string()));
    assert_eq!(step.next, Next::Ask(Request::Devices));
    let step = pairing_code_flow(&mut pairing, Reply::Devices(vec![online("b")]));
    assert_eq!(
        step.next,
        Next::Ask(Request::ReadySerials(vec![online("b")]))
    );
    let step = pairing_code_flow(&mut pairing, Reply::Texts(vec!["b".to_string()]));
    assert_eq!(
        step.next,
        Next::Ask(Request::ConnectToEndpoint {
            endpoint: "c:2".to_string(),
            baseline: vec!["b".to_string()],
            timeout: 7 * SECOND,
        })
    );
    let step = pairing_code_flow(&mut pairing, Reply::Device(online("a")));
    assert_eq!(step.next, Next::Give(Reply::Phone(online_phone("a"))));

    let (mut pairing, _) = CodePairing::begin(SECOND);
    pairing_code_flow(&mut pairing, Reply::Text("p:1".to_string()));
    pairing_code_flow(&mut pairing, Reply::Text("code".to_string()));
    assert_eq!(
        pairing_code_flow(&mut pairing, problem("wrong code")).next,
        Next::Give(problem("wrong code"))
    );
}

#[test]
fn failed_pairing_lets_the_user_decide() {
    let (mut retry, step) = PairingRetry::begin(SECOND);
    assert_eq!(step.next, Next::Ask(Request::PairAndConnect(SECOND)));
    let step = retrying_pairing_flow(&mut retry, problem("timed out"));
    assert_eq!(
        step.script.notices,
        vec![Notice::Error("timed out".to_string())]
    );
    assert_eq!(step.next, retry_menu());
    let step = retrying_pairing_flow(&mut retry, Reply::Choice(1));
    assert_eq!(step.next, Next::Ask(Request::PairAndConnect(SECOND)));
    let step = retrying_pairing_flow(&mut retry, Reply::Failed(Failure::cancelled()));
    assert_eq!(step.script.notices, vec![cheer("Pairing cancelled.")]);
    assert_eq!(step.next, retry_menu());
    assert!(!retry.accepts(&Reply::Choice(0)));
    assert!(!retry.accepts(&Reply::Choice(6)));
    let step = retrying_pairing_flow(&mut retry, Reply::Choice(3));
    assert_eq!(step.next, Next::Ask(Request::ResetAdbServer));
    let step = retrying_pairing_flow(&mut retry, Reply::Done);
    assert_eq!(step.next, Next::Ask(Request::WarnIfMdnsCheckFails));
    let step = retrying_pairing_flow(&mut retry, Reply::Done);
    assert_eq!(step.next, Next::Ask(Request::PairAndConnect(SECOND)));
    let step = retrying_pairing_flow(&mut retry, Reply::Phone(online_phone("a")));
    assert_eq!(step.next, Next::Give(Reply::Phone(online_phone("a"))));
}

#[test]
fn other_ways_to_a_phone_can_fail_or_be_cancelled() {
    let choosing = || {
        let (mut retry, _) = PairingRetry::begin(SECOND);
        retrying_pairing_flow(&mut retry, problem("timed out"));
        retry
    };
    for (choice, request) in [
        (2, Request::ManualConnectFlow(SECOND)),
        (4, Request::PairingCodeFlow(SECOND)),
    ] {
        let mut retry = choosing();
        let step = retrying_pairing_flow(&mut retry, Reply::Choice(choice));
        assert_eq!(step.next, Next::Ask(request));
        let step = retrying_pairing_flow(&mut retry, problem("refused"));
        assert_eq!(
            step.script.notices,
            vec![Notice::Error("refused".to_string())]
        );
        assert_eq!(step.next, Next::Ask(Request::PairAndConnect(SECOND)));

        let mut retry = choosing();
        retrying_pairing_flow(&mut retry, Reply::Choice(choice));
        let step = retrying_pairing_flow(&mut retry, Reply::Failed(Failure::cancelled()));
        assert_eq!(step.script.notices, vec![]);
        assert_eq!(step.next, Next::Give(Reply::Failed(Failure::cancelled())));

        let mut retry = choosing();
        retrying_pairing_flow(&mut retry, Reply::Choice(choice));
        let step = retrying_pairing_flow(&mut retry, Reply::Phone(online_phone("a")));
        assert_eq!(step.next, Next::Give(Reply::Phone(online_phone("a"))));
    }
    let mut retry = choosing();
    let step = retrying_pairing_flow(&mut retry, Reply::Choice(5));
    assert_eq!(step.next, Next::Give(Reply::Failed(Failure::cancelled())));

    let mut retry = choosing();
    let step = retrying_pairing_flow(&mut retry, problem("no terminal"));
    assert_eq!(step.next, Next::Give(problem("no terminal")));

    let mut retry = choosing();
    retrying_pairing_flow(&mut retry, Reply::Choice(3));
    let step = retrying_pairing_flow(&mut retry, problem("no server"));
    assert_eq!(step.next, Next::Give(problem("no server")));
}
