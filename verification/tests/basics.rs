use airadb::choice::{chosen_phone, phone_options, with_option};
use airadb::clock::{
    poll_delay, remaining_until, should_check_bonjour, verify_timeout, MILLISECOND, SECOND,
};
use airadb::device::{
    as_phone, count_ready_devices, endpoint_summary, join_with_commas, only_ready_devices,
    ready_connected_phones, AdbDevice, ConnectedPhone, DeviceState, MdnsService, ServiceKind,
};
use airadb::dialogue::{Next, Notice, Reply, Request, Script, Topic};
use airadb::failure::Failure;
use airadb::text::{add_text, copy_texts, has_text};

fn listed(serial: &str, state: DeviceState, display_name: &str) -> AdbDevice {
    AdbDevice {
        serial: serial.to_string(),
        state,
        display_name: display_name.to_string(),
    }
}

fn named_phone(serial: &str, display_name: &str) -> ConnectedPhone {
    ConnectedPhone {
        serial: serial.to_string(),
        display_name: display_name.to_string(),
    }
}

fn known_service(address: &str, kind: ServiceKind) -> MdnsService {
    MdnsService {
        instance: "adb-1".to_string(),
        kind,
        address: address.to_string(),
    }
}

#[test]
fn time_runs_out_at_the_deadline() {
    assert_eq!(remaining_until(10, 3), 7);
    assert_eq!(remaining_until(10, 10), 0);
    assert_eq!(remaining_until(10, 11), 0);
}

#[test]
fn delays_stay_within_the_deadline() {
    assert_eq!(poll_delay(10 * SECOND, 3 * SECOND, 2 * SECOND), 2 * SECOND);
    assert_eq!(
        poll_delay(10 * SECOND, 10 * SECOND - MILLISECOND, 2 * SECOND),
        MILLISECOND
    );
    assert_eq!(poll_delay(10 * SECOND, 12 * SECOND, 2 * SECOND), 0);
}

#[test]
fn patience_is_between_one_second_and_eight() {
    assert_eq!(verify_timeout(0), SECOND);
    assert_eq!(verify_timeout(SECOND - 1), SECOND);
    assert_eq!(verify_timeout(SECOND), SECOND);
    assert_eq!(verify_timeout(5 * SECOND), 5 * SECOND);
    assert_eq!(verify_timeout(8 * SECOND), 8 * SECOND);
    assert_eq!(verify_timeout(60 * SECOND), 8 * SECOND);
}

#[test]
fn bonjour_is_due_at_first_and_then_every_ten_seconds() {
    assert!(should_check_bonjour(None, 0));
    assert!(!should_check_bonjour(Some(5 * SECOND), 15 * SECOND - 1));
    assert!(should_check_bonjour(Some(5 * SECOND), 15 * SECOND));
    assert!(!should_check_bonjour(Some(5 * SECOND), SECOND));
}

#[test]
fn ready_devices_are_the_phones() {
    let devices = || {
        vec![
            listed("a", DeviceState::Other, "A"),
            listed("b", DeviceState::Device, "B"),
            listed("c", DeviceState::Device, "C"),
            listed("d", DeviceState::Other, "D"),
        ]
    };
    assert_eq!(
        ready_connected_phones(devices()),
        vec![named_phone("b", "B"), named_phone("c", "C")]
    );
    assert_eq!(count_ready_devices(&devices()), 2);
    assert_eq!(only_ready_devices(devices())[0].serial, "b");
    assert_eq!(
        as_phone(&listed("a", DeviceState::Other, "A")),
        named_phone("a", "A")
    );
    assert_eq!(ready_connected_phones(Vec::new()), Vec::new());
}

#[test]
fn services_are_summed_up() {
    assert_eq!(endpoint_summary(&Vec::new()), "none");
    assert_eq!(
        endpoint_summary(&vec![known_service("1.1.1.1:1", ServiceKind::Connect)]),
        "1.1.1.1:1"
    );
    assert_eq!(
        endpoint_summary(&vec![
            known_service("1.1.1.1:1", ServiceKind::Connect),
            known_service("2.2.2.2:2", ServiceKind::Other),
        ]),
        "1.1.1.1:1, 2.2.2.2:2"
    );
    assert_eq!(
        join_with_commas(&vec!["a".to_string(), String::new(), "b".to_string()]),
        "a, , b"
    );
    assert!(known_service("x", ServiceKind::Pairing).is_pairing_service());
    assert!(!known_service("x", ServiceKind::Connect).is_pairing_service());
}

#[test]
fn options_and_phones_agree() {
    let phones = vec![named_phone("b", "B"), named_phone("c", "C")];
    let options = with_option(phone_options(&phones), "Close");
    assert_eq!(options, vec!["Use B", "Use C", "Close"]);
    assert_eq!(chosen_phone(&phones, 1), Some(named_phone("b", "B")));
    assert_eq!(chosen_phone(&phones, 2), Some(named_phone("c", "C")));
    assert_eq!(chosen_phone(&phones, 3), None);
}

#[test]
fn failures_keep_their_cause() {
    let failure = Failure::new("no route".to_string()).context("could not connect");
    assert_eq!(failure.message, "could not connect: no route");
    assert!(!failure.cancelled);
    assert!(Failure::cancelled().context("waiting").cancelled);
}

#[test]
fn texts_are_kept_in_order() {
    let mut texts: Vec<String> = Vec::new();
    add_text(&mut texts, "a".to_string());
    add_text(&mut texts, "b".to_string());
    assert!(has_text(&texts, &"b".to_string()));
    assert!(!has_text(&texts, &"c".to_string()));
    assert_eq!(copy_texts(&texts), vec!["a", "b"]);
}

#[test]
fn scripts_say_things_in_order() {
    let script = Script::new()
        .status("a")
        .followed_by(Script::new().success("b").warning("c"))
        .countdown_ends();
    let step = script.fail("d".to_string());
    assert_eq!(
        step.script.notices,
        vec![
            Notice::Status("a".to_string()),
            Notice::Success("b".to_string()),
            Notice::Warning("c".to_string()),
            Notice::CountdownEnds,
        ]
    );
    assert_eq!(
        step.next,
        Next::Give(Reply::Failed(Failure::new("d".to_string())))
    );
}

#[test]
fn requests_for_flows_are_told_apart() {
    assert!(Request::ResetAdbServer.needs_flow());
    assert!(Request::PairAndConnect(SECOND).needs_flow());
    assert!(!Request::ResetServer.needs_flow());
    assert!(!Request::Menu(Vec::new()).needs_flow());
}

#[test]
fn replies_without_a_list_are_empty_lists() {
    let device = listed("a", DeviceState::Device, "A");
    assert_eq!(
        Reply::Devices(vec![device.clone()]).into_devices(),
        vec![device]
    );
    assert_eq!(
        Reply::Failed(Failure::cancelled()).into_devices(),
        Vec::new()
    );
    assert_eq!(Reply::Done.into_services(), Vec::new());
    let service = known_service("x", ServiceKind::Connect);
    assert_eq!(
        Reply::Services(vec![service.clone()]).into_services(),
        vec![service]
    );
}

#[test]
fn instructions_have_a_heading_and_lines() {
    assert_eq!(Topic::ManualConnection.heading(), "Manual connection");
    assert_eq!(
        Topic::ManualConnection.lines(),
        vec![
            "On your Android phone, go back to the main Wireless debugging screen.",
            "Copy the value shown as \"IP address & Port\".",
        ]
    );
    assert_eq!(Topic::PairWithQrCode.heading(), "Pair with QR code");
    assert_eq!(
        Topic::PairWithQrCode.lines(),
        vec![
            "On your Android phone, go to Developer options -> Wireless debugging.",
            "Tap \"Pair device with QR code\".",
            "Scan the QR code below.",
        ]
    );
    assert_eq!(
        Topic::PairWithPairingCode.heading(),
        "Pair with pairing code"
    );
    assert_eq!(
        Topic::PairWithPairingCode.lines(),
        vec![
            "On your Android phone, go to Developer options -> Wireless debugging.",
            "Tap \"Pair device with pairing code\".",
            "Enter the pairing IP:port and pairing code shown on the phone.",
        ]
    );
    assert_eq!(Topic::ConnectPairedPhone.heading(), "Connect paired phone");
    assert_eq!(
        Topic::ConnectPairedPhone.lines(),
        vec![
            "Close the pairing-code dialog on the phone.",
            "On the main Wireless debugging screen, copy \"IP address & Port\".",
        ]
    );
}
